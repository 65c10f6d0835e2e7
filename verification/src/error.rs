//! The closed set of failures, one type per layer.

use vstd::prelude::*;
use crate::model::views;

verus! {

/// A failure of the HTTP exchange itself.
#[derive(Debug, Clone, Copy, PartialEq, Eq)]
pub enum TransportError {
    Timeout,
    ConnectionRefused,
    /// The server answered with a status outside 200..=299.
    NonSuccessStatus(u16),
    /// The body of the answer was not a JSON document.
    MalformedBody,
}

/// A failure found in the envelope of an answer that did arrive.
#[derive(Debug, Clone, PartialEq, Eq)]
pub enum ApiError {
    /// The envelope holds no data; `messages` are the server's, word for word.
    NoData { messages: Vec<String> },
    /// The member named `field` is missing or of the wrong type.
    MalformedPayload { field: String },
}

pub enum ApiErrorView {
    NoData { messages: Seq<Seq<char>> },
    MalformedPayload { field: Seq<char> },
}

impl View for ApiError {
    type V = ApiErrorView;

    open spec fn view(&self) -> ApiErrorView {
        match self {
            ApiError::NoData { messages } => ApiErrorView::NoData { messages: views(messages@) },
            ApiError::MalformedPayload { field } => ApiErrorView::MalformedPayload {
                field: field@,
            },
        }
    }
}

/// An input of the caller's that is refused before anything is sent.
#[derive(Debug, Clone, Copy, PartialEq, Eq)]
pub enum ValidationError {
    EmptyTitle,
    NegativePoints,
}

/// A team name that does not pick out exactly one team.
#[derive(Debug, Clone, PartialEq, Eq)]
pub enum ResolutionError {
    /// No team has the name.
    NotFound(String),
    /// So many teams have the name, at least two.
    Ambiguous(String, usize),
}

pub enum ResolutionErrorView {
    NotFound(Seq<char>),
    Ambiguous(Seq<char>, nat),
}

impl View for ResolutionError {
    type V = ResolutionErrorView;

    open spec fn view(&self) -> ResolutionErrorView {
        match self {
            ResolutionError::NotFound(name) => ResolutionErrorView::NotFound(name@),
            ResolutionError::Ambiguous(name, count) => ResolutionErrorView::Ambiguous(
                name@,
                *count as nat,
            ),
        }
    }
}

/// Whatever a client operation can fail with; each kind is passed on unchanged.
#[derive(Debug, Clone, PartialEq, Eq)]
pub enum ClientError {
    Transport(TransportError),
    Api(ApiError),
    Validation(ValidationError),
    Resolution(ResolutionError),
}

pub enum ClientErrorView {
    Transport(TransportError),
    Api(ApiErrorView),
    Validation(ValidationError),
    Resolution(ResolutionErrorView),
}

impl View for ClientError {
    type V = ClientErrorView;

    open spec fn view(&self) -> ClientErrorView {
        match self {
            ClientError::Transport(e) => ClientErrorView::Transport(*e),
            ClientError::Api(e) => ClientErrorView::Api(e@),
            ClientError::Validation(e) => ClientErrorView::Validation(*e),
            ClientError::Resolution(e) => ClientErrorView::Resolution(e@),
        }
    }
}

} // verus!
