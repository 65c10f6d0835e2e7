//! The HTTP exchange as the client sees it: the request to send, and what
//! came of sending it. Nothing here performs the exchange.

use vstd::prelude::*;
use crate::catalog::{QueryBody, QueryBodyView};
use crate::error::TransportError;
use crate::json::{Json, JsonValue};

verus! {

/// The one endpoint every operation is posted to.
pub const API_ROOT: &'static str = "https://api.linear.app/graphql";

/// A request, fully built: a POST of `body` to `url`, with `authorization`
/// as the value of the `Authorization` header.
#[derive(Debug, Clone, PartialEq, Eq)]
pub struct HttpRequest {
    pub url: &'static str,
    pub authorization: String,
    pub body: QueryBody,
}

pub struct HttpRequestView {
    pub url: Seq<char>,
    pub authorization: Seq<char>,
    pub body: QueryBodyView,
}

impl View for HttpRequest {
    type V = HttpRequestView;

    open spec fn view(&self) -> HttpRequestView {
        HttpRequestView { url: self.url@, authorization: self.authorization@, body: self.body@ }
    }
}

/// What came of sending one request.
#[derive(Debug, PartialEq, Eq)]
pub enum Exchange {
    /// No answer came in time.
    TimedOut,
    /// No connection could be made.
    Refused,
    /// An answer came, with this status; `body` is its JSON document, or
    /// nothing where the body was none.
    Answered { status: u16, body: Option<Json> },
}

/// The envelope that an exchange delivered, or the way in which it failed.
/// The status is looked at before the body.
pub open spec fn answer_of(exchange: Exchange) -> Result<JsonValue, TransportError> {
    match exchange {
        Exchange::TimedOut => Err(TransportError::Timeout),
        Exchange::Refused => Err(TransportError::ConnectionRefused),
        Exchange::Answered { status, body } => if status < 200 || status > 299 {
            Err(TransportError::NonSuccessStatus(status))
        } else {
            match body {
                Some(envelope) => Ok(envelope@),
                None => Err(TransportError::MalformedBody),
            }
        },
    }
}

impl Exchange {
    /// The envelope of a successful exchange, or its failure; nothing is
    /// tried again.
    pub fn into_answer(self) -> (r: Result<Json, TransportError>)
        ensures
            match r {
                Ok(envelope) => answer_of(self) == Ok::<JsonValue, TransportError>(envelope@),
                Err(e) => answer_of(self) == Err::<JsonValue, TransportError>(e),
            },
    {
        match self {
            Exchange::TimedOut => Err(TransportError::Timeout),
            Exchange::Refused => Err(TransportError::ConnectionRefused),
            Exchange::Answered { status, body } => {
                if status < 200 || status > 299 {
                    Err(TransportError::NonSuccessStatus(status))
                } else {
                    match body {
                        Some(envelope) => Ok(envelope),
                        None => Err(TransportError::MalformedBody),
                    }
                }
            },
        }
    }
}

} // verus!
