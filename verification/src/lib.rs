//! Client core for an issue tracker's GraphQL API: request building, response
//! decoding, client-side filtering and team-name resolution, all without I/O.

pub mod catalog;
pub mod client;
pub mod error;
pub mod formatting;
pub mod json;
pub mod mapper;
pub mod menu;
pub mod model;
pub mod resolve;
pub mod transport;
