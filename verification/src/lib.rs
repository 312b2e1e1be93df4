//! A single-endpoint HTTP relay, as a library of decisions.
//!
//! A client names a target URL in the `destination` query parameter. The relay
//! decodes and validates it, fetches it with a GET, and streams the upstream
//! response back chunk by chunk. This crate holds every decision of that
//! pipeline and proves what each one returns; the sockets stay with the caller,
//! who performs the actions that the relay asks for and reports what happened.

pub mod destination;
pub mod error;
pub mod handler;
pub mod laws;
pub mod message;
pub mod query;
pub mod relay;
pub mod response;

pub use destination::{resolve_destination, ResolvedDestination};
pub use error::RelayError;
pub use handler::{begin, InboundRequest, RequestModel};
pub use message::{HeaderField, HeaderModel, HeadModel, ResponseHead};
pub use query::extract_query_params;
pub use relay::{Action, ActionModel, Event, EventModel, Phase, Relay, Stage};
pub use response::{create_error_response, ErrorResponse, ErrorResponseModel};
