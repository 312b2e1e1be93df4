//! The ways in which a relay can fail.

use vstd::prelude::*;

verus! {

/// Why a request was not served in full.
///
/// The first three are found before a single byte has gone to the client, so
/// each of them becomes a complete error response. The last one is found after
/// the response head was sent: it has no status of its own and shows only as a
/// connection that closes early.
#[derive(Debug, Clone, Copy, PartialEq, Eq, Structural)]
pub enum RelayError {
    /// The request carries no `destination` parameter.
    MissingDestination,
    /// The `destination` value does not decode, or decodes to no absolute URL.
    InvalidDestination,
    /// The outbound request failed before any response head arrived.
    UpstreamUnreachable,
    /// A chunk could not be read or written after the head was committed.
    RelayInterrupted,
}

} // verus!
