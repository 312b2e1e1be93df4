//! The first decision on a request: fetch, or refuse.

use vstd::prelude::*;
use crate::destination::{parsed_url, percent_decoded, resolution, resolve_destination};
use crate::message::{headers_model, HeaderField, HeaderModel};
use crate::query::{extract_query_params, query_params};
use crate::relay::{plan_model, Action, ActionModel, Relay, Stage};
use crate::response::error_response;

verus! {

/// A request as it came in. Its body, if it has one, is not looked at.
#[derive(Debug, Clone, PartialEq, Eq)]
pub struct InboundRequest {
    pub method: String,
    /// The request target: the path, and the query behind it.
    pub uri: String,
    pub headers: Vec<HeaderField>,
}

/// What an [`InboundRequest`] stands for in contracts.
pub struct RequestModel {
    pub method: Seq<char>,
    pub uri: Seq<char>,
    pub headers: Seq<HeaderModel>,
}

impl View for InboundRequest {
    type V = RequestModel;

    open spec fn view(&self) -> RequestModel {
        RequestModel {
            method: self.method@,
            uri: self.uri@,
            headers: headers_model(self.headers@),
        }
    }
}

/// The raw value of the `destination` parameter of a request target.
pub open spec fn destination_value(target: Seq<char>) -> Option<Seq<char>> {
    let params = query_params(target);
    if params.contains_key("destination"@) {
        Some(params["destination"@])
    } else {
        None
    }
}

/// The stage in which a relay starts on `request`, and its first action.
pub open spec fn opening(request: RequestModel) -> (Stage, ActionModel) {
    plan_model(resolution(destination_value(request.uri)), request.headers)
}

/// The refusal with status 400 whose body is `message`, from a relay that is
/// closed at once.
pub open spec fn bad_request(message: Seq<char>) -> (Stage, ActionModel) {
    (Stage::Closed, ActionModel::Respond(error_response(400, message)))
}

/// Starts the relay of one request.
///
/// The parameters are read off the target, the `destination` among them is
/// resolved, and the answer is planned: a fetch that forwards every request
/// header, or the error response for the first thing that was wrong.
pub fn begin(request: InboundRequest) -> (started: (Relay, Action))
    ensures
        (started.0@, started.1@) == opening(request@),
        // A request that names no destination is refused as such.
        destination_value(request@.uri) is None ==> (started.0@, started.1@) == bad_request(
            "Missing destination query parameter"@,
        ),
        // A destination that does not decode, or decodes to no URL, is invalid.
        destination_value(request@.uri) matches Some(raw) ==> match percent_decoded(raw) {
            None => (started.0@, started.1@) == bad_request("Invalid destination URL"@),
            Some(text) => match parsed_url(text) {
                None => (started.0@, started.1@) == bad_request("Invalid destination URL"@),
                Some(href) => started.0@ == Stage::Fetching && started.1@ == (
                ActionModel::Fetch { destination: href, headers: request@.headers }),
            },
        },
        // A destination without an escape stands for itself: it is fetched
        // whenever it parses as it was written.
        destination_value(request@.uri) matches Some(raw) ==> (!raw.contains('%')
            ==> percent_decoded(raw) == Some(raw) && (parsed_url(raw) matches Some(href)
            ==> started.1@ == (ActionModel::Fetch { destination: href, headers: request@.headers }))),
{
    let InboundRequest { method: _, uri, headers } = request;
    let params = extract_query_params(uri.as_str());
    let raw: Option<&str> = match params.get("destination") {
        Some(value) => Some(value.as_str()),
        None => None,
    };
    let resolved = resolve_destination(raw);
    Relay::plan(resolved, headers)
}

} // verus!
