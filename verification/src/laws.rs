//! What holds of every relay, whatever the upstream and the client do.
//!
//! The laws speak of the relay's rule, `step_model`, and of `run`, which
//! applies it to a sequence of events and keeps a record of what the client
//! was sent.

use vstd::prelude::*;
use crate::error::RelayError;
use crate::destination::resolution;
use crate::handler::{destination_value, opening, RequestModel};
use crate::message::HeadModel;
use crate::relay::{phase_of, phase_rank, step_model, ActionModel, EventModel, Phase, Stage};
use crate::response::{client_response_model, error_response, ErrorResponseModel};

verus! {

/// What one client has been sent, and how the exchange ended.
pub struct Exchange {
    /// The complete error response, if the request was refused.
    pub refusal: Option<ErrorResponseModel>,
    /// The committed head, if the upstream answered.
    pub head: Option<HeadModel>,
    /// The chunks offered to the client, in the order of their writes.
    pub body: Seq<Seq<u8>>,
    /// Whether the body was relayed to its end.
    pub finished: bool,
    /// The error with which the exchange was cut short.
    pub aborted: Option<RelayError>,
}

/// The exchange in which nothing has happened.
pub open spec fn blank() -> Exchange {
    Exchange { refusal: None, head: None, body: Seq::empty(), finished: false, aborted: None }
}

/// The exchange after `action` was carried out.
pub open spec fn record(exchange: Exchange, action: ActionModel) -> Exchange {
    match action {
        ActionModel::Respond(response) => Exchange { refusal: Some(response), ..exchange },
        ActionModel::CommitHead(head) => Exchange { head: Some(head), ..exchange },
        ActionModel::WriteChunk(bytes) => Exchange { body: exchange.body.push(bytes), ..exchange },
        ActionModel::Finish => Exchange { finished: true, ..exchange },
        ActionModel::Abort(error) => Exchange { aborted: Some(error), ..exchange },
        _ => exchange,
    }
}

/// Stage and exchange after the relay has taken `events` one by one.
pub open spec fn run(stage: Stage, exchange: Exchange, events: Seq<EventModel>) -> (Stage, Exchange)
    decreases events.len(),
{
    if events.len() == 0 {
        (stage, exchange)
    } else {
        let (next, action) = step_model(stage, events[0]);
        run(next, record(exchange, action), events.drop_first())
    }
}

/// The events of an upstream that answers with `head`, up to the point where
/// the client has it and the first chunk is awaited.
pub open spec fn head_arrival(head: HeadModel) -> Seq<EventModel> {
    seq![EventModel::UpstreamHead(head), EventModel::HeadSent]
}

/// The events of an upstream that yields `chunks` to a client that accepts
/// each of them.
pub open spec fn delivery(chunks: Seq<Seq<u8>>) -> Seq<EventModel>
    decreases chunks.len(),
{
    if chunks.len() == 0 {
        Seq::empty()
    } else {
        seq![EventModel::Chunk(chunks[0]), EventModel::ChunkWritten] + delivery(
            chunks.drop_first(),
        )
    }
}

/// The exchange that one request and the events that follow it come to.
pub open spec fn exchange_of(request: RequestModel, events: Seq<EventModel>) -> Exchange {
    let (stage, first) = opening(request);
    run(stage, record(blank(), first), events).1
}

/// Whether an exchange is one that a relay can have reached in `stage`: the
/// head is out exactly from its commitment on, a refusal excludes head and
/// body, and body chunks need a head.
pub open spec fn consistent(stage: Stage, exchange: Exchange) -> bool {
    &&& phase_of(stage) == Phase::Pending ==> exchange == blank()
    &&& phase_of(stage) == Phase::HeadCommitted ==> exchange.head is Some
    &&& exchange.head is Some ==> exchange.refusal is None
    &&& exchange.refusal is Some ==> exchange.body.len() == 0
    &&& exchange.body.len() > 0 ==> exchange.head is Some
}

/// The phases are passed one way only: no event takes a relay back to an earlier one.
pub proof fn lemma_phase_never_recedes(stage: Stage, event: EventModel)
    ensures
        phase_rank(phase_of(stage)) <= phase_rank(phase_of(step_model(stage, event).0)),
{
}

/// Once the head is committed, no event brings a second head or an error
/// response: only body, the end, or nothing.
pub proof fn lemma_committed_head_stands(stage: Stage, event: EventModel)
    requires
        phase_of(stage) != Phase::Pending,
    ensures
        !(step_model(stage, event).1 is Respond),
        !(step_model(stage, event).1 is CommitHead),
        !(step_model(stage, event).1 is Fetch),
{
}

/// The relay reads a chunk only when the client has taken what came before:
/// the head, or the previous chunk.
pub proof fn lemma_reads_follow_writes(stage: Stage, event: EventModel)
    requires
        step_model(stage, event).1 is ReadChunk,
    ensures
        (stage == Stage::Committing && event is HeadSent) || (stage == Stage::Writing
            && event is ChunkWritten),
{
}

/// A chunk is written exactly as it was read, and only in answer to its read.
pub proof fn lemma_writes_what_was_read(stage: Stage, event: EventModel)
    requires
        step_model(stage, event).1 is WriteChunk,
    ensures
        stage == Stage::Reading,
        event == EventModel::Chunk(step_model(stage, event).1->WriteChunk_0),
{
}

/// A closed relay stays closed and sends nothing more, whatever it is told.
pub proof fn lemma_closed_is_final(exchange: Exchange, events: Seq<EventModel>)
    ensures
        run(Stage::Closed, exchange, events) == (Stage::Closed, exchange),
    decreases events.len(),
{
    if events.len() > 0 {
        lemma_closed_is_final(exchange, events.drop_first());
    }
}

/// Every exchange that a relay reaches is consistent: in particular, no client
/// is ever sent both a head and an error response.
pub proof fn lemma_run_is_consistent(stage: Stage, exchange: Exchange, events: Seq<EventModel>)
    requires
        consistent(stage, exchange),
    ensures
        consistent(run(stage, exchange, events).0, run(stage, exchange, events).1),
    decreases events.len(),
{
    if events.len() > 0 {
        let (next, action) = step_model(stage, events[0]);
        lemma_run_is_consistent(next, record(exchange, action), events.drop_first());
    }
}

/// An upstream that cannot be reached costs the client a 500 and nothing
/// else: no head of another response, no body chunk, whatever is reported
/// afterwards.
pub proof fn lemma_unreachable_upstream(later: Seq<EventModel>)
    ensures
        run(Stage::Fetching, blank(), seq![EventModel::UpstreamFailed] + later) == (
            Stage::Closed,
            Exchange {
                refusal: Some(error_response(500, "Failed to fetch the destination URL"@)),
                ..blank()
            },
        ),
{
    let events = seq![EventModel::UpstreamFailed] + later;
    let refused = Exchange {
        refusal: Some(error_response(500, "Failed to fetch the destination URL"@)),
        ..blank()
    };
    assert(events.drop_first() =~= later);
    lemma_closed_is_final(refused, later);
}

/// While upstream and client both keep up, the chunks reach the client one
/// write each, in the order in which they were read.
pub proof fn lemma_delivery(exchange: Exchange, chunks: Seq<Seq<u8>>, later: Seq<EventModel>)
    ensures
        run(Stage::Reading, exchange, delivery(chunks) + later) == run(
            Stage::Reading,
            Exchange { body: exchange.body + chunks, ..exchange },
            later,
        ),
    decreases chunks.len(),
{
    if chunks.len() > 0 {
        let events = delivery(chunks) + later;
        let written = Exchange { body: exchange.body.push(chunks[0]), ..exchange };
        let remaining = delivery(chunks.drop_first()) + later;
        assert(events.drop_first().drop_first() =~= remaining);
        assert(run(Stage::Writing, written, events.drop_first()) == run(
            Stage::Reading,
            written,
            remaining,
        ));
        lemma_delivery(written, chunks.drop_first(), later);
        assert(written.body + chunks.drop_first() =~= exchange.body + chunks);
    }
}

/// Taking the upstream head puts it before the client unchanged and leaves
/// the relay waiting for the first chunk.
pub proof fn lemma_head_arrival(head: HeadModel, later: Seq<EventModel>)
    ensures
        run(Stage::Fetching, blank(), head_arrival(head) + later) == run(
            Stage::Reading,
            Exchange { head: Some(head), ..blank() },
            later,
        ),
{
    let events = head_arrival(head) + later;
    let committed = Exchange { head: Some(head), ..blank() };
    assert(events.drop_first().drop_first() =~= later);
    assert(run(Stage::Committing, committed, events.drop_first()) == run(
        Stage::Reading,
        committed,
        later,
    ));
}

/// An upstream that answers and then yields `chunks` to the end gives the
/// client its status and headers as they came, and its chunks in their order,
/// and the exchange finishes.
pub proof fn lemma_complete_relay(head: HeadModel, chunks: Seq<Seq<u8>>)
    ensures
        run(
            Stage::Fetching,
            blank(),
            head_arrival(head) + (delivery(chunks) + seq![EventModel::EndOfBody]),
        ) == (Stage::Closed, Exchange { head: Some(head), body: chunks, finished: true, ..blank() }),
{
    let committed = Exchange { head: Some(head), ..blank() };
    let end = seq![EventModel::EndOfBody];
    lemma_head_arrival(head, delivery(chunks) + end);
    lemma_delivery(committed, chunks, end);
    let relayed = Exchange { body: chunks, ..committed };
    assert(run(Stage::Reading, relayed, end) == run(
        Stage::Closed,
        Exchange { finished: true, ..relayed },
        end.drop_first(),
    ));
}

/// An upstream that fails after `chunks` leaves the client with the head and
/// those chunks and a connection that closes early. No error status follows,
/// whatever is reported afterwards.
pub proof fn lemma_upstream_drops(head: HeadModel, chunks: Seq<Seq<u8>>, later: Seq<EventModel>)
    ensures
        run(
            Stage::Fetching,
            blank(),
            head_arrival(head) + (delivery(chunks) + (seq![EventModel::ReadFailed] + later)),
        ) == (
            Stage::Closed,
            Exchange {
                head: Some(head),
                body: chunks,
                aborted: Some(RelayError::RelayInterrupted),
                ..blank()
            },
        ),
{
    let committed = Exchange { head: Some(head), ..blank() };
    let tail = seq![EventModel::ReadFailed] + later;
    lemma_head_arrival(head, delivery(chunks) + tail);
    lemma_delivery(committed, chunks, tail);
    assert(tail.drop_first() =~= later);
    let relayed = Exchange { body: chunks, ..committed };
    let cut = Exchange { aborted: Some(RelayError::RelayInterrupted), ..relayed };
    lemma_closed_is_final(cut, later);
}

/// A client that goes away while it is offered `last` ends the relay at once:
/// no further chunk is read or offered, and no error status follows.
pub proof fn lemma_client_drops(
    head: HeadModel,
    chunks: Seq<Seq<u8>>,
    last: Seq<u8>,
    later: Seq<EventModel>,
)
    ensures
        run(
            Stage::Fetching,
            blank(),
            head_arrival(head) + (delivery(chunks) + (seq![
                EventModel::Chunk(last),
                EventModel::WriteFailed,
            ] + later)),
        ) == (
            Stage::Closed,
            Exchange {
                head: Some(head),
                body: chunks.push(last),
                aborted: Some(RelayError::RelayInterrupted),
                ..blank()
            },
        ),
{
    let committed = Exchange { head: Some(head), ..blank() };
    let tail = seq![EventModel::Chunk(last), EventModel::WriteFailed] + later;
    lemma_head_arrival(head, delivery(chunks) + tail);
    lemma_delivery(committed, chunks, tail);
    let relayed = Exchange { body: chunks, ..committed };
    let offered = Exchange { body: chunks.push(last), ..relayed };
    let cut = Exchange { aborted: Some(RelayError::RelayInterrupted), ..offered };
    assert(tail.drop_first().drop_first() =~= later);
    assert(run(Stage::Writing, offered, tail.drop_first()) == run(Stage::Closed, cut, later));
    lemma_closed_is_final(cut, later);
}

/// A request whose destination is missing or invalid gets its error response
/// and nothing else, whatever is reported afterwards.
pub proof fn lemma_request_refused(request: RequestModel, events: Seq<EventModel>)
    requires
        resolution(destination_value(request.uri)) is Err,
    ensures
        exchange_of(request, events) == (Exchange {
            refusal: client_response_model(resolution(destination_value(request.uri))->Err_0),
            ..blank()
        }),
        exchange_of(request, events).refusal is Some,
{
    let started = record(blank(), opening(request).1);
    lemma_closed_is_final(started, events);
}

/// A request whose destination resolves, met by an upstream that answers and
/// yields `chunks` to the end, is served in full: the upstream's status and
/// headers, then its chunks.
pub proof fn lemma_request_served(request: RequestModel, head: HeadModel, chunks: Seq<Seq<u8>>)
    requires
        resolution(destination_value(request.uri)) is Ok,
    ensures
        exchange_of(
            request,
            head_arrival(head) + (delivery(chunks) + seq![EventModel::EndOfBody]),
        ) == (Exchange { head: Some(head), body: chunks, finished: true, ..blank() }),
{
    lemma_complete_relay(head, chunks);
}

/// The relay adds nothing of its own: the same request, met by the same
/// upstream and client behaviour, comes to the same exchange, status, headers
/// and body alike.
pub proof fn lemma_same_request_same_exchange(
    first: RequestModel,
    second: RequestModel,
    first_events: Seq<EventModel>,
    second_events: Seq<EventModel>,
)
    requires
        first.uri == second.uri,
        first.headers == second.headers,
        first_events == second_events,
    ensures
        opening(first) == opening(second),
        exchange_of(first, first_events) == exchange_of(second, second_events),
{
}

/// Whatever a request and the events after it are, the client is never sent
/// an error response once a head was committed, nor a body without a head.
pub proof fn lemma_exchange_is_consistent(request: RequestModel, events: Seq<EventModel>)
    ensures
        exchange_of(request, events).head is Some ==> exchange_of(request, events).refusal is None,
        exchange_of(request, events).refusal is Some ==> exchange_of(request, events).body.len()
            == 0,
        exchange_of(request, events).body.len() > 0 ==> exchange_of(request, events).head is Some,
{
    let (stage, first) = opening(request);
    let started = record(blank(), first);
    lemma_run_is_consistent(stage, started, events);
}

} // verus!
