//! The relay of one request, as a state machine.
//!
//! The caller owns the sockets. It reports each thing that happened as an
//! [`Event`], and the relay answers with the one [`Action`] to perform next.
//! The machine never reads ahead of the client and never changes its mind
//! about a head that it has committed.

use vstd::prelude::*;
use crate::destination::ResolvedDestination;
use crate::error::RelayError;
use crate::message::{headers_model, HeaderField, HeaderModel, HeadModel, ResponseHead};
use crate::response::{client_response_model, ErrorResponse, ErrorResponseModel};

verus! {

/// Where a relay stands.
#[derive(Debug, Clone, Copy, PartialEq, Eq, Structural)]
pub enum Stage {
    /// The outbound request is under way; no response head has arrived.
    Fetching,
    /// The head was handed over for sending; the client has not confirmed it.
    Committing,
    /// The next chunk of the upstream body is awaited.
    Reading,
    /// The client sink is being offered a chunk.
    Writing,
    /// Nothing more will be sent.
    Closed,
}

/// The three phases that matter to error handling. They are passed in this
/// order and never backwards.
#[derive(Debug, Clone, Copy, PartialEq, Eq, Structural)]
pub enum Phase {
    /// Nothing has gone to the client: an error response can still be sent.
    Pending,
    /// The head is out: only body bytes may follow.
    HeadCommitted,
    /// The exchange is over.
    Closed,
}

/// The phase to which a stage belongs.
pub open spec fn phase_of(stage: Stage) -> Phase {
    match stage {
        Stage::Fetching => Phase::Pending,
        Stage::Committing | Stage::Reading | Stage::Writing => Phase::HeadCommitted,
        Stage::Closed => Phase::Closed,
    }
}

/// The place of a phase in the order in which phases are passed.
pub open spec fn phase_rank(phase: Phase) -> nat {
    match phase {
        Phase::Pending => 0,
        Phase::HeadCommitted => 1,
        Phase::Closed => 2,
    }
}

/// What the caller reports to the relay.
#[derive(Debug, Clone, PartialEq, Eq)]
pub enum Event {
    /// The upstream answered; its body has not been read.
    UpstreamHead(ResponseHead),
    /// The outbound request failed in transport.
    UpstreamFailed,
    /// The client has the response head.
    HeadSent,
    /// The upstream body yielded its next chunk.
    Chunk(Vec<u8>),
    /// The upstream body is exhausted.
    EndOfBody,
    /// Reading the upstream body failed.
    ReadFailed,
    /// The client sink accepted the chunk it was offered.
    ChunkWritten,
    /// Writing to the client failed.
    WriteFailed,
}

/// What an [`Event`] stands for in contracts.
pub enum EventModel {
    UpstreamHead(HeadModel),
    UpstreamFailed,
    HeadSent,
    Chunk(Seq<u8>),
    EndOfBody,
    ReadFailed,
    ChunkWritten,
    WriteFailed,
}

impl View for Event {
    type V = EventModel;

    open spec fn view(&self) -> EventModel {
        match *self {
            Event::UpstreamHead(head) => EventModel::UpstreamHead(head@),
            Event::UpstreamFailed => EventModel::UpstreamFailed,
            Event::HeadSent => EventModel::HeadSent,
            Event::Chunk(bytes) => EventModel::Chunk(bytes@),
            Event::EndOfBody => EventModel::EndOfBody,
            Event::ReadFailed => EventModel::ReadFailed,
            Event::ChunkWritten => EventModel::ChunkWritten,
            Event::WriteFailed => EventModel::WriteFailed,
        }
    }
}

/// What the relay asks of the caller.
#[derive(Debug, PartialEq, Eq)]
pub enum Action {
    /// Issue a GET to `destination` with exactly these request headers, then
    /// report `UpstreamHead` or `UpstreamFailed`.
    Fetch { destination: ResolvedDestination, headers: Vec<HeaderField> },
    /// Send this response whole and close. Nothing else was or will be sent.
    Respond(ErrorResponse),
    /// Send this status and these headers to the client, then report
    /// `HeadSent`, or `WriteFailed` if the client is gone.
    CommitHead(ResponseHead),
    /// Pull one chunk from the upstream body, then report `Chunk`,
    /// `EndOfBody` or `ReadFailed`.
    ReadChunk,
    /// Offer these bytes to the client sink as one write, then report
    /// `ChunkWritten` or `WriteFailed`.
    WriteChunk(Vec<u8>),
    /// The body is complete: close the connection cleanly.
    Finish,
    /// Close the connection as it is and record this error.
    Abort(RelayError),
    /// The event was not awaited: do nothing.
    Ignore,
}

/// What an [`Action`] stands for in contracts.
pub enum ActionModel {
    Fetch { destination: Seq<char>, headers: Seq<HeaderModel> },
    Respond(ErrorResponseModel),
    CommitHead(HeadModel),
    ReadChunk,
    WriteChunk(Seq<u8>),
    Finish,
    Abort(RelayError),
    Ignore,
}

impl View for Action {
    type V = ActionModel;

    open spec fn view(&self) -> ActionModel {
        match *self {
            Action::Fetch { destination, headers } => ActionModel::Fetch {
                destination: destination@,
                headers: headers_model(headers@),
            },
            Action::Respond(response) => ActionModel::Respond(response@),
            Action::CommitHead(head) => ActionModel::CommitHead(head@),
            Action::ReadChunk => ActionModel::ReadChunk,
            Action::WriteChunk(bytes) => ActionModel::WriteChunk(bytes@),
            Action::Finish => ActionModel::Finish,
            Action::Abort(error) => ActionModel::Abort(error),
            Action::Ignore => ActionModel::Ignore,
        }
    }
}

/// The complete response for an error that is found while nothing has been
/// sent; for an error that has none, the exchange is aborted with it.
pub open spec fn refusal(error: RelayError) -> ActionModel {
    match client_response_model(error) {
        Some(response) => ActionModel::Respond(response),
        None => ActionModel::Abort(error),
    }
}

/// The relay's whole rule: the stage that follows `stage` on `event`, and the
/// action that goes with it.
pub open spec fn step_model(stage: Stage, event: EventModel) -> (Stage, ActionModel) {
    match stage {
        Stage::Fetching => match event {
            EventModel::UpstreamHead(head) => (Stage::Committing, ActionModel::CommitHead(head)),
            EventModel::UpstreamFailed => (Stage::Closed, refusal(RelayError::UpstreamUnreachable)),
            _ => (stage, ActionModel::Ignore),
        },
        Stage::Committing => match event {
            EventModel::HeadSent => (Stage::Reading, ActionModel::ReadChunk),
            EventModel::WriteFailed => (
                Stage::Closed,
                ActionModel::Abort(RelayError::RelayInterrupted),
            ),
            _ => (stage, ActionModel::Ignore),
        },
        Stage::Reading => match event {
            EventModel::Chunk(bytes) => (Stage::Writing, ActionModel::WriteChunk(bytes)),
            EventModel::EndOfBody => (Stage::Closed, ActionModel::Finish),
            EventModel::ReadFailed => (
                Stage::Closed,
                ActionModel::Abort(RelayError::RelayInterrupted),
            ),
            _ => (stage, ActionModel::Ignore),
        },
        Stage::Writing => match event {
            EventModel::ChunkWritten => (Stage::Reading, ActionModel::ReadChunk),
            EventModel::WriteFailed => (
                Stage::Closed,
                ActionModel::Abort(RelayError::RelayInterrupted),
            ),
            _ => (stage, ActionModel::Ignore),
        },
        Stage::Closed => (stage, ActionModel::Ignore),
    }
}

/// What the relay does once the destination is resolved or refused, with the
/// request headers that came in.
pub open spec fn plan_model(
    resolved: Result<Seq<char>, RelayError>,
    headers: Seq<HeaderModel>,
) -> (Stage, ActionModel) {
    match resolved {
        Ok(destination) => (Stage::Fetching, ActionModel::Fetch { destination, headers }),
        Err(error) => (Stage::Closed, refusal(error)),
    }
}

/// The view of a resolver's answer.
pub open spec fn resolved_model(
    resolved: Result<ResolvedDestination, RelayError>,
) -> Result<Seq<char>, RelayError> {
    match resolved {
        Ok(destination) => Ok(destination@),
        Err(error) => Err(error),
    }
}

/// The relay of one request.
#[derive(Debug, PartialEq, Eq)]
pub struct Relay {
    stage: Stage,
}

impl View for Relay {
    type V = Stage;

    closed spec fn view(&self) -> Stage {
        self.stage
    }
}

/// The action that answers an error found before anything was sent.
fn refuse(error: RelayError) -> (action: Action)
    ensures
        action@ == refusal(error),
{
    match error.client_response() {
        Some(response) => Action::Respond(response),
        None => Action::Abort(error),
    }
}

impl Relay {
    /// The stage in which the relay stands.
    pub fn stage(&self) -> (stage: Stage)
        ensures
            stage == self@,
    {
        self.stage
    }

    /// The phase of the exchange: whether an error response can still be
    /// sent, or the head is out, or all is over.
    pub fn phase(&self) -> (phase: Phase)
        ensures
            phase == phase_of(self@),
    {
        match self.stage {
            Stage::Fetching => Phase::Pending,
            Stage::Committing | Stage::Reading | Stage::Writing => Phase::HeadCommitted,
            Stage::Closed => Phase::Closed,
        }
    }

    /// Starts a relay from the resolver's answer.
    ///
    /// A resolved destination is fetched with all of `headers`, in their order
    /// and unchanged. A refusal is answered with its error response, and the
    /// relay is closed from the start.
    pub fn plan(resolved: Result<ResolvedDestination, RelayError>, headers: Vec<HeaderField>) -> (started:
        (Relay, Action))
        ensures
            (started.0@, started.1@) == plan_model(resolved_model(resolved), headers_model(headers@)),
    {
        match resolved {
            Ok(destination) => (
                Relay { stage: Stage::Fetching },
                Action::Fetch { destination, headers },
            ),
            Err(error) => (Relay { stage: Stage::Closed }, refuse(error)),
        }
    }

    /// Takes one event and says what to do next.
    ///
    /// An upstream head is committed as it came. After that each chunk is
    /// written before the next is read, and the first failure of either kind
    /// ends the relay. An event that the current stage does not await changes
    /// nothing.
    pub fn step(&mut self, event: Event) -> (action: Action)
        ensures
            (final(self)@, action@) == step_model(old(self)@, event@),
    {
        match self.stage {
            Stage::Fetching => match event {
                Event::UpstreamHead(head) => {
                    self.stage = Stage::Committing;
                    Action::CommitHead(head)
                },
                Event::UpstreamFailed => {
                    self.stage = Stage::Closed;
                    refuse(RelayError::UpstreamUnreachable)
                },
                _ => Action::Ignore,
            },
            Stage::Committing => match event {
                Event::HeadSent => {
                    self.stage = Stage::Reading;
                    Action::ReadChunk
                },
                Event::WriteFailed => {
                    self.stage = Stage::Closed;
                    Action::Abort(RelayError::RelayInterrupted)
                },
                _ => Action::Ignore,
            },
            Stage::Reading => match event {
                Event::Chunk(bytes) => {
                    self.stage = Stage::Writing;
                    Action::WriteChunk(bytes)
                },
                Event::EndOfBody => {
                    self.stage = Stage::Closed;
                    Action::Finish
                },
                Event::ReadFailed => {
                    self.stage = Stage::Closed;
                    Action::Abort(RelayError::RelayInterrupted)
                },
                _ => Action::Ignore,
            },
            Stage::Writing => match event {
                Event::ChunkWritten => {
                    self.stage = Stage::Reading;
                    Action::ReadChunk
                },
                Event::WriteFailed => {
                    self.stage = Stage::Closed;
                    Action::Abort(RelayError::RelayInterrupted)
                },
                _ => Action::Ignore,
            },
            Stage::Closed => Action::Ignore,
        }
    }
}

} // verus!
