use http_relay::{
    create_error_response, resolve_destination, Action, Event, HeaderField, Phase, Relay,
    RelayError, ResponseHead, Stage,
};

fn fetching() -> Relay {
    let (relay, action) = Relay::plan(resolve_destination(Some("http://example.com/")), Vec::new());
    assert!(matches!(action, Action::Fetch { .. }));
    relay
}

fn text_head(status: u16) -> ResponseHead {
    ResponseHead {
        status,
        headers: vec![HeaderField::new("content-type", b"text/plain")],
    }
}

fn streaming(status: u16) -> Relay {
    let mut relay = fetching();
    assert_eq!(
        relay.step(Event::UpstreamHead(text_head(status))),
        Action::CommitHead(text_head(status))
    );
    assert_eq!(relay.step(Event::HeadSent), Action::ReadChunk);
    relay
}

#[test]
fn plan_fetches_a_resolved_destination() {
    let headers = vec![
        HeaderField::new("host", b"relay.local"),
        HeaderField::new("accept", b"*/*"),
        HeaderField::new("cookie", &[0xff, 0x00]),
    ];
    let (relay, action) = Relay::plan(
        resolve_destination(Some("http%3A%2F%2Fexample.com%2Fx")),
        headers.clone(),
    );
    assert_eq!(relay.stage(), Stage::Fetching);
    assert_eq!(relay.phase(), Phase::Pending);
    match action {
        Action::Fetch { destination, headers: forwarded } => {
            assert_eq!(destination.as_str(), "http://example.com/x");
            assert_eq!(forwarded, headers);
        }
        other => panic!("unexpected action {:?}", other),
    }
}

#[test]
fn plan_refuses_with_the_error_response() {
    let (relay, action) = Relay::plan(Err(RelayError::MissingDestination), Vec::new());
    assert_eq!(relay.stage(), Stage::Closed);
    assert_eq!(
        action,
        Action::Respond(create_error_response(400, "Missing destination query parameter"))
    );
    let (relay, action) = Relay::plan(Err(RelayError::InvalidDestination), Vec::new());
    assert_eq!(relay.phase(), Phase::Closed);
    assert_eq!(
        action,
        Action::Respond(create_error_response(400, "Invalid destination URL"))
    );
    let (relay, action) = Relay::plan(Err(RelayError::UpstreamUnreachable), Vec::new());
    assert_eq!(relay.stage(), Stage::Closed);
    assert_eq!(
        action,
        Action::Respond(create_error_response(500, "Failed to fetch the destination URL"))
    );
}

#[test]
fn plan_aborts_on_an_error_without_response() {
    let (relay, action) = Relay::plan(Err(RelayError::RelayInterrupted), Vec::new());
    assert_eq!(relay.stage(), Stage::Closed);
    assert_eq!(action, Action::Abort(RelayError::RelayInterrupted));
}

#[test]
fn unreachable_upstream_gets_a_500_and_no_body() {
    let mut relay = fetching();
    let action = relay.step(Event::UpstreamFailed);
    match &action {
        Action::Respond(response) => {
            assert_eq!(response.head.status, 500);
            assert_eq!(response.body, b"Failed to fetch the destination URL".to_vec());
        }
        other => panic!("unexpected action {:?}", other),
    }
    assert_eq!(relay.stage(), Stage::Closed);
    assert_eq!(relay.step(Event::Chunk(b"late".to_vec())), Action::Ignore);
    assert_eq!(relay.step(Event::UpstreamHead(text_head(200))), Action::Ignore);
    assert_eq!(relay.step(Event::HeadSent), Action::Ignore);
    assert_eq!(relay.stage(), Stage::Closed);
}

#[test]
fn relays_head_and_chunks_in_order() {
    let mut relay = fetching();
    let mut status = 0;
    let mut headers = Vec::new();
    let mut body = Vec::new();
    let mut writes = 0;

    match relay.step(Event::UpstreamHead(text_head(200))) {
        Action::CommitHead(head) => {
            status = head.status;
            headers = head.headers;
        }
        other => panic!("unexpected action {:?}", other),
    }
    assert_eq!(relay.phase(), Phase::HeadCommitted);
    assert_eq!(relay.step(Event::HeadSent), Action::ReadChunk);
    for chunk in ["hello", "world"] {
        match relay.step(Event::Chunk(chunk.as_bytes().to_vec())) {
            Action::WriteChunk(bytes) => {
                assert_eq!(bytes, chunk.as_bytes());
                body.extend_from_slice(&bytes);
                writes += 1;
            }
            other => panic!("unexpected action {:?}", other),
        }
        assert_eq!(relay.stage(), Stage::Writing);
        assert_eq!(relay.step(Event::ChunkWritten), Action::ReadChunk);
        assert_eq!(relay.stage(), Stage::Reading);
    }
    assert_eq!(relay.step(Event::EndOfBody), Action::Finish);
    assert_eq!(relay.stage(), Stage::Closed);

    assert_eq!(status, 200);
    assert_eq!(
        headers,
        vec![HeaderField {
            name: "content-type".to_string(),
            value: b"text/plain".to_vec()
        }]
    );
    assert_eq!(body, b"helloworld".to_vec());
    assert_eq!(writes, 2);
}

#[test]
fn upstream_status_and_headers_pass_unchanged() {
    let head = ResponseHead {
        status: 404,
        headers: vec![
            HeaderField::new("Content-Type", b"text/html; charset=utf-8"),
            HeaderField::new("set-cookie", b"a=1"),
            HeaderField::new("set-cookie", b"b=2"),
            HeaderField::new("x-binary", &[0x80, 0xfe]),
        ],
    };
    let mut relay = fetching();
    assert_eq!(
        relay.step(Event::UpstreamHead(head.clone())),
        Action::CommitHead(head)
    );
    assert_eq!(relay.stage(), Stage::Committing);
}

#[test]
fn empty_body_finishes_at_once() {
    let mut relay = streaming(204);
    assert_eq!(relay.step(Event::EndOfBody), Action::Finish);
    assert_eq!(relay.phase(), Phase::Closed);
}

#[test]
fn empty_chunk_is_still_a_write() {
    let mut relay = streaming(200);
    assert_eq!(relay.step(Event::Chunk(Vec::new())), Action::WriteChunk(Vec::new()));
    assert_eq!(relay.step(Event::ChunkWritten), Action::ReadChunk);
}

#[test]
fn upstream_drop_mid_body_aborts_without_a_status() {
    let mut relay = streaming(200);
    assert_eq!(
        relay.step(Event::Chunk(b"hel".to_vec())),
        Action::WriteChunk(b"hel".to_vec())
    );
    assert_eq!(relay.step(Event::ChunkWritten), Action::ReadChunk);
    assert_eq!(
        relay.step(Event::ReadFailed),
        Action::Abort(RelayError::RelayInterrupted)
    );
    assert_eq!(relay.stage(), Stage::Closed);
    for event in [
        Event::UpstreamFailed,
        Event::ReadFailed,
        Event::WriteFailed,
        Event::EndOfBody,
        Event::Chunk(b"lo".to_vec()),
        Event::ChunkWritten,
        Event::HeadSent,
        Event::UpstreamHead(text_head(500)),
    ] {
        assert_eq!(relay.step(event), Action::Ignore);
        assert_eq!(relay.stage(), Stage::Closed);
    }
}

#[test]
fn client_drop_ends_the_relay() {
    let mut relay = streaming(200);
    assert_eq!(
        relay.step(Event::Chunk(b"one".to_vec())),
        Action::WriteChunk(b"one".to_vec())
    );
    assert_eq!(
        relay.step(Event::WriteFailed),
        Action::Abort(RelayError::RelayInterrupted)
    );
    assert_eq!(relay.stage(), Stage::Closed);
    assert_eq!(relay.step(Event::Chunk(b"two".to_vec())), Action::Ignore);
    assert_eq!(relay.step(Event::ChunkWritten), Action::Ignore);
}

#[test]
fn client_gone_before_the_head_ends_the_relay() {
    let mut relay = fetching();
    assert!(matches!(
        relay.step(Event::UpstreamHead(text_head(200))),
        Action::CommitHead(_)
    ));
    assert_eq!(
        relay.step(Event::WriteFailed),
        Action::Abort(RelayError::RelayInterrupted)
    );
    assert_eq!(relay.phase(), Phase::Closed);
}

#[test]
fn no_chunk_is_read_before_the_last_was_written() {
    let mut relay = streaming(200);
    assert_eq!(
        relay.step(Event::Chunk(b"a".to_vec())),
        Action::WriteChunk(b"a".to_vec())
    );
    assert_eq!(relay.step(Event::Chunk(b"b".to_vec())), Action::Ignore);
    assert_eq!(relay.step(Event::EndOfBody), Action::Ignore);
    assert_eq!(relay.step(Event::ReadFailed), Action::Ignore);
    assert_eq!(relay.stage(), Stage::Writing);
    assert_eq!(relay.step(Event::ChunkWritten), Action::ReadChunk);
}

#[test]
fn no_chunk_is_read_before_the_head_was_sent() {
    let mut relay = fetching();
    assert!(matches!(
        relay.step(Event::UpstreamHead(text_head(200))),
        Action::CommitHead(_)
    ));
    assert_eq!(relay.step(Event::Chunk(b"a".to_vec())), Action::Ignore);
    assert_eq!(relay.step(Event::ChunkWritten), Action::Ignore);
    assert_eq!(relay.stage(), Stage::Committing);
    assert_eq!(relay.step(Event::HeadSent), Action::ReadChunk);
}

#[test]
fn events_that_are_not_awaited_change_nothing() {
    let mut relay = fetching();
    for event in [
        Event::HeadSent,
        Event::Chunk(b"x".to_vec()),
        Event::EndOfBody,
        Event::ReadFailed,
        Event::ChunkWritten,
        Event::WriteFailed,
    ] {
        assert_eq!(relay.step(event), Action::Ignore);
        assert_eq!(relay.stage(), Stage::Fetching);
    }
    let mut relay = streaming(200);
    for event in [
        Event::UpstreamHead(text_head(500)),
        Event::UpstreamFailed,
        Event::HeadSent,
        Event::ChunkWritten,
        Event::WriteFailed,
    ] {
        assert_eq!(relay.step(event), Action::Ignore);
        assert_eq!(relay.stage(), Stage::Reading);
    }
}

#[test]
fn head_is_committed_once() {
    let mut relay = streaming(200);
    assert_eq!(relay.step(Event::UpstreamHead(text_head(500))), Action::Ignore);
    assert_eq!(relay.step(Event::UpstreamFailed), Action::Ignore);
    assert_eq!(relay.phase(), Phase::HeadCommitted);
}

#[test]
fn phases_follow_the_stages() {
    let mut relay = fetching();
    assert_eq!(relay.phase(), Phase::Pending);
    relay.step(Event::UpstreamHead(text_head(200)));
    assert_eq!(relay.phase(), Phase::HeadCommitted);
    relay.step(Event::HeadSent);
    assert_eq!(relay.phase(), Phase::HeadCommitted);
    relay.step(Event::Chunk(vec![1]));
    assert_eq!(relay.phase(), Phase::HeadCommitted);
    relay.step(Event::ChunkWritten);
    relay.step(Event::EndOfBody);
    assert_eq!(relay.phase(), Phase::Closed);
}

#[test]
fn same_events_give_the_same_actions() {
    let events = || {
        vec![
            Event::UpstreamHead(text_head(200)),
            Event::HeadSent,
            Event::Chunk(b"hello".to_vec()),
            Event::ChunkWritten,
            Event::Chunk(b"world".to_vec()),
            Event::ChunkWritten,
            Event::EndOfBody,
        ]
    };
    let mut first = fetching();
    let mut second = fetching();
    let first_actions: Vec<Action> = events().into_iter().map(|e| first.step(e)).collect();
    let second_actions: Vec<Action> = events().into_iter().map(|e| second.step(e)).collect();
    assert_eq!(first_actions, second_actions);
    assert_eq!(first, second);
    assert_eq!(first_actions.len(), 7);
    assert_eq!(first_actions[6], Action::Finish);
}
