use http::header::{HeaderMap, HeaderValue, CONTENT_RANGE, RANGE};
use range_transform::error::{ErrorKind, FetchCause, HandlerError};
use range_transform::handler::{accept, interpret, respond, submission_for, Addressing, STATUS_OK};
use range_transform::machine::{step, Action, Event, State};
use range_transform::model::{
    FetchRequest, FetchResponse, FetchedContent, InvocationEvent, ObjectContext,
    ResponseSubmission,
};

fn context(route: &str, token: &str, url: &str) -> ObjectContext {
    ObjectContext {
        output_route: route.to_string(),
        output_token: token.to_string(),
        source_url: url.to_string(),
    }
}

fn ranged_event(range: &[u8]) -> InvocationEvent {
    InvocationEvent {
        context: Some(context("R1", "T1", "https://objects.example/item?sig=abc")),
        requested_range: Some(range.to_vec()),
    }
}

fn answer(content_range: Option<&[u8]>, body: &[u8]) -> FetchResponse {
    FetchResponse {
        status: 206,
        content_range: content_range.map(|d| d.to_vec()),
        body: body.to_vec(),
    }
}

/// Drives the machine as a driver would, answering each request from the
/// given fetch and submission outcomes, and records every action.
fn drive(
    invocation: InvocationEvent,
    fetch: Result<FetchResponse, String>,
    submit: Result<(), String>,
) -> (State, Vec<Action>) {
    let mut state = State::Parsing;
    let mut event = Event::Invoked(invocation);
    let mut seen = Vec::new();
    loop {
        let (next, action) = step(state, event);
        state = next;
        seen.push(action.clone());
        event = match action {
            Action::Fetch(_) => match fetch.clone() {
                Ok(response) => Event::FetchReturned(response),
                Err(reason) => Event::FetchFailed { reason },
            },
            Action::Resume => Event::Resumed,
            Action::Submit(_) => match submit.clone() {
                Ok(()) => Event::SubmissionAccepted,
                Err(cause) => Event::SubmissionFailed { cause },
            },
            Action::Succeed | Action::Fail(_) | Action::Ignore => return (state, seen),
        };
    }
}

fn fetches(actions: &[Action]) -> usize {
    actions.iter().filter(|a| matches!(a, Action::Fetch(_))).count()
}

fn submissions(actions: &[Action]) -> usize {
    actions.iter().filter(|a| matches!(a, Action::Submit(_))).count()
}

#[test]
fn hello_world_is_written_back_in_upper_case() {
    let (state, actions) = drive(
        ranged_event(b"bytes=0-10"),
        Ok(answer(Some(b"bytes 0-10/11"), b"hello world")),
        Ok(()),
    );
    assert_eq!(state, State::Completed);
    assert_eq!(
        actions,
        vec![
            Action::Fetch(FetchRequest {
                url: "https://objects.example/item?sig=abc".to_string(),
                range: b"bytes=0-10".to_vec(),
            }),
            Action::Resume,
            Action::Submit(ResponseSubmission {
                output_route: "R1".to_string(),
                output_token: "T1".to_string(),
                status_code: 200,
                body: b"HELLO WORLD".to_vec(),
                content_range: b"bytes 0-10/11".to_vec(),
            }),
            Action::Succeed,
        ]
    );
}

#[test]
fn hello_world_through_header_maps() {
    let mut request_headers = HeaderMap::new();
    request_headers.insert(RANGE, HeaderValue::from_static("bytes=0-10"));
    let invocation = InvocationEvent::from_request(
        Some(context("R1", "T1", "https://objects.example/item")),
        &request_headers,
    );
    let mut response_headers = HeaderMap::new();
    response_headers.insert(CONTENT_RANGE, HeaderValue::from_static("bytes 0-10/11"));
    let response = FetchResponse::from_parts(206, &response_headers, b"hello world".to_vec());
    let (state, actions) = drive(invocation, Ok(response), Ok(()));
    assert_eq!(state, State::Completed);
    assert_eq!(actions.len(), 4);
    assert_eq!(
        actions[2],
        Action::Submit(ResponseSubmission {
            output_route: "R1".to_string(),
            output_token: "T1".to_string(),
            status_code: 200,
            body: b"HELLO WORLD".to_vec(),
            content_range: b"bytes 0-10/11".to_vec(),
        })
    );
}

#[test]
fn status_is_200_for_every_successful_fetch() {
    let bodies: [&[u8]; 4] = [b"", b"a", b"MiXeD 123", "gr\u{fc}\u{df}e".as_bytes()];
    for body in bodies {
        let (_, actions) =
            drive(ranged_event(b"bytes=5-9"), Ok(answer(Some(b"bytes 5-9/100"), body)), Ok(()));
        match &actions[2] {
            Action::Submit(submission) => assert_eq!(submission.status_code, 200),
            other => panic!("no submission: {:?}", other),
        }
    }
    assert_eq!(STATUS_OK, 200);
}

#[test]
fn content_range_is_passed_through_byte_for_byte() {
    let descriptors: [&[u8]; 4] =
        [b"bytes 0-499/1234", b"bytes 0-0/*", b"", &[0x62, 0xff, 0x80, 0x20]];
    for descriptor in descriptors {
        let (_, actions) =
            drive(ranged_event(b"bytes=0-499"), Ok(answer(Some(descriptor), b"abc")), Ok(()));
        match &actions[2] {
            Action::Submit(submission) => assert_eq!(submission.content_range, descriptor),
            other => panic!("no submission: {:?}", other),
        }
    }
}

#[test]
fn content_range_is_not_recomputed_when_the_length_changes() {
    let body = "stra\u{df}e".as_bytes();
    let (_, actions) =
        drive(ranged_event(b"bytes=0-6"), Ok(answer(Some(b"bytes 0-6/7"), body)), Ok(()));
    match &actions[2] {
        Action::Submit(submission) => {
            assert_eq!(submission.body, b"STRASSE".to_vec());
            assert_ne!(submission.body.len(), body.len() - 1);
            assert_eq!(submission.content_range, b"bytes 0-6/7".to_vec());
        }
        other => panic!("no submission: {:?}", other),
    }
}

#[test]
fn missing_range_aborts_before_any_fetch() {
    let invocation = InvocationEvent {
        context: Some(context("R1", "T1", "https://objects.example/item")),
        requested_range: None,
    };
    let (state, actions) =
        drive(invocation, Ok(answer(Some(b"bytes 0-10/11"), b"hello world")), Ok(()));
    assert_eq!(state, State::Aborted { kind: ErrorKind::MissingRangeHeader });
    assert_eq!(actions, vec![Action::Fail(HandlerError::MissingRangeHeader)]);
    assert_eq!(fetches(&actions), 0);
    assert_eq!(submissions(&actions), 0);
}

#[test]
fn missing_range_in_header_map_aborts_before_any_fetch() {
    let invocation = InvocationEvent::from_request(
        Some(context("R1", "T1", "https://objects.example/item")),
        &HeaderMap::new(),
    );
    assert_eq!(invocation.requested_range, None);
    let (state, action) = step(State::Parsing, Event::Invoked(invocation));
    assert_eq!(state, State::Aborted { kind: ErrorKind::MissingRangeHeader });
    assert_eq!(action, Action::Fail(HandlerError::MissingRangeHeader));
}

#[test]
fn missing_context_aborts_before_any_fetch() {
    let invocation = InvocationEvent { context: None, requested_range: Some(b"bytes=0-1".to_vec()) };
    let (state, actions) = drive(invocation, Ok(answer(Some(b"bytes 0-1/2"), b"ab")), Ok(()));
    assert_eq!(state, State::Aborted { kind: ErrorKind::MissingContext });
    assert_eq!(actions, vec![Action::Fail(HandlerError::MissingContext)]);
}

#[test]
fn missing_context_is_reported_before_missing_range() {
    let invocation = InvocationEvent { context: None, requested_range: None };
    assert_eq!(interpret(invocation), Err(HandlerError::MissingContext));
}

#[test]
fn missing_content_range_aborts_before_any_submission() {
    let (state, actions) =
        drive(ranged_event(b"bytes=0-10"), Ok(answer(None, b"hello world")), Ok(()));
    assert_eq!(state, State::Aborted { kind: ErrorKind::MissingContentRange });
    assert_eq!(actions.len(), 2);
    assert_eq!(actions[1], Action::Fail(HandlerError::MissingContentRange));
    assert_eq!(fetches(&actions), 1);
    assert_eq!(submissions(&actions), 0);
}

#[test]
fn binary_body_fails_with_encoding_error() {
    let (state, actions) = drive(
        ranged_event(b"bytes=0-3"),
        Ok(answer(Some(b"bytes 0-3/4"), &[0xff, 0xfe, 0x00, 0x80])),
        Ok(()),
    );
    assert_eq!(state, State::Aborted { kind: ErrorKind::Encoding });
    assert_eq!(actions.len(), 3);
    assert_eq!(actions[2], Action::Fail(HandlerError::Encoding));
    assert_eq!(submissions(&actions), 0);
}

#[test]
fn transport_error_fails_with_fetch_error() {
    let (state, actions) =
        drive(ranged_event(b"bytes=0-10"), Err("connection refused".to_string()), Ok(()));
    assert_eq!(state, State::Aborted { kind: ErrorKind::Fetch });
    assert_eq!(actions.len(), 2);
    assert_eq!(
        actions[1],
        Action::Fail(HandlerError::Fetch {
            cause: FetchCause::Transport { reason: "connection refused".to_string() }
        })
    );
    assert_eq!(submissions(&actions), 0);
}

#[test]
fn status_outside_2xx_fails_with_fetch_error() {
    for status in [0u16, 100, 199, 300, 304, 403, 404, 416, 500, 503, u16::MAX] {
        let mut response = answer(Some(b"bytes 0-10/11"), b"hello world");
        response.status = status;
        let (state, actions) = drive(ranged_event(b"bytes=0-10"), Ok(response), Ok(()));
        assert_eq!(state, State::Aborted { kind: ErrorKind::Fetch });
        assert_eq!(
            actions[1],
            Action::Fail(HandlerError::Fetch { cause: FetchCause::Status { code: status } })
        );
        assert_eq!(submissions(&actions), 0);
    }
}

#[test]
fn every_2xx_status_is_a_successful_fetch() {
    for status in [200u16, 206, 299] {
        let mut response = answer(Some(b"bytes 0-1/2"), b"ok");
        response.status = status;
        let (state, actions) = drive(ranged_event(b"bytes=0-1"), Ok(response), Ok(()));
        assert_eq!(state, State::Completed);
        assert_eq!(submissions(&actions), 1);
    }
}

#[test]
fn bad_status_is_reported_before_missing_content_range() {
    let mut response = answer(None, b"not found");
    response.status = 404;
    assert_eq!(
        accept(response),
        Err(HandlerError::Fetch { cause: FetchCause::Status { code: 404 } })
    );
}

#[test]
fn rejected_submission_fails_with_submission_error() {
    let (state, actions) = drive(
        ranged_event(b"bytes=0-10"),
        Ok(answer(Some(b"bytes 0-10/11"), b"hello world")),
        Err("access denied".to_string()),
    );
    assert_eq!(state, State::Aborted { kind: ErrorKind::Submission });
    assert_eq!(actions.len(), 4);
    assert_eq!(
        actions[3],
        Action::Fail(HandlerError::Submission { cause: "access denied".to_string() })
    );
    assert_eq!(submissions(&actions), 1);
}

#[test]
fn events_out_of_turn_change_nothing() {
    let (state, action) = step(State::Parsing, Event::Resumed);
    assert_eq!((state, action), (State::Parsing, Action::Ignore));
    let fetching = State::Fetching { output_route: "R".to_string(), output_token: "T".to_string() };
    let (state, action) = step(fetching.clone(), Event::SubmissionAccepted);
    assert_eq!((state, action), (fetching.clone(), Action::Ignore));
    let (state, action) = step(fetching.clone(), Event::Invoked(ranged_event(b"bytes=0-1")));
    assert_eq!((state, action), (fetching, Action::Ignore));
    let transforming = State::Transforming {
        output_route: "R".to_string(),
        output_token: "T".to_string(),
        fetched: FetchedContent { content_range: b"bytes 0-1/2".to_vec(), body: b"ab".to_vec() },
    };
    let (state, action) = step(transforming.clone(), Event::FetchFailed { reason: "x".to_string() });
    assert_eq!((state, action), (transforming, Action::Ignore));
    let (state, action) = step(State::Submitting, Event::Resumed);
    assert_eq!((state, action), (State::Submitting, Action::Ignore));
}

#[test]
fn final_states_absorb_every_event() {
    let events = vec![
        Event::Invoked(ranged_event(b"bytes=0-1")),
        Event::FetchReturned(answer(Some(b"bytes 0-1/2"), b"ab")),
        Event::FetchFailed { reason: "late".to_string() },
        Event::Resumed,
        Event::SubmissionAccepted,
        Event::SubmissionFailed { cause: "late".to_string() },
    ];
    for event in events {
        let (state, action) = step(State::Completed, event.clone());
        assert_eq!((state, action), (State::Completed, Action::Ignore));
        let aborted = State::Aborted { kind: ErrorKind::Fetch };
        let (state, action) = step(aborted.clone(), event);
        assert_eq!((state, action), (aborted, Action::Ignore));
    }
}

#[test]
fn interpreter_extracts_all_four_parts() {
    let addressing = interpret(ranged_event(b"bytes=100-199")).unwrap();
    assert_eq!(
        addressing,
        Addressing {
            output_route: "R1".to_string(),
            output_token: "T1".to_string(),
            source_url: "https://objects.example/item?sig=abc".to_string(),
            requested_range: b"bytes=100-199".to_vec(),
        }
    );
}

#[test]
fn fetcher_keeps_descriptor_and_body() {
    let fetched = accept(answer(Some(b"bytes 7-9/10"), &[1, 2, 3])).unwrap();
    assert_eq!(
        fetched,
        FetchedContent { content_range: b"bytes 7-9/10".to_vec(), body: vec![1, 2, 3] }
    );
    assert_eq!(accept(answer(None, &[1, 2, 3])), Err(HandlerError::MissingContentRange));
}

#[test]
fn respond_builds_the_submission() {
    let fetched =
        FetchedContent { content_range: b"bytes 0-2/3".to_vec(), body: b"a-z".to_vec() };
    let submission = respond("route".to_string(), "token".to_string(), fetched).unwrap();
    assert_eq!(
        submission,
        ResponseSubmission {
            output_route: "route".to_string(),
            output_token: "token".to_string(),
            status_code: 200,
            body: b"A-Z".to_vec(),
            content_range: b"bytes 0-2/3".to_vec(),
        }
    );
    let broken = FetchedContent { content_range: b"bytes 0-0/1".to_vec(), body: vec![0xc3] };
    assert_eq!(
        respond("route".to_string(), "token".to_string(), broken),
        Err(HandlerError::Encoding)
    );
}

#[test]
fn submission_for_encodes_the_text_as_given() {
    let text = "d\u{e9}j\u{e0} vu".to_string();
    let submission =
        submission_for("r".to_string(), "t".to_string(), b"bytes 0-8/9".to_vec(), &text);
    assert_eq!(submission.body, vec![0x64, 0xc3, 0xa9, 0x6a, 0xc3, 0xa0, 0x20, 0x76, 0x75]);
    assert_eq!(submission.status_code, 200);
    assert_eq!(submission.output_route, "r");
    assert_eq!(submission.output_token, "t");
    assert_eq!(submission.content_range, b"bytes 0-8/9".to_vec());
}

#[test]
fn each_error_has_its_kind() {
    assert_eq!(HandlerError::MissingContext.kind(), ErrorKind::MissingContext);
    assert_eq!(HandlerError::MissingRangeHeader.kind(), ErrorKind::MissingRangeHeader);
    let transport = FetchCause::Transport { reason: "c".to_string() };
    assert_eq!(HandlerError::Fetch { cause: transport }.kind(), ErrorKind::Fetch);
    let status = FetchCause::Status { code: 500 };
    assert_eq!(HandlerError::Fetch { cause: status }.kind(), ErrorKind::Fetch);
    assert_eq!(HandlerError::MissingContentRange.kind(), ErrorKind::MissingContentRange);
    assert_eq!(HandlerError::Encoding.kind(), ErrorKind::Encoding);
    assert_eq!(HandlerError::Submission { cause: "c".to_string() }.kind(), ErrorKind::Submission);
}
