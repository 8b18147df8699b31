use laughter::mutation::Mutation;
use laughter::request::{PollResult, Request, WriteResult};
use laughter::session::{
    rewriter_output, rewriter_poll, rewriter_respond, Observation, RespondError, RewriterHandle,
};
use std::sync::mpsc::{channel, Receiver, Sender};

struct Far {
    requests: Sender<Request>,
    responses: Receiver<Vec<Mutation>>,
    outcome: Sender<WriteResult>,
}

fn session() -> (RewriterHandle, Far) {
    let (request_tx, request_rx) = channel();
    let (response_tx, response_rx) = channel();
    let (result_tx, result_rx) = channel();
    (
        RewriterHandle::open(request_rx, response_tx, result_rx),
        Far { requests: request_tx, responses: response_rx, outcome: result_tx },
    )
}

fn text(handler_id: u64, content: &str) -> Request {
    Request::Text { handler_id, content: content.to_string(), last_in_text_node: false }
}

fn text_seen(handler_id: u64, content: &str) -> PollResult {
    PollResult::Text { handler_id, content: content.to_string(), last_in_text_node: false }
}

#[test]
fn nothing_yet_while_nothing_has_come() {
    let (mut handle, _far) = session();
    assert_eq!(rewriter_poll(&mut handle), PollResult::NothingYet);
    assert_eq!(rewriter_poll(&mut handle), PollResult::NothingYet);
    assert!(rewriter_output(&handle).is_empty());
}

#[test]
fn requests_are_reported_in_the_order_sent() {
    let (mut handle, far) = session();
    far.requests.send(text(1, "a")).unwrap();
    far.requests.send(text(2, "b")).unwrap();
    far.requests.send(text(1, "c")).unwrap();
    assert_eq!(rewriter_poll(&mut handle), text_seen(1, "a"));
    assert_eq!(rewriter_poll(&mut handle), text_seen(2, "b"));
    assert_eq!(rewriter_poll(&mut handle), text_seen(1, "c"));
    assert_eq!(rewriter_poll(&mut handle), PollResult::NothingYet);
}

#[test]
fn waiting_requests_are_reported_before_the_outcome() {
    let (mut handle, far) = session();
    far.requests.send(text(1, "a")).unwrap();
    far.outcome.send(WriteResult::Finished(b"out".to_vec())).unwrap();
    assert_eq!(rewriter_poll(&mut handle), text_seen(1, "a"));
    assert!(rewriter_output(&handle).is_empty());
    assert_eq!(rewriter_poll(&mut handle), PollResult::Done);
    assert_eq!(rewriter_output(&handle), b"out".to_vec());
}

#[test]
fn done_is_final() {
    let (mut handle, far) = session();
    far.outcome.send(WriteResult::Finished(b"out".to_vec())).unwrap();
    assert_eq!(rewriter_poll(&mut handle), PollResult::Done);
    far.requests.send(text(1, "late")).unwrap();
    let _ = far.outcome.send(WriteResult::Failed("late".to_string()));
    drop(far);
    for _ in 0..3 {
        assert_eq!(rewriter_poll(&mut handle), PollResult::Done);
        assert_eq!(rewriter_output(&handle), b"out".to_vec());
    }
}

#[test]
fn error_is_final() {
    let (mut handle, far) = session();
    far.outcome.send(WriteResult::Failed("broken".to_string())).unwrap();
    assert_eq!(rewriter_poll(&mut handle), PollResult::Error("broken".to_string()));
    far.requests.send(text(1, "late")).unwrap();
    let _ = far.outcome.send(WriteResult::Finished(b"late".to_vec()));
    for _ in 0..3 {
        assert_eq!(rewriter_poll(&mut handle), PollResult::Error("broken".to_string()));
        assert!(rewriter_output(&handle).is_empty());
    }
}

#[test]
fn pass_that_went_away_without_an_outcome_stays_pending() {
    let (mut handle, far) = session();
    drop(far);
    assert_eq!(rewriter_poll(&mut handle), PollResult::NothingYet);
    assert_eq!(rewriter_poll(&mut handle), PollResult::NothingYet);
}

#[test]
fn advance_follows_what_was_seen() {
    let (mut handle, _far) = session();
    assert_eq!(handle.advance(Observation::Nothing), PollResult::NothingYet);
    assert_eq!(handle.advance(Observation::Request(text(3, "x"))), text_seen(3, "x"));
    assert_eq!(
        handle.advance(Observation::Outcome(WriteResult::Finished(vec![1, 2]))),
        PollResult::Done
    );
    assert_eq!(rewriter_output(&handle), vec![1, 2]);
    assert_eq!(handle.advance(Observation::Request(text(3, "x"))), PollResult::Done);
    assert_eq!(
        handle.advance(Observation::Outcome(WriteResult::Failed("no".to_string()))),
        PollResult::Done
    );
    assert_eq!(
        handle.advance(Observation::Outcome(WriteResult::Finished(vec![9]))),
        PollResult::Done
    );
    assert_eq!(rewriter_output(&handle), vec![1, 2]);

    let (mut handle, _far) = session();
    assert_eq!(
        handle.advance(Observation::Outcome(WriteResult::Failed("no".to_string()))),
        PollResult::Error("no".to_string())
    );
    assert_eq!(
        handle.advance(Observation::Outcome(WriteResult::Finished(vec![9]))),
        PollResult::Error("no".to_string())
    );
    assert_eq!(handle.advance(Observation::Nothing), PollResult::Error("no".to_string()));
    assert!(rewriter_output(&handle).is_empty());
}

#[test]
fn respond_sends_the_decoded_edits() {
    let (mut handle, far) = session();
    let raw = vec![
        ("set_attribute".to_string(), "href".to_string(), "/new".to_string()),
        ("remove".to_string(), String::new(), String::new()),
    ];
    assert_eq!(rewriter_respond(&mut handle, raw), Ok(()));
    assert_eq!(rewriter_respond(&mut handle, vec![]), Ok(()));
    assert_eq!(
        far.responses.try_recv().unwrap(),
        vec![Mutation::SetAttribute("href".to_string(), "/new".to_string()), Mutation::Remove]
    );
    assert_eq!(far.responses.try_recv().unwrap(), vec![]);
    assert!(far.responses.try_recv().is_err());
}

#[test]
fn respond_fails_when_the_pass_is_gone() {
    let (mut handle, far) = session();
    drop(far);
    assert_eq!(rewriter_respond(&mut handle, vec![]), Err(RespondError::ChannelClosed));
}

#[test]
fn unanswered_request_leaves_the_session_pending() {
    let (mut handle, far) = session();
    far.requests.send(text(1, "a")).unwrap();
    assert_eq!(rewriter_poll(&mut handle), text_seen(1, "a"));
    for _ in 0..10 {
        assert_eq!(rewriter_poll(&mut handle), PollResult::NothingYet);
        assert!(rewriter_output(&handle).is_empty());
    }
    assert!(far.responses.try_recv().is_err());
}

#[test]
fn a_waiting_request_comes_before_the_outcome() {
    let outcome = || WriteResult::Finished(b"out".to_vec());
    assert_eq!(
        Observation::found(Some(text(1, "a")), Some(outcome())),
        Observation::Request(text(1, "a"))
    );
    assert_eq!(Observation::found(Some(text(1, "a")), None), Observation::Request(text(1, "a")));
    assert_eq!(Observation::found(None, Some(outcome())), Observation::Outcome(outcome()));
    assert_eq!(
        Observation::found(None, Some(WriteResult::Failed("no".to_string()))),
        Observation::Outcome(WriteResult::Failed("no".to_string()))
    );
    assert_eq!(Observation::found(None, None), Observation::Nothing);
}
