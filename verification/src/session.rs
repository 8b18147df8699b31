//! The controller's end of a pass: polling for requests, answering them,
//! and fetching the output once the pass is over.

use crate::mutation::{decoded_all, views, Mutation, MutationView};
use crate::request::{
    PollResult, PollResultView, Request, RequestView, WriteResult, WriteResultView,
};
use std::sync::mpsc::{Receiver, Sender};
use vstd::prelude::*;

verus! {

/// How far a session has come, as its controller has seen it.
#[derive(Debug, PartialEq, Eq)]
pub enum Phase {
    /// The end of the pass has not been seen.
    Running,
    /// The pass was seen to end well.
    Done,
    /// The pass was seen to fail, for the reason given.
    Failed(String),
}

/// The mathematical value of a [`Phase`].
pub enum PhaseView {
    Running,
    Done,
    Failed(Seq<char>),
}

impl View for Phase {
    type V = PhaseView;

    open spec fn view(&self) -> PhaseView {
        match self {
            Phase::Running => PhaseView::Running,
            Phase::Done => PhaseView::Done,
            Phase::Failed(reason) => PhaseView::Failed(reason@),
        }
    }
}

/// What one look at the channels of a session found.
#[derive(Debug, PartialEq, Eq)]
pub enum Observation {
    /// A handler has sent a request.
    Request(Request),
    /// No request is waiting, and the pass has reported how it ended.
    Outcome(WriteResult),
    /// Neither.
    Nothing,
}

/// The mathematical value of an [`Observation`].
pub enum ObservationView {
    Request(RequestView),
    Outcome(WriteResultView),
    Nothing,
}

impl View for Observation {
    type V = ObservationView;

    open spec fn view(&self) -> ObservationView {
        match self {
            Observation::Request(request) => ObservationView::Request(request@),
            Observation::Outcome(outcome) => ObservationView::Outcome(outcome@),
            Observation::Nothing => ObservationView::Nothing,
        }
    }
}

impl ObservationView {
    /// What a look has found, given what was waiting on the request
    /// channel and on the completion channel: a waiting request comes
    /// before the outcome of the pass.
    pub open spec fn found(
        request: Option<RequestView>,
        outcome: Option<WriteResultView>,
    ) -> ObservationView {
        match request {
            Some(request) => ObservationView::Request(request),
            None => match outcome {
                Some(outcome) => ObservationView::Outcome(outcome),
                None => ObservationView::Nothing,
            },
        }
    }
}

/// The view of what was waiting on the request channel.
pub open spec fn waiting_request(request: Option<Request>) -> Option<RequestView> {
    match request {
        Some(request) => Some(request@),
        None => None,
    }
}

/// The view of what was waiting on the completion channel.
pub open spec fn waiting_outcome(outcome: Option<WriteResult>) -> Option<WriteResultView> {
    match outcome {
        Some(outcome) => Some(outcome@),
        None => None,
    }
}

impl Observation {
    /// What a look has found, from what the two channels gave: a waiting
    /// request is reported before the outcome of the pass.
    pub fn found(request: Option<Request>, outcome: Option<WriteResult>) -> (seen: Observation)
        ensures
            seen@ == ObservationView::found(waiting_request(request), waiting_outcome(outcome)),
    {
        match request {
            Some(request) => Observation::Request(request),
            None => match outcome {
                Some(outcome) => Observation::Outcome(outcome),
                None => Observation::Nothing,
            },
        }
    }
}

/// The mathematical value of a [`RewriterHandle`].
pub struct SessionView {
    /// How far the session has come.
    pub phase: PhaseView,
    /// The rewritten document; empty until the pass was seen to end well.
    pub output: Seq<u8>,
    /// The responses that the channel has taken, oldest first.
    pub responses: Seq<Seq<MutationView>>,
}

impl SessionView {
    /// A session whose pass has not been seen to end well holds no output.
    pub open spec fn wf(self) -> bool {
        !(self.phase is Done) ==> self.output.len() == 0
    }

    /// Whether the end of the pass has been seen.
    pub open spec fn is_over(self) -> bool {
        !(self.phase is Running)
    }

    /// What a poll reports once the end of the pass has been seen.
    pub open spec fn verdict(self) -> PollResultView
        recommends
            self.is_over(),
    {
        match self.phase {
            PhaseView::Failed(reason) => PollResultView::Error(reason),
            _ => PollResultView::Done,
        }
    }

    /// What successive polls report that find `seen`, one look each, in
    /// the order of the looks.
    pub open spec fn reports(self, seen: Seq<ObservationView>) -> Seq<PollResultView>
        decreases seen.len(),
    {
        if seen.len() == 0 {
            Seq::empty()
        } else {
            seq![self.step(seen[0]).1] + self.step(seen[0]).0.reports(seen.drop_first())
        }
    }

    /// The session after a poll that found `seen`, and what the poll
    /// reports. Once the end of the pass has been seen, nothing that is
    /// found changes the session or the report.
    pub open spec fn step(self, seen: ObservationView) -> (SessionView, PollResultView) {
        match self.phase {
            PhaseView::Done => (self, PollResultView::Done),
            PhaseView::Failed(reason) => (self, PollResultView::Error(reason)),
            PhaseView::Running => match seen {
                ObservationView::Request(request) => (self, request.as_poll()),
                ObservationView::Outcome(WriteResultView::Finished(output)) => (
                    SessionView { phase: PhaseView::Done, output, ..self },
                    PollResultView::Done,
                ),
                ObservationView::Outcome(WriteResultView::Failed(reason)) => (
                    SessionView { phase: PhaseView::Failed(reason), ..self },
                    PollResultView::Error(reason),
                ),
                ObservationView::Nothing => (self, PollResultView::NothingYet),
            },
        }
    }
}

/// Why a response could not be sent.
#[derive(Debug, Clone, Copy, PartialEq, Eq, Structural)]
pub enum RespondError {
    /// The pass is gone: nothing is left to receive the response.
    ChannelClosed,
}

/// The controller's handle on a pass.
pub struct RewriterHandle {
    request_rx: Receiver<Request>,
    response_tx: Sender<Vec<Mutation>>,
    result_rx: Receiver<WriteResult>,
    output: Vec<u8>,
    phase: Phase,
    responses: Ghost<Seq<Seq<MutationView>>>,
}

impl View for RewriterHandle {
    type V = SessionView;

    closed spec fn view(&self) -> SessionView {
        SessionView { phase: self.phase@, output: self.output@, responses: self.responses@ }
    }
}

impl RewriterHandle {
    /// The handle of a pass that is about to start, from the controller's
    /// ends of its three channels.
    pub fn open(
        request_rx: Receiver<Request>,
        response_tx: Sender<Vec<Mutation>>,
        result_rx: Receiver<WriteResult>,
    ) -> (handle: Self)
        ensures
            handle@ == (SessionView {
                phase: PhaseView::Running,
                output: Seq::empty(),
                responses: Seq::empty(),
            }),
            handle@.wf(),
    {
        RewriterHandle {
            request_rx,
            response_tx,
            result_rx,
            output: Vec::new(),
            phase: Phase::Running,
            responses: Ghost(Seq::empty()),
        }
    }

    /// Looks at the channels once, without waiting: first for a request,
    /// then, only if none is there, for the outcome of the pass, which so
    /// stays in its channel until every request has been reported.
    fn observe(&self) -> (seen: Observation) {
        let request = self.request_rx.try_recv().ok();
        let outcome = if request.is_some() {
            None
        } else {
            self.result_rx.try_recv().ok()
        };
        Observation::found(request, outcome)
    }

    /// Takes note of what a look at the channels found and says what the
    /// poll reports.
    pub fn advance(&mut self, seen: Observation) -> (result: PollResult)
        ensures
            (final(self)@, result@) == old(self)@.step(seen@),
            old(self)@.is_over() ==> *final(self) == *old(self),
            old(self)@.wf() ==> final(self)@.wf(),
    {
        match &self.phase {
            Phase::Done => PollResult::Done,
            Phase::Failed(reason) => PollResult::Error(reason.clone()),
            Phase::Running => match seen {
                Observation::Request(request) => PollResult::from_request(request),
                Observation::Outcome(WriteResult::Finished(output)) => {
                    self.output = output;
                    self.phase = Phase::Done;
                    PollResult::Done
                },
                Observation::Outcome(WriteResult::Failed(reason)) => {
                    let report = reason.clone();
                    self.phase = Phase::Failed(reason);
                    PollResult::Error(report)
                },
                Observation::Nothing => PollResult::NothingYet,
            },
        }
    }
}

/// Polls a session without waiting.
///
/// While the pass runs, the poll reports the next request in the order the
/// handlers sent them, or how the pass ended once no request is left, or
/// that nothing has happened. Once the end of the pass has been seen, every
/// poll reports that same end and leaves the session as it is.
pub fn rewriter_poll(handle: &mut RewriterHandle) -> (result: PollResult)
    ensures
        exists|seen: ObservationView| (final(handle)@, result@) == old(handle)@.step(seen),
        old(handle)@.is_over() ==> *final(handle) == *old(handle) && result@ == old(
            handle,
        )@.verdict(),
        old(handle)@.wf() ==> final(handle)@.wf(),
{
    let seen = match &handle.phase {
        Phase::Running => handle.observe(),
        _ => Observation::Nothing,
    };
    handle.advance(seen)
}

/// Sends the response to the request that the last poll reported: the
/// edits that the triples stand for, in the order given.
///
/// The response goes to the handler that is waiting. As nothing tells a
/// session whether one is, a response sent without a request waiting is
/// taken by the channel all the same, and answers the next request.
pub fn rewriter_respond(handle: &mut RewriterHandle, mutations: Vec<(String, String, String)>) -> (r:
    Result<(), RespondError>)
    ensures
        r is Ok ==> final(handle)@ == (SessionView {
            responses: old(handle)@.responses.push(decoded_all(mutations@)),
            ..old(handle)@
        }),
        r is Err ==> final(handle)@ == old(handle)@,
{
    let parsed = Mutation::decode_all(&mutations);
    let ghost response = views(parsed@);
    match handle.response_tx.send(parsed) {
        Ok(()) => {
            proof {
                handle.responses = Ghost(handle.responses@.push(response));
            }
            Ok(())
        },
        Err(_) => Err(RespondError::ChannelClosed),
    }
}

/// The rewritten document: empty until a poll has reported `Done`, the
/// whole output of the pass from then on.
pub fn rewriter_output(handle: &RewriterHandle) -> (output: Vec<u8>)
    ensures
        output@ == handle@.output,
{
    handle.output.clone()
}

/// What a poll reports of a look that did not find the outcome of the
/// pass: the request it found, or that nothing has happened.
pub open spec fn report_of(seen: ObservationView) -> PollResultView {
    match seen {
        ObservationView::Request(request) => request.as_poll(),
        _ => PollResultView::NothingYet,
    }
}

/// While the pass runs, polls report what they find in the order they
/// find it: every request once, none left out, none out of turn.
pub proof fn lemma_polls_report_in_order(session: SessionView, seen: Seq<ObservationView>)
    requires
        session.phase is Running,
        forall|i: int| 0 <= i < seen.len() ==> !(#[trigger] seen[i] is Outcome),
    ensures
        session.reports(seen) == Seq::new(seen.len(), |i: int| report_of(seen[i])),
    decreases seen.len(),
{
    let expected = Seq::new(seen.len(), |i: int| report_of(seen[i]));
    if seen.len() == 0 {
        assert(session.reports(seen) =~= expected);
    } else {
        let rest = seen.drop_first();
        assert(!(seen[0] is Outcome));
        assert(session.step(seen[0]).0 == session);
        assert forall|i: int| 0 <= i < rest.len() implies !(#[trigger] rest[i] is Outcome) by {
            assert(rest[i] == seen[i + 1]);
        }
        lemma_polls_report_in_order(session, rest);
        assert(session.reports(seen) =~= expected) by {
            assert forall|i: int| 0 <= i < seen.len() implies session.reports(seen)[i]
                == expected[i] by {
                if i > 0 {
                    assert(rest[i - 1] == seen[i]);
                }
            }
        }
    }
}

/// Once the end of a pass has been seen, a poll reports that end whatever
/// it finds, and leaves the session, its output included, as it was.
pub proof fn lemma_end_is_final(session: SessionView, seen: ObservationView)
    requires
        session.is_over(),
    ensures
        session.step(seen) == (session, session.verdict()),
{
}

/// Two polls after the end of a pass report the same, whatever each finds.
pub proof fn lemma_polls_agree_after_end(
    session: SessionView,
    first: ObservationView,
    second: ObservationView,
)
    requires
        session.is_over(),
    ensures
        session.step(first).0.step(second).1 == session.step(first).1,
        session.step(first).0.step(second).0.output == session.output,
{
}

/// The end that a poll reports is one that it has found or that an earlier
/// poll had found: `Done` is never reported of a pass that has not sent its
/// outcome, and a session only ever takes its output from that outcome.
pub proof fn lemma_no_spurious_end(session: SessionView, seen: ObservationView)
    requires
        session.phase is Running,
    ensures
        session.step(seen).1 is Done <==> seen matches ObservationView::Outcome(
            WriteResultView::Finished(_),
        ),
        session.step(seen).1 is Error <==> seen matches ObservationView::Outcome(
            WriteResultView::Failed(_),
        ),
        !(seen is Outcome) ==> session.step(seen).0 == session,
{
}

/// A poll keeps a session well formed: output appears only with `Done`.
pub proof fn lemma_step_keeps_wf(session: SessionView, seen: ObservationView)
    requires
        session.wf(),
    ensures
        session.step(seen).0.wf(),
{
}

} // verus!
