//! The pass itself: the handlers that stop at matching nodes and ask the
//! controller what to do, and the worker that drives the rewriter.

use crate::channel::share;
use crate::collector::{Message, MessageQueue};
use crate::dispatch::{ActionView, NodeAction};
use crate::encoding::{chosen, or_utf_8};
use crate::engine::{
    all_selectors_parse, collected, ended, first_unparsable, held, made_with, parse_selector,
    parsed, parses, poisoned, raw_end, raw_handlers, raw_install_element, raw_install_text,
    raw_rewriter, raw_write, reported, rewriter_fed, rewriter_handlers, says, tells, Installed,
    Made, RawHandlers, Rewriter, PARSING_BUFFER_SIZE,
};
use lol_html::errors::RewritingError;
use crate::mutation::{views, Mutation, MutationView};
use crate::node::{
    apply_element_mutations, apply_text_mutations, element_edits, text_edits, ElementNode,
    TextNode,
};
use crate::registry::{handler_views, HandlerConfig, HandlerType, HandlerView, RewriterConfig};
use crate::request::{Request, RequestView, WriteResult};
use crate::session::{PhaseView, RewriterHandle, SessionView};
use lol_html::{AsciiCompatibleEncoding, Selector};
use std::sync::mpsc::{channel, Receiver, Sender};
use std::sync::{Arc, Mutex};
use vstd::prelude::*;
use vstd::slice::slice_to_vec;

verus! {

/// Why a handler gave up on its node. Either way the pass fails.
#[derive(Debug, Clone, Copy, PartialEq, Eq, Structural)]
pub enum HandlerFailure {
    /// The request could not be sent: the controller's handle is gone.
    RequestNotSent,
    /// No response can come any more: the controller's handle is gone.
    ResponseNotReceived,
}

impl HandlerFailure {
    /// The words for the failure.
    pub open spec fn words(self) -> Seq<char> {
        match self {
            HandlerFailure::RequestNotSent => "request send failed: sending on a closed channel"@,
            HandlerFailure::ResponseNotReceived => {
                "response recv failed: receiving on a closed channel"@
            },
        }
    }

    /// The failure in words, as the controller is told of it.
    pub fn message(&self) -> (text: String)
        ensures
            text@ == self.words(),
    {
        match self {
            HandlerFailure::RequestNotSent => {
                "request send failed: sending on a closed channel".to_owned()
            },
            HandlerFailure::ResponseNotReceived => {
                "response recv failed: receiving on a closed channel".to_owned()
            },
        }
    }
}

/// The sending end of the request channel that one handler holds.
pub struct RequestOutlet {
    tx: Sender<Request>,
    sent: Ghost<Seq<RequestView>>,
}

impl RequestOutlet {
    /// The requests that the channel has taken from this handler, oldest
    /// first.
    pub closed spec fn sent(&self) -> Seq<RequestView> {
        self.sent@
    }

    /// An outlet that has sent nothing yet.
    pub fn new(tx: Sender<Request>) -> (outlet: Self)
        ensures
            outlet.sent() == Seq::<RequestView>::empty(),
    {
        RequestOutlet { tx, sent: Ghost(Seq::empty()) }
    }

    /// Sends a request. Says whether the channel took it.
    pub fn emit(&mut self, request: Request) -> (taken: bool)
        ensures
            taken ==> final(self).sent() == old(self).sent().push(request@),
            !taken ==> final(self).sent() == old(self).sent(),
    {
        let ghost view = request@;
        match self.tx.send(request) {
            Ok(()) => {
                proof {
                    self.sent = Ghost(self.sent@.push(view));
                }
                true
            },
            Err(_) => false,
        }
    }
}

/// Waits for the response to the request that was just sent. `None` when
/// no response can come any more.
///
/// This does not return while the controller holds its handle and sends
/// nothing: a pass has no way to give up on its controller.
pub(crate) fn await_response(responses: &Mutex<Receiver<Vec<Mutation>>>) -> (response: Option<
    Vec<Mutation>,
>) {
    let guard = match responses.lock() {
        Ok(guard) => guard,
        Err(broken) => broken.into_inner(),
    };
    match guard.recv() {
        Ok(mutations) => Some(mutations),
        Err(_) => None,
    }
}

/// The receiving end of the response channel, as one handler holds it.
pub struct ResponseInlet {
    rx: Arc<Mutex<Receiver<Vec<Mutation>>>>,
    received: Ghost<Seq<Seq<MutationView>>>,
}

impl ResponseInlet {
    /// The responses that this handler has taken from the channel, oldest
    /// first.
    pub closed spec fn received(&self) -> Seq<Seq<MutationView>> {
        self.received@
    }

    /// An inlet that has received nothing yet.
    pub fn new(rx: Arc<Mutex<Receiver<Vec<Mutation>>>>) -> (inlet: Self)
        ensures
            inlet.received() == Seq::<Seq<MutationView>>::empty(),
    {
        ResponseInlet { rx, received: Ghost(Seq::empty()) }
    }

    /// Waits for the next response and takes it. `None` when no response
    /// can come any more.
    pub fn take(&mut self) -> (response: Option<Vec<Mutation>>)
        ensures
            response matches Some(mutations) ==> final(self).received() == old(
                self,
            ).received().push(views(mutations@)),
            response is None ==> final(self).received() == old(self).received(),
    {
        let response = await_response(&self.rx);
        proof {
            if let Some(mutations) = &response {
                self.received = Ghost(self.received@.push(views(mutations@)));
            }
        }
        response
    }
}

/// How a handler that has sent its request leaves its inlet and its node:
/// it has taken one more response, and it has asked of the node the edits
/// of that response that reach the node, in order, and nothing else.
pub open spec fn answered(
    received_before: Seq<Seq<MutationView>>,
    received_after: Seq<Seq<MutationView>>,
    edits_before: Seq<MutationView>,
    edits_after: Seq<MutationView>,
    reaching: spec_fn(Seq<MutationView>) -> Seq<MutationView>,
) -> bool {
    &&& received_after.len() == received_before.len() + 1
    &&& received_after.drop_last() == received_before
    &&& edits_after == edits_before + reaching(received_after.last())
}

/// The request that tells of an element.
pub open spec fn element_request(handler_id: u64, node: &ElementNode<'_, '_, '_>) -> RequestView {
    RequestView::Element { handler_id, tag: node.tag(), attrs: node.attributes() }
}

/// Whether a text chunk is passed over: an empty chunk is, unless it closes
/// its text node.
pub open spec fn passed_over(node: &TextNode<'_, '_>) -> bool {
    node.text().len() == 0 && !node.is_last()
}

/// The request that tells of a text chunk.
pub open spec fn text_request(handler_id: u64, node: &TextNode<'_, '_>) -> RequestView {
    RequestView::Text { handler_id, content: node.text(), last_in_text_node: node.is_last() }
}

/// Builds the request that tells the controller of an element.
pub fn request_for_element(handler_id: u64, node: &ElementNode<'_, '_, '_>) -> (request: Request)
    ensures
        request@ == element_request(handler_id, node),
{
    Request::Element { handler_id, tag: node.tag_name(), attrs: node.attribute_list() }
}

/// Builds the request that tells the controller of a text chunk, unless the
/// chunk is passed over.
pub fn request_for_text(handler_id: u64, node: &TextNode<'_, '_>) -> (request: Option<Request>)
    ensures
        passed_over(node) ==> request is None,
        !passed_over(node) ==> (request matches Some(r) && r@ == text_request(handler_id, node)),
{
    let content = node.content();
    let last = node.last_in_text_node();
    if content.as_str().is_empty() && !last {
        None
    } else {
        Some(Request::Text { handler_id, content, last_in_text_node: last })
    }
}

/// Takes the response to the request for an element: its edits are made on
/// the element, in order. Without a response the handler gives up and
/// leaves the element alone.
pub fn answer_element(node: &mut ElementNode<'_, '_, '_>, response: Option<Vec<Mutation>>) -> (r:
    Result<(), HandlerFailure>)
    ensures
        response is None ==> {
            &&& r == Err::<(), HandlerFailure>(HandlerFailure::ResponseNotReceived)
            &&& *final(node) == *old(node)
        },
        response matches Some(mutations) ==> {
            &&& r is Ok
            &&& final(node).edits() == old(node).edits() + element_edits(views(mutations@))
            &&& element_edits(views(mutations@)).len() == 0 ==> *final(node) == *old(node)
        },
{
    match response {
        None => Err(HandlerFailure::ResponseNotReceived),
        Some(mutations) => {
            apply_element_mutations(node, &mutations);
            Ok(())
        },
    }
}

/// Takes the response to the request for a text chunk: its edits are made
/// on the chunk, in order. Without a response the handler gives up and
/// leaves the chunk alone.
pub fn answer_text(node: &mut TextNode<'_, '_>, response: Option<Vec<Mutation>>) -> (r: Result<
    (),
    HandlerFailure,
>)
    ensures
        response is None ==> {
            &&& r == Err::<(), HandlerFailure>(HandlerFailure::ResponseNotReceived)
            &&& *final(node) == *old(node)
        },
        response matches Some(mutations) ==> {
            &&& r is Ok
            &&& final(node).edits() == old(node).edits() + text_edits(views(mutations@))
            &&& text_edits(views(mutations@)).len() == 0 ==> *final(node) == *old(node)
        },
{
    match response {
        None => Err(HandlerFailure::ResponseNotReceived),
        Some(mutations) => {
            apply_text_mutations(node, &mutations);
            Ok(())
        },
    }
}

/// What an element handler does when the rewriter stops at a match: it
/// sends one request, waits for the response, and makes the edits of the
/// response on the element, in order. When either channel is closed it
/// gives up and leaves the element alone.
pub fn on_element(
    node: &mut ElementNode<'_, '_, '_>,
    handler_id: u64,
    outlet: &mut RequestOutlet,
    inlet: &mut ResponseInlet,
) -> (r: Result<(), HandlerFailure>)
    ensures
        r matches Err(HandlerFailure::RequestNotSent) ==> {
            &&& final(outlet).sent() == old(outlet).sent()
            &&& final(inlet).received() == old(inlet).received()
            &&& *final(node) == *old(node)
        },
        r matches Err(HandlerFailure::ResponseNotReceived) ==> {
            &&& final(outlet).sent() == old(outlet).sent().push(element_request(handler_id, old(node)))
            &&& final(inlet).received() == old(inlet).received()
            &&& *final(node) == *old(node)
        },
        r is Ok ==> {
            &&& final(outlet).sent() == old(outlet).sent().push(element_request(handler_id, old(node)))
            &&& answered(
                old(inlet).received(),
                final(inlet).received(),
                old(node).edits(),
                final(node).edits(),
                |response: Seq<MutationView>| element_edits(response),
            )
            &&& element_edits(final(inlet).received().last()).len() == 0 ==> *final(node) == *old(
                node,
            )
        },
{
    let request = request_for_element(handler_id, node);
    if !outlet.emit(request) {
        return Err(HandlerFailure::RequestNotSent);
    }
    let response = inlet.take();
    proof {
        if response is Some {
            assert(inlet.received().drop_last() =~= old(inlet).received());
        }
    }
    answer_element(node, response)
}

/// What a text handler does when the rewriter stops at a chunk: unless the
/// chunk is passed over, it sends one request, waits for the response, and
/// makes the edits of the response on the chunk, in order. A chunk that is
/// passed over costs no round trip and stays as it is.
pub fn on_text(
    node: &mut TextNode<'_, '_>,
    handler_id: u64,
    outlet: &mut RequestOutlet,
    inlet: &mut ResponseInlet,
) -> (r: Result<(), HandlerFailure>)
    ensures
        passed_over(old(node)) ==> {
            &&& r is Ok
            &&& final(outlet).sent() == old(outlet).sent()
            &&& final(inlet).received() == old(inlet).received()
            &&& *final(node) == *old(node)
        },
        r matches Err(HandlerFailure::RequestNotSent) ==> {
            &&& final(outlet).sent() == old(outlet).sent()
            &&& final(inlet).received() == old(inlet).received()
            &&& *final(node) == *old(node)
        },
        r matches Err(HandlerFailure::ResponseNotReceived) ==> {
            &&& final(outlet).sent() == old(outlet).sent().push(text_request(handler_id, old(node)))
            &&& final(inlet).received() == old(inlet).received()
            &&& *final(node) == *old(node)
        },
        r is Ok && !passed_over(old(node)) ==> {
            &&& final(outlet).sent() == old(outlet).sent().push(text_request(handler_id, old(node)))
            &&& answered(
                old(inlet).received(),
                final(inlet).received(),
                old(node).edits(),
                final(node).edits(),
                |response: Seq<MutationView>| text_edits(response),
            )
            &&& text_edits(final(inlet).received().last()).len() == 0 ==> *final(node) == *old(
                node,
            )
        },
{
    let request = match request_for_text(handler_id, node) {
        None => {
            return Ok(());
        },
        Some(request) => request,
    };
    if !outlet.emit(request) {
        return Err(HandlerFailure::RequestNotSent);
    }
    let response = inlet.take();
    proof {
        if response is Some {
            assert(inlet.received().drop_last() =~= old(inlet).received());
        }
    }
    answer_text(node, response)
}

/// The entry of the rewriter's list that the handler of a registration
/// makes: the selector that the registration's text parses to, the kind of
/// node, and a handler that asks the controller under the registration's
/// identity.
pub open spec fn asks(handler: HandlerView) -> Installed {
    Installed {
        selector: parsed(handler.selector)->Some_0,
        on_text: handler.handler_type is Text,
        action: ActionView::Ask { handler_id: handler.handler_id },
    }
}

/// The entries that the handlers of a sequence of registrations make, in
/// the same order.
pub open spec fn asking(handlers: Seq<HandlerView>) -> Seq<Installed> {
    Seq::new(handlers.len(), |i: int| asks(handlers[i]))
}

/// The size of the buffer that a rewriter sets aside for parsing when it
/// may use `max_memory` bytes: [`PARSING_BUFFER_SIZE`], or all of them if
/// they are fewer.
pub open spec fn parsing_buffer_for(max_memory: usize) -> usize {
    if max_memory < PARSING_BUFFER_SIZE {
        max_memory
    } else {
        PARSING_BUFFER_SIZE
    }
}

/// What the rewriter of a pass is made with: the encoding that was asked
/// for, or UTF-8 in its place; the memory bound with the parsing buffer
/// that fits it; and the buffer for the output, if it is kept.
pub open spec fn settings(
    encoding: Option<AsciiCompatibleEncoding>,
    max_memory: usize,
    output: Option<Arc<Mutex<Vec<u8>>>>,
) -> Made {
    Made {
        encoding: chosen(encoding),
        parsing_buffer: parsing_buffer_for(max_memory),
        max_memory,
        output,
    }
}

/// The handlers of a pass while they are being put together.
pub struct HandlerSet {
    raw: RawHandlers,
}

impl HandlerSet {
    /// What the rewriter's list of handlers holds, oldest first.
    pub closed spec fn installed(&self) -> Seq<Installed> {
        held(&self.raw)
    }

    /// A set without handlers.
    pub fn new() -> (set: Self)
        ensures
            set.installed() == Seq::<Installed>::empty(),
    {
        HandlerSet { raw: raw_handlers() }
    }

    /// Installs the handler of a registration whose selector has been
    /// parsed: an element handler or a text handler, as registered, that
    /// asks the controller under the identity of the registration.
    pub fn install(
        &mut self,
        handler: &HandlerConfig,
        selector: Selector,
        outlet: RequestOutlet,
        responses: Arc<Mutex<Receiver<Vec<Mutation>>>>,
    )
        ensures
            final(self).installed() == old(self).installed().push(
                Installed {
                    selector,
                    on_text: handler.handler_type is Text,
                    action: ActionView::Ask { handler_id: handler.handler_id },
                },
            ),
    {
        let inlet = ResponseInlet::new(responses);
        let action = NodeAction::Ask { handler_id: handler.handler_id, outlet, inlet };
        match handler.handler_type {
            HandlerType::Element => {
                raw_install_element(&mut self.raw, selector, action);
            },
            HandlerType::Text => {
                raw_install_text(&mut self.raw, selector, action);
            },
        }
    }

    /// Installs a handler that records the nodes it is called for on a
    /// queue, under the identity of a selector of a listening pass: a
    /// handler for text chunks where `on_text` is set, for elements
    /// otherwise.
    pub fn listen(
        &mut self,
        selector: Selector,
        on_text: bool,
        filter_id: u64,
        queue: Arc<Mutex<Vec<Message>>>,
    )
        ensures
            final(self).installed() == old(self).installed().push(
                Installed { selector, on_text, action: ActionView::Record { filter_id } },
            ),
    {
        let action = NodeAction::Record { filter_id, queue: MessageQueue::new(queue) };
        if on_text {
            raw_install_text(&mut self.raw, selector, action);
        } else {
            raw_install_element(&mut self.raw, selector, action);
        }
    }

    /// Makes the rewriter of a pass from the handlers, for a document in
    /// the given encoding, or in UTF-8 without one. The rewriter may use
    /// `max_memory` bytes, of which it sets aside
    /// [`PARSING_BUFFER_SIZE`] for parsing, or all of them if they are
    /// fewer. Its output goes to the buffer, if there is one.
    pub fn into_pass(
        self,
        encoding: Option<AsciiCompatibleEncoding>,
        max_memory: usize,
        output: Option<Arc<Mutex<Vec<u8>>>>,
    ) -> (pass: Pass)
        ensures
            pass.handlers() == self.installed(),
            pass.made() == settings(encoding, max_memory, output),
            pass.fed() == Seq::<Seq<u8>>::empty(),
            pass.progress() is Open,
    {
        let parsing_buffer = if max_memory < PARSING_BUFFER_SIZE {
            max_memory
        } else {
            PARSING_BUFFER_SIZE
        };
        let HandlerSet { raw } = self;
        Pass { rewriter: raw_rewriter(raw, or_utf_8(encoding), parsing_buffer, max_memory, output) }
    }
}

/// Why a pass could not start.
#[derive(Debug, PartialEq, Eq)]
pub enum StartError {
    /// The rewriter cannot parse the selector of the handler named. The
    /// reason is the rewriter's own.
    InvalidSelector { handler_id: u64, reason: String },
}

/// How far the rewriter of a pass has got.
pub enum Progress {
    /// The rewriter takes more of the document.
    Open,
    /// The rewriter was told that the document is over, and agreed.
    Closed,
    /// The rewriter has reported an error, and is of no more use.
    Broken,
}

/// The rewriter of a pass.
pub struct Pass {
    rewriter: Rewriter,
}

impl Pass {
    /// The handlers that the rewriter runs, in the order they were
    /// installed.
    pub closed spec fn handlers(&self) -> Seq<Installed> {
        rewriter_handlers(&self.rewriter)
    }

    /// What the rewriter was made with, besides its handlers.
    pub closed spec fn made(&self) -> Made {
        made_with(&self.rewriter)
    }

    /// The pieces of the document that the rewriter was given, oldest
    /// first.
    pub closed spec fn fed(&self) -> Seq<Seq<u8>> {
        rewriter_fed(&self.rewriter)
    }

    /// The error that the rewriter has reported, if it has reported one.
    pub closed spec fn reported(&self) -> Option<RewritingError> {
        reported(&self.rewriter)
    }

    /// How far the rewriter has got.
    pub closed spec fn progress(&self) -> Progress {
        if poisoned(&self.rewriter) {
            Progress::Broken
        } else if ended(&self.rewriter) {
            Progress::Closed
        } else {
            Progress::Open
        }
    }

    /// A pass is broken exactly when its rewriter has reported an error.
    pub proof fn lemma_broken_has_reported(&self)
        ensures
            self.progress() is Broken <==> self.reported() is Some,
    {
    }

    /// Gives the rewriter one more piece of the document. If the rewriter
    /// reports an error, the words of that error go back and the pass is
    /// broken.
    pub fn feed(&mut self, data: &[u8]) -> (r: Result<(), String>)
        requires
            old(self).progress() is Open,
        ensures
            final(self).fed() == old(self).fed().push(data@),
            final(self).handlers() == old(self).handlers(),
            final(self).made() == old(self).made(),
            tells(final(self).reported(), r),
            r is Ok ==> final(self).progress() is Open,
            r is Err ==> final(self).progress() is Broken,
    {
        match raw_write(&mut self.rewriter, data) {
            Ok(()) => Ok(()),
            Err(error) => Err(error.to_string()),
        }
    }

    /// Tells the rewriter that the document is over. If the rewriter
    /// reports an error, the words of that error go back and the pass is
    /// broken; otherwise the pass is closed.
    pub fn finish(&mut self) -> (r: Result<(), String>)
        requires
            old(self).progress() is Open,
        ensures
            final(self).fed() == old(self).fed(),
            final(self).handlers() == old(self).handlers(),
            final(self).made() == old(self).made(),
            tells(final(self).reported(), r),
            r is Ok ==> final(self).progress() is Closed,
            r is Err ==> final(self).progress() is Broken,
    {
        match raw_end(&mut self.rewriter) {
            Ok(()) => Ok(()),
            Err(error) => Err(error.to_string()),
        }
    }
}

/// How a pass over a document has ended, and with what outcome: the
/// document was given to the rewriter whole, as its one piece; the outcome
/// is `Finished` exactly if the pass is closed; and it is `Failed` exactly
/// if the pass is broken, with the words of the error that the rewriter
/// has reported.
pub open spec fn passed(pass: Pass, input: Seq<u8>, outcome: WriteResult) -> bool {
    &&& pass.fed() == seq![input]
    &&& outcome is Finished <==> pass.progress() is Closed
    &&& outcome is Failed <==> pass.progress() is Broken
    &&& outcome matches WriteResult::Failed(words) ==> pass.reported() matches Some(error)
        && says(error, words@)
}

/// A pass that is ready to run: the rewriter with its handlers installed,
/// the document, and the sending end of the completion channel.
pub struct Worker {
    pass: Pass,
    input: Vec<u8>,
    result_tx: Sender<WriteResult>,
    output: Arc<Mutex<Vec<u8>>>,
}

impl Worker {
    #[verifier::type_invariant]
    spec fn fresh(self) -> bool {
        &&& self.pass.progress() is Open
        &&& self.pass.fed() == Seq::<Seq<u8>>::empty()
        &&& self.pass.made().output == Some(self.output)
    }

    /// The handlers that the pass runs, in the order they were installed.
    pub closed spec fn handlers(&self) -> Seq<Installed> {
        self.pass.handlers()
    }

    /// What the rewriter of the pass was made with, besides its handlers.
    pub closed spec fn made(&self) -> Made {
        self.pass.made()
    }

    /// The document that the pass rewrites.
    pub closed spec fn input(&self) -> Seq<u8> {
        self.input@
    }

    /// Makes the pass and reports how it ended, to the caller alone: the
    /// controller will not hear of the end.
    ///
    /// The rewriter of the worker is given the whole document, and is told
    /// that the document is over unless it has failed by then.
    pub fn rewrite(self) -> (outcome: WriteResult)
        ensures
            exists|pass: Pass|
                {
                    &&& #[trigger] passed(pass, self.input(), outcome)
                    &&& pass.handlers() == self.handlers()
                    &&& pass.made() == self.made()
                },
    {
        proof {
            use_type_invariant(&self);
        }
        let ghost before = self;
        let Worker { pass, input, result_tx: _, output } = self;
        let mut pass = pass;
        let outcome = make_pass(&mut pass, input.as_slice(), &output);
        proof {
            assert(input@ == before.input());
            assert(pass.fed() =~= seq![before.input()]);
            assert(passed(pass, before.input(), outcome));
            assert(pass.handlers() == before.handlers());
            assert(pass.made() == before.made());
        }
        outcome
    }

    /// Makes the pass and sends its outcome, once, to the controller. Says
    /// whether the completion channel took it.
    ///
    /// This is what the thread of a pass runs. It returns when the
    /// document is over or the pass has failed, and so only if the
    /// controller answers every request or lets go of its handle. The
    /// rewriter of the worker is given the whole document, and is told
    /// that the document is over unless it has failed by then.
    pub fn run(self) -> (delivered: bool)
        ensures
            exists|pass: Pass, outcome: WriteResult|
                {
                    &&& #[trigger] passed(pass, self.input(), outcome)
                    &&& pass.handlers() == self.handlers()
                    &&& pass.made() == self.made()
                },
    {
        proof {
            use_type_invariant(&self);
        }
        let ghost before = self;
        let Worker { pass, input, result_tx, output } = self;
        let mut pass = pass;
        let outcome = make_pass(&mut pass, input.as_slice(), &output);
        proof {
            assert(input@ == before.input());
            assert(pass.fed() =~= seq![before.input()]);
            assert(passed(pass, before.input(), outcome));
            assert(pass.handlers() == before.handlers());
            assert(pass.made() == before.made());
        }
        match result_tx.send(outcome) {
            Ok(()) => true,
            Err(_) => false,
        }
    }
}

/// One pass over a document.
///
/// The whole document is given to the rewriter in one piece. If that
/// fails, the pass is given up at once; otherwise the rewriter is told that
/// the document is over. The outcome is what the buffer has collected if
/// neither step failed, and the words of the rewriter's error alone if one
/// did.
pub fn make_pass(pass: &mut Pass, input: &[u8], output: &Arc<Mutex<Vec<u8>>>) -> (outcome:
    WriteResult)
    requires
        old(pass).progress() is Open,
    ensures
        final(pass).fed() == old(pass).fed().push(input@),
        final(pass).handlers() == old(pass).handlers(),
        final(pass).made() == old(pass).made(),
        outcome is Finished <==> final(pass).progress() is Closed,
        outcome is Failed <==> final(pass).progress() is Broken,
        outcome matches WriteResult::Failed(words) ==> final(pass).reported() matches Some(error)
            && says(error, words@),
{
    let failure = match pass.feed(input) {
        Err(reason) => Some(reason),
        Ok(()) => match pass.finish() {
            Err(reason) => Some(reason),
            Ok(()) => None,
        },
    };
    match failure {
        Some(reason) => WriteResult::conclude(Some(reason), Vec::new()),
        None => WriteResult::conclude(None, collected(output)),
    }
}

/// The selectors of a sequence of registrations, in the same order.
pub open spec fn selectors_of(handlers: Seq<HandlerView>) -> Seq<Seq<char>> {
    Seq::new(handlers.len(), |i: int| handlers[i].selector)
}

/// Starts a pass over a document: opens the channels, installs the
/// handlers of the registry in the order of registration, and hands back
/// the controller's handle together with the worker that is to run on a
/// thread of its own.
///
/// The registry is used up. The pass cannot start if the rewriter cannot
/// parse one of the selectors; the error names the first such handler.
pub fn rewriter_write(config: RewriterConfig, data: &[u8]) -> (r: Result<
    (RewriterHandle, Worker),
    StartError,
>)
    ensures
        r is Ok <==> all_selectors_parse(selectors_of(config@.handlers)),
        r matches Ok((handle, worker)) ==> {
            &&& handle@ == (SessionView {
                phase: PhaseView::Running,
                output: Seq::empty(),
                responses: Seq::empty(),
            })
            &&& worker.handlers() == asking(config@.handlers)
            &&& worker.made().encoding == chosen(config@.encoding)
            &&& worker.made().max_memory == config@.max_memory
            &&& worker.made().parsing_buffer == parsing_buffer_for(config@.max_memory)
            &&& worker.input() == data@
        },
        r matches Err(StartError::InvalidSelector { handler_id, .. }) ==> exists|i: int|
            #[trigger] first_unparsable(selectors_of(config@.handlers), i) && handler_id
                == config@.handlers[i].handler_id,
{
    let (request_tx, request_rx) = channel::<Request>();
    let (response_tx, response_rx) = channel::<Vec<Mutation>>();
    let (result_tx, result_rx) = channel::<WriteResult>();
    let shared_response_rx = Arc::new(Mutex::new(response_rx));

    let handlers = config.handlers();
    let mut set = HandlerSet::new();
    let mut i: usize = 0;
    while i < handlers.len()
        invariant
            i <= handlers.len(),
            handler_views(handlers@) == config@.handlers,
            set.installed() == asking(config@.handlers.take(i as int)),
            forall|j: int| 0 <= j < i ==> parses((#[trigger] config@.handlers[j]).selector),
        decreases handlers.len() - i,
    {
        let handler = &handlers[i];
        assert(handler@ == config@.handlers[i as int]);
        match parse_selector(handler.selector.as_str()) {
            Err(error) => {
                assert(first_unparsable(selectors_of(config@.handlers), i as int));
                return Err(
                    StartError::InvalidSelector {
                        handler_id: handler.handler_id,
                        reason: error.to_string(),
                    },
                );
            },
            Ok(selector) => {
                let outlet = RequestOutlet::new(request_tx.clone());
                set.install(handler, selector, outlet, share(&shared_response_rx));
                assert(asking(config@.handlers.take(i + 1)) =~= asking(
                    config@.handlers.take(i as int),
                ).push(asks(handler@)));
            },
        }
        i = i + 1;
    }
    assert(config@.handlers.take(i as int) =~= config@.handlers);

    let output = Arc::new(Mutex::new(Vec::new()));
    let pass = set.into_pass(config.encoding(), config.max_memory(), Some(share(&output)));
    let worker = Worker { pass, input: slice_to_vec(data), result_tx, output };
    Ok((RewriterHandle::open(request_rx, response_tx, result_rx), worker))
}

/// A pass runs the handlers of the registry it was started from and no
/// others, so no selector that registration refuses is ever part of one.
pub proof fn lemma_pass_runs_acceptable_selectors(
    config: crate::registry::ConfigView,
    worker: Worker,
    i: int,
)
    requires
        config.wf(),
        worker.handlers() == asking(config.handlers),
        0 <= i < worker.handlers().len(),
    ensures
        worker.handlers()[i] == asks(config.handlers[i]),
        crate::selector::acceptable(config.handlers[i].selector),
{
}

} // verus!
