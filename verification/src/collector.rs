//! A pass that only listens: its handlers edit nothing, and put a message
//! on a queue for every node they are called for. The messages are handed
//! out after each piece of the document.

use crate::channel::share;
use crate::dispatch::ActionView;
use crate::encoding::{recognise, recognised};
use crate::engine::{
    all_selectors_parse, first_unparsable, parse_selector, parsed, parses, Installed, Made,
};
use crate::node::{ElementNode, TextNode};
use crate::registry::RegisterError;
use crate::request::attrs_view;
use crate::selector::{check_selector, trimmed, verdict};
use crate::worker::{settings, HandlerSet, Pass, StartError};
use std::sync::{Arc, Mutex};
use vstd::prelude::*;
use vstd::string::StringSliceAdditionalSpecFns;

verus! {

/// What a listener is told of a node.
#[derive(Debug, PartialEq, Eq)]
pub enum Message {
    /// An element, with its tag name and its attributes in source order.
    Element { filter_id: u64, tag: String, attrs: Vec<(String, String)> },
    /// A chunk of text that is not empty.
    Text { filter_id: u64, content: String },
}

/// The mathematical value of a [`Message`].
pub enum MessageView {
    Element { filter_id: u64, tag: Seq<char>, attrs: Seq<(Seq<char>, Seq<char>)> },
    Text { filter_id: u64, content: Seq<char> },
}

impl View for Message {
    type V = MessageView;

    open spec fn view(&self) -> MessageView {
        match self {
            Message::Element { filter_id, tag, attrs } => MessageView::Element {
                filter_id: *filter_id,
                tag: tag@,
                attrs: attrs_view(attrs@),
            },
            Message::Text { filter_id, content } => MessageView::Text {
                filter_id: *filter_id,
                content: content@,
            },
        }
    }
}

/// The message that tells of an element.
pub open spec fn element_message(filter_id: u64, node: &ElementNode<'_, '_, '_>) -> MessageView {
    MessageView::Element { filter_id, tag: node.tag(), attrs: node.attributes() }
}

/// The message that tells of a chunk of text, if the chunk is not empty.
pub open spec fn text_message(filter_id: u64, node: &TextNode<'_, '_>) -> Option<MessageView> {
    if node.text().len() == 0 {
        None
    } else {
        Some(MessageView::Text { filter_id, content: node.text() })
    }
}

/// The view of a message, if there is one.
pub open spec fn message_view(message: Option<Message>) -> Option<MessageView> {
    match message {
        Some(message) => Some(message@),
        None => None,
    }
}

/// Builds the message that tells of an element.
pub fn message_for_element(filter_id: u64, node: &ElementNode<'_, '_, '_>) -> (message: Message)
    ensures
        message@ == element_message(filter_id, node),
{
    Message::Element { filter_id, tag: node.tag_name(), attrs: node.attribute_list() }
}

/// Builds the message that tells of a chunk of text. An empty chunk is
/// not worth one.
pub fn message_for_text(filter_id: u64, node: &TextNode<'_, '_>) -> (message: Option<Message>)
    ensures
        message_view(message) == text_message(filter_id, node),
{
    let content = node.content();
    if content.as_str().is_empty() {
        None
    } else {
        Some(Message::Text { filter_id, content })
    }
}

/// The queue of a listening pass, as one handler holds it.
pub struct MessageQueue {
    queue: Arc<Mutex<Vec<Message>>>,
    queued: Ghost<Seq<MessageView>>,
}

impl MessageQueue {
    /// The messages that this handler has put on the queue, oldest first.
    pub closed spec fn queued(&self) -> Seq<MessageView> {
        self.queued@
    }

    /// The queue in the hand of a handler that has put nothing on it yet.
    pub fn new(queue: Arc<Mutex<Vec<Message>>>) -> (held: Self)
        ensures
            held.queued() == Seq::<MessageView>::empty(),
    {
        MessageQueue { queue, queued: Ghost(Seq::empty()) }
    }

    /// Puts a message at the end of the queue.
    pub fn put(&mut self, message: Message)
        ensures
            final(self).queued() == old(self).queued().push(message@),
    {
        proof {
            self.queued = Ghost(self.queued@.push(message@));
        }
        let mut guard = match self.queue.lock() {
            Ok(guard) => guard,
            Err(broken) => broken.into_inner(),
        };
        guard.push(message);
    }
}

/// Puts the message that tells of an element on the queue. The element
/// stays as it is.
pub fn record_element(node: &ElementNode<'_, '_, '_>, filter_id: u64, queue: &mut MessageQueue)
    ensures
        final(queue).queued() == old(queue).queued().push(element_message(filter_id, node)),
{
    queue.put(message_for_element(filter_id, node));
}

/// Puts the message that tells of a chunk of text on the queue, unless the
/// chunk is empty. The chunk stays as it is.
pub fn record_text(node: &TextNode<'_, '_>, filter_id: u64, queue: &mut MessageQueue)
    ensures
        final(queue).queued() == match text_message(filter_id, node) {
            Some(message) => old(queue).queued().push(message),
            None => old(queue).queued(),
        },
{
    match message_for_text(filter_id, node) {
        Some(message) => queue.put(message),
        None => {},
    }
}

/// Empties a queue and hands out what it held, oldest first.
fn take_messages(queue: &Arc<Mutex<Vec<Message>>>) -> (messages: Vec<Message>) {
    let mut guard = match queue.lock() {
        Ok(guard) => guard,
        Err(broken) => broken.into_inner(),
    };
    let mut taken: Vec<Message> = Vec::new();
    core::mem::swap(&mut *guard, &mut taken);
    taken
}

/// One selector of a listening pass: its identity, and whether text is
/// reported besides elements.
#[derive(Debug)]
pub struct SelectorConfig {
    pub filter_id: u64,
    pub selector: String,
    pub send_text: bool,
}

/// The mathematical value of a [`SelectorConfig`].
pub struct FilterView {
    pub filter_id: u64,
    pub selector: Seq<char>,
    pub send_text: bool,
}

impl View for SelectorConfig {
    type V = FilterView;

    open spec fn view(&self) -> FilterView {
        FilterView { filter_id: self.filter_id, selector: self.selector@, send_text: self.send_text }
    }
}

/// The selectors of a listening pass, in the order they were added.
pub struct RewriterBuilder {
    selectors: Vec<SelectorConfig>,
    next_id: u64,
}

/// The mathematical value of a [`RewriterBuilder`].
pub struct BuilderView {
    /// The selectors, oldest first.
    pub filters: Seq<FilterView>,
    /// The identity that the next selector gets.
    pub next_id: u64,
}

impl BuilderView {
    /// What holds of every builder: identities grow with each selector,
    /// none is given out twice, and every selector is one that
    /// registration takes.
    pub open spec fn wf(self) -> bool {
        &&& forall|i: int|
            0 <= i < self.filters.len() ==> (#[trigger] self.filters[i]).filter_id < self.next_id
        &&& forall|i: int, j: int|
            0 <= i < j < self.filters.len() ==> (#[trigger] self.filters[i]).filter_id < (
            #[trigger] self.filters[j]).filter_id
        &&& forall|i: int|
            0 <= i < self.filters.len() ==> crate::selector::acceptable(
                (#[trigger] self.filters[i]).selector,
            )
    }

    /// The builder after one more selector, and what adding it returns. A
    /// selector that is refused leaves the builder as it was.
    pub open spec fn filter(self, selector: Seq<char>, send_text: bool) -> (
        BuilderView,
        Result<u64, RegisterError>,
    ) {
        match verdict(selector, trimmed(selector)) {
            Err(e) => (self, Err(RegisterError::BadSelector(e))),
            Ok(()) => if self.next_id == u64::MAX {
                (self, Err(RegisterError::IdsExhausted))
            } else {
                (
                    BuilderView {
                        filters: self.filters.push(
                            FilterView { filter_id: self.next_id, selector, send_text },
                        ),
                        next_id: (self.next_id + 1) as u64,
                    },
                    Ok(self.next_id),
                )
            },
        }
    }

    /// The identities of the selectors, in the same order.
    pub open spec fn ids(self) -> Seq<u64> {
        ids_of(self.filters)
    }

    /// The selectors as the rewriter is given them, in the same order.
    pub open spec fn selectors(self) -> Seq<Seq<char>> {
        Seq::new(self.filters.len(), |i: int| self.filters[i].selector)
    }
}

impl View for RewriterBuilder {
    type V = BuilderView;

    closed spec fn view(&self) -> BuilderView {
        BuilderView {
            filters: Seq::new(self.selectors@.len(), |i: int| self.selectors@[i]@),
            next_id: self.next_id,
        }
    }
}

impl RewriterBuilder {
    /// A builder without selectors, whose first selector gets the identity
    /// `first_id`.
    pub fn starting_at(first_id: u64) -> (builder: Self)
        ensures
            builder@ == (BuilderView { filters: Seq::empty(), next_id: first_id }),
            builder@.wf(),
    {
        let builder = RewriterBuilder { selectors: Vec::new(), next_id: first_id };
        assert(builder@.filters =~= Seq::empty());
        builder
    }
}

/// A builder without selectors, whose first selector gets the identity 0.
pub fn build() -> (builder: RewriterBuilder)
    ensures
        builder@ == (BuilderView { filters: Seq::empty(), next_id: 0 }),
        builder@.wf(),
{
    RewriterBuilder::starting_at(0)
}

/// Adds a selector and returns its identity. With `send_text` the pass
/// reports the text inside the matching elements too.
pub fn filter(builder: &mut RewriterBuilder, selector: String, send_text: bool) -> (r: Result<
    u64,
    RegisterError,
>)
    ensures
        (final(builder)@, r) == old(builder)@.filter(selector@, send_text),
        old(builder)@.wf() ==> final(builder)@.wf(),
{
    match check_selector(selector.as_str()) {
        Err(e) => Err(RegisterError::BadSelector(e)),
        Ok(()) => {
            if builder.next_id == u64::MAX {
                return Err(RegisterError::IdsExhausted);
            }
            let filter_id = builder.next_id;
            let ghost before = builder@;
            let ghost added = FilterView { filter_id, selector: selector@, send_text };
            builder.selectors.push(SelectorConfig { filter_id, selector, send_text });
            builder.next_id = filter_id + 1;
            proof {
                assert(builder@.filters =~= before.filters.push(added));
            }
            Ok(filter_id)
        },
    }
}

/// Why a listening pass could not take a piece of the document.
#[derive(Debug, PartialEq, Eq)]
pub enum CollectError {
    /// The pass is over, or has failed before.
    Consumed,
    /// The rewriter failed; the reason is the rewriter's own. The pass is
    /// over from here on.
    Rewriter(String),
}

impl CollectError {
    /// The error in words.
    pub fn message(&self) -> (text: String)
        ensures
            *self matches CollectError::Consumed ==> text@ == "rewriter already consumed"@,
            *self matches CollectError::Rewriter(reason) ==> text@ == reason@,
    {
        match self {
            CollectError::Consumed => "rewriter already consumed".to_owned(),
            CollectError::Rewriter(reason) => reason.clone(),
        }
    }
}

/// A listening pass.
pub struct Collector {
    pass: Pass,
    over: bool,
    messages: Arc<Mutex<Vec<Message>>>,
    filters: Vec<u64>,
}

/// The identities of a sequence of selectors, in the same order.
pub open spec fn ids_of(filters: Seq<FilterView>) -> Seq<u64> {
    Seq::new(filters.len(), |i: int| filters[i].filter_id)
}

/// The entries of the rewriter's list that a selector of a listening pass
/// makes: a handler that records elements, and after it, only where text is
/// to be reported, one that records text chunks; both for the selector
/// that the text parses to, and under the identity of the selector.
pub open spec fn listens(filter: FilterView) -> Seq<Installed> {
    let on_element = Installed {
        selector: parsed(filter.selector)->Some_0,
        on_text: false,
        action: ActionView::Record { filter_id: filter.filter_id },
    };
    let on_text = Installed {
        selector: parsed(filter.selector)->Some_0,
        on_text: true,
        action: ActionView::Record { filter_id: filter.filter_id },
    };
    if filter.send_text {
        seq![on_element, on_text]
    } else {
        seq![on_element]
    }
}

/// The entries that the selectors of a listening pass make, in the order
/// of the selectors.
pub open spec fn listening(filters: Seq<FilterView>) -> Seq<Installed>
    decreases filters.len(),
{
    if filters.len() == 0 {
        Seq::empty()
    } else {
        listening(filters.drop_last()) + listens(filters.last())
    }
}

impl Collector {
    /// What holds of every listening pass: it is over exactly when its
    /// rewriter takes no more.
    pub closed spec fn wf(&self) -> bool {
        self.over <==> !(self.pass.progress() is Open)
    }

    /// The handlers that the pass runs, in the order they were installed.
    pub closed spec fn handlers(&self) -> Seq<Installed> {
        self.pass.handlers()
    }

    /// What the rewriter of the pass was made with, besides its handlers.
    pub closed spec fn made(&self) -> Made {
        self.pass.made()
    }

    /// The pieces of the document that the pass was given, oldest first.
    pub closed spec fn fed(&self) -> Seq<Seq<u8>> {
        self.pass.fed()
    }

    /// Whether the pass is over.
    pub closed spec fn is_consumed(&self) -> bool {
        self.over
    }

    /// The identities of the selectors of the pass, in the order they were
    /// added.
    pub closed spec fn filters(&self) -> Seq<u64> {
        self.filters@
    }
}

/// Whether the rewriter can parse the selector at a place of a builder.
pub open spec fn parses_at(builder: BuilderView, i: int) -> bool {
    parses(builder.selectors()[i])
}

/// Makes a listening pass from the selectors of a builder, for a document
/// in the encoding that the label names. Where the label names no encoding
/// that the rewriter can take, the pass falls back on UTF-8.
///
/// The pass cannot be made if the rewriter cannot parse one of the
/// selectors; the error names the first such selector.
pub fn create(builder: &RewriterBuilder, encoding: &str, max_memory: usize) -> (r: Result<
    Collector,
    StartError,
>)
    ensures
        r is Ok <==> all_selectors_parse(builder@.selectors()),
        r matches Ok(collector) ==> {
            &&& collector.wf()
            &&& !collector.is_consumed()
            &&& collector.handlers() == listening(builder@.filters)
            &&& collector.made() == settings(recognised(encoding.spec_bytes()), max_memory, None)
            &&& collector.fed() == Seq::<Seq<u8>>::empty()
            &&& collector.filters() == builder@.ids()
        },
        r matches Err(StartError::InvalidSelector { handler_id, .. }) ==> exists|i: int|
            #[trigger] first_unparsable(builder@.selectors(), i) && handler_id
                == builder@.filters[i].filter_id,
{
    let messages: Arc<Mutex<Vec<Message>>> = Arc::new(Mutex::new(Vec::new()));
    let mut set = HandlerSet::new();
    let mut filters: Vec<u64> = Vec::new();
    let mut i: usize = 0;
    proof {
        assert(builder@.ids().take(0) =~= Seq::<u64>::empty());
        assert(builder@.filters.take(0).len() == 0);
    }
    while i < builder.selectors.len()
        invariant
            i <= builder.selectors.len(),
            filters@ == builder@.ids().take(i as int),
            set.installed() == listening(builder@.filters.take(i as int)),
            forall|j: int| 0 <= j < i ==> parses_at(builder@, j),
        decreases builder.selectors.len() - i,
    {
        let config = &builder.selectors[i];
        assert(config@ == builder@.filters[i as int]);
        assert(builder@.selectors()[i as int] == config.selector@);
        let selector = match parse_selector(config.selector.as_str()) {
            Ok(selector) => selector,
            Err(error) => {
                assert(first_unparsable(builder@.selectors(), i as int)) by {
                    assert forall|j: int| 0 <= j < i implies parses(
                        #[trigger] builder@.selectors()[j],
                    ) by {
                        assert(parses_at(builder@, j));
                    }
                }
                return Err(
                    StartError::InvalidSelector {
                        handler_id: config.filter_id,
                        reason: error.to_string(),
                    },
                );
            },
        };
        let ghost before = set.installed();
        if config.send_text {
            set.listen(selector.clone(), false, config.filter_id, share(&messages));
            set.listen(selector, true, config.filter_id, share(&messages));
        } else {
            set.listen(selector, false, config.filter_id, share(&messages));
        }
        filters.push(config.filter_id);
        proof {
            let next = builder@.filters.take(i + 1);
            assert(next.drop_last() =~= builder@.filters.take(i as int));
            assert(next.last() == config@);
            assert(set.installed() =~= before + listens(config@));
            assert(parses_at(builder@, i as int));
            assert(builder@.ids().take(i + 1) =~= builder@.ids().take(i as int).push(
                config.filter_id,
            ));
        }
        i = i + 1;
    }
    proof {
        assert(builder@.ids().take(i as int) =~= builder@.ids());
        assert(builder@.filters.take(i as int) =~= builder@.filters);
        assert forall|j: int| 0 <= j < builder@.selectors().len() implies parses(
            #[trigger] builder@.selectors()[j],
        ) by {
            assert(parses_at(builder@, j));
        }
    }
    let pass = set.into_pass(recognise(encoding), max_memory, None);
    Ok(Collector { pass, over: false, messages, filters })
}

/// Feeds a piece of the document to the pass and hands out the messages
/// that its handlers have queued by then, oldest first.
///
/// A pass that is over takes nothing. A pass whose rewriter fails is over
/// from then on, and hands out nothing for the piece.
pub fn parse(collector: &mut Collector, data: &[u8]) -> (r: Result<Vec<Message>, CollectError>)
    requires
        old(collector).wf(),
    ensures
        final(collector).wf(),
        final(collector).filters() == old(collector).filters(),
        final(collector).handlers() == old(collector).handlers(),
        final(collector).made() == old(collector).made(),
        old(collector).is_consumed() ==> {
            &&& r matches Err(CollectError::Consumed)
            &&& final(collector).fed() == old(collector).fed()
        },
        !old(collector).is_consumed() ==> {
            &&& !(r matches Err(CollectError::Consumed))
            &&& final(collector).fed() == old(collector).fed().push(data@)
        },
        final(collector).is_consumed() <==> r is Err,
{
    if collector.over {
        return Err(CollectError::Consumed);
    }
    match collector.pass.feed(data) {
        Err(reason) => {
            collector.over = true;
            Err(CollectError::Rewriter(reason))
        },
        Ok(()) => Ok(take_messages(&collector.messages)),
    }
}

/// What the end of a listening pass hands out.
#[derive(Debug, PartialEq, Eq)]
pub struct Flush {
    /// The messages that the handlers have queued since the last piece,
    /// oldest first.
    pub messages: Vec<Message>,
    /// The identities of the selectors, each of which is owed a notice
    /// that the pass is over, in the order they were added.
    pub ended: Vec<u64>,
}

/// Tells the pass that the document is over, and hands out the last
/// messages and the selectors to tell of the end. The pass is over
/// afterwards, however this went.
pub fn done(collector: &mut Collector) -> (r: Result<Flush, CollectError>)
    requires
        old(collector).wf(),
    ensures
        final(collector).wf(),
        final(collector).is_consumed(),
        final(collector).filters() == old(collector).filters(),
        final(collector).handlers() == old(collector).handlers(),
        final(collector).made() == old(collector).made(),
        final(collector).fed() == old(collector).fed(),
        old(collector).is_consumed() ==> r matches Err(CollectError::Consumed),
        !old(collector).is_consumed() ==> !(r matches Err(CollectError::Consumed)),
        r matches Ok(flush) ==> flush.ended@ == old(collector).filters(),
{
    if collector.over {
        return Err(CollectError::Consumed);
    }
    collector.over = true;
    match collector.pass.finish() {
        Err(reason) => Err(CollectError::Rewriter(reason)),
        Ok(()) => Ok(
            Flush { messages: take_messages(&collector.messages), ended: collector.filters.clone() },
        ),
    }
}

/// No two selectors of a builder share an identity.
pub proof fn lemma_filter_ids_distinct(builder: BuilderView, i: int, j: int)
    requires
        builder.wf(),
        0 <= i < builder.filters.len(),
        0 <= j < builder.filters.len(),
        i != j,
    ensures
        builder.filters[i].filter_id != builder.filters[j].filter_id,
{
    if i < j {
        assert(builder.filters[i].filter_id < builder.filters[j].filter_id);
    } else {
        assert(builder.filters[j].filter_id < builder.filters[i].filter_id);
    }
}

} // verus!
