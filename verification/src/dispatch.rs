//! What the rewriter calls when it stops at a node.

use crate::collector::{record_element, record_text, MessageQueue, MessageView};
use crate::mutation::MutationView;
use crate::node::{
    chunk_is_last, chunk_text, element_attributes, element_tag, ElementNode, RawElement,
    TextNode,
};
use crate::request::RequestView;
use crate::worker::{on_element, on_text, HandlerFailure, RequestOutlet, ResponseInlet};
use lol_html::html_content::TextChunk;
use vstd::prelude::*;

verus! {

/// What a handler does with the nodes it is called for.
pub enum NodeAction {
    /// It asks the controller, and makes the edits of the answer.
    Ask { handler_id: u64, outlet: RequestOutlet, inlet: ResponseInlet },
    /// It puts a message that tells of the node on a queue.
    Record { filter_id: u64, queue: MessageQueue },
}

/// The mathematical value of a [`NodeAction`]: what the handler does, and
/// for which registration.
pub enum ActionView {
    Ask { handler_id: u64 },
    Record { filter_id: u64 },
}

impl View for NodeAction {
    type V = ActionView;

    open spec fn view(&self) -> ActionView {
        match self {
            NodeAction::Ask { handler_id, .. } => ActionView::Ask { handler_id: *handler_id },
            NodeAction::Record { filter_id, .. } => ActionView::Record { filter_id: *filter_id },
        }
    }
}

/// The request that tells of the element the rewriter has stopped at.
pub open spec fn request_at_element(handler_id: u64, raw: &RawElement<'_, '_, '_>) -> RequestView {
    RequestView::Element {
        handler_id,
        tag: element_tag(raw),
        attrs: element_attributes(raw),
    }
}

/// The request that tells of the text chunk the rewriter has stopped at,
/// unless the chunk is passed over: an empty chunk is, unless it closes its
/// text node.
pub open spec fn request_at_text(handler_id: u64, raw: &TextChunk<'_>) -> Option<RequestView> {
    if chunk_text(raw).len() == 0 && !chunk_is_last(raw) {
        None
    } else {
        Some(
            RequestView::Text {
                handler_id,
                content: chunk_text(raw),
                last_in_text_node: chunk_is_last(raw),
            },
        )
    }
}

/// The message that tells of the element the rewriter has stopped at.
pub open spec fn message_at_element(filter_id: u64, raw: &RawElement<'_, '_, '_>) -> MessageView {
    MessageView::Element { filter_id, tag: element_tag(raw), attrs: element_attributes(raw) }
}

/// The message that tells of the text chunk the rewriter has stopped at,
/// if the chunk is not empty.
pub open spec fn message_at_text(filter_id: u64, raw: &TextChunk<'_>) -> Option<MessageView> {
    if chunk_text(raw).len() == 0 {
        None
    } else {
        Some(MessageView::Text { filter_id, content: chunk_text(raw) })
    }
}

/// How a handler that asks the controller leaves its outlet and its inlet,
/// and what it tells the rewriter.
///
/// A handler that has nothing to ask sends nothing, takes nothing and
/// reports success. Any other handler sends its one request. If the channel
/// does not take it, nothing was sent and the handler reports that. If no
/// response comes, the request was sent and the handler reports that.
/// Otherwise the request was sent, one response was taken and the handler
/// reports success.
pub open spec fn asked(
    sent_before: Seq<RequestView>,
    sent_after: Seq<RequestView>,
    received_before: Seq<Seq<MutationView>>,
    received_after: Seq<Seq<MutationView>>,
    request: Option<RequestView>,
    told: Result<(), String>,
) -> bool {
    match request {
        None => told is Ok && sent_after == sent_before && received_after == received_before,
        Some(request) => match told {
            Ok(()) => {
                &&& sent_after == sent_before.push(request)
                &&& received_after.len() == received_before.len() + 1
                &&& received_after.drop_last() == received_before
            },
            Err(words) => {
                &&& received_after == received_before
                &&& {
                    ||| words@ == HandlerFailure::RequestNotSent.words() && sent_after
                        == sent_before
                    ||| words@ == HandlerFailure::ResponseNotReceived.words() && sent_after
                        == sent_before.push(request)
                }
            },
        },
    }
}

/// What a call of a handler does to its action, given the request and the
/// message that the node calls for.
///
/// A handler that records keeps its identity, reports success, and has
/// queued the message for the node, if the node calls for one. A handler
/// that asks keeps its identity, and leaves its outlet and its inlet as
/// [`asked`] says.
pub open spec fn handled(
    before: NodeAction,
    after: NodeAction,
    request: spec_fn(u64) -> Option<RequestView>,
    message: spec_fn(u64) -> Option<MessageView>,
    told: Result<(), String>,
) -> bool {
    match before {
        NodeAction::Record { filter_id, queue } => {
            &&& told is Ok
            &&& after matches NodeAction::Record { filter_id: same_id, queue: same_queue }
            &&& same_id == filter_id
            &&& same_queue.queued() == match message(filter_id) {
                Some(message) => queue.queued().push(message),
                None => queue.queued(),
            }
        },
        NodeAction::Ask { handler_id, outlet, inlet } => {
            &&& after matches NodeAction::Ask {
                handler_id: same_id,
                outlet: same_outlet,
                inlet: same_inlet,
            }
            &&& same_id == handler_id
            &&& asked(
                outlet.sent(),
                same_outlet.sent(),
                inlet.received(),
                same_inlet.received(),
                request(handler_id),
                told,
            )
        },
    }
}

/// The whole of an element handler, as the rewriter calls it. A failure
/// goes back in words, and makes the pass fail.
pub(crate) fn element_matched(raw: RawElement<'_, '_, '_>, action: &mut NodeAction) -> (r: Result<
    (),
    String,
>)
    ensures
        handled(
            *old(action),
            *final(action),
            |handler_id: u64| Some(request_at_element(handler_id, &raw)),
            |filter_id: u64| Some(message_at_element(filter_id, &raw)),
            r,
        ),
{
    let mut node = ElementNode::attach(raw);
    match action {
        NodeAction::Ask { handler_id, outlet, inlet } => {
            match on_element(&mut node, *handler_id, outlet, inlet) {
                Ok(()) => Ok(()),
                Err(failure) => Err(failure.message()),
            }
        },
        NodeAction::Record { filter_id, queue } => {
            record_element(&node, *filter_id, queue);
            Ok(())
        },
    }
}

/// The whole of a text handler, as the rewriter calls it. A failure goes
/// back in words, and makes the pass fail.
pub(crate) fn text_matched(raw: &mut TextChunk<'_>, action: &mut NodeAction) -> (r: Result<
    (),
    String,
>)
    ensures
        handled(
            *old(action),
            *final(action),
            |handler_id: u64| request_at_text(handler_id, old(raw)),
            |filter_id: u64| message_at_text(filter_id, old(raw)),
            r,
        ),
{
    let mut node = TextNode::attach(raw);
    match action {
        NodeAction::Ask { handler_id, outlet, inlet } => {
            match on_text(&mut node, *handler_id, outlet, inlet) {
                Ok(()) => Ok(()),
                Err(failure) => Err(failure.message()),
            }
        },
        NodeAction::Record { filter_id, queue } => {
            record_text(&node, *filter_id, queue);
            Ok(())
        },
    }
}

} // verus!
