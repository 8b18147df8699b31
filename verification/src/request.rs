//! What a pass tells its controller: the nodes it stops at, and how it ended.

use vstd::prelude::*;

verus! {

/// A node that a registered handler matched, as the controller is told of it.
#[derive(Debug, PartialEq, Eq)]
pub enum Request {
    /// An element, with its tag name and its attributes in source order.
    Element { handler_id: u64, tag: String, attrs: Vec<(String, String)> },
    /// A chunk of a text node. `last_in_text_node` marks the chunk that
    /// closes its text node.
    Text { handler_id: u64, content: String, last_in_text_node: bool },
}

/// The mathematical value of a [`Request`].
pub enum RequestView {
    Element { handler_id: u64, tag: Seq<char>, attrs: Seq<(Seq<char>, Seq<char>)> },
    Text { handler_id: u64, content: Seq<char>, last_in_text_node: bool },
}

/// The attributes of an element as pairs of character sequences.
pub open spec fn attrs_view(attrs: Seq<(String, String)>) -> Seq<(Seq<char>, Seq<char>)> {
    Seq::new(attrs.len(), |i: int| (attrs[i].0@, attrs[i].1@))
}

impl View for Request {
    type V = RequestView;

    open spec fn view(&self) -> RequestView {
        match self {
            Request::Element { handler_id, tag, attrs } => RequestView::Element {
                handler_id: *handler_id,
                tag: tag@,
                attrs: attrs_view(attrs@),
            },
            Request::Text { handler_id, content, last_in_text_node } => RequestView::Text {
                handler_id: *handler_id,
                content: content@,
                last_in_text_node: *last_in_text_node,
            },
        }
    }
}

/// How a pass ended: with the whole rewritten document, or with the reason
/// it was given up. A failed pass hands out no part of its output.
#[derive(Debug, PartialEq, Eq)]
pub enum WriteResult {
    Finished(Vec<u8>),
    Failed(String),
}

/// The mathematical value of a [`WriteResult`].
pub enum WriteResultView {
    Finished(Seq<u8>),
    Failed(Seq<char>),
}

impl View for WriteResult {
    type V = WriteResultView;

    open spec fn view(&self) -> WriteResultView {
        match self {
            WriteResult::Finished(bytes) => WriteResultView::Finished(bytes@),
            WriteResult::Failed(reason) => WriteResultView::Failed(reason@),
        }
    }
}

/// The outcome of a pass that failed with `failure`, if it did, and had
/// written `output` by then.
pub open spec fn concluded(failure: Option<Seq<char>>, output: Seq<u8>) -> WriteResultView {
    match failure {
        Some(reason) => WriteResultView::Failed(reason),
        None => WriteResultView::Finished(output),
    }
}

/// The characters of a reason, if there is one.
pub open spec fn reason_view(failure: Option<String>) -> Option<Seq<char>> {
    match failure {
        Some(reason) => Some(reason@),
        None => None,
    }
}

impl WriteResult {
    /// The outcome of a pass: its output if nothing failed, the reason
    /// alone if something did.
    pub fn conclude(failure: Option<String>, output: Vec<u8>) -> (result: WriteResult)
        ensures
            result@ == concluded(reason_view(failure), output@),
    {
        match failure {
            Some(reason) => WriteResult::Failed(reason),
            None => WriteResult::Finished(output),
        }
    }
}

/// What one poll of a session reports.
#[derive(Debug, PartialEq, Eq)]
pub enum PollResult {
    /// An element handler is waiting for its response.
    Element { handler_id: u64, tag: String, attrs: Vec<(String, String)> },
    /// A text handler is waiting for its response.
    Text { handler_id: u64, content: String, last_in_text_node: bool },
    /// The pass is over and its output can be fetched.
    Done,
    /// The pass failed.
    Error(String),
    /// Nothing has happened since the last poll.
    NothingYet,
}

/// The mathematical value of a [`PollResult`].
pub enum PollResultView {
    Element { handler_id: u64, tag: Seq<char>, attrs: Seq<(Seq<char>, Seq<char>)> },
    Text { handler_id: u64, content: Seq<char>, last_in_text_node: bool },
    Done,
    Error(Seq<char>),
    NothingYet,
}

impl View for PollResult {
    type V = PollResultView;

    open spec fn view(&self) -> PollResultView {
        match self {
            PollResult::Element { handler_id, tag, attrs } => PollResultView::Element {
                handler_id: *handler_id,
                tag: tag@,
                attrs: attrs_view(attrs@),
            },
            PollResult::Text { handler_id, content, last_in_text_node } => PollResultView::Text {
                handler_id: *handler_id,
                content: content@,
                last_in_text_node: *last_in_text_node,
            },
            PollResult::Done => PollResultView::Done,
            PollResult::Error(reason) => PollResultView::Error(reason@),
            PollResult::NothingYet => PollResultView::NothingYet,
        }
    }
}

impl RequestView {
    /// The poll result that reports this request.
    pub open spec fn as_poll(self) -> PollResultView {
        match self {
            RequestView::Element { handler_id, tag, attrs } => PollResultView::Element {
                handler_id,
                tag,
                attrs,
            },
            RequestView::Text { handler_id, content, last_in_text_node } => PollResultView::Text {
                handler_id,
                content,
                last_in_text_node,
            },
        }
    }
}

impl PollResult {
    /// Reports a request to the controller, field for field.
    pub fn from_request(request: Request) -> (result: PollResult)
        ensures
            result@ == request@.as_poll(),
    {
        match request {
            Request::Element { handler_id, tag, attrs } => PollResult::Element {
                handler_id,
                tag,
                attrs,
            },
            Request::Text { handler_id, content, last_in_text_node } => PollResult::Text {
                handler_id,
                content,
                last_in_text_node,
            },
        }
    }
}

} // verus!
