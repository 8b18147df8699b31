//! The edits a controller may ask for, and how they arrive on the wire.

use crate::text::same_text;
use vstd::prelude::*;

verus! {

/// One edit requested for the node a handler was called for.
///
/// The `bool` of the content-carrying variants is `true` when the content
/// is markup to be inserted as it is, `false` when it is text to be escaped.
#[derive(Debug, Clone, PartialEq, Eq)]
pub enum Mutation {
    SetAttribute(String, String),
    RemoveAttribute(String),
    Prepend(String, bool),
    Append(String, bool),
    Before(String, bool),
    After(String, bool),
    SetInnerContent(String, bool),
    Replace(String, bool),
    Remove,
    NoOp,
}

/// The mathematical value of a [`Mutation`]: the same variants over
/// sequences of characters.
pub enum MutationView {
    SetAttribute(Seq<char>, Seq<char>),
    RemoveAttribute(Seq<char>),
    Prepend(Seq<char>, bool),
    Append(Seq<char>, bool),
    Before(Seq<char>, bool),
    After(Seq<char>, bool),
    SetInnerContent(Seq<char>, bool),
    Replace(Seq<char>, bool),
    Remove,
    NoOp,
}

impl View for Mutation {
    type V = MutationView;

    open spec fn view(&self) -> MutationView {
        match self {
            Mutation::SetAttribute(name, value) => MutationView::SetAttribute(name@, value@),
            Mutation::RemoveAttribute(name) => MutationView::RemoveAttribute(name@),
            Mutation::Prepend(content, markup) => MutationView::Prepend(content@, *markup),
            Mutation::Append(content, markup) => MutationView::Append(content@, *markup),
            Mutation::Before(content, markup) => MutationView::Before(content@, *markup),
            Mutation::After(content, markup) => MutationView::After(content@, *markup),
            Mutation::SetInnerContent(content, markup) => MutationView::SetInnerContent(
                content@,
                *markup,
            ),
            Mutation::Replace(content, markup) => MutationView::Replace(content@, *markup),
            Mutation::Remove => MutationView::Remove,
            Mutation::NoOp => MutationView::NoOp,
        }
    }
}

impl MutationView {
    /// Whether the edit does anything to an element: every edit but `NoOp`.
    pub open spec fn edits_element(self) -> bool {
        !(self is NoOp)
    }

    /// Whether the edit does anything to a text chunk: only `Replace`,
    /// `Before`, `After` and `Remove` do.
    pub open spec fn edits_text(self) -> bool {
        self is Replace || self is Before || self is After || self is Remove
    }
}

/// The edit that an operation name with its two arguments stands for.
///
/// Content operations come in two spellings, `_html` for markup and `_text`
/// for text to be escaped. A name outside the vocabulary stands for `NoOp`.
pub open spec fn decoded(op: Seq<char>, arg1: Seq<char>, arg2: Seq<char>) -> MutationView {
    if op == "set_attribute"@ {
        MutationView::SetAttribute(arg1, arg2)
    } else if op == "remove_attribute"@ {
        MutationView::RemoveAttribute(arg1)
    } else if op == "prepend_html"@ {
        MutationView::Prepend(arg1, true)
    } else if op == "prepend_text"@ {
        MutationView::Prepend(arg1, false)
    } else if op == "append_html"@ {
        MutationView::Append(arg1, true)
    } else if op == "append_text"@ {
        MutationView::Append(arg1, false)
    } else if op == "before_html"@ {
        MutationView::Before(arg1, true)
    } else if op == "before_text"@ {
        MutationView::Before(arg1, false)
    } else if op == "after_html"@ {
        MutationView::After(arg1, true)
    } else if op == "after_text"@ {
        MutationView::After(arg1, false)
    } else if op == "set_inner_html"@ {
        MutationView::SetInnerContent(arg1, true)
    } else if op == "set_inner_text"@ {
        MutationView::SetInnerContent(arg1, false)
    } else if op == "replace_html"@ {
        MutationView::Replace(arg1, true)
    } else if op == "replace_text"@ {
        MutationView::Replace(arg1, false)
    } else if op == "remove"@ {
        MutationView::Remove
    } else {
        MutationView::NoOp
    }
}

/// The edits that a sequence of wire triples stands for, in the same order.
pub open spec fn decoded_all(raw: Seq<(String, String, String)>) -> Seq<MutationView> {
    Seq::new(raw.len(), |i: int| decoded(raw[i].0@, raw[i].1@, raw[i].2@))
}

/// The views of a sequence of mutations, in the same order.
pub open spec fn views(mutations: Seq<Mutation>) -> Seq<MutationView> {
    Seq::new(mutations.len(), |i: int| mutations[i]@)
}

impl Mutation {
    /// Decodes one wire triple.
    pub fn decode(op: &str, arg1: String, arg2: String) -> (mutation: Mutation)
        ensures
            mutation@ == decoded(op@, arg1@, arg2@),
    {
        if same_text(op, "set_attribute") {
            Mutation::SetAttribute(arg1, arg2)
        } else if same_text(op, "remove_attribute") {
            Mutation::RemoveAttribute(arg1)
        } else if same_text(op, "prepend_html") {
            Mutation::Prepend(arg1, true)
        } else if same_text(op, "prepend_text") {
            Mutation::Prepend(arg1, false)
        } else if same_text(op, "append_html") {
            Mutation::Append(arg1, true)
        } else if same_text(op, "append_text") {
            Mutation::Append(arg1, false)
        } else if same_text(op, "before_html") {
            Mutation::Before(arg1, true)
        } else if same_text(op, "before_text") {
            Mutation::Before(arg1, false)
        } else if same_text(op, "after_html") {
            Mutation::After(arg1, true)
        } else if same_text(op, "after_text") {
            Mutation::After(arg1, false)
        } else if same_text(op, "set_inner_html") {
            Mutation::SetInnerContent(arg1, true)
        } else if same_text(op, "set_inner_text") {
            Mutation::SetInnerContent(arg1, false)
        } else if same_text(op, "replace_html") {
            Mutation::Replace(arg1, true)
        } else if same_text(op, "replace_text") {
            Mutation::Replace(arg1, false)
        } else if same_text(op, "remove") {
            Mutation::Remove
        } else {
            Mutation::NoOp
        }
    }

    /// Decodes a whole response, triple by triple.
    pub fn decode_all(raw: &Vec<(String, String, String)>) -> (mutations: Vec<Mutation>)
        ensures
            views(mutations@) == decoded_all(raw@),
    {
        let mut mutations: Vec<Mutation> = Vec::new();
        let mut i: usize = 0;
        while i < raw.len()
            invariant
                i <= raw.len(),
                mutations@.len() == i,
                forall|k: int|
                    0 <= k < i ==> (#[trigger] mutations@[k])@ == decoded(
                        raw@[k].0@,
                        raw@[k].1@,
                        raw@[k].2@,
                    ),
            decreases raw.len() - i,
        {
            let triple = &raw[i];
            let mutation = Mutation::decode(triple.0.as_str(), triple.1.clone(), triple.2.clone());
            mutations.push(mutation);
            i = i + 1;
        }
        assert(views(mutations@) =~= decoded_all(raw@));
        mutations
    }
}

} // verus!
