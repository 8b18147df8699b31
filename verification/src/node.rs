//! The nodes a pass stops at, and the edits made on them.
//!
//! The rewriter hands a handler a live element or text chunk. What the
//! contracts here say of an edit is that it was asked of the node, by which
//! of the rewriter's editing methods and with which arguments; how the
//! rewriter renders it is the rewriter's own business.

use crate::mutation::{views, Mutation, MutationView};
use crate::request::attrs_view;
use lol_html::html_content::{ContentType, TextChunk};
use vstd::prelude::*;

verus! {

/// `lol_html::html_content::ContentType`: markup, or text to be escaped.
#[verifier::external_type_specification]
pub struct ExContentType(ContentType);

/// The live element of the rewriter that a handler was called for.
///
/// Trusted: the verifier refuses the declaration of `lol_html`'s `Element`,
/// whose parameters are bound by a trait of that crate, so the reference
/// to it is held here out of the verifier's sight.
#[verifier::external_body]
pub struct RawElement<'a, 'r, 't> {
    pub(crate) inner: &'a mut lol_html::send::Element<'r, 't>,
}

/// `lol_html::html_content::TextChunk`: the live text chunk of the rewriter
/// that a handler is called for. Opaque.
#[verifier::external_type_specification]
#[verifier::external_body]
pub struct ExTextChunk<'i>(TextChunk<'i>);

/// The tag name of an element, in lower case.
pub uninterp spec fn element_tag(raw: &RawElement<'_, '_, '_>) -> Seq<char>;

/// The attributes of an element as pairs of name and value, in source
/// order, the names in lower case.
pub uninterp spec fn element_attributes(raw: &RawElement<'_, '_, '_>) -> Seq<(Seq<char>, Seq<char>)>;

/// The edits that have been asked of an element through its editing
/// methods, oldest first, each with the arguments it was asked with.
pub uninterp spec fn element_asked(raw: &RawElement<'_, '_, '_>) -> Seq<MutationView>;

/// The edits that have been asked of a chunk through its editing methods,
/// oldest first, each with the arguments it was asked with.
pub uninterp spec fn chunk_asked(raw: &TextChunk<'_>) -> Seq<MutationView>;

/// The text of a chunk.
pub uninterp spec fn chunk_text(raw: &TextChunk<'_>) -> Seq<char>;

/// Whether a chunk is the one that closes its text node.
pub uninterp spec fn chunk_is_last(raw: &TextChunk<'_>) -> bool;

/// Trusted: `Element::tag_name`, whose result is given the name
/// [`element_tag`].
#[verifier::external_body]
fn raw_tag_name(raw: &RawElement<'_, '_, '_>) -> (tag: String)
    ensures
        tag@ == element_tag(raw),
{
    raw.inner.tag_name()
}

/// Trusted: `Element::attributes`, each attribute handed out as its
/// `Attribute::name` and `Attribute::value`; the list is given the name
/// [`element_attributes`].
#[verifier::external_body]
fn raw_attributes(raw: &RawElement<'_, '_, '_>) -> (attrs: Vec<(String, String)>)
    ensures
        attrs_view(attrs@) == element_attributes(raw),
{
    raw.inner.attributes().iter().map(|a| (a.name(), a.value())).collect()
}

/// Trusted: `TextChunk::as_str`, copied into a `String`; the text is given
/// the name [`chunk_text`].
#[verifier::external_body]
fn raw_text(raw: &TextChunk<'_>) -> (text: String)
    ensures
        text@ == chunk_text(raw),
{
    raw.as_str().to_string()
}

/// Trusted: `TextChunk::last_in_text_node`, whose result is given the name
/// [`chunk_is_last`].
#[verifier::external_body]
fn raw_last_in_text_node(raw: &TextChunk<'_>) -> (last: bool)
    ensures
        last == chunk_is_last(raw),
{
    raw.last_in_text_node()
}

/// Trusted: `Element::set_attribute`. Says whether the rewriter took the
/// attribute name. The call is one more edit asked of the element.
#[verifier::external_body]
fn raw_set_attribute(raw: &mut RawElement<'_, '_, '_>, name: &str, value: &str) -> (taken: bool)
    ensures
        element_asked(final(raw)) == element_asked(old(raw)).push(
            MutationView::SetAttribute(name@, value@),
        ),
{
    raw.inner.set_attribute(name, value).is_ok()
}

/// Trusted: `Element::remove_attribute`. The call is one more edit asked of
/// the element.
#[verifier::external_body]
fn raw_remove_attribute(raw: &mut RawElement<'_, '_, '_>, name: &str)
    ensures
        element_asked(final(raw)) == element_asked(old(raw)).push(
            MutationView::RemoveAttribute(name@),
        ),
{
    raw.inner.remove_attribute(name)
}

/// Trusted: `Element::prepend`. The call is one more edit asked of the
/// element, with the content as markup where the kind is `Html`.
#[verifier::external_body]
fn raw_prepend(raw: &mut RawElement<'_, '_, '_>, content: &str, kind: ContentType)
    ensures
        element_asked(final(raw)) == element_asked(old(raw)).push(
            MutationView::Prepend(content@, kind is Html),
        ),
{
    raw.inner.prepend(content, kind)
}

/// Trusted: `Element::append`. The call is one more edit asked of the
/// element, with the content as markup where the kind is `Html`.
#[verifier::external_body]
fn raw_append(raw: &mut RawElement<'_, '_, '_>, content: &str, kind: ContentType)
    ensures
        element_asked(final(raw)) == element_asked(old(raw)).push(
            MutationView::Append(content@, kind is Html),
        ),
{
    raw.inner.append(content, kind)
}

/// Trusted: `Element::before`. The call is one more edit asked of the
/// element, with the content as markup where the kind is `Html`.
#[verifier::external_body]
fn raw_before(raw: &mut RawElement<'_, '_, '_>, content: &str, kind: ContentType)
    ensures
        element_asked(final(raw)) == element_asked(old(raw)).push(
            MutationView::Before(content@, kind is Html),
        ),
{
    raw.inner.before(content, kind)
}

/// Trusted: `Element::after`. The call is one more edit asked of the
/// element, with the content as markup where the kind is `Html`.
#[verifier::external_body]
fn raw_after(raw: &mut RawElement<'_, '_, '_>, content: &str, kind: ContentType)
    ensures
        element_asked(final(raw)) == element_asked(old(raw)).push(
            MutationView::After(content@, kind is Html),
        ),
{
    raw.inner.after(content, kind)
}

/// Trusted: `Element::set_inner_content`. The call is one more edit asked of the
/// element, with the content as markup where the kind is `Html`.
#[verifier::external_body]
fn raw_set_inner_content(raw: &mut RawElement<'_, '_, '_>, content: &str, kind: ContentType)
    ensures
        element_asked(final(raw)) == element_asked(old(raw)).push(
            MutationView::SetInnerContent(content@, kind is Html),
        ),
{
    raw.inner.set_inner_content(content, kind)
}

/// Trusted: `Element::replace`. The call is one more edit asked of the
/// element, with the content as markup where the kind is `Html`.
#[verifier::external_body]
fn raw_replace(raw: &mut RawElement<'_, '_, '_>, content: &str, kind: ContentType)
    ensures
        element_asked(final(raw)) == element_asked(old(raw)).push(
            MutationView::Replace(content@, kind is Html),
        ),
{
    raw.inner.replace(content, kind)
}

/// Trusted: `Element::remove`. The call is one more edit asked of the
/// element.
#[verifier::external_body]
fn raw_remove(raw: &mut RawElement<'_, '_, '_>)
    ensures
        element_asked(final(raw)) == element_asked(old(raw)).push(MutationView::Remove),
{
    raw.inner.remove()
}

/// Trusted: `TextChunk::replace`. The call is one more edit asked of the
/// chunk, with the content as markup where the kind is `Html`.
#[verifier::external_body]
fn raw_text_replace(raw: &mut TextChunk<'_>, content: &str, kind: ContentType)
    ensures
        chunk_asked(final(raw)) == chunk_asked(old(raw)).push(
            MutationView::Replace(content@, kind is Html),
        ),
{
    raw.replace(content, kind)
}

/// Trusted: `TextChunk::before`. The call is one more edit asked of the
/// chunk, with the content as markup where the kind is `Html`.
#[verifier::external_body]
fn raw_text_before(raw: &mut TextChunk<'_>, content: &str, kind: ContentType)
    ensures
        chunk_asked(final(raw)) == chunk_asked(old(raw)).push(
            MutationView::Before(content@, kind is Html),
        ),
{
    raw.before(content, kind)
}

/// Trusted: `TextChunk::after`. The call is one more edit asked of the
/// chunk, with the content as markup where the kind is `Html`.
#[verifier::external_body]
fn raw_text_after(raw: &mut TextChunk<'_>, content: &str, kind: ContentType)
    ensures
        chunk_asked(final(raw)) == chunk_asked(old(raw)).push(
            MutationView::After(content@, kind is Html),
        ),
{
    raw.after(content, kind)
}

/// Trusted: `TextChunk::remove`. The call is one more edit asked of the
/// chunk.
#[verifier::external_body]
fn raw_text_remove(raw: &mut TextChunk<'_>)
    ensures
        chunk_asked(final(raw)) == chunk_asked(old(raw)).push(MutationView::Remove),
{
    raw.remove()
}

/// How the rewriter is to take a piece of content: as markup, or as text
/// that it escapes.
pub fn content_type(is_html: bool) -> (kind: ContentType)
    ensures
        is_html ==> kind is Html,
        !is_html ==> kind is Text,
{
    if is_html {
        ContentType::Html
    } else {
        ContentType::Text
    }
}

/// The edits of a response that reach an element: all but `NoOp`, in order.
pub open spec fn element_edits(response: Seq<MutationView>) -> Seq<MutationView> {
    response.filter(|m: MutationView| m.edits_element())
}

/// The edits of a response that reach a text chunk: `Replace`, `Before`,
/// `After` and `Remove`, in order. The others are passed over in silence.
pub open spec fn text_edits(response: Seq<MutationView>) -> Seq<MutationView> {
    response.filter(|m: MutationView| m.edits_text())
}

/// An element under edit.
pub struct ElementNode<'a, 'r, 't> {
    raw: RawElement<'a, 'r, 't>,
}

/// A text chunk under edit.
pub struct TextNode<'a, 'i> {
    raw: &'a mut TextChunk<'i>,
}

impl<'a, 'r, 't> ElementNode<'a, 'r, 't> {
    /// The edits that have been asked of the element, oldest first, each
    /// with the arguments it was asked with.
    pub closed spec fn edits(&self) -> Seq<MutationView> {
        element_asked(&self.raw)
    }

    /// The tag name of the element.
    pub closed spec fn tag(&self) -> Seq<char> {
        element_tag(&self.raw)
    }

    /// The attributes of the element.
    pub closed spec fn attributes(&self) -> Seq<(Seq<char>, Seq<char>)> {
        element_attributes(&self.raw)
    }

    /// A handle on an element.
    pub fn attach(raw: RawElement<'a, 'r, 't>) -> (node: Self)
        ensures
            node.edits() == element_asked(&raw),
            node.tag() == element_tag(&raw),
            node.attributes() == element_attributes(&raw),
    {
        ElementNode { raw }
    }

    /// Reads the tag name.
    pub fn tag_name(&self) -> (tag: String)
        ensures
            tag@ == self.tag(),
    {
        raw_tag_name(&self.raw)
    }

    /// Reads the attributes.
    pub fn attribute_list(&self) -> (attrs: Vec<(String, String)>)
        ensures
            attrs_view(attrs@) == self.attributes(),
    {
        raw_attributes(&self.raw)
    }
}

impl<'a, 'i> TextNode<'a, 'i> {
    /// The edits that have been asked of the chunk, oldest first, each
    /// with the arguments it was asked with.
    pub closed spec fn edits(&self) -> Seq<MutationView> {
        chunk_asked(&*self.raw)
    }

    /// The text of the chunk.
    pub closed spec fn text(&self) -> Seq<char> {
        chunk_text(self.raw)
    }

    /// Whether the chunk closes its text node.
    pub closed spec fn is_last(&self) -> bool {
        chunk_is_last(self.raw)
    }

    /// A handle on a chunk.
    pub fn attach(raw: &'a mut TextChunk<'i>) -> (node: Self)
        ensures
            node.edits() == chunk_asked(old(raw)),
            node.text() == chunk_text(old(raw)),
            node.is_last() == chunk_is_last(old(raw)),
    {
        TextNode { raw }
    }

    /// Reads the text.
    pub fn content(&self) -> (text: String)
        ensures
            text@ == self.text(),
    {
        raw_text(self.raw)
    }

    /// Reads whether the chunk closes its text node.
    pub fn last_in_text_node(&self) -> (last: bool)
        ensures
            last == self.is_last(),
    {
        raw_last_in_text_node(self.raw)
    }
}

/// Makes one edit on an element by the rewriter's primitive of the same
/// name. `NoOp` leaves the element alone. An attribute name that the
/// rewriter does not take is passed over in silence.
pub fn apply_element_mutation(node: &mut ElementNode<'_, '_, '_>, mutation: &Mutation)
    ensures
        mutation@.edits_element() ==> final(node).edits() == old(node).edits().push(mutation@),
        !mutation@.edits_element() ==> *final(node) == *old(node),
{
    match mutation {
        Mutation::SetAttribute(name, value) => {
            let _ = raw_set_attribute(&mut node.raw, name.as_str(), value.as_str());
        },
        Mutation::RemoveAttribute(name) => {
            raw_remove_attribute(&mut node.raw, name.as_str());
        },
        Mutation::Prepend(content, is_html) => {
            raw_prepend(&mut node.raw, content.as_str(), content_type(*is_html));
        },
        Mutation::Append(content, is_html) => {
            raw_append(&mut node.raw, content.as_str(), content_type(*is_html));
        },
        Mutation::Before(content, is_html) => {
            raw_before(&mut node.raw, content.as_str(), content_type(*is_html));
        },
        Mutation::After(content, is_html) => {
            raw_after(&mut node.raw, content.as_str(), content_type(*is_html));
        },
        Mutation::SetInnerContent(content, is_html) => {
            raw_set_inner_content(&mut node.raw, content.as_str(), content_type(*is_html));
        },
        Mutation::Replace(content, is_html) => {
            raw_replace(&mut node.raw, content.as_str(), content_type(*is_html));
        },
        Mutation::Remove => {
            raw_remove(&mut node.raw);
        },
        Mutation::NoOp => {
            return ;
        },
    }
}

/// Makes one edit on a text chunk by the rewriter's primitive of the same
/// name. A chunk takes `Replace`, `Before`, `After` and `Remove`; any other
/// edit leaves it alone.
pub fn apply_text_mutation(node: &mut TextNode<'_, '_>, mutation: &Mutation)
    ensures
        mutation@.edits_text() ==> final(node).edits() == old(node).edits().push(mutation@),
        !mutation@.edits_text() ==> *final(node) == *old(node),
{
    match mutation {
        Mutation::Replace(content, is_html) => {
            raw_text_replace(node.raw, content.as_str(), content_type(*is_html));
        },
        Mutation::Before(content, is_html) => {
            raw_text_before(node.raw, content.as_str(), content_type(*is_html));
        },
        Mutation::After(content, is_html) => {
            raw_text_after(node.raw, content.as_str(), content_type(*is_html));
        },
        Mutation::Remove => {
            raw_text_remove(node.raw);
        },
        _ => {
            return ;
        },
    }
}

/// Makes the edits of a response on an element, in the order given.
pub fn apply_element_mutations(node: &mut ElementNode<'_, '_, '_>, mutations: &Vec<Mutation>)
    ensures
        final(node).edits() == old(node).edits() + element_edits(views(mutations@)),
        element_edits(views(mutations@)).len() == 0 ==> *final(node) == *old(node),
{
    let ghost response = views(mutations@);
    let mut i: usize = 0;
    proof {
        assert(response.take(0) =~= Seq::<MutationView>::empty());
        Seq::<MutationView>::empty().lemma_filter_len(|m: MutationView| m.edits_element());
        assert(node.edits() + element_edits(response.take(0)) =~= node.edits());
    }
    while i < mutations.len()
        invariant
            i <= mutations.len(),
            response == views(mutations@),
            node.edits() == old(node).edits() + element_edits(response.take(i as int)),
            element_edits(response.take(i as int)).len() == 0 ==> *node == *old(node),
        decreases mutations.len() - i,
    {
        apply_element_mutation(node, &mutations[i]);
        proof {
            let done = response.take(i as int);
            let next = response[i as int];
            assert(next == mutations@[i as int]@);
            assert(response.take(i + 1) =~= done.push(next));
            done.lemma_filter_push(next, |m: MutationView| m.edits_element());
            if next.edits_element() {
                assert(node.edits() =~= old(node).edits() + element_edits(done).push(next));
            }
        }
        i = i + 1;
    }
    proof {
        assert(response.take(i as int) =~= response);
    }
}

/// Makes the edits of a response on a text chunk, in the order given.
pub fn apply_text_mutations(node: &mut TextNode<'_, '_>, mutations: &Vec<Mutation>)
    ensures
        final(node).edits() == old(node).edits() + text_edits(views(mutations@)),
        text_edits(views(mutations@)).len() == 0 ==> *final(node) == *old(node),
{
    let ghost response = views(mutations@);
    let mut i: usize = 0;
    proof {
        assert(response.take(0) =~= Seq::<MutationView>::empty());
        Seq::<MutationView>::empty().lemma_filter_len(|m: MutationView| m.edits_text());
        assert(node.edits() + text_edits(response.take(0)) =~= node.edits());
    }
    while i < mutations.len()
        invariant
            i <= mutations.len(),
            response == views(mutations@),
            node.edits() == old(node).edits() + text_edits(response.take(i as int)),
            text_edits(response.take(i as int)).len() == 0 ==> *node == *old(node),
        decreases mutations.len() - i,
    {
        apply_text_mutation(node, &mutations[i]);
        proof {
            let done = response.take(i as int);
            let next = response[i as int];
            assert(next == mutations@[i as int]@);
            assert(response.take(i + 1) =~= done.push(next));
            done.lemma_filter_push(next, |m: MutationView| m.edits_text());
            if next.edits_text() {
                assert(node.edits() =~= old(node).edits() + text_edits(done).push(next));
            }
        }
        i = i + 1;
    }
    proof {
        assert(response.take(i as int) =~= response);
    }
}

/// A response without an edit that reaches elements, the empty response
/// among them, asks nothing of an element.
pub proof fn lemma_idle_response_on_element(response: Seq<MutationView>)
    requires
        forall|i: int| 0 <= i < response.len() ==> !(#[trigger] response[i]).edits_element(),
    ensures
        element_edits(response) == Seq::<MutationView>::empty(),
{
    response.lemma_all_neg_filter_empty(|m: MutationView| m.edits_element());
}

/// A response without an edit that reaches text chunks, the empty response
/// among them, asks nothing of a text chunk.
pub proof fn lemma_idle_response_on_text(response: Seq<MutationView>)
    requires
        forall|i: int| 0 <= i < response.len() ==> !(#[trigger] response[i]).edits_text(),
    ensures
        text_edits(response) == Seq::<MutationView>::empty(),
{
    response.lemma_all_neg_filter_empty(|m: MutationView| m.edits_text());
}

} // verus!
