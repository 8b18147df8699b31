//! The rewriter of `lol_html`, as far as a pass needs it: selectors, the
//! handlers that are installed for them, and the rewriter that is fed the
//! document.

use crate::dispatch::{element_matched, text_matched, ActionView, NodeAction};
use crate::node::RawElement;
use core::str::FromStr;
use lol_html::errors::{RewritingError, SelectorError};
use lol_html::{AsciiCompatibleEncoding, Selector};
use std::sync::{Arc, Mutex};
use vstd::prelude::*;

verus! {

/// `lol_html::Selector`: a parsed selector. Opaque.
#[verifier::external_type_specification]
#[verifier::external_body]
pub struct ExSelector(Selector);

/// `lol_html::errors::SelectorError`: why a selector does not parse.
/// Opaque.
#[verifier::external_type_specification]
#[verifier::external_body]
pub struct ExSelectorError(SelectorError);

/// `lol_html::errors::RewritingError`: why a rewriter gave up. Opaque.
#[verifier::external_type_specification]
#[verifier::external_body]
pub struct ExRewritingError(RewritingError);

/// The size of the buffer that the rewriter sets aside for parsing, in
/// bytes, where the memory bound of the pass allows that much.
pub const PARSING_BUFFER_SIZE: usize = 1024;

/// The selector that a text parses to, if it parses.
pub uninterp spec fn parsed(text: Seq<char>) -> Option<Selector>;

/// Whether the rewriter can parse a selector.
pub open spec fn parses(text: Seq<char>) -> bool {
    parsed(text) is Some
}

/// Parses a selector.
///
/// Trusted: this is `Selector::from_str`; the contract only gives the
/// selector it returns the name [`parsed`].
#[verifier::external_body]
pub(crate) fn parse_selector(text: &str) -> (r: Result<Selector, SelectorError>)
    ensures
        r matches Ok(selector) ==> parsed(text@) == Some(selector),
        r is Err ==> parsed(text@) is None,
{
    Selector::from_str(text)
}

/// `Selector::clone`: a copy of a parsed selector, equal to it.
pub assume_specification[ <lol_html::Selector as Clone>::clone ](selector: &lol_html::Selector) -> (copy:
    lol_html::Selector)
    ensures
        copy == *selector,
;

/// Whether the rewriter can parse every selector of a sequence.
pub open spec fn all_selectors_parse(selectors: Seq<Seq<char>>) -> bool {
    forall|i: int| 0 <= i < selectors.len() ==> parses(#[trigger] selectors[i])
}

/// Whether `i` is the place of the first selector of a sequence that the
/// rewriter cannot parse.
pub open spec fn first_unparsable(selectors: Seq<Seq<char>>, i: int) -> bool {
    &&& 0 <= i < selectors.len()
    &&& !parses(selectors[i])
    &&& forall|j: int| 0 <= j < i ==> parses(#[trigger] selectors[j])
}

/// What a rewriter is made with, besides its handlers: the encoding of the
/// document, the size of the buffer it sets aside for parsing and the most
/// memory it may use, both in bytes, and the buffer that its output goes
/// to, if the output is kept.
pub struct Made {
    pub encoding: AsciiCompatibleEncoding,
    pub parsing_buffer: usize,
    pub max_memory: usize,
    pub output: Option<Arc<Mutex<Vec<u8>>>>,
}

/// One entry of a rewriter's list of handlers: the selector, whether the
/// handler is called for text chunks or for elements, and what it does.
pub struct Installed {
    pub selector: Selector,
    pub on_text: bool,
    pub action: ActionView,
}

/// The handlers of a pass in the form the rewriter takes them.
///
/// Trusted: the verifier refuses the declaration of `lol_html`'s
/// `ElementContentHandlers`, whose parameters are bound by a trait of that
/// crate, so the list is held here out of the verifier's sight.
#[verifier::external_body]
pub struct RawHandlers {
    inner: Vec<
        (std::borrow::Cow<'static, Selector>, lol_html::send::ElementContentHandlers<'static>),
    >,
}

/// A rewriter at work.
///
/// Trusted: the verifier refuses the declaration of `lol_html`'s
/// `HtmlRewriter`, whose parameters are bound by traits of that crate, so
/// the rewriter is held here out of the verifier's sight. It is gone once
/// it has been told that the document is over.
#[verifier::external_body]
pub struct Rewriter {
    inner: Option<lol_html::send::HtmlRewriter<'static, Box<dyn FnMut(&[u8]) + Send>>>,
}

/// What a list of handlers holds, oldest first.
pub uninterp spec fn held(set: &RawHandlers) -> Seq<Installed>;

/// The handlers that a rewriter runs, in the order of the list it was made
/// with.
pub uninterp spec fn rewriter_handlers(rewriter: &Rewriter) -> Seq<Installed>;

/// The pieces of the document that a rewriter has been given, oldest first.
pub uninterp spec fn rewriter_fed(rewriter: &Rewriter) -> Seq<Seq<u8>>;

/// Whether a rewriter has been told that the document is over.
pub uninterp spec fn ended(rewriter: &Rewriter) -> bool;

/// The error that a rewriter has reported, if it has reported one.
pub uninterp spec fn reported(rewriter: &Rewriter) -> Option<RewritingError>;

/// What a rewriter was made with, besides its handlers.
pub uninterp spec fn made_with(rewriter: &Rewriter) -> Made;

/// Whether a rewriter has reported an error. Such a rewriter must not be
/// used again.
pub open spec fn poisoned(rewriter: &Rewriter) -> bool {
    reported(rewriter) is Some
}

/// Whether the words are those of the error, as its `Display` gives them.
pub open spec fn says(error: RewritingError, words: Seq<char>) -> bool {
    exists|text: String|
        text@ == words && #[trigger] vstd::string::to_string_from_display_ensures::<RewritingError>(
            &error,
            text,
        )
}

/// Whether a call told of the error that the rewriter has reported: a call
/// that succeeds leaves a rewriter that has reported none, and one that
/// fails gives the words of the error that the rewriter now has reported.
pub open spec fn tells(reported: Option<RewritingError>, told: Result<(), String>) -> bool {
    match told {
        Ok(()) => reported is None,
        Err(words) => reported matches Some(error) && says(error, words@),
    }
}

/// Trusted: an empty list of the rewriter's handlers.
#[verifier::external_body]
pub(crate) fn raw_handlers() -> (set: RawHandlers)
    ensures
        held(&set) == Seq::<Installed>::empty(),
{
    RawHandlers { inner: Vec::new() }
}

/// Trusted: adds to the list what `lol_html`'s `element!` stands for: the
/// selector with an `ElementContentHandlers` whose element handler is
/// [`element_matched`] with this action on the node it is called with.
#[verifier::external_body]
pub(crate) fn raw_install_element(set: &mut RawHandlers, selector: Selector, action: NodeAction)
    ensures
        held(final(set)) == held(old(set)).push(
            Installed { selector, on_text: false, action: action@ },
        ),
{
    let mut action = action;
    let handler = move |el: &mut lol_html::send::Element<'_, '_>| {
        element_matched(RawElement { inner: el }, &mut action).map_err(Into::into)
    };
    let handlers = lol_html::send::ElementContentHandlers::default().element(handler);
    set.inner.push((std::borrow::Cow::Owned(selector), handlers));
}

/// Trusted: adds to the list what `lol_html`'s `text!` stands for: the
/// selector with an `ElementContentHandlers` whose text handler is
/// [`text_matched`] with this action on the chunk it is called with.
#[verifier::external_body]
pub(crate) fn raw_install_text(set: &mut RawHandlers, selector: Selector, action: NodeAction)
    ensures
        held(final(set)) == held(old(set)).push(
            Installed { selector, on_text: true, action: action@ },
        ),
{
    let mut action = action;
    let handler = move |chunk: &mut lol_html::html_content::TextChunk<'_>| {
        text_matched(chunk, &mut action).map_err(Into::into)
    };
    let handlers = lol_html::send::ElementContentHandlers::default().text(handler);
    set.inner.push((std::borrow::Cow::Owned(selector), handlers));
}

/// Trusted: `HtmlRewriter::new` on settings that hold the handlers, the
/// encoding and the two memory sizes, and are `lol_html`'s defaults
/// otherwise; each piece of output goes to [`collect_output`] with the
/// buffer. A new rewriter runs the handlers of the list, was made with what
/// it was given here, has been given nothing of the document, and has
/// reported no error. `lol_html` expects the parsing buffer to fit in the
/// memory bound.
#[verifier::external_body]
pub(crate) fn raw_rewriter(
    handlers: RawHandlers,
    encoding: AsciiCompatibleEncoding,
    parsing_buffer: usize,
    max_memory: usize,
    output: Option<Arc<Mutex<Vec<u8>>>>,
) -> (rewriter: Rewriter)
    requires
        parsing_buffer <= max_memory,
    ensures
        rewriter_handlers(&rewriter) == held(&handlers),
        made_with(&rewriter) == (Made { encoding, parsing_buffer, max_memory, output }),
        rewriter_fed(&rewriter) == Seq::<Seq<u8>>::empty(),
        !ended(&rewriter),
        reported(&rewriter) is None,
{
    let settings = lol_html::send::Settings {
        element_content_handlers: handlers.inner,
        memory_settings: lol_html::MemorySettings {
            preallocated_parsing_buffer_size: parsing_buffer,
            max_allowed_memory_usage: max_memory,
        },
        encoding,
        ..lol_html::send::Settings::new_for_handler_types()
    };
    let sink: Box<dyn FnMut(&[u8]) + Send> =
        Box::new(move |bytes: &[u8]| collect_output(&output, bytes));
    Rewriter { inner: Some(lol_html::HtmlRewriter::new(settings, sink)) }
}

/// Trusted: `HtmlRewriter::write`, which must not be called on a rewriter
/// that has reported an error or has been told that the document is over.
/// The data is one more piece that the rewriter has been given, and the
/// error that the call returns, if it returns one, is the one that the
/// rewriter has reported.
#[verifier::external_body]
pub(crate) fn raw_write(rewriter: &mut Rewriter, data: &[u8]) -> (r: Result<(), RewritingError>)
    requires
        !poisoned(old(rewriter)),
        !ended(old(rewriter)),
    ensures
        rewriter_fed(final(rewriter)) == rewriter_fed(old(rewriter)).push(data@),
        rewriter_handlers(final(rewriter)) == rewriter_handlers(old(rewriter)),
        made_with(final(rewriter)) == made_with(old(rewriter)),
        !ended(final(rewriter)),
        r matches Ok(_) ==> reported(final(rewriter)) is None,
        r matches Err(error) ==> reported(final(rewriter)) == Some(error),
{
    rewriter.inner.as_mut().unwrap().write(data)
}

/// Trusted: `HtmlRewriter::end`, which must not be called on a rewriter
/// that has reported an error or has been told that the document is over
/// before. The rewriter has then been told so, and the error that the call
/// returns, if it returns one, is the one that the rewriter has reported.
#[verifier::external_body]
pub(crate) fn raw_end(rewriter: &mut Rewriter) -> (r: Result<(), RewritingError>)
    requires
        !poisoned(old(rewriter)),
        !ended(old(rewriter)),
    ensures
        rewriter_fed(final(rewriter)) == rewriter_fed(old(rewriter)),
        rewriter_handlers(final(rewriter)) == rewriter_handlers(old(rewriter)),
        made_with(final(rewriter)) == made_with(old(rewriter)),
        ended(final(rewriter)),
        r matches Ok(_) ==> reported(final(rewriter)) is None,
        r matches Err(error) ==> reported(final(rewriter)) == Some(error),
{
    rewriter.inner.take().unwrap().end()
}

/// Takes a piece of the rewriter's output into the buffer of the pass,
/// where the pass keeps one; drops it where the output is of no use.
pub(crate) fn collect_output(buffer: &Option<Arc<Mutex<Vec<u8>>>>, bytes: &[u8]) {
    match buffer {
        Some(buffer) => {
            let mut guard = match buffer.lock() {
                Ok(guard) => guard,
                Err(broken) => broken.into_inner(),
            };
            guard.extend_from_slice(bytes);
        },
        None => {},
    }
}

/// A copy of what the buffer of the pass holds.
pub(crate) fn collected(buffer: &Arc<Mutex<Vec<u8>>>) -> (output: Vec<u8>) {
    let guard = match buffer.lock() {
        Ok(guard) => guard,
        Err(broken) => broken.into_inner(),
    };
    guard.clone()
}

} // verus!
