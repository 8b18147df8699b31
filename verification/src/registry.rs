//! The handlers of a pass, registered before it starts.

use crate::encoding::{recognise, recognised};
use crate::selector::{acceptable, check_selector, trimmed, verdict, RejectedSelector};
use lol_html::AsciiCompatibleEncoding;
use vstd::prelude::*;
use vstd::string::StringSliceAdditionalSpecFns;

verus! {

/// The identity of the first handler of a registry made by [`rewriter_new`].
pub const FIRST_HANDLER_ID: u64 = 1_000_000;

/// The kind of node a handler is called for.
#[derive(Debug, Clone, Copy, PartialEq, Eq, Structural)]
pub enum HandlerType {
    Element,
    Text,
}

/// One registration: the selector, the kind of node, and the identity by
/// which requests name the handler.
#[derive(Debug)]
pub struct HandlerConfig {
    pub handler_id: u64,
    pub selector: String,
    pub handler_type: HandlerType,
}

/// The mathematical value of a [`HandlerConfig`].
pub struct HandlerView {
    pub handler_id: u64,
    pub selector: Seq<char>,
    pub handler_type: HandlerType,
}

impl View for HandlerConfig {
    type V = HandlerView;

    open spec fn view(&self) -> HandlerView {
        HandlerView {
            handler_id: self.handler_id,
            selector: self.selector@,
            handler_type: self.handler_type,
        }
    }
}

/// The views of a sequence of registrations, in the same order.
pub open spec fn handler_views(handlers: Seq<HandlerConfig>) -> Seq<HandlerView> {
    Seq::new(handlers.len(), |i: int| handlers[i]@)
}

/// Why a registration was refused.
#[derive(Debug, Clone, Copy, PartialEq, Eq, Structural)]
pub enum RegisterError {
    /// The selector was turned away.
    BadSelector(RejectedSelector),
    /// The registry has given out its last identity.
    IdsExhausted,
}

/// The settings of a pass and its handlers in the order of registration.
pub struct RewriterConfig {
    handlers: Vec<HandlerConfig>,
    next_id: u64,
    encoding: Option<AsciiCompatibleEncoding>,
    max_memory: usize,
}

/// The mathematical value of a [`RewriterConfig`].
pub struct ConfigView {
    /// The registrations, oldest first.
    pub handlers: Seq<HandlerView>,
    /// The identity that the next registration gets.
    pub next_id: u64,
    /// The encoding that was asked for, if the rewriter can take it.
    pub encoding: Option<AsciiCompatibleEncoding>,
    /// The most memory the rewriter may use for the pass, in bytes.
    pub max_memory: usize,
}

impl ConfigView {
    /// What holds of every registry: identities grow with each
    /// registration, none is given out twice, and every selector is one
    /// that registration takes.
    pub open spec fn wf(self) -> bool {
        &&& forall|i: int|
            0 <= i < self.handlers.len() ==> (#[trigger] self.handlers[i]).handler_id
                < self.next_id
        &&& forall|i: int, j: int|
            0 <= i < j < self.handlers.len() ==> (#[trigger] self.handlers[i]).handler_id < (
            #[trigger] self.handlers[j]).handler_id
        &&& forall|i: int|
            0 <= i < self.handlers.len() ==> acceptable((#[trigger] self.handlers[i]).selector)
    }

    /// The registry after one more registration, and what the registration
    /// returns. A refused registration leaves the registry as it was.
    pub open spec fn register(self, selector: Seq<char>, handler_type: HandlerType) -> (
        ConfigView,
        Result<u64, RegisterError>,
    ) {
        match verdict(selector, trimmed(selector)) {
            Err(e) => (self, Err(RegisterError::BadSelector(e))),
            Ok(()) => if self.next_id == u64::MAX {
                (self, Err(RegisterError::IdsExhausted))
            } else {
                (
                    ConfigView {
                        handlers: self.handlers.push(
                            HandlerView { handler_id: self.next_id, selector, handler_type },
                        ),
                        next_id: (self.next_id + 1) as u64,
                        ..self
                    },
                    Ok(self.next_id),
                )
            },
        }
    }
}

impl View for RewriterConfig {
    type V = ConfigView;

    closed spec fn view(&self) -> ConfigView {
        ConfigView {
            handlers: handler_views(self.handlers@),
            next_id: self.next_id,
            encoding: self.encoding,
            max_memory: self.max_memory,
        }
    }
}

impl RewriterConfig {
    /// A registry without handlers whose first handler will get `first_id`.
    pub fn starting_at(first_id: u64, encoding: &str, max_memory: usize) -> (config: Self)
        ensures
            config@ == (ConfigView {
                handlers: Seq::empty(),
                next_id: first_id,
                encoding: recognised(encoding.spec_bytes()),
                max_memory,
            }),
            config@.wf(),
    {
        let config = RewriterConfig {
            handlers: Vec::new(),
            next_id: first_id,
            encoding: recognise(encoding),
            max_memory,
        };
        assert(config@.handlers =~= Seq::empty());
        config
    }

    /// Registers a handler of the given kind for the nodes that `selector`
    /// matches, and returns its identity.
    pub fn register(&mut self, selector: String, handler_type: HandlerType) -> (r: Result<
        u64,
        RegisterError,
    >)
        ensures
            (final(self)@, r) == old(self)@.register(selector@, handler_type),
            old(self)@.wf() ==> final(self)@.wf(),
    {
        match check_selector(selector.as_str()) {
            Err(e) => Err(RegisterError::BadSelector(e)),
            Ok(()) => {
                if self.next_id == u64::MAX {
                    return Err(RegisterError::IdsExhausted);
                }
                let handler_id = self.next_id;
                let ghost before = self@;
                let ghost added = HandlerView { handler_id, selector: selector@, handler_type };
                self.handlers.push(HandlerConfig { handler_id, selector, handler_type });
                self.next_id = handler_id + 1;
                proof {
                    assert(self@.handlers =~= before.handlers.push(added));
                }
                Ok(handler_id)
            },
        }
    }

    /// The handlers in the order of registration.
    pub fn handlers(&self) -> (handlers: &Vec<HandlerConfig>)
        ensures
            handler_views(handlers@) == self@.handlers,
    {
        &self.handlers
    }

    /// The encoding that was asked for, if the rewriter can take it.
    pub fn encoding(&self) -> (encoding: Option<AsciiCompatibleEncoding>)
        ensures
            encoding == self@.encoding,
    {
        self.encoding
    }

    /// The most memory the rewriter may use for the pass, in bytes.
    pub fn max_memory(&self) -> (max_memory: usize)
        ensures
            max_memory == self@.max_memory,
    {
        self.max_memory
    }
}

/// A registry without handlers for a document in the encoding that the
/// label names. Where the label names no encoding that the rewriter can
/// take, the pass falls back on UTF-8.
pub fn rewriter_new(encoding: &str, max_memory: usize) -> (config: RewriterConfig)
    ensures
        config@ == (ConfigView {
            handlers: Seq::empty(),
            next_id: FIRST_HANDLER_ID,
            encoding: recognised(encoding.spec_bytes()),
            max_memory,
        }),
        config@.wf(),
{
    RewriterConfig::starting_at(FIRST_HANDLER_ID, encoding, max_memory)
}

/// Registers an element handler and returns its identity.
pub fn rewriter_on_element(config: &mut RewriterConfig, selector: String) -> (r: Result<
    u64,
    RegisterError,
>)
    ensures
        (final(config)@, r) == old(config)@.register(selector@, HandlerType::Element),
        old(config)@.wf() ==> final(config)@.wf(),
{
    config.register(selector, HandlerType::Element)
}

/// Registers a text handler and returns its identity.
pub fn rewriter_on_text(config: &mut RewriterConfig, selector: String) -> (r: Result<
    u64,
    RegisterError,
>)
    ensures
        (final(config)@, r) == old(config)@.register(selector@, HandlerType::Text),
        old(config)@.wf() ==> final(config)@.wf(),
{
    config.register(selector, HandlerType::Text)
}

/// Registration keeps a registry well formed.
pub proof fn lemma_register_keeps_wf(
    config: ConfigView,
    selector: Seq<char>,
    handler_type: HandlerType,
)
    requires
        config.wf(),
    ensures
        config.register(selector, handler_type).0.wf(),
{
}

/// No two handlers of a registry share an identity.
pub proof fn lemma_handler_ids_distinct(config: ConfigView, i: int, j: int)
    requires
        config.wf(),
        0 <= i < config.handlers.len(),
        0 <= j < config.handlers.len(),
        i != j,
    ensures
        config.handlers[i].handler_id != config.handlers[j].handler_id,
{
    if i < j {
        assert(config.handlers[i].handler_id < config.handlers[j].handler_id);
    } else {
        assert(config.handlers[j].handler_id < config.handlers[i].handler_id);
    }
}

/// Identities are given out in growing order: of two registrations that
/// both succeed, the later gets the larger identity.
pub proof fn lemma_ids_grow(
    config: ConfigView,
    first: Seq<char>,
    first_type: HandlerType,
    second: Seq<char>,
    second_type: HandlerType,
)
    requires
        config.register(first, first_type).1 is Ok,
        config.register(first, first_type).0.register(second, second_type).1 is Ok,
    ensures
        config.register(first, first_type).1->Ok_0 < config.register(first, first_type).0.register(
            second,
            second_type,
        ).1->Ok_0,
{
}

/// A selector that is empty, or a lone `#`, `.` or `[`, is refused, and the
/// registry stays as it was: no such selector is ever part of a pass.
pub proof fn lemma_known_bad_selectors_refused(
    config: ConfigView,
    selector: Seq<char>,
    handler_type: HandlerType,
)
    requires
        selector == ""@ || selector == "#"@ || selector == "."@ || selector == "["@,
    ensures
        config.register(selector, handler_type).1 is Err,
        config.register(selector, handler_type).0 == config,
{
    crate::selector::lemma_known_bad_selectors();
}

} // verus!
