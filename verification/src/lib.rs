//! A bridge between a streaming HTML rewriter and a controller that decides,
//! node by node, how the document is to be edited.
//!
//! The controller registers handlers in a [`RewriterConfig`] and starts a
//! pass with [`rewriter_write`], which hands back a [`RewriterHandle`] and
//! the [`Worker`] that is to run on a thread of its own. Whenever the
//! rewriter stops at a node that a handler matches, the worker sends a
//! [`Request`] and waits. The controller finds the request with
//! [`rewriter_poll`], answers it with [`rewriter_respond`], and fetches the
//! rewritten document with [`rewriter_output`] once a poll has reported the
//! end of the pass.

pub mod channel;
pub mod collector;
pub mod dispatch;
pub mod encoding;
pub mod engine;
pub mod mutation;
pub mod node;
pub mod registry;
pub mod request;
pub mod selector;
pub mod session;
pub mod text;
pub mod worker;

pub use crate::mutation::Mutation;
pub use crate::registry::{rewriter_new, rewriter_on_element, rewriter_on_text, RewriterConfig};
pub use crate::request::{PollResult, Request};
pub use crate::session::{rewriter_output, rewriter_poll, rewriter_respond, RewriterHandle};
pub use crate::worker::{rewriter_write, Worker};
