//! A plugin host: a generic broadcast dispatcher that fans a stream of typed
//! command values out to a set of attached plugins, each of which consumes its
//! own ordered queue of messages and may ask to be stopped by returning a
//! status code.
//!
//! The crate verifies the dispatcher's bookkeeping and delivery discipline:
//! per-plugin delivery order, the stop protocol, the collection of terminal
//! statuses in attach order, the bounded queue's admission rule, and the
//! handling of a construction attempt that fails or declines.

pub mod host;
pub mod message;
pub mod plugin;
pub mod queue;

pub use host::{Host, LoadError, Worker};
pub use message::Message;
pub use plugin::Plugin;
pub use queue::BoundedQueue;
