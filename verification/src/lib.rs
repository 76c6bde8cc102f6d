//! A deterministic core for component-oriented user interfaces.
//!
//! Application state lives in [`container::Container`]s. Every mutation of a
//! container's state travels as a message through the container's own
//! mailbox and is applied by a single consumer, strictly in arrival order.
//! A message reports whether the view may have gone stale; stale views are
//! repainted by the [`entry::Entry`] that owns the mounted root, which folds
//! bursts of render requests into single passes. A [`bus::Bus`] broadcasts
//! messages to any number of containers and takes up the next message only
//! when every subscriber has applied the current one. A [`router::Router`]
//! swaps the mounted root when the path changes, and tears the old root
//! down before the new one is built.
//!
//! Nothing in this crate suspends, draws or touches the document. Each
//! component is a state machine that is fed one event at a time and answers
//! with the action to perform; the embedding runtime performs the action
//! and reports back. What the state machines promise is stated in their
//! contracts and proved.

pub mod bus;
pub mod completion;
pub mod container;
pub mod entry;
pub mod example;
pub mod hub;
pub mod mailbox;
pub mod messenger;
pub mod renderer;
pub mod router;
