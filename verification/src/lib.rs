//! The callback surface between a reactor-style event loop and the
//! application that reacts to its events.
//!
//! An application implements one of two interfaces. [`HandlerExt`] is the one
//! the loop calls: each of its four operations returns a `Result`, so that a
//! callback can report a failure to whoever drives the loop. [`Handler`] is
//! for callbacks that cannot fail: its operations return nothing. Every
//! `Handler` is a `HandlerExt` as well, through an adapter that forwards each
//! operation and then reports success.

pub mod event_loop;
pub mod event_set;
pub mod handler;
pub mod token;

pub use crate::event_loop::EventLoop;
pub use crate::event_set::{EventSet, Readiness};
pub use crate::handler::{Handler, HandlerExt};
pub use crate::token::Token;
