//! A readiness layer over completion-based I/O.
//!
//! Sources (listeners, streams, wakers) keep small state machines that are
//! driven by completions; a selector collects the readiness edges they
//! announce and hands them out to whoever polls it.

pub mod awakener;
pub mod buffer;
pub mod channel;
pub mod error;
pub mod event;
pub mod interest;
pub mod laws;
pub mod listener;
pub mod request;
pub mod selector;
pub mod state;
pub mod stream;
pub mod waker;
