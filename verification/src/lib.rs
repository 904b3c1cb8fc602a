//! A minimal terminal text editor's core: a line buffer with a 2D cursor,
//! clamped navigation, character insertion and deletion with line split and
//! join, a key-routing table for the two input modes, and a debounce filter
//! for the event loop. Every operation carries a contract over a
//! mathematical model of the buffer, and the invariants - the cursor never
//! leaves the buffer, a split followed by a delete is the identity - are
//! proved, not sampled.
//!
//! Terminal control (raw mode, clearing, absolute cursor moves) and key
//! polling stay outside: the event loop around the library feeds it key
//! events and timestamps, and repaints from the plan that
//! [`terminal::TerminalCursor::write_content`] computes.

pub mod debounce;
pub mod dispatch;
pub mod terminal;
