//! Core of a chat-triggered "compile and run" service.
//!
//! A message carrying a fenced source block is turned into a reply: the
//! source is pulled out of the message, handed to an external compiler,
//! the produced module is executed inside an isolated sandbox with its
//! standard output captured, and the outcome is rendered into a single
//! display string. A table correlates each original message with the
//! reply it produced, so that a later edit of the original can locate
//! and update the reply in place.

pub mod extract;
pub mod outcome;
pub mod pipeline;
pub mod sandbox;
pub mod table;
