//! A command-line chat client's core: conversation history, the bounded
//! request context, the interpretation of completion replies, and the
//! command-line dispatch rules.
pub mod entry;
pub mod context;
pub mod json;
pub mod completion;
pub mod decimal;
pub mod store;
pub mod codec;
pub mod dispatch;
