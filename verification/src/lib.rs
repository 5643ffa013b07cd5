//! Per-conversation photo collection sessions and the batch archiving
//! pipeline behind them: a session toggles a collecting mode, buffers
//! inbound messages that carry photo attachments, and on a stop signal
//! hands the buffered batch over to be fetched and packed into a single
//! deflate-compressed archive.

pub mod message;
pub mod photo;
pub mod session;
pub mod store;
pub mod names;
pub mod classify;
pub mod archive;
pub mod pipeline;
