//! Relays videos into a chat: recognizes a link to a video in a message,
//! chooses the best rendition that holds both picture and sound, and leads the
//! run from the download to the upload, one message at a time.
//!
//! The library decides and does no input or output. A driver asks the
//! services what a run asks for and hands their answers back.

pub mod dispatcher;
pub mod fetcher;
pub mod recognizer;
pub mod rendition;
pub mod resolver;
pub mod text;
pub mod trace;
