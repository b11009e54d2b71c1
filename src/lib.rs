//! A push-style value feed: a single producer publishes text lines, and every
//! admitted connection receives the latest line at connect time followed by
//! the live stream of later lines, with bounded lag per subscriber.

pub mod line;
pub mod broadcast;
pub mod admission;
pub mod cache;
pub mod source;
pub mod hub;
pub mod handler;
