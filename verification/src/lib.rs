//! A verified ingestion pipeline for a social-media event feed.
//!
//! Frames arriving from the feed are decoded into either a content event or
//! an ignored message, filtered by content policy (language and sensitivity),
//! reshaped into a flat five-field record, and appended to an ordered log.
//! The decode, the classifier, the transformer, the pump state machine and a
//! model of the append-only log are all verified; the surrounding I/O
//! (feed connection, log-store connection) lives outside the library.

pub mod classifier;
pub mod decode;
pub mod digits;
pub mod json;
pub mod model;
pub mod pump;
pub mod record;
pub mod sink;
pub mod transform;

pub use model::{Entities, Hashtag, StreamMessage, Tweet, User};
