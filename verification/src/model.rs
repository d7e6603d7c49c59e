//! Shapes of the decoded feed messages.
//!
//! A frame from the feed decodes into exactly one of two variants: a content
//! event (`Tweet`) carrying author, body, tags and policy metadata, or
//! `Other`, which stands for any feed message of a different shape
//! (heartbeats, deletion notices, and the like). Decoding never fails: an
//! unmatched shape simply becomes `Other`.

use vstd::prelude::*;

verus! {

/// A message received from the feed, after decoding.
pub enum StreamMessage {
    /// A content event whose shape matched in full.
    Tweet(Tweet),
    /// Any other feed message; it carries no usable fields.
    Other,
}

/// A single content event from the feed.
pub struct Tweet {
    pub id: u64,
    pub user: User,
    pub text: String,
    /// The tag container. `None` means the container itself was absent from
    /// the event, which is distinct from a present-but-empty container.
    pub entities: Option<Entities>,
    pub lang: String,
    pub possibly_sensitive: bool,
}

/// The author of a content event.
pub struct User {
    pub screen_name: String,
    pub location: String,
}

/// The container of the tags attached to a content event.
pub struct Entities {
    pub hashtags: Vec<Hashtag>,
}

/// One tag attached to a content event.
pub struct Hashtag {
    pub text: String,
}

/// The texts of a sequence of tags, in order.
pub open spec fn tag_views(hs: Seq<Hashtag>) -> Seq<Seq<char>> {
    Seq::new(hs.len(), |i: int| hs[i].text@)
}

} // verus!
