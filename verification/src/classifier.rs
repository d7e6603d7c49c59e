//! The acceptance policy for decoded feed messages.

use vstd::prelude::*;

use crate::model::{StreamMessage, Tweet};

verus! {

/// A message is eligible for persistence exactly when it is a content event
/// in English whose sensitivity flag is clear.
pub open spec fn spec_accept(m: StreamMessage) -> bool {
    match m {
        StreamMessage::Tweet(t) => t.lang@ == "en"@ && !t.possibly_sensitive,
        StreamMessage::Other => false,
    }
}

/// Decides whether a decoded message is persisted. `Other` messages, content
/// events in another language, and sensitive-flagged content are all excluded
/// silently: no error, no side effect.
pub fn accept(m: &StreamMessage) -> (r: bool)
    ensures
        r == spec_accept(*m),
{
    match m {
        StreamMessage::Tweet(t) => {
            let en = String::from_str("en");
            t.lang == en && !t.possibly_sensitive
        },
        StreamMessage::Other => false,
    }
}

/// A decoded non-content message is never accepted, so no record is ever
/// built or appended for it.
pub proof fn lemma_other_rejected(m: StreamMessage)
    requires
        m is Other,
    ensures
        !spec_accept(m),
{
}

/// A content event in a language other than English, or with its
/// sensitivity flag set, is never accepted, whatever its other fields.
pub proof fn lemma_policy_rejects(t: Tweet)
    requires
        t.lang@ != "en"@ || t.possibly_sensitive,
    ensures
        !spec_accept(StreamMessage::Tweet(t)),
{
}

} // verus!
