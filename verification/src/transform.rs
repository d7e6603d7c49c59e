//! Reshaping an accepted content event into the canonical record.

use vstd::prelude::*;

use crate::digits::{dec_str, u64_to_dec};
use crate::model::{tag_views, Hashtag, Tweet};
use crate::record::Record;

verus! {

/// The parts joined with a single comma between neighbours: order preserved,
/// no trailing separator, empty when there are no parts.
pub open spec fn join_csv(parts: Seq<Seq<char>>) -> Seq<char>
    decreases parts.len(),
{
    if parts.len() == 0 {
        Seq::empty()
    } else if parts.len() == 1 {
        parts[0]
    } else {
        join_csv(parts.drop_last()) + seq![','] + parts.last()
    }
}

/// Why the transformer rejected a content event.
#[derive(Debug)]
pub enum TransformError {
    /// The event carried no tag container at all. This is distinct from a
    /// present-but-empty container, which is valid, and it signals a
    /// malformed upstream event: the current event must fail rather than
    /// silently yield an empty tag field.
    MissingTagContainer,
}

/// Record `r` is the canonical reshaping of content event `t`.
pub open spec fn is_record_of(t: Tweet, r: Record) -> bool
    recommends
        t.entities is Some,
{
    &&& r.id@ == dec_str(t.id as int)
    &&& r.user@ == t.user.screen_name@
    &&& r.text@ == t.text@
    &&& r.location@ == t.user.location@
    &&& r.hashtags@ == join_csv(tag_views(t.entities.unwrap().hashtags@))
}

/// Collapses the tag texts into one comma-delimited string.
pub fn join_tags(hs: &Vec<Hashtag>) -> (s: String)
    ensures
        s@ == join_csv(tag_views(hs@)),
{
    let ghost parts = tag_views(hs@);
    let mut s = String::new();
    let n = hs.len();
    for i in 0..n
        invariant
            n == hs@.len(),
            parts == tag_views(hs@),
            s@ == join_csv(parts.take(i as int)),
    {
        if i > 0 {
            s.append(",");
        }
        s.append(hs[i].text.as_str());
        proof {
            reveal_strlit(",");
            assert(parts[i as int] == hs@[i as int].text@);
            if i == 0 {
                assert(parts.take(1).len() == 1);
                assert(s@ =~= parts.take(1)[0]);
            } else {
                assert(parts.take(i as int + 1).drop_last() =~= parts.take(i as int));
                assert(parts.take(i as int + 1).last() == parts[i as int]);
                assert(s@ =~= join_csv(parts.take(i as int + 1).drop_last()) + seq![','] + parts.take(
                    i as int + 1,
                ).last());
            }
        }
    }
    proof {
        assert(parts.take(n as int) =~= parts);
    }
    s
}

/// Maps an eligible content event into the canonical record. Fails exactly
/// when the event's tag container is absent; a present-but-empty container
/// yields an empty `hashtags` field.
pub fn transform(t: &Tweet) -> (r: Result<Record, TransformError>)
    ensures
        t.entities is Some ==> (r matches Ok(rec) && is_record_of(*t, rec)),
        t.entities is None ==> (r matches Err(e) && e == TransformError::MissingTagContainer),
        (t.entities matches Some(e) && e.hashtags@.len() == 0) ==> (r matches Ok(rec)
            && rec.hashtags@ == Seq::<char>::empty()),
{
    let entities = match &t.entities {
        Some(entities) => entities,
        None => {
            return Err(TransformError::MissingTagContainer);
        },
    };
    let hashtags = join_tags(&entities.hashtags);
    Ok(
        Record {
            id: u64_to_dec(t.id),
            user: t.user.screen_name.clone(),
            text: t.text.clone(),
            location: t.user.location.clone(),
            hashtags,
        },
    )
}

} // verus!
