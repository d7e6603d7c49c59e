//! Decoding a frame into a feed message.
//!
//! A frame decodes to a content event exactly when it is a JSON object with
//! every required member present at the required type: `id` (unsigned
//! integer), `user` (object with string `screen_name` and `location`),
//! `text` and `lang` (strings), `possibly_sensitive` (boolean), and an
//! optional `entities` member that, when present and non-null, must be an
//! object whose `hashtags` member is an array of objects each with a string
//! `text`. Every other frame — a heartbeat, a deletion notice, a malformed
//! event — decodes to `Other`. Decoding itself never fails.

use vstd::prelude::*;

use crate::json::{field_of, obj_get, JsonValue};
use crate::model::{tag_views, Entities, Hashtag, StreamMessage, Tweet, User};

verus! {

/// The member `key` of `v` as a string, if it is one.
pub open spec fn str_field(v: JsonValue, key: Seq<char>) -> Option<Seq<char>> {
    match field_of(v, key) {
        Some(JsonValue::Str(s)) => Some(s@),
        _ => None,
    }
}

/// The member `key` of `v` as an unsigned integer, if it is one.
pub open spec fn num_field(v: JsonValue, key: Seq<char>) -> Option<u64> {
    match field_of(v, key) {
        Some(JsonValue::Num(n)) => Some(n),
        _ => None,
    }
}

/// The member `key` of `v` as a boolean, if it is one.
pub open spec fn bool_field(v: JsonValue, key: Seq<char>) -> Option<bool> {
    match field_of(v, key) {
        Some(JsonValue::Bool(b)) => Some(b),
        _ => None,
    }
}

/// One tag: an object whose member `text` is a string.
pub open spec fn tag_shape(v: JsonValue) -> bool {
    str_field(v, "text"@) is Some
}

/// Every element of the array is a well-shaped tag.
pub open spec fn tags_shape(a: Seq<JsonValue>) -> bool {
    forall|i: int| 0 <= i < a.len() ==> tag_shape(#[trigger] a[i])
}

/// The texts of the tags, in array order.
pub open spec fn tag_texts(a: Seq<JsonValue>) -> Seq<Seq<char>> {
    Seq::new(a.len(), |i: int| str_field(a[i], "text"@).unwrap())
}

/// A tag container: its member `hashtags` is an array of well-shaped tags.
pub open spec fn entities_shape(v: JsonValue) -> bool {
    match field_of(v, "hashtags"@) {
        Some(JsonValue::Arr(a)) => tags_shape(a@),
        _ => false,
    }
}

/// The author member of `v` holds string `screen_name` and `location`.
pub open spec fn user_shape(v: JsonValue) -> bool {
    match field_of(v, "user"@) {
        Some(u) => str_field(u, "screen_name"@) is Some && str_field(u, "location"@) is Some,
        None => false,
    }
}

/// The frame has the full content-event shape.
pub open spec fn tweet_shape(v: JsonValue) -> bool {
    &&& num_field(v, "id"@) is Some
    &&& user_shape(v)
    &&& str_field(v, "text"@) is Some
    &&& str_field(v, "lang"@) is Some
    &&& bool_field(v, "possibly_sensitive"@) is Some
    &&& (match field_of(v, "entities"@) {
        Some(e) => e is Null || entities_shape(e),
        None => true,
    })
}

/// The author member of `v`.
pub open spec fn user_of(v: JsonValue) -> JsonValue {
    field_of(v, "user"@).unwrap()
}

/// The frame carries a tag container: a present, non-null `entities` member.
pub open spec fn has_entities(v: JsonValue) -> bool {
    match field_of(v, "entities"@) {
        Some(e) => !(e is Null),
        None => false,
    }
}

/// The tag texts carried by the frame's tag container.
pub open spec fn frame_tags(v: JsonValue) -> Seq<Seq<char>> {
    match field_of(v, "entities"@) {
        Some(e) => match field_of(e, "hashtags"@) {
            Some(JsonValue::Arr(a)) => tag_texts(a@),
            _ => Seq::empty(),
        },
        None => Seq::empty(),
    }
}

/// Message `m` is the decoding of frame `v`: a content event holding exactly
/// the frame's fields when the frame has the content-event shape, and `Other`
/// otherwise.
pub open spec fn decodes_to(v: JsonValue, m: StreamMessage) -> bool {
    if tweet_shape(v) {
        match m {
            StreamMessage::Tweet(t) => {
                &&& t.id == num_field(v, "id"@).unwrap()
                &&& t.user.screen_name@ == str_field(user_of(v), "screen_name"@).unwrap()
                &&& t.user.location@ == str_field(user_of(v), "location"@).unwrap()
                &&& t.text@ == str_field(v, "text"@).unwrap()
                &&& t.lang@ == str_field(v, "lang"@).unwrap()
                &&& t.possibly_sensitive == bool_field(v, "possibly_sensitive"@).unwrap()
                &&& (t.entities is Some <==> has_entities(v))
                &&& (match t.entities {
                    Some(e) => tag_views(e.hashtags@) == frame_tags(v),
                    None => true,
                })
            },
            StreamMessage::Other => false,
        }
    } else {
        m is Other
    }
}

/// Decodes one frame. Never fails: a frame that does not match the
/// content-event shape becomes `Other`.
pub fn decode(v: &JsonValue) -> (m: StreamMessage)
    ensures
        decodes_to(*v, m),
{
    let fields = match v {
        JsonValue::Obj(fields) => fields,
        _ => {
            return StreamMessage::Other;
        },
    };
    let id: u64 = match obj_get(fields, &String::from_str("id")) {
        Some(j) => match j {
            JsonValue::Num(n) => *n,
            _ => {
                return StreamMessage::Other;
            },
        },
        None => {
            return StreamMessage::Other;
        },
    };
    let ufields = match obj_get(fields, &String::from_str("user")) {
        Some(j) => match j {
            JsonValue::Obj(ufields) => ufields,
            _ => {
                return StreamMessage::Other;
            },
        },
        None => {
            return StreamMessage::Other;
        },
    };
    let screen_name = match obj_get(ufields, &String::from_str("screen_name")) {
        Some(j) => match j {
            JsonValue::Str(s) => s.clone(),
            _ => {
                return StreamMessage::Other;
            },
        },
        None => {
            return StreamMessage::Other;
        },
    };
    let location = match obj_get(ufields, &String::from_str("location")) {
        Some(j) => match j {
            JsonValue::Str(s) => s.clone(),
            _ => {
                return StreamMessage::Other;
            },
        },
        None => {
            return StreamMessage::Other;
        },
    };
    let text = match obj_get(fields, &String::from_str("text")) {
        Some(j) => match j {
            JsonValue::Str(s) => s.clone(),
            _ => {
                return StreamMessage::Other;
            },
        },
        None => {
            return StreamMessage::Other;
        },
    };
    let lang = match obj_get(fields, &String::from_str("lang")) {
        Some(j) => match j {
            JsonValue::Str(s) => s.clone(),
            _ => {
                return StreamMessage::Other;
            },
        },
        None => {
            return StreamMessage::Other;
        },
    };
    let possibly_sensitive: bool = match obj_get(fields, &String::from_str("possibly_sensitive")) {
        Some(j) => match j {
            JsonValue::Bool(b) => *b,
            _ => {
                return StreamMessage::Other;
            },
        },
        None => {
            return StreamMessage::Other;
        },
    };
    let entities: Option<Entities> = match obj_get(fields, &String::from_str("entities")) {
        None => None,
        Some(e) => match e {
            JsonValue::Null => None,
            JsonValue::Obj(efields) => match obj_get(efields, &String::from_str("hashtags")) {
                Some(h) => match h {
                    JsonValue::Arr(arr) => match collect_tags(arr) {
                        Some(hashtags) => Some(Entities { hashtags }),
                        None => {
                            return StreamMessage::Other;
                        },
                    },
                    _ => {
                        return StreamMessage::Other;
                    },
                },
                None => {
                    return StreamMessage::Other;
                },
            },
            _ => {
                return StreamMessage::Other;
            },
        },
    };
    StreamMessage::Tweet(
        Tweet {
            id,
            user: User { screen_name, location },
            text,
            entities,
            lang,
            possibly_sensitive,
        },
    )
}

/// Extracts the text of every tag in the array, in order; `None` as soon as
/// one element is not a well-shaped tag.
fn collect_tags(arr: &Vec<JsonValue>) -> (r: Option<Vec<Hashtag>>)
    ensures
        match r {
            Some(hs) => tags_shape(arr@) && tag_views(hs@) == tag_texts(arr@),
            None => !tags_shape(arr@),
        },
{
    let mut hashtags: Vec<Hashtag> = Vec::new();
    let text_key = String::from_str("text");
    let n = arr.len();
    for i in 0..n
        invariant
            n == arr@.len(),
            text_key@ == "text"@,
            hashtags@.len() == i,
            forall|j: int| 0 <= j < i ==> tag_shape(#[trigger] arr@[j]),
            forall|j: int|
                0 <= j < i ==> (#[trigger] hashtags@[j]).text@ == str_field(
                    arr@[j],
                    "text"@,
                ).unwrap(),
    {
        let tf = match &arr[i] {
            JsonValue::Obj(tf) => tf,
            _ => {
                assert(!tag_shape(arr@[i as int]));
                return None;
            },
        };
        match obj_get(tf, &text_key) {
            Some(j) => match j {
                JsonValue::Str(s) => hashtags.push(Hashtag { text: s.clone() }),
                _ => {
                    return None;
                },
            },
            None => {
                return None;
            },
        }
    }
    assert(tag_views(hashtags@) =~= tag_texts(arr@));
    Some(hashtags)
}

} // verus!
