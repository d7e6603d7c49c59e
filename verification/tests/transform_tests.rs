use tweets_consumer::digits::u64_to_dec;
use tweets_consumer::model::{Entities, Hashtag, Tweet, User};
use tweets_consumer::transform::{transform, TransformError};

fn tweet_with_tags(tags: Option<Vec<&str>>) -> Tweet {
    Tweet {
        id: 42,
        user: User {
            screen_name: String::from("bob"),
            location: String::from("Berlin"),
        },
        text: String::from("hi"),
        entities: tags.map(|ts| Entities {
            hashtags: ts
                .into_iter()
                .map(|t| Hashtag {
                    text: String::from(t),
                })
                .collect(),
        }),
        lang: String::from("en"),
        possibly_sensitive: false,
    }
}

#[test]
fn empty_tag_collection_gives_empty_hashtags_field() {
    let rec = transform(&tweet_with_tags(Some(vec![]))).expect("container present");
    assert_eq!(rec.hashtags, "");
}

#[test]
fn three_tags_join_comma_separated_in_order() {
    let rec = transform(&tweet_with_tags(Some(vec!["a", "b", "c"]))).expect("container present");
    assert_eq!(rec.hashtags, "a,b,c");
}

#[test]
fn single_tag_has_no_separator() {
    let rec = transform(&tweet_with_tags(Some(vec!["x"]))).expect("container present");
    assert_eq!(rec.hashtags, "x");
}

#[test]
fn absent_tag_container_is_a_hard_error() {
    let r = transform(&tweet_with_tags(None));
    assert!(matches!(r, Err(TransformError::MissingTagContainer)));
}

#[test]
fn transform_copies_the_event_fields() {
    let rec = transform(&tweet_with_tags(Some(vec![]))).expect("container present");
    assert_eq!(rec.id, "42");
    assert_eq!(rec.user, "bob");
    assert_eq!(rec.text, "hi");
    assert_eq!(rec.location, "Berlin");
}

#[test]
fn identifiers_render_in_decimal() {
    assert_eq!(u64_to_dec(0), "0");
    assert_eq!(u64_to_dec(7), "7");
    assert_eq!(u64_to_dec(10), "10");
    assert_eq!(u64_to_dec(1234567890), "1234567890");
    assert_eq!(u64_to_dec(u64::MAX), "18446744073709551615");
}

#[test]
fn record_pairs_keep_insertion_order() {
    let rec = transform(&tweet_with_tags(Some(vec!["a", "b"]))).expect("container present");
    let pairs = rec.pairs();
    let names: Vec<&str> = pairs.iter().map(|p| p.0.as_str()).collect();
    assert_eq!(names, vec!["id", "user", "text", "location", "hashtags"]);
    assert_eq!(pairs[0].1, "42");
    assert_eq!(pairs[1].1, "bob");
    assert_eq!(pairs[2].1, "hi");
    assert_eq!(pairs[3].1, "Berlin");
    assert_eq!(pairs[4].1, "a,b");
}
