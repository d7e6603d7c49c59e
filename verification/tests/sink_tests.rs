use tweets_consumer::record::Record;
use tweets_consumer::sink::AppendLog;

fn record() -> Record {
    Record {
        id: String::from("1"),
        user: String::from("alice"),
        text: String::from("hello"),
        location: String::from("NYC"),
        hashtags: String::from("x"),
    }
}

#[test]
fn appending_the_same_record_twice_gives_two_distinct_entries() {
    let mut log = AppendLog::new();
    let id1 = log.append(record());
    let id2 = log.append(record());
    assert_ne!(id1, id2);
    assert_eq!(log.entries.len(), 2);
    assert_eq!(log.entries[0].id, log.entries[1].id);
    assert_eq!(log.entries[0].text, log.entries[1].text);
}

#[test]
fn identifiers_increase_monotonically() {
    let mut log = AppendLog::new();
    let id1 = log.append(record());
    let id2 = log.append(record());
    let id3 = log.append(record());
    assert!(id1 < id2 && id2 < id3);
}
