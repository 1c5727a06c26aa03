use logram::debouncer::{Debounce, Debouncer};
use logram::record::LogRecord;

fn rec(title: &str, body: &str) -> LogRecord {
    LogRecord {
        title: String::from(title),
        body: String::from(body),
    }
}

#[test]
fn debouncer_coalesces_one_title_within_timeout() {
    let mut debouncer = Debouncer::new(1);

    let record_a1 = rec("a", "one");
    assert_eq!(debouncer.debounce(&record_a1, 0), Debounce::NewMessage(&record_a1));
    debouncer.on_message_sent(record_a1, 1, 0);

    let record_a2 = rec("a", "two");
    let expected = Debounce::EditMessage {
        id: 1,
        title: String::from("a"),
        body: vec![String::from("one"), String::from("two")],
    };
    assert_eq!(debouncer.debounce(&record_a2, 300), expected);
    debouncer.on_message_sent(record_a2, 1, 300);

    let record_b1 = rec("b", "one");
    assert_eq!(debouncer.debounce(&record_b1, 400), Debounce::NewMessage(&record_b1));

    let record_b2 = rec("b", "two");
    assert_eq!(debouncer.debounce(&record_b2, 1400), Debounce::NewMessage(&record_b2));
}

#[test]
fn debouncer_timeout_starts_new_message() {
    let mut debouncer = Debouncer::new(1);
    let a1 = rec("a", "one");
    debouncer.on_message_sent(a1, 7, 0);

    let a2 = rec("a", "two");
    assert_eq!(debouncer.debounce(&a2, 999), Debounce::EditMessage {
        id: 7,
        title: String::from("a"),
        body: vec![String::from("one"), String::from("two")],
    });
    assert_eq!(debouncer.debounce(&a2, 1000), Debounce::NewMessage(&a2));
    debouncer.on_message_sent(a2, 8, 1000);

    let a3 = rec("a", "three");
    assert_eq!(debouncer.debounce(&a3, 1500), Debounce::EditMessage {
        id: 8,
        title: String::from("a"),
        body: vec![String::from("two"), String::from("three")],
    });
}

#[test]
fn debouncer_tracks_only_the_last_title() {
    let mut debouncer = Debouncer::new(10);
    debouncer.on_message_sent(rec("a", "one"), 1, 0);
    debouncer.on_message_sent(rec("b", "one"), 2, 10);

    let a = rec("a", "two");
    assert_eq!(debouncer.debounce(&a, 20), Debounce::NewMessage(&a));
}
