use logram::counter::{CounterLogSource, CounterLogSourceConfig};
use logram::docker::{
    entry_to_record, running_container_names, started_container, ContainerEvent,
    ContainerSummary, DockerLogSourceConfig, Transport,
};
use logram::filesystem::{AdditionReader, FsEvent, WatchAction};
use logram::journald::{
    find_title, journal_matches, map_entry, JournalMatch, JournaldEvent, MatchGroup,
};
use logram::record::LogRecord;
use logram::source::{enabled_sources, LogSourcesConfig, SourceKind};

fn rec(title: &str, body: &str) -> LogRecord {
    LogRecord::new(String::from(title), String::from(body))
}

fn pairs(items: &[(&str, &str)]) -> Vec<(String, String)> {
    items
        .iter()
        .map(|(k, v)| (String::from(*k), String::from(*v)))
        .collect()
}

#[test]
fn counter_first_three_records() {
    let config = CounterLogSourceConfig {
        interval: 1,
        initial: 42,
    };
    let mut source = CounterLogSource::new(config);
    let actual = vec![source.next_record(), source.next_record(), source.next_record()];
    let expected = vec![
        rec("Counter log source", "It's 42 record"),
        rec("Counter log source", "It's 43 record"),
        rec("Counter log source", "It's 44 record"),
    ];
    assert_eq!(actual, expected);
    assert_eq!(source.interval(), 1);
}

#[test]
fn counter_defaults() {
    let config = CounterLogSourceConfig::default();
    assert_eq!(config.initial, 1);
    assert_eq!(config.interval, 10_000);
}

#[test]
fn filesystem_reads_only_additions() {
    let path = "/tmp/logram_test/file";
    let mut reader = AdditionReader::new(Vec::new());

    let created = FsEvent::Created { path: String::from(path) }.into_record();
    assert_eq!(created, rec("/tmp/logram_test/file was created", ""));

    assert_eq!(reader.read_offset(path, 7), 0);
    let content = reader.read_addition(String::from(path), 7, b"content");
    let write = FsEvent::Writed { path: String::from(path), new_content: content }.into_record();
    assert_eq!(write, rec(path, "content"));

    assert_eq!(reader.read_offset(path, 11), 7);
    let more = reader.read_addition(String::from(path), 11, b"more");
    assert_eq!(more, "more");

    assert_eq!(reader.read_offset(path, 0), 0);
    reader.read_addition(String::from(path), 0, b"");
    assert_eq!(reader.read_offset(path, 3), 0);
    assert_eq!(reader.read_addition(String::from(path), 3, b"new"), "new");
}

#[test]
fn filesystem_scanned_lengths_and_lossy_decoding() {
    let mut reader = AdditionReader::new(vec![
        (String::from("/a"), 5),
        (String::from("/b"), 9),
        (String::from("/a"), 6),
    ]);
    assert_eq!(reader.read_offset("/a", 10), 6);
    assert_eq!(reader.read_offset("/b", 9), 9);
    assert_eq!(reader.read_offset("/c", 4), 0);
    reader.scan(vec![(String::from("/c"), 2)]);
    assert_eq!(reader.read_offset("/c", 4), 2);
    assert_eq!(reader.read_addition(String::from("/c"), 5, &[b'o', 0xff, b'k']), "o\u{fffd}k");
}

#[test]
fn filesystem_event_records_and_actions() {
    let removed = FsEvent::Removed { path: String::from("/x") };
    assert_eq!(removed.watch_actions(), vec![WatchAction::Unwatch { path: String::from("/x") }]);
    assert_eq!(removed.into_record(), rec("/x was removed", ""));

    let renamed = FsEvent::Renamed { from: String::from("/x"), to: String::from("/y") };
    assert_eq!(
        renamed.watch_actions(),
        vec![
            WatchAction::Scan { path: String::from("/y") },
            WatchAction::Unwatch { path: String::from("/x") },
            WatchAction::Watch { path: String::from("/y") },
        ]
    );
    assert_eq!(renamed.into_record(), rec("/x was renamed to /y", ""));

    let created = FsEvent::Created { path: String::from("/z") };
    assert_eq!(
        created.watch_actions(),
        vec![
            WatchAction::Scan { path: String::from("/z") },
            WatchAction::Watch { path: String::from("/z") },
        ]
    );
}

fn groups() -> Vec<MatchGroup> {
    vec![
        MatchGroup {
            title: String::from("group a"),
            filters: pairs(&[("A_FIELD1", "a_field1_value"), ("A_FIELD2", "a_field2_value")]),
        },
        MatchGroup {
            title: String::from("group b"),
            filters: pairs(&[("B_FIELD1", "b_field1_value")]),
        },
    ]
}

#[test]
fn journald_entries_titled_by_first_matching_group() {
    let groups = groups();
    let a = pairs(&[
        ("A_FIELD1", "a_field1_value"),
        ("A_FIELD2", "a_field2_value"),
        ("MESSAGE", "group_a \x1b[31mmessage"),
        ("PRIORITY", "7"),
    ]);
    let ignored = pairs(&[
        ("B_FIELD1", "another_value"),
        ("MESSAGE", "this message should be ignored"),
        ("PRIORITY", "7"),
    ]);
    let b = pairs(&[
        ("B_FIELD1", "b_field1_value"),
        ("MESSAGE", "group_b message"),
        ("PRIORITY", "7"),
    ]);
    assert_eq!(map_entry(&groups, &a), Some(rec("group a", "group_a message")));
    assert_eq!(map_entry(&groups, &ignored), None);
    assert_eq!(map_entry(&groups, &b), Some(rec("group b", "group_b message")));
    assert_eq!(find_title(&groups, &pairs(&[("A_FIELD1", "a_field1_value")])), None);
}

#[test]
fn journald_filter_plan() {
    let plan = journal_matches(&groups());
    let add = |k: &str, v: &str| JournalMatch::Add { key: String::from(k), value: String::from(v) };
    assert_eq!(
        plan,
        vec![
            add("A_FIELD1", "a_field1_value"),
            add("A_FIELD2", "a_field2_value"),
            JournalMatch::Or,
            add("B_FIELD1", "b_field1_value"),
        ]
    );
    assert_eq!(journal_matches(&Vec::new()), Vec::new());
}

#[test]
fn test_test() {
    let first = pairs(&[("_SYSTEMD_UNIT", "user@1000.service"), ("MESSAGE", "logram test")]);
    assert_eq!(
        JournaldEvent::from_fields(&first).into_record(),
        rec("user@1000.service", "logram test")
    );

    let second = pairs(&[("_SYSTEMD_UNIT", "user@1000.service"), ("MESSAGE", "logram test 2")]);
    assert_eq!(
        JournaldEvent::from_fields(&second).into_record(),
        rec("user@1000.service", "logram test 2")
    );
}

#[test]
fn journald_event_crops_and_defaults() {
    let entry = pairs(&[("_SYSTEMD_UNIT", "user@1000.service"), ("MESSAGE", "\x1b[1mlogram test")]);
    let event = JournaldEvent::from_fields(&entry);
    assert_eq!(event.into_record(), rec("user@1000.service", "logram test"));
    let empty = JournaldEvent::from_fields(&Vec::new());
    assert_eq!(empty.into_record(), rec("", ""));
}

#[test]
fn docker_records_and_containers() {
    assert_eq!(entry_to_record("logram-test", "log_entry\n"), rec("logram-test container", "log_entry"));
    let listed = vec![
        ContainerSummary {
            state: Some(String::from("running")),
            names: Some(vec![String::from("/web"), String::from("/alias")]),
        },
        ContainerSummary { state: Some(String::from("exited")), names: Some(vec![String::from("/old")]) },
        ContainerSummary { state: Some(String::from("running")), names: None },
        ContainerSummary { state: Some(String::from("running")), names: Some(vec![String::from("db")]) },
    ];
    assert_eq!(running_container_names(&listed), vec![String::from("web"), String::from("db")]);

    let start = ContainerEvent {
        typ: Some(String::from("container")),
        action: Some(String::from("start")),
        name: Some(String::from("logram-test")),
    };
    assert_eq!(started_container(&start), Some(String::from("logram-test")));
    let stop = ContainerEvent {
        typ: Some(String::from("container")),
        action: Some(String::from("stop")),
        name: Some(String::from("logram-test")),
    };
    assert_eq!(started_container(&stop), None);

    let config = DockerLogSourceConfig::default();
    assert_eq!(config.transport, Transport::Local);
    assert_eq!(config.addr, "unix:///var/run/docker.sock");
    assert_eq!(config.timeout, 120);
}

#[test]
fn no_sources_enabled_starts_nothing() {
    let mut config = LogSourcesConfig::default();
    assert!(enabled_sources(&config).is_empty());
    config.journald.enabled = true;
    config.counter.enabled = true;
    assert_eq!(enabled_sources(&config), vec![SourceKind::Counter, SourceKind::Journald]);
}
