use ical_items::datetime::DateTime;
use ical_items::event::Event;
use ical_items::item::{Item, ItemId, SyncStatus, VersionTag};
use ical_items::parser::{parse_docs, parse_task, ParseError};
use ical_items::props::{Doc, Prop};
use ical_items::task::{CompletionStatus, Task};

fn dt(year: u16, month: u8, day: u8, hour: u8, minute: u8, second: u8) -> DateTime {
    DateTime::new(year, month, day, hour, minute, second).unwrap()
}

fn prop(name: &str, value: &str) -> Prop {
    Prop {
        name: String::from(name),
        value: Some(String::from(value)),
        params: None,
    }
}

fn todo_props() -> Vec<Prop> {
    vec![
        prop("UID", "model-task"),
        prop("SUMMARY", "Directly built"),
        prop("DTSTAMP", "20210321T001600"),
    ]
}

#[test]
fn test_item_accessors() {
    let task = Task::new_with_parameters(
        String::from("A task"),
        String::from("uid-1"),
        String::from("http://x/t"),
        CompletionStatus::Uncompleted,
        SyncStatus::NotSynced,
        None,
        dt(2021, 3, 21, 0, 16, 0),
        String::from("prod"),
        Vec::new(),
    );
    let mut item = Item::Task(task);
    assert!(item.is_task());
    assert!(!item.is_event());
    assert_eq!(item.name(), "A task");
    assert_eq!(item.id().as_str(), "uid-1");
    assert_eq!(item.last_modified(), dt(2021, 3, 21, 0, 16, 0));
    assert_eq!(item.unwrap_task().uid(), "uid-1");

    let tag = VersionTag::from(String::from("rev-7"));
    item.unwrap_task_mut().set_sync_status(SyncStatus::Synced(tag.clone()));
    assert_eq!(item.unwrap_task().sync_status(), &SyncStatus::Synced(tag));
}

#[test]
fn test_parse_docs_reaches_builder() {
    let doc = Doc {
        properties: vec![prop("PRODID", "direct-prod")],
        events: Vec::new(),
        todos: vec![todo_props()],
        journals: 0,
    };
    let docs: Vec<Result<Doc, String>> = vec![Ok(doc)];
    let item = parse_docs(&docs, String::from("http://x/t"), SyncStatus::NotSynced).unwrap();
    let task = item.unwrap_task();
    assert_eq!(task.name(), "Directly built");
    assert_eq!(task.uid(), "model-task");
    assert_eq!(task.ical_prod_id(), "direct-prod");
}

#[test]
fn test_parse_docs_rejects_second_document() {
    let first = Doc {
        properties: Vec::new(),
        events: Vec::new(),
        todos: vec![todo_props()],
        journals: 0,
    };
    let second = Doc {
        properties: Vec::new(),
        events: Vec::new(),
        todos: vec![todo_props()],
        journals: 0,
    };
    let docs: Vec<Result<Doc, String>> = vec![Ok(first), Ok(second)];
    let err = parse_docs(&docs, String::from("http://x/t"), SyncStatus::NotSynced).unwrap_err();
    assert_eq!(err, ParseError::MultipleDocuments);
}

#[test]
fn test_parse_docs_rejects_journals() {
    let doc = Doc {
        properties: Vec::new(),
        events: Vec::new(),
        todos: vec![todo_props()],
        journals: 1,
    };
    let docs: Vec<Result<Doc, String>> = vec![Ok(doc)];
    let err = parse_docs(&docs, String::from("http://x/t"), SyncStatus::NotSynced).unwrap_err();
    assert_eq!(err, ParseError::UnsupportedStructure);
}

#[test]
fn test_parse_task_last_summary_without_value_wins() {
    let props = vec![
        prop("UID", "model-task"),
        prop("SUMMARY", "First"),
        prop("DTSTAMP", "20210321T001600"),
        Prop { name: String::from("SUMMARY"), value: None, params: None },
    ];
    let err = parse_task(
        &props,
        String::from("http://x/t"),
        SyncStatus::NotSynced,
        String::from("prod"),
    )
    .unwrap_err();
    match err {
        ParseError::MissingField { field, .. } => assert_eq!(field, "name"),
        other => panic!("expected a missing-field error, got {:?}", other),
    }
}

#[test]
fn test_fresh_item_id_has_uuid_shape() {
    let id = ItemId::new();
    let text = id.as_str();
    assert_eq!(text.len(), 36);
    for (i, c) in text.chars().enumerate() {
        if i == 8 || i == 13 || i == 18 || i == 23 {
            assert_eq!(c, '-');
        } else {
            assert!(c.is_ascii_hexdigit() && !c.is_ascii_uppercase());
        }
    }
    let other = ItemId::new();
    assert_ne!(id.as_str(), other.as_str());
}

#[test]
fn test_fresh_event() {
    let parent = String::from("http://calendars.example/personal");
    let event = Event::new(
        String::from("Fresh meeting"),
        dt(2021, 6, 1, 9, 0, 0),
        dt(2021, 6, 1, 10, 0, 0),
        &parent,
    );
    assert_eq!(event.name(), "Fresh meeting");
    assert_eq!(event.start(), &dt(2021, 6, 1, 9, 0, 0));
    assert_eq!(event.end_instant(), &dt(2021, 6, 1, 10, 0, 0));
    assert_eq!(event.sync_status(), &SyncStatus::NotSynced);
    assert!(event.description().is_none());
    assert!(event.creation_date().is_some());
    assert_eq!(event.url(), &format!("{}/{}", parent, event.uid()));
    assert_eq!(event.uid().len(), 36);
    assert_eq!(event.id().as_str(), event.uid());
}

#[test]
fn test_version_tag_text() {
    let tag = VersionTag::from(String::from("etag-123"));
    assert_eq!(tag.as_str(), "etag-123");
}
