use ical_items::datetime::DateTime;
use ical_items::parser::{parse, ParseError};
use ical_items::task::CompletionStatus;
use ical_items::item::{SyncStatus, VersionTag};

const EXAMPLE_ICAL: &str = r#"BEGIN:VCALENDAR
VERSION:2.0
PRODID:-//Nextcloud Tasks v0.13.6
BEGIN:VTODO
UID:0633de27-8c32-42be-bcb8-63bc879c6185@some-domain.com
CREATED:20210321T001600
LAST-MODIFIED:20210321T001600
DTSTAMP:20210321T001600
SUMMARY:Do not forget to do this
END:VTODO
END:VCALENDAR
"#;

const EXAMPLE_ICAL_COMPLETED: &str = r#"BEGIN:VCALENDAR
VERSION:2.0
PRODID:-//Nextcloud Tasks v0.13.6
BEGIN:VTODO
UID:19960401T080045Z-4000F192713-0052@example.com
CREATED:20210321T001600
LAST-MODIFIED:20210402T081557
DTSTAMP:20210402T081557
SUMMARY:Clean up your room or Mom will be angry
PERCENT-COMPLETE:100
COMPLETED:20210402T081557
STATUS:COMPLETED
END:VTODO
END:VCALENDAR
"#;

const EXAMPLE_ICAL_COMPLETED_WITHOUT_A_COMPLETION_DATE: &str = r#"BEGIN:VCALENDAR
VERSION:2.0
PRODID:-//Nextcloud Tasks v0.13.6
BEGIN:VTODO
UID:19960401T080045Z-4000F192713-0052@example.com
CREATED:20210321T001600
LAST-MODIFIED:20210402T081557
DTSTAMP:20210402T081557
SUMMARY:Clean up your room or Mom will be angry
STATUS:COMPLETED
END:VTODO
END:VCALENDAR
"#;

const EXAMPLE_MULTIPLE_ICAL: &str = r#"BEGIN:VCALENDAR
VERSION:2.0
PRODID:-//Nextcloud Tasks v0.13.6
BEGIN:VTODO
UID:0633de27-8c32-42be-bcb8-63bc879c6185
CREATED:20210321T001600
LAST-MODIFIED:20210321T001600
DTSTAMP:20210321T001600
SUMMARY:Call Mom
END:VTODO
END:VCALENDAR
BEGIN:VCALENDAR
BEGIN:VTODO
UID:0633de27-8c32-42be-bcb8-63bc879c6185
CREATED:20210321T001600
LAST-MODIFIED:20210321T001600
DTSTAMP:20210321T001600
SUMMARY:Buy a gift for Mom
END:VTODO
END:VCALENDAR
"#;

fn dt(year: u16, month: u8, day: u8, hour: u8, minute: u8, second: u8) -> DateTime {
    DateTime::new(year, month, day, hour, minute, second).unwrap()
}

#[test]
fn test_ical_parsing() {
    let version_tag = VersionTag::from(String::from("test-tag"));
    let sync_status = SyncStatus::Synced(version_tag);
    let item_url = String::from("http://some.id/for/testing");

    let item = parse(EXAMPLE_ICAL, item_url.clone(), sync_status.clone()).unwrap();
    let task = item.unwrap_task();

    assert_eq!(task.name(), "Do not forget to do this");
    assert_eq!(task.url(), &item_url);
    assert_eq!(
        task.uid(),
        "0633de27-8c32-42be-bcb8-63bc879c6185@some-domain.com"
    );
    assert_eq!(task.completed(), false);
    assert_eq!(task.completion_status(), &CompletionStatus::Uncompleted);
    assert_eq!(task.sync_status(), &sync_status);
    assert_eq!(task.last_modified(), &dt(2021, 3, 21, 0, 16, 0));
}

#[test]
fn test_completed_ical_parsing() {
    let version_tag = VersionTag::from(String::from("test-tag"));
    let sync_status = SyncStatus::Synced(version_tag);
    let item_url = String::from("http://some.id/for/testing");

    let item = parse(EXAMPLE_ICAL_COMPLETED, item_url.clone(), sync_status.clone()).unwrap();
    let task = item.unwrap_task();

    assert_eq!(task.completed(), true);
    assert_eq!(
        task.completion_status(),
        &CompletionStatus::Completed(Some(dt(2021, 4, 2, 8, 15, 57)))
    );
}

#[test]
fn test_completed_without_date_ical_parsing() {
    let version_tag = VersionTag::from(String::from("test-tag"));
    let sync_status = SyncStatus::Synced(version_tag);
    let item_url = String::from("http://some.id/for/testing");

    let item = parse(
        EXAMPLE_ICAL_COMPLETED_WITHOUT_A_COMPLETION_DATE,
        item_url.clone(),
        sync_status.clone(),
    )
    .unwrap();
    let task = item.unwrap_task();

    assert_eq!(task.completed(), true);
    assert_eq!(task.completion_status(), &CompletionStatus::Completed(None));
}

#[test]
fn test_multiple_items_in_ical() {
    let version_tag = VersionTag::from(String::from("test-tag"));
    let sync_status = SyncStatus::Synced(version_tag);
    let item_url = String::from("http://some.id/for/testing");

    let item = parse(EXAMPLE_MULTIPLE_ICAL, item_url.clone(), sync_status.clone());
    assert!(item.is_err());
}

#[test]
fn test_completed_timestamp_discarded_when_not_completed() {
    // A COMPLETED timestamp without STATUS:COMPLETED is dropped.
    let content = r#"BEGIN:VCALENDAR
VERSION:2.0
BEGIN:VTODO
UID:a-task
DTSTAMP:20210321T001600
SUMMARY:Still open
COMPLETED:20210402T081557
END:VTODO
END:VCALENDAR
"#;
    let item = parse(content, String::from("http://x/y"), SyncStatus::NotSynced).unwrap();
    let task = item.unwrap_task();
    assert_eq!(task.completed(), false);
    assert_eq!(task.completion_status(), &CompletionStatus::Uncompleted);
}

#[test]
fn test_missing_uid_fails() {
    let content = r#"BEGIN:VCALENDAR
VERSION:2.0
BEGIN:VTODO
DTSTAMP:20210321T001600
SUMMARY:No identifier here
END:VTODO
END:VCALENDAR
"#;
    let err = parse(content, String::from("http://x/y"), SyncStatus::NotSynced).unwrap_err();
    match err {
        ParseError::MissingField { field, url } => {
            assert_eq!(field, "UID");
            assert_eq!(url, "http://x/y");
        }
        other => panic!("expected a missing-field error, got {:?}", other),
    }
}

#[test]
fn test_missing_summary_fails() {
    let content = r#"BEGIN:VCALENDAR
BEGIN:VTODO
UID:a-task
DTSTAMP:20210321T001600
END:VTODO
END:VCALENDAR
"#;
    let err = parse(content, String::from("http://x/y"), SyncStatus::NotSynced).unwrap_err();
    match err {
        ParseError::MissingField { field, .. } => assert_eq!(field, "name"),
        other => panic!("expected a missing-field error, got {:?}", other),
    }
}

#[test]
fn test_missing_dtstamp_fails() {
    let content = r#"BEGIN:VCALENDAR
BEGIN:VTODO
UID:a-task
SUMMARY:No timestamps at all
END:VTODO
END:VCALENDAR
"#;
    let err = parse(content, String::from("http://x/y"), SyncStatus::NotSynced).unwrap_err();
    match err {
        ParseError::MissingField { field, .. } => assert_eq!(field, "DTSTAMP"),
        other => panic!("expected a missing-field error, got {:?}", other),
    }
}

#[test]
fn test_unresolvable_date_on_mandatory_field_fails() {
    let content = r#"BEGIN:VCALENDAR
BEGIN:VTODO
UID:a-task
SUMMARY:Bad timestamp
DTSTAMP:not-a-date
END:VTODO
END:VCALENDAR
"#;
    let err = parse(content, String::from("http://x/y"), SyncStatus::NotSynced).unwrap_err();
    match err {
        ParseError::MissingField { field, .. } => assert_eq!(field, "DTSTAMP"),
        other => panic!("expected a missing-field error, got {:?}", other),
    }
}

#[test]
fn test_empty_input_fails() {
    let err = parse("", String::from("http://x/y"), SyncStatus::NotSynced).unwrap_err();
    match err {
        ParseError::NoDocument { url } => assert_eq!(url, "http://x/y"),
        other => panic!("expected a no-document error, got {:?}", other),
    }
}

#[test]
fn test_garbage_input_fails() {
    let err = parse(
        "this is not a calendar\n",
        String::from("http://x/y"),
        SyncStatus::NotSynced,
    )
    .unwrap_err();
    match err {
        ParseError::Syntax { url, .. } => assert_eq!(url, "http://x/y"),
        ParseError::NoDocument { .. } => {}
        other => panic!("expected a document-level error, got {:?}", other),
    }
}

#[test]
fn test_calendar_without_components_fails() {
    let content = "BEGIN:VCALENDAR\nVERSION:2.0\nEND:VCALENDAR\n";
    let err = parse(content, String::from("http://x/y"), SyncStatus::NotSynced).unwrap_err();
    assert_eq!(err, ParseError::UnsupportedStructure);
}

#[test]
fn test_todo_and_event_together_fails() {
    let content = r#"BEGIN:VCALENDAR
BEGIN:VTODO
UID:a-task
DTSTAMP:20210321T001600
SUMMARY:A task
END:VTODO
BEGIN:VEVENT
UID:an-event
DTSTAMP:20210321T001600
SUMMARY:An event
DTSTART:20210321T100000
DTEND:20210321T110000
END:VEVENT
END:VCALENDAR
"#;
    let err = parse(content, String::from("http://x/y"), SyncStatus::NotSynced).unwrap_err();
    assert_eq!(err, ParseError::UnsupportedStructure);
}

#[test]
fn test_last_of_dtstamp_and_last_modified_wins() {
    let content = r#"BEGIN:VCALENDAR
BEGIN:VTODO
UID:a-task
DTSTAMP:20210321T001600
LAST-MODIFIED:20210521T120000
SUMMARY:Two revision stamps
END:VTODO
END:VCALENDAR
"#;
    let item = parse(content, String::from("http://x/y"), SyncStatus::NotSynced).unwrap();
    let task = item.unwrap_task();
    assert_eq!(task.last_modified(), &dt(2021, 5, 21, 12, 0, 0));
}

#[test]
fn test_lowercase_status_value_does_not_complete() {
    let content = r#"BEGIN:VCALENDAR
BEGIN:VTODO
UID:a-task
DTSTAMP:20210321T001600
SUMMARY:Case matters
STATUS:completed
END:VTODO
END:VCALENDAR
"#;
    let item = parse(content, String::from("http://x/y"), SyncStatus::NotSynced).unwrap();
    assert_eq!(item.unwrap_task().completed(), false);
}

#[test]
fn test_prod_id_extracted() {
    let item = parse(
        EXAMPLE_ICAL,
        String::from("http://x/y"),
        SyncStatus::NotSynced,
    )
    .unwrap();
    assert_eq!(item.unwrap_task().ical_prod_id(), "-//Nextcloud Tasks v0.13.6");
}

#[test]
fn test_prod_id_defaulted_when_absent() {
    let content = r#"BEGIN:VCALENDAR
BEGIN:VTODO
UID:a-task
DTSTAMP:20210321T001600
SUMMARY:No product identifier
END:VTODO
END:VCALENDAR
"#;
    let item = parse(content, String::from("http://x/y"), SyncStatus::NotSynced).unwrap();
    let prod = item.unwrap_task().ical_prod_id().to_string();
    assert_eq!(prod, ical_items::parser::default_prod_id());
}

#[test]
fn test_unrecognized_properties_preserved_in_order() {
    let content = r#"BEGIN:VCALENDAR
BEGIN:VTODO
UID:a-task
X-SECOND;ROLE=other:two
DTSTAMP:20210321T001600
SUMMARY:Keeper of the unknown
PERCENT-COMPLETE:100
X-FIRST;LANG=en;Q=0.5:one
END:VTODO
END:VCALENDAR
"#;
    let item = parse(content, String::from("http://x/y"), SyncStatus::NotSynced).unwrap();
    let task = item.unwrap_task();
    let extras = task.extra_parameters();
    assert_eq!(extras.len(), 3);
    assert_eq!(extras[0].name, "X-SECOND");
    assert_eq!(extras[0].value.as_deref(), Some("two"));
    assert_eq!(extras[1].name, "PERCENT-COMPLETE");
    assert_eq!(extras[1].value.as_deref(), Some("100"));
    assert_eq!(extras[2].name, "X-FIRST");
    assert_eq!(extras[2].value.as_deref(), Some("one"));
    let params = extras[2].params.as_ref().unwrap();
    assert_eq!(params.len(), 2);
    assert_eq!(params[0].0, "LANG");
    assert_eq!(params[0].1, vec![String::from("en")]);
    assert_eq!(params[1].0, "Q");
    assert_eq!(params[1].1, vec![String::from("0.5")]);
}

#[test]
fn test_event_parsing() {
    let content = r#"BEGIN:VCALENDAR
PRODID:some-generator
BEGIN:VEVENT
UID:an-event
DTSTAMP:20210321T001600
SUMMARY:Team meeting
DESCRIPTION:Quarterly review
DTSTART:20210321T100000Z
DTEND:20210321T110000Z
CREATED:20210301T000000
END:VEVENT
END:VCALENDAR
"#;
    let item = parse(content, String::from("http://x/e"), SyncStatus::NotSynced).unwrap();
    assert!(item.is_event());
    assert_eq!(item.name(), "Team meeting");
    match &item {
        ical_items::item::Item::Event(e) => {
            assert_eq!(e.uid(), "an-event");
            assert_eq!(e.description().map(|s| s.as_str()), Some("Quarterly review"));
            assert_eq!(e.start(), &dt(2021, 3, 21, 10, 0, 0));
            assert_eq!(e.end_instant(), &dt(2021, 3, 21, 11, 0, 0));
            assert_eq!(e.creation_date(), Some(&dt(2021, 3, 1, 0, 0, 0)));
            assert_eq!(e.ical_prod_id(), "some-generator");
        }
        _ => panic!("expected an event"),
    }
}

#[test]
fn test_event_missing_dtstart_fails() {
    let content = r#"BEGIN:VCALENDAR
BEGIN:VEVENT
UID:an-event
DTSTAMP:20210321T001600
SUMMARY:No start
DTEND:20210321T110000Z
END:VEVENT
END:VCALENDAR
"#;
    let err = parse(content, String::from("http://x/e"), SyncStatus::NotSynced).unwrap_err();
    match err {
        ParseError::MissingField { field, .. } => assert_eq!(field, "DTSTART"),
        other => panic!("expected a missing-field error, got {:?}", other),
    }
}

#[test]
fn test_event_missing_dtend_fails() {
    let content = r#"BEGIN:VCALENDAR
BEGIN:VEVENT
UID:an-event
DTSTAMP:20210321T001600
SUMMARY:No end
DTSTART:20210321T110000Z
END:VEVENT
END:VCALENDAR
"#;
    let err = parse(content, String::from("http://x/e"), SyncStatus::NotSynced).unwrap_err();
    match err {
        ParseError::MissingField { field, .. } => assert_eq!(field, "DTEND"),
        other => panic!("expected a missing-field error, got {:?}", other),
    }
}

#[test]
fn test_zoned_date_converted_to_utc() {
    // 00:16 in Paris on 2021-03-21 is 23:16 UTC the day before.
    let content = "BEGIN:VCALENDAR\nBEGIN:VTODO\nUID:a-task\nSUMMARY:Zoned\nDTSTAMP;TZID=Europe/Paris:20210321T001600\nEND:VTODO\nEND:VCALENDAR\n";
    let item = parse(content, String::from("http://x/y"), SyncStatus::NotSynced).unwrap();
    assert_eq!(item.unwrap_task().last_modified(), &dt(2021, 3, 20, 23, 16, 0));
}

#[test]
fn test_unknown_zone_falls_back_to_utc() {
    let content = "BEGIN:VCALENDAR\nBEGIN:VTODO\nUID:a-task\nSUMMARY:Strange zone\nDTSTAMP;TZID=Nowhere/Special:20210321T001600\nEND:VTODO\nEND:VCALENDAR\n";
    let item = parse(content, String::from("http://x/y"), SyncStatus::NotSynced).unwrap();
    assert_eq!(item.unwrap_task().last_modified(), &dt(2021, 3, 21, 0, 16, 0));
}
