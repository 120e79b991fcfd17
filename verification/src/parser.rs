//! The parse entry point and the two item builders.
//!
//! A document is accepted when it holds exactly one to-do or exactly one
//! event; the matching builder routes every recognized property into a
//! model field, preserves every other property verbatim in arrival
//! order, and fails when a mandatory field is missing.

use vstd::prelude::*;

use std::io::Write;

use crate::datetime::DateTime;
use crate::event::{Event, EventV};
use crate::item::{Item, ItemV, SyncStatus, SyncStatusV};
use crate::normalize::{prop_date, parse_date_time_from_property};
use crate::props::{clone_opt_string, str_eq, Doc, DocV, Prop, PropV};
use crate::reader::{docs_view, ical_docs_of, read_docs};
use crate::task::{CompletionStatus, Task, TaskV};

verus! {

broadcast use vstd::string::group_string_axioms;

/// Why a parse failed.
#[derive(Debug, Clone, PartialEq)]
pub enum ParseError {
    /// The input held no document at all.
    NoDocument { url: String },
    /// The outer document could not be read; the reader's message is kept.
    Syntax { url: String, message: String },
    /// A mandatory property was absent from the component.
    MissingField { field: String, url: String },
    /// The document did not hold exactly one to-do or exactly one event.
    UnsupportedStructure,
    /// The input held more than one parseable top-level document.
    MultipleDocuments,
}

/// The mathematical shape of a [`ParseError`].
pub ghost enum ParseErrorV {
    NoDocument { url: Seq<char> },
    Syntax { url: Seq<char>, message: Seq<char> },
    MissingField { field: Seq<char>, url: Seq<char> },
    UnsupportedStructure,
    MultipleDocuments,
}

impl DeepView for ParseError {
    type V = ParseErrorV;

    open spec fn deep_view(&self) -> ParseErrorV {
        match self {
            ParseError::NoDocument { url } => ParseErrorV::NoDocument { url: url@ },
            ParseError::Syntax { url, message } => ParseErrorV::Syntax {
                url: url@,
                message: message@,
            },
            ParseError::MissingField { field, url } => ParseErrorV::MissingField {
                field: field@,
                url: url@,
            },
            ParseError::UnsupportedStructure => ParseErrorV::UnsupportedStructure,
            ParseError::MultipleDocuments => ParseErrorV::MultipleDocuments,
        }
    }
}

/// Which single component a document holds.
#[derive(Clone, Copy, Debug, PartialEq, Eq, Structural)]
pub enum ComponentKind {
    Event,
    Todo,
}

/// The recognized property names are pairwise distinct texts.
proof fn lemma_distinct_prop_names()
    ensures
        "SUMMARY"@ != "DESCRIPTION"@,
        "SUMMARY"@ != "UID"@,
        "SUMMARY"@ != "DTSTAMP"@,
        "SUMMARY"@ != "LAST-MODIFIED"@,
        "SUMMARY"@ != "COMPLETED"@,
        "SUMMARY"@ != "CREATED"@,
        "SUMMARY"@ != "STATUS"@,
        "SUMMARY"@ != "DTSTART"@,
        "SUMMARY"@ != "DTEND"@,
        "DESCRIPTION"@ != "UID"@,
        "DESCRIPTION"@ != "DTSTAMP"@,
        "DESCRIPTION"@ != "LAST-MODIFIED"@,
        "DESCRIPTION"@ != "COMPLETED"@,
        "DESCRIPTION"@ != "CREATED"@,
        "DESCRIPTION"@ != "STATUS"@,
        "DESCRIPTION"@ != "DTSTART"@,
        "DESCRIPTION"@ != "DTEND"@,
        "UID"@ != "DTSTAMP"@,
        "UID"@ != "LAST-MODIFIED"@,
        "UID"@ != "COMPLETED"@,
        "UID"@ != "CREATED"@,
        "UID"@ != "STATUS"@,
        "UID"@ != "DTSTART"@,
        "UID"@ != "DTEND"@,
        "DTSTAMP"@ != "LAST-MODIFIED"@,
        "DTSTAMP"@ != "COMPLETED"@,
        "DTSTAMP"@ != "CREATED"@,
        "DTSTAMP"@ != "STATUS"@,
        "DTSTAMP"@ != "DTSTART"@,
        "DTSTAMP"@ != "DTEND"@,
        "LAST-MODIFIED"@ != "COMPLETED"@,
        "LAST-MODIFIED"@ != "CREATED"@,
        "LAST-MODIFIED"@ != "STATUS"@,
        "LAST-MODIFIED"@ != "DTSTART"@,
        "LAST-MODIFIED"@ != "DTEND"@,
        "COMPLETED"@ != "CREATED"@,
        "COMPLETED"@ != "STATUS"@,
        "COMPLETED"@ != "DTSTART"@,
        "COMPLETED"@ != "DTEND"@,
        "CREATED"@ != "STATUS"@,
        "CREATED"@ != "DTSTART"@,
        "CREATED"@ != "DTEND"@,
        "STATUS"@ != "DTSTART"@,
        "STATUS"@ != "DTEND"@,
        "DTSTART"@ != "DTEND"@,
{
    reveal_strlit("SUMMARY");
    reveal_strlit("DESCRIPTION");
    reveal_strlit("UID");
    reveal_strlit("DTSTAMP");
    reveal_strlit("LAST-MODIFIED");
    reveal_strlit("COMPLETED");
    reveal_strlit("CREATED");
    reveal_strlit("STATUS");
    reveal_strlit("DTSTART");
    reveal_strlit("DTEND");
    assert("SUMMARY"@.len() == 7);
    assert("DESCRIPTION"@.len() == 11);
    assert("UID"@.len() == 3);
    assert("DTSTAMP"@.len() == 7);
    assert("LAST-MODIFIED"@.len() == 13);
    assert("COMPLETED"@.len() == 9);
    assert("CREATED"@.len() == 7);
    assert("STATUS"@.len() == 6);
    assert("DTSTART"@.len() == 7);
    assert("DTEND"@.len() == 5);
    assert("SUMMARY"@[0] == 'S');
    assert("DTSTAMP"@[0] == 'D');
    assert("CREATED"@[0] == 'C');
    assert("DTSTART"@[0] == 'D');
    assert("DTSTAMP"@[5] == 'M');
    assert("DTSTART"@[5] == 'R');
}

/// The last property of the given name, the sequence read back to front.
pub open spec fn last_with_name(props: Seq<PropV>, name: Seq<char>) -> Option<PropV>
    decreases props.len(),
{
    if props.len() == 0 {
        None
    } else if props.last().name == name {
        Some(props.last())
    } else {
        last_with_name(props.drop_last(), name)
    }
}

/// The first property of the given name, the sequence read front to back.
pub open spec fn first_with_name(props: Seq<PropV>, name: Seq<char>) -> Option<PropV>
    decreases props.len(),
{
    if props.len() == 0 {
        None
    } else if props[0].name == name {
        Some(props[0])
    } else {
        first_with_name(props.drop_first(), name)
    }
}

/// The value carried by the last property of the given name.
pub open spec fn value_of_last(props: Seq<PropV>, name: Seq<char>) -> Option<Seq<char>> {
    match last_with_name(props, name) {
        Some(p) => p.value,
        None => None,
    }
}

/// The instant carried by the last property of the given name.
pub open spec fn date_of_last(props: Seq<PropV>, name: Seq<char>) -> Option<DateTime> {
    match last_with_name(props, name) {
        Some(p) => prop_date(p),
        None => None,
    }
}

/// The last property that revises the last-modified field: `DTSTAMP` and
/// `LAST-MODIFIED` both write it, so the later one in document order wins.
pub open spec fn last_modified_source(props: Seq<PropV>) -> Option<PropV>
    decreases props.len(),
{
    if props.len() == 0 {
        None
    } else if props.last().name == "DTSTAMP"@ || props.last().name == "LAST-MODIFIED"@ {
        Some(props.last())
    } else {
        last_modified_source(props.drop_last())
    }
}

/// The last-modified instant of a component, from whichever of `DTSTAMP`
/// and `LAST-MODIFIED` came last.
pub open spec fn last_modified_of(props: Seq<PropV>) -> Option<DateTime> {
    match last_modified_source(props) {
        Some(p) => prop_date(p),
        None => None,
    }
}

/// Whether any `STATUS` property carries the value `COMPLETED`.
pub open spec fn has_completed_status(props: Seq<PropV>) -> bool
    decreases props.len(),
{
    if props.len() == 0 {
        false
    } else {
        (props.last().name == "STATUS"@ && props.last().value == Some("COMPLETED"@))
            || has_completed_status(props.drop_last())
    }
}

/// The completion status a to-do derives from its properties: the
/// `STATUS` value alone decides completion, and only a completed to-do
/// keeps its `COMPLETED` timestamp.
pub open spec fn task_completion(props: Seq<PropV>) -> CompletionStatus {
    if has_completed_status(props) {
        CompletionStatus::Completed(date_of_last(props, "COMPLETED"@))
    } else {
        CompletionStatus::Uncompleted
    }
}

/// The property names a to-do routes into model fields.
pub open spec fn recognized_task_prop(name: Seq<char>) -> bool {
    ||| name == "SUMMARY"@
    ||| name == "UID"@
    ||| name == "DTSTAMP"@
    ||| name == "LAST-MODIFIED"@
    ||| name == "COMPLETED"@
    ||| name == "CREATED"@
    ||| name == "STATUS"@
}

/// The property names an event routes into model fields.
pub open spec fn recognized_event_prop(name: Seq<char>) -> bool {
    ||| name == "SUMMARY"@
    ||| name == "DESCRIPTION"@
    ||| name == "UID"@
    ||| name == "DTSTAMP"@
    ||| name == "DTSTART"@
    ||| name == "DTEND"@
    ||| name == "LAST-MODIFIED"@
    ||| name == "CREATED"@
}

/// What building a task from a to-do's properties yields.
pub open spec fn spec_parse_task(
    props: Seq<PropV>,
    url: Seq<char>,
    sync: SyncStatusV,
    prod: Seq<char>,
) -> Result<TaskV, ParseErrorV> {
    if value_of_last(props, "SUMMARY"@) is None {
        Err(ParseErrorV::MissingField { field: "name"@, url })
    } else if value_of_last(props, "UID"@) is None {
        Err(ParseErrorV::MissingField { field: "UID"@, url })
    } else if last_modified_of(props) is None {
        Err(ParseErrorV::MissingField { field: "DTSTAMP"@, url })
    } else {
        let uid = value_of_last(props, "UID"@).unwrap();
        Ok(
            TaskV {
                url,
                uid,
                id: uid,
                name: value_of_last(props, "SUMMARY"@).unwrap(),
                completion_status: task_completion(props),
                sync_status: sync,
                creation_date: date_of_last(props, "CREATED"@),
                last_modified: last_modified_of(props).unwrap(),
                ical_prod_id: prod,
                extra_parameters: props.filter(|p: PropV| !recognized_task_prop(p.name)),
            },
        )
    }
}

/// What building an event from its properties yields.
pub open spec fn spec_parse_event(
    props: Seq<PropV>,
    url: Seq<char>,
    sync: SyncStatusV,
    prod: Seq<char>,
) -> Result<EventV, ParseErrorV> {
    if value_of_last(props, "SUMMARY"@) is None {
        Err(ParseErrorV::MissingField { field: "name"@, url })
    } else if value_of_last(props, "UID"@) is None {
        Err(ParseErrorV::MissingField { field: "UID"@, url })
    } else if last_modified_of(props) is None {
        Err(ParseErrorV::MissingField { field: "DTSTAMP"@, url })
    } else if date_of_last(props, "DTSTART"@) is None {
        Err(ParseErrorV::MissingField { field: "DTSTART"@, url })
    } else if date_of_last(props, "DTEND"@) is None {
        Err(ParseErrorV::MissingField { field: "DTEND"@, url })
    } else {
        let uid = value_of_last(props, "UID"@).unwrap();
        Ok(
            EventV {
                url,
                uid,
                id: uid,
                name: value_of_last(props, "SUMMARY"@).unwrap(),
                description: value_of_last(props, "DESCRIPTION"@),
                sync_status: sync,
                ical_prod_id: prod,
                creation_date: date_of_last(props, "CREATED"@),
                last_modified: last_modified_of(props).unwrap(),
                start: date_of_last(props, "DTSTART"@).unwrap(),
                end: date_of_last(props, "DTEND"@).unwrap(),
                extra_parameters: props.filter(|p: PropV| !recognized_event_prop(p.name)),
            },
        )
    }
}

/// The value of the first `PRODID` property of a document, if any.
pub open spec fn prodid_value(props: Seq<PropV>) -> Option<Seq<char>> {
    match first_with_name(props, "PRODID"@) {
        Some(p) => p.value,
        None => None,
    }
}

/// The text of the product identifier stamped on items whose document
/// names none.
pub open spec fn default_prod_id_text() -> Seq<char> {
    "-//ical_items//NONSGML ical_items//EN"@
}

/// The product identifier of a document: its first `PRODID` value, or
/// the default.
pub open spec fn doc_prod_id(doc: DocV) -> Seq<char> {
    match prodid_value(doc.properties) {
        Some(v) => v,
        None => default_prod_id_text(),
    }
}

/// Which single component a document holds, when it holds exactly one
/// to-do or exactly one event and nothing else that is supported.
pub open spec fn single_component(doc: DocV) -> Option<ComponentKind> {
    if doc.events.len() == 1 && doc.todos.len() == 0 && doc.journals == 0 {
        Some(ComponentKind::Event)
    } else if doc.todos.len() == 1 && doc.events.len() == 0 && doc.journals == 0 {
        Some(ComponentKind::Todo)
    } else {
        None
    }
}

/// What parsing one document yields.
pub open spec fn spec_parse_doc(doc: DocV, url: Seq<char>, sync: SyncStatusV) -> Result<
    ItemV,
    ParseErrorV,
> {
    match single_component(doc) {
        None => Err(ParseErrorV::UnsupportedStructure),
        Some(ComponentKind::Event) => match spec_parse_event(
            doc.events[0],
            url,
            sync,
            doc_prod_id(doc),
        ) {
            Ok(e) => Ok(ItemV::Event(e)),
            Err(e) => Err(e),
        },
        Some(ComponentKind::Todo) => match spec_parse_task(
            doc.todos[0],
            url,
            sync,
            doc_prod_id(doc),
        ) {
            Ok(t) => Ok(ItemV::Task(t)),
            Err(e) => Err(e),
        },
    }
}

/// What parsing a stream of documents yields: the first document must be
/// there and readable, it is built into an item, and a second readable
/// document voids the whole parse.
pub open spec fn spec_parse(
    docs: Seq<Result<DocV, Seq<char>>>,
    url: Seq<char>,
    sync: SyncStatusV,
) -> Result<ItemV, ParseErrorV> {
    if docs.len() == 0 {
        Err(ParseErrorV::NoDocument { url })
    } else {
        match docs[0] {
            Err(m) => Err(ParseErrorV::Syntax { url, message: m }),
            Ok(doc) => match spec_parse_doc(doc, url, sync) {
                Err(e) => Err(e),
                Ok(item) => if docs.len() >= 2 && docs[1] is Ok {
                    Err(ParseErrorV::MultipleDocuments)
                } else {
                    Ok(item)
                },
            },
        }
    }
}

/// The view of a task build result.
pub open spec fn task_result_view(r: Result<Task, ParseError>) -> Result<TaskV, ParseErrorV> {
    match r {
        Ok(t) => Ok(t@),
        Err(e) => Err(e.deep_view()),
    }
}

/// The view of an event build result.
pub open spec fn event_result_view(r: Result<Event, ParseError>) -> Result<EventV, ParseErrorV> {
    match r {
        Ok(ev) => Ok(ev@),
        Err(e) => Err(e.deep_view()),
    }
}

/// The view of a parse result.
pub open spec fn item_result_view(r: Result<Item, ParseError>) -> Result<ItemV, ParseErrorV> {
    match r {
        Ok(i) => Ok(i@),
        Err(e) => Err(e.deep_view()),
    }
}

/// Reports a soft inconsistency on the diagnostic channel: the to-do is
/// not completed, yet it carries a completion timestamp, which the
/// builder discards. The emission never changes control flow or the
/// parse result.
///
/// Relies on std::io::stderr: the warning line goes to the standard
/// error stream and nothing else happens.
#[verifier::external_body]
fn warn_inconsistent_completion(uid: &str, stamp: &DateTime) {
    let _ = writeln!(
        std::io::stderr(),
        "warning: task {:?} has an inconsistent content: its STATUS is not completed, yet it has a COMPLETED timestamp at {:?}",
        uid,
        stamp,
    );
}

/// The product identifier stamped on items whose document names none.
pub fn default_prod_id() -> (r: String)
    ensures
        r@ == default_prod_id_text(),
{
    "-//ical_items//NONSGML ical_items//EN".to_owned()
}

/// The value of the first `PRODID` property of a document, if any.
pub fn extract_ical_prod_id<'a>(doc: &'a Doc) -> (r: Option<&'a String>)
    ensures
        r.deep_view() == prodid_value(doc@.properties),
{
    let ghost full = doc@.properties;
    let mut i: usize = 0;
    proof {
        assert(full.skip(0) =~= full);
    }
    while i < doc.properties.len()
        invariant
            i <= doc.properties.len(),
            full == doc@.properties,
            full == doc.properties.deep_view(),
            first_with_name(full, "PRODID"@) == first_with_name(full.skip(i as int), "PRODID"@),
        decreases doc.properties.len() - i,
    {
        proof {
            assert(full.skip(i as int)[0] == full[i as int]);
        }
        if str_eq(doc.properties[i].name.as_str(), "PRODID") {
            return match &doc.properties[i].value {
                Some(v) => Some(v),
                None => None,
            };
        }
        proof {
            assert(full.skip(i as int).drop_first() =~= full.skip(i + 1));
        }
        i = i + 1;
    }
    None
}

/// Decides which single supported component the document holds, refusing
/// every other combination.
pub fn assert_single_type(doc: &Doc) -> (r: Result<ComponentKind, ParseError>)
    ensures
        match r {
            Ok(k) => single_component(doc@) == Some(k),
            Err(e) => single_component(doc@) is None && e.deep_view()
                == ParseErrorV::UnsupportedStructure,
        },
{
    let n_events = doc.events.len();
    let n_todos = doc.todos.len();
    let n_journals = doc.journals;
    if n_events == 1 && n_todos == 0 && n_journals == 0 {
        Ok(ComponentKind::Event)
    } else if n_todos == 1 && n_events == 0 && n_journals == 0 {
        Ok(ComponentKind::Todo)
    } else {
        Err(ParseError::UnsupportedStructure)
    }
}

/// Builds a task from the properties of a to-do component.
pub fn parse_task(
    props: &Vec<Prop>,
    item_url: String,
    sync_status: SyncStatus,
    ical_prod_id: String,
) -> (r: Result<Task, ParseError>)
    ensures
        task_result_view(r) == spec_parse_task(
            props.deep_view(),
            item_url@,
            sync_status.deep_view(),
            ical_prod_id@,
        ),
{
    let ghost full = props.deep_view();
    let mut name: Option<String> = None;
    let mut uid: Option<String> = None;
    let mut completed: bool = false;
    let mut last_modified: Option<DateTime> = None;
    let mut completion_date: Option<DateTime> = None;
    let mut creation_date: Option<DateTime> = None;
    let mut extra: Vec<Prop> = Vec::new();
    let mut i: usize = 0;
    proof {
        assert(full.take(0) =~= Seq::<PropV>::empty());
    }
    while i < props.len()
        invariant
            i <= props.len(),
            full == props.deep_view(),
            name.deep_view() == value_of_last(full.take(i as int), "SUMMARY"@),
            uid.deep_view() == value_of_last(full.take(i as int), "UID"@),
            completed == has_completed_status(full.take(i as int)),
            last_modified == last_modified_of(full.take(i as int)),
            completion_date == date_of_last(full.take(i as int), "COMPLETED"@),
            creation_date == date_of_last(full.take(i as int), "CREATED"@),
            extra.deep_view() == full.take(i as int).filter(
                |p: PropV| !recognized_task_prop(p.name),
            ),
        decreases props.len() - i,
    {
        let prop = &props[i];
        proof {
            reveal(Seq::filter);
            lemma_distinct_prop_names();
            assert(full.take(i + 1).drop_last() =~= full.take(i as int));
            assert(full.take(i + 1).last() == prop.deep_view());
        }
        if str_eq(prop.name.as_str(), "SUMMARY") {
            name = clone_opt_string(&prop.value);
        } else if str_eq(prop.name.as_str(), "UID") {
            uid = clone_opt_string(&prop.value);
        } else if str_eq(prop.name.as_str(), "DTSTAMP") {
            last_modified = parse_date_time_from_property(prop);
        } else if str_eq(prop.name.as_str(), "LAST-MODIFIED") {
            last_modified = parse_date_time_from_property(prop);
        } else if str_eq(prop.name.as_str(), "COMPLETED") {
            completion_date = parse_date_time_from_property(prop);
        } else if str_eq(prop.name.as_str(), "CREATED") {
            creation_date = parse_date_time_from_property(prop);
        } else if str_eq(prop.name.as_str(), "STATUS") {
            let status_completed = match &prop.value {
                Some(v) => str_eq(v.as_str(), "COMPLETED"),
                None => false,
            };
            if status_completed {
                completed = true;
            }
        } else {
            extra.push(prop.clone());
        }
        i = i + 1;
    }
    proof {
        assert(full.take(props.len() as int) =~= full);
    }
    let name = match name {
        Some(n) => n,
        None => {
            return Err(ParseError::MissingField { field: "name".to_owned(), url: item_url });
        },
    };
    let uid = match uid {
        Some(u) => u,
        None => {
            return Err(ParseError::MissingField { field: "UID".to_owned(), url: item_url });
        },
    };
    let last_modified = match last_modified {
        Some(dt) => dt,
        None => {
            return Err(ParseError::MissingField { field: "DTSTAMP".to_owned(), url: item_url });
        },
    };
    let completion_status = if completed {
        CompletionStatus::Completed(completion_date)
    } else {
        if let Some(stamp) = &completion_date {
            warn_inconsistent_completion(uid.as_str(), stamp);
        }
        CompletionStatus::Uncompleted
    };
    Ok(
        Task::new_with_parameters(
            name,
            uid,
            item_url,
            completion_status,
            sync_status,
            creation_date,
            last_modified,
            ical_prod_id,
            extra,
        ),
    )
}

/// Builds an event from the properties of an event component.
pub fn parse_event(
    props: &Vec<Prop>,
    item_url: String,
    sync_status: SyncStatus,
    ical_prod_id: String,
) -> (r: Result<Event, ParseError>)
    ensures
        event_result_view(r) == spec_parse_event(
            props.deep_view(),
            item_url@,
            sync_status.deep_view(),
            ical_prod_id@,
        ),
{
    let ghost full = props.deep_view();
    let mut name: Option<String> = None;
    let mut description: Option<String> = None;
    let mut uid: Option<String> = None;
    let mut last_modified: Option<DateTime> = None;
    let mut creation_date: Option<DateTime> = None;
    let mut start: Option<DateTime> = None;
    let mut end: Option<DateTime> = None;
    let mut extra: Vec<Prop> = Vec::new();
    let mut i: usize = 0;
    proof {
        assert(full.take(0) =~= Seq::<PropV>::empty());
    }
    while i < props.len()
        invariant
            i <= props.len(),
            full == props.deep_view(),
            name.deep_view() == value_of_last(full.take(i as int), "SUMMARY"@),
            description.deep_view() == value_of_last(full.take(i as int), "DESCRIPTION"@),
            uid.deep_view() == value_of_last(full.take(i as int), "UID"@),
            last_modified == last_modified_of(full.take(i as int)),
            creation_date == date_of_last(full.take(i as int), "CREATED"@),
            start == date_of_last(full.take(i as int), "DTSTART"@),
            end == date_of_last(full.take(i as int), "DTEND"@),
            extra.deep_view() == full.take(i as int).filter(
                |p: PropV| !recognized_event_prop(p.name),
            ),
        decreases props.len() - i,
    {
        let prop = &props[i];
        proof {
            reveal(Seq::filter);
            lemma_distinct_prop_names();
            assert(full.take(i + 1).drop_last() =~= full.take(i as int));
            assert(full.take(i + 1).last() == prop.deep_view());
        }
        if str_eq(prop.name.as_str(), "SUMMARY") {
            name = clone_opt_string(&prop.value);
        } else if str_eq(prop.name.as_str(), "DESCRIPTION") {
            description = clone_opt_string(&prop.value);
        } else if str_eq(prop.name.as_str(), "UID") {
            uid = clone_opt_string(&prop.value);
        } else if str_eq(prop.name.as_str(), "DTSTAMP") {
            last_modified = parse_date_time_from_property(prop);
        } else if str_eq(prop.name.as_str(), "DTSTART") {
            start = parse_date_time_from_property(prop);
        } else if str_eq(prop.name.as_str(), "DTEND") {
            end = parse_date_time_from_property(prop);
        } else if str_eq(prop.name.as_str(), "LAST-MODIFIED") {
            last_modified = parse_date_time_from_property(prop);
        } else if str_eq(prop.name.as_str(), "CREATED") {
            creation_date = parse_date_time_from_property(prop);
        } else {
            extra.push(prop.clone());
        }
        i = i + 1;
    }
    proof {
        assert(full.take(props.len() as int) =~= full);
    }
    let name = match name {
        Some(n) => n,
        None => {
            return Err(ParseError::MissingField { field: "name".to_owned(), url: item_url });
        },
    };
    let uid = match uid {
        Some(u) => u,
        None => {
            return Err(ParseError::MissingField { field: "UID".to_owned(), url: item_url });
        },
    };
    let last_modified = match last_modified {
        Some(dt) => dt,
        None => {
            return Err(ParseError::MissingField { field: "DTSTAMP".to_owned(), url: item_url });
        },
    };
    let start = match start {
        Some(dt) => dt,
        None => {
            return Err(ParseError::MissingField { field: "DTSTART".to_owned(), url: item_url });
        },
    };
    let end = match end {
        Some(dt) => dt,
        None => {
            return Err(ParseError::MissingField { field: "DTEND".to_owned(), url: item_url });
        },
    };
    Ok(
        Event::new_with_parameters(
            name,
            uid,
            item_url,
            description,
            sync_status,
            start,
            end,
            creation_date,
            last_modified,
            ical_prod_id,
            extra,
        ),
    )
}

/// Parses a stream of already-read documents into a single item.
pub fn parse_docs(docs: &Vec<Result<Doc, String>>, item_url: String, sync_status: SyncStatus) -> (r:
    Result<Item, ParseError>)
    ensures
        item_result_view(r) == spec_parse(docs_view(docs@), item_url@, sync_status.deep_view()),
{
    if docs.len() == 0 {
        return Err(ParseError::NoDocument { url: item_url });
    }
    let doc = match &docs[0] {
        Ok(d) => d,
        Err(m) => {
            return Err(ParseError::Syntax { url: item_url, message: m.clone() });
        },
    };
    let prod = match extract_ical_prod_id(doc) {
        Some(p) => p.clone(),
        None => default_prod_id(),
    };
    let kind = match assert_single_type(doc) {
        Ok(k) => k,
        Err(e) => {
            return Err(e);
        },
    };
    let built = match kind {
        ComponentKind::Event => {
            proof {
                assert(doc@.events.len() == 1);
            }
            match parse_event(&doc.events[0], item_url, sync_status, prod) {
                Ok(ev) => Item::Event(ev),
                Err(e) => {
                    return Err(e);
                },
            }
        },
        ComponentKind::Todo => {
            proof {
                assert(doc@.todos.len() == 1);
            }
            match parse_task(&doc.todos[0], item_url, sync_status, prod) {
                Ok(t) => Item::Task(t),
                Err(e) => {
                    return Err(e);
                },
            }
        },
    };
    if docs.len() >= 2 {
        let second_ok = match &docs[1] {
            Ok(_) => true,
            Err(_) => false,
        };
        if second_ok {
            return Err(ParseError::MultipleDocuments);
        }
    }
    Ok(built)
}

/// Parses an iCalendar text into a single item, anchored at the given
/// URL and carrying the caller-supplied synchronization status.
pub fn parse(content: &str, item_url: String, sync_status: SyncStatus) -> (r: Result<
    Item,
    ParseError,
>)
    ensures
        item_result_view(r) == spec_parse(
            ical_docs_of(content@),
            item_url@,
            sync_status.deep_view(),
        ),
{
    let docs = read_docs(content);
    parse_docs(&docs, item_url, sync_status)
}

/// A to-do whose properties supply a summary, a UID and a last-modified
/// instant always builds, and its completion status is derived from the
/// `STATUS` properties alone.
pub proof fn lemma_task_build_succeeds(
    props: Seq<PropV>,
    url: Seq<char>,
    sync: SyncStatusV,
    prod: Seq<char>,
)
    requires
        value_of_last(props, "SUMMARY"@) is Some,
        value_of_last(props, "UID"@) is Some,
        last_modified_of(props) is Some,
    ensures
        spec_parse_task(props, url, sync, prod) is Ok,
        spec_parse_task(props, url, sync, prod)->Ok_0.completion_status == task_completion(props),
        has_completed_status(props) <==> spec_parse_task(
            props,
            url,
            sync,
            prod,
        )->Ok_0.completion_status is Completed,
{
}

/// The completion status derived from the properties: a completed
/// `STATUS` keeps the last `COMPLETED` timestamp, if any; without it the
/// to-do is uncompleted and any `COMPLETED` timestamp is discarded.
pub proof fn lemma_completion_from_status(props: Seq<PropV>)
    ensures
        has_completed_status(props) ==> task_completion(props) == CompletionStatus::Completed(
            date_of_last(props, "COMPLETED"@),
        ),
        has_completed_status(props) && last_with_name(props, "COMPLETED"@) is None
            ==> task_completion(props) == CompletionStatus::Completed(None),
        !has_completed_status(props) ==> task_completion(props) == CompletionStatus::Uncompleted,
{
}

/// A to-do missing its `UID` fails with a missing-field error naming
/// `UID` and the item's URL.
pub proof fn lemma_missing_uid(props: Seq<PropV>, url: Seq<char>, sync: SyncStatusV, prod: Seq<char>)
    requires
        value_of_last(props, "SUMMARY"@) is Some,
        value_of_last(props, "UID"@) is None,
    ensures
        spec_parse_task(props, url, sync, prod) == Err::<TaskV, ParseErrorV>(
            ParseErrorV::MissingField { field: "UID"@, url },
        ),
{
}

/// A stream holding a second readable document never yields an item.
pub proof fn lemma_multiple_documents_rejected(
    docs: Seq<Result<DocV, Seq<char>>>,
    url: Seq<char>,
    sync: SyncStatusV,
)
    requires
        docs.len() >= 2,
        docs[1] is Ok,
    ensures
        spec_parse(docs, url, sync) is Err,
{
}

/// A built task preserves exactly the unrecognized properties, in
/// arrival order.
pub proof fn lemma_preserved_verbatim(
    props: Seq<PropV>,
    url: Seq<char>,
    sync: SyncStatusV,
    prod: Seq<char>,
)
    requires
        spec_parse_task(props, url, sync, prod) is Ok,
    ensures
        spec_parse_task(props, url, sync, prod)->Ok_0.extra_parameters == props.filter(
            |p: PropV| !recognized_task_prop(p.name),
        ),
{
}


/// A stream whose first document is readable and holds exactly one
/// to-do, whose properties supply a summary, a UID and a last-modified
/// instant, and which has no second readable document, parses to a task
/// whose completion status is derived from the `STATUS` properties
/// alone.
pub proof fn lemma_single_todo_parses(
    docs: Seq<Result<DocV, Seq<char>>>,
    url: Seq<char>,
    sync: SyncStatusV,
)
    requires
        docs.len() >= 1,
        docs[0] is Ok,
        single_component(docs[0]->Ok_0) == Some(ComponentKind::Todo),
        value_of_last(docs[0]->Ok_0.todos[0], "SUMMARY"@) is Some,
        value_of_last(docs[0]->Ok_0.todos[0], "UID"@) is Some,
        last_modified_of(docs[0]->Ok_0.todos[0]) is Some,
        !(docs.len() >= 2 && docs[1] is Ok),
    ensures
        spec_parse(docs, url, sync) is Ok,
        spec_parse(docs, url, sync)->Ok_0 is Task,
        spec_parse(docs, url, sync)->Ok_0.as_task().completion_status == task_completion(
            docs[0]->Ok_0.todos[0],
        ),
{
    let doc = docs[0]->Ok_0;
    lemma_task_build_succeeds(doc.todos[0], url, sync, doc_prod_id(doc));
}

} // verus!

