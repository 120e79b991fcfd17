//! Calendar events: iCal `VEVENT` items.

use vstd::prelude::*;

use crate::datetime::DateTime;
use crate::item::{uuid_text_form, ItemId, SyncStatus, SyncStatusV};
use crate::parser::{default_prod_id, default_prod_id_text};
use crate::props::{Prop, PropV};
use chrono::Datelike;
use chrono::Timelike;
use vstd::string::StringExecFns;

verus! {

/// An event, with every property it carried that the parser does not
/// recognize preserved verbatim in arrival order. All-day events are not
/// supported: the start and end are instants.
#[derive(Clone, Debug, PartialEq)]
pub struct Event {
    url: String,
    uid: String,
    id: ItemId,
    name: String,
    description: Option<String>,
    sync_status: SyncStatus,
    ical_prod_id: String,
    creation_date: Option<DateTime>,
    last_modified: DateTime,
    start: DateTime,
    end: DateTime,
    extra_parameters: Vec<Prop>,
}

/// The mathematical shape of an [`Event`].
#[verifier::ext_equal]
pub ghost struct EventV {
    pub url: Seq<char>,
    pub uid: Seq<char>,
    pub id: Seq<char>,
    pub name: Seq<char>,
    pub description: Option<Seq<char>>,
    pub sync_status: SyncStatusV,
    pub ical_prod_id: Seq<char>,
    pub creation_date: Option<DateTime>,
    pub last_modified: DateTime,
    pub start: DateTime,
    pub end: DateTime,
    pub extra_parameters: Seq<PropV>,
}

impl View for Event {
    type V = EventV;

    closed spec fn view(&self) -> EventV {
        EventV {
            url: self.url@,
            uid: self.uid@,
            id: self.id@,
            name: self.name@,
            description: self.description.deep_view(),
            sync_status: self.sync_status.deep_view(),
            ical_prod_id: self.ical_prod_id@,
            creation_date: self.creation_date,
            last_modified: self.last_modified,
            start: self.start,
            end: self.end,
            extra_parameters: self.extra_parameters.deep_view(),
        }
    }
}

/// A fresh universally unique identifier in text form.
///
/// Relies on uuid's v4 generation and its hyphenated text form: 36
/// characters, lower-case hexadecimal digits in the pattern 8-4-4-4-12,
/// separated by hyphens.
#[verifier::external_body]
fn fresh_uid() -> (r: String)
    ensures
        uuid_text_form(r@),
{
    uuid::Uuid::new_v4().hyphenated().to_string()
}

/// The current instant, read as civil UTC fields.
///
/// Relies on chrono's Utc::now: some real current date and time is
/// returned. A clock outside the four-digit years cannot be carried in
/// these fields and is reported as the first instant of 1970, so the
/// result is a real date and time on every outcome.
#[verifier::external_body]
fn now_utc() -> (r: DateTime)
    ensures
        r.valid(),
{
    let u = chrono::Utc::now();
    if u.year() < 0 || u.year() > 9999 {
        return DateTime { year: 1970, month: 1, day: 1, hour: 0, minute: 0, second: 0 };
    }
    DateTime {
        year: u.year() as u16,
        month: u.month() as u8,
        day: u.day() as u8,
        hour: u.hour() as u8,
        minute: u.minute() as u8,
        second: u.second() as u8,
    }
}

impl Event {
    /// Creates a fresh event under the given parent calendar, named and
    /// scheduled but never yet synchronized. Its UID is a newly
    /// generated UUID in hyphenated text form, and its URL is that UID
    /// appended to the parent calendar's URL.
    pub fn new(name: String, start: DateTime, end: DateTime, parent_calendar_url: &String) -> (r:
        Event)
        ensures
            r@.name == name@,
            r@.start == start,
            r@.end == end,
            r@.description is None,
            r@.sync_status is NotSynced,
            r@.creation_date matches Some(created) && created.valid(),
            r@.last_modified.valid(),
            r@.ical_prod_id == default_prod_id_text(),
            r@.extra_parameters == Seq::<PropV>::empty(),
            r@.id == r@.uid,
            uuid_text_form(r@.uid),
            r@.url == parent_calendar_url@ + "/"@ + r@.uid,
    {
        let new_uid = fresh_uid();
        let mut new_url = parent_calendar_url.clone();
        new_url.append("/");
        new_url.append(new_uid.as_str());
        let creation = now_utc();
        let modified = now_utc();
        Event::new_with_parameters(
            name,
            new_uid,
            new_url,
            None,
            SyncStatus::NotSynced,
            start,
            end,
            Some(creation),
            modified,
            default_prod_id(),
            Vec::new(),
        )
    }

    /// Assembles an event from already-normalized parts; the item
    /// identifier is the UID.
    pub fn new_with_parameters(
        name: String,
        uid: String,
        url: String,
        description: Option<String>,
        sync_status: SyncStatus,
        start: DateTime,
        end: DateTime,
        creation_date: Option<DateTime>,
        last_modified: DateTime,
        ical_prod_id: String,
        extra_parameters: Vec<Prop>,
    ) -> (r: Event)
        ensures
            r@ == (EventV {
                url: url@,
                uid: uid@,
                id: uid@,
                name: name@,
                description: description.deep_view(),
                sync_status: sync_status.deep_view(),
                ical_prod_id: ical_prod_id@,
                creation_date,
                last_modified,
                start,
                end,
                extra_parameters: extra_parameters.deep_view(),
            }),
    {
        let id = ItemId::from_content(uid.clone());
        Event {
            url,
            uid,
            id,
            name,
            description,
            sync_status,
            ical_prod_id,
            creation_date,
            last_modified,
            start,
            end,
            extra_parameters,
        }
    }

    /// The URL the item was fetched from or will be stored at.
    pub fn url(&self) -> (r: &String)
        ensures
            r@ == self@.url,
    {
        &self.url
    }

    /// The persistent unique identifier of the component.
    pub fn uid(&self) -> (r: &str)
        ensures
            r@ == self@.uid,
    {
        self.uid.as_str()
    }

    /// The identifier of the item.
    pub fn id(&self) -> (r: &ItemId)
        ensures
            r@ == self@.id,
    {
        &self.id
    }

    /// The display name of the event.
    pub fn name(&self) -> (r: &str)
        ensures
            r@ == self@.name,
    {
        self.name.as_str()
    }

    /// The description of the event, when the document carried one.
    pub fn description(&self) -> (r: Option<&String>)
        ensures
            r.deep_view() == self@.description,
    {
        self.description.as_ref()
    }

    /// The product identifier of the document the event came from.
    pub fn ical_prod_id(&self) -> (r: &str)
        ensures
            r@ == self@.ical_prod_id,
    {
        self.ical_prod_id.as_str()
    }

    /// The creation instant, when the document carried one.
    pub fn creation_date(&self) -> (r: Option<&DateTime>)
        ensures
            r.deep_view() == self@.creation_date,
    {
        self.creation_date.as_ref()
    }

    /// The instant the event was last revised.
    pub fn last_modified(&self) -> (r: &DateTime)
        ensures
            *r == self@.last_modified,
    {
        &self.last_modified
    }

    /// The instant the event starts.
    pub fn start(&self) -> (r: &DateTime)
        ensures
            *r == self@.start,
    {
        &self.start
    }

    /// The instant the event ends.
    pub fn end_instant(&self) -> (r: &DateTime)
        ensures
            *r == self@.end,
    {
        &self.end
    }

    /// The synchronization status of the event.
    pub fn sync_status(&self) -> (r: &SyncStatus)
        ensures
            r.deep_view() == self@.sync_status,
    {
        &self.sync_status
    }

    /// Replaces the synchronization status.
    pub fn set_sync_status(&mut self, new_status: SyncStatus)
        ensures
            final(self)@ == (EventV { sync_status: new_status.deep_view(), ..old(self)@ }),
    {
        self.sync_status = new_status;
    }

    /// The properties preserved verbatim, in arrival order.
    pub fn extra_parameters(&self) -> (r: &Vec<Prop>)
        ensures
            r.deep_view() == self@.extra_parameters,
    {
        &self.extra_parameters
    }
}

} // verus!
