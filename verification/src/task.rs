//! Tasks: iCal `VTODO` items.

use vstd::prelude::*;

use crate::datetime::DateTime;
use crate::item::{ItemId, SyncStatus, SyncStatusV};
use crate::props::{Prop, PropV};

verus! {

/// Whether a task is completed, and when, if a completion instant is known.
#[derive(Clone, Copy, Debug, PartialEq, Eq)]
pub enum CompletionStatus {
    Uncompleted,
    Completed(Option<DateTime>),
}

/// A task, with every property it carried that the parser does not
/// recognize preserved verbatim in arrival order.
#[derive(Clone, Debug, PartialEq)]
pub struct Task {
    url: String,
    uid: String,
    id: ItemId,
    name: String,
    completion_status: CompletionStatus,
    sync_status: SyncStatus,
    creation_date: Option<DateTime>,
    last_modified: DateTime,
    ical_prod_id: String,
    extra_parameters: Vec<Prop>,
}

/// The mathematical shape of a [`Task`].
#[verifier::ext_equal]
pub ghost struct TaskV {
    pub url: Seq<char>,
    pub uid: Seq<char>,
    pub id: Seq<char>,
    pub name: Seq<char>,
    pub completion_status: CompletionStatus,
    pub sync_status: SyncStatusV,
    pub creation_date: Option<DateTime>,
    pub last_modified: DateTime,
    pub ical_prod_id: Seq<char>,
    pub extra_parameters: Seq<PropV>,
}

impl View for Task {
    type V = TaskV;

    closed spec fn view(&self) -> TaskV {
        TaskV {
            url: self.url@,
            uid: self.uid@,
            id: self.id@,
            name: self.name@,
            completion_status: self.completion_status,
            sync_status: self.sync_status.deep_view(),
            creation_date: self.creation_date,
            last_modified: self.last_modified,
            ical_prod_id: self.ical_prod_id@,
            extra_parameters: self.extra_parameters.deep_view(),
        }
    }
}

impl Task {
    /// Assembles a task from already-normalized parts; the item identifier
    /// is the UID.
    pub fn new_with_parameters(
        name: String,
        uid: String,
        url: String,
        completion_status: CompletionStatus,
        sync_status: SyncStatus,
        creation_date: Option<DateTime>,
        last_modified: DateTime,
        ical_prod_id: String,
        extra_parameters: Vec<Prop>,
    ) -> (r: Task)
        ensures
            r@ == (TaskV {
                url: url@,
                uid: uid@,
                id: uid@,
                name: name@,
                completion_status,
                sync_status: sync_status.deep_view(),
                creation_date,
                last_modified,
                ical_prod_id: ical_prod_id@,
                extra_parameters: extra_parameters.deep_view(),
            }),
    {
        let id = ItemId::from_content(uid.clone());
        Task {
            url,
            uid,
            id,
            name,
            completion_status,
            sync_status,
            creation_date,
            last_modified,
            ical_prod_id,
            extra_parameters,
        }
    }

    /// The URL the item was fetched from or will be stored at.
    pub fn url(&self) -> (r: &String)
        ensures
            r@ == self@.url,
    {
        &self.url
    }

    /// The persistent unique identifier of the component.
    pub fn uid(&self) -> (r: &str)
        ensures
            r@ == self@.uid,
    {
        self.uid.as_str()
    }

    /// The identifier of the item.
    pub fn id(&self) -> (r: &ItemId)
        ensures
            r@ == self@.id,
    {
        &self.id
    }

    /// The display name of the task.
    pub fn name(&self) -> (r: &str)
        ensures
            r@ == self@.name,
    {
        self.name.as_str()
    }

    /// Whether the task is completed.
    pub fn completed(&self) -> (r: bool)
        ensures
            r == (self@.completion_status is Completed),
    {
        match self.completion_status {
            CompletionStatus::Completed(_) => true,
            CompletionStatus::Uncompleted => false,
        }
    }

    /// The completion status of the task.
    pub fn completion_status(&self) -> (r: &CompletionStatus)
        ensures
            *r == self@.completion_status,
    {
        &self.completion_status
    }

    /// The synchronization status of the task.
    pub fn sync_status(&self) -> (r: &SyncStatus)
        ensures
            r.deep_view() == self@.sync_status,
    {
        &self.sync_status
    }

    /// Replaces the synchronization status.
    pub fn set_sync_status(&mut self, new_status: SyncStatus)
        ensures
            final(self)@ == (TaskV { sync_status: new_status.deep_view(), ..old(self)@ }),
    {
        self.sync_status = new_status;
    }

    /// The product identifier of the document the task came from.
    pub fn ical_prod_id(&self) -> (r: &str)
        ensures
            r@ == self@.ical_prod_id,
    {
        self.ical_prod_id.as_str()
    }

    /// The creation instant, when the document carried one.
    pub fn creation_date(&self) -> (r: Option<&DateTime>)
        ensures
            r.deep_view() == self@.creation_date,
    {
        self.creation_date.as_ref()
    }

    /// The instant the task was last revised.
    pub fn last_modified(&self) -> (r: &DateTime)
        ensures
            *r == self@.last_modified,
    {
        &self.last_modified
    }

    /// The properties preserved verbatim, in arrival order.
    pub fn extra_parameters(&self) -> (r: &Vec<Prop>)
        ensures
            r.deep_view() == self@.extra_parameters,
    {
        &self.extra_parameters
    }
}

} // verus!
