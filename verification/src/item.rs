//! The normalized item model: identifiers, synchronization state, and the
//! tagged union over the two supported item kinds.

use vstd::prelude::*;

use crate::datetime::DateTime;
use crate::event::EventV;
use crate::task::TaskV;

verus! {

/// An opaque token naming a specific remote revision of an item.
#[derive(Clone, Debug, PartialEq, Eq)]
pub struct VersionTag {
    content: String,
}

impl View for VersionTag {
    type V = Seq<char>;

    closed spec fn view(&self) -> Seq<char> {
        self.content@
    }
}

impl DeepView for VersionTag {
    type V = Seq<char>;

    closed spec fn deep_view(&self) -> Seq<char> {
        self.content@
    }
}

impl From<String> for VersionTag {
    fn from(content: String) -> (r: VersionTag) {
        VersionTag { content }
    }
}

impl vstd::std_specs::convert::FromSpecImpl<String> for VersionTag {
    open spec fn obeys_from_spec() -> bool {
        true
    }

    closed spec fn from_spec(content: String) -> VersionTag {
        VersionTag { content }
    }
}

impl VersionTag {
    /// The text of the tag.
    pub fn as_str(&self) -> (r: &str)
        ensures
            r@ == self@,
    {
        self.content.as_str()
    }
}

/// How the local copy of an item relates to the remote store.
#[derive(Clone, Debug, PartialEq, Eq)]
pub enum SyncStatus {
    /// The item was never exchanged with the remote store.
    NotSynced,
    /// The local copy matches the remote revision named by the tag.
    Synced(VersionTag),
}

/// The mathematical shape of a [`SyncStatus`].
pub ghost enum SyncStatusV {
    NotSynced,
    Synced(Seq<char>),
}

impl DeepView for SyncStatus {
    type V = SyncStatusV;

    open spec fn deep_view(&self) -> SyncStatusV {
        match self {
            SyncStatus::NotSynced => SyncStatusV::NotSynced,
            SyncStatus::Synced(tag) => SyncStatusV::Synced(tag@),
        }
    }
}

impl View for SyncStatus {
    type V = SyncStatusV;

    open spec fn view(&self) -> SyncStatusV {
        self.deep_view()
    }
}

/// Whether a character is a lower-case ASCII hexadecimal digit.
pub open spec fn is_lower_hex_digit(c: char) -> bool {
    (48 <= c as u32 <= 57) || (97 <= c as u32 <= 102)
}

/// The text form of a hyphenated UUID: 36 characters, five groups of
/// lower-case hexadecimal digits in the pattern 8-4-4-4-12, separated
/// by hyphens.
pub open spec fn uuid_text_form(s: Seq<char>) -> bool {
    &&& s.len() == 36
    &&& s[8] == '-'
    &&& s[13] == '-'
    &&& s[18] == '-'
    &&& s[23] == '-'
    &&& forall|i: int|
        (0 <= i < 36 && i != 8 && i != 13 && i != 18 && i != 23) ==> is_lower_hex_digit(
            #[trigger] s[i],
        )
}

/// The identifier of an item: an opaque string, unique per item.
#[derive(Clone, Debug, PartialEq, Eq, Hash)]
pub struct ItemId {
    pub(crate) content: String,
}

impl View for ItemId {
    type V = Seq<char>;

    closed spec fn view(&self) -> Seq<char> {
        self.content@
    }
}

impl ItemId {
    /// A freshly generated identifier for an item created locally.
    ///
    /// Relies on uuid's v4 generation and its hyphenated text form: 36
    /// characters, lower-case hexadecimal digits in the pattern
    /// 8-4-4-4-12, separated by hyphens.
    #[verifier::external_body]
    pub fn new() -> (r: Self)
        ensures
            uuid_text_form(r@),
    {
        ItemId { content: uuid::Uuid::new_v4().hyphenated().to_string() }
    }

    /// An identifier carrying the given text.
    pub(crate) fn from_content(content: String) -> (r: Self)
        ensures
            r@ == content@,
    {
        ItemId { content }
    }

    /// The text of the identifier.
    pub fn as_str(&self) -> (r: &str)
        ensures
            r@ == self@,
    {
        self.content.as_str()
    }
}

/// A calendar item: exactly one of an event or a task.
#[derive(Clone, Debug, PartialEq)]
pub enum Item {
    Event(crate::event::Event),
    Task(crate::task::Task),
}

/// The mathematical shape of an [`Item`].
pub ghost enum ItemV {
    Event(EventV),
    Task(TaskV),
}

impl ItemV {
    /// The identifier of the item, whichever kind it is.
    pub open spec fn spec_id(self) -> Seq<char> {
        match self {
            ItemV::Event(e) => e.id,
            ItemV::Task(t) => t.id,
        }
    }

    /// The display name of the item, whichever kind it is.
    pub open spec fn spec_name(self) -> Seq<char> {
        match self {
            ItemV::Event(e) => e.name,
            ItemV::Task(t) => t.name,
        }
    }

    /// The last-modified instant of the item, whichever kind it is.
    pub open spec fn spec_last_modified(self) -> DateTime {
        match self {
            ItemV::Event(e) => e.last_modified,
            ItemV::Task(t) => t.last_modified,
        }
    }

    /// The task inside, for an item that is a task.
    pub open spec fn as_task(self) -> TaskV
        recommends
            self is Task,
    {
        match self {
            ItemV::Task(t) => t,
            ItemV::Event(_) => arbitrary(),
        }
    }
}

impl View for Item {
    type V = ItemV;

    open spec fn view(&self) -> ItemV {
        match self {
            Item::Event(e) => ItemV::Event(e@),
            Item::Task(t) => ItemV::Task(t@),
        }
    }
}

impl Item {
    /// The identifier of the item.
    pub fn id(&self) -> (r: &ItemId)
        ensures
            r@ == self@.spec_id(),
    {
        match self {
            Item::Event(e) => e.id(),
            Item::Task(t) => t.id(),
        }
    }

    /// The display name of the item.
    pub fn name(&self) -> (r: &str)
        ensures
            r@ == self@.spec_name(),
    {
        match self {
            Item::Event(e) => e.name(),
            Item::Task(t) => t.name(),
        }
    }

    /// The last-modified instant of the item.
    pub fn last_modified(&self) -> (r: DateTime)
        ensures
            r == self@.spec_last_modified(),
    {
        match self {
            Item::Event(e) => *e.last_modified(),
            Item::Task(t) => *t.last_modified(),
        }
    }

    /// Whether the item is an event.
    pub fn is_event(&self) -> (r: bool)
        ensures
            r == (self@ is Event),
    {
        match self {
            Item::Event(_) => true,
            _ => false,
        }
    }

    /// Whether the item is a task.
    pub fn is_task(&self) -> (r: bool)
        ensures
            r == (self@ is Task),
    {
        match self {
            Item::Task(_) => true,
            _ => false,
        }
    }

    /// A mutable reference to the inner task, for an item known to be one.
    pub fn unwrap_task_mut(&mut self) -> (t: &mut crate::task::Task)
        requires
            old(self)@ is Task,
        ensures
            (*t)@ == old(self)@.as_task(),
            (*final(self))@ == ItemV::Task((*final(t))@),
    {
        match self {
            Item::Task(t) => t,
            _ => unreached(),
        }
    }

    /// A reference to the inner task, for an item known to be one.
    pub fn unwrap_task(&self) -> (t: &crate::task::Task)
        requires
            self@ is Task,
        ensures
            t@ == self@.as_task(),
    {
        match self {
            Item::Task(t) => t,
            _ => unreached(),
        }
    }
}

} // verus!
