//! A verified parser for single-component iCalendar documents.
//!
//! The crate turns the text of an iCalendar document holding exactly one
//! to-do or one event into a typed item, preserving every property it does
//! not recognize so the document can later be reproduced without loss.

pub mod datetime;
pub mod event;
pub mod item;
pub mod normalize;
pub mod parser;
pub mod props;
pub mod reader;
pub mod task;

pub use datetime::DateTime;
pub use event::Event;
pub use item::{Item, ItemId, SyncStatus, VersionTag};
pub use parser::{parse, ParseError};
pub use task::{CompletionStatus, Task};
