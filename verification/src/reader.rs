//! The boundary to the outside iCalendar reader: the raw text of a
//! calendar stream becomes plain documents of named properties.

use vstd::prelude::*;

use crate::props::{Doc, DocV, Prop};

verus! {

/// The view of one read document: either its shape or the reader's
/// refusal message.
pub open spec fn doc_result_view(r: Result<Doc, String>) -> Result<DocV, Seq<char>> {
    match r {
        Ok(d) => Ok(d@),
        Err(m) => Err(m@),
    }
}

/// The views of a sequence of read documents.
pub open spec fn docs_view(v: Seq<Result<Doc, String>>) -> Seq<Result<DocV, Seq<char>>> {
    v.map_values(|r: Result<Doc, String>| doc_result_view(r))
}

/// What the outside iCalendar reader yields on a given text: the first
/// documents of the stream, each either parsed or refused with a message.
pub uninterp spec fn ical_docs_of(s: Seq<char>) -> Seq<Result<DocV, Seq<char>>>;

#[verifier::external_type_specification]
#[verifier::external_body]
pub struct ExProperty(ical::property::Property);

#[verifier::external_type_specification]
#[verifier::external_body]
pub struct ExIcalCalendar(ical::parser::ical::component::IcalCalendar);

/// Copies outside property lines into owned plain values.
///
/// Relies on the public fields name, value and params of ical's
/// Property; it only moves them, one property at a time.
#[verifier::external_body]
fn conv_props(ps: &Vec<ical::property::Property>) -> Vec<Prop> {
    ps.iter().map(
        |p| Prop { name: p.name.clone(), value: p.value.clone(), params: p.params.clone() },
    ).collect()
}

/// Copies one outside calendar document into owned plain values.
///
/// Relies on the public fields properties, events, todos and journals of
/// ical's IcalCalendar, IcalEvent and IcalTodo; it only copies the
/// property lists over and counts the journals.
#[verifier::external_body]
fn conv_doc(c: &ical::parser::ical::component::IcalCalendar) -> Doc {
    Doc {
        properties: conv_props(&c.properties),
        events: c.events.iter().map(|e| conv_props(&e.properties)).collect(),
        todos: c.todos.iter().map(|t| conv_props(&t.properties)).collect(),
        journals: c.journals.len(),
    }
}

/// Reads at most the first two top-level documents of an iCalendar text.
///
/// Relies on ical's IcalParser, an iterator over parsed calendar
/// documents: the parse of a text is a function of the text alone, and
/// at most two documents are drawn from the stream.
#[verifier::external_body]
pub fn read_docs(content: &str) -> (r: Vec<Result<Doc, String>>)
    ensures
        docs_view(r@) == ical_docs_of(content@),
        r@.len() <= 2,
{
    ical::IcalParser::new(content.as_bytes()).take(2).map(
        |res| match res {
            Ok(c) => Ok(conv_doc(&c)),
            Err(e) => Err(e.to_string()),
        },
    ).collect()
}

} // verus!
