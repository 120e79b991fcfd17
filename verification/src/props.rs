//! The raw shape of a parsed iCalendar document: named properties with
//! optional values and parameters, grouped into components.

use vstd::prelude::*;

verus! {

/// One property line of a component: a name, an optional value, and
/// optional parameters, each parameter a name with a list of values.
#[derive(Debug, PartialEq)]
pub struct Prop {
    pub name: String,
    pub value: Option<String>,
    pub params: Option<Vec<(String, Vec<String>)>>,
}

/// The mathematical shape of a [`Prop`].
pub ghost struct PropV {
    pub name: Seq<char>,
    pub value: Option<Seq<char>>,
    pub params: Option<Seq<(Seq<char>, Seq<Seq<char>>)>>,
}

impl View for Prop {
    type V = PropV;

    open spec fn view(&self) -> PropV {
        PropV { name: self.name.deep_view(), value: self.value.deep_view(), params: self.params.deep_view() }
    }
}

impl DeepView for Prop {
    type V = PropV;

    open spec fn deep_view(&self) -> PropV {
        self.view()
    }
}

/// One parsed calendar document: its own properties and the properties of
/// each component it holds, with journals only counted since none of their
/// content is consumed.
pub struct Doc {
    pub properties: Vec<Prop>,
    pub events: Vec<Vec<Prop>>,
    pub todos: Vec<Vec<Prop>>,
    pub journals: usize,
}

/// The mathematical shape of a [`Doc`].
pub ghost struct DocV {
    pub properties: Seq<PropV>,
    pub events: Seq<Seq<PropV>>,
    pub todos: Seq<Seq<PropV>>,
    pub journals: nat,
}

impl View for Doc {
    type V = DocV;

    open spec fn view(&self) -> DocV {
        DocV {
            properties: self.properties.deep_view(),
            events: self.events.deep_view(),
            todos: self.todos.deep_view(),
            journals: self.journals as nat,
        }
    }
}

impl DeepView for Doc {
    type V = DocV;

    open spec fn deep_view(&self) -> DocV {
        self.view()
    }
}

/// Whether a string slice reads as the given text.
pub fn str_eq(s: &str, t: &str) -> (r: bool)
    ensures
        r == (s@ == t@),
{
    let a: String = s.to_owned();
    let b: String = t.to_owned();
    a == b
}

/// Clones an optional string, keeping its text.
pub fn clone_opt_string(o: &Option<String>) -> (r: Option<String>)
    ensures
        r == *o,
{
    match o {
        Some(s) => Some(s.clone()),
        None => None,
    }
}

fn clone_string_vec(v: &Vec<String>) -> (r: Vec<String>)
    ensures
        r.deep_view() == v.deep_view(),
{
    let mut r: Vec<String> = Vec::new();
    let mut i: usize = 0;
    while i < v.len()
        invariant
            i <= v.len(),
            r@.len() == i,
            forall|j: int| 0 <= j < i ==> r@[j] == v@[j],
        decreases v.len() - i,
    {
        r.push(v[i].clone());
        i = i + 1;
    }
    proof {
        assert(r.deep_view() =~= v.deep_view());
    }
    r
}

fn clone_params(v: &Vec<(String, Vec<String>)>) -> (r: Vec<(String, Vec<String>)>)
    ensures
        r.deep_view() == v.deep_view(),
{
    let mut r: Vec<(String, Vec<String>)> = Vec::new();
    let mut i: usize = 0;
    while i < v.len()
        invariant
            i <= v.len(),
            r@.len() == i,
            forall|j: int| 0 <= j < i ==> #[trigger] r@[j].deep_view() == v@[j].deep_view(),
        decreases v.len() - i,
    {
        let name = v[i].0.clone();
        let values = clone_string_vec(&v[i].1);
        r.push((name, values));
        i = i + 1;
    }
    proof {
        assert(r.deep_view() =~= v.deep_view());
    }
    r
}

impl Clone for Prop {
    /// A clone reads exactly as the original property.
    fn clone(&self) -> (r: Self)
        ensures
            r@ == self@,
    {
        let value = match &self.value {
            Some(s) => Some(s.clone()),
            None => None,
        };
        let params = match &self.params {
            Some(ps) => Some(clone_params(ps)),
            None => None,
        };
        Prop { name: self.name.clone(), value, params }
    }
}

} // verus!
