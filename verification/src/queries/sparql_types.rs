//! The parsed form of one SPARQL JSON results document.

use vstd::prelude::*;
use crate::string_map::StringMap;

verus! {

/// One RDF term of a solution row: its term kind (`uri`, `literal`, ...), an
/// optional datatype IRI, and the lexical value.
#[derive(Debug, PartialEq, Eq)]
pub struct Object {
    pub kind: String,
    pub datatype: Option<String>,
    pub value: String,
}

pub ghost struct ObjectView {
    pub kind: Seq<char>,
    pub datatype: Option<Seq<char>>,
    pub value: Seq<char>,
}

impl View for Object {
    type V = ObjectView;

    open spec fn view(&self) -> ObjectView {
        ObjectView {
            kind: self.kind@,
            datatype: match self.datatype {
                Some(d) => Some(d@),
                None => None,
            },
            value: self.value@,
        }
    }
}

impl DeepView for Object {
    type V = ObjectView;

    open spec fn deep_view(&self) -> ObjectView {
        self.view()
    }
}

/// One solution row: a map from bound variable name to its term.
pub type Binding = StringMap<Object>;

/// The abstract value of a solution row.
pub type BindingView = Map<Seq<char>, ObjectView>;

#[derive(Debug, PartialEq, Eq)]
pub struct Head {
    pub vars: Vec<String>,
}

impl View for Head {
    type V = Seq<Seq<char>>;

    open spec fn view(&self) -> Seq<Seq<char>> {
        self.vars.deep_view()
    }
}

#[derive(Debug, PartialEq, Eq)]
pub struct Results {
    pub bindings: Vec<Binding>,
}

impl View for Results {
    type V = Seq<BindingView>;

    open spec fn view(&self) -> Seq<BindingView> {
        self.bindings@.map_values(|b: Binding| b@)
    }
}

#[derive(Debug, PartialEq, Eq)]
pub struct SparqlResponse {
    pub head: Head,
    pub results: Results,
}

pub ghost struct SparqlResponseView {
    pub vars: Seq<Seq<char>>,
    pub bindings: Seq<BindingView>,
}

impl View for SparqlResponse {
    type V = SparqlResponseView;

    open spec fn view(&self) -> SparqlResponseView {
        SparqlResponseView { vars: self.head@, bindings: self.results@ }
    }
}

} // verus!
