//! Identifiers of chain objects as the indexer stores them.
use vstd::prelude::*;

verus! {

/// An identifier: an account by its encoded address, or a transaction by
/// its hash.
#[derive(Debug)]
pub enum Id {
    Account(String),
    Hash(String),
}

/// What an [`Id`] denotes: its kind and its text.
pub enum IdView {
    Account(Seq<char>),
    Hash(Seq<char>),
}

impl View for Id {
    type V = IdView;

    open spec fn view(&self) -> IdView {
        match self {
            Id::Account(s) => IdView::Account(s@),
            Id::Hash(s) => IdView::Hash(s@),
        }
    }
}

impl Clone for Id {
    fn clone(&self) -> (r: Id)
        ensures
            r == *self,
    {
        match self {
            Id::Account(s) => Id::Account(s.clone()),
            Id::Hash(s) => Id::Hash(s.clone()),
        }
    }
}

impl PartialEq for Id {
    fn eq(&self, other: &Id) -> (r: bool) {
        match (self, other) {
            (Id::Account(a), Id::Account(b)) => *a == *b,
            (Id::Hash(a), Id::Hash(b)) => *a == *b,
            _ => false,
        }
    }
}

impl vstd::std_specs::cmp::PartialEqSpecImpl for Id {
    open spec fn obeys_eq_spec() -> bool {
        true
    }

    open spec fn eq_spec(&self, other: &Id) -> bool {
        self@ == other@
    }
}

impl Eq for Id {
}

} // verus!
