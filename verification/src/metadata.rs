//! Free-form metadata attached to a transaction payload.
use vstd::prelude::*;

use crate::name::Name;

verus! {

/// Store for additional information: an ordered list of key/value entries.
#[derive(Debug, Clone, PartialEq, Eq)]
pub struct Metadata {
    /// The entries, in insertion order.
    pub entries: Vec<(Name, String)>,
}

impl View for Metadata {
    type V = Seq<(Seq<char>, Seq<char>)>;

    open spec fn view(&self) -> Seq<(Seq<char>, Seq<char>)> {
        self.entries@.map_values(|e: (Name, String)| (e.0@, e.1@))
    }
}

impl Metadata {
    /// Construct metadata from a list of entries.
    pub fn from_entries(entries: Vec<(Name, String)>) -> (r: Self)
        ensures
            r.entries@ == entries@,
    {
        Metadata { entries }
    }

    /// Number of entries.
    pub fn len(&self) -> (r: usize)
        ensures
            r == self@.len(),
    {
        self.entries.len()
    }
}

impl Default for Metadata {
    /// Empty metadata.
    fn default() -> (r: Self)
        ensures
            r@ == Seq::<(Seq<char>, Seq<char>)>::empty(),
    {
        let r = Metadata { entries: Vec::new() };
        proof {
            assert(r@ =~= Seq::<(Seq<char>, Seq<char>)>::empty());
        }
        r
    }
}

} // verus!
