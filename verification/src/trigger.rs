//! Triggers: identifiers for scheduled and data-driven execution steps.
use vstd::prelude::*;

use crate::name::Name;

verus! {

/// Identifier of a trigger.
#[derive(Debug, Clone, PartialEq, Eq, Hash)]
pub struct TriggerId {
    /// The trigger's name.
    pub name: Name,
}

impl View for TriggerId {
    type V = Seq<char>;

    open spec fn view(&self) -> Seq<char> {
        self.name@
    }
}

impl TriggerId {
    /// Construct a trigger id from its name.
    pub fn new(name: Name) -> (r: Self)
        ensures
            r@ == name@,
    {
        TriggerId { name }
    }

    /// Compare two trigger ids for equality of their names.
    pub fn eq_id(&self, other: &TriggerId) -> (r: bool)
        ensures
            r == (self@ == other@),
    {
        self.name.inner.eq(&other.name.inner)
    }
}

} // verus!
