//! Identifier strings shared by the rest of the data model.
use vstd::prelude::*;

verus! {

/// An identifier: the name of a domain, trigger, or metadata key.
#[derive(Debug, Clone, PartialEq, Eq, Hash)]
pub struct Name {
    /// Textual form of the identifier.
    pub inner: String,
}

impl View for Name {
    type V = Seq<char>;

    open spec fn view(&self) -> Seq<char> {
        self.inner@
    }
}

impl Name {
    /// Construct a name from its textual form.
    pub fn new(inner: String) -> (r: Self)
        ensures
            r@ == inner@,
    {
        Name { inner }
    }
}

} // verus!
