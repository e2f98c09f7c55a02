//! Atomic predicates over the queryable types, and the compound predicates
//! built from them.
//!
//! The query layer that dispatches predicates over committed history is an
//! external collaborator; fixed here are the atoms' shapes and their exact
//! evaluation semantics on this crate's types.
use vstd::prelude::*;

use crate::crypto::HashOf;
use crate::name::Name;
use crate::transaction::StepView;
use crate::transaction::TransactionEntrypoint;
use crate::transaction::TransactionResult;
use crate::trigger::TriggerId;
use vstd::string::StrSliceExecFns;

verus! {

/// Whether `needle` occurs at the start of `haystack`.
pub open spec fn starts_with_seq(haystack: Seq<char>, needle: Seq<char>) -> bool {
    needle.len() <= haystack.len() && haystack.subrange(0, needle.len() as int) == needle
}

/// Whether `needle` occurs at the end of `haystack`.
pub open spec fn ends_with_seq(haystack: Seq<char>, needle: Seq<char>) -> bool {
    needle.len() <= haystack.len() && haystack.subrange(
        haystack.len() - needle.len(),
        haystack.len() as int,
    ) == needle
}

/// Whether `needle` occurs in `haystack` at position `i`.
pub open spec fn matches_at(haystack: Seq<char>, needle: Seq<char>, i: int) -> bool {
    0 <= i && i + needle.len() <= haystack.len() && haystack.subrange(i, i + needle.len())
        == needle
}

/// Whether `needle` occurs anywhere in `haystack`.
pub open spec fn contains_seq(haystack: Seq<char>, needle: Seq<char>) -> bool {
    exists|i: int| matches_at(haystack, needle, i)
}

/// Whether `needle` occurs in `haystack` at position `i`.
fn match_at(input: &str, pat: &str, i: usize) -> (r: bool)
    requires
        i + pat@.len() <= input@.len(),
    ensures
        r == matches_at(input@, pat@, i as int),
{
    let n = input.unicode_len();
    let m = pat.unicode_len();
    let mut j: usize = 0;
    while j < m
        invariant
            n == input@.len(),
            m == pat@.len(),
            i + m <= n,
            j <= m,
            forall|t: int| 0 <= t < j ==> input@[i + t] == pat@[t],
        decreases m - j,
    {
        if input.get_char(i + j) != pat.get_char(j) {
            proof {
                assert(input@.subrange(i as int, i + m)[j as int] == input@[i + j]);
            }
            return false;
        }
        j = j + 1;
    }
    proof {
        assert(input@.subrange(i as int, i + m) =~= pat@);
    }
    true
}

/// Whether the string equals the pattern, like `==` on strings.
pub fn str_eq(input: &str, pat: &str) -> (r: bool)
    ensures
        r == (input@ == pat@),
{
    let n = input.unicode_len();
    let m = pat.unicode_len();
    if n != m {
        return false;
    }
    let r = match_at(input, pat, 0);
    proof {
        assert(input@.subrange(0, input@.len() as int) =~= input@);
    }
    r
}

/// Whether the string starts with the pattern, like `str::starts_with`.
pub fn str_starts_with(input: &str, pat: &str) -> (r: bool)
    ensures
        r == starts_with_seq(input@, pat@),
{
    let n = input.unicode_len();
    let m = pat.unicode_len();
    if m > n {
        return false;
    }
    match_at(input, pat, 0)
}

/// Whether the string ends with the pattern, like `str::ends_with`.
pub fn str_ends_with(input: &str, pat: &str) -> (r: bool)
    ensures
        r == ends_with_seq(input@, pat@),
{
    let n = input.unicode_len();
    let m = pat.unicode_len();
    if m > n {
        return false;
    }
    match_at(input, pat, n - m)
}

/// Whether the string contains the pattern, like `str::contains`.
pub fn str_contains(input: &str, pat: &str) -> (r: bool)
    ensures
        r == contains_seq(input@, pat@),
{
    let n = input.unicode_len();
    let m = pat.unicode_len();
    if m > n {
        proof {
            assert forall|i: int| !matches_at(input@, pat@, i) by {}
        }
        return false;
    }
    let mut i: usize = 0;
    while i <= n - m
        invariant
            n == input@.len(),
            m == pat@.len(),
            m <= n,
            i <= n - m + 1,
            forall|t: int| 0 <= t < i ==> !matches_at(input@, pat@, t),
        decreases n + 1 - m - i,
    {
        if match_at(input, pat, i) {
            return true;
        }
        proof {
            if m == 0 {
                assert(input@.subrange(i as int, i as int) =~= pat@);
            }
        }
        i = i + 1;
    }
    proof {
        assert forall|t: int| !matches_at(input@, pat@, t) by {
            if 0 <= t <= n - m {
                assert(!matches_at(input@, pat@, t));
            }
        }
    }
    false
}

/// An atomic predicate on a string or a name.
#[derive(Debug, Clone, PartialEq, Eq)]
pub enum StringPredicateAtom {
    /// Checks if the input is equal to the expected value.
    Equals(String),
    /// Checks if the input contains an expected substring, like
    /// `str::contains`.
    Contains(String),
    /// Checks if the input starts with an expected substring, like
    /// `str::starts_with`.
    StartsWith(String),
    /// Checks if the input ends with an expected substring, like
    /// `str::ends_with`.
    EndsWith(String),
}

/// What a string atom means on a given input.
pub open spec fn str_atom_sat(a: StringPredicateAtom, input: Seq<char>) -> bool {
    match a {
        StringPredicateAtom::Equals(content) => input == content@,
        StringPredicateAtom::Contains(content) => contains_seq(input, content@),
        StringPredicateAtom::StartsWith(content) => starts_with_seq(input, content@),
        StringPredicateAtom::EndsWith(content) => ends_with_seq(input, content@),
    }
}

impl StringPredicateAtom {
    /// Evaluate this atom on a string slice.
    pub fn applies_to_str(&self, input: &str) -> (r: bool)
        ensures
            r == str_atom_sat(*self, input@),
    {
        match self {
            StringPredicateAtom::Equals(content) => str_eq(input, content.as_str()),
            StringPredicateAtom::Contains(content) => str_contains(input, content.as_str()),
            StringPredicateAtom::StartsWith(content) => str_starts_with(input, content.as_str()),
            StringPredicateAtom::EndsWith(content) => str_ends_with(input, content.as_str()),
        }
    }

    /// Evaluate this atom on an owned string.
    pub fn applies(&self, input: &String) -> (r: bool)
        ensures
            r == str_atom_sat(*self, input@),
    {
        self.applies_to_str(input.as_str())
    }

    /// Evaluate this atom on a name.
    pub fn applies_to_name(&self, input: &Name) -> (r: bool)
        ensures
            r == str_atom_sat(*self, input@),
    {
        self.applies_to_str(input.inner.as_str())
    }
}

/// A compound predicate over strings: atoms combined with conjunction,
/// disjunction and negation.
#[derive(Debug, PartialEq, Eq)]
pub enum CompoundPredicate {
    /// A single atomic predicate.
    Atom(StringPredicateAtom),
    /// Both predicates must hold.
    And(Box<CompoundPredicate>, Box<CompoundPredicate>),
    /// At least one predicate must hold.
    Or(Box<CompoundPredicate>, Box<CompoundPredicate>),
    /// The predicate must not hold.
    Not(Box<CompoundPredicate>),
}

/// What a compound predicate means on a given input.
pub open spec fn compound_sat(p: CompoundPredicate, input: Seq<char>) -> bool
    decreases p,
{
    match p {
        CompoundPredicate::Atom(a) => str_atom_sat(a, input),
        CompoundPredicate::And(l, r) => compound_sat(*l, input) && compound_sat(*r, input),
        CompoundPredicate::Or(l, r) => compound_sat(*l, input) || compound_sat(*r, input),
        CompoundPredicate::Not(inner) => !compound_sat(*inner, input),
    }
}

impl CompoundPredicate {
    /// Evaluate this predicate on a string slice.
    pub fn applies_to_str(&self, input: &str) -> (r: bool)
        ensures
            r == compound_sat(*self, input@),
        decreases *self,
    {
        match self {
            CompoundPredicate::Atom(a) => a.applies_to_str(input),
            CompoundPredicate::And(l, r) => l.applies_to_str(input) && r.applies_to_str(input),
            CompoundPredicate::Or(l, r) => l.applies_to_str(input) || r.applies_to_str(input),
            CompoundPredicate::Not(inner) => !inner.applies_to_str(input),
        }
    }
}

/// Builder for predicates on strings.
#[derive(Debug, Clone, PartialEq, Eq)]
pub struct StringPrototype {
}

impl StringPrototype {
    /// Checks if the input is equal to the expected value.
    pub fn eq(self, expected: String) -> (r: CompoundPredicate)
        ensures
            r == (CompoundPredicate::Atom(StringPredicateAtom::Equals(expected))),
    {
        CompoundPredicate::Atom(StringPredicateAtom::Equals(expected))
    }

    /// Checks if the input contains an expected substring, like
    /// `str::contains`.
    pub fn contains(self, expected: String) -> (r: CompoundPredicate)
        ensures
            r == (CompoundPredicate::Atom(StringPredicateAtom::Contains(expected))),
    {
        CompoundPredicate::Atom(StringPredicateAtom::Contains(expected))
    }

    /// Checks if the input starts with an expected substring, like
    /// `str::starts_with`.
    pub fn starts_with(self, expected: String) -> (r: CompoundPredicate)
        ensures
            r == (CompoundPredicate::Atom(StringPredicateAtom::StartsWith(expected))),
    {
        CompoundPredicate::Atom(StringPredicateAtom::StartsWith(expected))
    }

    /// Checks if the input ends with an expected substring, like
    /// `str::ends_with`.
    pub fn ends_with(self, expected: String) -> (r: CompoundPredicate)
        ensures
            r == (CompoundPredicate::Atom(StringPredicateAtom::EndsWith(expected))),
    {
        CompoundPredicate::Atom(StringPredicateAtom::EndsWith(expected))
    }
}

/// Builder for predicates on names.
#[derive(Debug, Clone, PartialEq, Eq)]
pub struct NamePrototype {
}

impl NamePrototype {
    /// Checks if the input is equal to the expected value.
    pub fn eq(self, expected: String) -> (r: CompoundPredicate)
        ensures
            r == (CompoundPredicate::Atom(StringPredicateAtom::Equals(expected))),
    {
        CompoundPredicate::Atom(StringPredicateAtom::Equals(expected))
    }

    /// Checks if the input contains an expected substring, like
    /// `str::contains`.
    pub fn contains(self, expected: String) -> (r: CompoundPredicate)
        ensures
            r == (CompoundPredicate::Atom(StringPredicateAtom::Contains(expected))),
    {
        CompoundPredicate::Atom(StringPredicateAtom::Contains(expected))
    }

    /// Checks if the input starts with an expected substring, like
    /// `str::starts_with`.
    pub fn starts_with(self, expected: String) -> (r: CompoundPredicate)
        ensures
            r == (CompoundPredicate::Atom(StringPredicateAtom::StartsWith(expected))),
    {
        CompoundPredicate::Atom(StringPredicateAtom::StartsWith(expected))
    }

    /// Checks if the input ends with an expected substring, like
    /// `str::ends_with`.
    pub fn ends_with(self, expected: String) -> (r: CompoundPredicate)
        ensures
            r == (CompoundPredicate::Atom(StringPredicateAtom::EndsWith(expected))),
    {
        CompoundPredicate::Atom(StringPredicateAtom::EndsWith(expected))
    }
}

/// An atomic predicate on a transaction entrypoint.
#[derive(Debug, Clone, PartialEq, Eq)]
pub enum TransactionEntrypointPredicateAtom {
    /// Holds when the entrypoint is an externally submitted user request.
    IsExternal,
}

impl TransactionEntrypointPredicateAtom {
    /// Evaluate this atom on an entrypoint.
    pub fn applies(&self, input: &TransactionEntrypoint) -> (r: bool)
        ensures
            r == match *self {
                TransactionEntrypointPredicateAtom::IsExternal => input@ is External,
            },
    {
        match self {
            TransactionEntrypointPredicateAtom::IsExternal => match input {
                TransactionEntrypoint::External(_) => true,
                TransactionEntrypoint::Time(_) => false,
            },
        }
    }
}

/// An atomic predicate on an entrypoint hash.
#[derive(Debug, Clone, PartialEq, Eq)]
pub enum TransactionEntrypointHashPredicateAtom {
    /// Holds when the entrypoint hash equals the expected hash.
    Equals(HashOf<TransactionEntrypoint>),
}

impl TransactionEntrypointHashPredicateAtom {
    /// Evaluate this atom on an entrypoint hash.
    pub fn applies(&self, input: &HashOf<TransactionEntrypoint>) -> (r: bool)
        ensures
            r == match *self {
                TransactionEntrypointHashPredicateAtom::Equals(expected) => input@ == expected@,
            },
    {
        match self {
            TransactionEntrypointHashPredicateAtom::Equals(expected) => input.eq(expected),
        }
    }
}

/// An atomic predicate on a result hash.
#[derive(Debug, Clone, PartialEq, Eq)]
pub enum TransactionResultHashPredicateAtom {
    /// Holds when the result hash equals the expected hash.
    Equals(HashOf<TransactionResult>),
}

impl TransactionResultHashPredicateAtom {
    /// Evaluate this atom on a result hash.
    pub fn applies(&self, input: &HashOf<TransactionResult>) -> (r: bool)
        ensures
            r == match *self {
                TransactionResultHashPredicateAtom::Equals(expected) => input@ == expected@,
            },
    {
        match self {
            TransactionResultHashPredicateAtom::Equals(expected) => input.eq(expected),
        }
    }
}

/// An atomic predicate on a transaction result.
#[derive(Debug, Clone, PartialEq, Eq)]
pub enum TransactionResultPredicateAtom {
    /// Holds when the transaction succeeded.
    IsOk,
    /// Holds when the transaction succeeded and its step sequence includes a
    /// data trigger with the expected id.
    ContainsDataTrigger(TriggerId),
}

/// What a result atom means on a given result.
pub open spec fn result_atom_sat(
    a: TransactionResultPredicateAtom,
    v: Result<Seq<StepView>, crate::error::ReasonView>,
) -> bool {
    match a {
        TransactionResultPredicateAtom::IsOk => v is Ok,
        TransactionResultPredicateAtom::ContainsDataTrigger(expected) => v matches Ok(steps)
            && exists|i: int| 0 <= i < steps.len() && (#[trigger] steps[i]).id == expected@,
    }
}

impl TransactionResultPredicateAtom {
    /// Evaluate this atom on a result.
    pub fn applies(&self, input: &TransactionResult) -> (r: bool)
        ensures
            r == result_atom_sat(*self, input@),
    {
        match self {
            TransactionResultPredicateAtom::IsOk => input.is_ok(),
            TransactionResultPredicateAtom::ContainsDataTrigger(expected) => match &input.0 {
                Ok(steps) => {
                    let n = steps.len();
                    let ghost stepviews = input@->Ok_0;
                    for k in 0..n
                        invariant
                            *self == TransactionResultPredicateAtom::ContainsDataTrigger(
                                *expected,
                            ),
                            input.0 is Ok,
                            steps@ == input.0->Ok_0@,
                            n == steps@.len(),
                            stepviews == steps@.map_values(|s: crate::transaction::DataTriggerStep| s@),
                            forall|j: int| 0 <= j < k ==> (#[trigger] stepviews[j]).id != expected@,
                    {
                        if steps[k].id.eq_id(expected) {
                            proof {
                                assert(stepviews[k as int] == steps@[k as int]@);
                                assert(stepviews.len() == steps@.len());
                                assert(0 <= k < stepviews.len());
                                assert(stepviews[k as int].id == expected@);
                                assert(exists|i: int|
                                    0 <= i < stepviews.len() && (#[trigger] stepviews[i]).id
                                        == expected@);
                                assert(input@ matches Ok(sv) && sv == stepviews);
                                assert(result_atom_sat(*self, input@));
                            }
                            return true;
                        }
                        proof {
                            assert(stepviews[k as int] == steps@[k as int]@);
                        }
                    }
                    false
                },
                Err(_) => false,
            },
        }
    }
}

} // verus!
