//! Accounts: the acting identities behind transactions.
use vstd::prelude::*;

use crate::crypto::PublicKey;
use crate::name::Name;

verus! {

/// Identifier of a domain, the namespace an account lives in.
#[derive(Debug, Clone, PartialEq, Eq, Hash)]
pub struct DomainId {
    /// The domain's name.
    pub name: Name,
}

impl View for DomainId {
    type V = Seq<char>;

    open spec fn view(&self) -> Seq<char> {
        self.name@
    }
}

impl DomainId {
    /// Construct a domain id from its name.
    pub fn new(name: Name) -> (r: Self)
        ensures
            r@ == name@,
    {
        DomainId { name }
    }
}

/// Mathematical content of an [`AccountId`].
pub struct AccountIdView {
    /// Bytes of the signing public key.
    pub signatory: Seq<u8>,
    /// Name of the domain the account belongs to.
    pub domain: Seq<char>,
}

/// Identifier of an account: the signing public key together with the domain
/// the account is registered in.
#[derive(Debug, Clone, Hash)]
pub struct AccountId {
    /// Domain the account belongs to.
    pub domain: DomainId,
    /// Public key the account signs with.
    pub signatory: PublicKey,
}

impl View for AccountId {
    type V = AccountIdView;

    open spec fn view(&self) -> AccountIdView {
        AccountIdView { signatory: self.signatory@, domain: self.domain@ }
    }
}

impl PartialEq for AccountId {
    fn eq(&self, other: &AccountId) -> (r: bool)
        ensures
            r == (self@ == other@),
    {
        let r = self.domain.name.inner.eq(&other.domain.name.inner) && self.signatory.eq(
            &other.signatory,
        );
        proof {
            if self@.domain == other@.domain && self@.signatory == other@.signatory {
                assert(self@ == other@);
            }
        }
        r
    }
}

impl Eq for AccountId {

}

impl vstd::std_specs::cmp::PartialEqSpecImpl for AccountId {
    open spec fn obeys_eq_spec() -> bool {
        true
    }

    open spec fn eq_spec(&self, other: &AccountId) -> bool {
        self@ == other@
    }
}

impl AccountId {
    /// The signatory's key bytes have the prescribed length.
    pub open spec fn wf(&self) -> bool {
        self.signatory.wf()
    }

    /// Construct an account id from domain and signatory.
    pub fn new(domain: DomainId, signatory: PublicKey) -> (r: Self)
        ensures
            r@.domain == domain@,
            r@.signatory == signatory@,
    {
        AccountId { domain, signatory }
    }
}

} // verus!
