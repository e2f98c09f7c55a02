//! Model of the external cryptographic primitives: hashes, key pairs and
//! signatures, together with the typed hash wrapper that separates hash
//! domains.
//!
//! The primitives themselves (SHA-256 digests, Ed25519 signatures) are
//! external collaborators reached through trusted wrappers; their results are
//! named by uninterpreted spec functions so that contracts elsewhere can pin
//! outcomes down to deterministic functions of the inputs.
use core::marker::PhantomData;
use ed25519_dalek::Signer;
use ed25519_dalek::Verifier;
use sha2::Digest;
use vstd::prelude::*;

verus! {

/// Number of bytes in a hash value.
pub const HASH_LENGTH: usize = 32;

/// Number of bytes in a public key.
pub const PUBLIC_KEY_LENGTH: usize = 32;

/// Number of bytes in a private key.
pub const PRIVATE_KEY_LENGTH: usize = 32;

/// Number of bytes in a signature.
pub const SIGNATURE_LENGTH: usize = 64;

/// The digest that the external hash primitive assigns to a byte string.
/// Deterministic: a function of the input bytes alone.
pub uninterp spec fn digest_of(data: Seq<u8>) -> Seq<u8>;

/// The signature that the external signature primitive produces for a
/// private key and a message. Deterministic: a function of key and message.
pub uninterp spec fn sig_of(key: Seq<u8>, msg: Seq<u8>) -> Seq<u8>;

/// The public key derived from a private key by the external signature
/// primitive.
pub uninterp spec fn pk_of(key: Seq<u8>) -> Seq<u8>;

/// Whether the external signature primitive accepts `sig` as a signature on
/// `msg` under the public key `pk`.
pub uninterp spec fn sig_valid(pk: Seq<u8>, msg: Seq<u8>, sig: Seq<u8>) -> bool;

/// Verification failures reported by the external signature primitive.
#[verifier::external_type_specification]
#[verifier::external_body]
pub struct ExSignatureError(ed25519_dalek::SignatureError);

/// Relies on sha2's SHA-256: a 32-byte digest that depends on the input
/// bytes alone.
#[verifier::external_body]
pub(crate) fn sha256_digest(data: &[u8]) -> (r: Vec<u8>)
    ensures
        r@ == digest_of(data@),
        r@.len() == HASH_LENGTH,
{
    sha2::Sha256::digest(data).to_vec()
}

/// Relies on ed25519-dalek's `SigningKey::sign`: deterministic (RFC 8032)
/// and accepted by `verify` under the key's own public key.
#[verifier::external_body]
pub(crate) fn ed25519_sign(key: &[u8], msg: &[u8]) -> (r: Vec<u8>)
    requires
        key@.len() == PRIVATE_KEY_LENGTH,
    ensures
        r@ == sig_of(key@, msg@),
        r@.len() == SIGNATURE_LENGTH,
        sig_valid(pk_of(key@), msg@, r@),
{
    let bytes: [u8; 32] = key.try_into().unwrap();
    let signing = ed25519_dalek::SigningKey::from_bytes(&bytes);
    signing.sign(msg).to_bytes().to_vec()
}

/// Relies on ed25519-dalek's `SigningKey::verifying_key`: the public key is
/// derived from the private key alone.
#[verifier::external_body]
pub(crate) fn ed25519_public_key(key: &[u8]) -> (r: Vec<u8>)
    requires
        key@.len() == PRIVATE_KEY_LENGTH,
    ensures
        r@ == pk_of(key@),
        r@.len() == PUBLIC_KEY_LENGTH,
{
    let bytes: [u8; 32] = key.try_into().unwrap();
    let signing = ed25519_dalek::SigningKey::from_bytes(&bytes);
    signing.verifying_key().to_bytes().to_vec()
}

/// Relies on ed25519-dalek's `VerifyingKey::verify`: deterministic in public
/// key, message and signature; rejects byte strings that are no valid public
/// key.
#[verifier::external_body]
pub(crate) fn ed25519_verify(pk: &[u8], msg: &[u8], sig: &[u8]) -> (r: Result<
    (),
    ed25519_dalek::SignatureError,
>)
    requires
        pk@.len() == PUBLIC_KEY_LENGTH,
        sig@.len() == SIGNATURE_LENGTH,
    ensures
        r is Ok <==> sig_valid(pk@, msg@, sig@),
{
    let pk_bytes: [u8; 32] = pk.try_into().unwrap();
    let vk = match ed25519_dalek::VerifyingKey::from_bytes(&pk_bytes) {
        Ok(vk) => vk,
        Err(e) => return Err(e),
    };
    let sig_bytes: [u8; 64] = sig.try_into().unwrap();
    let signature = ed25519_dalek::Signature::from_bytes(&sig_bytes);
    vk.verify(msg, &signature)
}

/// Errors of the cryptographic layer.
#[derive(Debug, Clone, PartialEq, Eq, Structural)]
pub enum Error {
    /// Signature verification failed: the signature was not produced over
    /// this exact message with the private key matching the public key.
    Verification,
}

/// A public key of the external signature primitive, as plain bytes.
#[derive(Debug, Hash)]
pub struct PublicKey {
    /// Raw key bytes.
    pub payload: Vec<u8>,
}

impl View for PublicKey {
    type V = Seq<u8>;

    open spec fn view(&self) -> Seq<u8> {
        self.payload@
    }
}

impl PublicKey {
    /// Key bytes have the length the primitive prescribes.
    pub open spec fn wf(&self) -> bool {
        self@.len() == PUBLIC_KEY_LENGTH
    }

    /// Construct a public key from raw bytes; `None` if the length is wrong.
    pub fn from_bytes(payload: Vec<u8>) -> (r: Option<Self>)
        ensures
            match r {
                Some(pk) => pk@ == payload@ && pk.wf(),
                None => payload@.len() != PUBLIC_KEY_LENGTH,
            },
    {
        if payload.len() == PUBLIC_KEY_LENGTH {
            Some(PublicKey { payload })
        } else {
            None
        }
    }
}

impl PartialEq for PublicKey {
    fn eq(&self, other: &PublicKey) -> (r: bool)
        ensures
            r == (self@ == other@),
    {
        bytes_eq(&self.payload, &other.payload)
    }
}

impl Eq for PublicKey {

}

impl vstd::std_specs::cmp::PartialEqSpecImpl for PublicKey {
    open spec fn obeys_eq_spec() -> bool {
        true
    }

    open spec fn eq_spec(&self, other: &PublicKey) -> bool {
        self@ == other@
    }
}

/// A private key of the external signature primitive, as plain bytes.
#[derive(Debug)]
pub struct PrivateKey {
    /// Raw key bytes.
    pub payload: Vec<u8>,
}

impl View for PrivateKey {
    type V = Seq<u8>;

    open spec fn view(&self) -> Seq<u8> {
        self.payload@
    }
}

impl PrivateKey {
    /// Key bytes have the length the primitive prescribes.
    pub open spec fn wf(&self) -> bool {
        self@.len() == PRIVATE_KEY_LENGTH
    }

    /// Construct a private key from raw bytes; `None` if the length is wrong.
    pub fn from_bytes(payload: Vec<u8>) -> (r: Option<Self>)
        ensures
            match r {
                Some(sk) => sk@ == payload@ && sk.wf(),
                None => payload@.len() != PRIVATE_KEY_LENGTH,
            },
    {
        if payload.len() == PRIVATE_KEY_LENGTH {
            Some(PrivateKey { payload })
        } else {
            None
        }
    }

    /// The public key belonging to this private key.
    pub fn public_key(&self) -> (r: PublicKey)
        requires
            self.wf(),
        ensures
            r@ == pk_of(self@),
            r.wf(),
    {
        PublicKey { payload: ed25519_public_key(self.payload.as_slice()) }
    }
}

/// An untyped hash value: the raw digest bytes.
#[derive(Debug, Hash)]
pub struct Hash {
    /// Raw digest bytes.
    pub payload: Vec<u8>,
}

impl View for Hash {
    type V = Seq<u8>;

    open spec fn view(&self) -> Seq<u8> {
        self.payload@
    }
}

impl Hash {
    /// Digest bytes have the length the primitive prescribes.
    pub open spec fn wf(&self) -> bool {
        self@.len() == HASH_LENGTH
    }

    /// Hash a byte string with the external hash primitive.
    pub fn digest(data: &[u8]) -> (r: Self)
        ensures
            r@ == digest_of(data@),
            r.wf(),
    {
        Hash { payload: sha256_digest(data) }
    }
}

impl PartialEq for Hash {
    fn eq(&self, other: &Hash) -> (r: bool)
        ensures
            r == (self@ == other@),
    {
        bytes_eq(&self.payload, &other.payload)
    }
}

impl Eq for Hash {

}

impl vstd::std_specs::cmp::PartialEqSpecImpl for Hash {
    open spec fn obeys_eq_spec() -> bool {
        true
    }

    open spec fn eq_spec(&self, other: &Hash) -> bool {
        self@ == other@
    }
}

/// Copy a byte vector.
pub(crate) fn copy_bytes(v: &Vec<u8>) -> (r: Vec<u8>)
    ensures
        r@ == v@,
{
    let mut r: Vec<u8> = Vec::new();
    let n = v.len();
    for i in 0..n
        invariant
            n == v@.len(),
            r@ == v@.subrange(0, i as int),
    {
        r.push(v[i]);
        proof {
            assert(r@ =~= v@.subrange(0, i + 1));
        }
    }
    proof {
        assert(v@.subrange(0, v@.len() as int) =~= v@);
    }
    r
}

/// Compare two byte vectors for equality of their contents.
pub(crate) fn bytes_eq(a: &Vec<u8>, b: &Vec<u8>) -> (r: bool)
    ensures
        r == (a@ == b@),
{
    if a.len() != b.len() {
        return false;
    }
    let n = a.len();
    for i in 0..n
        invariant
            n == a@.len() == b@.len(),
            forall|j: int| 0 <= j < i ==> a@[j] == b@[j],
    {
        if a[i] != b[i] {
            return false;
        }
    }
    proof {
        assert(a@ =~= b@);
    }
    true
}

/// A hash typed by the entity it was computed over. The byte value is that of
/// the untyped [`Hash`]; the type parameter only separates hash domains, so
/// that a hash of one kind of entity cannot be confused with the equal bytes
/// hashed from an unrelated kind.
#[derive(Debug, Hash)]
pub struct HashOf<T> {
    /// The underlying untyped hash value.
    pub hash: Hash,
    /// Domain tag; carries no data.
    pub tag: PhantomData<T>,
}

impl<T> View for HashOf<T> {
    type V = Seq<u8>;

    open spec fn view(&self) -> Seq<u8> {
        self.hash@
    }
}

impl<T> HashOf<T> {
    /// Digest bytes have the length the primitive prescribes.
    pub open spec fn wf(&self) -> bool {
        self.hash.wf()
    }

    /// Adopt an untyped hash value into this hash domain without recomputing
    /// it. This is the one deliberate, named crossing between domains.
    pub fn from_untyped_unchecked(hash: Hash) -> (r: Self)
        ensures
            r@ == hash@,
    {
        HashOf { hash, tag: PhantomData }
    }

    /// The untyped digest bytes behind this typed hash.
    pub fn as_untyped(&self) -> (r: &Hash)
        ensures
            r@ == self@,
    {
        &self.hash
    }
}

impl<T> Clone for HashOf<T> {
    fn clone(&self) -> (r: Self)
        ensures
            r@ == self@,
    {
        HashOf { hash: self.hash.clone(), tag: PhantomData }
    }
}

impl<T> PartialEq for HashOf<T> {
    fn eq(&self, other: &HashOf<T>) -> (r: bool)
        ensures
            r == (self@ == other@),
    {
        bytes_eq(&self.hash.payload, &other.hash.payload)
    }
}

impl<T> Eq for HashOf<T> {

}

impl<T> vstd::std_specs::cmp::PartialEqSpecImpl for HashOf<T> {
    open spec fn obeys_eq_spec() -> bool {
        true
    }

    open spec fn eq_spec(&self, other: &HashOf<T>) -> bool {
        self@ == other@
    }
}

/// A signature produced by the external signature primitive, as plain bytes.
#[derive(Debug, Hash)]
pub struct Signature {
    /// Raw signature bytes.
    pub payload: Vec<u8>,
}

impl View for Signature {
    type V = Seq<u8>;

    open spec fn view(&self) -> Seq<u8> {
        self.payload@
    }
}

impl Signature {
    /// Signature bytes have the length the primitive prescribes.
    pub open spec fn wf(&self) -> bool {
        self@.len() == SIGNATURE_LENGTH
    }

    /// Sign a message with a private key.
    pub fn sign(key: &PrivateKey, msg: &[u8]) -> (r: Self)
        requires
            key.wf(),
        ensures
            r@ == sig_of(key@, msg@),
            r.wf(),
            sig_valid(pk_of(key@), msg@, r@),
    {
        Signature { payload: ed25519_sign(key.payload.as_slice(), msg) }
    }

    /// Check this signature against a public key and a message.
    ///
    /// Succeeds exactly when the external primitive accepts the signature on
    /// this message under this key; byte strings of the wrong length are
    /// never accepted.
    pub fn verify(&self, pk: &PublicKey, msg: &[u8]) -> (r: Result<(), Error>)
        ensures
            r is Ok <==> (pk.wf() && self.wf() && sig_valid(pk@, msg@, self@)),
    {
        if pk.payload.len() != PUBLIC_KEY_LENGTH || self.payload.len() != SIGNATURE_LENGTH {
            return Err(Error::Verification);
        }
        match ed25519_verify(pk.payload.as_slice(), msg, self.payload.as_slice()) {
            Ok(()) => Ok(()),
            Err(_) => Err(Error::Verification),
        }
    }
}

impl PartialEq for Signature {
    fn eq(&self, other: &Signature) -> (r: bool)
        ensures
            r == (self@ == other@),
    {
        bytes_eq(&self.payload, &other.payload)
    }
}

impl Eq for Signature {

}

impl vstd::std_specs::cmp::PartialEqSpecImpl for Signature {
    open spec fn obeys_eq_spec() -> bool {
        true
    }

    open spec fn eq_spec(&self, other: &Signature) -> bool {
        self@ == other@
    }
}

impl Clone for PublicKey {
    fn clone(&self) -> (r: Self)
        ensures
            r@ == self@,
    {
        PublicKey { payload: copy_bytes(&self.payload) }
    }
}

impl Clone for PrivateKey {
    fn clone(&self) -> (r: Self)
        ensures
            r@ == self@,
    {
        PrivateKey { payload: copy_bytes(&self.payload) }
    }
}

impl Clone for Hash {
    fn clone(&self) -> (r: Self)
        ensures
            r@ == self@,
    {
        Hash { payload: copy_bytes(&self.payload) }
    }
}

impl Clone for Signature {
    fn clone(&self) -> (r: Self)
        ensures
            r@ == self@,
    {
        Signature { payload: copy_bytes(&self.payload) }
    }
}

} // verus!
