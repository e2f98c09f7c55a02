//! The transaction lifecycle: payloads, signed envelopes, entrypoints and
//! execution results.
use core::time::Duration;
use vstd::prelude::*;

use crate::account::AccountId;
use crate::account::AccountIdView;
use crate::codec::bytes_len_ok;
use crate::codec::bytes_list_len_ok;
use crate::codec::enc_entrypoint;
use crate::codec::enc_executable;
use crate::codec::enc_payload;
use crate::codec::enc_reason;
use crate::codec::enc_result;
use crate::codec::enc_signed;
use crate::codec::enc_step;
use crate::codec::enc_time;
use crate::codec::instr_parts_len_ok;
use crate::codec::instr_parts_view;
use crate::codec::meta_parts_len_ok;
use crate::codec::str_len_ok;
use crate::codec::CODEC_MAX_LEN;
use crate::codec::CODEC_MAX_STR;
use crate::crypto::digest_of;
use crate::crypto::pk_of;
use crate::crypto::sig_of;
use crate::crypto::sig_valid;
use crate::crypto::HashOf;
use crate::crypto::PrivateKey;
use crate::crypto::Signature;
use crate::error::ReasonView;
use crate::error::TransactionRejectionReason;
use crate::isi::InstructionBox;
use crate::isi::INSTRUCTION_KIND_COUNT;
use crate::metadata::Metadata;
use crate::name::Name;
use crate::text::dec_str;
use crate::time::current_time_millis;
use crate::time::duration_millis;
use crate::trigger::TriggerId;
use crate::ChainId;
use vstd::string::StrSliceExecFns;
use vstd::string::StringExecFns;

verus! {

/// Wrapper for the byte representation of a compiled program.
#[derive(Debug, Clone, PartialEq, Eq)]
pub struct WasmSmartContract {
    /// Raw program blob.
    pub blob: Vec<u8>,
}

impl View for WasmSmartContract {
    type V = Seq<u8>;

    open spec fn view(&self) -> Seq<u8> {
        self.blob@
    }
}

impl WasmSmartContract {
    /// Create a smart contract from raw compiled bytes.
    pub fn from_compiled(blob: Vec<u8>) -> (r: Self)
        ensures
            r@ == blob@,
    {
        WasmSmartContract { blob }
    }

    /// Size of the smart contract in bytes.
    pub fn size_bytes(&self) -> (r: usize)
        ensures
            r == self@.len(),
    {
        self.blob.len()
    }

    /// A short rendering that shows only the blob's length.
    pub fn debug_repr(&self) -> (r: String)
        ensures
            r@ == "WASM binary(len = "@ + dec_str(self@.len() as int) + ")"@,
    {
        let mut s = String::from_str("WASM binary(len = ");
        let len64: u64 = self.blob.len() as u64;
        s.append(crate::text::u64_to_dec(len64).as_str());
        s.append(")");
        s
    }
}

/// Mathematical content of an [`Executable`].
pub enum ExecutableView {
    /// An ordered instruction list: wire tags and opaque bodies.
    Instructions(Seq<(u8, Seq<char>)>),
    /// A compiled program's bytes.
    Wasm(Seq<u8>),
}

/// Either an ordered instruction list or a compiled program.
#[derive(Debug, Clone, PartialEq, Eq)]
pub enum Executable {
    /// Ordered set of instructions.
    Instructions(Vec<InstructionBox>),
    /// A compiled smart contract.
    Wasm(WasmSmartContract),
}

impl View for Executable {
    type V = ExecutableView;

    open spec fn view(&self) -> ExecutableView {
        match self {
            Executable::Instructions(v) => ExecutableView::Instructions(
                v@.map_values(|i: InstructionBox| i@),
            ),
            Executable::Wasm(w) => ExecutableView::Wasm(w@),
        }
    }
}

/// Every wire tag in an instruction-part list lies in the taxonomy.
pub open spec fn instr_tags_wf(s: Seq<(u8, Seq<char>)>) -> bool {
    forall|i: int| 0 <= i < s.len() ==> (#[trigger] s[i]).0 < INSTRUCTION_KIND_COUNT
}

/// Every instruction tag a real executable carries lies in the taxonomy.
pub open spec fn executable_view_wf(e: ExecutableView) -> bool {
    match e {
        ExecutableView::Instructions(s) => instr_tags_wf(s),
        ExecutableView::Wasm(_) => true,
    }
}

/// The view of a real [`Executable`] is always well-formed.
pub proof fn lemma_executable_view_wf(e: &Executable)
    ensures
        executable_view_wf(e@),
{
    match e {
        Executable::Instructions(v) => {
            assert forall|i: int| 0 <= i < e@->Instructions_0.len() implies (#[trigger] e@
                ->Instructions_0[i]).0 < INSTRUCTION_KIND_COUNT by {
                assert(e@->Instructions_0[i] == v@[i]@);
            }
        },
        Executable::Wasm(_) => {},
    }
}

/// Mathematical content of a [`TransactionPayload`].
pub struct PayloadView {
    /// Chain id text.
    pub chain: Seq<char>,
    /// The authority's coordinates.
    pub authority: AccountIdView,
    /// Creation timestamp, unix milliseconds.
    pub creation_time_ms: u64,
    /// The executable body.
    pub instructions: ExecutableView,
    /// Time-to-live in milliseconds, if any; never zero.
    pub time_to_live_ms: Option<u64>,
    /// Nonce, if any; never zero.
    pub nonce: Option<u32>,
    /// Metadata entries.
    pub metadata: Seq<(Seq<char>, Seq<char>)>,
}

/// Replay-protected transaction body.
#[derive(Debug, Clone)]
pub struct TransactionPayload {
    /// Unique id of the blockchain. Used for simple replay attack protection.
    pub chain: ChainId,
    /// Account id of the transaction creator.
    pub authority: AccountId,
    /// Creation timestamp (unix time in milliseconds).
    pub creation_time_ms: u64,
    /// Instructions or a compiled smart contract.
    pub instructions: Executable,
    /// If the transaction is not committed by this time it will be dropped,
    /// in milliseconds from creation. Zero is folded into "no limit".
    pub time_to_live_ms: Option<u64>,
    /// Random value to make different hashes for transactions which occur
    /// repeatedly and simultaneously.
    pub nonce: Option<u32>,
    /// Store for additional information.
    pub metadata: Metadata,
}

impl View for TransactionPayload {
    type V = PayloadView;

    open spec fn view(&self) -> PayloadView {
        PayloadView {
            chain: self.chain@,
            authority: self.authority@,
            creation_time_ms: self.creation_time_ms,
            instructions: self.instructions@,
            time_to_live_ms: self.time_to_live_ms,
            nonce: self.nonce,
            metadata: self.metadata@,
        }
    }
}

/// A payload's optional fields never hold zero: a zero time-to-live and a
/// zero nonce are both folded into absence.
pub open spec fn payload_view_wf(v: PayloadView) -> bool {
    &&& executable_view_wf(v.instructions)
    &&& (v.time_to_live_ms matches Some(t) ==> t > 0)
    &&& (v.nonce matches Some(n) ==> n > 0)
}

impl TransactionPayload {
    /// The payload's optional fields respect the folding invariant.
    pub open spec fn wf(&self) -> bool {
        payload_view_wf(self@)
    }
}

/// Signature of a transaction's payload.
#[derive(Debug, Clone, PartialEq, Eq)]
pub struct TransactionSignature(pub Signature);

impl View for TransactionSignature {
    type V = Seq<u8>;

    open spec fn view(&self) -> Seq<u8> {
        self.0@
    }
}

impl TransactionSignature {
    /// The signature itself.
    pub fn payload(&self) -> (r: &Signature)
        ensures
            r@ == self@,
    {
        &self.0
    }
}

/// Mathematical content of a signed transaction.
pub struct SignedTransactionView {
    /// The signature's bytes.
    pub signature: Seq<u8>,
    /// The signed payload.
    pub payload: PayloadView,
}

/// First and so far only payload shape of a signed transaction.
#[derive(Debug, Clone)]
pub struct SignedTransactionV1 {
    /// Signature of the payload.
    pub signature: TransactionSignature,
    /// Payload of the transaction.
    pub payload: TransactionPayload,
}

/// Transaction that contains a signature, as sent over the network.
///
/// A tagged union over payload shapes: the explicit version tag lets future
/// shapes coexist on the wire with this one.
#[derive(Debug, Clone)]
pub enum SignedTransaction {
    /// The first payload shape.
    V1(SignedTransactionV1),
}

impl View for SignedTransaction {
    type V = SignedTransactionView;

    open spec fn view(&self) -> SignedTransactionView {
        match self {
            SignedTransaction::V1(tx) => SignedTransactionView {
                signature: tx.signature@,
                payload: tx.payload@,
            },
        }
    }
}

/// A signed transaction's payload respects the payload invariant.
pub open spec fn signed_view_wf(v: SignedTransactionView) -> bool {
    payload_view_wf(v.payload)
}

impl SignedTransaction {
    /// The payload respects the payload invariant.
    pub open spec fn wf(&self) -> bool {
        signed_view_wf(self@)
    }

    /// Transaction payload.
    pub fn payload(&self) -> (r: &TransactionPayload)
        ensures
            r@ == self@.payload,
    {
        let SignedTransaction::V1(tx) = self;
        &tx.payload
    }

    /// Return the transaction's executable body.
    pub fn instructions(&self) -> (r: &Executable)
        ensures
            r@ == self@.payload.instructions,
    {
        let SignedTransaction::V1(tx) = self;
        &tx.payload.instructions
    }

    /// Return the transaction's authority.
    pub fn authority(&self) -> (r: &AccountId)
        ensures
            r@ == self@.payload.authority,
    {
        let SignedTransaction::V1(tx) = self;
        &tx.payload.authority
    }

    /// Return the transaction's metadata.
    pub fn metadata(&self) -> (r: &Metadata)
        ensures
            r@ == self@.payload.metadata,
    {
        let SignedTransaction::V1(tx) = self;
        &tx.payload.metadata
    }

    /// Creation timestamp as a [`Duration`] since the Unix epoch.
    pub fn creation_time(&self) -> (r: Duration)
        ensures
            duration_millis(r) == self@.payload.creation_time_ms as u128,
    {
        let SignedTransaction::V1(tx) = self;
        Duration::from_millis(tx.payload.creation_time_ms)
    }

    /// If the transaction is not committed by this time it will be dropped.
    /// Absent when no limit was set — or when a zero limit was folded away.
    pub fn time_to_live(&self) -> (r: Option<Duration>)
        ensures
            match r {
                Some(d) => self@.payload.time_to_live_ms matches Some(t) && duration_millis(d)
                    == t as u128,
                None => self@.payload.time_to_live_ms is None,
            },
    {
        let SignedTransaction::V1(tx) = self;
        match tx.payload.time_to_live_ms {
            Some(ttl) => Some(Duration::from_millis(ttl)),
            None => None,
        }
    }

    /// Transaction nonce, if one was set.
    pub fn nonce(&self) -> (r: Option<u32>)
        ensures
            r == self@.payload.nonce,
    {
        let SignedTransaction::V1(tx) = self;
        tx.payload.nonce
    }

    /// Transaction chain id.
    pub fn chain(&self) -> (r: &ChainId)
        ensures
            r@ == self@.payload.chain,
    {
        let SignedTransaction::V1(tx) = self;
        &tx.payload.chain
    }

    /// Return the transaction signature.
    pub fn signature(&self) -> (r: &TransactionSignature)
        ensures
            r@ == self@.signature,
    {
        let SignedTransaction::V1(tx) = self;
        &tx.signature
    }
}

/// Structure that represents the initial state of a transaction before it
/// receives its signature.
#[derive(Debug, Clone)]
pub struct TransactionBuilder {
    /// The payload under construction.
    pub payload: TransactionPayload,
}

impl TransactionBuilder {
    /// The payload under construction respects the payload invariant.
    pub open spec fn wf(&self) -> bool {
        self.payload.wf()
    }

    /// Construct a builder with an explicit creation timestamp: empty
    /// instruction list, no time-to-live, no nonce, empty metadata.
    pub fn new_with_time(chain: ChainId, authority: AccountId, creation_time_ms: u64) -> (r: Self)
        ensures
            r.payload@.chain == chain@,
            r.payload@.authority == authority@,
            r.payload@.creation_time_ms == creation_time_ms,
            r.payload@.instructions == ExecutableView::Instructions(
                Seq::<(u8, Seq<char>)>::empty(),
            ),
            r.payload@.time_to_live_ms is None,
            r.payload@.nonce is None,
            r.payload@.metadata == Seq::<(Seq<char>, Seq<char>)>::empty(),
            r.wf(),
    {
        let r = TransactionBuilder {
            payload: TransactionPayload {
                chain,
                authority,
                creation_time_ms,
                nonce: None,
                time_to_live_ms: None,
                instructions: Executable::Instructions(Vec::new()),
                metadata: Metadata::default(),
            },
        };
        proof {
            assert(r.payload@.instructions->Instructions_0 =~= Seq::<(u8, Seq<char>)>::empty());
        }
        r
    }

    /// Construct a builder whose creation timestamp is the system clock's
    /// current reading.
    pub fn new(chain_id: ChainId, authority: AccountId) -> (r: Self)
        ensures
            r.payload@.chain == chain_id@,
            r.payload@.authority == authority@,
            r.payload@.instructions == ExecutableView::Instructions(
                Seq::<(u8, Seq<char>)>::empty(),
            ),
            r.payload@.time_to_live_ms is None,
            r.payload@.nonce is None,
            r.payload@.metadata == Seq::<(Seq<char>, Seq<char>)>::empty(),
            r.wf(),
    {
        let creation_time_ms = current_time_millis();
        Self::new_with_time(chain_id, authority, creation_time_ms)
    }

    /// Set instructions for this transaction, replacing the executable body.
    pub fn with_instructions(self, instructions: Vec<InstructionBox>) -> (r: Self)
        ensures
            r.payload@ == (PayloadView {
                instructions: ExecutableView::Instructions(
                    instructions@.map_values(|i: InstructionBox| i@),
                ),
                ..self.payload@
            }),
            self.wf() ==> r.wf(),
    {
        let r = TransactionBuilder {
            payload: TransactionPayload {
                instructions: Executable::Instructions(instructions),
                ..self.payload
            },
        };
        proof {
            lemma_executable_view_wf(&r.payload.instructions);
        }
        r
    }

    /// Add a compiled program to this transaction, replacing the executable
    /// body.
    pub fn with_wasm(self, wasm: WasmSmartContract) -> (r: Self)
        ensures
            r.payload@ == (PayloadView { instructions: ExecutableView::Wasm(wasm@), ..self.payload@ }),
            self.wf() ==> r.wf(),
    {
        TransactionBuilder {
            payload: TransactionPayload { instructions: Executable::Wasm(wasm), ..self.payload },
        }
    }

    /// Set the executable body for this transaction outright.
    pub fn with_executable(self, executable: Executable) -> (r: Self)
        ensures
            r.payload@ == (PayloadView { instructions: executable@, ..self.payload@ }),
            self.wf() ==> r.wf(),
    {
        proof {
            lemma_executable_view_wf(&executable);
        }
        TransactionBuilder {
            payload: TransactionPayload { instructions: executable, ..self.payload },
        }
    }

    /// Attach metadata to this transaction, replacing what was there.
    pub fn with_metadata(self, metadata: Metadata) -> (r: Self)
        ensures
            r.payload@ == (PayloadView { metadata: metadata@, ..self.payload@ }),
    {
        TransactionBuilder {
            payload: TransactionPayload { metadata, ..self.payload },
        }
    }

    /// Set the nonce for this transaction. The nonce exists to distinguish
    /// otherwise-identical concurrent submissions and is never zero.
    pub fn set_nonce(&mut self, nonce: u32)
        requires
            nonce != 0,
        ensures
            final(self).payload@ == (PayloadView { nonce: Some(nonce), ..old(self).payload@ }),
    {
        self.payload.nonce = Some(nonce);
    }

    /// Set the time-to-live for this transaction.
    ///
    /// A zero duration is folded into "no time-to-live": afterwards the
    /// field reads as absent, not as a zero limit.
    pub fn set_ttl(&mut self, time_to_live: Duration)
        requires
            duration_millis(time_to_live) <= u64::MAX,
        ensures
            final(self).payload@ == (PayloadView {
                time_to_live_ms: if duration_millis(time_to_live) == 0 {
                    None
                } else {
                    Some(duration_millis(time_to_live) as u64)
                },
                ..old(self).payload@
            }),
    {
        let millis: u128 = time_to_live.as_millis();
        let ttl: u64 = millis as u64;
        self.payload.time_to_live_ms = if ttl == 0 {
            None
        } else {
            Some(ttl)
        };
    }

    /// Set the creation timestamp of the transaction.
    pub fn set_creation_time(&mut self, value: Duration)
        requires
            duration_millis(value) <= u64::MAX,
        ensures
            final(self).payload@ == (PayloadView {
                creation_time_ms: duration_millis(value) as u64,
                ..old(self).payload@
            }),
    {
        let millis: u128 = value.as_millis();
        self.payload.creation_time_ms = millis as u64;
    }
}

/// Flatten an instruction list into wire parts.
pub fn instructions_to_parts(v: &Vec<InstructionBox>) -> (r: Vec<(u8, String)>)
    ensures
        instr_parts_view(r@) == v@.map_values(|i: InstructionBox| i@),
{
    let mut r: Vec<(u8, String)> = Vec::new();
    let n = v.len();
    for k in 0..n
        invariant
            n == v@.len(),
            r@.len() == k,
            forall|j: int| 0 <= j < k ==> ((#[trigger] r@[j]).0, r@[j].1@) == v@[j]@,
    {
        r.push(v[k].to_parts());
    }
    proof {
        assert(instr_parts_view(r@) =~= v@.map_values(|i: InstructionBox| i@));
    }
    r
}

/// Rebuild an instruction list from wire parts. Tags outside the taxonomy
/// yield `None`.
pub fn instructions_from_parts(parts: &Vec<(u8, String)>) -> (r: Option<Vec<InstructionBox>>)
    ensures
        r is Some <==> instr_tags_wf(instr_parts_view(parts@)),
        match r {
            Some(v) => v@.map_values(|i: InstructionBox| i@) == instr_parts_view(parts@),
            None => true,
        },
{
    let mut v: Vec<InstructionBox> = Vec::new();
    let n = parts.len();
    for k in 0..n
        invariant
            n == parts@.len(),
            v@.len() == k,
            forall|j: int| 0 <= j < k ==> (#[trigger] v@[j])@ == (parts@[j].0, parts@[j].1@),
            forall|j: int| 0 <= j < k ==> (#[trigger] parts@[j]).0 < INSTRUCTION_KIND_COUNT,
    {
        let tag = parts[k].0;
        let body = parts[k].1.clone();
        match InstructionBox::from_parts(tag, body) {
            Some(i) => v.push(i),
            None => {
                proof {
                    assert(instr_parts_view(parts@)[k as int].0 == parts@[k as int].0);
                    assert(!instr_tags_wf(instr_parts_view(parts@)));
                }
                return None;
            },
        }
    }
    proof {
        assert(v@.map_values(|i: InstructionBox| i@) =~= instr_parts_view(parts@));
        assert forall|j: int| 0 <= j < instr_parts_view(parts@).len() implies (#[trigger] instr_parts_view(
            parts@,
        )[j]).0 < INSTRUCTION_KIND_COUNT by {
            assert(instr_parts_view(parts@)[j].0 == parts@[j].0);
        }
    }
    Some(v)
}

/// Flatten metadata into wire parts.
pub fn metadata_to_parts(m: &Metadata) -> (r: Vec<(String, String)>)
    ensures
        crate::codec::meta_parts_view(r@) == m@,
{
    let mut r: Vec<(String, String)> = Vec::new();
    let n = m.entries.len();
    for k in 0..n
        invariant
            n == m.entries@.len(),
            r@.len() == k,
            forall|j: int| 0 <= j < k ==> ((#[trigger] r@[j]).0@, r@[j].1@) == m@[j],
    {
        let key = m.entries[k].0.inner.clone();
        let value = m.entries[k].1.clone();
        r.push((key, value));
    }
    proof {
        assert(crate::codec::meta_parts_view(r@) =~= m@);
    }
    r
}

/// Rebuild metadata from wire parts.
pub fn metadata_from_parts(parts: &Vec<(String, String)>) -> (r: Metadata)
    ensures
        r@ == crate::codec::meta_parts_view(parts@),
{
    let mut entries: Vec<(Name, String)> = Vec::new();
    let n = parts.len();
    for k in 0..n
        invariant
            n == parts@.len(),
            entries@.len() == k,
            forall|j: int| 0 <= j < k ==> ((#[trigger] entries@[j]).0@, entries@[j].1@) == (
                parts@[j].0@,
                parts@[j].1@,
            ),
    {
        let key = parts[k].0.clone();
        let value = parts[k].1.clone();
        entries.push((Name { inner: key }, value));
    }
    let r = Metadata { entries };
    proof {
        assert(r@ =~= crate::codec::meta_parts_view(parts@));
    }
    r
}

/// The codec's encoding of an executable, over its view.
pub open spec fn executable_enc(e: ExecutableView) -> Seq<u8> {
    match e {
        ExecutableView::Instructions(s) => enc_executable(0, s, Seq::empty()),
        ExecutableView::Wasm(w) => enc_executable(1, Seq::<(u8, Seq<char>)>::empty(), w),
    }
}

/// The codec's encoding of a payload, over its view.
pub open spec fn payload_enc(v: PayloadView) -> Seq<u8> {
    enc_payload(
        v.chain,
        v.authority.domain,
        v.authority.signatory,
        v.creation_time_ms,
        executable_enc(v.instructions),
        v.time_to_live_ms,
        v.nonce,
        v.metadata,
    )
}

/// The codec's encoding of a signed transaction, over its view.
pub open spec fn signed_enc(v: SignedTransactionView) -> Seq<u8> {
    enc_signed(v.signature, payload_enc(v.payload))
}

/// The bytes of a signed transaction's hash: the digest of its encoding.
pub open spec fn tx_hash_bytes(v: SignedTransactionView) -> Seq<u8> {
    digest_of(signed_enc(v))
}

/// The one signed envelope that signing a payload with a key produces:
/// the payload unchanged, under the key's signature over its encoding.
pub open spec fn signed_view_of(p: PayloadView, key: Seq<u8>) -> SignedTransactionView {
    SignedTransactionView { signature: sig_of(key, payload_enc(p)), payload: p }
}

/// Whether a signed transaction's signature is the authority's signature
/// over exactly this payload's encoding.
pub open spec fn signature_ok(v: SignedTransactionView) -> bool {
    &&& v.payload.authority.signatory.len() == crate::crypto::PUBLIC_KEY_LENGTH
    &&& v.signature.len() == crate::crypto::SIGNATURE_LENGTH
    &&& sig_valid(v.payload.authority.signatory, payload_enc(v.payload), v.signature)
}


/// The executable's parts stay within the codec's length limit.
pub open spec fn executable_size_ok(e: ExecutableView) -> bool {
    match e {
        ExecutableView::Instructions(s) => instr_parts_len_ok(s),
        ExecutableView::Wasm(w) => bytes_len_ok(w),
    }
}

/// The payload's parts, and the encoded executable nested inside its
/// encoding, stay within the codec's length limit.
pub open spec fn payload_size_ok(v: PayloadView) -> bool {
    &&& executable_size_ok(v.instructions)
    &&& bytes_len_ok(executable_enc(v.instructions))
    &&& str_len_ok(v.chain)
    &&& str_len_ok(v.authority.domain)
    &&& bytes_len_ok(v.authority.signatory)
    &&& meta_parts_len_ok(v.metadata)
}

/// The envelope's parts, and the encoded payload nested inside its
/// encoding, stay within the codec's length limit.
pub open spec fn signed_size_ok(v: SignedTransactionView) -> bool {
    &&& payload_size_ok(v.payload)
    &&& bytes_len_ok(payload_enc(v.payload))
    &&& bytes_len_ok(v.signature)
}

impl Executable {
    /// Encode this executable through the external codec.
    pub fn encode(&self) -> (r: Vec<u8>)
        requires
            executable_size_ok(self@),
        ensures
            r@ == executable_enc(self@),
    {
        match self {
            Executable::Instructions(v) => {
                let parts = instructions_to_parts(v);
                let empty: Vec<u8> = Vec::new();
                crate::codec::scale_encode_executable(0, &parts, &empty)
            },
            Executable::Wasm(w) => {
                let empty: Vec<(u8, String)> = Vec::new();
                proof {
                    assert(instr_parts_view(empty@) =~= Seq::<(u8, Seq<char>)>::empty());
                }
                crate::codec::scale_encode_executable(1, &empty, &w.blob)
            },
        }
    }

    /// Decode an executable from its encoding. Returns the encoded
    /// executable for any byte string the codec produced from one.
    pub fn decode(bytes: &[u8]) -> (r: Option<Executable>)
        ensures
            forall|v: ExecutableView|
                executable_view_wf(v) && bytes@ == executable_enc(v) ==> match r {
                    Some(e) => e@ == v,
                    None => false,
                },
    {
        let parts = crate::codec::scale_decode_executable(bytes);
        match parts {
            Some((tag, instrs, wasm)) => {
                if tag == 0 {
                    match instructions_from_parts(&instrs) {
                        Some(v) => Some(Executable::Instructions(v)),
                        None => None,
                    }
                } else if tag == 1 {
                    Some(Executable::Wasm(WasmSmartContract { blob: wasm }))
                } else {
                    None
                }
            },
            None => None,
        }
    }
}

impl TransactionPayload {
    /// Encode this payload through the external codec.
    pub fn encode(&self) -> (r: Vec<u8>)
        requires
            payload_size_ok(self@),
        ensures
            r@ == payload_enc(self@),
    {
        let executable = self.instructions.encode();
        let metadata = metadata_to_parts(&self.metadata);
        crate::codec::scale_encode_payload(
            &self.chain.inner,
            &self.authority.domain.name.inner,
            &self.authority.signatory.payload,
            self.creation_time_ms,
            &executable,
            &self.time_to_live_ms,
            &self.nonce,
            &metadata,
        )
    }
}

impl SignedTransactionV1 {
    /// Hash of this envelope, typed as a transaction hash.
    fn hash(&self) -> (r: HashOf<SignedTransaction>)
        requires
            signed_size_ok(
                (SignedTransactionView { signature: self.signature@, payload: self.payload@ }),
            ),
        ensures
            r@ == digest_of(enc_signed(self.signature@, payload_enc(self.payload@))),
            r.wf(),
    {
        let payload = self.payload.encode();
        let bytes = crate::codec::scale_encode_signed(&self.signature.0.payload, &payload);
        HashOf::from_untyped_unchecked(crate::crypto::Hash::digest(bytes.as_slice()))
    }
}

impl SignedTransaction {
    /// Encode this envelope through the external codec.
    pub fn encode(&self) -> (r: Vec<u8>)
        requires
            signed_size_ok(self@),
        ensures
            r@ == signed_enc(self@),
    {
        let SignedTransaction::V1(tx) = self;
        let payload = tx.payload.encode();
        crate::codec::scale_encode_signed(&tx.signature.0.payload, &payload)
    }

    /// Hash for this external transaction: the digest of its encoding. The
    /// identity used throughout the ledger to reference this transaction.
    pub fn hash(&self) -> (r: HashOf<SignedTransaction>)
        requires
            signed_size_ok(self@),
        ensures
            r@ == tx_hash_bytes(self@),
            r.wf(),
    {
        let SignedTransaction::V1(tx) = self;
        tx.hash()
    }

    /// Verify the transaction's signature against the authority recorded in
    /// the payload.
    ///
    /// Succeeds exactly when the signature was produced over this payload's
    /// encoding with the private key matching the authority's public key.
    pub fn verify_signature(&self) -> (r: Result<(), crate::crypto::Error>)
        requires
            payload_size_ok(self@.payload),
        ensures
            r is Ok <==> signature_ok(self@),
    {
        let SignedTransaction::V1(tx) = self;
        let payload = tx.payload.encode();
        tx.signature.0.verify(&tx.payload.authority.signatory, payload.as_slice())
    }
}

impl TransactionBuilder {
    /// Sign the staged payload with the provided private key, consuming the
    /// builder: the payload can no longer be mutated.
    ///
    /// The signature is computed over exactly the payload's encoding, so
    /// verification under the matching public key succeeds.
    pub fn sign(self, private_key: &PrivateKey) -> (r: SignedTransaction)
        requires
            private_key.wf(),
            payload_size_ok(self.payload@),
        ensures
            r@ == signed_view_of(self.payload@, private_key@),
            r@.payload == self.payload@,
            r@.signature == sig_of(private_key@, payload_enc(self.payload@)),
            sig_valid(pk_of(private_key@), payload_enc(self.payload@), r@.signature),
            self.payload.authority.wf() && self.payload@.authority.signatory == pk_of(
                private_key@,
            ) ==> signature_ok(r@),
    {
        let payload_bytes = self.payload.encode();
        let signature = TransactionSignature(
            Signature::sign(private_key, payload_bytes.as_slice()),
        );
        SignedTransaction::V1(SignedTransactionV1 { signature, payload: self.payload })
    }
}

/// Payload decoding: the inverse of payload encoding.
impl TransactionPayload {
    /// Decode a payload from its encoding. Returns the encoded payload for
    /// any byte string the codec produced from a well-formed one.
    pub fn decode(bytes: &[u8]) -> (r: Option<TransactionPayload>)
        ensures
            forall|v: PayloadView|
                payload_view_wf(v) && bytes@ == payload_enc(v) ==> match r {
                    Some(p) => p@ == v,
                    None => false,
                },
    {
        match crate::codec::scale_decode_payload(bytes) {
            Some((chain, domain, signatory, creation_time_ms, exe_bytes, ttl, nonce, meta)) => {
                match Executable::decode(exe_bytes.as_slice()) {
                    Some(instructions) => {
                        let metadata = metadata_from_parts(&meta);
                        Some(
                            TransactionPayload {
                                chain: ChainId { inner: chain },
                                authority: AccountId {
                                    domain: crate::account::DomainId {
                                        name: Name { inner: domain },
                                    },
                                    signatory: crate::crypto::PublicKey { payload: signatory },
                                },
                                creation_time_ms,
                                instructions,
                                time_to_live_ms: ttl,
                                nonce,
                                metadata,
                            },
                        )
                    },
                    None => None,
                }
            },
            None => None,
        }
    }
}

impl SignedTransaction {
    /// Decode a signed transaction from its encoding. Returns the encoded
    /// envelope for any byte string the codec produced from a well-formed
    /// one.
    pub fn decode(bytes: &[u8]) -> (r: Option<SignedTransaction>)
        ensures
            forall|v: SignedTransactionView|
                signed_view_wf(v) && bytes@ == signed_enc(v) ==> match r {
                    Some(tx) => tx@ == v,
                    None => false,
                },
    {
        match crate::codec::scale_decode_signed(bytes) {
            Some((signature, payload_bytes)) => {
                match TransactionPayload::decode(payload_bytes.as_slice()) {
                    Some(payload) => Some(
                        SignedTransaction::V1(
                            SignedTransactionV1 {
                                signature: TransactionSignature(
                                    Signature { payload: signature },
                                ),
                                payload,
                            },
                        ),
                    ),
                    None => None,
                }
            },
            None => None,
        }
    }
}

/// Single execution step in a transaction, comprising ordered instructions.
#[derive(Debug, Clone, PartialEq, Eq)]
pub struct ExecutionStep(pub Vec<InstructionBox>);

impl View for ExecutionStep {
    type V = Seq<(u8, Seq<char>)>;

    open spec fn view(&self) -> Seq<(u8, Seq<char>)> {
        self.0@.map_values(|i: InstructionBox| i@)
    }
}

impl ExecutionStep {
    /// The view of a real execution step is always well-formed.
    pub proof fn lemma_view_wf(&self)
        ensures
            instr_tags_wf(self@),
    {
        assert forall|i: int| 0 <= i < self@.len() implies (#[trigger] self@[i]).0
            < INSTRUCTION_KIND_COUNT by {
            assert(self@[i] == self.0@[i]@);
        }
    }

    /// The instructions this step ran.
    pub fn instructions(&self) -> (r: &Vec<InstructionBox>)
        ensures
            r@.map_values(|i: InstructionBox| i@) == self@,
    {
        &self.0
    }
}

/// Mathematical content of a [`TimeTriggerEntrypoint`].
#[verifier::ext_equal]
pub struct TimeEntrypointView {
    /// The trigger's id.
    pub id: Seq<char>,
    /// The instructions executed in this step.
    pub instructions: Seq<(u8, Seq<char>)>,
    /// The authorized account's coordinates.
    pub authority: AccountIdView,
}

/// A time-triggered entrypoint: the second, internally synthesized half of
/// the transaction entrypoints. Not signed by an external key.
#[derive(Debug, Clone)]
pub struct TimeTriggerEntrypoint {
    /// Identifier of the trigger that fired.
    pub id: TriggerId,
    /// Instructions executed in this step.
    pub instructions: ExecutionStep,
    /// Account authorized to initiate this time-triggered transaction.
    pub authority: AccountId,
}

impl View for TimeTriggerEntrypoint {
    type V = TimeEntrypointView;

    open spec fn view(&self) -> TimeEntrypointView {
        TimeEntrypointView {
            id: self.id@,
            instructions: self.instructions@,
            authority: self.authority@,
        }
    }
}

/// The codec's encoding of a time-triggered entrypoint, over its view.
pub open spec fn time_enc(v: TimeEntrypointView) -> Seq<u8> {
    enc_time(v.id, v.instructions, v.authority.domain, v.authority.signatory)
}

/// The bytes of a time-triggered entrypoint's hash.
pub open spec fn time_hash_bytes(v: TimeEntrypointView) -> Seq<u8> {
    digest_of(time_enc(v))
}

/// Mathematical content of a [`TransactionEntrypoint`].
pub enum EntrypointView {
    /// An externally submitted signed transaction.
    External(SignedTransactionView),
    /// An internally synthesized time-triggered step.
    Time(TimeEntrypointView),
}

/// Initial execution step of a transaction: either a user request carrying a
/// signed transaction, or a scheduled time trigger.
#[derive(Debug, Clone)]
pub enum TransactionEntrypoint {
    /// User request that initiates a transaction.
    External(SignedTransaction),
    /// Scheduled time trigger that initiates a transaction.
    Time(TimeTriggerEntrypoint),
}

impl View for TransactionEntrypoint {
    type V = EntrypointView;

    open spec fn view(&self) -> EntrypointView {
        match self {
            TransactionEntrypoint::External(tx) => EntrypointView::External(tx@),
            TransactionEntrypoint::Time(t) => EntrypointView::Time(t@),
        }
    }
}

/// The bytes of an entrypoint's hash. Both variants hash into this one
/// shared domain: an external entrypoint keeps its transaction's hash value,
/// re-typed; a time-triggered entrypoint digests its own encoding.
pub open spec fn entrypoint_hash_bytes(v: EntrypointView) -> Seq<u8> {
    match v {
        EntrypointView::External(t) => tx_hash_bytes(t),
        EntrypointView::Time(t) => time_hash_bytes(t),
    }
}

/// The codec's encoding of an entrypoint, over its view.
pub open spec fn entrypoint_enc(v: EntrypointView) -> Seq<u8> {
    match v {
        EntrypointView::External(t) => enc_entrypoint(0, signed_enc(t)),
        EntrypointView::Time(t) => enc_entrypoint(1, time_enc(t)),
    }
}

/// The time-triggered entrypoint's parts stay within the codec's length
/// limit.
pub open spec fn time_size_ok(t: TimeEntrypointView) -> bool {
    &&& str_len_ok(t.id)
    &&& instr_parts_len_ok(t.instructions)
    &&& str_len_ok(t.authority.domain)
    &&& bytes_len_ok(t.authority.signatory)
}

/// The parts hashed for an entrypoint stay within the codec's length limit.
pub open spec fn entrypoint_hash_size_ok(v: EntrypointView) -> bool {
    match v {
        EntrypointView::External(t) => signed_size_ok(t),
        EntrypointView::Time(t) => time_size_ok(t),
    }
}

/// The parts encoded for an entrypoint, the encoded variant content
/// included, stay within the codec's length limit.
pub open spec fn entrypoint_size_ok(v: EntrypointView) -> bool {
    match v {
        EntrypointView::External(t) => signed_size_ok(t) && bytes_len_ok(signed_enc(t)),
        EntrypointView::Time(t) => time_size_ok(t) && bytes_len_ok(time_enc(t)),
    }
}

/// An entrypoint's payload or instruction list respects the invariants.
pub open spec fn entrypoint_view_wf(v: EntrypointView) -> bool {
    match v {
        EntrypointView::External(t) => signed_view_wf(t),
        EntrypointView::Time(t) => instr_tags_wf(t.instructions),
    }
}

impl SignedTransaction {
    /// Hash for this external transaction as a transaction entrypoint: the
    /// same hash value, adopted into the entrypoint hash domain without
    /// recomputation.
    pub fn hash_as_entrypoint(&self) -> (r: HashOf<TransactionEntrypoint>)
        requires
            signed_size_ok(self@),
        ensures
            r@ == tx_hash_bytes(self@),
            r.wf(),
    {
        let SignedTransaction::V1(tx) = self;
        let typed: HashOf<SignedTransaction> = tx.hash();
        HashOf::from_untyped_unchecked(typed.hash)
    }
}

impl TimeTriggerEntrypoint {
    /// Hash for this time-triggered entrypoint as a transaction entrypoint:
    /// the digest of its own encoding, typed into the shared entrypoint hash
    /// domain.
    pub fn hash_as_entrypoint(&self) -> (r: HashOf<TransactionEntrypoint>)
        requires
            time_size_ok(self@),
        ensures
            r@ == time_hash_bytes(self@),
            r.wf(),
    {
        let bytes = self.encode_content();
        HashOf::from_untyped_unchecked(crate::crypto::Hash::digest(bytes.as_slice()))
    }

    /// Encode this entrypoint's content through the external codec.
    fn encode_content(&self) -> (r: Vec<u8>)
        requires
            time_size_ok(self@),
        ensures
            r@ == time_enc(self@),
    {
        let parts = instructions_to_parts(&self.instructions.0);
        crate::codec::scale_encode_time(
            &self.id.name.inner,
            &parts,
            &self.authority.domain.name.inner,
            &self.authority.signatory.payload,
        )
    }
}

impl TransactionEntrypoint {
    /// Account authorized to initiate this transaction.
    pub fn authority(&self) -> (r: &AccountId)
        ensures
            r@ == match self@ {
                EntrypointView::External(t) => t.payload.authority,
                EntrypointView::Time(t) => t.authority,
            },
    {
        match self {
            TransactionEntrypoint::External(entrypoint) => entrypoint.authority(),
            TransactionEntrypoint::Time(entrypoint) => &entrypoint.authority,
        }
    }

    /// Hash for this transaction entrypoint: computed per variant, typed
    /// under the one shared entrypoint hash domain.
    pub fn hash(&self) -> (r: HashOf<TransactionEntrypoint>)
        requires
            entrypoint_hash_size_ok(self@),
        ensures
            r@ == entrypoint_hash_bytes(self@),
            r.wf(),
    {
        match self {
            TransactionEntrypoint::External(entrypoint) => entrypoint.hash_as_entrypoint(),
            TransactionEntrypoint::Time(entrypoint) => entrypoint.hash_as_entrypoint(),
        }
    }

    /// Encode this entrypoint through the external codec.
    pub fn encode(&self) -> (r: Vec<u8>)
        requires
            entrypoint_size_ok(self@),
        ensures
            r@ == entrypoint_enc(self@),
    {
        match self {
            TransactionEntrypoint::External(tx) => {
                let body = tx.encode();
                crate::codec::scale_encode_entrypoint(0, &body)
            },
            TransactionEntrypoint::Time(t) => {
                let body = t.encode_content();
                crate::codec::scale_encode_entrypoint(1, &body)
            },
        }
    }

    /// Decode an entrypoint from its encoding. Returns the encoded
    /// entrypoint for any byte string the codec produced from a well-formed
    /// one.
    pub fn decode(bytes: &[u8]) -> (r: Option<TransactionEntrypoint>)
        ensures
            forall|v: EntrypointView|
                entrypoint_view_wf(v) && bytes@ == entrypoint_enc(v) ==> match r {
                    Some(e) => e@ == v,
                    None => false,
                },
    {
        match crate::codec::scale_decode_entrypoint(bytes) {
            Some((tag, body)) => {
                if tag == 0 {
                    match SignedTransaction::decode(body.as_slice()) {
                        Some(tx) => Some(TransactionEntrypoint::External(tx)),
                        None => None,
                    }
                } else if tag == 1 {
                    match Self::decode_time(body.as_slice()) {
                        Some(t) => Some(TransactionEntrypoint::Time(t)),
                        None => None,
                    }
                } else {
                    None
                }
            },
            None => None,
        }
    }

    /// Decode a time-triggered entrypoint's content.
    fn decode_time(bytes: &[u8]) -> (r: Option<TimeTriggerEntrypoint>)
        ensures
            forall|v: TimeEntrypointView|
                instr_tags_wf(v.instructions) && bytes@ == time_enc(v) ==> match r {
                    Some(t) => t@ == v,
                    None => false,
                },
    {
        match crate::codec::scale_decode_time(bytes) {
            Some((id, instr_parts, domain, signatory)) => {
                match instructions_from_parts(&instr_parts) {
                    Some(instructions) => Some(
                        TimeTriggerEntrypoint {
                            id: TriggerId { name: Name { inner: id } },
                            instructions: ExecutionStep(instructions),
                            authority: AccountId {
                                domain: crate::account::DomainId { name: Name { inner: domain } },
                                signatory: crate::crypto::PublicKey { payload: signatory },
                            },
                        },
                    ),
                    None => None,
                }
            },
            None => None,
        }
    }
}

/// Mathematical content of a [`DataTriggerStep`].
#[verifier::ext_equal]
pub struct StepView {
    /// The trigger's id.
    pub id: Seq<char>,
    /// The instructions the step ran.
    pub instructions: Seq<(u8, Seq<char>)>,
}

/// Single execution step of a data trigger: a secondary execution fired as a
/// consequence of a prior one.
#[derive(Debug, Clone, PartialEq, Eq)]
pub struct DataTriggerStep {
    /// Identifier of the trigger that fired.
    pub id: TriggerId,
    /// Instructions executed in this step.
    pub instructions: ExecutionStep,
}

impl View for DataTriggerStep {
    type V = StepView;

    open spec fn view(&self) -> StepView {
        StepView { id: self.id@, instructions: self.instructions@ }
    }
}

impl DataTriggerStep {
    /// Encode this step through the external codec.
    pub fn encode(&self) -> (r: Vec<u8>)
        requires
            step_size_ok(self@),
        ensures
            r@ == step_enc(self@),
    {
        let parts = instructions_to_parts(&self.instructions.0);
        crate::codec::scale_encode_step(&self.id.name.inner, &parts)
    }

    /// Decode a step from its encoding. Returns the encoded step for any
    /// byte string the codec produced from a well-formed one.
    pub fn decode(bytes: &[u8]) -> (r: Option<DataTriggerStep>)
        ensures
            forall|v: StepView|
                instr_tags_wf(v.instructions) && bytes@ == step_enc(v) ==> match r {
                    Some(s) => s@ == v,
                    None => false,
                },
    {
        match crate::codec::scale_decode_step(bytes) {
            Some((id, instr_parts)) => {
                match instructions_from_parts(&instr_parts) {
                    Some(instructions) => Some(
                        DataTriggerStep {
                            id: TriggerId { name: Name { inner: id } },
                            instructions: ExecutionStep(instructions),
                        },
                    ),
                    None => None,
                }
            },
            None => None,
        }
    }
}

/// Sequence of data-trigger execution steps.
pub type DataTriggerSequence = Vec<DataTriggerStep>;

/// The outcome of processing a transaction: either a sequence of data
/// triggers, or a rejection reason.
pub type TransactionResultInner = Result<DataTriggerSequence, TransactionRejectionReason>;

/// The outcome of processing a transaction, as stored and indexed by the
/// ledger: either the ordered data-trigger steps that ran as a consequence,
/// or one rejection reason from the closed taxonomy.
#[derive(Debug, PartialEq, Eq)]
pub struct TransactionResult(pub TransactionResultInner);

impl Clone for TransactionResult {
    fn clone(&self) -> Self {
        match &self.0 {
            Ok(steps) => TransactionResult(Ok(steps.clone())),
            Err(reason) => TransactionResult(Err(reason.clone())),
        }
    }
}

/// The view of a result's inner union.
pub open spec fn result_inner_view(inner: TransactionResultInner) -> Result<Seq<StepView>, ReasonView> {
    match inner {
        Ok(steps) => Ok(steps@.map_values(|s: DataTriggerStep| s@)),
        Err(reason) => Err(reason@),
    }
}

impl View for TransactionResult {
    type V = Result<Seq<StepView>, ReasonView>;

    open spec fn view(&self) -> Result<Seq<StepView>, ReasonView> {
        result_inner_view(self.0)
    }
}

/// The codec's encoding of a data-trigger step, over its view.
pub open spec fn step_enc(s: StepView) -> Seq<u8> {
    enc_step(s.id, s.instructions)
}

/// The codec's encoding of a rejection reason, over its view.
pub open spec fn reason_enc_view(rv: ReasonView) -> Seq<u8> {
    enc_reason(rv.tag, rv.text, rv.instr_tag, rv.instr_body, rv.domain, rv.signatory)
}

/// The encodings of a list of steps, elementwise.
pub open spec fn steps_enc_list(steps: Seq<StepView>) -> Seq<Seq<u8>> {
    steps.map_values(|s: StepView| step_enc(s))
}

/// Every step in the list respects the instruction-tag invariant.
pub open spec fn steps_wf(steps: Seq<StepView>) -> bool {
    forall|j: int| 0 <= j < steps.len() ==> instr_tags_wf((#[trigger] steps[j]).instructions)
}

/// The codec's encoding of a result, over its view.
pub open spec fn result_enc(v: Result<Seq<StepView>, ReasonView>) -> Seq<u8> {
    match v {
        Ok(steps) => enc_result(0, steps_enc_list(steps), Seq::<u8>::empty()),
        Err(rv) => enc_result(1, Seq::<Seq<u8>>::empty(), reason_enc_view(rv)),
    }
}

/// The bytes of a result's hash: the digest of its encoding.
pub open spec fn result_hash_bytes(v: Result<Seq<StepView>, ReasonView>) -> Seq<u8> {
    digest_of(result_enc(v))
}

/// The step's parts stay within the codec's length limit.
pub open spec fn step_size_ok(s: StepView) -> bool {
    str_len_ok(s.id) && instr_parts_len_ok(s.instructions)
}

/// The reason's parts stay within the codec's length limit.
pub open spec fn reason_size_ok(rv: ReasonView) -> bool {
    &&& str_len_ok(rv.text)
    &&& str_len_ok(rv.instr_body)
    &&& str_len_ok(rv.domain)
    &&& bytes_len_ok(rv.signatory)
}

/// The result's parts, each encoded step and the encoded reason included,
/// stay within the codec's length limit.
pub open spec fn result_size_ok(v: Result<Seq<StepView>, ReasonView>) -> bool {
    match v {
        Ok(steps) => steps.len() <= CODEC_MAX_LEN && (forall|j: int|
            0 <= j < steps.len() ==> step_size_ok(#[trigger] steps[j]) && bytes_len_ok(
                step_enc(steps[j]),
            )),
        Err(rv) => reason_size_ok(rv) && bytes_len_ok(reason_enc_view(rv)),
    }
}

/// A result's steps and reason respect the invariants.
pub open spec fn result_view_wf(v: Result<Seq<StepView>, ReasonView>) -> bool {
    match v {
        Ok(steps) => steps_wf(steps),
        Err(rv) => crate::error::reason_view_wf(rv),
    }
}

impl TransactionResult {
    /// Whether the execution succeeded.
    pub fn is_ok(&self) -> (r: bool)
        ensures
            r == (self@ is Ok),
    {
        self.0.is_ok()
    }

    /// Hash for this transaction result: the digest of its encoding,
    /// exposed as a stable identity for indexing.
    pub fn hash(&self) -> (r: HashOf<TransactionResult>)
        requires
            result_size_ok(self@),
        ensures
            r@ == result_hash_bytes(self@),
            r.wf(),
    {
        Self::hash_from_inner(&self.0)
    }

    /// Hash for a transaction result computed from its inner representation.
    pub fn hash_from_inner(inner: &TransactionResultInner) -> (r: HashOf<TransactionResult>)
        requires
            result_size_ok(result_inner_view(*inner)),
        ensures
            r@ == result_hash_bytes(result_inner_view(*inner)),
            r.wf(),
    {
        let bytes = Self::encode_inner(inner);
        HashOf::from_untyped_unchecked(crate::crypto::Hash::digest(bytes.as_slice()))
    }

    /// Encode this result through the external codec.
    pub fn encode(&self) -> (r: Vec<u8>)
        requires
            result_size_ok(self@),
        ensures
            r@ == result_enc(self@),
    {
        Self::encode_inner(&self.0)
    }

    /// Encode a result's inner union through the external codec.
    fn encode_inner(inner: &TransactionResultInner) -> (r: Vec<u8>)
        requires
            result_size_ok(result_inner_view(*inner)),
        ensures
            r@ == result_enc(result_inner_view(*inner)),
    {
        match inner {
            Ok(steps) => {
                let ghost stepviews = steps@.map_values(|s: DataTriggerStep| s@);
                let mut encoded: Vec<Vec<u8>> = Vec::new();
                let n = steps.len();
                for k in 0..n
                    invariant
                        *inner is Ok,
                        steps@ == (*inner)->Ok_0@,
                        result_size_ok(result_inner_view(*inner)),
                        stepviews == steps@.map_values(|s: DataTriggerStep| s@),
                        n == steps@.len(),
                        encoded@.len() == k,
                        forall|j: int| 0 <= j < k ==> (#[trigger] encoded@[j])@ == step_enc(
                            steps@[j]@,
                        ),
                {
                    proof {
                        assert(stepviews[k as int] == steps@[k as int]@);
                        assert(step_size_ok(stepviews[k as int]));
                    }
                    encoded.push(steps[k].encode());
                }
                let empty: Vec<u8> = Vec::new();
                proof {
                    assert forall|j: int|
                        0 <= j < crate::codec::bytes_list_view(encoded@).len() implies bytes_len_ok(
                        #[trigger] crate::codec::bytes_list_view(encoded@)[j],
                    ) by {
                        assert(crate::codec::bytes_list_view(encoded@)[j] == encoded@[j]@);
                        assert(stepviews[j] == steps@[j]@);
                        assert(bytes_len_ok(step_enc(stepviews[j])));
                    }
                }
                let r = crate::codec::scale_encode_result(0, &encoded, &empty);
                proof {
                    assert(crate::codec::bytes_list_view(encoded@) =~= steps_enc_list(
                        steps@.map_values(|s: DataTriggerStep| s@),
                    ));
                }
                r
            },
            Err(reason) => {
                let (tag, text, itag, ibody, domain, signatory) = reason.to_parts();
                let reason_bytes = crate::codec::scale_encode_reason(
                    tag,
                    &text,
                    itag,
                    &ibody,
                    &domain,
                    &signatory,
                );
                let empty: Vec<Vec<u8>> = Vec::new();
                proof {
                    assert(crate::codec::bytes_list_view(empty@) =~= Seq::<Seq<u8>>::empty());
                }
                let r = crate::codec::scale_encode_result(1, &empty, &reason_bytes);
                r
            },
        }
    }

    /// Decode a result from its encoding. Returns the encoded result for
    /// any byte string the codec produced from a well-formed one.
    pub fn decode(bytes: &[u8]) -> (r: Option<TransactionResult>)
        ensures
            forall|v: Result<Seq<StepView>, ReasonView>|
                result_view_wf(v) && bytes@ == result_enc(v) ==> match r {
                    Some(res) => res@ == v,
                    None => false,
                },
    {
        match crate::codec::scale_decode_result(bytes) {
            Some((tag, step_bytes, reason_bytes)) => {
                if tag == 0 {
                    match Self::decode_steps(&step_bytes) {
                        Some(steps) => Some(TransactionResult(Ok(steps))),
                        None => None,
                    }
                } else if tag == 1 {
                    match Self::decode_reason(&reason_bytes) {
                        Some(reason) => Some(TransactionResult(Err(reason))),
                        None => None,
                    }
                } else {
                    None
                }
            },
            None => None,
        }
    }

    /// Decode a list of encoded data-trigger steps.
    fn decode_steps(step_bytes: &Vec<Vec<u8>>) -> (r: Option<Vec<DataTriggerStep>>)
        ensures
            forall|steps: Seq<StepView>|
                steps_wf(steps) && crate::codec::bytes_list_view(step_bytes@)
                    == #[trigger] steps_enc_list(steps) ==> match r {
                    Some(v) => v@.map_values(|s: DataTriggerStep| s@) == steps,
                    None => false,
                },
    {
        let mut v: Vec<DataTriggerStep> = Vec::new();
        let n = step_bytes.len();
        for k in 0..n
            invariant
                n == step_bytes@.len(),
                v@.len() == k,
                forall|j: int, sv: StepView|
                    0 <= j < k && instr_tags_wf(sv.instructions) && (#[trigger] step_bytes@[j])@
                        == #[trigger] step_enc(sv) ==> v@[j]@ == sv,
        {
            match DataTriggerStep::decode(step_bytes[k].as_slice()) {
                Some(s) => v.push(s),
                None => {
                    proof {
                        assert forall|steps: Seq<StepView>|
                            steps_wf(steps) && crate::codec::bytes_list_view(step_bytes@)
                                == #[trigger] steps_enc_list(steps) implies false by {
                            assert(steps_enc_list(steps).len() == steps.len());
                            assert(crate::codec::bytes_list_view(step_bytes@).len()
                                == step_bytes@.len());
                            assert(k < steps.len());
                            assert(steps_enc_list(steps)[k as int] == step_enc(steps[k as int]));
                            assert(crate::codec::bytes_list_view(step_bytes@)[k as int]
                                == step_bytes@[k as int]@);
                            assert(step_bytes@[k as int]@ == step_enc(steps[k as int]));
                            assert(instr_tags_wf(steps[k as int].instructions));
                        }
                    }
                    return None;
                },
            }
        }
        proof {
            assert forall|steps: Seq<StepView>|
                steps_wf(steps) && crate::codec::bytes_list_view(step_bytes@)
                    == #[trigger] steps_enc_list(steps) implies v@.map_values(
                |s: DataTriggerStep| s@,
            ) == steps by {
                assert(steps_enc_list(steps).len() == steps.len());
                assert(crate::codec::bytes_list_view(step_bytes@).len() == step_bytes@.len());
                assert(steps.len() == n);
                assert forall|j: int| 0 <= j < n implies (#[trigger] v@[j])@ == steps[j] by {
                    assert(steps_enc_list(steps)[j] == step_enc(steps[j]));
                    assert(crate::codec::bytes_list_view(step_bytes@)[j] == step_bytes@[j]@);
                    assert(step_bytes@[j]@ == step_enc(steps[j]));
                    assert(instr_tags_wf(steps[j].instructions));
                }
                assert(v@.map_values(|s: DataTriggerStep| s@) =~= steps);
            }
        }
        Some(v)
    }

    /// Decode an encoded rejection reason.
    fn decode_reason(bytes: &Vec<u8>) -> (r: Option<TransactionRejectionReason>)
        ensures
            forall|rv: ReasonView|
                crate::error::reason_view_wf(rv) && bytes@ == reason_enc_view(rv) ==> match r {
                    Some(reason) => reason@ == rv,
                    None => false,
                },
    {
        match crate::codec::scale_decode_reason(bytes.as_slice()) {
            Some((tag, text, itag, ibody, domain, signatory)) => {
                TransactionRejectionReason::from_parts(tag, text, itag, ibody, domain, signatory)
            },
            None => None,
        }
    }
}

impl SignedTransaction {
    /// Append a set of extra instructions to the signed payload, for fault
    /// injection in tests. Only an instruction-list executable can take
    /// them; the signature is left untouched and will no longer verify.
    pub fn inject_instructions(&mut self, extra_instructions: Vec<InstructionBox>)
        requires
            old(self)@.payload.instructions is Instructions,
        ensures
            final(self)@.signature == old(self)@.signature,
            final(self)@.payload == (PayloadView {
                instructions: ExecutableView::Instructions(
                    old(self)@.payload.instructions->Instructions_0 + extra_instructions@.map_values(
                        |i: InstructionBox| i@,
                    ),
                ),
                ..old(self)@.payload
            }),
    {
        let SignedTransaction::V1(tx) = self;
        let ghost oldlist = tx.payload.instructions@->Instructions_0;
        let mut combined: Vec<InstructionBox> = Vec::new();
        match &tx.payload.instructions {
            Executable::Instructions(v) => {
                let n1 = v.len();
                for k in 0..n1
                    invariant
                        n1 == v@.len(),
                        oldlist == v@.map_values(|i: InstructionBox| i@),
                        combined@.len() == k,
                        forall|j: int| 0 <= j < k ==> (#[trigger] combined@[j])@ == v@[j]@,
                {
                    combined.push(v[k].clone());
                }
                let n2 = extra_instructions.len();
                for k in 0..n2
                    invariant
                        n1 == v@.len(),
                        n2 == extra_instructions@.len(),
                        oldlist == v@.map_values(|i: InstructionBox| i@),
                        combined@.len() == n1 + k,
                        forall|j: int| 0 <= j < n1 ==> (#[trigger] combined@[j])@ == v@[j]@,
                        forall|j: int|
                            0 <= j < k ==> (#[trigger] combined@[n1 + j])@
                                == extra_instructions@[j]@,
                {
                    combined.push(extra_instructions[k].clone());
                }
                proof {
                    let ghost target = oldlist + extra_instructions@.map_values(
                        |i: InstructionBox| i@,
                    );
                    assert forall|j: int| 0 <= j < combined@.len() implies (#[trigger] combined@[j])@
                        == target[j] by {
                        if j < n1 {
                            assert(oldlist[j] == v@[j]@);
                        } else {
                            assert(combined@[n1 + (j - n1)]@ == extra_instructions@[j - n1]@);
                            assert(target[j] == extra_instructions@.map_values(
                                |i: InstructionBox| i@,
                            )[j - n1]);
                        }
                    }
                    assert(combined@.map_values(|i: InstructionBox| i@) =~= target);
                }
            },
            Executable::Wasm(_) => {
                proof {
                    assert(false);
                }
            },
        }
        tx.payload.instructions = Executable::Instructions(combined);
    }
}


/// Whether the text is short enough for the codec to encode.
fn check_str(s: &String) -> (r: bool)
    ensures
        r == str_len_ok(s@),
{
    s.as_str().unicode_len() <= CODEC_MAX_STR
}

/// Whether the instruction list and each body are short enough for the
/// codec to encode.
fn check_instruction_list(v: &Vec<InstructionBox>) -> (r: bool)
    ensures
        r == instr_parts_len_ok(v@.map_values(|i: InstructionBox| i@)),
{
    let ghost view = v@.map_values(|i: InstructionBox| i@);
    if v.len() > CODEC_MAX_LEN {
        return false;
    }
    let n = v.len();
    for k in 0..n
        invariant
            n == v@.len(),
            n <= CODEC_MAX_LEN,
            view == v@.map_values(|i: InstructionBox| i@),
            forall|j: int| 0 <= j < k ==> str_len_ok((#[trigger] view[j]).1),
    {
        let ok = v[k].body_len_ok();
        proof {
            assert(view[k as int] == v@[k as int]@);
        }
        if !ok {
            return false;
        }
    }
    true
}

/// Whether the executable's parts are short enough for the codec to encode.
fn check_executable(e: &Executable) -> (r: bool)
    ensures
        r == executable_size_ok(e@),
{
    match e {
        Executable::Instructions(v) => check_instruction_list(v),
        Executable::Wasm(w) => w.blob.len() <= CODEC_MAX_LEN,
    }
}

/// Whether the metadata entries and their texts are short enough for the
/// codec to encode.
fn check_metadata(m: &Metadata) -> (r: bool)
    ensures
        r == meta_parts_len_ok(m@),
{
    if m.entries.len() > CODEC_MAX_LEN {
        return false;
    }
    let n = m.entries.len();
    for k in 0..n
        invariant
            n == m.entries@.len(),
            n <= CODEC_MAX_LEN,
            forall|j: int| 0 <= j < k ==> str_len_ok((#[trigger] m@[j]).0) && str_len_ok(m@[j].1),
    {
        let key_ok = check_str(&m.entries[k].0.inner);
        let value_ok = check_str(&m.entries[k].1);
        proof {
            assert(m@[k as int] == (m.entries@[k as int].0@, m.entries@[k as int].1@));
        }
        if !key_ok || !value_ok {
            return false;
        }
    }
    true
}

impl TransactionPayload {
    /// Whether every part of this payload, its encoded executable included,
    /// is short enough for the codec to encode.
    pub fn check_size(&self) -> (r: bool)
        ensures
            r == payload_size_ok(self@),
    {
        if !check_executable(&self.instructions) {
            return false;
        }
        let executable = self.instructions.encode();
        if executable.len() > CODEC_MAX_LEN {
            return false;
        }
        check_str(&self.chain.inner) && check_str(&self.authority.domain.name.inner)
            && self.authority.signatory.payload.len() <= CODEC_MAX_LEN && check_metadata(
            &self.metadata,
        )
    }
}

impl TransactionBuilder {
    /// Sign the staged payload where its parts stay within the codec's
    /// length limit; `None` for a payload too large to encode.
    pub fn try_sign(self, private_key: &PrivateKey) -> (r: Option<SignedTransaction>)
        requires
            private_key.wf(),
        ensures
            match r {
                Some(tx) => {
                    &&& payload_size_ok(self.payload@)
                    &&& tx@ == signed_view_of(self.payload@, private_key@)
                    &&& sig_valid(
                        pk_of(private_key@),
                        payload_enc(self.payload@),
                        tx@.signature,
                    )
                    &&& (self.payload.authority.wf() && self.payload@.authority.signatory
                        == pk_of(private_key@)) ==> signature_ok(tx@)
                },
                None => !payload_size_ok(self.payload@),
            },
    {
        if self.payload.check_size() {
            Some(self.sign(private_key))
        } else {
            None
        }
    }
}

impl SignedTransaction {
    /// Whether every part of this envelope, its encoded payload included, is
    /// short enough for the codec to encode.
    pub fn check_size(&self) -> (r: bool)
        ensures
            r == signed_size_ok(self@),
    {
        let SignedTransaction::V1(tx) = self;
        if !tx.payload.check_size() {
            return false;
        }
        let payload = tx.payload.encode();
        payload.len() <= CODEC_MAX_LEN && tx.signature.0.payload.len() <= CODEC_MAX_LEN
    }

    /// Hash for this envelope where its parts stay within the codec's
    /// length limit; `None` for an envelope too large to encode.
    pub fn try_hash(&self) -> (r: Option<HashOf<SignedTransaction>>)
        ensures
            match r {
                Some(h) => signed_size_ok(self@) && h@ == tx_hash_bytes(self@) && h.wf(),
                None => !signed_size_ok(self@),
            },
    {
        if self.check_size() {
            Some(self.hash())
        } else {
            None
        }
    }

    /// Encode this envelope where its parts stay within the codec's length
    /// limit; `None` for an envelope too large to encode.
    pub fn try_encode(&self) -> (r: Option<Vec<u8>>)
        ensures
            match r {
                Some(b) => signed_size_ok(self@) && b@ == signed_enc(self@),
                None => !signed_size_ok(self@),
            },
    {
        if self.check_size() {
            Some(self.encode())
        } else {
            None
        }
    }

    /// Verify the signature where the payload stays within the codec's
    /// length limit; `None` for a payload too large to encode.
    pub fn try_verify_signature(&self) -> (r: Option<Result<(), crate::crypto::Error>>)
        ensures
            match r {
                Some(v) => payload_size_ok(self@.payload) && (v is Ok <==> signature_ok(self@)),
                None => !payload_size_ok(self@.payload),
            },
    {
        let SignedTransaction::V1(tx) = self;
        if tx.payload.check_size() {
            Some(self.verify_signature())
        } else {
            None
        }
    }
}

impl TimeTriggerEntrypoint {
    /// Whether every part of this entrypoint is short enough for the codec
    /// to encode.
    pub fn check_size(&self) -> (r: bool)
        ensures
            r == time_size_ok(self@),
    {
        check_str(&self.id.name.inner) && check_instruction_list(&self.instructions.0)
            && check_str(&self.authority.domain.name.inner)
            && self.authority.signatory.payload.len() <= CODEC_MAX_LEN
    }
}

impl TransactionEntrypoint {
    /// Whether the parts hashed for this entrypoint are short enough for
    /// the codec to encode.
    pub fn check_hash_size(&self) -> (r: bool)
        ensures
            r == entrypoint_hash_size_ok(self@),
    {
        match self {
            TransactionEntrypoint::External(tx) => tx.check_size(),
            TransactionEntrypoint::Time(t) => t.check_size(),
        }
    }

    /// Hash for this entrypoint where its parts stay within the codec's
    /// length limit; `None` for an entrypoint too large to encode.
    pub fn try_hash(&self) -> (r: Option<HashOf<TransactionEntrypoint>>)
        ensures
            match r {
                Some(h) => entrypoint_hash_size_ok(self@) && h@ == entrypoint_hash_bytes(self@)
                    && h.wf(),
                None => !entrypoint_hash_size_ok(self@),
            },
    {
        if self.check_hash_size() {
            Some(self.hash())
        } else {
            None
        }
    }

    /// Encode this entrypoint where its parts, the encoded variant content
    /// included, stay within the codec's length limit; `None` otherwise.
    pub fn try_encode(&self) -> (r: Option<Vec<u8>>)
        ensures
            match r {
                Some(b) => entrypoint_size_ok(self@) && b@ == entrypoint_enc(self@),
                None => !entrypoint_size_ok(self@),
            },
    {
        if !self.check_hash_size() {
            return None;
        }
        let body = match self {
            TransactionEntrypoint::External(tx) => tx.encode(),
            TransactionEntrypoint::Time(t) => t.encode_content(),
        };
        if body.len() > CODEC_MAX_LEN {
            return None;
        }
        Some(self.encode())
    }
}

impl DataTriggerStep {
    /// Whether every part of this step is short enough for the codec to
    /// encode.
    pub fn check_size(&self) -> (r: bool)
        ensures
            r == step_size_ok(self@),
    {
        check_str(&self.id.name.inner) && check_instruction_list(&self.instructions.0)
    }
}

impl TransactionResult {
    /// Whether every part of this result, each encoded step and the encoded
    /// reason included, is short enough for the codec to encode.
    pub fn check_size(&self) -> (r: bool)
        ensures
            r == result_size_ok(self@),
    {
        match &self.0 {
            Ok(steps) => {
                if steps.len() > CODEC_MAX_LEN {
                    return false;
                }
                let ghost stepviews = self@->Ok_0;
                let n = steps.len();
                for k in 0..n
                    invariant
                        self.0 is Ok,
                        steps@ == self.0->Ok_0@,
                        stepviews == steps@.map_values(|s: DataTriggerStep| s@),
                        n == steps@.len(),
                        n <= CODEC_MAX_LEN,
                        forall|j: int|
                            0 <= j < k ==> step_size_ok(#[trigger] stepviews[j]) && bytes_len_ok(
                                step_enc(stepviews[j]),
                            ),
                {
                    proof {
                        assert(stepviews[k as int] == steps@[k as int]@);
                    }
                    if !steps[k].check_size() {
                        return false;
                    }
                    let bytes = steps[k].encode();
                    if bytes.len() > CODEC_MAX_LEN {
                        return false;
                    }
                }
                true
            },
            Err(reason) => {
                let (tag, text, itag, ibody, domain, signatory) = reason.to_parts();
                if !(check_str(&text) && check_str(&ibody) && check_str(&domain)
                    && signatory.len() <= CODEC_MAX_LEN) {
                    return false;
                }
                let bytes = crate::codec::scale_encode_reason(
                    tag,
                    &text,
                    itag,
                    &ibody,
                    &domain,
                    &signatory,
                );
                bytes.len() <= CODEC_MAX_LEN
            },
        }
    }

    /// Hash for this result where its parts stay within the codec's length
    /// limit; `None` for a result too large to encode.
    pub fn try_hash(&self) -> (r: Option<HashOf<TransactionResult>>)
        ensures
            match r {
                Some(h) => result_size_ok(self@) && h@ == result_hash_bytes(self@) && h.wf(),
                None => !result_size_ok(self@),
            },
    {
        if self.check_size() {
            Some(self.hash())
        } else {
            None
        }
    }

    /// Encode this result where its parts stay within the codec's length
    /// limit; `None` for a result too large to encode.
    pub fn try_encode(&self) -> (r: Option<Vec<u8>>)
        ensures
            match r {
                Some(b) => result_size_ok(self@) && b@ == result_enc(self@),
                None => !result_size_ok(self@),
            },
    {
        if self.check_size() {
            Some(self.encode())
        } else {
            None
        }
    }
}

/// Signing and hashing are deterministic: two envelopes signed from the
/// same payload with the same key are one and the same value, and carry
/// equal transaction hashes.
pub proof fn lemma_sign_hash_deterministic(
    t1: SignedTransactionView,
    t2: SignedTransactionView,
    p: PayloadView,
    key: Seq<u8>,
)
    requires
        t1 == signed_view_of(p, key),
        t2 == signed_view_of(p, key),
    ensures
        t1 == t2,
        tx_hash_bytes(t1) == tx_hash_bytes(t2),
{
}

/// Wrapping a signed transaction as an external entrypoint does not change
/// the hash value: only the hash's domain tag differs.
pub proof fn lemma_external_entrypoint_hash(t: SignedTransactionView)
    ensures
        entrypoint_hash_bytes(EntrypointView::External(t)) == tx_hash_bytes(t),
{
}

/// A success result — even one with an empty step sequence — is distinct
/// from every rejection result: equality discriminates the variant first.
pub proof fn lemma_result_ok_ne_err(steps: Seq<StepView>, rv: ReasonView)
    ensures
        Ok::<Seq<StepView>, ReasonView>(steps) != Err::<Seq<StepView>, ReasonView>(rv),
{
}

/// The view of a real entrypoint whose payload respects the payload
/// invariant is well-formed, so the decoding contracts apply to it.
pub proof fn lemma_entrypoint_view_wf(e: &TransactionEntrypoint)
    requires
        e matches TransactionEntrypoint::External(tx) ==> tx.wf(),
    ensures
        entrypoint_view_wf(e@),
{
    match e {
        TransactionEntrypoint::External(_) => {},
        TransactionEntrypoint::Time(t) => {
            t.instructions.lemma_view_wf();
        },
    }
}

/// The view of a real result is always well-formed, so the decoding
/// contracts apply to it.
pub proof fn lemma_result_view_wf(r: &TransactionResult)
    ensures
        result_view_wf(r@),
{
    match &r.0 {
        Ok(steps) => {
            assert forall|j: int| 0 <= j < r@->Ok_0.len() implies instr_tags_wf(
                (#[trigger] r@->Ok_0[j]).instructions,
            ) by {
                assert(r@->Ok_0[j] == steps@[j]@);
                steps@[j].instructions.lemma_view_wf();
            }
        },
        Err(reason) => {
            crate::error::lemma_reason_view_wf(reason);
        },
    }
}

} // verus!


