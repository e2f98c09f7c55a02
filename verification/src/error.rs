//! The closed taxonomy of reasons for which a transaction is rejected.
//!
//! Every failed execution carries exactly one reason from this set; the
//! execution engine that decides *when* each reason occurs is an external
//! collaborator, but the reportable shapes are fixed here and no construction
//! path can leave the set.
use vstd::prelude::*;

use crate::account::AccountId;
use crate::isi::instr_body;
use crate::isi::instr_kind_name;
use crate::isi::instr_tag;
use crate::isi::InstructionBox;
use vstd::string::StrSliceExecFns;
use vstd::string::StringExecFns;

verus! {

/// An entity that a transaction referred to was not found.
#[derive(Debug, Clone, PartialEq, Eq)]
pub enum FindError {
    /// The account with the given id does not exist.
    Account(AccountId),
}

/// Error which indicates max transaction limits were reached.
#[derive(Debug, Clone, PartialEq, Eq)]
pub struct TransactionLimitError {
    /// Reason why the transaction exceeds limits.
    pub reason: String,
}

/// The transaction failed the executor's validation.
#[derive(Debug, Clone, PartialEq, Eq)]
pub struct ValidationFail {
    /// Reason reported by the validator.
    pub reason: String,
}

/// Transaction was rejected because one of its instructions failed.
#[derive(Debug, Clone, PartialEq, Eq)]
pub struct InstructionExecutionFail {
    /// Instruction for which execution failed.
    pub instruction: InstructionBox,
    /// Error which happened during execution.
    pub reason: String,
}

impl InstructionExecutionFail {
    /// Instruction for which execution failed.
    pub fn instruction(&self) -> (r: &InstructionBox)
        ensures
            r == self.instruction,
    {
        &self.instruction
    }

    /// The failure rendered for a reader, naming the instruction's kind.
    pub fn message(&self) -> (r: String)
        ensures
            r@ == "Failed to execute instruction of type "@ + instr_kind_name(self.instruction)
                + ": "@ + self.reason@,
    {
        let mut s = String::from_str("Failed to execute instruction of type ");
        s.append(self.instruction.kind_name());
        s.append(": ");
        s.append(self.reason.as_str());
        s
    }
}

/// Transaction was rejected because execution of its compiled program failed.
#[derive(Debug, Clone, PartialEq, Eq)]
pub struct WasmExecutionFail {
    /// Error which happened during execution.
    pub reason: String,
}

impl WasmExecutionFail {
    /// The failure rendered for a reader.
    pub fn message(&self) -> (r: String)
        ensures
            r@ == "Failed to execute wasm binary: "@ + self.reason@,
    {
        let mut s = String::from_str("Failed to execute wasm binary: ");
        s.append(self.reason.as_str());
        s
    }
}

/// Reasons for trigger-specific execution failure.
#[derive(Debug, Clone, PartialEq, Eq, Structural)]
pub enum TriggerExecutionFail {
    /// Exceeded maximum depth for chained data triggers.
    MaxDepthExceeded,
}

/// The reason for rejecting a transaction.
#[derive(Debug, Clone, PartialEq, Eq)]
pub enum TransactionRejectionReason {
    /// Account does not exist.
    AccountDoesNotExist(FindError),
    /// Failed to validate transaction limits, e.g. number of instructions.
    LimitCheck(TransactionLimitError),
    /// Validation failed.
    Validation(ValidationFail),
    /// Failure in instruction execution.
    InstructionExecution(Box<InstructionExecutionFail>),
    /// Failure in program execution.
    WasmExecution(WasmExecutionFail),
    /// Execution of a time trigger or an invoked data trigger failed.
    TriggerExecution(TriggerExecutionFail),
}

/// The wire tag of a rejection reason's variant.
pub open spec fn reason_tag(r: TransactionRejectionReason) -> u8 {
    match r {
        TransactionRejectionReason::AccountDoesNotExist(_) => 0,
        TransactionRejectionReason::LimitCheck(_) => 1,
        TransactionRejectionReason::Validation(_) => 2,
        TransactionRejectionReason::InstructionExecution(_) => 3,
        TransactionRejectionReason::WasmExecution(_) => 4,
        TransactionRejectionReason::TriggerExecution(_) => 5,
    }
}

/// The textual reason a variant carries; empty where it carries none.
pub open spec fn reason_text(r: TransactionRejectionReason) -> Seq<char> {
    match r {
        TransactionRejectionReason::AccountDoesNotExist(_) => Seq::empty(),
        TransactionRejectionReason::LimitCheck(e) => e.reason@,
        TransactionRejectionReason::Validation(e) => e.reason@,
        TransactionRejectionReason::InstructionExecution(e) => e.reason@,
        TransactionRejectionReason::WasmExecution(e) => e.reason@,
        TransactionRejectionReason::TriggerExecution(_) => Seq::empty(),
    }
}

/// The failed instruction's wire tag; zero where no instruction is carried.
pub open spec fn reason_instr_tag(r: TransactionRejectionReason) -> u8 {
    match r {
        TransactionRejectionReason::InstructionExecution(e) => instr_tag(e.instruction),
        _ => 0,
    }
}

/// The failed instruction's body; empty where no instruction is carried.
pub open spec fn reason_instr_body(r: TransactionRejectionReason) -> Seq<char> {
    match r {
        TransactionRejectionReason::InstructionExecution(e) => instr_body(e.instruction),
        _ => Seq::empty(),
    }
}

/// The missing account's domain; empty for the other variants.
pub open spec fn reason_domain(r: TransactionRejectionReason) -> Seq<char> {
    match r {
        TransactionRejectionReason::AccountDoesNotExist(FindError::Account(id)) => id@.domain,
        _ => Seq::empty(),
    }
}

/// The missing account's signatory key bytes; empty for the other variants.
pub open spec fn reason_signatory(r: TransactionRejectionReason) -> Seq<u8> {
    match r {
        TransactionRejectionReason::AccountDoesNotExist(FindError::Account(id)) => id@.signatory,
        _ => Seq::empty(),
    }
}

/// Mathematical content of a rejection reason: the variant tag and every
/// field any variant carries, flattened.
pub struct ReasonView {
    /// Variant tag.
    pub tag: u8,
    /// Textual reason.
    pub text: Seq<char>,
    /// Failed instruction's wire tag.
    pub instr_tag: u8,
    /// Failed instruction's body.
    pub instr_body: Seq<char>,
    /// Missing account's domain.
    pub domain: Seq<char>,
    /// Missing account's signatory.
    pub signatory: Seq<u8>,
}

impl View for TransactionRejectionReason {
    type V = ReasonView;

    open spec fn view(&self) -> ReasonView {
        ReasonView {
            tag: reason_tag(*self),
            text: reason_text(*self),
            instr_tag: reason_instr_tag(*self),
            instr_body: reason_instr_body(*self),
            domain: reason_domain(*self),
            signatory: reason_signatory(*self),
        }
    }
}

impl TransactionRejectionReason {
    /// Flatten this reason into its wire parts: the variant tag and every
    /// field any variant carries, with empty stand-ins for unused fields.
    pub fn to_parts(&self) -> (r: (u8, String, u8, String, String, Vec<u8>))
        ensures
            r.0 == self@.tag,
            r.1@ == self@.text,
            r.2 == self@.instr_tag,
            r.3@ == self@.instr_body,
            r.4@ == self@.domain,
            r.5@ == self@.signatory,
    {
        match self {
            TransactionRejectionReason::AccountDoesNotExist(FindError::Account(id)) => (
                0,
                String::new(),
                0,
                String::new(),
                id.domain.name.inner.clone(),
                crate::crypto::copy_bytes(&id.signatory.payload),
            ),
            TransactionRejectionReason::LimitCheck(e) => (
                1,
                e.reason.clone(),
                0,
                String::new(),
                String::new(),
                Vec::new(),
            ),
            TransactionRejectionReason::Validation(e) => (
                2,
                e.reason.clone(),
                0,
                String::new(),
                String::new(),
                Vec::new(),
            ),
            TransactionRejectionReason::InstructionExecution(e) => {
                let (itag, ibody) = e.instruction.to_parts();
                (3, e.reason.clone(), itag, ibody, String::new(), Vec::new())
            },
            TransactionRejectionReason::WasmExecution(e) => (
                4,
                e.reason.clone(),
                0,
                String::new(),
                String::new(),
                Vec::new(),
            ),
            TransactionRejectionReason::TriggerExecution(TriggerExecutionFail::MaxDepthExceeded) => (
                5,
                String::new(),
                0,
                String::new(),
                String::new(),
                Vec::new(),
            ),
        }
    }

    /// Rebuild a reason from its wire parts. Tags outside the taxonomy, and
    /// instruction tags outside theirs, yield `None`.
    pub fn from_parts(
        tag: u8,
        text: String,
        itag: u8,
        ibody: String,
        domain: String,
        signatory: Vec<u8>,
    ) -> (r: Option<Self>)
        ensures
            r is Some <==> (tag < 6 && (tag == 3 ==> itag < crate::isi::INSTRUCTION_KIND_COUNT)),
            match r {
                Some(x) => x@ == (ReasonView {
                    tag,
                    text: if tag == 0 || tag == 5 {
                        Seq::<char>::empty()
                    } else {
                        text@
                    },
                    instr_tag: if tag == 3 {
                        itag
                    } else {
                        0
                    },
                    instr_body: if tag == 3 {
                        ibody@
                    } else {
                        Seq::<char>::empty()
                    },
                    domain: if tag == 0 {
                        domain@
                    } else {
                        Seq::<char>::empty()
                    },
                    signatory: if tag == 0 {
                        signatory@
                    } else {
                        Seq::<u8>::empty()
                    },
                }),
                None => true,
            },
    {
        match tag {
            0 => Some(
                TransactionRejectionReason::AccountDoesNotExist(
                    FindError::Account(
                        crate::account::AccountId {
                            domain: crate::account::DomainId {
                                name: crate::name::Name { inner: domain },
                            },
                            signatory: crate::crypto::PublicKey { payload: signatory },
                        },
                    ),
                ),
            ),
            1 => Some(
                TransactionRejectionReason::LimitCheck(TransactionLimitError { reason: text }),
            ),
            2 => Some(TransactionRejectionReason::Validation(ValidationFail { reason: text })),
            3 => {
                match InstructionBox::from_parts(itag, ibody) {
                    Some(instruction) => Some(
                        TransactionRejectionReason::InstructionExecution(
                            Box::new(InstructionExecutionFail { instruction, reason: text }),
                        ),
                    ),
                    None => None,
                }
            },
            4 => Some(TransactionRejectionReason::WasmExecution(WasmExecutionFail { reason: text })),
            5 => Some(
                TransactionRejectionReason::TriggerExecution(TriggerExecutionFail::MaxDepthExceeded),
            ),
            _ => None,
        }
    }
}

/// The views that real rejection reasons take: the tag lies in the taxonomy
/// and the fields a variant does not carry are empty.
pub open spec fn reason_view_wf(rv: ReasonView) -> bool {
    &&& rv.tag < 6
    &&& (rv.tag == 0 ==> rv.text == Seq::<char>::empty())
    &&& (rv.tag == 3 ==> rv.instr_tag < crate::isi::INSTRUCTION_KIND_COUNT)
    &&& (rv.tag != 3 ==> rv.instr_tag == 0 && rv.instr_body == Seq::<char>::empty())
    &&& (rv.tag != 0 ==> rv.domain == Seq::<char>::empty() && rv.signatory == Seq::<u8>::empty())
    &&& (rv.tag == 5 ==> rv.text == Seq::<char>::empty())
}

/// The view of a real rejection reason is always well-formed.
pub proof fn lemma_reason_view_wf(r: &TransactionRejectionReason)
    ensures
        reason_view_wf(r@),
{
}

/// Every rejection reason matches exactly one variant of the closed
/// taxonomy: the six variant predicates are exhaustive and mutually
/// exclusive.
pub proof fn lemma_reason_taxonomy_exhaustive(r: TransactionRejectionReason)
    ensures
        (r is AccountDoesNotExist || r is LimitCheck || r is Validation
            || r is InstructionExecution || r is WasmExecution || r is TriggerExecution),
        r is AccountDoesNotExist <==> reason_tag(r) == 0,
        r is LimitCheck <==> reason_tag(r) == 1,
        r is Validation <==> reason_tag(r) == 2,
        r is InstructionExecution <==> reason_tag(r) == 3,
        r is WasmExecution <==> reason_tag(r) == 4,
        r is TriggerExecution <==> reason_tag(r) == 5,
{
}

} // verus!
