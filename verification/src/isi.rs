//! Instructions: the units of work a transaction may carry.
//!
//! The interpreter for instructions is an external collaborator; this model
//! keeps, for each instruction, its kind and an opaque textual body, which is
//! all the lifecycle core reads: instructions are stored, compared, encoded,
//! and named in rejection reasons.
use vstd::prelude::*;

use vstd::string::StrSliceExecFns;

verus! {

/// One instruction, tagged by kind, with an opaque body.
#[derive(Debug, PartialEq, Eq)]
pub enum InstructionBox {
    /// Destroy some quantity of an asset.
    Burn(String),
    /// Create some quantity of an asset.
    Mint(String),
    /// Register a new entity.
    Register(String),
    /// Transfer an asset between accounts.
    Transfer(String),
    /// Remove a registered entity.
    Unregister(String),
    /// Set a key/value pair on an entity.
    SetKeyValue(String),
    /// Remove a key/value pair from an entity.
    RemoveKeyValue(String),
    /// Grant a permission or role.
    Grant(String),
    /// Revoke a permission or role.
    Revoke(String),
    /// Invoke a trigger by id.
    ExecuteTrigger(String),
    /// Set a chain-wide parameter.
    SetParameter(String),
    /// Upgrade the executor.
    Upgrade(String),
    /// Emit a log message.
    Log(String),
    /// An instruction understood only by a custom executor.
    Custom(String),
}

/// Number of instruction kinds.
pub const INSTRUCTION_KIND_COUNT: u8 = 14;

/// The wire tag of an instruction's kind.
pub open spec fn instr_tag(i: InstructionBox) -> u8 {
    match i {
        InstructionBox::Burn(_) => 0,
        InstructionBox::Mint(_) => 1,
        InstructionBox::Register(_) => 2,
        InstructionBox::Transfer(_) => 3,
        InstructionBox::Unregister(_) => 4,
        InstructionBox::SetKeyValue(_) => 5,
        InstructionBox::RemoveKeyValue(_) => 6,
        InstructionBox::Grant(_) => 7,
        InstructionBox::Revoke(_) => 8,
        InstructionBox::ExecuteTrigger(_) => 9,
        InstructionBox::SetParameter(_) => 10,
        InstructionBox::Upgrade(_) => 11,
        InstructionBox::Log(_) => 12,
        InstructionBox::Custom(_) => 13,
    }
}

/// The opaque body of an instruction.
pub open spec fn instr_body(i: InstructionBox) -> Seq<char> {
    match i {
        InstructionBox::Burn(b) => b@,
        InstructionBox::Mint(b) => b@,
        InstructionBox::Register(b) => b@,
        InstructionBox::Transfer(b) => b@,
        InstructionBox::Unregister(b) => b@,
        InstructionBox::SetKeyValue(b) => b@,
        InstructionBox::RemoveKeyValue(b) => b@,
        InstructionBox::Grant(b) => b@,
        InstructionBox::Revoke(b) => b@,
        InstructionBox::ExecuteTrigger(b) => b@,
        InstructionBox::SetParameter(b) => b@,
        InstructionBox::Upgrade(b) => b@,
        InstructionBox::Log(b) => b@,
        InstructionBox::Custom(b) => b@,
    }
}

impl View for InstructionBox {
    type V = (u8, Seq<char>);

    open spec fn view(&self) -> (u8, Seq<char>) {
        (instr_tag(*self), instr_body(*self))
    }
}

/// The human-readable kind of an instruction, as used in failure messages.
pub open spec fn instr_kind_name(i: InstructionBox) -> Seq<char> {
    match i {
        InstructionBox::Burn(_) => "burn"@,
        InstructionBox::Mint(_) => "mint"@,
        InstructionBox::Register(_) => "register"@,
        InstructionBox::Transfer(_) => "transfer"@,
        InstructionBox::Unregister(_) => "un-register"@,
        InstructionBox::SetKeyValue(_) => "set key-value pair"@,
        InstructionBox::RemoveKeyValue(_) => "remove key-value pair"@,
        InstructionBox::Grant(_) => "grant"@,
        InstructionBox::Revoke(_) => "revoke"@,
        InstructionBox::ExecuteTrigger(_) => "execute trigger"@,
        InstructionBox::SetParameter(_) => "set parameter"@,
        InstructionBox::Upgrade(_) => "upgrade"@,
        InstructionBox::Log(_) => "log"@,
        InstructionBox::Custom(_) => "custom"@,
    }
}

impl InstructionBox {
    /// The human-readable kind of this instruction.
    pub fn kind_name(&self) -> (r: &'static str)
        ensures
            r@ == instr_kind_name(*self),
    {
        match self {
            InstructionBox::Burn(_) => "burn",
            InstructionBox::Mint(_) => "mint",
            InstructionBox::Register(_) => "register",
            InstructionBox::Transfer(_) => "transfer",
            InstructionBox::Unregister(_) => "un-register",
            InstructionBox::SetKeyValue(_) => "set key-value pair",
            InstructionBox::RemoveKeyValue(_) => "remove key-value pair",
            InstructionBox::Grant(_) => "grant",
            InstructionBox::Revoke(_) => "revoke",
            InstructionBox::ExecuteTrigger(_) => "execute trigger",
            InstructionBox::SetParameter(_) => "set parameter",
            InstructionBox::Upgrade(_) => "upgrade",
            InstructionBox::Log(_) => "log",
            InstructionBox::Custom(_) => "custom",
        }
    }

    /// Split this instruction into its wire tag and its body.
    pub fn to_parts(&self) -> (r: (u8, String))
        ensures
            r.0 == instr_tag(*self),
            r.1@ == instr_body(*self),
    {
        match self {
            InstructionBox::Burn(b) => (0, b.clone()),
            InstructionBox::Mint(b) => (1, b.clone()),
            InstructionBox::Register(b) => (2, b.clone()),
            InstructionBox::Transfer(b) => (3, b.clone()),
            InstructionBox::Unregister(b) => (4, b.clone()),
            InstructionBox::SetKeyValue(b) => (5, b.clone()),
            InstructionBox::RemoveKeyValue(b) => (6, b.clone()),
            InstructionBox::Grant(b) => (7, b.clone()),
            InstructionBox::Revoke(b) => (8, b.clone()),
            InstructionBox::ExecuteTrigger(b) => (9, b.clone()),
            InstructionBox::SetParameter(b) => (10, b.clone()),
            InstructionBox::Upgrade(b) => (11, b.clone()),
            InstructionBox::Log(b) => (12, b.clone()),
            InstructionBox::Custom(b) => (13, b.clone()),
        }
    }


    /// Whether the body is short enough for the external codec to encode.
    pub fn body_len_ok(&self) -> (r: bool)
        ensures
            r == crate::codec::str_len_ok(instr_body(*self)),
    {
        let (_, body) = self.to_parts();
        body.as_str().unicode_len() <= crate::codec::CODEC_MAX_STR
    }

    /// Rebuild an instruction from its wire tag and body. Tags outside the
    /// taxonomy yield `None`.
    pub fn from_parts(tag: u8, body: String) -> (r: Option<InstructionBox>)
        ensures
            r is Some <==> tag < INSTRUCTION_KIND_COUNT,
            match r {
                Some(i) => i@ == (tag, body@),
                None => true,
            },
    {
        match tag {
            0 => Some(InstructionBox::Burn(body)),
            1 => Some(InstructionBox::Mint(body)),
            2 => Some(InstructionBox::Register(body)),
            3 => Some(InstructionBox::Transfer(body)),
            4 => Some(InstructionBox::Unregister(body)),
            5 => Some(InstructionBox::SetKeyValue(body)),
            6 => Some(InstructionBox::RemoveKeyValue(body)),
            7 => Some(InstructionBox::Grant(body)),
            8 => Some(InstructionBox::Revoke(body)),
            9 => Some(InstructionBox::ExecuteTrigger(body)),
            10 => Some(InstructionBox::SetParameter(body)),
            11 => Some(InstructionBox::Upgrade(body)),
            12 => Some(InstructionBox::Log(body)),
            13 => Some(InstructionBox::Custom(body)),
            _ => None,
        }
    }
}

impl Clone for InstructionBox {
    fn clone(&self) -> (r: Self)
        ensures
            r@ == self@,
    {
        match self {
            InstructionBox::Burn(b) => InstructionBox::Burn(b.clone()),
            InstructionBox::Mint(b) => InstructionBox::Mint(b.clone()),
            InstructionBox::Register(b) => InstructionBox::Register(b.clone()),
            InstructionBox::Transfer(b) => InstructionBox::Transfer(b.clone()),
            InstructionBox::Unregister(b) => InstructionBox::Unregister(b.clone()),
            InstructionBox::SetKeyValue(b) => InstructionBox::SetKeyValue(b.clone()),
            InstructionBox::RemoveKeyValue(b) => InstructionBox::RemoveKeyValue(b.clone()),
            InstructionBox::Grant(b) => InstructionBox::Grant(b.clone()),
            InstructionBox::Revoke(b) => InstructionBox::Revoke(b.clone()),
            InstructionBox::ExecuteTrigger(b) => InstructionBox::ExecuteTrigger(b.clone()),
            InstructionBox::SetParameter(b) => InstructionBox::SetParameter(b.clone()),
            InstructionBox::Upgrade(b) => InstructionBox::Upgrade(b.clone()),
            InstructionBox::Log(b) => InstructionBox::Log(b.clone()),
            InstructionBox::Custom(b) => InstructionBox::Custom(b.clone()),
        }
    }
}

} // verus!
