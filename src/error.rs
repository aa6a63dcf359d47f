//! Failures the core can report to its host.
use vstd::prelude::*;

verus! {

/// The error taxonomy of the core.
#[derive(Debug, Clone, Copy, PartialEq, Eq, Structural)]
pub enum GBError {
    /// A byte with no instruction on this CPU family.
    UnmappedOpcode(u8),
    /// A register or register-pair index outside its valid set.
    InvalidOperandIndex,
    /// A ROM image too short or internally inconsistent.
    MalformedCartridgeImage,
}

pub type GBResult<T> = Result<T, GBError>;

impl GBError {
    /// A short human-readable description of the error.
    pub fn message(&self) -> (r: &'static str)
        ensures
            r@ == self.message_spec(),
    {
        match self {
            GBError::UnmappedOpcode(_) => "Instruction not found.",
            GBError::InvalidOperandIndex => "Invalid operand index.",
            GBError::MalformedCartridgeImage => "Malformed cartridge image.",
        }
    }

    pub open spec fn message_spec(&self) -> Seq<char> {
        match self {
            GBError::UnmappedOpcode(_) => "Instruction not found."@,
            GBError::InvalidOperandIndex => "Invalid operand index."@,
            GBError::MalformedCartridgeImage => "Malformed cartridge image."@,
        }
    }
}

} // verus!
