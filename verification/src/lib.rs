//! A decoder for a subset of the Intel 8086 instruction encoding.
//!
//! A raw instruction stream goes in, a listing of assembly statements comes
//! out. Every function states what it computes over a mathematical model of
//! the encoding, and Verus proves the statement.

use vstd::prelude::*;
use vstd::string::*;

pub mod disassembler;
pub mod modrm;
pub mod opcodes;
pub mod operation;
pub mod reg;
pub mod stream;
pub mod text;

pub use crate::disassembler::Disassembler;
use crate::text::{binary, push_binary};

verus! {

/// Why a decode pass stopped before the end of the stream.
#[derive(Clone, Copy, Debug, PartialEq, Eq, Structural)]
pub enum DissassemblerError {
    /// The first byte of an instruction matches no known opcode pattern.
    InvalidOpcode(u8),
    /// A mode field outside the two-bit value space.
    InvalidMode,
    /// A register field outside the three-bit value space.
    InvalidRegister,
    /// An R/M field outside the three-bit value space.
    InvalidEffectiveAddress(u8),
    /// The sub-field of the second byte names no instruction of the family
    /// that the first byte selects. Holds the first and the second byte.
    InvalidModRm(u8, u8),
    /// The stream ended inside an instruction.
    TruncatedInstruction,
}

impl DissassemblerError {
    /// The message of the error, one line with its line feed. A byte is shown
    /// in base two with all eight digits.
    pub open spec fn text(self) -> Seq<char> {
        match self {
            DissassemblerError::InvalidOpcode(op) => "Invalid Opcode 0b"@ + binary(op as nat, 8)
                + "\n"@,
            DissassemblerError::InvalidMode => "Invalid mode\n"@,
            DissassemblerError::InvalidRegister => "Invalid Register\n"@,
            DissassemblerError::InvalidEffectiveAddress(addr) => "Invalid effective address 0b"@
                + binary(addr as nat, 8) + "\n"@,
            DissassemblerError::InvalidModRm(first, second) => "Invalid mod r/m 0b"@ + binary(
                second as nat,
                8,
            ) + " after opcode 0b"@ + binary(first as nat, 8) + "\n"@,
            DissassemblerError::TruncatedInstruction => "Truncated instruction\n"@,
        }
    }

    /// Renders the message of the error.
    pub fn to_string(&self) -> (r: String)
        ensures
            r@ == self.text(),
    {
        match self {
            DissassemblerError::InvalidOpcode(op) => {
                let mut s = String::from_str("Invalid Opcode 0b");
                push_binary(&mut s, *op, 8);
                s.append("\n");
                s
            },
            DissassemblerError::InvalidMode => String::from_str("Invalid mode\n"),
            DissassemblerError::InvalidRegister => String::from_str("Invalid Register\n"),
            DissassemblerError::InvalidEffectiveAddress(addr) => {
                let mut s = String::from_str("Invalid effective address 0b");
                push_binary(&mut s, *addr, 8);
                s.append("\n");
                s
            },
            DissassemblerError::InvalidModRm(first, second) => {
                let mut s = String::from_str("Invalid mod r/m 0b");
                push_binary(&mut s, *second, 8);
                s.append(" after opcode 0b");
                push_binary(&mut s, *first, 8);
                s.append("\n");
                s
            },
            DissassemblerError::TruncatedInstruction => String::from_str("Truncated instruction\n"),
        }
    }
}

} // verus!
