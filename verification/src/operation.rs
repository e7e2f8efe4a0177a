//! Decoded statements and their text.

use vstd::prelude::*;
use vstd::string::*;
use crate::modrm::{DisplacementValue, EffectiveAddress};
use crate::opcodes::OpcodeMnemonic;
use crate::reg::Register;
use crate::text::{decimal, push_decimal, push_signed_decimal, signed_decimal};

verus! {

/// One operand of a statement.
#[derive(Clone, Copy, Debug, PartialEq, Eq, Structural)]
pub enum Operand {
    /// A memory operand and the displacement that was read for it.
    EffectiveAddress(EffectiveAddress, DisplacementValue),
    Register(Register),
    /// An immediate of one byte, as stored.
    DataByte(u8),
    /// An immediate of two bytes.
    DataWord(u16),
    /// The signed offset of a short jump.
    SignedJump(i8),
}

impl Operand {
    /// The operand as it is written in a statement.
    pub open spec fn text(self) -> Seq<char> {
        match self {
            Operand::EffectiveAddress(address, displacement) => address.text_with_displacement(
                displacement,
            ),
            Operand::Register(register) => register.name(),
            Operand::DataByte(b) => decimal(b as nat),
            Operand::DataWord(w) => decimal(w as nat),
            Operand::SignedJump(j) => signed_decimal(j as int),
        }
    }

    /// Renders the operand.
    pub fn to_string(&self) -> (r: String)
        ensures
            r@ == self.text(),
    {
        match self {
            Operand::EffectiveAddress(address, displacement) => {
                address.to_string_with_displacement(displacement)
            },
            Operand::Register(register) => register.to_string(),
            Operand::DataByte(b) => {
                let mut s = String::new();
                push_decimal(&mut s, *b as u16);
                s
            },
            Operand::DataWord(w) => {
                let mut s = String::new();
                push_decimal(&mut s, *w);
                s
            },
            Operand::SignedJump(j) => {
                let mut s = String::new();
                push_signed_decimal(&mut s, *j);
                s
            },
        }
    }
}

/// One decoded statement: a mnemonic, a destination and, but for jumps and
/// loops, a source.
#[derive(Clone, Copy, Debug, PartialEq, Eq, Structural)]
pub struct Operation {
    pub opcode: OpcodeMnemonic,
    pub dest: Operand,
    pub src: Option<Operand>,
}

impl Operation {
    pub fn new(opcode: OpcodeMnemonic, dest: Operand, src: Option<Operand>) -> (r: Self)
        ensures
            r == (Operation { opcode, dest, src }),
    {
        Self { opcode, dest, src }
    }

    /// The statement names an instruction, not the marker for an unresolved one.
    pub open spec fn is_resolved(self) -> bool {
        self.opcode != OpcodeMnemonic::NeedsNextByte
    }

    /// The statement as one line of assembly: the mnemonic, a space, the
    /// destination and, if there is a source, a comma, a space and the source.
    pub open spec fn text(self) -> Seq<char> {
        self.opcode.text() + " "@ + self.dest.text() + match self.src {
            Some(source) => ", "@ + source.text(),
            None => Seq::<char>::empty(),
        }
    }

    /// Renders the statement. A statement that still holds the marker names no
    /// instruction and is left out.
    pub fn to_string(&self) -> (r: String)
        requires
            self.is_resolved(),
        ensures
            r@ == self.text(),
    {
        let mut op = self.opcode.to_string();
        op.append(" ");
        op.append(self.dest.to_string().as_str());
        if let Some(source) = &self.src {
            op.append(", ");
            op.append(source.to_string().as_str());
        }
        op
    }
}

} // verus!
