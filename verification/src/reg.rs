//! The register table: a three-bit field and a width flag select one of the
//! sixteen named registers.

use vstd::prelude::*;
use vstd::string::*;
use crate::DissassemblerError;

verus! {

/// The eight byte registers and the eight word registers.
#[derive(Clone, Copy, Debug, PartialEq, Eq, Structural)]
pub enum Register {
    AL,
    CL,
    DL,
    BL,
    AH,
    CH,
    DH,
    BH,
    AX,
    CX,
    DX,
    BX,
    SP,
    BP,
    SI,
    DI,
}

impl Register {
    /// The register that the three lowest bits of `field` select at the given width.
    pub open spec fn select(field: u8, is_word: bool) -> Register {
        let code = field & 0b111;
        if code == 0b000 {
            if is_word { Register::AX } else { Register::AL }
        } else if code == 0b001 {
            if is_word { Register::CX } else { Register::CL }
        } else if code == 0b010 {
            if is_word { Register::DX } else { Register::DL }
        } else if code == 0b011 {
            if is_word { Register::BX } else { Register::BL }
        } else if code == 0b100 {
            if is_word { Register::SP } else { Register::AH }
        } else if code == 0b101 {
            if is_word { Register::BP } else { Register::CH }
        } else if code == 0b110 {
            if is_word { Register::SI } else { Register::DH }
        } else {
            if is_word { Register::DI } else { Register::BH }
        }
    }

    /// Looks a register up by the three lowest bits of `value`; a field that
    /// sits higher in its byte is shifted down by the caller first. The
    /// lookup covers all eight codes, so it never fails.
    pub fn try_from_with_w(value: u8, is_word: bool) -> (r: Result<Register, DissassemblerError>)
        ensures
            r == Ok::<Register, DissassemblerError>(Register::select(value, is_word)),
    {
        let masked: u8 = value & 0b111;
        let reg = match masked {
            0b000 => if is_word { Register::AX } else { Register::AL },
            0b001 => if is_word { Register::CX } else { Register::CL },
            0b010 => if is_word { Register::DX } else { Register::DL },
            0b011 => if is_word { Register::BX } else { Register::BL },
            0b100 => if is_word { Register::SP } else { Register::AH },
            0b101 => if is_word { Register::BP } else { Register::CH },
            0b110 => if is_word { Register::SI } else { Register::DH },
            0b111 => if is_word { Register::DI } else { Register::BH },
            _ => {
                assert(value & 0b111 <= 0b111) by (bit_vector);
                return Err(DissassemblerError::InvalidRegister);
            },
        };
        Ok(reg)
    }

    /// The accumulator of the given width.
    pub fn accumulator_from_w(is_word: bool) -> (r: Register)
        ensures
            r == (if is_word { Register::AX } else { Register::AL }),
    {
        match is_word {
            true => Register::AX,
            false => Register::AL,
        }
    }

    /// The register's name as it is written in a statement.
    pub open spec fn name(self) -> Seq<char> {
        match self {
            Register::AL => "al"@,
            Register::CL => "cl"@,
            Register::DL => "dl"@,
            Register::BL => "bl"@,
            Register::AH => "ah"@,
            Register::CH => "ch"@,
            Register::DH => "dh"@,
            Register::BH => "bh"@,
            Register::AX => "ax"@,
            Register::CX => "cx"@,
            Register::DX => "dx"@,
            Register::BX => "bx"@,
            Register::SP => "sp"@,
            Register::BP => "bp"@,
            Register::SI => "si"@,
            Register::DI => "di"@,
        }
    }

    /// The register's name in lower case.
    pub fn to_string(&self) -> (r: String)
        ensures
            r@ == self.name(),
    {
        let name = match self {
            Register::AL => "al",
            Register::CL => "cl",
            Register::DL => "dl",
            Register::BL => "bl",
            Register::AH => "ah",
            Register::CH => "ch",
            Register::DH => "dh",
            Register::BH => "bh",
            Register::AX => "ax",
            Register::CX => "cx",
            Register::DX => "dx",
            Register::BX => "bx",
            Register::SP => "sp",
            Register::BP => "bp",
            Register::SI => "si",
            Register::DI => "di",
        };
        String::from_str(name)
    }
}

/// The table names sixteen different registers: two lookups give the same
/// register only for the same code and the same width.
pub proof fn lemma_register_table_is_one_to_one(
    first: u8,
    first_word: bool,
    second: u8,
    second_word: bool,
)
    ensures
        Register::select(first, first_word) == Register::select(second, second_word) <==> (first
            & 0b111 == second & 0b111 && first_word == second_word),
{
    assert(first & 0b111 <= 0b111) by (bit_vector);
    assert(second & 0b111 <= 0b111) by (bit_vector);
}

} // verus!
