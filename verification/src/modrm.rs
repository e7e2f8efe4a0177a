//! The ModRM byte: addressing mode, register field and R/M field.

use vstd::prelude::*;
use vstd::string::*;
use vstd::std_specs::convert::TryFromSpecImpl;
use crate::DissassemblerError;
use crate::reg::Register;
use crate::text::{decimal, push_decimal};

verus! {

/// How many displacement bytes follow a ModRM byte.
#[derive(Clone, Copy, Debug, PartialEq, Eq, Structural)]
pub enum DisplacementLen {
    Absent,
    Byte,
    Word,
}

/// A displacement as read from the stream, tagged with its own width.
#[derive(Clone, Copy, Debug, PartialEq, Eq, Structural)]
pub enum DisplacementValue {
    Absent,
    Byte(u8),
    Word(u16),
}

/// The addressing mode, held in the two highest bits of a ModRM byte.
#[derive(Clone, Copy, Debug, PartialEq, Eq, Structural)]
pub enum Mode {
    Memory(DisplacementLen),
    Register,
}

impl Mode {
    /// The mode that the two highest bits of `value` encode.
    pub open spec fn of_byte(value: u8) -> Mode {
        let bits = value >> 6;
        if bits == 0b00 {
            Mode::Memory(DisplacementLen::Absent)
        } else if bits == 0b01 {
            Mode::Memory(DisplacementLen::Byte)
        } else if bits == 0b10 {
            Mode::Memory(DisplacementLen::Word)
        } else {
            Mode::Register
        }
    }
}

impl TryFrom<u8> for Mode {
    type Error = DissassemblerError;

    /// Reads the mode from the two highest bits of a ModRM byte. The four
    /// patterns are all known, so this never fails.
    fn try_from(value: u8) -> (r: Result<Self, Self::Error>)
        ensures
            r == Ok::<Mode, DissassemblerError>(Mode::of_byte(value)),
    {
        let bits: u8 = value >> 6;
        let mode = match bits {
            0b00 => Mode::Memory(DisplacementLen::Absent),
            0b01 => Mode::Memory(DisplacementLen::Byte),
            0b10 => Mode::Memory(DisplacementLen::Word),
            0b11 => Mode::Register,
            _ => {
                assert(value >> 6 <= 0b11) by (bit_vector);
                return Err(DissassemblerError::InvalidMode);
            },
        };
        Ok(mode)
    }
}

impl TryFromSpecImpl<u8> for Mode {
    open spec fn obeys_try_from_spec() -> bool {
        true
    }

    open spec fn try_from_spec(value: u8) -> Result<Self, Self::Error> {
        Ok(Mode::of_byte(value))
    }
}

impl DisplacementValue {
    /// The displacement as the number it stands for.
    pub open spec fn value(self) -> nat {
        match self {
            DisplacementValue::Absent => 0,
            DisplacementValue::Byte(b) => b as nat,
            DisplacementValue::Word(w) => w as nat,
        }
    }

    /// The decimal numeral of the displacement; an absent one reads as zero.
    pub open spec fn text(self) -> Seq<char> {
        decimal(self.value())
    }

    /// What follows the registers inside the brackets: nothing for an absent
    /// displacement, else a plus sign and the numeral, whatever its value.
    pub open spec fn suffix(self) -> Seq<char> {
        match self {
            DisplacementValue::Absent => Seq::<char>::empty(),
            DisplacementValue::Byte(b) => " + "@ + decimal(b as nat),
            DisplacementValue::Word(w) => " + "@ + decimal(w as nat),
        }
    }

    fn number(&self) -> (n: u16)
        ensures
            n == self.value(),
    {
        match self {
            DisplacementValue::Absent => 0,
            DisplacementValue::Byte(b) => *b as u16,
            DisplacementValue::Word(w) => *w,
        }
    }

    /// Renders the displacement as an unsigned decimal numeral.
    pub fn to_string(&self) -> (r: String)
        ensures
            r@ == self.text(),
    {
        let mut s = String::new();
        push_decimal(&mut s, self.number());
        s
    }

    fn push_suffix(&self, out: &mut String)
        ensures
            final(out)@ == old(out)@ + self.suffix(),
    {
        match self {
            DisplacementValue::Absent => {},
            _ => {
                out.append(" + ");
                push_decimal(out, self.number());
            },
        }
    }
}

/// The address expression that a memory operand names.
#[derive(Clone, Copy, Debug, PartialEq, Eq, Structural)]
pub enum EffectiveAddress {
    /// An absolute sixteen-bit address, with no register.
    DirectAddress,
    /// One base or index register.
    SingleReg(Register),
    /// A base register and an index register.
    DoubleReg(Register, Register),
}

impl EffectiveAddress {
    /// The address expression that the three lowest bits of `value` select.
    /// Only the pattern `110` depends on the displacement length: without a
    /// displacement it is the direct address, with one it is BP.
    pub open spec fn select(value: u8, displacement: DisplacementLen) -> EffectiveAddress {
        let bits = value & 0b111;
        if bits == 0b000 {
            EffectiveAddress::DoubleReg(Register::BX, Register::SI)
        } else if bits == 0b001 {
            EffectiveAddress::DoubleReg(Register::BX, Register::DI)
        } else if bits == 0b010 {
            EffectiveAddress::DoubleReg(Register::BP, Register::SI)
        } else if bits == 0b011 {
            EffectiveAddress::DoubleReg(Register::BP, Register::DI)
        } else if bits == 0b100 {
            EffectiveAddress::SingleReg(Register::SI)
        } else if bits == 0b101 {
            EffectiveAddress::SingleReg(Register::DI)
        } else if bits == 0b110 {
            if displacement == DisplacementLen::Absent {
                EffectiveAddress::DirectAddress
            } else {
                EffectiveAddress::SingleReg(Register::BP)
            }
        } else {
            EffectiveAddress::SingleReg(Register::BX)
        }
    }

    /// What `from_with_mode` returns: register mode names no address.
    pub open spec fn spec_from_with_mode(value: u8, mode: Mode) -> Result<
        EffectiveAddress,
        DissassemblerError,
    > {
        match mode {
            Mode::Memory(displacement) => Ok(EffectiveAddress::select(value, displacement)),
            Mode::Register => Err(DissassemblerError::InvalidMode),
        }
    }

    /// Resolves the R/M field of `value` under a memory mode. Register mode is
    /// refused with `InvalidMode`; a memory mode never fails.
    pub fn from_with_mode(value: u8, mode: Mode) -> (r: Result<Self, DissassemblerError>)
        ensures
            r == EffectiveAddress::spec_from_with_mode(value, mode),
    {
        let displacement = match mode {
            Mode::Memory(displacement) => displacement,
            Mode::Register => {
                return Err(DissassemblerError::InvalidMode);
            },
        };
        let masked: u8 = value & 0b00000111;
        Ok(
            match masked {
                0b000 => EffectiveAddress::DoubleReg(Register::BX, Register::SI),
                0b001 => EffectiveAddress::DoubleReg(Register::BX, Register::DI),
                0b010 => EffectiveAddress::DoubleReg(Register::BP, Register::SI),
                0b011 => EffectiveAddress::DoubleReg(Register::BP, Register::DI),
                0b100 => EffectiveAddress::SingleReg(Register::SI),
                0b101 => EffectiveAddress::SingleReg(Register::DI),
                0b110 => {
                    if displacement == DisplacementLen::Absent {
                        EffectiveAddress::DirectAddress
                    } else {
                        EffectiveAddress::SingleReg(Register::BP)
                    }
                },
                0b111 => EffectiveAddress::SingleReg(Register::BX),
                _ => {
                    assert(value & 0b111 <= 0b111) by (bit_vector);
                    return Err(DissassemblerError::InvalidEffectiveAddress(value));
                },
            },
        )
    }

    /// The registers of the expression as they stand after the opening bracket.
    pub open spec fn registers(self) -> Seq<char> {
        match self {
            EffectiveAddress::DirectAddress => Seq::<char>::empty(),
            EffectiveAddress::SingleReg(reg) => reg.name(),
            EffectiveAddress::DoubleReg(first, second) => first.name() + " + "@ + second.name(),
        }
    }

    /// The bracketed operand. A direct address shows the displacement alone, as
    /// the absolute address; a register expression shows the displacement
    /// after its registers, if one is present.
    pub open spec fn text_with_displacement(self, disp: DisplacementValue) -> Seq<char> {
        match self {
            EffectiveAddress::DirectAddress => "["@ + disp.text() + "]"@,
            _ => "["@ + self.registers() + disp.suffix() + "]"@,
        }
    }

    fn push_registers(&self, out: &mut String)
        ensures
            final(out)@ == old(out)@ + self.registers(),
    {
        match self {
            EffectiveAddress::DirectAddress => {},
            EffectiveAddress::SingleReg(reg) => {
                out.append(reg.to_string().as_str());
            },
            EffectiveAddress::DoubleReg(first, second) => {
                out.append(first.to_string().as_str());
                out.append(" + ");
                out.append(second.to_string().as_str());
            },
        }
    }

    /// Renders the address expression with the displacement that was read for it.
    pub fn to_string_with_displacement(&self, disp: &DisplacementValue) -> (r: String)
        ensures
            r@ == self.text_with_displacement(*disp),
    {
        let mut s = String::from_str("[");
        match self {
            EffectiveAddress::DirectAddress => {
                push_decimal(&mut s, disp.number());
            },
            _ => {
                self.push_registers(&mut s);
                disp.push_suffix(&mut s);
            },
        }
        s.append("]");
        s
    }

    /// Renders a register expression without a displacement. A direct address
    /// is nothing without its displacement, so it is left out.
    pub fn to_string(&self) -> (r: String)
        requires
            !(self is DirectAddress),
        ensures
            r@ == self.text_with_displacement(DisplacementValue::Absent),
    {
        self.to_string_with_displacement(&DisplacementValue::Absent)
    }
}

/// What the R/M field of a ModRM byte resolves to.
#[derive(Clone, Copy, Debug, PartialEq, Eq, Structural)]
pub enum Rm {
    /// A memory operand, and the length of the displacement that is still to be read.
    EffectiveAddressCalculation(EffectiveAddress, DisplacementLen),
    /// A register operand.
    Register(Register),
}

impl Rm {
    /// The operand descriptor of ModRM byte `value` at the given width. A
    /// direct address is always followed by a full word, whatever the mode
    /// bits say.
    pub open spec fn of_byte(value: u8, is_word: bool) -> Rm {
        match Mode::of_byte(value) {
            Mode::Memory(displacement) => {
                let address = EffectiveAddress::select(value, displacement);
                if address == EffectiveAddress::DirectAddress {
                    Rm::EffectiveAddressCalculation(address, DisplacementLen::Word)
                } else {
                    Rm::EffectiveAddressCalculation(address, displacement)
                }
            },
            Mode::Register => Rm::Register(Register::select(value, is_word)),
        }
    }
}

/// Reads a ModRM byte whose bits 5 to 3 name a register.
pub fn parse_mod_reg_rm(value: u8, is_word: bool) -> (r: Result<
    (Mode, Register, Rm),
    DissassemblerError,
>)
    ensures
        r == Ok::<(Mode, Register, Rm), DissassemblerError>(
            (
                Mode::of_byte(value),
                Register::select(value >> 3, is_word),
                Rm::of_byte(value, is_word),
            ),
        ),
{
    let shifted: u8 = value >> 3;
    let register = match Register::try_from_with_w(shifted, is_word) {
        Ok(register) => register,
        Err(e) => {
            return Err(e);
        },
    };
    let (mode, rm) = match parse_mod_rm(value, is_word) {
        Ok(pair) => pair,
        Err(e) => {
            return Err(e);
        },
    };
    Ok((mode, register, rm))
}

/// Reads a ModRM byte without looking at its bits 5 to 3.
pub fn parse_mod_rm(value: u8, is_word: bool) -> (r: Result<(Mode, Rm), DissassemblerError>)
    ensures
        r == Ok::<(Mode, Rm), DissassemblerError>(
            (Mode::of_byte(value), Rm::of_byte(value, is_word)),
        ),
{
    let mode = match Mode::try_from(value) {
        Ok(mode) => mode,
        Err(e) => {
            return Err(e);
        },
    };
    let rm = match mode {
        Mode::Memory(displacement) => {
            let mut disp = displacement;
            let effective_addr = match EffectiveAddress::from_with_mode(value, mode) {
                Ok(address) => address,
                Err(e) => {
                    return Err(e);
                },
            };
            if disp == DisplacementLen::Absent && effective_addr
                == EffectiveAddress::DirectAddress {
                disp = DisplacementLen::Word;
            }
            Rm::EffectiveAddressCalculation(effective_addr, disp)
        },
        Mode::Register => match Register::try_from_with_w(value, is_word) {
            Ok(register) => Rm::Register(register),
            Err(e) => {
                return Err(e);
            },
        },
    };
    Ok((mode, rm))
}

/// The R/M pattern `110` without a displacement is the one encoding of the
/// direct address. Every other pattern names the same registers whatever the
/// displacement length, and so does `110` under any length but none.
pub proof fn lemma_direct_address_is_the_one_exception(
    value: u8,
    first: DisplacementLen,
    second: DisplacementLen,
)
    ensures
        EffectiveAddress::select(value, first) == EffectiveAddress::DirectAddress <==> (value
            & 0b111 == 0b110 && first == DisplacementLen::Absent),
        value & 0b111 != 0b110 ==> EffectiveAddress::select(value, first)
            == EffectiveAddress::select(value, second),
        first != DisplacementLen::Absent && second != DisplacementLen::Absent
            ==> EffectiveAddress::select(value, first) == EffectiveAddress::select(value, second),
{
}

/// A register operand carries no displacement, and a memory operand carries
/// the displacement that its mode names, but for the direct address, which
/// carries a word.
pub proof fn lemma_displacement_of_rm(value: u8, is_word: bool)
    ensures
        Mode::of_byte(value) == Mode::Register <==> Rm::of_byte(value, is_word) is Register,
        match Rm::of_byte(value, is_word) {
            Rm::Register(register) => register == Register::select(value, is_word),
            Rm::EffectiveAddressCalculation(address, len) => {
                &&& Mode::of_byte(value) is Memory
                &&& address == EffectiveAddress::select(value, Mode::of_byte(value)->Memory_0)
                &&& len == (if address == EffectiveAddress::DirectAddress {
                    DisplacementLen::Word
                } else {
                    Mode::of_byte(value)->Memory_0
                })
            },
        },
{
}

} // verus!
