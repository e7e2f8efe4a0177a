//! The opcode classifier: the first byte of an instruction is held against a
//! table of bit-mask patterns, and the row that matches says which
//! instruction it is and how the bytes after it are laid out.

use vstd::prelude::*;
use vstd::string::*;
use vstd::std_specs::convert::TryFromSpecImpl;
use crate::DissassemblerError;
use crate::reg::Register;

verus! {

/// The instruction names of the subset, and a marker for an opcode byte that
/// does not name its instruction alone.
#[derive(Clone, Copy, Debug, PartialEq, Eq, Structural)]
pub enum OpcodeMnemonic {
    Mov,
    Add,
    Sub,
    Cmp,
    Je,
    Jl,
    Jle,
    Jb,
    Jbe,
    Jp,
    Jo,
    Js,
    Jne,
    Jnl,
    Jg,
    Jnb,
    Jnbe,
    Jnp,
    Jno,
    Jns,
    Loop,
    Loopz,
    Loopnz,
    Jcxz,
    /// The instruction is named by bits 5 to 3 of the byte that follows.
    NeedsNextByte,
}

impl OpcodeMnemonic {
    /// The mnemonic in lower case. The marker has no text.
    pub open spec fn text(self) -> Seq<char> {
        match self {
            OpcodeMnemonic::Mov => "mov"@,
            OpcodeMnemonic::Add => "add"@,
            OpcodeMnemonic::Sub => "sub"@,
            OpcodeMnemonic::Cmp => "cmp"@,
            OpcodeMnemonic::Je => "je"@,
            OpcodeMnemonic::Jl => "jl"@,
            OpcodeMnemonic::Jle => "jle"@,
            OpcodeMnemonic::Jb => "jb"@,
            OpcodeMnemonic::Jbe => "jbe"@,
            OpcodeMnemonic::Jp => "jp"@,
            OpcodeMnemonic::Jo => "jo"@,
            OpcodeMnemonic::Js => "js"@,
            OpcodeMnemonic::Jne => "jne"@,
            OpcodeMnemonic::Jnl => "jnl"@,
            OpcodeMnemonic::Jg => "jg"@,
            OpcodeMnemonic::Jnb => "jnb"@,
            OpcodeMnemonic::Jnbe => "jnbe"@,
            OpcodeMnemonic::Jnp => "jnp"@,
            OpcodeMnemonic::Jno => "jno"@,
            OpcodeMnemonic::Jns => "jns"@,
            OpcodeMnemonic::Loop => "loop"@,
            OpcodeMnemonic::Loopz => "loopz"@,
            OpcodeMnemonic::Loopnz => "loopnz"@,
            OpcodeMnemonic::Jcxz => "jcxz"@,
            OpcodeMnemonic::NeedsNextByte => Seq::<char>::empty(),
        }
    }

    /// Renders the mnemonic in lower case. The marker stands for no
    /// instruction and is left out.
    pub fn to_string(&self) -> (r: String)
        requires
            *self != OpcodeMnemonic::NeedsNextByte,
        ensures
            r@ == self.text(),
    {
        let name = match self {
            OpcodeMnemonic::Mov => "mov",
            OpcodeMnemonic::Add => "add",
            OpcodeMnemonic::Sub => "sub",
            OpcodeMnemonic::Cmp => "cmp",
            OpcodeMnemonic::Je => "je",
            OpcodeMnemonic::Jl => "jl",
            OpcodeMnemonic::Jle => "jle",
            OpcodeMnemonic::Jb => "jb",
            OpcodeMnemonic::Jbe => "jbe",
            OpcodeMnemonic::Jp => "jp",
            OpcodeMnemonic::Jo => "jo",
            OpcodeMnemonic::Js => "js",
            OpcodeMnemonic::Jne => "jne",
            OpcodeMnemonic::Jnl => "jnl",
            OpcodeMnemonic::Jg => "jg",
            OpcodeMnemonic::Jnb => "jnb",
            OpcodeMnemonic::Jnbe => "jnbe",
            OpcodeMnemonic::Jnp => "jnp",
            OpcodeMnemonic::Jno => "jno",
            OpcodeMnemonic::Jns => "jns",
            OpcodeMnemonic::Loop => "loop",
            OpcodeMnemonic::Loopz => "loopz",
            OpcodeMnemonic::Loopnz => "loopnz",
            OpcodeMnemonic::Jcxz => "jcxz",
            OpcodeMnemonic::NeedsNextByte => "",
        };
        String::from_str(name)
    }

    /// Bits 5 to 3 of a ModRM byte, which extend the opcode for some families.
    pub open spec fn extension(mod_rm: u8) -> u8 {
        (mod_rm & 0b0011_1000) >> 3
    }

    /// The instruction that the first byte and the extension field of the
    /// second byte name together, or the error for a pair that names none.
    pub open spec fn spec_with_mod_rm(opcode_val: u8, mod_rm: u8) -> Result<
        OpcodeMnemonic,
        DissassemblerError,
    > {
        let ext = OpcodeMnemonic::extension(mod_rm);
        if ext == 0b000 && 0b1100_0110 <= opcode_val <= 0b1100_0111 {
            Ok(OpcodeMnemonic::Mov)
        } else if ext == 0b000 && 0b1000_0000 <= opcode_val <= 0b1000_0011 {
            Ok(OpcodeMnemonic::Add)
        } else if ext == 0b101 && 0b1000_0000 <= opcode_val <= 0b1000_0011 {
            Ok(OpcodeMnemonic::Sub)
        } else if ext == 0b111 && 0b1000_0000 <= opcode_val <= 0b1000_0011 {
            Ok(OpcodeMnemonic::Cmp)
        } else {
            Err(DissassemblerError::InvalidModRm(opcode_val, mod_rm))
        }
    }

    /// Names the instruction of a family that shares its first byte, from bits
    /// 5 to 3 of the ModRM byte. A pair that names no instruction is an error.
    pub fn with_mod_rm(opcode_val: u8, mod_rm: u8) -> (r: Result<
        OpcodeMnemonic,
        DissassemblerError,
    >)
        ensures
            r == OpcodeMnemonic::spec_with_mod_rm(opcode_val, mod_rm),
    {
        let masked: u8 = mod_rm & 0b0011_1000;
        let shifted: u8 = masked >> 3;
        let immediate_family = 0b1000_0000 <= opcode_val && opcode_val <= 0b1000_0011;
        let move_family = 0b1100_0110 <= opcode_val && opcode_val <= 0b1100_0111;
        match shifted {
            0b000 if move_family => Ok(OpcodeMnemonic::Mov),
            0b000 if immediate_family => Ok(OpcodeMnemonic::Add),
            0b101 if immediate_family => Ok(OpcodeMnemonic::Sub),
            0b111 if immediate_family => Ok(OpcodeMnemonic::Cmp),
            _ => Err(DissassemblerError::InvalidModRm(opcode_val, mod_rm)),
        }
    }
}

/// Which bytes follow the opcode byte.
#[derive(Clone, Copy, Debug, PartialEq, Eq, Structural)]
pub enum NextFieldType {
    /// A ModRM byte whose bits 5 to 3 name a register.
    ModRegRm,
    /// A ModRM byte whose bits 5 to 3 extend the opcode, then an immediate.
    ModOpcodeContRm,
    /// An immediate for the register that the opcode byte itself names.
    Data,
    /// An address. No opcode of the subset has this layout.
    Addr,
    /// A signed byte that is added to the instruction pointer.
    IpInc8,
    /// Nothing. No opcode of the subset has this layout.
    Absent,
}

/// How the low bits of an opcode byte are read, and what follows the byte.
#[derive(Clone, Copy, Debug, PartialEq, Eq, Structural)]
pub enum OpcodeForm {
    /// `......dw`, then a ModRM byte with a register field.
    RegisterMemoryWithRegister,
    /// `.......w`, then a ModRM byte and an immediate of that width.
    ImmediateToRegisterMemory,
    /// `......sw`, then a ModRM byte that names the instruction, and an immediate.
    SignedImmediateToRegisterMemory,
    /// `....wreg`, then an immediate.
    ImmediateToRegister,
    /// `.......w`, then an immediate for the accumulator.
    ImmediateToAccumulator,
    /// The whole byte, then a signed offset of one byte.
    ShortJump,
}

/// One row of the opcode table: a byte `b` belongs to the row if
/// `b & mask == value`.
#[derive(Clone, Copy, Debug, PartialEq, Eq, Structural)]
pub struct OpcodePattern {
    pub mask: u8,
    pub value: u8,
    pub mnemonic: OpcodeMnemonic,
    pub form: OpcodeForm,
}

/// The number of rows of the opcode table.
pub const PATTERN_COUNT: usize = 30;

/// What the classifier knows of an instruction after its first byte.
#[derive(Clone, Copy, Debug, PartialEq, Eq, Structural)]
pub struct OpcodeContext {
    pub first_byte_raw: u8,
    pub mnemonic: OpcodeMnemonic,
    pub next_field: NextFieldType,
    /// The direction bit: true if the register field is the destination.
    pub d: Option<bool>,
    /// The width flag: true for sixteen-bit operands.
    pub w: Option<bool>,
    /// The sign bit: true if a wide immediate is stored as one byte.
    pub s: Option<bool>,
    pub reg: Option<Register>,
    pub has_data: bool,
}

/// Bit 0 of an opcode byte.
pub open spec fn lsb(value: u8) -> bool {
    (value & 0b1) != 0
}

/// Bit 1 of an opcode byte.
pub open spec fn second_lsb(value: u8) -> bool {
    (value & 0b10) != 0
}

/// Bit 3 of an opcode byte, the width flag of the `....wreg` form.
pub open spec fn fourth_lsb(value: u8) -> bool {
    (value & 0b1000) != 0
}

impl OpcodePattern {
    /// The row of a short jump or loop: the whole byte is the opcode.
    pub open spec fn jump(value: u8, mnemonic: OpcodeMnemonic) -> OpcodePattern {
        OpcodePattern { mask: 0b1111_1111, value, mnemonic, form: OpcodeForm::ShortJump }
    }

    /// The rows of the opcode table, in the order in which they are tried. Two
    /// bytes, `0b0111_0101` and `0b0111_1101`, share the mnemonic `jne`.
    pub open spec fn row(index: usize) -> OpcodePattern
        recommends
            index < PATTERN_COUNT,
    {
        if index == 0 {
            OpcodePattern {
                mask: 0b1111_1100,
                value: 0b1000_1000,
                mnemonic: OpcodeMnemonic::Mov,
                form: OpcodeForm::RegisterMemoryWithRegister,
            }
        } else if index == 1 {
            OpcodePattern {
                mask: 0b1111_1110,
                value: 0b1100_0110,
                mnemonic: OpcodeMnemonic::Mov,
                form: OpcodeForm::ImmediateToRegisterMemory,
            }
        } else if index == 2 {
            OpcodePattern {
                mask: 0b1111_0000,
                value: 0b1011_0000,
                mnemonic: OpcodeMnemonic::Mov,
                form: OpcodeForm::ImmediateToRegister,
            }
        } else if index == 3 {
            OpcodePattern {
                mask: 0b1111_1100,
                value: 0b0000_0000,
                mnemonic: OpcodeMnemonic::Add,
                form: OpcodeForm::RegisterMemoryWithRegister,
            }
        } else if index == 4 {
            OpcodePattern {
                mask: 0b1111_1100,
                value: 0b1000_0000,
                mnemonic: OpcodeMnemonic::NeedsNextByte,
                form: OpcodeForm::SignedImmediateToRegisterMemory,
            }
        } else if index == 5 {
            OpcodePattern {
                mask: 0b1111_1110,
                value: 0b0000_0100,
                mnemonic: OpcodeMnemonic::Add,
                form: OpcodeForm::ImmediateToAccumulator,
            }
        } else if index == 6 {
            OpcodePattern {
                mask: 0b1111_1100,
                value: 0b0010_1000,
                mnemonic: OpcodeMnemonic::Sub,
                form: OpcodeForm::RegisterMemoryWithRegister,
            }
        } else if index == 7 {
            OpcodePattern {
                mask: 0b1111_1110,
                value: 0b0010_1100,
                mnemonic: OpcodeMnemonic::Sub,
                form: OpcodeForm::ImmediateToAccumulator,
            }
        } else if index == 8 {
            OpcodePattern {
                mask: 0b1111_1100,
                value: 0b0011_1000,
                mnemonic: OpcodeMnemonic::Cmp,
                form: OpcodeForm::RegisterMemoryWithRegister,
            }
        } else if index == 9 {
            OpcodePattern {
                mask: 0b1111_1110,
                value: 0b0011_1100,
                mnemonic: OpcodeMnemonic::Cmp,
                form: OpcodeForm::ImmediateToAccumulator,
            }
        } else if index == 10 {
            OpcodePattern::jump(0b0111_0100, OpcodeMnemonic::Je)
        } else if index == 11 {
            OpcodePattern::jump(0b0111_1100, OpcodeMnemonic::Jl)
        } else if index == 12 {
            OpcodePattern::jump(0b0111_1110, OpcodeMnemonic::Jle)
        } else if index == 13 {
            OpcodePattern::jump(0b0111_0010, OpcodeMnemonic::Jb)
        } else if index == 14 {
            OpcodePattern::jump(0b0111_0110, OpcodeMnemonic::Jbe)
        } else if index == 15 {
            OpcodePattern::jump(0b0111_1010, OpcodeMnemonic::Jp)
        } else if index == 16 {
            OpcodePattern::jump(0b0111_0000, OpcodeMnemonic::Jo)
        } else if index == 17 {
            OpcodePattern::jump(0b0111_1000, OpcodeMnemonic::Js)
        } else if index == 18 {
            OpcodePattern::jump(0b0111_0101, OpcodeMnemonic::Jne)
        } else if index == 19 {
            OpcodePattern::jump(0b0111_1101, OpcodeMnemonic::Jne)
        } else if index == 20 {
            OpcodePattern::jump(0b0111_1111, OpcodeMnemonic::Jg)
        } else if index == 21 {
            OpcodePattern::jump(0b0111_0011, OpcodeMnemonic::Jnb)
        } else if index == 22 {
            OpcodePattern::jump(0b0111_0111, OpcodeMnemonic::Jnbe)
        } else if index == 23 {
            OpcodePattern::jump(0b0111_1011, OpcodeMnemonic::Jnp)
        } else if index == 24 {
            OpcodePattern::jump(0b0111_0001, OpcodeMnemonic::Jno)
        } else if index == 25 {
            OpcodePattern::jump(0b0111_1001, OpcodeMnemonic::Jns)
        } else if index == 26 {
            OpcodePattern::jump(0b1110_0010, OpcodeMnemonic::Loop)
        } else if index == 27 {
            OpcodePattern::jump(0b1110_0001, OpcodeMnemonic::Loopz)
        } else if index == 28 {
            OpcodePattern::jump(0b1110_0000, OpcodeMnemonic::Loopnz)
        } else {
            OpcodePattern::jump(0b1110_0011, OpcodeMnemonic::Jcxz)
        }
    }

    /// Whether `byte` belongs to this row.
    pub open spec fn matches(self, byte: u8) -> bool {
        byte & self.mask == self.value
    }

    /// The descriptor of an opcode byte that belongs to this row.
    pub open spec fn describe(self, byte: u8) -> OpcodeContext {
        match self.form {
            OpcodeForm::RegisterMemoryWithRegister => OpcodeContext {
                first_byte_raw: byte,
                mnemonic: self.mnemonic,
                next_field: NextFieldType::ModRegRm,
                d: Some(second_lsb(byte)),
                w: Some(lsb(byte)),
                s: None,
                reg: None,
                has_data: false,
            },
            OpcodeForm::ImmediateToRegisterMemory => OpcodeContext {
                first_byte_raw: byte,
                mnemonic: self.mnemonic,
                next_field: NextFieldType::ModOpcodeContRm,
                d: None,
                w: Some(lsb(byte)),
                s: None,
                reg: None,
                has_data: true,
            },
            OpcodeForm::SignedImmediateToRegisterMemory => OpcodeContext {
                first_byte_raw: byte,
                mnemonic: self.mnemonic,
                next_field: NextFieldType::ModOpcodeContRm,
                d: None,
                w: Some(lsb(byte)),
                s: Some(second_lsb(byte)),
                reg: None,
                has_data: true,
            },
            OpcodeForm::ImmediateToRegister => OpcodeContext {
                first_byte_raw: byte,
                mnemonic: self.mnemonic,
                next_field: NextFieldType::Data,
                d: None,
                w: Some(fourth_lsb(byte)),
                s: None,
                reg: Some(Register::select(byte, fourth_lsb(byte))),
                has_data: true,
            },
            OpcodeForm::ImmediateToAccumulator => OpcodeContext {
                first_byte_raw: byte,
                mnemonic: self.mnemonic,
                next_field: NextFieldType::Data,
                d: None,
                w: Some(lsb(byte)),
                s: None,
                reg: Some(if lsb(byte) { Register::AX } else { Register::AL }),
                has_data: true,
            },
            OpcodeForm::ShortJump => OpcodeContext {
                first_byte_raw: byte,
                mnemonic: self.mnemonic,
                next_field: NextFieldType::IpInc8,
                d: None,
                w: None,
                s: None,
                reg: None,
                has_data: false,
            },
        }
    }

    fn short_jump(value: u8, mnemonic: OpcodeMnemonic) -> (r: OpcodePattern)
        ensures
            r == OpcodePattern::jump(value, mnemonic),
    {
        OpcodePattern { mask: 0b1111_1111, value, mnemonic, form: OpcodeForm::ShortJump }
    }

    /// The row of the opcode table at `index`, or `None` behind the last row.
    pub fn at(index: usize) -> (r: Option<OpcodePattern>)
        ensures
            r == (if index < PATTERN_COUNT {
                Some(OpcodePattern::row(index))
            } else {
                None
            }),
    {
        match index {
            0 => Some(
                OpcodePattern {
                    mask: 0b1111_1100,
                    value: 0b1000_1000,
                    mnemonic: OpcodeMnemonic::Mov,
                    form: OpcodeForm::RegisterMemoryWithRegister,
                },
            ),
            1 => Some(
                OpcodePattern {
                    mask: 0b1111_1110,
                    value: 0b1100_0110,
                    mnemonic: OpcodeMnemonic::Mov,
                    form: OpcodeForm::ImmediateToRegisterMemory,
                },
            ),
            2 => Some(
                OpcodePattern {
                    mask: 0b1111_0000,
                    value: 0b1011_0000,
                    mnemonic: OpcodeMnemonic::Mov,
                    form: OpcodeForm::ImmediateToRegister,
                },
            ),
            3 => Some(
                OpcodePattern {
                    mask: 0b1111_1100,
                    value: 0b0000_0000,
                    mnemonic: OpcodeMnemonic::Add,
                    form: OpcodeForm::RegisterMemoryWithRegister,
                },
            ),
            4 => Some(
                OpcodePattern {
                    mask: 0b1111_1100,
                    value: 0b1000_0000,
                    mnemonic: OpcodeMnemonic::NeedsNextByte,
                    form: OpcodeForm::SignedImmediateToRegisterMemory,
                },
            ),
            5 => Some(
                OpcodePattern {
                    mask: 0b1111_1110,
                    value: 0b0000_0100,
                    mnemonic: OpcodeMnemonic::Add,
                    form: OpcodeForm::ImmediateToAccumulator,
                },
            ),
            6 => Some(
                OpcodePattern {
                    mask: 0b1111_1100,
                    value: 0b0010_1000,
                    mnemonic: OpcodeMnemonic::Sub,
                    form: OpcodeForm::RegisterMemoryWithRegister,
                },
            ),
            7 => Some(
                OpcodePattern {
                    mask: 0b1111_1110,
                    value: 0b0010_1100,
                    mnemonic: OpcodeMnemonic::Sub,
                    form: OpcodeForm::ImmediateToAccumulator,
                },
            ),
            8 => Some(
                OpcodePattern {
                    mask: 0b1111_1100,
                    value: 0b0011_1000,
                    mnemonic: OpcodeMnemonic::Cmp,
                    form: OpcodeForm::RegisterMemoryWithRegister,
                },
            ),
            9 => Some(
                OpcodePattern {
                    mask: 0b1111_1110,
                    value: 0b0011_1100,
                    mnemonic: OpcodeMnemonic::Cmp,
                    form: OpcodeForm::ImmediateToAccumulator,
                },
            ),
            10 => Some(OpcodePattern::short_jump(0b0111_0100, OpcodeMnemonic::Je)),
            11 => Some(OpcodePattern::short_jump(0b0111_1100, OpcodeMnemonic::Jl)),
            12 => Some(OpcodePattern::short_jump(0b0111_1110, OpcodeMnemonic::Jle)),
            13 => Some(OpcodePattern::short_jump(0b0111_0010, OpcodeMnemonic::Jb)),
            14 => Some(OpcodePattern::short_jump(0b0111_0110, OpcodeMnemonic::Jbe)),
            15 => Some(OpcodePattern::short_jump(0b0111_1010, OpcodeMnemonic::Jp)),
            16 => Some(OpcodePattern::short_jump(0b0111_0000, OpcodeMnemonic::Jo)),
            17 => Some(OpcodePattern::short_jump(0b0111_1000, OpcodeMnemonic::Js)),
            18 => Some(OpcodePattern::short_jump(0b0111_0101, OpcodeMnemonic::Jne)),
            19 => Some(OpcodePattern::short_jump(0b0111_1101, OpcodeMnemonic::Jne)),
            20 => Some(OpcodePattern::short_jump(0b0111_1111, OpcodeMnemonic::Jg)),
            21 => Some(OpcodePattern::short_jump(0b0111_0011, OpcodeMnemonic::Jnb)),
            22 => Some(OpcodePattern::short_jump(0b0111_0111, OpcodeMnemonic::Jnbe)),
            23 => Some(OpcodePattern::short_jump(0b0111_1011, OpcodeMnemonic::Jnp)),
            24 => Some(OpcodePattern::short_jump(0b0111_0001, OpcodeMnemonic::Jno)),
            25 => Some(OpcodePattern::short_jump(0b0111_1001, OpcodeMnemonic::Jns)),
            26 => Some(OpcodePattern::short_jump(0b1110_0010, OpcodeMnemonic::Loop)),
            27 => Some(OpcodePattern::short_jump(0b1110_0001, OpcodeMnemonic::Loopz)),
            28 => Some(OpcodePattern::short_jump(0b1110_0000, OpcodeMnemonic::Loopnz)),
            29 => Some(OpcodePattern::short_jump(0b1110_0011, OpcodeMnemonic::Jcxz)),
            _ => None,
        }
    }

    /// Builds the descriptor of an opcode byte that belongs to this row. Every
    /// register code is known, so this never fails.
    pub fn build(&self, byte: u8) -> (r: Result<OpcodeContext, DissassemblerError>)
        ensures
            r == Ok::<OpcodeContext, DissassemblerError>(self.describe(byte)),
    {
        let mut context = OpcodeContext {
            first_byte_raw: byte,
            mnemonic: self.mnemonic,
            next_field: NextFieldType::IpInc8,
            d: None,
            w: None,
            s: None,
            reg: None,
            has_data: false,
        };
        match self.form {
            OpcodeForm::RegisterMemoryWithRegister => {
                context.next_field = NextFieldType::ModRegRm;
                context.d = Some(extract_second_lsb(byte));
                context.w = Some(extract_lsb(byte));
            },
            OpcodeForm::ImmediateToRegisterMemory => {
                context.next_field = NextFieldType::ModOpcodeContRm;
                context.w = Some(extract_lsb(byte));
                context.has_data = true;
            },
            OpcodeForm::SignedImmediateToRegisterMemory => {
                context.next_field = NextFieldType::ModOpcodeContRm;
                context.w = Some(extract_lsb(byte));
                context.s = Some(extract_second_lsb(byte));
                context.has_data = true;
            },
            OpcodeForm::ImmediateToRegister => {
                let w = (byte & 0b1000) != 0;
                let reg = match Register::try_from_with_w(byte, w) {
                    Ok(reg) => reg,
                    Err(e) => {
                        return Err(e);
                    },
                };
                context.next_field = NextFieldType::Data;
                context.w = Some(w);
                context.reg = Some(reg);
                context.has_data = true;
            },
            OpcodeForm::ImmediateToAccumulator => {
                let w = extract_lsb(byte);
                context.next_field = NextFieldType::Data;
                context.w = Some(w);
                context.reg = Some(Register::accumulator_from_w(w));
                context.has_data = true;
            },
            OpcodeForm::ShortJump => {},
        }
        Ok(context)
    }
}

/// The first row at or after `from` that `byte` belongs to.
pub open spec fn first_match(byte: u8, from: usize) -> Option<usize>
    decreases PATTERN_COUNT - from,
{
    if from >= PATTERN_COUNT {
        None
    } else if OpcodePattern::row(from).matches(byte) {
        Some(from)
    } else {
        first_match(byte, (from + 1) as usize)
    }
}

/// The descriptor of an opcode byte: that of the first row it belongs to. A
/// byte that belongs to no row is an invalid opcode.
pub open spec fn classify(byte: u8) -> Result<OpcodeContext, DissassemblerError> {
    match first_match(byte, 0) {
        Some(index) => Ok(OpcodePattern::row(index).describe(byte)),
        None => Err(DissassemblerError::InvalidOpcode(byte)),
    }
}

impl TryFrom<u8> for OpcodeContext {
    type Error = DissassemblerError;

    /// Classifies the first byte of an instruction: the descriptor of the row
    /// it belongs to, which is well formed, or `InvalidOpcode` with the byte if
    /// it belongs to no row.
    fn try_from(value: u8) -> (r: Result<Self, Self::Error>)
        ensures
            r == classify(value),
            r matches Ok(context) ==> context.well_formed() && context.first_byte_raw == value,
            r matches Err(e) ==> e == DissassemblerError::InvalidOpcode(value),
    {
        let mut index: usize = 0;
        loop
            invariant
                index <= PATTERN_COUNT,
                first_match(value, 0) == first_match(value, index),
            decreases PATTERN_COUNT - index,
        {
            match OpcodePattern::at(index) {
                Some(pattern) => {
                    if value & pattern.mask == pattern.value {
                        return pattern.build(value);
                    }
                    index += 1;
                },
                None => {
                    return Err(DissassemblerError::InvalidOpcode(value));
                },
            }
        }
    }
}

impl TryFromSpecImpl<u8> for OpcodeContext {
    open spec fn obeys_try_from_spec() -> bool {
        true
    }

    open spec fn try_from_spec(value: u8) -> Result<Self, Self::Error> {
        classify(value)
    }
}

impl OpcodeContext {
    /// The descriptor supplies every bit that its layout reads.
    pub open spec fn well_formed(self) -> bool {
        match self.next_field {
            NextFieldType::ModRegRm => self.w is Some && self.d is Some,
            NextFieldType::ModOpcodeContRm => self.w is Some,
            NextFieldType::Data => self.w is Some && self.reg is Some,
            NextFieldType::IpInc8 => true,
            NextFieldType::Addr => false,
            NextFieldType::Absent => false,
        }
    }

    pub fn mnemonic(&self) -> (r: &OpcodeMnemonic)
        ensures
            *r == self.mnemonic,
    {
        &self.mnemonic
    }

    pub fn next_field(&self) -> (r: &NextFieldType)
        ensures
            *r == self.next_field,
    {
        &self.next_field
    }

    pub fn d(&self) -> (r: Option<bool>)
        ensures
            r == self.d,
    {
        self.d
    }

    pub fn w(&self) -> (r: Option<bool>)
        ensures
            r == self.w,
    {
        self.w
    }

    pub fn s(&self) -> (r: Option<bool>)
        ensures
            r == self.s,
    {
        self.s
    }

    pub fn reg(&self) -> (r: &Option<Register>)
        ensures
            *r == self.reg,
    {
        &self.reg
    }

    pub fn has_data(&self) -> (r: bool)
        ensures
            r == self.has_data,
    {
        self.has_data
    }

    /// Names the instruction from the byte that follows the opcode byte. On an
    /// error the descriptor is left as it was.
    pub fn with_next_byte(&mut self, next_byte: u8) -> (r: Result<(), DissassemblerError>)
        ensures
            match OpcodeMnemonic::spec_with_mod_rm(old(self).first_byte_raw, next_byte) {
                Ok(mnemonic) => r is Ok && *final(self) == (OpcodeContext {
                    mnemonic,
                    ..*old(self)
                }),
                Err(e) => r == Err::<(), DissassemblerError>(e) && *final(self) == *old(self),
            },
            final(self).well_formed() == old(self).well_formed(),
    {
        match OpcodeMnemonic::with_mod_rm(self.first_byte_raw, next_byte) {
            Ok(mnemonic) => {
                self.mnemonic = mnemonic;
                Ok(())
            },
            Err(e) => Err(e),
        }
    }
}

fn extract_lsb(value: u8) -> (r: bool)
    ensures
        r == lsb(value),
{
    (value & 0b1) != 0
}

fn extract_second_lsb(value: u8) -> (r: bool)
    ensures
        r == second_lsb(value),
{
    (value & 0b10) != 0
}

impl OpcodePattern {
    /// The lowest byte that belongs to the row.
    pub open spec fn low(self) -> int {
        self.value as int
    }

    /// The highest byte that belongs to the row: the bits outside the mask are free.
    pub open spec fn high(self) -> int {
        self.value + (0xFF - self.mask)
    }
}

/// Every mask of the table keeps a run of high bits, so the bytes of a row are
/// consecutive: a byte belongs to the row if and only if it lies between the
/// row's lowest and highest byte.
pub proof fn lemma_row_is_a_range(byte: u8, index: usize)
    requires
        index < PATTERN_COUNT,
    ensures
        OpcodePattern::row(index).matches(byte) <==> OpcodePattern::row(index).low() <= byte
            <= OpcodePattern::row(index).high(),
{
    assert({
        &&& (byte & 0b1111_1100 == 0b1000_1000 <==> 0b1000_1000 <= byte && byte <= 0b1000_1011)
        &&& (byte & 0b1111_1110 == 0b1100_0110 <==> 0b1100_0110 <= byte && byte <= 0b1100_0111)
        &&& (byte & 0b1111_0000 == 0b1011_0000 <==> 0b1011_0000 <= byte && byte <= 0b1011_1111)
        &&& (byte & 0b1111_1100 == 0b0000_0000 <==> 0b0000_0000 <= byte && byte <= 0b0000_0011)
        &&& (byte & 0b1111_1100 == 0b1000_0000 <==> 0b1000_0000 <= byte && byte <= 0b1000_0011)
        &&& (byte & 0b1111_1110 == 0b0000_0100 <==> 0b0000_0100 <= byte && byte <= 0b0000_0101)
        &&& (byte & 0b1111_1100 == 0b0010_1000 <==> 0b0010_1000 <= byte && byte <= 0b0010_1011)
        &&& (byte & 0b1111_1110 == 0b0010_1100 <==> 0b0010_1100 <= byte && byte <= 0b0010_1101)
        &&& (byte & 0b1111_1100 == 0b0011_1000 <==> 0b0011_1000 <= byte && byte <= 0b0011_1011)
        &&& (byte & 0b1111_1110 == 0b0011_1100 <==> 0b0011_1100 <= byte && byte <= 0b0011_1101)
        &&& byte & 0b1111_1111 == byte
    }) by (bit_vector);
}

/// No byte belongs to two rows, so the order of the rows decides nothing.
pub proof fn lemma_rows_are_disjoint(byte: u8, first: usize, second: usize)
    requires
        first < PATTERN_COUNT,
        second < PATTERN_COUNT,
        OpcodePattern::row(first).matches(byte),
        OpcodePattern::row(second).matches(byte),
    ensures
        first == second,
{
    lemma_row_is_a_range(byte, first);
    lemma_row_is_a_range(byte, second);
}

/// The search finds a row if one at or after `from` matches, and what it finds
/// is a matching row at or after `from`.
pub proof fn lemma_first_match(byte: u8, from: usize)
    ensures
        match first_match(byte, from) {
            Some(found) => from <= found < PATTERN_COUNT && OpcodePattern::row(found).matches(byte),
            None => forall|index: usize|
                from <= index < PATTERN_COUNT ==> !#[trigger] OpcodePattern::row(index).matches(
                    byte,
                ),
        },
    decreases PATTERN_COUNT - from,
{
    if from < PATTERN_COUNT && !OpcodePattern::row(from).matches(byte) {
        lemma_first_match(byte, (from + 1) as usize);
    }
}

/// A byte that belongs to a row is classified by that row.
pub proof fn lemma_classify_by_row(byte: u8, index: usize)
    requires
        index < PATTERN_COUNT,
        OpcodePattern::row(index).matches(byte),
    ensures
        classify(byte) == Ok::<OpcodeContext, DissassemblerError>(
            OpcodePattern::row(index).describe(byte),
        ),
{
    lemma_first_match(byte, 0);
    match first_match(byte, 0) {
        Some(found) => {
            lemma_rows_are_disjoint(byte, found, index);
        },
        None => {},
    }
}

/// A byte is refused as an invalid opcode if and only if it belongs to no row.
pub proof fn lemma_classify_unknown(byte: u8)
    ensures
        classify(byte) is Err <==> forall|index: usize|
            index < PATTERN_COUNT ==> !#[trigger] OpcodePattern::row(index).matches(byte),
        classify(byte) is Err ==> classify(byte) == Err::<OpcodeContext, DissassemblerError>(
            DissassemblerError::InvalidOpcode(byte),
        ),
{
    lemma_first_match(byte, 0);
}

/// Every descriptor that the classifier gives holds the opcode byte and is
/// well formed. The marker mnemonic comes only with the layout whose ModRM
/// byte names the instruction, and only for the bytes of that family.
pub proof fn lemma_classified_is_well_formed(byte: u8)
    ensures
        classify(byte) matches Ok(context) ==> {
            &&& context.well_formed()
            &&& context.first_byte_raw == byte
            &&& context.mnemonic == OpcodeMnemonic::NeedsNextByte ==> {
                &&& context.next_field == NextFieldType::ModOpcodeContRm
                &&& 0b1000_0000 <= byte <= 0b1000_0011
            }
        },
{
    lemma_first_match(byte, 0);
    match first_match(byte, 0) {
        Some(found) => {
            lemma_row_is_a_range(byte, found);
        },
        None => {},
    }
}

/// Every byte `b` with `b & 0b11111100 == 0b10001000` is a move between a
/// register and a register or memory operand: the classifier gives the
/// mnemonic `mov`, the layout with a register field, the direction bit
/// `(b >> 1) & 1` and the width flag `b & 1`.
pub proof fn lemma_move_register_memory(byte: u8)
    requires
        byte & 0b1111_1100 == 0b1000_1000,
    ensures
        classify(byte) matches Ok(context) && {
            &&& context.mnemonic == OpcodeMnemonic::Mov
            &&& context.next_field == NextFieldType::ModRegRm
            &&& context.d == Some((byte >> 1) & 1 == 1)
            &&& context.w == Some(byte & 1 == 1)
        },
{
    assert(((byte & 0b10) != 0) == ((byte >> 1) & 1 == 1)) by (bit_vector);
    assert(((byte & 0b1) != 0) == (byte & 1 == 1)) by (bit_vector);
}

} // verus!
