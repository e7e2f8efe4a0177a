//! The instruction decoder: a forward-only cursor over the instruction stream,
//! and the decoding of one statement after the other.

use vstd::prelude::*;
use vstd::slice::slice_to_vec;
use vstd::string::*;
use crate::DissassemblerError;
use crate::modrm::{parse_mod_reg_rm, parse_mod_rm, DisplacementLen, DisplacementValue, Rm};
use crate::opcodes::{NextFieldType, OpcodeContext, OpcodeMnemonic};
use crate::operation::{Operand, Operation};
use crate::stream::{
    expect_byte, expect_displacement, expect_immediate, expect_rm_operand, expect_word,
    immediate_size, listing, pass_end, pass_result, position_after, signed_byte, statements,
    step_result,
};

verus! {

/// A cursor over an instruction stream. It only moves forward.
#[derive(Debug)]
pub struct Disassembler {
    instructions_bin: Vec<u8>,
    position: usize,
}

impl Disassembler {
    #[verifier::type_invariant]
    spec fn in_bounds(&self) -> bool {
        self.position <= self.instructions_bin.len()
    }

    /// The instruction stream.
    pub closed spec fn bytes(&self) -> Seq<u8> {
        self.instructions_bin@
    }

    /// The number of bytes that have been consumed.
    pub closed spec fn position(&self) -> nat {
        self.position as nat
    }

    /// A cursor at the start of a copy of `instructions`.
    pub fn new(instructions: &[u8]) -> (r: Self)
        ensures
            r.bytes() == instructions@,
            r.position() == 0,
    {
        Self { instructions_bin: slice_to_vec(instructions), position: 0 }
    }

    /// Reads the next byte. At the end of the stream it returns `None` and
    /// stays where it is.
    pub fn read_next(&mut self) -> (r: Option<u8>)
        ensures
            final(self).bytes() == old(self).bytes(),
            old(self).position() <= final(self).position() <= final(self).bytes().len(),
            match r {
                Some(b) => expect_byte(old(self).bytes(), old(self).position()) == Ok::<
                    u8,
                    DissassemblerError,
                >(b) && final(self).position() == old(self).position() + 1,
                None => old(self).position() == old(self).bytes().len() && final(self).position()
                    == old(self).position(),
            },
    {
        proof {
            use_type_invariant(&*self);
        }
        if self.position < self.instructions_bin.len() {
            let next = self.instructions_bin[self.position];
            self.position = self.position + 1;
            Some(next)
        } else {
            None
        }
    }

    /// Reads a byte that the current instruction needs. The end of the stream
    /// is an error here.
    pub fn read_expecting(&mut self) -> (r: Result<u8, DissassemblerError>)
        ensures
            final(self).bytes() == old(self).bytes(),
            old(self).position() <= final(self).position() <= final(self).bytes().len(),
            r == expect_byte(old(self).bytes(), old(self).position()),
            final(self).position() == (if r is Ok {
                old(self).position() + 1
            } else {
                old(self).bytes().len()
            }),
    {
        match self.read_next() {
            Some(b) => Ok(b),
            None => Err(DissassemblerError::TruncatedInstruction),
        }
    }

    /// Reads a word, low byte first.
    pub fn read_word(&mut self) -> (r: Result<u16, DissassemblerError>)
        ensures
            final(self).bytes() == old(self).bytes(),
            old(self).position() <= final(self).position() <= final(self).bytes().len(),
            r == expect_word(old(self).bytes(), old(self).position()),
            final(self).position() == (if r is Ok {
                old(self).position() + 2
            } else {
                old(self).bytes().len()
            }),
    {
        let low = match self.read_expecting() {
            Ok(b) => b as u16,
            Err(e) => {
                return Err(e);
            },
        };
        let high = match self.read_expecting() {
            Ok(b) => b as u16,
            Err(e) => {
                return Err(e);
            },
        };
        Ok(low + high * 256)
    }

    /// Reads a displacement of the given length: no byte, one byte or a word.
    pub fn read_displacement(&mut self, disp: DisplacementLen) -> (r: Result<
        DisplacementValue,
        DissassemblerError,
    >)
        ensures
            final(self).bytes() == old(self).bytes(),
            old(self).position() <= final(self).position() <= final(self).bytes().len(),
            r == expect_displacement(old(self).bytes(), old(self).position(), disp),
            final(self).position() == (if r is Ok {
                old(self).position() + disp.size()
            } else {
                old(self).bytes().len()
            }),
    {
        proof {
            use_type_invariant(&*self);
        }
        match disp {
            DisplacementLen::Absent => Ok(DisplacementValue::Absent),
            DisplacementLen::Byte => match self.read_expecting() {
                Ok(b) => Ok(DisplacementValue::Byte(b)),
                Err(e) => Err(e),
            },
            DisplacementLen::Word => match self.read_word() {
                Ok(w) => Ok(DisplacementValue::Word(w)),
                Err(e) => Err(e),
            },
        }
    }

    /// Looks at the next byte and steps back, so that the position is what it was.
    pub fn peek(&mut self) -> (r: Result<u8, DissassemblerError>)
        ensures
            final(self).bytes() == old(self).bytes(),
            old(self).position() <= final(self).position() <= final(self).bytes().len(),
            final(self).position() == old(self).position(),
            r == expect_byte(old(self).bytes(), old(self).position()),
            r is Err ==> old(self).position() == old(self).bytes().len(),
    {
        match self.read_expecting() {
            Ok(val) => {
                self.position = self.position - 1;
                Ok(val)
            },
            Err(e) => Err(e),
        }
    }

    /// Turns an R/M descriptor into an operand, reading the displacement of a
    /// memory operand from the stream.
    pub fn rm_to_operand(&mut self, rm: Rm) -> (r: Result<Operand, DissassemblerError>)
        ensures
            final(self).bytes() == old(self).bytes(),
            old(self).position() <= final(self).position() <= final(self).bytes().len(),
            r == expect_rm_operand(old(self).bytes(), old(self).position(), rm),
            final(self).position() == (if r is Ok {
                old(self).position() + rm.displacement_size()
            } else {
                old(self).bytes().len()
            }),
    {
        proof {
            use_type_invariant(&*self);
        }
        match rm {
            Rm::EffectiveAddressCalculation(effective_address, displacement_len) => {
                match self.read_displacement(displacement_len) {
                    Ok(disp_val) => Ok(Operand::EffectiveAddress(effective_address, disp_val)),
                    Err(e) => Err(e),
                }
            },
            Rm::Register(register) => Ok(Operand::Register(register)),
        }
    }

    /// Reads an immediate: a word if `wide`, else a byte.
    pub fn read_immediate(&mut self, wide: bool) -> (r: Result<Operand, DissassemblerError>)
        ensures
            final(self).bytes() == old(self).bytes(),
            old(self).position() <= final(self).position() <= final(self).bytes().len(),
            r == expect_immediate(old(self).bytes(), old(self).position(), wide),
            final(self).position() == (if r is Ok {
                old(self).position() + immediate_size(wide)
            } else {
                old(self).bytes().len()
            }),
    {
        if wide {
            match self.read_word() {
                Ok(w) => Ok(Operand::DataWord(w)),
                Err(e) => Err(e),
            }
        } else {
            match self.read_expecting() {
                Ok(b) => Ok(Operand::DataByte(b)),
                Err(e) => Err(e),
            }
        }
    }

    /// Decodes the stream from the cursor to its end into a listing. The first
    /// instruction that cannot be decoded ends the pass with its error, and no
    /// listing is returned.
    pub fn decode(&mut self) -> (r: Result<String, DissassemblerError>)
        ensures
            final(self).bytes() == old(self).bytes(),
            old(self).position() <= final(self).position() <= final(self).bytes().len(),
            match pass_result(old(self).bytes(), old(self).position()) {
                Ok(text) => r matches Ok(decoded) && decoded@ == text,
                Err(e) => r matches Err(error) && error == e,
            },
            final(self).position() == pass_end(old(self).bytes(), old(self).position()),
    {
        proof {
            use_type_invariant(&*self);
        }
        let mut decoded = String::from_str("bits 16\n");
        let ghost mut done = Seq::<Operation>::empty();
        loop
            invariant
                self.bytes() == old(self).bytes(),
                old(self).position() <= self.position() <= self.bytes().len(),
                decoded@ == listing(done),
                statements(old(self).bytes(), old(self).position()) == match statements(
                    self.bytes(),
                    self.position(),
                ) {
                    Ok(rest) => Ok::<Seq<Operation>, DissassemblerError>(done + rest),
                    Err(e) => Err(e),
                },
                pass_end(old(self).bytes(), old(self).position()) == pass_end(
                    self.bytes(),
                    self.position(),
                ),
            decreases self.bytes().len() - self.position(),
        {
            match self.decode_next_op() {
                Ok(Some(statement)) => {
                    decoded.append("\n");
                    decoded.append(statement.to_string().as_str());
                    proof {
                        let rest = statements(self.bytes(), self.position());
                        if rest is Ok {
                            assert(done + (seq![statement] + rest->Ok_0) =~= done.push(statement)
                                + rest->Ok_0);
                        }
                        assert(done.push(statement).drop_last() =~= done);
                        done = done.push(statement);
                    }
                },
                Ok(None) => {
                    return Ok(decoded);
                },
                Err(e) => {
                    return Err(e);
                },
            }
        }
    }

    /// Decodes the instruction at the cursor. At the end of the stream there is
    /// none, which is no error; a stream that ends inside the instruction, an
    /// unknown opcode and an unknown opcode extension are errors.
    pub fn decode_next_op(&mut self) -> (r: Result<Option<Operation>, DissassemblerError>)
        ensures
            final(self).bytes() == old(self).bytes(),
            old(self).position() <= final(self).position() <= final(self).bytes().len(),
            r == step_result(old(self).bytes(), old(self).position()),
            final(self).position() == position_after(old(self).bytes(), old(self).position()),
            r matches Ok(Some(statement)) ==> statement.is_resolved(),
    {
        let opcode = match self.read_next() {
            Some(opcode) => opcode,
            None => {
                return Ok(None);
            },
        };
        let mut opcode_ctx = OpcodeContext::try_from(opcode)?;
        if matches!(opcode_ctx.mnemonic(), OpcodeMnemonic::NeedsNextByte) {
            let next = self.peek()?;
            opcode_ctx.with_next_byte(next)?;
        }
        match opcode_ctx.next_field() {
            NextFieldType::ModRegRm => {
                let w = opcode_ctx.w().unwrap();
                let mod_reg_rm = self.read_expecting()?;
                let (_mode, reg, rm) = parse_mod_reg_rm(mod_reg_rm, w)?;
                let memory = self.rm_to_operand(rm)?;
                let register = Operand::Register(reg);
                let (dest, src) = if opcode_ctx.d().unwrap() {
                    (register, memory)
                } else {
                    (memory, register)
                };
                Ok(Some(Operation::new(*opcode_ctx.mnemonic(), dest, Some(src))))
            },
            NextFieldType::ModOpcodeContRm => {
                let w = opcode_ctx.w().unwrap();
                let mod_op_rm = self.read_expecting()?;
                let (_mode, rm) = parse_mod_rm(mod_op_rm, w)?;
                let dest = self.rm_to_operand(rm)?;
                let wide = match opcode_ctx.s() {
                    Some(s) => !s && w,
                    None => w,
                };
                let src = self.read_immediate(wide)?;
                Ok(Some(Operation::new(*opcode_ctx.mnemonic(), dest, Some(src))))
            },
            NextFieldType::Data => {
                let reg = Operand::Register(opcode_ctx.reg().unwrap());
                let data = self.read_immediate(opcode_ctx.w().unwrap())?;
                Ok(Some(Operation::new(*opcode_ctx.mnemonic(), reg, Some(data))))
            },
            NextFieldType::IpInc8 => {
                let offset = self.read_expecting()?;
                let jump_offset = Operand::SignedJump(to_signed(offset));
                Ok(Some(Operation::new(*opcode_ctx.mnemonic(), jump_offset, None)))
            },
            _ => Err(DissassemblerError::InvalidOpcode(opcode)),
        }
    }
}

fn to_signed(b: u8) -> (r: i8)
    ensures
        r == signed_byte(b),
{
    if b < 128 {
        b as i8
    } else {
        (b as i16 - 256) as i8
    }
}

/// The result of a pass is a function of the stream and the starting position
/// alone: two cursors over equal streams, at the same position, give the same
/// listing or the same error.
pub proof fn lemma_same_stream_same_listing(first: Disassembler, second: Disassembler)
    requires
        first.bytes() == second.bytes(),
        first.position() == second.position(),
    ensures
        pass_result(first.bytes(), first.position()) == pass_result(
            second.bytes(),
            second.position(),
        ),
        step_result(first.bytes(), first.position()) == step_result(
            second.bytes(),
            second.position(),
        ),
{
}

} // verus!
