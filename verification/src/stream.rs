//! The instruction stream as a sequence of bytes: what each read yields, what
//! one decoding step yields, and what a whole pass yields. The cursor of the
//! decoder is held against these.

use vstd::prelude::*;
use crate::DissassemblerError;
use crate::modrm::{DisplacementLen, DisplacementValue, EffectiveAddress, Rm};
use crate::opcodes::{
    classify, lemma_classified_is_well_formed, lemma_classify_unknown, NextFieldType,
    OpcodeContext, OpcodeMnemonic,
};
use crate::operation::{Operand, Operation};
use crate::reg::Register;
use crate::text::decimal;

verus! {

/// The byte at `position`, or the error for a stream that ends before it.
pub open spec fn expect_byte(bytes: Seq<u8>, position: nat) -> Result<u8, DissassemblerError> {
    if position < bytes.len() {
        Ok(bytes[position as int])
    } else {
        Err(DissassemblerError::TruncatedInstruction)
    }
}

/// The little-endian word at `position`, or the error for a stream that ends
/// before its second byte.
pub open spec fn expect_word(bytes: Seq<u8>, position: nat) -> Result<u16, DissassemblerError> {
    if position + 2 <= bytes.len() {
        Ok((bytes[position as int] + 256 * bytes[(position + 1) as int]) as u16)
    } else {
        Err(DissassemblerError::TruncatedInstruction)
    }
}

impl DisplacementLen {
    /// The number of bytes that a displacement of this length takes.
    pub open spec fn size(self) -> nat {
        match self {
            DisplacementLen::Absent => 0,
            DisplacementLen::Byte => 1,
            DisplacementLen::Word => 2,
        }
    }
}

/// The displacement of the given length at `position`.
pub open spec fn expect_displacement(bytes: Seq<u8>, position: nat, len: DisplacementLen) -> Result<
    DisplacementValue,
    DissassemblerError,
> {
    match len {
        DisplacementLen::Absent => Ok(DisplacementValue::Absent),
        DisplacementLen::Byte => match expect_byte(bytes, position) {
            Ok(b) => Ok(DisplacementValue::Byte(b)),
            Err(e) => Err(e),
        },
        DisplacementLen::Word => match expect_word(bytes, position) {
            Ok(w) => Ok(DisplacementValue::Word(w)),
            Err(e) => Err(e),
        },
    }
}

impl Rm {
    /// The number of displacement bytes that follow the ModRM byte.
    pub open spec fn displacement_size(self) -> nat {
        match self {
            Rm::EffectiveAddressCalculation(_, len) => len.size(),
            Rm::Register(_) => 0,
        }
    }
}

/// The operand that an R/M descriptor stands for, with its displacement read at `position`.
pub open spec fn expect_rm_operand(bytes: Seq<u8>, position: nat, rm: Rm) -> Result<
    Operand,
    DissassemblerError,
> {
    match rm {
        Rm::EffectiveAddressCalculation(address, len) => match expect_displacement(
            bytes,
            position,
            len,
        ) {
            Ok(displacement) => Ok(Operand::EffectiveAddress(address, displacement)),
            Err(e) => Err(e),
        },
        Rm::Register(register) => Ok(Operand::Register(register)),
    }
}

/// The number of bytes of an immediate.
pub open spec fn immediate_size(wide: bool) -> nat {
    if wide {
        2
    } else {
        1
    }
}

/// The immediate at `position`: a word if `wide`, else a byte.
pub open spec fn expect_immediate(bytes: Seq<u8>, position: nat, wide: bool) -> Result<
    Operand,
    DissassemblerError,
> {
    if wide {
        match expect_word(bytes, position) {
            Ok(w) => Ok(Operand::DataWord(w)),
            Err(e) => Err(e),
        }
    } else {
        match expect_byte(bytes, position) {
            Ok(b) => Ok(Operand::DataByte(b)),
            Err(e) => Err(e),
        }
    }
}

/// A byte read as a number in two's complement.
pub open spec fn signed_byte(b: u8) -> i8 {
    if b < 128 {
        b as i8
    } else {
        (b - 256) as i8
    }
}

impl OpcodeContext {
    /// The descriptor with its instruction named: where the opcode byte alone
    /// does not tell, bits 5 to 3 of the byte at `position` do. That byte is
    /// looked at, not consumed.
    pub open spec fn resolve(self, bytes: Seq<u8>, position: nat) -> Result<
        OpcodeContext,
        DissassemblerError,
    > {
        if self.mnemonic == OpcodeMnemonic::NeedsNextByte {
            match expect_byte(bytes, position) {
                Ok(next) => match OpcodeMnemonic::spec_with_mod_rm(self.first_byte_raw, next) {
                    Ok(mnemonic) => Ok(OpcodeContext { mnemonic, ..self }),
                    Err(e) => Err(e),
                },
                Err(e) => Err(e),
            }
        } else {
            Ok(self)
        }
    }

    /// Whether the immediate after a ModRM byte is a full word: in word mode,
    /// unless the sign bit says that one byte is stored.
    pub open spec fn wide_immediate(self) -> bool {
        self.w == Some(true) && self.s != Some(true)
    }

    /// A register field and an R/M operand; the direction bit says which of
    /// the two is the destination.
    pub open spec fn register_modrm_statement(self, bytes: Seq<u8>, position: nat) -> Result<
        (Operation, nat),
        DissassemblerError,
    > {
        match expect_byte(bytes, position) {
            Ok(modrm) => {
                let rm = Rm::of_byte(modrm, self.w->0);
                let register = Operand::Register(Register::select(modrm >> 3, self.w->0));
                match expect_rm_operand(bytes, position + 1, rm) {
                    Ok(memory) => Ok(
                        (
                            if self.d->0 {
                                Operation {
                                    opcode: self.mnemonic,
                                    dest: register,
                                    src: Some(memory),
                                }
                            } else {
                                Operation {
                                    opcode: self.mnemonic,
                                    dest: memory,
                                    src: Some(register),
                                }
                            },
                            position + 1 + rm.displacement_size(),
                        ),
                    ),
                    Err(e) => Err(e),
                }
            },
            Err(e) => Err(e),
        }
    }

    /// An R/M operand as the destination, then its displacement, then the
    /// immediate that is the source.
    pub open spec fn extension_modrm_statement(self, bytes: Seq<u8>, position: nat) -> Result<
        (Operation, nat),
        DissassemblerError,
    > {
        match expect_byte(bytes, position) {
            Ok(modrm) => {
                let rm = Rm::of_byte(modrm, self.w->0);
                let after = position + 1 + rm.displacement_size();
                match expect_rm_operand(bytes, position + 1, rm) {
                    Ok(dest) => match expect_immediate(bytes, after, self.wide_immediate()) {
                        Ok(src) => Ok(
                            (
                                Operation { opcode: self.mnemonic, dest, src: Some(src) },
                                after + immediate_size(self.wide_immediate()),
                            ),
                        ),
                        Err(e) => Err(e),
                    },
                    Err(e) => Err(e),
                }
            },
            Err(e) => Err(e),
        }
    }

    /// The register that the opcode byte names as the destination, and an
    /// immediate of its width as the source.
    pub open spec fn immediate_statement(self, bytes: Seq<u8>, position: nat) -> Result<
        (Operation, nat),
        DissassemblerError,
    > {
        match expect_immediate(bytes, position, self.w->0) {
            Ok(src) => Ok(
                (
                    Operation {
                        opcode: self.mnemonic,
                        dest: Operand::Register(self.reg->0),
                        src: Some(src),
                    },
                    position + immediate_size(self.w->0),
                ),
            ),
            Err(e) => Err(e),
        }
    }

    /// A signed offset of one byte as the only operand.
    pub open spec fn jump_statement(self, bytes: Seq<u8>, position: nat) -> Result<
        (Operation, nat),
        DissassemblerError,
    > {
        match expect_byte(bytes, position) {
            Ok(offset) => Ok(
                (
                    Operation {
                        opcode: self.mnemonic,
                        dest: Operand::SignedJump(signed_byte(offset)),
                        src: None,
                    },
                    position + 1,
                ),
            ),
            Err(e) => Err(e),
        }
    }

    /// The statement of an instruction whose opcode byte gave this descriptor
    /// and whose further bytes start at `position`, with the position after
    /// the instruction. The layouts that no opcode of the subset has are
    /// refused as an invalid opcode.
    pub open spec fn statement(self, bytes: Seq<u8>, position: nat) -> Result<
        (Operation, nat),
        DissassemblerError,
    > {
        match self.next_field {
            NextFieldType::ModRegRm => self.register_modrm_statement(bytes, position),
            NextFieldType::ModOpcodeContRm => self.extension_modrm_statement(bytes, position),
            NextFieldType::Data => self.immediate_statement(bytes, position),
            NextFieldType::IpInc8 => self.jump_statement(bytes, position),
            NextFieldType::Addr => Err(DissassemblerError::InvalidOpcode(self.first_byte_raw)),
            NextFieldType::Absent => Err(DissassemblerError::InvalidOpcode(self.first_byte_raw)),
        }
    }
}

/// One decoding step at `position`: `Ok(None)` at the end of the stream, else
/// the statement of the instruction that starts there and the position after
/// it, or the error that stops the pass.
pub open spec fn decode_at(bytes: Seq<u8>, position: nat) -> Result<
    Option<(Operation, nat)>,
    DissassemblerError,
> {
    if position >= bytes.len() {
        Ok(None)
    } else {
        match classify(bytes[position as int]) {
            Ok(context) => match context.resolve(bytes, position + 1) {
                Ok(resolved) => match resolved.statement(bytes, position + 1) {
                    Ok(decoded) => Ok(Some(decoded)),
                    Err(e) => Err(e),
                },
                Err(e) => Err(e),
            },
            Err(e) => Err(e),
        }
    }
}

/// Where a decoding step leaves the cursor: after the instruction; at the end
/// of the stream if the instruction is truncated; behind the opcode byte if
/// the opcode or its extension is refused.
pub open spec fn position_after(bytes: Seq<u8>, position: nat) -> nat {
    match decode_at(bytes, position) {
        Ok(Some((_, next))) => next,
        Ok(None) => position,
        Err(DissassemblerError::TruncatedInstruction) => bytes.len(),
        Err(_) => position + 1,
    }
}

/// What a decoding step hands back: the statement without the position.
pub open spec fn step_result(bytes: Seq<u8>, position: nat) -> Result<
    Option<Operation>,
    DissassemblerError,
> {
    match decode_at(bytes, position) {
        Ok(Some((operation, _))) => Ok(Some(operation)),
        Ok(None) => Ok(None),
        Err(e) => Err(e),
    }
}

/// A decoded instruction takes at least its opcode byte and at most six bytes,
/// lies inside the stream, and names an instruction.
pub proof fn lemma_decode_at(bytes: Seq<u8>, position: nat)
    ensures
        decode_at(bytes, position) matches Ok(Some((operation, next))) ==> {
            &&& position < next <= bytes.len()
            &&& next <= position + 6
            &&& operation.is_resolved()
        },
        decode_at(bytes, position) == Ok::<Option<(Operation, nat)>, DissassemblerError>(None)
            <==> position >= bytes.len(),
{
    if position < bytes.len() {
        lemma_classified_is_well_formed(bytes[position as int]);
    }
}

/// A decoding step fails in three ways only: on an opcode byte that belongs
/// to no row, on a second byte whose extension field names no instruction of
/// the family, and on a stream that ends inside the instruction. No mode,
/// register or R/M field is ever refused.
pub proof fn lemma_step_errors(bytes: Seq<u8>, position: nat)
    ensures
        decode_at(bytes, position) matches Err(e) ==> {
            &&& position < bytes.len()
            &&& e == DissassemblerError::InvalidOpcode(bytes[position as int])
                <==> classify(bytes[position as int]) is Err
            &&& e matches DissassemblerError::InvalidModRm(first, second) ==> {
                &&& position + 1 < bytes.len()
                &&& first == bytes[position as int]
                &&& second == bytes[(position + 1) as int]
                &&& OpcodeMnemonic::spec_with_mod_rm(first, second) is Err
            }
            &&& e == DissassemblerError::InvalidOpcode(bytes[position as int]) || e
                == DissassemblerError::TruncatedInstruction
                || e matches DissassemblerError::InvalidModRm(_, _)
        },
{
    if position < bytes.len() {
        lemma_classified_is_well_formed(bytes[position as int]);
        lemma_classify_unknown(bytes[position as int]);
    }
}

/// The statements of the stream from `position` to its end, or the error of
/// the first instruction that cannot be decoded.
pub open spec fn statements(bytes: Seq<u8>, position: nat) -> Result<
    Seq<Operation>,
    DissassemblerError,
>
    decreases bytes.len() - position,
    via statements_terminates
{
    match decode_at(bytes, position) {
        Ok(Some((operation, next))) => match statements(bytes, next) {
            Ok(rest) => Ok(seq![operation] + rest),
            Err(e) => Err(e),
        },
        Ok(None) => Ok(Seq::empty()),
        Err(e) => Err(e),
    }
}

#[via_fn]
proof fn statements_terminates(bytes: Seq<u8>, position: nat) {
    lemma_decode_at(bytes, position);
}

/// The statements as text, each on a line of its own that starts with a line feed.
pub open spec fn lines(operations: Seq<Operation>) -> Seq<char>
    decreases operations.len(),
{
    if operations.len() == 0 {
        Seq::empty()
    } else {
        lines(operations.drop_last()) + "\n"@ + operations.last().text()
    }
}

/// The listing of a stream: a header line that gives the bit width, then the statements.
pub open spec fn listing(operations: Seq<Operation>) -> Seq<char> {
    "bits 16\n"@ + lines(operations)
}

/// What a decode pass from `position` returns: the listing of the whole rest
/// of the stream, or the error of the first instruction that cannot be decoded.
pub open spec fn pass_result(bytes: Seq<u8>, position: nat) -> Result<
    Seq<char>,
    DissassemblerError,
> {
    match statements(bytes, position) {
        Ok(operations) => Ok(listing(operations)),
        Err(e) => Err(e),
    }
}

/// Where a pass from `position` leaves the cursor: where its last step does.
pub open spec fn pass_end(bytes: Seq<u8>, position: nat) -> nat
    decreases bytes.len() - position,
    via pass_end_terminates
{
    match decode_at(bytes, position) {
        Ok(Some((_, next))) => pass_end(bytes, next),
        _ => position_after(bytes, position),
    }
}

#[via_fn]
proof fn pass_end_terminates(bytes: Seq<u8>, position: nat) {
    lemma_decode_at(bytes, position);
}

/// A pass that starts inside the stream ends inside it, at or after its start.
/// It ends at the end of the stream if it succeeds or fails on a truncated
/// instruction, and behind the refused opcode byte otherwise.
pub proof fn lemma_pass_end(bytes: Seq<u8>, position: nat)
    requires
        position <= bytes.len(),
    ensures
        position <= pass_end(bytes, position) <= bytes.len(),
        statements(bytes, position) is Ok ==> pass_end(bytes, position) == bytes.len(),
        statements(bytes, position) == Err::<Seq<Operation>, DissassemblerError>(
            DissassemblerError::TruncatedInstruction,
        ) ==> pass_end(bytes, position) == bytes.len(),
    decreases bytes.len() - position,
{
    lemma_decode_at(bytes, position);
    match decode_at(bytes, position) {
        Ok(Some((_, next))) => {
            lemma_pass_end(bytes, next);
        },
        _ => {},
    }
}

/// The first `cut` bytes of a stream.
pub open spec fn cut_at(bytes: Seq<u8>, cut: nat) -> Seq<u8>
    recommends
        cut <= bytes.len(),
{
    bytes.subrange(0, cut as int)
}

proof fn lemma_reads_of_cut_stream(bytes: Seq<u8>, cut: nat, position: nat)
    requires
        cut <= bytes.len(),
    ensures
        expect_byte(cut_at(bytes, cut), position) == (if position < cut {
            expect_byte(bytes, position)
        } else {
            Err(DissassemblerError::TruncatedInstruction)
        }),
        expect_word(cut_at(bytes, cut), position) == (if position + 2 <= cut {
            expect_word(bytes, position)
        } else {
            Err(DissassemblerError::TruncatedInstruction)
        }),
        forall|wide: bool| #[trigger]
            expect_immediate(cut_at(bytes, cut), position, wide) == (if position + immediate_size(
                wide,
            ) <= cut {
                expect_immediate(bytes, position, wide)
            } else {
                Err(DissassemblerError::TruncatedInstruction)
            }),
        forall|rm: Rm| #[trigger]
            expect_rm_operand(cut_at(bytes, cut), position, rm) == (if rm.displacement_size() == 0
                || position + rm.displacement_size() <= cut {
                expect_rm_operand(bytes, position, rm)
            } else {
                Err(DissassemblerError::TruncatedInstruction)
            }),
{
}

proof fn lemma_step_of_cut_stream(bytes: Seq<u8>, position: nat, cut: nat)
    requires
        position < cut <= bytes.len(),
        decode_at(bytes, position) matches Ok(Some(_)),
    ensures
        decode_at(cut_at(bytes, cut), position) == (if decode_at(bytes, position)->Ok_0->Some_0.1
            <= cut {
            decode_at(bytes, position)
        } else {
            Err(DissassemblerError::TruncatedInstruction)
        }),
{
    let opcode = bytes[position as int];
    let context = classify(opcode)->Ok_0;
    let resolved = context.resolve(bytes, position + 1)->Ok_0;
    assert(cut_at(bytes, cut)[position as int] == opcode);
    lemma_classified_is_well_formed(opcode);
    lemma_reads_of_cut_stream(bytes, cut, position + 1);
    lemma_reads_of_cut_stream(bytes, cut, position + 2);
    if position + 1 < cut {
        let rm = Rm::of_byte(bytes[(position + 1) as int], resolved.w->0);
        lemma_reads_of_cut_stream(bytes, cut, position + 2 + rm.displacement_size());
    }
}

/// A stream that ends inside an instruction, behind its opcode byte, fails at
/// that instruction with `TruncatedInstruction`: if the whole stream holds an
/// instruction from `position` up to `next`, the stream cut anywhere between
/// the two gives no statement there.
pub proof fn lemma_truncated_instruction(bytes: Seq<u8>, position: nat, cut: nat)
    requires
        decode_at(bytes, position) matches Ok(Some((_, next))) && position < cut < next,
    ensures
        decode_at(cut_at(bytes, cut), position) == Err::<
            Option<(Operation, nat)>,
            DissassemblerError,
        >(DissassemblerError::TruncatedInstruction),
        step_result(cut_at(bytes, cut), position) == Err::<Option<Operation>, DissassemblerError>(
            DissassemblerError::TruncatedInstruction,
        ),
{
    lemma_decode_at(bytes, position);
    lemma_step_of_cut_stream(bytes, position, cut);
}

/// An instruction that lies before the cut is decoded from the cut stream as
/// from the whole one: what follows an instruction has no part in its statement.
pub proof fn lemma_instruction_before_cut(bytes: Seq<u8>, position: nat, cut: nat)
    requires
        cut <= bytes.len(),
        decode_at(bytes, position) matches Ok(Some((_, next))) && next <= cut,
    ensures
        decode_at(cut_at(bytes, cut), position) == decode_at(bytes, position),
{
    lemma_decode_at(bytes, position);
    lemma_step_of_cut_stream(bytes, position, cut);
}

/// Whole instructions lead from `start` to `position`.
pub open spec fn reaches(bytes: Seq<u8>, start: nat, position: nat) -> bool
    decreases bytes.len() - start,
    via reaches_terminates
{
    start == position || (decode_at(bytes, start) matches Ok(Some((_, next))) && next <= position
        && reaches(bytes, next, position))
}

#[via_fn]
proof fn reaches_terminates(bytes: Seq<u8>, start: nat, position: nat) {
    lemma_decode_at(bytes, start);
}

/// A pass over a stream that ends inside an instruction fails with
/// `TruncatedInstruction`, however many whole instructions stand before it.
pub proof fn lemma_truncated_pass(bytes: Seq<u8>, start: nat, position: nat, cut: nat)
    requires
        reaches(bytes, start, position),
        decode_at(bytes, position) matches Ok(Some((_, next))) && position < cut < next,
    ensures
        statements(cut_at(bytes, cut), start) == Err::<Seq<Operation>, DissassemblerError>(
            DissassemblerError::TruncatedInstruction,
        ),
        pass_result(cut_at(bytes, cut), start) == Err::<Seq<char>, DissassemblerError>(
            DissassemblerError::TruncatedInstruction,
        ),
    decreases bytes.len() - start,
{
    lemma_decode_at(bytes, position);
    if start == position {
        lemma_truncated_instruction(bytes, position, cut);
    } else {
        lemma_decode_at(bytes, start);
        lemma_instruction_before_cut(bytes, start, cut);
        lemma_truncated_pass(bytes, decode_at(bytes, start)->Ok_0->Some_0.1, position, cut);
    }
}

/// Mode bits `00` with R/M bits `110` name the direct address, whatever the
/// width: exactly two bytes follow the ModRM byte, they are the address, low
/// byte first, and the operand reads as that address in brackets, with no
/// register.
pub proof fn lemma_direct_address(bytes: Seq<u8>, position: nat, modrm: u8, is_word: bool)
    requires
        modrm >> 6 == 0b00,
        modrm & 0b111 == 0b110,
    ensures
        Rm::of_byte(modrm, is_word) == Rm::EffectiveAddressCalculation(
            EffectiveAddress::DirectAddress,
            DisplacementLen::Word,
        ),
        Rm::of_byte(modrm, is_word).displacement_size() == 2,
        expect_rm_operand(bytes, position, Rm::of_byte(modrm, is_word)) == match expect_word(
            bytes,
            position,
        ) {
            Ok(address) => Ok(
                Operand::EffectiveAddress(
                    EffectiveAddress::DirectAddress,
                    DisplacementValue::Word(address),
                ),
            ),
            Err(e) => Err(e),
        },
        forall|address: u16|
            (#[trigger] Operand::EffectiveAddress(
                EffectiveAddress::DirectAddress,
                DisplacementValue::Word(address),
            ).text()) == "["@ + decimal(address as nat) + "]"@,
{
}

} // verus!
