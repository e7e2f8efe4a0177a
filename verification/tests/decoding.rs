use emulator_8086::disassembler::Disassembler;
use emulator_8086::modrm::{DisplacementValue, EffectiveAddress};
use emulator_8086::opcodes::OpcodeMnemonic;
use emulator_8086::operation::{Operand, Operation};
use emulator_8086::reg::Register;
use emulator_8086::DissassemblerError;

fn decode(bytes: &[u8]) -> Result<String, DissassemblerError> {
    Disassembler::new(bytes).decode()
}

fn decode_one(bytes: &[u8]) -> String {
    let mut d = Disassembler::new(bytes);
    let statement = d.decode_next_op().unwrap().unwrap();
    assert_eq!(d.decode_next_op(), Ok(None));
    statement.to_string()
}

#[test]
fn test_basic_mov() {
    let instructions: [u8; 2] = [0b10001001, 0b11011001];
    let mut d = Disassembler::new(&instructions);
    let statement = d.decode_next_op().unwrap().unwrap();

    let expected = Operation::new(
        OpcodeMnemonic::Mov,
        Operand::Register(Register::CX),
        Some(Operand::Register(Register::BX)),
    );

    assert_eq!(expected, statement);
    assert_eq!(expected.to_string(), "mov cx, bx".to_owned());
}

#[test]
fn register_to_register_move_is_one_statement() {
    let mut d = Disassembler::new(&[0b10001001, 0b11011001]);
    let first = d.decode_next_op().unwrap();
    assert_eq!(first.map(|op| op.to_string()), Some("mov cx, bx".to_owned()));
    assert_eq!(d.decode_next_op(), Ok(None));
}

#[test]
fn listing_starts_with_the_header() {
    assert_eq!(decode(&[]), Ok("bits 16\n".to_owned()));
    assert_eq!(decode(&[0b10001001, 0b11011001]), Ok("bits 16\n\nmov cx, bx".to_owned()));
    assert_eq!(
        decode(&[0x89, 0xD9, 0xB8, 0x05, 0x00, 0x75, 0xFE]),
        Ok("bits 16\n\nmov cx, bx\nmov ax, 5\njne -2".to_owned())
    );
}

#[test]
fn direction_bit_makes_the_register_field_the_destination() {
    assert_eq!(decode_one(&[0b10001011, 0b11011001]), "mov bx, cx");
    assert_eq!(decode_one(&[0b10001001, 0b11011001]), "mov cx, bx");
    assert_eq!(decode_one(&[0b10001000, 0b11011001]), "mov cl, bl");
    assert_eq!(decode_one(&[0b10001010, 0b00000000]), "mov al, [bx + si]");
    assert_eq!(decode_one(&[0b10001000, 0b00000000]), "mov [bx + si], al");
}

#[test]
fn immediate_to_register() {
    assert_eq!(decode_one(&[0b10111000, 0x05, 0x00]), "mov ax, 5");
    assert_eq!(decode_one(&[0b10110001, 0x0C]), "mov cl, 12");
    assert_eq!(decode_one(&[0b10111010, 0x6C, 0x0F]), "mov dx, 3948");
    assert_eq!(decode_one(&[0b10111111, 0xFF, 0xFF]), "mov di, 65535");
    assert_eq!(decode_one(&[0b10110111, 0xFF]), "mov bh, 255");
}

#[test]
fn word_is_read_low_byte_first() {
    let mut d = Disassembler::new(&[0x34, 0x12, 0xFF]);
    assert_eq!(d.read_word(), Ok(0x1234));
    assert_eq!(d.read_word(), Err(DissassemblerError::TruncatedInstruction));
}

#[test]
fn direct_address_reads_a_full_word() {
    // mode 00, r/m 110: the two bytes after the ModRM byte are the address
    assert_eq!(decode_one(&[0b10001011, 0b00011110, 0x82, 0x0D]), "mov bx, [3458]");
    assert_eq!(decode_one(&[0b10001011, 0b00101110, 0x05, 0x00]), "mov bp, [5]");
    assert_eq!(decode_one(&[0b10001001, 0b00000110, 0x00, 0x00]), "mov [0], ax");
    // exactly two bytes are taken: the next instruction starts right after them
    assert_eq!(
        decode(&[0b10001011, 0b00011110, 0x82, 0x0D, 0x89, 0xD9]),
        Ok("bits 16\n\nmov bx, [3458]\nmov cx, bx".to_owned())
    );
    // one byte of address is not enough
    assert_eq!(
        decode(&[0b10001011, 0b00011110, 0x82]),
        Err(DissassemblerError::TruncatedInstruction)
    );
    // with a displacement, the same r/m field is bp
    assert_eq!(decode_one(&[0b10001011, 0b01011110, 0x00]), "mov bx, [bp + 0]");
    assert_eq!(decode_one(&[0b10001011, 0b10011110, 0x00, 0x01]), "mov bx, [bp + 256]");
}

#[test]
fn effective_address_with_displacement() {
    // mode 01, r/m 000: bx + si and one displacement byte
    assert_eq!(decode_one(&[0b10001010, 0b01000000, 0x04]), "mov al, [bx + si + 4]");
    assert_eq!(
        EffectiveAddress::DoubleReg(Register::BX, Register::SI)
            .to_string_with_displacement(&DisplacementValue::Byte(4)),
        "[bx + si + 4]"
    );
    assert_eq!(decode_one(&[0b10001011, 0b10000001, 0x87, 0x13]), "mov ax, [bx + di + 4999]");
    assert_eq!(decode_one(&[0b10001011, 0b01010110, 0x00]), "mov dx, [bp + 0]");
    assert_eq!(decode_one(&[0b10001000, 0b01101110, 0x00]), "mov [bp + 0], ch");
    // a displacement byte is shown as it is stored, without a sign
    assert_eq!(decode_one(&[0b10001011, 0b01000001, 0xDB]), "mov ax, [bx + di + 219]");
}

#[test]
fn no_displacement_shows_no_displacement_term() {
    assert_eq!(decode_one(&[0b10001010, 0b00000000]), "mov al, [bx + si]");
    assert_eq!(decode_one(&[0b10001011, 0b00011011]), "mov bx, [bp + di]");
    assert_eq!(decode_one(&[0b10001011, 0b00010100]), "mov dx, [si]");
    assert_eq!(decode_one(&[0b10001011, 0b00010101]), "mov dx, [di]");
    assert_eq!(decode_one(&[0b10001011, 0b00010111]), "mov dx, [bx]");
    assert_eq!(decode_one(&[0b10001011, 0b00010010]), "mov dx, [bp + si]");
    assert_eq!(decode_one(&[0b10001011, 0b00010001]), "mov dx, [bx + di]");
}

#[test]
fn arithmetic_between_register_and_memory() {
    assert_eq!(decode_one(&[0b00000011, 0b00011000]), "add bx, [bx + si]");
    assert_eq!(decode_one(&[0b00000001, 0b11011000]), "add ax, bx");
    assert_eq!(decode_one(&[0b00101011, 0b01011110, 0x00]), "sub bx, [bp + 0]");
    assert_eq!(decode_one(&[0b00101000, 0b11100000]), "sub al, ah");
    assert_eq!(decode_one(&[0b00111011, 0b00011000]), "cmp bx, [bx + si]");
    assert_eq!(decode_one(&[0b00111001, 0b11011000]), "cmp ax, bx");
}

#[test]
fn immediate_to_accumulator() {
    assert_eq!(decode_one(&[0b00000101, 0xE8, 0x03]), "add ax, 1000");
    assert_eq!(decode_one(&[0b00000100, 0xE2]), "add al, 226");
    assert_eq!(decode_one(&[0b00101101, 0xE8, 0x03]), "sub ax, 1000");
    assert_eq!(decode_one(&[0b00101100, 0x09]), "sub al, 9");
    assert_eq!(decode_one(&[0b00111101, 0xE8, 0x03]), "cmp ax, 1000");
    assert_eq!(decode_one(&[0b00111100, 0x09]), "cmp al, 9");
}

#[test]
fn second_byte_names_the_instruction() {
    assert_eq!(decode_one(&[0b10000011, 0b11000110, 0x02]), "add si, 2");
    assert_eq!(decode_one(&[0b10000011, 0b11101110, 0x02]), "sub si, 2");
    assert_eq!(decode_one(&[0b10000011, 0b11111110, 0x02]), "cmp si, 2");
    assert_eq!(decode_one(&[0b10000000, 0b00000111, 0x22]), "add [bx], 34");
    assert_eq!(decode_one(&[0b10000011, 0b10000010, 0xE8, 0x03, 0x1D]), "add [bp + si + 1000], 29");
    assert_eq!(decode_one(&[0b10000000, 0b00111111, 0x22]), "cmp [bx], 34");
    assert_eq!(decode_one(&[0b10000011, 0b00111110, 0xE2, 0x12, 0x1D]), "cmp [4834], 29");
}

#[test]
fn immediate_size_follows_sign_and_width() {
    // s = 0, w = 1: a full word
    assert_eq!(decode_one(&[0b10000001, 0b11000110, 0x34, 0x12]), "add si, 4660");
    // s = 1, w = 1: one byte, kept as it is stored
    assert_eq!(decode_one(&[0b10000011, 0b11000110, 0xFE]), "add si, 254");
    // s = 0, w = 0 and s = 1, w = 0: one byte
    assert_eq!(decode_one(&[0b10000000, 0b11000001, 0x34]), "add cl, 52");
    assert_eq!(decode_one(&[0b10000010, 0b11000001, 0x34]), "add cl, 52");
    // the word form needs both bytes
    assert_eq!(
        decode(&[0b10000001, 0b11000110, 0x34]),
        Err(DissassemblerError::TruncatedInstruction)
    );
}

#[test]
fn immediate_to_register_or_memory_move() {
    assert_eq!(decode_one(&[0b11000110, 0b00000011, 0x07]), "mov [bp + di], 7");
    assert_eq!(
        decode_one(&[0b11000111, 0b10000101, 0x85, 0x03, 0x5B, 0x01]),
        "mov [di + 901], 347"
    );
    assert_eq!(decode_one(&[0b11000111, 0b11000011, 0x0A, 0x00]), "mov bx, 10");
}

#[test]
fn short_jumps_and_loops() {
    let table: [(u8, &str); 20] = [
        (0b01110100, "je"),
        (0b01111100, "jl"),
        (0b01111110, "jle"),
        (0b01110010, "jb"),
        (0b01110110, "jbe"),
        (0b01111010, "jp"),
        (0b01110000, "jo"),
        (0b01111000, "js"),
        (0b01110101, "jne"),
        (0b01111101, "jne"),
        (0b01111111, "jg"),
        (0b01110011, "jnb"),
        (0b01110111, "jnbe"),
        (0b01111011, "jnp"),
        (0b01110001, "jno"),
        (0b01111001, "jns"),
        (0b11100010, "loop"),
        (0b11100001, "loopz"),
        (0b11100000, "loopnz"),
        (0b11100011, "jcxz"),
    ];
    for (opcode, name) in table {
        assert_eq!(decode_one(&[opcode, 0x02]), format!("{} 2", name));
        assert_eq!(decode_one(&[opcode, 0xFE]), format!("{} -2", name));
    }
}

#[test]
fn jump_offset_is_signed() {
    assert_eq!(decode_one(&[0b01110100, 0x00]), "je 0");
    assert_eq!(decode_one(&[0b01110100, 0x7F]), "je 127");
    assert_eq!(decode_one(&[0b01110100, 0x80]), "je -128");
    assert_eq!(decode_one(&[0b01110100, 0xFF]), "je -1");
    let mut d = Disassembler::new(&[0b11100010, 0xF6]);
    assert_eq!(
        d.decode_next_op(),
        Ok(Some(Operation::new(OpcodeMnemonic::Loop, Operand::SignedJump(-10), None)))
    );
}

#[test]
fn unknown_opcode_stops_the_pass() {
    assert_eq!(decode(&[0xFF]), Err(DissassemblerError::InvalidOpcode(0xFF)));
    assert_eq!(decode(&[0x89, 0xD9, 0x90]), Err(DissassemblerError::InvalidOpcode(0x90)));
    let mut d = Disassembler::new(&[0x89, 0xD9, 0x90, 0x89, 0xD9]);
    let first = d.decode_next_op().unwrap().unwrap();
    assert_eq!(first.to_string(), "mov cx, bx");
    assert_eq!(d.decode_next_op(), Err(DissassemblerError::InvalidOpcode(0x90)));
}

#[test]
fn unknown_opcode_extension_stops_the_pass() {
    assert_eq!(
        decode(&[0b10000011, 0b11001110, 0x02]),
        Err(DissassemblerError::InvalidModRm(0b10000011, 0b11001110))
    );
    assert_eq!(
        decode(&[0b10000000, 0b00010000, 0x02]),
        Err(DissassemblerError::InvalidModRm(0b10000000, 0b00010000))
    );
}

#[test]
fn truncated_instruction_fails_the_pass() {
    let whole: [&[u8]; 8] = [
        &[0b10001001, 0b11011001],
        &[0b10111000, 0x05, 0x00],
        &[0b10001011, 0b00011110, 0x82, 0x0D],
        &[0b10001010, 0b01000000, 0x04],
        &[0b10000001, 0b10000110, 0x34, 0x12, 0x78, 0x56],
        &[0b11000111, 0b10000101, 0x85, 0x03, 0x5B, 0x01],
        &[0b00000101, 0xE8, 0x03],
        &[0b01110100, 0xFE],
    ];
    for instruction in whole {
        assert!(decode(instruction).is_ok());
        for cut in 1..instruction.len() {
            assert_eq!(
                decode(&instruction[..cut]),
                Err(DissassemblerError::TruncatedInstruction)
            );
            let mut d = Disassembler::new(&instruction[..cut]);
            assert_eq!(d.decode_next_op(), Err(DissassemblerError::TruncatedInstruction));
        }
    }
}

#[test]
fn statements_before_a_truncated_instruction_are_decoded() {
    let mut d = Disassembler::new(&[0x89, 0xD9, 0xB8, 0x05, 0x00, 0xB8, 0x05]);
    let mut lines = Vec::new();
    let error = loop {
        match d.decode_next_op() {
            Ok(Some(statement)) => lines.push(statement.to_string()),
            Ok(None) => panic!("the stream ends inside an instruction"),
            Err(e) => break e,
        }
    };
    assert_eq!(lines, vec!["mov cx, bx".to_owned(), "mov ax, 5".to_owned()]);
    assert_eq!(error, DissassemblerError::TruncatedInstruction);
    assert_eq!(
        decode(&[0x89, 0xD9, 0xB8, 0x05, 0x00, 0xB8, 0x05]),
        Err(DissassemblerError::TruncatedInstruction)
    );
}

#[test]
fn decoding_twice_gives_the_same_text() {
    let stream: [u8; 12] = [0x89, 0xD9, 0xB8, 0x05, 0x00, 0x8A, 0x40, 0x04, 0x83, 0xC6, 0x02, 0x75];
    let first = decode(&stream[..11]);
    let second = decode(&stream[..11]);
    assert_eq!(first, second);
    assert_eq!(
        first,
        Ok("bits 16\n\nmov cx, bx\nmov ax, 5\nmov al, [bx + si + 4]\nadd si, 2".to_owned())
    );
    assert_eq!(decode(&stream), decode(&stream));
    assert_eq!(decode(&stream), Err(DissassemblerError::TruncatedInstruction));
}

#[test]
fn cursor_reads_forward_and_peeks_in_place() {
    let mut d = Disassembler::new(&[0x01, 0x02, 0x03]);
    assert_eq!(d.peek(), Ok(0x01));
    assert_eq!(d.peek(), Ok(0x01));
    assert_eq!(d.read_next(), Some(0x01));
    assert_eq!(d.read_expecting(), Ok(0x02));
    assert_eq!(d.peek(), Ok(0x03));
    assert_eq!(d.read_next(), Some(0x03));
    assert_eq!(d.read_next(), None);
    assert_eq!(d.read_next(), None);
    assert_eq!(d.peek(), Err(DissassemblerError::TruncatedInstruction));
    assert_eq!(d.read_expecting(), Err(DissassemblerError::TruncatedInstruction));
}
