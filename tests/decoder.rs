use gb_core::cartridge::RomOnly;
use gb_core::decode::{
    decode_instruction, fetch_operand, instruction_length, operand_kind, render_instruction,
    Operand,
};
use gb_core::mmu::{MemError, Region, MMU};
use gb_core::registers::Registers;

/// Working memory holding `bytes` from 0xC000, and the program counter there.
fn program(bytes: &[u8]) -> (MMU<RomOnly>, Registers) {
    let mut m = MMU::new(RomOnly::new(Vec::new()));
    for (i, b) in bytes.iter().enumerate() {
        assert_eq!(m.write(0xC000 + i as u16, *b), Ok(()));
    }
    let mut r = Registers::new();
    r.pc = 0xC000;
    (m, r)
}

fn decode(bytes: &[u8]) -> String {
    let (m, r) = program(bytes);
    decode_instruction(bytes[0], &m, &r).unwrap()
}

#[test]
fn nop_is_exact() {
    assert_eq!(decode(&[0x00]), "NOP");
    let mut r = Registers::new();
    r.a = 0x55;
    r.pc = 0x7FFF;
    let m = MMU::new(RomOnly::new(vec![0xFF; 16]));
    assert_eq!(decode_instruction(0x00, &m, &r), Ok(String::from("NOP")));
    r.pc = 0x9000;
    assert_eq!(decode_instruction(0x00, &m, &r), Ok(String::from("NOP")));
}

#[test]
fn byte_operand_is_rendered() {
    let s = decode(&[0x06, 0x7F]);
    assert!(s.contains("7F"));
    assert_eq!(s, "LD B, 7F");
}

#[test]
fn byte_operand_is_zero_padded_uppercase() {
    assert_eq!(decode(&[0x0E, 0x0A]), "LD C, 0A");
    assert_eq!(decode(&[0xE6, 0xab]), "AND AB");
    assert_eq!(decode(&[0xE0, 0x44]), "LDH ($FF00 + 44),A");
    assert_eq!(decode(&[0xCB, 0x7C]), "CB 7C");
}

#[test]
fn byte_operand_comes_after_the_opcode() {
    assert_eq!(decode(&[0x1E, 0x42]), "LD E,42");
}

#[test]
fn displacement_is_signed() {
    let s = decode(&[0x18, 0xFE]);
    assert_eq!(s, "JR -2");
    assert!(!s.contains("FE"));
    assert!(!s.contains("254"));
}

#[test]
fn displacement_extremes() {
    assert_eq!(decode(&[0x18, 0x7F]), "JR 127");
    assert_eq!(decode(&[0x18, 0x80]), "JR -128");
    assert_eq!(decode(&[0x28, 0x00]), "JR Z,0");
    assert_eq!(decode(&[0x20, 0xFB]), "JR NZ, -5");
    assert_eq!(decode(&[0x20, 0x0C]), "JR NZ, 12");
}

#[test]
fn word_operand_is_little_endian() {
    assert_eq!(decode(&[0x11, 0x34, 0x12]), "LD DE, 1234");
    assert_eq!(decode(&[0x31, 0xFE, 0xFF]), "LD SP, FFFE");
    assert_eq!(decode(&[0xC3, 0x50, 0x01]), "JP a16 0150");
    assert_eq!(decode(&[0xCD, 0x00, 0x20]), "CALL 2000");
    assert_eq!(decode(&[0xEA, 0x0F, 0xFF]), "LD (FF0F),A");
    assert_eq!(decode(&[0x01, 0x02, 0x00]), "LD BC, 0002");
}

#[test]
fn register_annotations() {
    let (m, mut r) = program(&[0x00]);
    r.a = 0x0F;
    r.b = 0x05;
    r.c = 0xC0;
    r.h = 0x98;
    r.l = 0x00;
    assert_eq!(decode_instruction(0x05, &m, &r).unwrap(), "DEC B (B = 05)");
    assert_eq!(decode_instruction(0x0D, &m, &r).unwrap(), "DEC C (C = C0)");
    assert_eq!(decode_instruction(0x02, &m, &r).unwrap(), "LD (BC), A (BC = 05C0, A = 0F)");
    assert_eq!(decode_instruction(0x32, &m, &r).unwrap(), "LD [HL-] (HL = 9800), A (A = 0F)");
    assert_eq!(decode_instruction(0x2A, &m, &r).unwrap(), "LD A, (HL+) (HL = 9800)");
    assert_eq!(decode_instruction(0xAF, &m, &r).unwrap(), "XOR A (A = 0F)");
}

#[test]
fn unknown_opcode_gives_sentinel() {
    assert_eq!(decode(&[0x03]), "NOT IMPLEMENTED IN DECODER");
    let m = MMU::new(RomOnly::new(Vec::new()));
    let mut r = Registers::new();
    r.pc = 0x8FFF;
    assert_eq!(decode_instruction(0xD3, &m, &r), Ok(String::from("NOT IMPLEMENTED IN DECODER")));
}

#[test]
fn decode_leaves_state_alone() {
    let (m, r) = program(&[0x3E, 0x99]);
    assert_eq!(decode_instruction(0x3E, &m, &r).unwrap(), "LD A, 99");
    assert_eq!(r.pc, 0xC000);
    assert_eq!(r.a, 0);
    assert_eq!(m.read(0xC001), Ok(0x99));
}

#[test]
fn operand_in_unbuilt_range_fails() {
    let m = MMU::new(RomOnly::new(Vec::new()));
    let mut r = Registers::new();
    r.pc = 0x7FFF;
    assert_eq!(
        decode_instruction(0x06, &m, &r),
        Err(MemError::UnimplementedRegion { addr: 0x8000, region: Region::VideoRam })
    );
    r.pc = 0x7FFE;
    assert_eq!(
        decode_instruction(0x21, &m, &r),
        Err(MemError::UnimplementedRegion { addr: 0x8000, region: Region::VideoRam })
    );
}

#[test]
fn operand_fetch_wraps_past_top_of_bus() {
    let m = MMU::new(RomOnly::new(vec![0x20, 0x01]));
    let mut r = Registers::new();
    r.pc = 0xFFFF;
    assert_eq!(decode_instruction(0x16, &m, &r).unwrap(), "LD D,20");
    assert_eq!(fetch_operand(&m, 0xFFFF, Operand::Word), Ok(0x0120));
    assert_eq!(fetch_operand(&m, 0xFFFF, Operand::Implied), Ok(0));
    r.pc = 0xFFFE;
    assert_eq!(
        decode_instruction(0x21, &m, &r),
        Err(MemError::AddressOutOfRange { requested: 0x10000 })
    );
}

#[test]
fn operand_formats_and_lengths() {
    assert_eq!(operand_kind(0x00), Operand::Implied);
    assert_eq!(operand_kind(0x06), Operand::Byte);
    assert_eq!(operand_kind(0x21), Operand::Word);
    assert_eq!(operand_kind(0x18), Operand::Displacement);
    assert_eq!(operand_kind(0xCB), Operand::Byte);
    assert_eq!(instruction_length(0x00), 1);
    assert_eq!(instruction_length(0x3E), 2);
    assert_eq!(instruction_length(0xCD), 3);
    assert_eq!(instruction_length(0x20), 2);
    assert_eq!(instruction_length(0x03), 1);
}

#[test]
fn render_takes_the_fetched_operand() {
    let r = Registers::new();
    assert_eq!(render_instruction(0x06, 0x7F, &r), "LD B, 7F");
    assert_eq!(render_instruction(0x18, 0xFE, &r), "JR -2");
    assert_eq!(render_instruction(0x21, 0xABCD, &r), "LD HL, ABCD");
    assert_eq!(render_instruction(0xF0, 0x0044, &r), "LDH A,($FF00 + 44)");
    assert_eq!(render_instruction(0xB6, 0, &r), "OR (HL)");
    assert_eq!(render_instruction(0x03, 0, &r), "NOT IMPLEMENTED IN DECODER");
}
