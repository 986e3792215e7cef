use vstd::prelude::*;
use vstd::string::StringExecFns;
use crate::cartridge::BankController;
use crate::mmu::{MemError, MMU};
use crate::registers::Registers;
use crate::text;

verus! {

/// How an opcode takes the bytes that follow it.
#[derive(Clone, Copy, Debug, PartialEq, Eq)]
pub enum Operand {
    /// No trailing byte: any operand is a register.
    Implied,
    /// One trailing byte of immediate data.
    Byte,
    /// Two trailing bytes, little-endian, of immediate data or an address.
    Word,
    /// One trailing byte, a two's-complement jump displacement.
    Displacement,
}

/// The operand format of `opcode`. Opcodes the decoder does not know are
/// taken as `Implied`.
pub open spec fn operand_of(opcode: u8) -> Operand {
    match opcode {
        0x06u8 | 0x0Eu8 | 0x16u8 | 0x1Eu8 | 0x2Eu8 | 0x36u8 | 0x3Eu8 | 0xCBu8 | 0xE0u8 | 0xE6u8
        | 0xF0u8 | 0xFEu8 => Operand::Byte,
        0x01u8 | 0x11u8 | 0x21u8 | 0x31u8 | 0xC3u8 | 0xCDu8 | 0xEAu8 => Operand::Word,
        0x18u8 | 0x20u8 | 0x28u8 => Operand::Displacement,
        _ => Operand::Implied,
    }
}

/// The number of bytes that follow an opcode of format `k`.
pub open spec fn operand_width(k: Operand) -> nat {
    match k {
        Operand::Implied => 0,
        Operand::Byte => 1,
        Operand::Word => 2,
        Operand::Displacement => 1,
    }
}

/// The text that opcodes absent from the table decode to.
pub open spec fn unsupported_text() -> Seq<char> {
    "NOT IMPLEMENTED IN DECODER"@
}

/// The text of the instruction `opcode` whose operand is `operand` (a byte
/// operand is its low half; a displacement is that byte read as signed),
/// with register values from `regs` as annotations. 0xB6 reads from the
/// address in HL, and is shown as `OR (HL)` on purpose.
pub open spec fn instruction_text(opcode: u8, operand: u16, regs: Registers) -> Seq<char> {
    match opcode {
        0x00u8 => "NOP"@,
        0x01u8 => "LD BC, "@ + text::hex4(operand),
        0x02u8 => "LD (BC), A (BC = "@ + text::hex4(crate::registers::pair(regs.b, regs.c)) + ", A = "@ + text::hex2(regs.a) + ")"@,
        0x04u8 => "INC B"@,
        0x05u8 => "DEC B (B = "@ + text::hex2(regs.b) + ")"@,
        0x06u8 => "LD B, "@ + text::hex2(operand as u8),
        0x0Bu8 => "DEC BC"@,
        0x0Cu8 => "INC C"@,
        0x0Du8 => "DEC C (C = "@ + text::hex2(regs.c) + ")"@,
        0x0Eu8 => "LD C, "@ + text::hex2(operand as u8),
        0x11u8 => "LD DE, "@ + text::hex4(operand),
        0x13u8 => "INC DE"@,
        0x14u8 => "INC D"@,
        0x15u8 => "DEC D"@,
        0x16u8 => "LD D,"@ + text::hex2(operand as u8),
        0x17u8 => "RLA"@,
        0x18u8 => "JR "@ + text::signed_decimal(operand as u8 as i8),
        0x1Au8 => "LD A,(DE)"@,
        0x1Du8 => "DEC E"@,
        0x1Eu8 => "LD E,"@ + text::hex2(operand as u8),
        0x1Fu8 => "RRA"@,
        0x20u8 => "JR NZ, "@ + text::signed_decimal(operand as u8 as i8),
        0x21u8 => "LD HL, "@ + text::hex4(operand),
        0x22u8 => "LD (HL+),A"@,
        0x23u8 => "INC HL"@,
        0x24u8 => "INC H"@,
        0x25u8 => "DEC H"@,
        0x28u8 => "JR Z,"@ + text::signed_decimal(operand as u8 as i8),
        0x2Au8 => "LD A, (HL+) (HL = "@ + text::hex4(crate::registers::pair(regs.h, regs.l)) + ")"@,
        0x2Eu8 => "LD L,"@ + text::hex2(operand as u8),
        0x2Fu8 => "CPL"@,
        0x31u8 => "LD SP, "@ + text::hex4(operand),
        0x32u8 => "LD [HL-] (HL = "@ + text::hex4(crate::registers::pair(regs.h, regs.l)) + "), A (A = "@ + text::hex2(regs.a) + ")"@,
        0x36u8 => "LD (HL),"@ + text::hex2(operand as u8),
        0x3Du8 => "DEC A"@,
        0x3Eu8 => "LD A, "@ + text::hex2(operand as u8),
        0x47u8 => "LD B,A"@,
        0x4Fu8 => "LD C,A"@,
        0x57u8 => "LD D,A"@,
        0x67u8 => "LD H,A"@,
        0x77u8 => "LD (HL),A"@,
        0x78u8 => "LD A,B"@,
        0x79u8 => "LD A,C"@,
        0x7Bu8 => "LD A, E"@,
        0x7Cu8 => "LD A,H"@,
        0x7Du8 => "LD A,L"@,
        0x86u8 => "ADD A, (HL)"@,
        0x90u8 => "SUB B"@,
        0xA1u8 => "AND C"@,
        0xA9u8 => "XOR C"@,
        0xAFu8 => "XOR A (A = "@ + text::hex2(regs.a) + ")"@,
        0xB0u8 => "OR B"@,
        0xB1u8 => "OR C"@,
        0xB2u8 => "OR D"@,
        0xB3u8 => "OR E"@,
        0xB4u8 => "OR H"@,
        0xB5u8 => "OR L"@,
        0xB6u8 => "OR (HL)"@,
        0xB7u8 => "OR A"@,
        0xBEu8 => "CP (HL)"@,
        0xBFu8 => "CP A"@,
        0xC1u8 => "POP BC"@,
        0xC3u8 => "JP a16 "@ + text::hex4(operand),
        0xC5u8 => "PUSH BC"@,
        0xC9u8 => "RET"@,
        0xCBu8 => "CB "@ + text::hex2(operand as u8),
        0xCDu8 => "CALL "@ + text::hex4(operand),
        0xE0u8 => "LDH ($FF00 + "@ + text::hex2(operand as u8) + "),A"@,
        0xE2u8 => "LD ($FF00 + C),A"@,
        0xE6u8 => "AND "@ + text::hex2(operand as u8),
        0xEAu8 => "LD ("@ + text::hex4(operand) + "),A"@,
        0xEFu8 => "RST 28h"@,
        0xF0u8 => "LDH A,($FF00 + "@ + text::hex2(operand as u8) + ")"@,
        0xF3u8 => "DI"@,
        0xFBu8 => "EI"@,
        0xFEu8 => "CP "@ + text::hex2(operand as u8),
        _ => unsupported_text(),
    }
}

/// The address after the program counter `pc`. The program counter wraps
/// modulo 0x10000, so the byte after an opcode at 0xFFFF is at 0x0000.
pub open spec fn next_pc(pc: u16) -> u16 {
    ((pc as int + 1) % 0x10000) as u16
}

/// What fetching the operand of format `k` for the instruction at `pc`
/// gives: nothing is read for `Implied`, one byte at `next_pc(pc)` for `Byte`
/// and `Displacement`, and a little-endian word at `next_pc(pc)` for `Word`.
/// `pc + 1` wraps to 0x0000 at the top of the bus; a word operand at 0xFFFE
/// then fails in `read_wide` with `AddressOutOfRange`.
pub open spec fn fetch_spec<B: BankController>(mmu: &MMU<B>, pc: u16, k: Operand) -> Result<
    u16,
    MemError,
> {
    match k {
        Operand::Implied => Ok(0),
        Operand::Word => mmu.read_wide_spec(next_pc(pc)),
        _ => match mmu.read_spec(next_pc(pc)) {
            Ok(b) => Ok(b as u16),
            Err(e) => Err(e),
        },
    }
}

/// The operand format of `opcode`.
pub fn operand_kind(opcode: u8) -> (r: Operand)
    ensures
        r == operand_of(opcode),
{
    match opcode {
        0x06u8 | 0x0Eu8 | 0x16u8 | 0x1Eu8 | 0x2Eu8 | 0x36u8 | 0x3Eu8 | 0xCBu8 | 0xE0u8 | 0xE6u8
        | 0xF0u8 | 0xFEu8 => Operand::Byte,
        0x01u8 | 0x11u8 | 0x21u8 | 0x31u8 | 0xC3u8 | 0xCDu8 | 0xEAu8 => Operand::Word,
        0x18u8 | 0x20u8 | 0x28u8 => Operand::Displacement,
        _ => Operand::Implied,
    }
}

/// The total length in bytes of the instruction that starts with `opcode`:
/// the opcode and its operand bytes. The caller advances the program counter
/// by it; an opcode the decoder does not know counts as one byte.
pub fn instruction_length(opcode: u8) -> (r: u8)
    ensures
        r == 1 + operand_width(operand_of(opcode)),
{
    match operand_kind(opcode) {
        Operand::Implied => 1,
        Operand::Byte => 2,
        Operand::Word => 3,
        Operand::Displacement => 2,
    }
}

/// Fetches the operand of format `k` for the instruction at `pc`, reading
/// only the bytes that the format needs.
pub fn fetch_operand<B: BankController>(mmu: &MMU<B>, pc: u16, k: Operand) -> (r: Result<
    u16,
    MemError,
>)
    requires
        mmu.wf(),
    ensures
        r == fetch_spec(mmu, pc, k),
{
    let next: u16 = if pc == 0xFFFF {
        0
    } else {
        pc + 1
    };
    match k {
        Operand::Implied => Ok(0),
        Operand::Word => mmu.read_wide(next),
        _ => {
            let b = mmu.read(next)?;
            Ok(b as u16)
        },
    }
}

/// Renders the instruction `opcode` with its already fetched `operand`.
/// Hexadecimal values are uppercase, two digits for a byte and four for a
/// word; displacements are signed decimal.
pub fn render_instruction(opcode: u8, operand: u16, regs: &Registers) -> (r: String)
    ensures
        r@ == instruction_text(opcode, operand, *regs),
{
    match opcode {
        0x00u8 => String::from_str("NOP"),
        0x01u8 => {
            let mut s = String::from_str("LD BC, ");
            text::push_hex4(&mut s, operand);
            s
        },
        0x02u8 => {
            let mut s = String::from_str("LD (BC), A (BC = ");
            text::push_hex4(&mut s, regs.get_bc());
            s.append(", A = ");
            text::push_hex2(&mut s, regs.a);
            s.append(")");
            s
        },
        0x04u8 => String::from_str("INC B"),
        0x05u8 => {
            let mut s = String::from_str("DEC B (B = ");
            text::push_hex2(&mut s, regs.b);
            s.append(")");
            s
        },
        0x06u8 => {
            let mut s = String::from_str("LD B, ");
            text::push_hex2(&mut s, operand as u8);
            s
        },
        0x0Bu8 => String::from_str("DEC BC"),
        0x0Cu8 => String::from_str("INC C"),
        0x0Du8 => {
            let mut s = String::from_str("DEC C (C = ");
            text::push_hex2(&mut s, regs.c);
            s.append(")");
            s
        },
        0x0Eu8 => {
            let mut s = String::from_str("LD C, ");
            text::push_hex2(&mut s, operand as u8);
            s
        },
        0x11u8 => {
            let mut s = String::from_str("LD DE, ");
            text::push_hex4(&mut s, operand);
            s
        },
        0x13u8 => String::from_str("INC DE"),
        0x14u8 => String::from_str("INC D"),
        0x15u8 => String::from_str("DEC D"),
        0x16u8 => {
            let mut s = String::from_str("LD D,");
            text::push_hex2(&mut s, operand as u8);
            s
        },
        0x17u8 => String::from_str("RLA"),
        0x18u8 => {
            let mut s = String::from_str("JR ");
            text::push_signed_decimal(&mut s, operand as u8 as i8);
            s
        },
        0x1Au8 => String::from_str("LD A,(DE)"),
        0x1Du8 => String::from_str("DEC E"),
        0x1Eu8 => {
            let mut s = String::from_str("LD E,");
            text::push_hex2(&mut s, operand as u8);
            s
        },
        0x1Fu8 => String::from_str("RRA"),
        0x20u8 => {
            let mut s = String::from_str("JR NZ, ");
            text::push_signed_decimal(&mut s, operand as u8 as i8);
            s
        },
        0x21u8 => {
            let mut s = String::from_str("LD HL, ");
            text::push_hex4(&mut s, operand);
            s
        },
        0x22u8 => String::from_str("LD (HL+),A"),
        0x23u8 => String::from_str("INC HL"),
        0x24u8 => String::from_str("INC H"),
        0x25u8 => String::from_str("DEC H"),
        0x28u8 => {
            let mut s = String::from_str("JR Z,");
            text::push_signed_decimal(&mut s, operand as u8 as i8);
            s
        },
        0x2Au8 => {
            let mut s = String::from_str("LD A, (HL+) (HL = ");
            text::push_hex4(&mut s, regs.get_hl());
            s.append(")");
            s
        },
        0x2Eu8 => {
            let mut s = String::from_str("LD L,");
            text::push_hex2(&mut s, operand as u8);
            s
        },
        0x2Fu8 => String::from_str("CPL"),
        0x31u8 => {
            let mut s = String::from_str("LD SP, ");
            text::push_hex4(&mut s, operand);
            s
        },
        0x32u8 => {
            let mut s = String::from_str("LD [HL-] (HL = ");
            text::push_hex4(&mut s, regs.get_hl());
            s.append("), A (A = ");
            text::push_hex2(&mut s, regs.a);
            s.append(")");
            s
        },
        0x36u8 => {
            let mut s = String::from_str("LD (HL),");
            text::push_hex2(&mut s, operand as u8);
            s
        },
        0x3Du8 => String::from_str("DEC A"),
        0x3Eu8 => {
            let mut s = String::from_str("LD A, ");
            text::push_hex2(&mut s, operand as u8);
            s
        },
        0x47u8 => String::from_str("LD B,A"),
        0x4Fu8 => String::from_str("LD C,A"),
        0x57u8 => String::from_str("LD D,A"),
        0x67u8 => String::from_str("LD H,A"),
        0x77u8 => String::from_str("LD (HL),A"),
        0x78u8 => String::from_str("LD A,B"),
        0x79u8 => String::from_str("LD A,C"),
        0x7Bu8 => String::from_str("LD A, E"),
        0x7Cu8 => String::from_str("LD A,H"),
        0x7Du8 => String::from_str("LD A,L"),
        0x86u8 => String::from_str("ADD A, (HL)"),
        0x90u8 => String::from_str("SUB B"),
        0xA1u8 => String::from_str("AND C"),
        0xA9u8 => String::from_str("XOR C"),
        0xAFu8 => {
            let mut s = String::from_str("XOR A (A = ");
            text::push_hex2(&mut s, regs.a);
            s.append(")");
            s
        },
        0xB0u8 => String::from_str("OR B"),
        0xB1u8 => String::from_str("OR C"),
        0xB2u8 => String::from_str("OR D"),
        0xB3u8 => String::from_str("OR E"),
        0xB4u8 => String::from_str("OR H"),
        0xB5u8 => String::from_str("OR L"),
        0xB6u8 => String::from_str("OR (HL)"),
        0xB7u8 => String::from_str("OR A"),
        0xBEu8 => String::from_str("CP (HL)"),
        0xBFu8 => String::from_str("CP A"),
        0xC1u8 => String::from_str("POP BC"),
        0xC3u8 => {
            let mut s = String::from_str("JP a16 ");
            text::push_hex4(&mut s, operand);
            s
        },
        0xC5u8 => String::from_str("PUSH BC"),
        0xC9u8 => String::from_str("RET"),
        0xCBu8 => {
            let mut s = String::from_str("CB ");
            text::push_hex2(&mut s, operand as u8);
            s
        },
        0xCDu8 => {
            let mut s = String::from_str("CALL ");
            text::push_hex4(&mut s, operand);
            s
        },
        0xE0u8 => {
            let mut s = String::from_str("LDH ($FF00 + ");
            text::push_hex2(&mut s, operand as u8);
            s.append("),A");
            s
        },
        0xE2u8 => String::from_str("LD ($FF00 + C),A"),
        0xE6u8 => {
            let mut s = String::from_str("AND ");
            text::push_hex2(&mut s, operand as u8);
            s
        },
        0xEAu8 => {
            let mut s = String::from_str("LD (");
            text::push_hex4(&mut s, operand);
            s.append("),A");
            s
        },
        0xEFu8 => String::from_str("RST 28h"),
        0xF0u8 => {
            let mut s = String::from_str("LDH A,($FF00 + ");
            text::push_hex2(&mut s, operand as u8);
            s.append(")");
            s
        },
        0xF3u8 => String::from_str("DI"),
        0xFBu8 => String::from_str("EI"),
        0xFEu8 => {
            let mut s = String::from_str("CP ");
            text::push_hex2(&mut s, operand as u8);
            s
        },
        _ => String::from_str("NOT IMPLEMENTED IN DECODER"),
    }
}

/// Decodes the instruction that starts with `opcode` at `regs.pc` into its
/// text. Only the operand bytes after the opcode are read, through `mmu`,
/// starting at `pc + 1` with the program counter wrapping modulo 0x10000;
/// nothing is written and the program counter is left where it is. Every
/// opcode decodes: one outside the table gives the unsupported text. The
/// decode fails only when reading an operand byte fails, with that error.
pub fn decode_instruction<B: BankController>(opcode: u8, mmu: &MMU<B>, regs: &Registers) -> (r:
    Result<String, MemError>)
    requires
        mmu.wf(),
    ensures
        match fetch_spec(mmu, regs.pc, operand_of(opcode)) {
            Ok(v) => r is Ok && r->Ok_0@ == instruction_text(opcode, v, *regs),
            Err(e) => r == Err::<String, MemError>(e),
        },
{
    let k = operand_kind(opcode);
    let operand = fetch_operand(mmu, regs.pc, k)?;
    Ok(render_instruction(opcode, operand, regs))
}

/// Decoding 0x00 reads no memory, so it cannot fail, and gives exactly
/// "NOP" whatever the registers and memory hold.
pub proof fn lemma_nop_decodes_anywhere<B: BankController>(mmu: &MMU<B>, regs: Registers)
    ensures
        operand_of(0x00) == Operand::Implied,
        fetch_spec(mmu, regs.pc, operand_of(0x00)) == Ok::<u16, MemError>(0),
        instruction_text(0x00, 0, regs) == "NOP"@,
{
}

/// An opcode outside the table, such as 0x03, reads no memory, so its decode
/// cannot fail, and it gives the unsupported text whatever the registers and
/// memory hold.
pub proof fn lemma_unknown_opcode_is_unsupported<B: BankController>(
    mmu: &MMU<B>,
    regs: Registers,
)
    ensures
        fetch_spec(mmu, regs.pc, operand_of(0x03)) == Ok::<u16, MemError>(0),
        instruction_text(0x03, 0, regs) == unsupported_text(),
{
}

} // verus!
