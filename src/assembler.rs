//! The decoder, which turns opcode bytes into instructions, and the
//! disassembler, which renders them as text.
use vstd::prelude::*;
use crate::addrmod::AddrMod;
use crate::instructions::{Instruction, Mnemonic};

verus! {

/// The documented table of legal opcodes: each byte's operation and
/// addressing mode. Any other byte is the unknown sentinel.
#[verifier::opaque]
pub open spec fn opcode_table(b: u8) -> (Mnemonic, AddrMod) {
    match b {
        0x00 => (Mnemonic::Brk, AddrMod::Implied),
        0x01 => (Mnemonic::Ora, AddrMod::IndirectX),
        0x05 => (Mnemonic::Ora, AddrMod::ZeroPage),
        0x06 => (Mnemonic::Asl, AddrMod::ZeroPage),
        0x08 => (Mnemonic::Php, AddrMod::Implied),
        0x09 => (Mnemonic::Ora, AddrMod::Immediate),
        0x0A => (Mnemonic::Asl, AddrMod::Accumulator),
        0x0D => (Mnemonic::Ora, AddrMod::Absolute),
        0x0E => (Mnemonic::Asl, AddrMod::Absolute),
        0x10 => (Mnemonic::Bpl, AddrMod::Relative),
        0x11 => (Mnemonic::Ora, AddrMod::IndirectY),
        0x15 => (Mnemonic::Ora, AddrMod::ZeroPageX),
        0x16 => (Mnemonic::Asl, AddrMod::ZeroPageX),
        0x18 => (Mnemonic::Clc, AddrMod::Implied),
        0x19 => (Mnemonic::Ora, AddrMod::AbsoluteY),
        0x1D => (Mnemonic::Ora, AddrMod::AbsoluteX),
        0x1E => (Mnemonic::Asl, AddrMod::AbsoluteX),
        0x20 => (Mnemonic::Jsr, AddrMod::Absolute),
        0x21 => (Mnemonic::And, AddrMod::IndirectX),
        0x24 => (Mnemonic::Bit, AddrMod::ZeroPage),
        0x25 => (Mnemonic::And, AddrMod::ZeroPage),
        0x26 => (Mnemonic::Rol, AddrMod::ZeroPage),
        0x28 => (Mnemonic::Plp, AddrMod::Implied),
        0x29 => (Mnemonic::And, AddrMod::Immediate),
        0x2A => (Mnemonic::Rol, AddrMod::Accumulator),
        0x2C => (Mnemonic::Bit, AddrMod::Absolute),
        0x2D => (Mnemonic::And, AddrMod::Absolute),
        0x2E => (Mnemonic::Rol, AddrMod::Absolute),
        0x30 => (Mnemonic::Bmi, AddrMod::Relative),
        0x31 => (Mnemonic::And, AddrMod::IndirectY),
        0x35 => (Mnemonic::And, AddrMod::ZeroPageX),
        0x36 => (Mnemonic::Rol, AddrMod::ZeroPageX),
        0x38 => (Mnemonic::Sec, AddrMod::Implied),
        0x39 => (Mnemonic::And, AddrMod::AbsoluteY),
        0x3D => (Mnemonic::And, AddrMod::AbsoluteX),
        0x3E => (Mnemonic::Rol, AddrMod::AbsoluteX),
        0x40 => (Mnemonic::Rti, AddrMod::Implied),
        0x41 => (Mnemonic::Eor, AddrMod::IndirectX),
        0x45 => (Mnemonic::Eor, AddrMod::ZeroPage),
        0x46 => (Mnemonic::Lsr, AddrMod::ZeroPage),
        0x48 => (Mnemonic::Pha, AddrMod::Implied),
        0x49 => (Mnemonic::Eor, AddrMod::Immediate),
        0x4A => (Mnemonic::Lsr, AddrMod::Accumulator),
        0x4C => (Mnemonic::Jmp, AddrMod::Absolute),
        0x4D => (Mnemonic::Eor, AddrMod::Absolute),
        0x4E => (Mnemonic::Lsr, AddrMod::Absolute),
        0x50 => (Mnemonic::Bvc, AddrMod::Relative),
        0x51 => (Mnemonic::Eor, AddrMod::IndirectY),
        0x55 => (Mnemonic::Eor, AddrMod::ZeroPageX),
        0x56 => (Mnemonic::Lsr, AddrMod::ZeroPageX),
        0x58 => (Mnemonic::Cli, AddrMod::Implied),
        0x59 => (Mnemonic::Eor, AddrMod::AbsoluteY),
        0x5D => (Mnemonic::Eor, AddrMod::AbsoluteX),
        0x5E => (Mnemonic::Lsr, AddrMod::AbsoluteX),
        0x60 => (Mnemonic::Rts, AddrMod::Implied),
        0x61 => (Mnemonic::Adc, AddrMod::IndirectX),
        0x65 => (Mnemonic::Adc, AddrMod::ZeroPage),
        0x66 => (Mnemonic::Ror, AddrMod::ZeroPage),
        0x68 => (Mnemonic::Pla, AddrMod::Implied),
        0x69 => (Mnemonic::Adc, AddrMod::Immediate),
        0x6A => (Mnemonic::Ror, AddrMod::Accumulator),
        0x6C => (Mnemonic::Jmp, AddrMod::Indirect),
        0x6D => (Mnemonic::Adc, AddrMod::Absolute),
        0x6E => (Mnemonic::Ror, AddrMod::Absolute),
        0x70 => (Mnemonic::Bvs, AddrMod::Relative),
        0x71 => (Mnemonic::Adc, AddrMod::IndirectY),
        0x75 => (Mnemonic::Adc, AddrMod::ZeroPageX),
        0x76 => (Mnemonic::Ror, AddrMod::ZeroPageX),
        0x78 => (Mnemonic::Sei, AddrMod::Implied),
        0x79 => (Mnemonic::Adc, AddrMod::AbsoluteY),
        0x7D => (Mnemonic::Adc, AddrMod::AbsoluteX),
        0x7E => (Mnemonic::Ror, AddrMod::AbsoluteX),
        0x81 => (Mnemonic::Sta, AddrMod::IndirectX),
        0x84 => (Mnemonic::Sty, AddrMod::ZeroPage),
        0x85 => (Mnemonic::Sta, AddrMod::ZeroPage),
        0x86 => (Mnemonic::Stx, AddrMod::ZeroPage),
        0x88 => (Mnemonic::Dey, AddrMod::Implied),
        0x8A => (Mnemonic::Txa, AddrMod::Implied),
        0x8C => (Mnemonic::Sty, AddrMod::Absolute),
        0x8D => (Mnemonic::Sta, AddrMod::Absolute),
        0x8E => (Mnemonic::Stx, AddrMod::Absolute),
        0x90 => (Mnemonic::Bcc, AddrMod::Relative),
        0x91 => (Mnemonic::Sta, AddrMod::IndirectY),
        0x94 => (Mnemonic::Sty, AddrMod::ZeroPageX),
        0x95 => (Mnemonic::Sta, AddrMod::ZeroPageX),
        0x96 => (Mnemonic::Stx, AddrMod::ZeroPageY),
        0x98 => (Mnemonic::Tya, AddrMod::Implied),
        0x99 => (Mnemonic::Sta, AddrMod::AbsoluteY),
        0x9A => (Mnemonic::Txs, AddrMod::Implied),
        0x9D => (Mnemonic::Sta, AddrMod::AbsoluteX),
        0xA0 => (Mnemonic::Ldy, AddrMod::Immediate),
        0xA1 => (Mnemonic::Lda, AddrMod::IndirectX),
        0xA2 => (Mnemonic::Ldx, AddrMod::Immediate),
        0xA4 => (Mnemonic::Ldy, AddrMod::ZeroPage),
        0xA5 => (Mnemonic::Lda, AddrMod::ZeroPage),
        0xA6 => (Mnemonic::Ldx, AddrMod::ZeroPage),
        0xA8 => (Mnemonic::Tay, AddrMod::Implied),
        0xA9 => (Mnemonic::Lda, AddrMod::Immediate),
        0xAA => (Mnemonic::Tax, AddrMod::Implied),
        0xAC => (Mnemonic::Ldy, AddrMod::Absolute),
        0xAD => (Mnemonic::Lda, AddrMod::Absolute),
        0xAE => (Mnemonic::Ldx, AddrMod::Absolute),
        0xB0 => (Mnemonic::Bcs, AddrMod::Relative),
        0xB1 => (Mnemonic::Lda, AddrMod::IndirectY),
        0xB4 => (Mnemonic::Ldy, AddrMod::ZeroPageX),
        0xB5 => (Mnemonic::Lda, AddrMod::ZeroPageX),
        0xB6 => (Mnemonic::Ldx, AddrMod::ZeroPageY),
        0xB8 => (Mnemonic::Clv, AddrMod::Implied),
        0xB9 => (Mnemonic::Lda, AddrMod::AbsoluteY),
        0xBA => (Mnemonic::Tsx, AddrMod::Implied),
        0xBC => (Mnemonic::Ldy, AddrMod::AbsoluteX),
        0xBD => (Mnemonic::Lda, AddrMod::AbsoluteX),
        0xBE => (Mnemonic::Ldx, AddrMod::AbsoluteY),
        0xC0 => (Mnemonic::Cpy, AddrMod::Immediate),
        0xC1 => (Mnemonic::Cmp, AddrMod::IndirectX),
        0xC4 => (Mnemonic::Cpy, AddrMod::ZeroPage),
        0xC5 => (Mnemonic::Cmp, AddrMod::ZeroPage),
        0xC6 => (Mnemonic::Dec, AddrMod::ZeroPage),
        0xC8 => (Mnemonic::Iny, AddrMod::Implied),
        0xC9 => (Mnemonic::Cmp, AddrMod::Immediate),
        0xCA => (Mnemonic::Dex, AddrMod::Implied),
        0xCC => (Mnemonic::Cpy, AddrMod::Absolute),
        0xCD => (Mnemonic::Cmp, AddrMod::Absolute),
        0xCE => (Mnemonic::Dec, AddrMod::Absolute),
        0xD0 => (Mnemonic::Bne, AddrMod::Relative),
        0xD1 => (Mnemonic::Cmp, AddrMod::IndirectY),
        0xD5 => (Mnemonic::Cmp, AddrMod::ZeroPageX),
        0xD6 => (Mnemonic::Dec, AddrMod::ZeroPageX),
        0xD8 => (Mnemonic::Cld, AddrMod::Implied),
        0xD9 => (Mnemonic::Cmp, AddrMod::AbsoluteY),
        0xDD => (Mnemonic::Cmp, AddrMod::AbsoluteX),
        0xDE => (Mnemonic::Dec, AddrMod::AbsoluteX),
        0xE0 => (Mnemonic::Cpx, AddrMod::Immediate),
        0xE1 => (Mnemonic::Sbc, AddrMod::IndirectX),
        0xE4 => (Mnemonic::Cpx, AddrMod::ZeroPage),
        0xE5 => (Mnemonic::Sbc, AddrMod::ZeroPage),
        0xE6 => (Mnemonic::Inc, AddrMod::ZeroPage),
        0xE8 => (Mnemonic::Inx, AddrMod::Implied),
        0xE9 => (Mnemonic::Sbc, AddrMod::Immediate),
        0xEA => (Mnemonic::Nop, AddrMod::Implied),
        0xEC => (Mnemonic::Cpx, AddrMod::Absolute),
        0xED => (Mnemonic::Sbc, AddrMod::Absolute),
        0xEE => (Mnemonic::Inc, AddrMod::Absolute),
        0xF0 => (Mnemonic::Beq, AddrMod::Relative),
        0xF1 => (Mnemonic::Sbc, AddrMod::IndirectY),
        0xF5 => (Mnemonic::Sbc, AddrMod::ZeroPageX),
        0xF6 => (Mnemonic::Inc, AddrMod::ZeroPageX),
        0xF8 => (Mnemonic::Sed, AddrMod::Implied),
        0xF9 => (Mnemonic::Sbc, AddrMod::AbsoluteY),
        0xFD => (Mnemonic::Sbc, AddrMod::AbsoluteX),
        0xFE => (Mnemonic::Inc, AddrMod::AbsoluteX),
        _ => (Mnemonic::Ukn, AddrMod::Unknown),
    }
}

/// Whether `b` has a legal encoding.
pub open spec fn is_legal(b: u8) -> bool {
    opcode_table(b).0 != Mnemonic::Ukn
}

/// Bytes an instruction occupies; an unknown opcode still takes its own byte.
pub open spec fn instr_len(mode: AddrMod) -> nat {
    if mode.len_spec() == 0 {
        1
    } else {
        mode.len_spec()
    }
}

/// The number of bytes taken by the instruction whose opcode is at `pos`.
pub open spec fn len_at(rom: Seq<u8>, pos: int) -> nat {
    instr_len(opcode_table(rom[pos]).1)
}

/// The instruction at `pos` lies wholly inside `rom`.
pub open spec fn fits_at(rom: Seq<u8>, pos: int) -> bool {
    0 <= pos < rom.len() && pos + len_at(rom, pos) <= rom.len()
}

/// The operand bytes of the instruction at `pos`.
pub open spec fn operands_at(rom: Seq<u8>, pos: int) -> Seq<u8> {
    rom.subrange(pos + 1, pos + 1 + opcode_table(rom[pos]).1.operand_count())
}

/// Every instruction met when decoding from `pos` onwards lies inside `rom`.
pub open spec fn fits_from(rom: Seq<u8>, pos: int) -> bool
    decreases rom.len() - pos,
{
    if pos < 0 || pos >= rom.len() {
        true
    } else {
        fits_at(rom, pos) && fits_from(rom, pos + len_at(rom, pos))
    }
}

pub(crate) proof fn lemma_table_modes(b: u8)
    ensures
        opcode_table(b).0.fixed_mode() is Some ==> opcode_table(b).0.fixed_mode() == Some(
            opcode_table(b).1,
        ),
        opcode_table(b).1 == AddrMod::Unknown <==> opcode_table(b).0 == Mnemonic::Ukn,
{
    reveal(opcode_table);
}

/// Looks up the operation and mode of an opcode byte.
fn lookup(b: u8) -> (r: (Mnemonic, AddrMod))
    ensures
        r == opcode_table(b),
{
    proof {
        reveal(opcode_table);
    }
    match b {
        0x00 => (Mnemonic::Brk, AddrMod::Implied),
        0x01 => (Mnemonic::Ora, AddrMod::IndirectX),
        0x05 => (Mnemonic::Ora, AddrMod::ZeroPage),
        0x06 => (Mnemonic::Asl, AddrMod::ZeroPage),
        0x08 => (Mnemonic::Php, AddrMod::Implied),
        0x09 => (Mnemonic::Ora, AddrMod::Immediate),
        0x0A => (Mnemonic::Asl, AddrMod::Accumulator),
        0x0D => (Mnemonic::Ora, AddrMod::Absolute),
        0x0E => (Mnemonic::Asl, AddrMod::Absolute),
        0x10 => (Mnemonic::Bpl, AddrMod::Relative),
        0x11 => (Mnemonic::Ora, AddrMod::IndirectY),
        0x15 => (Mnemonic::Ora, AddrMod::ZeroPageX),
        0x16 => (Mnemonic::Asl, AddrMod::ZeroPageX),
        0x18 => (Mnemonic::Clc, AddrMod::Implied),
        0x19 => (Mnemonic::Ora, AddrMod::AbsoluteY),
        0x1D => (Mnemonic::Ora, AddrMod::AbsoluteX),
        0x1E => (Mnemonic::Asl, AddrMod::AbsoluteX),
        0x20 => (Mnemonic::Jsr, AddrMod::Absolute),
        0x21 => (Mnemonic::And, AddrMod::IndirectX),
        0x24 => (Mnemonic::Bit, AddrMod::ZeroPage),
        0x25 => (Mnemonic::And, AddrMod::ZeroPage),
        0x26 => (Mnemonic::Rol, AddrMod::ZeroPage),
        0x28 => (Mnemonic::Plp, AddrMod::Implied),
        0x29 => (Mnemonic::And, AddrMod::Immediate),
        0x2A => (Mnemonic::Rol, AddrMod::Accumulator),
        0x2C => (Mnemonic::Bit, AddrMod::Absolute),
        0x2D => (Mnemonic::And, AddrMod::Absolute),
        0x2E => (Mnemonic::Rol, AddrMod::Absolute),
        0x30 => (Mnemonic::Bmi, AddrMod::Relative),
        0x31 => (Mnemonic::And, AddrMod::IndirectY),
        0x35 => (Mnemonic::And, AddrMod::ZeroPageX),
        0x36 => (Mnemonic::Rol, AddrMod::ZeroPageX),
        0x38 => (Mnemonic::Sec, AddrMod::Implied),
        0x39 => (Mnemonic::And, AddrMod::AbsoluteY),
        0x3D => (Mnemonic::And, AddrMod::AbsoluteX),
        0x3E => (Mnemonic::Rol, AddrMod::AbsoluteX),
        0x40 => (Mnemonic::Rti, AddrMod::Implied),
        0x41 => (Mnemonic::Eor, AddrMod::IndirectX),
        0x45 => (Mnemonic::Eor, AddrMod::ZeroPage),
        0x46 => (Mnemonic::Lsr, AddrMod::ZeroPage),
        0x48 => (Mnemonic::Pha, AddrMod::Implied),
        0x49 => (Mnemonic::Eor, AddrMod::Immediate),
        0x4A => (Mnemonic::Lsr, AddrMod::Accumulator),
        0x4C => (Mnemonic::Jmp, AddrMod::Absolute),
        0x4D => (Mnemonic::Eor, AddrMod::Absolute),
        0x4E => (Mnemonic::Lsr, AddrMod::Absolute),
        0x50 => (Mnemonic::Bvc, AddrMod::Relative),
        0x51 => (Mnemonic::Eor, AddrMod::IndirectY),
        0x55 => (Mnemonic::Eor, AddrMod::ZeroPageX),
        0x56 => (Mnemonic::Lsr, AddrMod::ZeroPageX),
        0x58 => (Mnemonic::Cli, AddrMod::Implied),
        0x59 => (Mnemonic::Eor, AddrMod::AbsoluteY),
        0x5D => (Mnemonic::Eor, AddrMod::AbsoluteX),
        0x5E => (Mnemonic::Lsr, AddrMod::AbsoluteX),
        0x60 => (Mnemonic::Rts, AddrMod::Implied),
        0x61 => (Mnemonic::Adc, AddrMod::IndirectX),
        0x65 => (Mnemonic::Adc, AddrMod::ZeroPage),
        0x66 => (Mnemonic::Ror, AddrMod::ZeroPage),
        0x68 => (Mnemonic::Pla, AddrMod::Implied),
        0x69 => (Mnemonic::Adc, AddrMod::Immediate),
        0x6A => (Mnemonic::Ror, AddrMod::Accumulator),
        0x6C => (Mnemonic::Jmp, AddrMod::Indirect),
        0x6D => (Mnemonic::Adc, AddrMod::Absolute),
        0x6E => (Mnemonic::Ror, AddrMod::Absolute),
        0x70 => (Mnemonic::Bvs, AddrMod::Relative),
        0x71 => (Mnemonic::Adc, AddrMod::IndirectY),
        0x75 => (Mnemonic::Adc, AddrMod::ZeroPageX),
        0x76 => (Mnemonic::Ror, AddrMod::ZeroPageX),
        0x78 => (Mnemonic::Sei, AddrMod::Implied),
        0x79 => (Mnemonic::Adc, AddrMod::AbsoluteY),
        0x7D => (Mnemonic::Adc, AddrMod::AbsoluteX),
        0x7E => (Mnemonic::Ror, AddrMod::AbsoluteX),
        0x81 => (Mnemonic::Sta, AddrMod::IndirectX),
        0x84 => (Mnemonic::Sty, AddrMod::ZeroPage),
        0x85 => (Mnemonic::Sta, AddrMod::ZeroPage),
        0x86 => (Mnemonic::Stx, AddrMod::ZeroPage),
        0x88 => (Mnemonic::Dey, AddrMod::Implied),
        0x8A => (Mnemonic::Txa, AddrMod::Implied),
        0x8C => (Mnemonic::Sty, AddrMod::Absolute),
        0x8D => (Mnemonic::Sta, AddrMod::Absolute),
        0x8E => (Mnemonic::Stx, AddrMod::Absolute),
        0x90 => (Mnemonic::Bcc, AddrMod::Relative),
        0x91 => (Mnemonic::Sta, AddrMod::IndirectY),
        0x94 => (Mnemonic::Sty, AddrMod::ZeroPageX),
        0x95 => (Mnemonic::Sta, AddrMod::ZeroPageX),
        0x96 => (Mnemonic::Stx, AddrMod::ZeroPageY),
        0x98 => (Mnemonic::Tya, AddrMod::Implied),
        0x99 => (Mnemonic::Sta, AddrMod::AbsoluteY),
        0x9A => (Mnemonic::Txs, AddrMod::Implied),
        0x9D => (Mnemonic::Sta, AddrMod::AbsoluteX),
        0xA0 => (Mnemonic::Ldy, AddrMod::Immediate),
        0xA1 => (Mnemonic::Lda, AddrMod::IndirectX),
        0xA2 => (Mnemonic::Ldx, AddrMod::Immediate),
        0xA4 => (Mnemonic::Ldy, AddrMod::ZeroPage),
        0xA5 => (Mnemonic::Lda, AddrMod::ZeroPage),
        0xA6 => (Mnemonic::Ldx, AddrMod::ZeroPage),
        0xA8 => (Mnemonic::Tay, AddrMod::Implied),
        0xA9 => (Mnemonic::Lda, AddrMod::Immediate),
        0xAA => (Mnemonic::Tax, AddrMod::Implied),
        0xAC => (Mnemonic::Ldy, AddrMod::Absolute),
        0xAD => (Mnemonic::Lda, AddrMod::Absolute),
        0xAE => (Mnemonic::Ldx, AddrMod::Absolute),
        0xB0 => (Mnemonic::Bcs, AddrMod::Relative),
        0xB1 => (Mnemonic::Lda, AddrMod::IndirectY),
        0xB4 => (Mnemonic::Ldy, AddrMod::ZeroPageX),
        0xB5 => (Mnemonic::Lda, AddrMod::ZeroPageX),
        0xB6 => (Mnemonic::Ldx, AddrMod::ZeroPageY),
        0xB8 => (Mnemonic::Clv, AddrMod::Implied),
        0xB9 => (Mnemonic::Lda, AddrMod::AbsoluteY),
        0xBA => (Mnemonic::Tsx, AddrMod::Implied),
        0xBC => (Mnemonic::Ldy, AddrMod::AbsoluteX),
        0xBD => (Mnemonic::Lda, AddrMod::AbsoluteX),
        0xBE => (Mnemonic::Ldx, AddrMod::AbsoluteY),
        0xC0 => (Mnemonic::Cpy, AddrMod::Immediate),
        0xC1 => (Mnemonic::Cmp, AddrMod::IndirectX),
        0xC4 => (Mnemonic::Cpy, AddrMod::ZeroPage),
        0xC5 => (Mnemonic::Cmp, AddrMod::ZeroPage),
        0xC6 => (Mnemonic::Dec, AddrMod::ZeroPage),
        0xC8 => (Mnemonic::Iny, AddrMod::Implied),
        0xC9 => (Mnemonic::Cmp, AddrMod::Immediate),
        0xCA => (Mnemonic::Dex, AddrMod::Implied),
        0xCC => (Mnemonic::Cpy, AddrMod::Absolute),
        0xCD => (Mnemonic::Cmp, AddrMod::Absolute),
        0xCE => (Mnemonic::Dec, AddrMod::Absolute),
        0xD0 => (Mnemonic::Bne, AddrMod::Relative),
        0xD1 => (Mnemonic::Cmp, AddrMod::IndirectY),
        0xD5 => (Mnemonic::Cmp, AddrMod::ZeroPageX),
        0xD6 => (Mnemonic::Dec, AddrMod::ZeroPageX),
        0xD8 => (Mnemonic::Cld, AddrMod::Implied),
        0xD9 => (Mnemonic::Cmp, AddrMod::AbsoluteY),
        0xDD => (Mnemonic::Cmp, AddrMod::AbsoluteX),
        0xDE => (Mnemonic::Dec, AddrMod::AbsoluteX),
        0xE0 => (Mnemonic::Cpx, AddrMod::Immediate),
        0xE1 => (Mnemonic::Sbc, AddrMod::IndirectX),
        0xE4 => (Mnemonic::Cpx, AddrMod::ZeroPage),
        0xE5 => (Mnemonic::Sbc, AddrMod::ZeroPage),
        0xE6 => (Mnemonic::Inc, AddrMod::ZeroPage),
        0xE8 => (Mnemonic::Inx, AddrMod::Implied),
        0xE9 => (Mnemonic::Sbc, AddrMod::Immediate),
        0xEA => (Mnemonic::Nop, AddrMod::Implied),
        0xEC => (Mnemonic::Cpx, AddrMod::Absolute),
        0xED => (Mnemonic::Sbc, AddrMod::Absolute),
        0xEE => (Mnemonic::Inc, AddrMod::Absolute),
        0xF0 => (Mnemonic::Beq, AddrMod::Relative),
        0xF1 => (Mnemonic::Sbc, AddrMod::IndirectY),
        0xF5 => (Mnemonic::Sbc, AddrMod::ZeroPageX),
        0xF6 => (Mnemonic::Inc, AddrMod::ZeroPageX),
        0xF8 => (Mnemonic::Sed, AddrMod::Implied),
        0xF9 => (Mnemonic::Sbc, AddrMod::AbsoluteY),
        0xFD => (Mnemonic::Sbc, AddrMod::AbsoluteX),
        0xFE => (Mnemonic::Inc, AddrMod::AbsoluteX),
        _ => (Mnemonic::Ukn, AddrMod::Unknown),
    }
}

fn size_at(rom: &Vec<u8>, pos: usize) -> (r: usize)
    requires
        pos < rom@.len(),
    ensures
        r == len_at(rom@, pos as int),
{
    let (_, mode) = lookup(rom[pos]);
    if mode.bytes() == 0 {
        1
    } else {
        mode.bytes()
    }
}

/// Whether the instruction whose opcode is at `pos` lies wholly inside `rom`.
pub fn instruction_fits(rom: &Vec<u8>, pos: usize) -> (r: bool)
    ensures
        r == fits_at(rom@, pos as int),
{
    if pos >= rom.len() {
        return false;
    }
    size_at(rom, pos) <= rom.len() - pos
}

/// Whether every instruction met when decoding `rom` from its start lies
/// wholly inside it, so that the whole program can be disassembled.
pub fn program_fits(rom: &Vec<u8>) -> (r: bool)
    ensures
        r == fits_from(rom@, 0),
{
    let mut pos: usize = 0;
    while pos < rom.len()
        invariant
            pos <= rom@.len(),
            fits_from(rom@, 0) == fits_from(rom@, pos as int),
        decreases rom@.len() - pos,
    {
        if !instruction_fits(rom, pos) {
            return false;
        }
        pos = pos + size_at(rom, pos);
    }
    true
}

/// Decodes the instruction at `pos`, returning it with the position just after it.
fn decode_at(rom: &Vec<u8>, pos: usize) -> (r: (Instruction, usize))
    requires
        fits_at(rom@, pos as int),
    ensures
        r.0.wf(),
        (r.0.opcode, r.0.addr_mod) == opcode_table(rom@[pos as int]),
        r.0.operands@ == operands_at(rom@, pos as int),
        r.1 == pos + len_at(rom@, pos as int),
{
    let n = rom.len();
    let (m, mode) = lookup(rom[pos]);
    proof {
        lemma_table_modes(rom@[pos as int]);
    }
    let count = if mode.bytes() == 0 {
        0
    } else {
        mode.bytes() - 1
    };
    let mut operands: Vec<u8> = Vec::new();
    let mut k: usize = 0;
    while k < count
        invariant
            count == mode.operand_count(),
            pos + 1 + count <= rom@.len(),
            n == rom@.len(),
            k <= count,
            operands@ == rom@.subrange(pos + 1, pos + 1 + k),
        decreases count - k,
    {
        operands.push(rom[pos + 1 + k]);
        k = k + 1;
        proof {
            assert(operands@ =~= rom@.subrange(pos + 1, pos + 1 + k));
        }
    }
    let size = if count == 0 {
        1
    } else {
        count + 1
    };
    (Instruction::of_parts(m, operands, mode), pos + size)
}

/// Decodes the instruction whose opcode is at `pc` and returns it with the
/// address of the next instruction (wrapping at the end of the 64 KiB space).
/// An unknown opcode takes one byte.
pub fn next_instruction(rom: &Vec<u8>, pc: u16) -> (r: (Instruction, u16))
    requires
        fits_at(rom@, pc as int),
    ensures
        r.0.wf(),
        (r.0.opcode, r.0.addr_mod) == opcode_table(rom@[pc as int]),
        r.0.operands@ == operands_at(rom@, pc as int),
        is_legal(rom@[pc as int]) ==> r.0.addr_mod.len_spec() == 1 + r.0.operands@.len(),
        r.1 == (pc + len_at(rom@, pc as int)) % 0x10000,
{
    let (instruction, next) = decode_at(rom, pc as usize);
    proof {
        lemma_table_modes(rom@[pc as int]);
    }
    (instruction, (next % 0x10000) as u16)
}

/// The lowercase hexadecimal digit of `n` (below 16).
pub open spec fn hex_digit(n: u8) -> char {
    match n {
        0 => '0',
        1 => '1',
        2 => '2',
        3 => '3',
        4 => '4',
        5 => '5',
        6 => '6',
        7 => '7',
        8 => '8',
        9 => '9',
        10 => 'a',
        11 => 'b',
        12 => 'c',
        13 => 'd',
        14 => 'e',
        _ => 'f',
    }
}

/// Two lowercase hexadecimal digits of a byte.
pub open spec fn hex_byte(b: u8) -> Seq<char> {
    seq![hex_digit(b / 16), hex_digit(b % 16)]
}

/// Modes whose two operand bytes are rendered as one address, high byte first.
pub open spec fn is_absolute(mode: AddrMod) -> bool {
    mode == AddrMod::Absolute || mode == AddrMod::AbsoluteX || mode == AddrMod::AbsoluteY
}

/// Each operand byte rendered as ` ` + indicator + `$` + two digits.
pub open spec fn each_operand(ind: Seq<char>, ops: Seq<u8>) -> Seq<char>
    decreases ops.len(),
{
    if ops.len() == 0 {
        Seq::empty()
    } else {
        each_operand(ind, ops.drop_last()) + seq![' '] + ind + seq!['$'] + hex_byte(ops.last())
    }
}

/// The text of one instruction: mnemonic, then its operands.
pub open spec fn render(m: Mnemonic, mode: AddrMod, ops: Seq<u8>) -> Seq<char> {
    if is_absolute(mode) {
        m.text() + seq![' '] + mode.indicator_spec() + seq!['$'] + hex_byte(ops[1]) + hex_byte(ops[0])
    } else {
        m.text() + each_operand(mode.indicator_spec(), ops)
    }
}

/// The decimal digits of `n`.
pub open spec fn decimal(n: nat) -> Seq<char>
    decreases n,
{
    if n < 10 {
        seq![hex_digit(n as u8)]
    } else {
        decimal(n / 10) + seq![hex_digit((n % 10) as u8)]
    }
}

/// A line number right-aligned in three columns, then `: `.
pub open spec fn line_label(n: nat) -> Seq<char> {
    let d = decimal(n);
    Seq::new((if d.len() < 3 {
        3 - d.len()
    } else {
        0
    }) as nat, |i: int| ' ') + d + seq![':', ' ']
}

/// The listing of the instructions from `pos` on, one per line, numbered
/// from `line + 1` when `numbered`.
pub open spec fn listing(rom: Seq<u8>, pos: int, line: nat, numbered: bool) -> Seq<char>
    decreases rom.len() - pos,
{
    if pos < 0 || !fits_at(rom, pos) {
        Seq::empty()
    } else {
        let (m, mode) = opcode_table(rom[pos]);
        let label = if numbered {
            line_label(line + 1)
        } else {
            Seq::empty()
        };
        label + render(m, mode, operands_at(rom, pos)) + seq!['\n'] + listing(
            rom,
            pos + len_at(rom, pos),
            line + 1,
            numbered,
        )
    }
}

fn hex_str(n: u8) -> (r: &'static str)
    requires
        n < 16,
    ensures
        r@ == seq![hex_digit(n)],
{
    proof {
        reveal_strlit("0");
        reveal_strlit("1");
        reveal_strlit("2");
        reveal_strlit("3");
        reveal_strlit("4");
        reveal_strlit("5");
        reveal_strlit("6");
        reveal_strlit("7");
        reveal_strlit("8");
        reveal_strlit("9");
        reveal_strlit("a");
        reveal_strlit("b");
        reveal_strlit("c");
        reveal_strlit("d");
        reveal_strlit("e");
        reveal_strlit("f");
    }
    match n {
        0 => "0",
        1 => "1",
        2 => "2",
        3 => "3",
        4 => "4",
        5 => "5",
        6 => "6",
        7 => "7",
        8 => "8",
        9 => "9",
        10 => "a",
        11 => "b",
        12 => "c",
        13 => "d",
        14 => "e",
        _ => "f",
    }
}

fn push_hex(s: &mut String, b: u8)
    ensures
        final(s)@ == old(s)@ + hex_byte(b),
{
    s.append(hex_str(b / 16));
    s.append(hex_str(b % 16));
}

fn push_decimal(s: &mut String, n: usize)
    ensures
        final(s)@ == old(s)@ + decimal(n as nat),
    decreases n,
{
    if n >= 10 {
        push_decimal(s, n / 10);
        s.append(hex_str((n % 10) as u8));
        proof {
            assert(final(s)@ =~= old(s)@ + decimal(n as nat));
        }
    } else {
        s.append(hex_str(n as u8));
    }
}

fn decimal_len(n: usize) -> (r: usize)
    ensures
        r == decimal(n as nat).len(),
        r <= n as nat + 1,
    decreases n,
{
    if n >= 10 {
        decimal_len(n / 10) + 1
    } else {
        1
    }
}

fn push_label(s: &mut String, n: usize)
    ensures
        final(s)@ == old(s)@ + line_label(n as nat),
{
    let width = decimal_len(n);
    let pad: usize = if width < 3 {
        3 - width
    } else {
        0
    };
    let ghost start = s@;
    let mut k: usize = 0;
    proof {
        reveal_strlit(" ");
        reveal_strlit(": ");
    }
    while k < pad
        invariant
            k <= pad,
            s@ == start + Seq::new(k as nat, |i: int| ' '),
        decreases pad - k,
    {
        proof {
            reveal_strlit(" ");
        }
        s.append(" ");
        k = k + 1;
        assert(s@ =~= start + Seq::new(k as nat, |i: int| ' '));
    }
    push_decimal(s, n);
    s.append(": ");
    assert(s@ =~= start + line_label(n as nat));
}

/// Renders one instruction: its mnemonic, then each operand as `$` and two
/// lowercase hex digits (after the mode's indicator), an absolute address
/// as one operand with its high byte first.
pub fn fmt_dasm(instruction: Instruction) -> (r: String)
    requires
        is_absolute(instruction.addr_mod) ==> instruction.operands@.len() >= 2,
    ensures
        r@ == render(instruction.opcode, instruction.addr_mod, instruction.operands@),
{
    let operands = instruction.operands;
    let mut code = instruction.opcode.name();
    let addr_mod = instruction.addr_mod;
    let indicator = addr_mod.indicator();
    proof {
        reveal_strlit(" ");
        reveal_strlit("$");
    }
    if addr_mod == AddrMod::Absolute || addr_mod == AddrMod::AbsoluteX || addr_mod
        == AddrMod::AbsoluteY {
        code.append(" ");
        code.append(indicator.as_str());
        code.append("$");
        push_hex(&mut code, operands[1]);
        push_hex(&mut code, operands[0]);
    } else {
        let ghost start = code@;
        let mut k: usize = 0;
        while k < operands.len()
            invariant
                k <= operands@.len(),
                indicator@ == addr_mod.indicator_spec(),
                code@ == start + each_operand(indicator@, operands@.subrange(0, k as int)),
            decreases operands@.len() - k,
        {
            proof {
                reveal_strlit(" ");
                reveal_strlit("$");
            }
            code.append(" ");
            code.append(indicator.as_str());
            code.append("$");
            push_hex(&mut code, operands[k]);
            proof {
                let done = operands@.subrange(0, k + 1);
                assert(done.drop_last() =~= operands@.subrange(0, k as int));
                assert(code@ =~= start + each_operand(indicator@, done));
            }
            k = k + 1;
        }
        assert(operands@.subrange(0, operands@.len() as int) =~= operands@);
    }
    code
}

proof fn lemma_listing_step(rom: Seq<u8>, pos: int, line: nat, numbered: bool)
    requires
        fits_at(rom, pos),
    ensures
        listing(rom, pos, line, numbered) == (if numbered {
            line_label(line + 1)
        } else {
            Seq::empty()
        }) + render(opcode_table(rom[pos]).0, opcode_table(rom[pos]).1, operands_at(rom, pos))
            + seq!['\n'] + listing(rom, pos + len_at(rom, pos), line + 1, numbered),
{
}

/// Renders the whole program, one instruction per line, each line numbered
/// from 1 when `show_line_number` is set.
pub fn disassemble(rom: &Vec<u8>, show_line_number: bool) -> (r: String)
    requires
        fits_from(rom@, 0),
    ensures
        r@ == listing(rom@, 0, 0, show_line_number),
{
    let mut pos: usize = 0;
    let mut dis_asm = String::new();
    let mut counter: usize = 0;
    proof {
        reveal_strlit("\n");
    }
    while pos < rom.len()
        invariant
            fits_from(rom@, pos as int),
            counter <= pos <= rom@.len(),
            listing(rom@, 0, 0, show_line_number) == dis_asm@ + listing(
                rom@,
                pos as int,
                counter as nat,
                show_line_number,
            ),
        decreases rom@.len() - pos,
    {
        let (instruction, next) = decode_at(rom, pos);
        let ghost before = dis_asm@;
        let ghost label = if show_line_number {
            line_label((counter + 1) as nat)
        } else {
            Seq::empty()
        };
        let ghost rest = listing(rom@, next as int, (counter + 1) as nat, show_line_number);
        proof {
            lemma_listing_step(rom@, pos as int, counter as nat, show_line_number);
        }
        if show_line_number {
            push_label(&mut dis_asm, counter + 1);
        }
        counter = counter + 1;
        let text = fmt_dasm(instruction);
        dis_asm.append(text.as_str());
        proof {
            reveal_strlit("\n");
        }
        dis_asm.append("\n");
        proof {
            assert(dis_asm@ =~= before + (label + text@ + seq!['\n']));
            assert(dis_asm@ + rest =~= before + (label + text@ + seq!['\n'] + rest));
        }
        pos = next;
    }
    dis_asm
}

} // verus!
