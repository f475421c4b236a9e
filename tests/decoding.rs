use emu6502::addrmod::AddrMod;
use emu6502::assembler::{disassemble, fmt_dasm, next_instruction, program_fits, instruction_fits};
use emu6502::flags::Flags;
use emu6502::instructions::{Instruction, Mnemonic};
use emu6502::memory::Memory;
use emu6502::opcat::OpCat;
use emu6502::shell::inp;

#[test]
fn decode_legal_opcodes() {
    let rom = vec![0x79, 0x34, 0x12];
    let (ins, next) = next_instruction(&rom, 0);
    assert_eq!(ins.opcode, Mnemonic::Adc);
    assert_eq!(ins.addr_mod, AddrMod::AbsoluteY);
    assert_eq!(ins.operands, vec![0x34, 0x12]);
    assert_eq!(next, 3);
    assert_eq!(ins.addr_mod.bytes(), 1 + ins.operands.len());
    assert_eq!(ins.op_cat, OpCat::Arithmetic);
    assert_eq!(ins.desc, "Add with Carry");
    assert_eq!(ins.cycles(), 4);

    let rom = vec![0xEA, 0x4A];
    let (ins, next) = next_instruction(&rom, 1);
    assert_eq!(ins.opcode, Mnemonic::Lsr);
    assert_eq!(ins.addr_mod, AddrMod::Accumulator);
    assert!(ins.operands.is_empty());
    assert_eq!(next, 2);

    let rom = vec![0xB6, 0x10];
    let (ins, _) = next_instruction(&rom, 0);
    assert_eq!(ins.opcode, Mnemonic::Ldx);
    assert_eq!(ins.addr_mod, AddrMod::ZeroPageY);
    assert_eq!(ins.aflags, Flags { c: false, z: true, i: false, d: false, b: false, v: false, n: true });
}

#[test]
fn decode_every_byte() {
    let mut legal = 0;
    for b in 0..=255u8 {
        let rom = vec![b, 0, 0];
        let (ins, next) = next_instruction(&rom, 0);
        if ins.opcode == Mnemonic::Ukn {
            assert_eq!(ins.addr_mod, AddrMod::Unknown);
            assert_eq!(next, 1);
        } else {
            legal += 1;
            assert_eq!(next as usize, ins.addr_mod.bytes());
            assert_eq!(ins.operands.len() + 1, ins.addr_mod.bytes());
        }
    }
    assert_eq!(legal, 151);
}

#[test]
fn unknown_opcode_renders_ukn() {
    let rom = vec![0xFF];
    let (ins, next) = next_instruction(&rom, 0);
    assert_eq!(ins.opcode, Mnemonic::Ukn);
    assert_eq!(ins.op_cat, OpCat::Unimpl);
    assert_eq!(ins.aflags, Flags::new());
    assert_eq!(next, 1);
    assert_eq!(fmt_dasm(ins), "UKN");
    assert_eq!(disassemble(&rom, false), "UKN\n");
}

#[test]
fn disassemble_with_line_numbers() {
    let rom = vec![105, 255, 105, 10, 0x85, 10];
    assert_eq!(disassemble(&rom, true), "  1: ADC #$ff\n  2: ADC #$0a\n  3: STA $0a\n");
    assert_eq!(disassemble(&rom, false), "ADC #$ff\nADC #$0a\nSTA $0a\n");
}

#[test]
fn disassemble_wide_line_numbers() {
    let rom = vec![0xEA; 1000];
    let text = disassemble(&rom, true);
    assert!(text.starts_with("  1: NOP\n"));
    assert!(text.contains(" 99: NOP\n100: NOP\n"));
    assert!(text.ends_with("1000: NOP\n"));
}

#[test]
fn format_absolute_and_indirect_operands() {
    assert_eq!(fmt_dasm(Instruction::sta(vec![0x00, 0x02], AddrMod::Absolute)), "STA $0200");
    assert_eq!(fmt_dasm(Instruction::lda(vec![0x34, 0x12], AddrMod::AbsoluteX)), "LDA $1234");
    assert_eq!(fmt_dasm(Instruction::jmp(vec![0xFF, 0x10], AddrMod::Indirect)), "JMP $ff $10");
    assert_eq!(fmt_dasm(Instruction::tax()), "TAX");
    assert_eq!(fmt_dasm(Instruction::beq(vec![0xAB])), "BEQ $ab");
}

#[test]
fn program_bounds_checks() {
    assert!(program_fits(&vec![0xEA, 0xA9, 0x01]));
    assert!(program_fits(&vec![]));
    assert!(!program_fits(&vec![0xEA, 0xAD, 0x00]));
    assert!(instruction_fits(&vec![0xEA, 0xAD, 0x00], 0));
    assert!(!instruction_fits(&vec![0xEA, 0xAD, 0x00], 1));
    assert!(!instruction_fits(&vec![0xEA], 1));
}

#[test]
fn addressing_mode_lengths_and_indicators() {
    assert_eq!(AddrMod::Unknown.bytes(), 0);
    assert_eq!(AddrMod::Implied.bytes(), 1);
    assert_eq!(AddrMod::Accumulator.bytes(), 1);
    assert_eq!(AddrMod::Immediate.bytes(), 2);
    assert_eq!(AddrMod::Relative.bytes(), 2);
    assert_eq!(AddrMod::IndirectY.bytes(), 2);
    assert_eq!(AddrMod::Indirect.bytes(), 3);
    assert_eq!(AddrMod::AbsoluteY.bytes(), 3);
    assert_eq!(AddrMod::Immediate.indicator(), "#");
    assert_eq!(AddrMod::Absolute.indicator(), "");
}

#[test]
fn categories_render() {
    assert_eq!(OpCat::LoadStore.as_str(), "Load/Store");
    assert_eq!(OpCat::IncDec.as_str(), "Inc/Dec");
    assert_eq!(OpCat::StatusCtrl.as_str(), "Status Contrl");
    assert_eq!(OpCat::Unimpl.as_str(), "Unimplemented");
    assert_eq!(Mnemonic::Jsr.name(), "JSR");
}

#[test]
fn flag_sets_and_setters() {
    let f = Flags::trigger(vec!['N', 'V', 'x', 'Z']);
    assert_eq!(f, Flags { c: false, z: true, i: false, d: false, b: false, v: true, n: true });
    assert_eq!(Flags::trigger(vec![]), Flags::new());
    let all = Flags::trigger_all();
    assert!(all.c && all.z && all.i && all.d && all.b && all.v && all.n);
    let mut g = Flags::new();
    g.trig_c_if(true);
    g.trig_d_if(true);
    g.trig_d_if(false);
    g.trig_i_if(true);
    g.trig_b_if(true);
    g.trig_v_if(true);
    g.trig_n_if(true);
    g.trig_z_if(true);
    assert_eq!(g, Flags { c: true, z: true, i: true, d: false, b: true, v: true, n: true });
    assert_eq!(g.to_byte(), 0xF7);
    assert_eq!(Flags::from_byte(0xF7), g);
    assert_eq!(Flags::new().to_byte(), 0x20);
}

#[test]
fn instruction_metadata() {
    let ins = Instruction::plp();
    assert_eq!(ins.aflags, Flags::trigger_all());
    assert_eq!(ins.op_cat, OpCat::Stack);
    assert_eq!(ins.desc, "Pull Processor Status from Stack");
    assert_eq!(ins.cycles(), 4);
    let ins = Instruction::brk();
    assert_eq!(ins.aflags, Flags::trigger(vec!['B', 'I']));
    assert_eq!(ins.cycles(), 7);
    let ins = Instruction::ukn();
    assert_eq!(ins.desc, "UNKNOWN");
    assert_eq!(ins.cycles(), 0);
    let ins = Instruction::sta(vec![0x10], AddrMod::IndirectY);
    assert_eq!(ins.cycles(), 6);
    let ins = Instruction::inc(vec![0x10, 0x20], AddrMod::AbsoluteX);
    assert_eq!(ins.cycles(), 7);
    assert_eq!(ins.aflags, Flags::trigger(vec!['N', 'Z']));
}

#[test]
fn memory_reads_zero_until_written() {
    let mut m = Memory::new();
    assert_eq!(m.read(0xFFFF), 0);
    m.write(0xFFFF, 7);
    m.write(0x0000, 9);
    m.write(0xFFFF, 8);
    assert_eq!(m.read(0xFFFF), 8);
    assert_eq!(m.read(0x0000), 9);
    assert_eq!(m.read(0x0001), 0);
}

#[test]
fn shell_words_are_trimmed() {
    let words = vec!["show", " flags\n"];
    assert_eq!(inp(&words, 0), "show");
    assert_eq!(inp(&words, 1), "flags");
    assert_eq!(inp(&words, 2), "");
}
