use emu6502::addrmod::AddrMod;
use emu6502::cpu::CPU;
use emu6502::semantics::StepResult;

fn run_steps(cpu: &mut CPU, n: usize) {
    for _ in 0..n {
        assert_eq!(cpu.step(), StepResult::Executed);
    }
}

#[test]
fn zero_page_indexed_wraps_within_page_zero() {
    // LDX #$02; LDA #$07; STA $FF,X
    let rom = vec![0xA2, 0x02, 0xA9, 0x07, 0x95, 0xFF];
    let mut cpu = CPU::new(&rom);
    run_steps(&mut cpu, 2);
    assert_eq!(cpu.effective_address(AddrMod::ZeroPageX, &vec![0xFF]), 0x0001);
    run_steps(&mut cpu, 1);
    assert_eq!(cpu.read(0x0001), 0x07);
    assert_eq!(cpu.read(0x0101), 0x00);
}

#[test]
fn adc_wraps_and_sets_carry_and_zero() {
    // LDA #$FF; ADC #$01 with Carry clear
    let rom = vec![0xA9, 0xFF, 0x69, 0x01];
    let mut cpu = CPU::new(&rom);
    run_steps(&mut cpu, 2);
    let f = cpu.flags();
    assert_eq!(cpu.accumulator(), 0x00);
    assert!(f.c);
    assert!(f.z);
    assert!(!f.n);
    assert!(!f.v);
}

#[test]
fn adc_signed_overflow() {
    // LDA #$50; ADC #$50
    let rom = vec![0xA9, 0x50, 0x69, 0x50];
    let mut cpu = CPU::new(&rom);
    run_steps(&mut cpu, 2);
    let f = cpu.flags();
    assert_eq!(cpu.accumulator(), 0xA0);
    assert!(f.v);
    assert!(f.n);
    assert!(!f.c);
    assert!(!f.z);
}

#[test]
fn sbc_with_and_without_borrow() {
    // SEC; LDA #$05; SBC #$03
    let rom = vec![0x38, 0xA9, 0x05, 0xE9, 0x03];
    let mut cpu = CPU::new(&rom);
    run_steps(&mut cpu, 3);
    assert_eq!(cpu.accumulator(), 0x02);
    assert!(cpu.flags().c);
    // SEC; LDA #$00; SBC #$01
    let rom = vec![0x38, 0xA9, 0x00, 0xE9, 0x01];
    let mut cpu = CPU::new(&rom);
    run_steps(&mut cpu, 3);
    assert_eq!(cpu.accumulator(), 0xFF);
    assert!(!cpu.flags().c);
    assert!(cpu.flags().n);
}

#[test]
fn decimal_mode_add_and_subtract() {
    // SED; CLC; LDA #$19; ADC #$28
    let rom = vec![0xF8, 0x18, 0xA9, 0x19, 0x69, 0x28];
    let mut cpu = CPU::new(&rom);
    run_steps(&mut cpu, 4);
    assert_eq!(cpu.accumulator(), 0x47);
    assert!(!cpu.flags().c);
    // SED; CLC; LDA #$58; ADC #$46 gives 04 with decimal carry
    let rom = vec![0xF8, 0x18, 0xA9, 0x58, 0x69, 0x46];
    let mut cpu = CPU::new(&rom);
    run_steps(&mut cpu, 4);
    assert_eq!(cpu.accumulator(), 0x04);
    assert!(cpu.flags().c);
    // SED; SEC; LDA #$42; SBC #$13
    let rom = vec![0xF8, 0x38, 0xA9, 0x42, 0xE9, 0x13];
    let mut cpu = CPU::new(&rom);
    run_steps(&mut cpu, 4);
    assert_eq!(cpu.accumulator(), 0x29);
    assert!(cpu.flags().c);
}

#[test]
fn store_then_load_round_trip() {
    // LDA #$42; STA $0200; LDA #$00; LDA $0200
    let rom = vec![0xA9, 0x42, 0x8D, 0x00, 0x02, 0xA9, 0x00, 0xAD, 0x00, 0x02];
    let mut cpu = CPU::new(&rom);
    run_steps(&mut cpu, 4);
    assert_eq!(cpu.read(0x0200), 0x42);
    assert_eq!(cpu.accumulator(), 0x42);
    assert!(!cpu.flags().z);
    assert!(!cpu.flags().n);
}

#[test]
fn beq_taken_adds_offset_to_next_address() {
    // LDA #$00 sets Zero; BEQ +5
    let rom = vec![0xA9, 0x00, 0xF0, 0x05];
    let mut cpu = CPU::new(&rom);
    run_steps(&mut cpu, 1);
    assert!(cpu.flags().z);
    let before = cpu.pc();
    run_steps(&mut cpu, 1);
    assert_eq!(cpu.pc(), before + 2 + 5);
    assert_eq!(cpu.cycles(), 2 + 3);
}

#[test]
fn branch_not_taken_falls_through() {
    // LDA #$01 clears Zero; BEQ +5
    let rom = vec![0xA9, 0x01, 0xF0, 0x05];
    let mut cpu = CPU::new(&rom);
    run_steps(&mut cpu, 2);
    assert_eq!(cpu.pc(), 4);
    assert_eq!(cpu.cycles(), 4);
}

#[test]
fn backward_branch_and_page_crossing_cost() {
    let mut rom = vec![0xEA; 0x200];
    rom[0xFD] = 0xD0; // BNE +5: from $00FF to $0104
    rom[0xFE] = 0x05;
    rom[0x110] = 0xD0; // BNE -4: from $0112 to $010E
    rom[0x111] = 0xFC;
    let mut cpu = CPU::new(&rom);
    cpu.update_pc(0xFD);
    run_steps(&mut cpu, 1);
    assert_eq!(cpu.pc(), 0x104);
    assert_eq!(cpu.cycles(), 4);
    cpu.update_pc(0x110);
    run_steps(&mut cpu, 1);
    assert_eq!(cpu.pc(), 0x10E);
    assert_eq!(cpu.cycles(), 7);
}

#[test]
fn indexed_read_crossing_a_page_costs_a_cycle() {
    // LDX #$01; LDA $00FF,X
    let rom = vec![0xA2, 0x01, 0xBD, 0xFF, 0x00];
    let mut cpu = CPU::new(&rom);
    run_steps(&mut cpu, 2);
    assert_eq!(cpu.cycles(), 2 + 5);
}

#[test]
fn two_instructions_run_to_halt() {
    // LDA #$01; TAX
    let rom = vec![0xA9, 0x01, 0xAA];
    let mut cpu = CPU::new(&rom);
    let executed = cpu.run(100);
    assert_eq!(executed, 2);
    assert_eq!(cpu.cycles(), 2 + 2);
    assert_eq!(cpu.pc() as usize, rom.len());
    assert!(cpu.is_halted());
    assert_eq!(cpu.x(), 0x01);
}

#[test]
fn run_stops_at_its_bound() {
    // JMP $0000 loops for ever
    let rom = vec![0x4C, 0x00, 0x00];
    let mut cpu = CPU::new(&rom);
    assert_eq!(cpu.run(10), 10);
    assert!(!cpu.is_halted());
    assert_eq!(cpu.cycles(), 30);
    assert_eq!(cpu.pc(), 0);
}

#[test]
fn step_reports_out_of_bounds_and_truncation() {
    let mut cpu = CPU::new(&vec![]);
    assert_eq!(cpu.step(), StepResult::OutOfBounds);
    assert_eq!(cpu.step(), StepResult::OutOfBounds);
    // LDA $00?? lacks its high byte
    let mut cpu = CPU::new(&vec![0xAD, 0x00]);
    assert!(cpu.is_halted());
    assert_eq!(cpu.step(), StepResult::Truncated);
    assert_eq!(cpu.pc(), 0);
    assert_eq!(cpu.cycles(), 0);
}

#[test]
fn unknown_opcode_is_a_one_byte_no_op() {
    let rom = vec![0xFF, 0xEA];
    let mut cpu = CPU::new(&rom);
    run_steps(&mut cpu, 1);
    assert_eq!(cpu.pc(), 1);
    assert_eq!(cpu.cycles(), 0);
    assert_eq!(cpu.accumulator(), 0);
}

#[test]
fn jmp_indirect_wraps_within_the_page() {
    // LDA #$34; STA $10FF; LDA #$12; STA $1000; JMP ($10FF)
    let rom = vec![0xA9, 0x34, 0x8D, 0xFF, 0x10, 0xA9, 0x12, 0x8D, 0x00, 0x10, 0x6C, 0xFF, 0x10];
    let mut cpu = CPU::new(&rom);
    run_steps(&mut cpu, 5);
    assert_eq!(cpu.pc(), 0x1234);
    assert_eq!(cpu.cycles(), 2 + 4 + 2 + 4 + 5);
}

#[test]
fn indirect_indexed_modes() {
    // LDA #$00; STA $20; LDA #$03; STA $21  (pointer $0300 at $20)
    // LDA #$AB; LDY #$05; STA ($20),Y       (writes $0305)
    // LDX #$04; LDA #$00; LDA ($1C,X)       (pointer at $20 again)
    let rom = vec![
        0xA9, 0x00, 0x85, 0x20, 0xA9, 0x03, 0x85, 0x21, 0xA9, 0xAB, 0xA0, 0x05, 0x91, 0x20, 0xA2,
        0x04, 0xA9, 0x00, 0xA1, 0x1C,
    ];
    let mut cpu = CPU::new(&rom);
    run_steps(&mut cpu, 7);
    assert_eq!(cpu.read(0x0305), 0xAB);
    run_steps(&mut cpu, 3);
    assert_eq!(cpu.read(0x0300), 0x00);
    assert_eq!(cpu.accumulator(), 0x00);
    assert!(cpu.flags().z);
}

#[test]
fn jsr_and_rts() {
    // JSR $0004; NOP; RTS
    let rom = vec![0x20, 0x04, 0x00, 0xEA, 0x60];
    let mut cpu = CPU::new(&rom);
    run_steps(&mut cpu, 1);
    assert_eq!(cpu.pc(), 0x0004);
    assert_eq!(cpu.sp(), 0xFE);
    assert_eq!(cpu.read(0x0100), 0x00);
    assert_eq!(cpu.read(0x01FF), 0x02);
    run_steps(&mut cpu, 1);
    assert_eq!(cpu.pc(), 0x0003);
    assert_eq!(cpu.sp(), 0x00);
    assert_eq!(cpu.cycles(), 12);
}

#[test]
fn push_and_pull() {
    // LDA #$80; PHA; LDA #$00; PLA
    let rom = vec![0xA9, 0x80, 0x48, 0xA9, 0x00, 0x68];
    let mut cpu = CPU::new(&rom);
    run_steps(&mut cpu, 4);
    assert_eq!(cpu.accumulator(), 0x80);
    assert!(cpu.flags().n);
    assert!(!cpu.flags().z);
    assert_eq!(cpu.sp(), 0);
    assert_eq!(cpu.cycles(), 2 + 3 + 2 + 4);
    // SEC; PHP; CLC; PLP
    let rom = vec![0x38, 0x08, 0x18, 0x28];
    let mut cpu = CPU::new(&rom);
    run_steps(&mut cpu, 2);
    assert_eq!(cpu.read(0x0100), 0x31);
    run_steps(&mut cpu, 2);
    assert!(cpu.flags().c);
    assert!(cpu.flags().b);
}

#[test]
fn transfers_and_stack_pointer() {
    // LDX #$80; TXS; LDX #$00; TSX; TXA; TAY; TYA
    let rom = vec![0xA2, 0x80, 0x9A, 0xA2, 0x00, 0xBA, 0x8A, 0xA8, 0x98];
    let mut cpu = CPU::new(&rom);
    run_steps(&mut cpu, 4);
    assert_eq!(cpu.sp(), 0x80);
    assert_eq!(cpu.x(), 0x80);
    assert!(cpu.flags().n);
    run_steps(&mut cpu, 3);
    assert_eq!(cpu.accumulator(), 0x80);
    assert_eq!(cpu.y(), 0x80);
}

#[test]
fn brk_pushes_state_and_jumps_through_vector() {
    let rom = vec![0x00];
    let mut cpu = CPU::new(&rom);
    run_steps(&mut cpu, 1);
    assert_eq!(cpu.read(0x0100), 0x00);
    assert_eq!(cpu.read(0x01FF), 0x02);
    assert_eq!(cpu.read(0x01FE), 0x30);
    assert_eq!(cpu.sp(), 0xFD);
    assert!(cpu.flags().b);
    assert!(cpu.flags().i);
    assert_eq!(cpu.pc(), 0x0000);
    assert_eq!(cpu.cycles(), 7);
}

#[test]
fn rti_restores_status_and_address() {
    // PHA of $12 (high) and $34 (low) and status $C3, then RTI
    let rom = vec![0xA9, 0x12, 0x48, 0xA9, 0x34, 0x48, 0xA9, 0xC3, 0x48, 0x40];
    let mut cpu = CPU::new(&rom);
    run_steps(&mut cpu, 7);
    assert_eq!(cpu.pc(), 0x1234);
    let f = cpu.flags();
    assert!(f.n && f.v && f.z && f.c);
    assert!(!f.b && !f.d && !f.i);
    assert_eq!(cpu.sp(), 0);
}

#[test]
fn increments_decrements_wrap() {
    // LDX #$FF; INX; DEY; INC $10; DEC $11
    let rom = vec![0xA2, 0xFF, 0xE8, 0x88, 0xE6, 0x10, 0xC6, 0x11];
    let mut cpu = CPU::new(&rom);
    run_steps(&mut cpu, 2);
    assert_eq!(cpu.x(), 0);
    assert!(cpu.flags().z);
    run_steps(&mut cpu, 1);
    assert_eq!(cpu.y(), 0xFF);
    assert!(cpu.flags().n);
    run_steps(&mut cpu, 2);
    assert_eq!(cpu.read(0x10), 0x01);
    assert_eq!(cpu.read(0x11), 0xFF);
    assert!(!cpu.flags().c);
}

#[test]
fn shifts_and_rotates() {
    // LDA #$81; ASL A
    let rom = vec![0xA9, 0x81, 0x0A];
    let mut cpu = CPU::new(&rom);
    run_steps(&mut cpu, 2);
    assert_eq!(cpu.accumulator(), 0x02);
    assert!(cpu.flags().c);
    // SEC; LDA #$02; ROR A
    let rom = vec![0x38, 0xA9, 0x02, 0x6A];
    let mut cpu = CPU::new(&rom);
    run_steps(&mut cpu, 3);
    assert_eq!(cpu.accumulator(), 0x81);
    assert!(!cpu.flags().c);
    assert!(cpu.flags().n);
    // LDA #$03; STA $40; LSR $40; ROL $40
    let rom = vec![0xA9, 0x03, 0x85, 0x40, 0x46, 0x40, 0x26, 0x40];
    let mut cpu = CPU::new(&rom);
    run_steps(&mut cpu, 3);
    assert_eq!(cpu.read(0x40), 0x01);
    assert!(cpu.flags().c);
    run_steps(&mut cpu, 1);
    assert_eq!(cpu.read(0x40), 0x03);
    assert!(!cpu.flags().c);
    assert_eq!(cpu.cycles(), 2 + 3 + 5 + 5);
}

#[test]
fn compare_and_bit_test() {
    // LDA #$10; CMP #$20
    let rom = vec![0xA9, 0x10, 0xC9, 0x20];
    let mut cpu = CPU::new(&rom);
    run_steps(&mut cpu, 2);
    let f = cpu.flags();
    assert!(!f.c && !f.z && f.n);
    // LDA #$C0; STA $10; LDA #$01; BIT $10
    let rom = vec![0xA9, 0xC0, 0x85, 0x10, 0xA9, 0x01, 0x24, 0x10];
    let mut cpu = CPU::new(&rom);
    run_steps(&mut cpu, 4);
    let f = cpu.flags();
    assert!(f.z && f.v && f.n);
    assert_eq!(cpu.accumulator(), 0x01);
    // LDX #$05; CPX #$05; LDY #$01; CPY #$00
    let rom = vec![0xA2, 0x05, 0xE0, 0x05, 0xA0, 0x01, 0xC0, 0x00];
    let mut cpu = CPU::new(&rom);
    run_steps(&mut cpu, 2);
    assert!(cpu.flags().z && cpu.flags().c);
    run_steps(&mut cpu, 2);
    assert!(!cpu.flags().z && cpu.flags().c);
}

#[test]
fn logical_operations() {
    // LDA #$F0; AND #$3C; ORA #$01; EOR #$FF
    let rom = vec![0xA9, 0xF0, 0x29, 0x3C, 0x09, 0x01, 0x49, 0xFF];
    let mut cpu = CPU::new(&rom);
    run_steps(&mut cpu, 2);
    assert_eq!(cpu.accumulator(), 0x30);
    run_steps(&mut cpu, 1);
    assert_eq!(cpu.accumulator(), 0x31);
    run_steps(&mut cpu, 1);
    assert_eq!(cpu.accumulator(), 0xCE);
    assert!(cpu.flags().n);
}

#[test]
fn flag_instructions() {
    // SEC; SED; SEI; CLC; CLD; CLI
    let rom = vec![0x38, 0xF8, 0x78, 0x18, 0xD8, 0x58];
    let mut cpu = CPU::new(&rom);
    run_steps(&mut cpu, 3);
    let f = cpu.flags();
    assert!(f.c && f.d && f.i);
    run_steps(&mut cpu, 3);
    let f = cpu.flags();
    assert!(!f.c && !f.d && !f.i);
    // LDA #$50; ADC #$50; CLV
    let rom = vec![0xA9, 0x50, 0x69, 0x50, 0xB8];
    let mut cpu = CPU::new(&rom);
    run_steps(&mut cpu, 3);
    assert!(!cpu.flags().v);
}

#[test]
fn unaffected_flags_survive_an_instruction() {
    // SEC; SED; LDA #$00: LDA affects only N and Z
    let rom = vec![0x38, 0xF8, 0xA9, 0x00];
    let mut cpu = CPU::new(&rom);
    run_steps(&mut cpu, 3);
    let f = cpu.flags();
    assert!(f.c && f.d && f.z);
}

#[test]
fn stepping_is_deterministic() {
    let rom = vec![0xA9, 0x05, 0xAA, 0xE8, 0x8A];
    let mut one = CPU::new(&rom);
    let mut two = CPU::new(&rom);
    for _ in 0..4 {
        assert_eq!(one.step(), two.step());
        assert_eq!(one.accumulator(), two.accumulator());
        assert_eq!(one.x(), two.x());
        assert_eq!(one.pc(), two.pc());
        assert_eq!(one.cycles(), two.cycles());
        assert_eq!(one.flags(), two.flags());
    }
    assert_eq!(one.accumulator(), 0x06);
}

#[test]
fn reset_twice_equals_reset_once() {
    let rom = vec![0xA9, 0x05, 0x85, 0x10, 0x38];
    let mut cpu = CPU::new(&rom);
    cpu.run(10);
    cpu.reset();
    let once = (cpu.accumulator(), cpu.x(), cpu.y(), cpu.pc(), cpu.sp(), cpu.flags(), cpu.cycles());
    assert_eq!(cpu.read(0x10), 0);
    cpu.reset();
    let twice = (cpu.accumulator(), cpu.x(), cpu.y(), cpu.pc(), cpu.sp(), cpu.flags(), cpu.cycles());
    assert_eq!(once, twice);
    assert_eq!(once.6, 0);
    assert_eq!(cpu.rom(), &rom);
    assert_eq!(cpu.run(10), 3);
}

#[test]
fn mem_read_and_write_by_mode() {
    let mut cpu = CPU::new(&vec![]);
    cpu.mem_write(AddrMod::Absolute, &vec![0x34, 0x12], 0x99);
    assert_eq!(cpu.read(0x1234), 0x99);
    assert_eq!(cpu.mem_read(AddrMod::Absolute, &vec![0x34, 0x12]), Some(0x99));
    assert_eq!(cpu.mem_read(AddrMod::Immediate, &vec![0x07]), Some(0x07));
    assert_eq!(cpu.mem_read(AddrMod::Implied, &vec![]), None);
    cpu.mem_write(AddrMod::Implied, &vec![], 0x55);
    assert_eq!(cpu.memory().read(0x0000), 0x00);
    assert_eq!(cpu.mem_read(AddrMod::ZeroPage, &vec![0x80]), Some(0x00));
}

#[test]
fn wrapping_helpers() {
    let cpu = CPU::new(&vec![]);
    assert_eq!(cpu.add(0xFF, 0x02), 0x01);
    assert_eq!(cpu.sub(0x00, 0x01), 0xFF);
    assert_eq!(cpu.mul(0x10, 0x11), 0x10);
    assert_eq!(cpu.div(0x10, 0x03), 0x05);
}

#[test]
fn unwrap_operands_splits_bytes() {
    assert_eq!(CPU::unwrap_operands(&vec![0x01]), Some((0x01, None)));
    assert_eq!(CPU::unwrap_operands(&vec![0x01, 0x02]), Some((0x01, Some(0x02))));
    assert_eq!(CPU::unwrap_operands(&vec![]), None);
    assert_eq!(CPU::unwrap_operands(&vec![1, 2, 3]), None);
}
