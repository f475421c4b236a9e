//! The mathematical model of the processor: its state as plain values and
//! what each instruction does to it. The execution engine is proved to
//! follow this model step by step.
//!
//! Choices where hardware documentation leaves room:
//! - Indirect pointer fetches wrap within their page: `JMP ($10FF)` takes its
//!   high byte from `$1000`, and zero-page pointers of the indexed indirect
//!   modes wrap within page zero, as on the NMOS 6502.
//! - An unknown opcode is a no-op that takes one byte and no cycles, so that
//!   execution always moves on.
//! - In decimal mode `ADC` and `SBC` adjust each nibble; Carry is the
//!   decimal carry for `ADC` and the binary borrow for `SBC`; Overflow comes
//!   from the binary operation; Zero and Negative from the final result.
use vstd::prelude::*;
use crate::addrmod::AddrMod;
use crate::assembler::{fits_at, instr_len, opcode_table, operands_at};
use crate::flags::Flags;
use crate::instructions::Mnemonic;
use crate::memory::byte_at;

verus! {

/// The state of the processor as plain values.
pub struct CpuView {
    pub a: u8,
    pub x: u8,
    pub y: u8,
    pub pc: u16,
    pub sp: u16,
    pub flags: Flags,
    pub mem: Map<u16, u8>,
    pub cyc: u64,
    pub rom: Seq<u8>,
}

/// What one call of `step` reports.
#[derive(Debug, Clone, Copy, PartialEq, Eq, Structural)]
pub enum StepResult {
    /// An instruction was executed.
    Executed,
    /// The program counter is at or past the end of the program: halted.
    OutOfBounds,
    /// The instruction at the program counter runs past the end of the
    /// program: halted, nothing was read.
    Truncated,
}

pub open spec fn wrap8(v: int) -> u8 {
    (v % 256) as u8
}

pub open spec fn wrap16(v: int) -> u16 {
    (v % 0x10000) as u16
}

/// The little-endian 16-bit word of two bytes.
pub open spec fn word(lo: u8, hi: u8) -> u16 {
    (lo + hi * 256) as u16
}

/// The word stored at a zero-page location; its high byte wraps within page zero.
pub open spec fn zp_word(mem: Map<u16, u8>, zp: u8) -> u16 {
    word(byte_at(mem, zp as u16), byte_at(mem, wrap8(zp + 1) as u16))
}

/// The address of the byte after `p` within the same page.
pub open spec fn same_page_next(p: u16) -> u16 {
    ((p / 256) * 256 + wrap8(p % 256 + 1)) as u16
}

/// The value of a byte read as a two's complement number.
pub open spec fn signed(v: u8) -> int {
    if v < 128 {
        v as int
    } else {
        v - 256
    }
}

/// Modes whose operand lies in memory at an effective address.
pub open spec fn is_memory_mode(mode: AddrMod) -> bool {
    match mode {
        AddrMod::ZeroPage | AddrMod::ZeroPageX | AddrMod::ZeroPageY | AddrMod::Absolute
        | AddrMod::AbsoluteX | AddrMod::AbsoluteY | AddrMod::IndirectX | AddrMod::IndirectY
        | AddrMod::Indirect => true,
        _ => false,
    }
}

/// The address an instruction's operand resolves to, before any indexing.
pub open spec fn base_address(s: CpuView, mode: AddrMod, ops: Seq<u8>) -> u16 {
    match mode {
        AddrMod::AbsoluteX | AddrMod::AbsoluteY => word(ops[0], ops[1]),
        AddrMod::IndirectY => zp_word(s.mem, ops[0]),
        _ => effective_address(s, mode, ops),
    }
}

/// The effective address of a memory-mode operand.
pub open spec fn effective_address(s: CpuView, mode: AddrMod, ops: Seq<u8>) -> u16 {
    match mode {
        AddrMod::ZeroPage => ops[0] as u16,
        AddrMod::ZeroPageX => wrap8(ops[0] + s.x) as u16,
        AddrMod::ZeroPageY => wrap8(ops[0] + s.y) as u16,
        AddrMod::Absolute => word(ops[0], ops[1]),
        AddrMod::AbsoluteX => wrap16(word(ops[0], ops[1]) + s.x),
        AddrMod::AbsoluteY => wrap16(word(ops[0], ops[1]) + s.y),
        AddrMod::IndirectX => zp_word(s.mem, wrap8(ops[0] + s.x)),
        AddrMod::IndirectY => wrap16(zp_word(s.mem, ops[0]) + s.y),
        AddrMod::Indirect => {
            let p = word(ops[0], ops[1]);
            word(byte_at(s.mem, p), byte_at(s.mem, same_page_next(p)))
        },
        _ => 0,
    }
}

/// An indexed access crossed into another page than its base address.
pub open spec fn page_crossed(s: CpuView, mode: AddrMod, ops: Seq<u8>) -> bool {
    match mode {
        AddrMod::AbsoluteX | AddrMod::AbsoluteY | AddrMod::IndirectY => base_address(s, mode, ops)
            / 256 != effective_address(s, mode, ops) / 256,
        _ => false,
    }
}

/// The operand value an instruction reads.
pub open spec fn operand_value(s: CpuView, mode: AddrMod, ops: Seq<u8>) -> u8 {
    match mode {
        AddrMod::Immediate => ops[0],
        _ => byte_at(s.mem, effective_address(s, mode, ops)),
    }
}

/// Zero and Negative set from a result.
pub open spec fn with_nz(f: Flags, r: u8) -> Flags {
    Flags { z: r == 0, n: r >= 128, ..f }
}

pub open spec fn carry_in(f: Flags) -> int {
    if f.c {
        1
    } else {
        0
    }
}

/// Binary add with carry: result, carry out, signed overflow.
pub open spec fn adc_binary(a: u8, m: u8, c: int) -> (u8, bool, bool) {
    let sum = a + m + c;
    let ssum = signed(a) + signed(m) + c;
    (wrap8(sum), sum > 255, ssum > 127 || ssum < -128)
}

/// Binary subtract with borrow (`1 - c`): result, carry (no borrow), signed overflow.
pub open spec fn sbc_binary(a: u8, m: u8, c: int) -> (u8, bool, bool) {
    let diff = a - m - (1 - c);
    let sdiff = signed(a) - signed(m) - (1 - c);
    (wrap8(diff), diff >= 0, sdiff > 127 || sdiff < -128)
}

/// Decimal add with carry, adjusting each nibble: result and decimal carry.
pub open spec fn adc_decimal(a: u8, m: u8, c: int) -> (u8, bool) {
    let lo0 = a % 16 + m % 16 + c;
    let lo = if lo0 > 9 {
        lo0 + 6
    } else {
        lo0
    };
    let hi0 = a / 16 + m / 16 + (if lo > 15 {
        1int
    } else {
        0
    });
    let hi = if hi0 > 9 {
        hi0 + 6
    } else {
        hi0
    };
    (((hi % 16) * 16 + lo % 16) as u8, hi > 15)
}

/// Decimal subtract with borrow, adjusting each nibble.
pub open spec fn sbc_decimal(a: u8, m: u8, c: int) -> u8 {
    let lo0 = a % 16 - m % 16 - (1 - c);
    let hi0 = a / 16 - m / 16;
    let lo = if lo0 < 0 {
        lo0 - 6
    } else {
        lo0
    };
    let hi1 = if lo0 < 0 {
        hi0 - 1
    } else {
        hi0
    };
    let hi = if hi1 < 0 {
        hi1 - 6
    } else {
        hi1
    };
    ((hi % 16) * 16 + lo % 16) as u8
}

/// Flags after comparing register value `r` with `m`.
pub open spec fn compare_flags(f: Flags, r: u8, m: u8) -> Flags {
    Flags { c: r >= m, z: r == m, n: wrap8(r - m) >= 128, ..f }
}

/// Result and carry out of a shift or rotate of `v` with carry in `c`.
pub open spec fn shift(m: Mnemonic, v: u8, c: int) -> (u8, bool) {
    match m {
        Mnemonic::Asl => (wrap8(v * 2), v >= 128),
        Mnemonic::Lsr => ((v / 2) as u8, v % 2 == 1),
        Mnemonic::Rol => (wrap8(v * 2 + c), v >= 128),
        _ => ((v / 2 + c * 128) as u8, v % 2 == 1),
    }
}

/// Whether a branch operation takes its branch under the given flags.
pub open spec fn branch_taken(m: Mnemonic, f: Flags) -> bool {
    match m {
        Mnemonic::Bcc => !f.c,
        Mnemonic::Bcs => f.c,
        Mnemonic::Beq => f.z,
        Mnemonic::Bne => !f.z,
        Mnemonic::Bmi => f.n,
        Mnemonic::Bpl => !f.n,
        Mnemonic::Bvc => !f.v,
        _ => f.v,
    }
}

pub open spec fn is_branch(m: Mnemonic) -> bool {
    match m {
        Mnemonic::Bcc | Mnemonic::Bcs | Mnemonic::Beq | Mnemonic::Bne | Mnemonic::Bmi
        | Mnemonic::Bpl | Mnemonic::Bvc | Mnemonic::Bvs => true,
        _ => false,
    }
}

/// Operations that take an extra cycle when indexing crosses a page.
pub open spec fn pays_page_cross(m: Mnemonic) -> bool {
    match m {
        Mnemonic::Lda | Mnemonic::Ldx | Mnemonic::Ldy | Mnemonic::And | Mnemonic::Eor
        | Mnemonic::Ora | Mnemonic::Adc | Mnemonic::Sbc | Mnemonic::Cmp => true,
        _ => false,
    }
}

/// The target of a relative branch from `next`.
pub open spec fn branch_target(next: u16, offset: u8) -> u16 {
    wrap16(next + signed(offset))
}

/// The address of the stack slot the stack pointer designates.
pub open spec fn stack_slot(sp: u16) -> u16 {
    (0x100 + sp) as u16
}

/// Pushes a byte onto the stack page.
pub open spec fn push(s: CpuView, v: u8) -> CpuView {
    CpuView { mem: s.mem.insert(stack_slot(s.sp), v), sp: ((s.sp + 255) % 256) as u16, ..s }
}

/// The state after pulling a byte from the stack page.
pub open spec fn pulled(s: CpuView) -> CpuView {
    CpuView { sp: ((s.sp + 1) % 256) as u16, ..s }
}

/// The byte that a pull returns.
pub open spec fn pull_value(s: CpuView) -> u8 {
    byte_at(s.mem, stack_slot(pulled(s).sp))
}

/// Pushes a 16-bit address, high byte first.
pub open spec fn push_word(s: CpuView, w: u16) -> CpuView {
    push(push(s, (w / 256) as u8), (w % 256) as u8)
}

/// The address that `pull_word` returns: low byte first.
pub open spec fn pull_word_value(s: CpuView) -> u16 {
    word(pull_value(s), pull_value(pulled(s)))
}

pub open spec fn pull_word(s: CpuView) -> CpuView {
    pulled(pulled(s))
}

/// The address right after an instruction in `mode` at `s.pc`.
pub open spec fn next_pc(s: CpuView, mode: AddrMod) -> u16 {
    wrap16(s.pc + instr_len(mode))
}

/// Writes `v` where a read-modify-write instruction found its operand.
pub open spec fn write_back(s: CpuView, mode: AddrMod, ops: Seq<u8>, v: u8) -> CpuView {
    if mode == AddrMod::Accumulator {
        CpuView { a: v, ..s }
    } else {
        CpuView { mem: s.mem.insert(effective_address(s, mode, ops), v), ..s }
    }
}

/// The value a read-modify-write instruction works on.
pub open spec fn rmw_value(s: CpuView, mode: AddrMod, ops: Seq<u8>) -> u8 {
    if mode == AddrMod::Accumulator {
        s.a
    } else {
        operand_value(s, mode, ops)
    }
}

/// What an instruction does to registers, flags, memory and the program
/// counter; the cycle counter is left to `execute`.
pub open spec fn effect(s: CpuView, m: Mnemonic, mode: AddrMod, ops: Seq<u8>) -> CpuView {
    let n = next_pc(s, mode);
    let v = operand_value(s, mode, ops);
    let ea = effective_address(s, mode, ops);
    let f = s.flags;
    let c = carry_in(f);
    match m {
        Mnemonic::Lda => CpuView { a: v, flags: with_nz(f, v), pc: n, ..s },
        Mnemonic::Ldx => CpuView { x: v, flags: with_nz(f, v), pc: n, ..s },
        Mnemonic::Ldy => CpuView { y: v, flags: with_nz(f, v), pc: n, ..s },
        Mnemonic::Sta => CpuView { mem: s.mem.insert(ea, s.a), pc: n, ..s },
        Mnemonic::Stx => CpuView { mem: s.mem.insert(ea, s.x), pc: n, ..s },
        Mnemonic::Sty => CpuView { mem: s.mem.insert(ea, s.y), pc: n, ..s },
        Mnemonic::Tax => CpuView { x: s.a, flags: with_nz(f, s.a), pc: n, ..s },
        Mnemonic::Tay => CpuView { y: s.a, flags: with_nz(f, s.a), pc: n, ..s },
        Mnemonic::Txa => CpuView { a: s.x, flags: with_nz(f, s.x), pc: n, ..s },
        Mnemonic::Tya => CpuView { a: s.y, flags: with_nz(f, s.y), pc: n, ..s },
        Mnemonic::Tsx => CpuView { x: s.sp as u8, flags: with_nz(f, s.sp as u8), pc: n, ..s },
        Mnemonic::Txs => CpuView { sp: s.x as u16, pc: n, ..s },
        Mnemonic::Pha => CpuView { pc: n, ..push(s, s.a) },
        Mnemonic::Php => CpuView { pc: n, ..push(s, Flags { b: true, ..f }.status_byte()) },
        Mnemonic::Pla => {
            let r = pull_value(s);
            CpuView { a: r, flags: with_nz(f, r), pc: n, ..pulled(s) }
        },
        Mnemonic::Plp => CpuView {
            flags: Flags::from_status_byte(pull_value(s)),
            pc: n,
            ..pulled(s)
        },
        Mnemonic::And => CpuView { a: s.a & v, flags: with_nz(f, s.a & v), pc: n, ..s },
        Mnemonic::Eor => CpuView { a: s.a ^ v, flags: with_nz(f, s.a ^ v), pc: n, ..s },
        Mnemonic::Ora => CpuView { a: s.a | v, flags: with_nz(f, s.a | v), pc: n, ..s },
        Mnemonic::Bit => CpuView {
            flags: Flags { z: s.a & v == 0, v: (v / 64) % 2 == 1, n: v >= 128, ..f },
            pc: n,
            ..s
        },
        Mnemonic::Adc => {
            let (bin, carry, ovf) = adc_binary(s.a, v, c);
            let (r, carry) = if f.d {
                adc_decimal(s.a, v, c)
            } else {
                (bin, carry)
            };
            CpuView { a: r, flags: with_nz(Flags { c: carry, v: ovf, ..f }, r), pc: n, ..s }
        },
        Mnemonic::Sbc => {
            let (bin, carry, ovf) = sbc_binary(s.a, v, c);
            let r = if f.d {
                sbc_decimal(s.a, v, c)
            } else {
                bin
            };
            CpuView { a: r, flags: with_nz(Flags { c: carry, v: ovf, ..f }, r), pc: n, ..s }
        },
        Mnemonic::Cmp => CpuView { flags: compare_flags(f, s.a, v), pc: n, ..s },
        Mnemonic::Cpx => CpuView { flags: compare_flags(f, s.x, v), pc: n, ..s },
        Mnemonic::Cpy => CpuView { flags: compare_flags(f, s.y, v), pc: n, ..s },
        Mnemonic::Inc => {
            let r = wrap8(v + 1);
            CpuView { mem: s.mem.insert(ea, r), flags: with_nz(f, r), pc: n, ..s }
        },
        Mnemonic::Dec => {
            let r = wrap8(v - 1);
            CpuView { mem: s.mem.insert(ea, r), flags: with_nz(f, r), pc: n, ..s }
        },
        Mnemonic::Inx => CpuView { x: wrap8(s.x + 1), flags: with_nz(f, wrap8(s.x + 1)), pc: n, ..s },
        Mnemonic::Iny => CpuView { y: wrap8(s.y + 1), flags: with_nz(f, wrap8(s.y + 1)), pc: n, ..s },
        Mnemonic::Dex => CpuView { x: wrap8(s.x - 1), flags: with_nz(f, wrap8(s.x - 1)), pc: n, ..s },
        Mnemonic::Dey => CpuView { y: wrap8(s.y - 1), flags: with_nz(f, wrap8(s.y - 1)), pc: n, ..s },
        Mnemonic::Asl | Mnemonic::Lsr | Mnemonic::Rol | Mnemonic::Ror => {
            let (r, carry) = shift(m, rmw_value(s, mode, ops), c);
            CpuView {
                flags: with_nz(Flags { c: carry, ..f }, r),
                pc: n,
                ..write_back(s, mode, ops, r)
            }
        },
        Mnemonic::Jmp => CpuView { pc: ea, ..s },
        Mnemonic::Jsr => CpuView { pc: word(ops[0], ops[1]), ..push_word(s, wrap16(s.pc + 2)) },
        Mnemonic::Rts => CpuView { pc: wrap16(pull_word_value(s) + 1), ..pull_word(s) },
        Mnemonic::Bcc | Mnemonic::Bcs | Mnemonic::Beq | Mnemonic::Bne | Mnemonic::Bmi
        | Mnemonic::Bpl | Mnemonic::Bvc | Mnemonic::Bvs => CpuView {
            pc: if branch_taken(m, f) {
                branch_target(n, ops[0])
            } else {
                n
            },
            ..s
        },
        Mnemonic::Clc => CpuView { flags: Flags { c: false, ..f }, pc: n, ..s },
        Mnemonic::Cld => CpuView { flags: Flags { d: false, ..f }, pc: n, ..s },
        Mnemonic::Cli => CpuView { flags: Flags { i: false, ..f }, pc: n, ..s },
        Mnemonic::Clv => CpuView { flags: Flags { v: false, ..f }, pc: n, ..s },
        Mnemonic::Sec => CpuView { flags: Flags { c: true, ..f }, pc: n, ..s },
        Mnemonic::Sed => CpuView { flags: Flags { d: true, ..f }, pc: n, ..s },
        Mnemonic::Sei => CpuView { flags: Flags { i: true, ..f }, pc: n, ..s },
        Mnemonic::Brk => {
            let pushed = push(
                push_word(s, wrap16(s.pc + 2)),
                Flags { b: true, ..f }.status_byte(),
            );
            CpuView {
                flags: Flags { b: true, i: true, ..f },
                pc: word(byte_at(pushed.mem, 0xFFFE), byte_at(pushed.mem, 0xFFFF)),
                ..pushed
            }
        },
        Mnemonic::Rti => {
            let after_status = pulled(s);
            CpuView {
                flags: Flags::from_status_byte(pull_value(s)),
                pc: pull_word_value(after_status),
                ..pull_word(after_status)
            }
        },
        Mnemonic::Nop | Mnemonic::Ukn => CpuView { pc: n, ..s },
    }
}

/// Cycles beyond the documented base cost: one for an indexed read that
/// crosses a page; one for a taken branch and one more if it lands on
/// another page.
pub open spec fn extra_cycles(s: CpuView, m: Mnemonic, mode: AddrMod, ops: Seq<u8>) -> nat {
    if pays_page_cross(m) && page_crossed(s, mode, ops) {
        1
    } else if is_branch(m) && branch_taken(m, s.flags) {
        let n = next_pc(s, mode);
        if n / 256 != branch_target(n, ops[0]) / 256 {
            2
        } else {
            1
        }
    } else {
        0
    }
}

/// The cycle counter after adding `k` cycles; it stops at its maximum.
pub open spec fn add_cycles(cyc: u64, k: nat) -> u64 {
    if cyc + k > u64::MAX {
        u64::MAX
    } else {
        (cyc + k) as u64
    }
}

/// The cost in cycles of executing an instruction in state `s`.
pub open spec fn cost(s: CpuView, m: Mnemonic, mode: AddrMod, ops: Seq<u8>) -> nat {
    m.base_cycles(mode) + extra_cycles(s, m, mode, ops)
}

/// The state after executing one instruction.
pub open spec fn execute(s: CpuView, m: Mnemonic, mode: AddrMod, ops: Seq<u8>) -> CpuView {
    CpuView { cyc: add_cycles(s.cyc, cost(s, m, mode, ops)), ..effect(s, m, mode, ops) }
}

/// The engine cannot execute the instruction at its program counter.
pub open spec fn halted(s: CpuView) -> bool {
    !fits_at(s.rom, s.pc as int)
}

/// What `step` reports in state `s`.
pub open spec fn step_result(s: CpuView) -> StepResult {
    if s.pc >= s.rom.len() {
        StepResult::OutOfBounds
    } else if !fits_at(s.rom, s.pc as int) {
        StepResult::Truncated
    } else {
        StepResult::Executed
    }
}

/// The state after one `step`: unchanged when halted.
#[verifier::opaque]
pub open spec fn step_state(s: CpuView) -> CpuView {
    if halted(s) {
        s
    } else {
        let (m, mode) = opcode_table(s.rom[s.pc as int]);
        execute(s, m, mode, operands_at(s.rom, s.pc as int))
    }
}

/// The state after up to `k` steps, stopping early once halted.
pub open spec fn run_state(s: CpuView, k: nat) -> CpuView
    decreases k,
{
    if k == 0 || halted(s) {
        s
    } else {
        run_state(step_state(s), (k - 1) as nat)
    }
}

/// The number of instructions executed by up to `k` steps.
pub open spec fn run_count(s: CpuView, k: nat) -> nat
    decreases k,
{
    if k == 0 || halted(s) {
        0
    } else {
        1 + run_count(step_state(s), (k - 1) as nat)
    }
}

/// What `mem_read` yields: the operand value in the immediate and memory
/// modes, nothing in the others.
pub open spec fn read_operand(s: CpuView, mode: AddrMod, ops: Seq<u8>) -> Option<u8> {
    if mode == AddrMod::Immediate || is_memory_mode(mode) {
        Some(operand_value(s, mode, ops))
    } else {
        Option::None
    }
}

/// What `mem_write` does: stores at the effective address in the memory
/// modes, nothing in the others.
pub open spec fn write_operand(s: CpuView, mode: AddrMod, ops: Seq<u8>, v: u8) -> CpuView {
    if is_memory_mode(mode) {
        CpuView { mem: s.mem.insert(effective_address(s, mode, ops), v), ..s }
    } else {
        s
    }
}

/// The power-on state for a program.
pub open spec fn power_on(rom: Seq<u8>) -> CpuView {
    CpuView {
        a: 0,
        x: 0,
        y: 0,
        pc: 0,
        sp: 0,
        flags: Flags { c: false, z: false, i: false, d: false, b: false, v: false, n: false },
        mem: Map::empty(),
        cyc: 0,
        rom,
    }
}

} // verus!
