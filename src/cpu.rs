//! The execution engine: registers, flags, memory and a loaded program,
//! advanced one instruction at a time.
use vstd::prelude::*;
use crate::addrmod::AddrMod;
use crate::assembler::{instruction_fits, lemma_table_modes, next_instruction};
use crate::flags::Flags;
use crate::instructions::{Instruction, Mnemonic};
use crate::memory::{Memory, byte_at};
use crate::semantics::{
    CpuView, StepResult, adc_binary, adc_decimal, branch_taken, branch_target, carry_in,
    compare_flags, cost, effect, effective_address, execute, halted, is_branch, next_pc,
    operand_value, page_crossed, pays_page_cross, power_on, pull_value, pulled, push,
    read_operand, run_count, run_state, sbc_binary, sbc_decimal, shift, signed, step_result,
    step_state, with_nz, word, wrap8, write_operand, zp_word,
};

verus! {

/// The processor and the program it runs.
#[derive(Debug)]
pub struct CPU {
    a: u8,
    x: u8,
    y: u8,
    pc: u16,
    sp: u16,
    flags: Flags,
    memory: Memory,
    cyc: u64,
    rom: Vec<u8>,
}

impl View for CPU {
    type V = CpuView;

    closed spec fn view(&self) -> CpuView {
        CpuView {
            a: self.a,
            x: self.x,
            y: self.y,
            pc: self.pc,
            sp: self.sp,
            flags: self.flags,
            mem: self.memory@,
            cyc: self.cyc,
            rom: self.rom@,
        }
    }
}

fn make_word(lo: u8, hi: u8) -> (r: u16)
    ensures
        r == word(lo, hi),
{
    lo as u16 + hi as u16 * 256
}

fn signed_of(v: u8) -> (r: i16)
    ensures
        r == signed(v),
{
    if v < 128 {
        v as i16
    } else {
        v as i16 - 256
    }
}

fn add_binary(a: u8, m: u8, c: u8) -> (r: (u8, bool, bool))
    requires
        c <= 1,
    ensures
        r == adc_binary(a, m, c as int),
{
    let sum: u16 = a as u16 + m as u16 + c as u16;
    let ssum: i16 = signed_of(a) + signed_of(m) + c as i16;
    ((sum % 256) as u8, sum > 255, ssum > 127 || ssum < -128)
}

fn sub_binary(a: u8, m: u8, c: u8) -> (r: (u8, bool, bool))
    requires
        c <= 1,
    ensures
        r == sbc_binary(a, m, c as int),
{
    let diff: i16 = a as i16 - m as i16 - (1 - c as i16);
    let sdiff: i16 = signed_of(a) - signed_of(m) - (1 - c as i16);
    (((diff + 512) % 256) as u8, diff >= 0, sdiff > 127 || sdiff < -128)
}

fn add_decimal(a: u8, m: u8, c: u8) -> (r: (u8, bool))
    requires
        c <= 1,
    ensures
        r == adc_decimal(a, m, c as int),
{
    let mut lo: u16 = (a % 16) as u16 + (m % 16) as u16 + c as u16;
    if lo > 9 {
        lo = lo + 6;
    }
    let mut hi: u16 = (a / 16) as u16 + (m / 16) as u16 + if lo > 15 {
        1
    } else {
        0
    };
    if hi > 9 {
        hi = hi + 6;
    }
    (((hi % 16) * 16 + lo % 16) as u8, hi > 15)
}

fn sub_decimal(a: u8, m: u8, c: u8) -> (r: u8)
    requires
        c <= 1,
    ensures
        r == sbc_decimal(a, m, c as int),
{
    let mut lo: i16 = (a % 16) as i16 - (m % 16) as i16 - (1 - c as i16);
    let mut hi: i16 = (a / 16) as i16 - (m / 16) as i16;
    if lo < 0 {
        lo = lo - 6;
        hi = hi - 1;
    }
    if hi < 0 {
        hi = hi - 6;
    }
    proof {
        vstd::arithmetic::div_mod::lemma_mod_multiples_vanish(2, hi as int, 16);
        vstd::arithmetic::div_mod::lemma_mod_multiples_vanish(2, lo as int, 16);
    }
    let hi_digit: i16 = (hi + 32) % 16;
    let lo_digit: i16 = (lo + 32) % 16;
    assert(hi_digit == hi % 16 && lo_digit == lo % 16);
    (hi_digit * 16 + lo_digit) as u8
}

fn shift_value(m: Mnemonic, v: u8, c: u8) -> (r: (u8, bool))
    requires
        c <= 1,
    ensures
        r == shift(m, v, c as int),
{
    match m {
        Mnemonic::Asl => (((v as u16 * 2) % 256) as u8, v >= 128),
        Mnemonic::Lsr => (v / 2, v % 2 == 1),
        Mnemonic::Rol => (((v as u16 * 2 + c as u16) % 256) as u8, v >= 128),
        _ => (v / 2 + c * 128, v % 2 == 1),
    }
}

fn taken(m: Mnemonic, f: Flags) -> (r: bool)
    ensures
        r == branch_taken(m, f),
{
    match m {
        Mnemonic::Bcc => !f.c,
        Mnemonic::Bcs => f.c,
        Mnemonic::Beq => f.z,
        Mnemonic::Bne => !f.z,
        Mnemonic::Bmi => f.n,
        Mnemonic::Bpl => !f.n,
        Mnemonic::Bvc => !f.v,
        _ => f.v,
    }
}

fn relative_target(next: u16, offset: u8) -> (r: u16)
    ensures
        r == branch_target(next, offset),
{
    ((next as i32 + signed_of(offset) as i32 + 0x10000) % 0x10000) as u16
}

fn charges_page_cross(m: Mnemonic) -> (r: bool)
    ensures
        r == pays_page_cross(m),
{
    match m {
        Mnemonic::Lda | Mnemonic::Ldx | Mnemonic::Ldy | Mnemonic::And | Mnemonic::Eor
        | Mnemonic::Ora | Mnemonic::Adc | Mnemonic::Sbc | Mnemonic::Cmp => true,
        _ => false,
    }
}

fn branches(m: Mnemonic) -> (r: bool)
    ensures
        r == is_branch(m),
{
    match m {
        Mnemonic::Bcc | Mnemonic::Bcs | Mnemonic::Beq | Mnemonic::Bne | Mnemonic::Bmi
        | Mnemonic::Bpl | Mnemonic::Bvc | Mnemonic::Bvs => true,
        _ => false,
    }
}

impl CPU {
    /// A processor in its power-on state with `rom` loaded.
    pub fn new(rom: &Vec<u8>) -> (r: CPU)
        ensures
            r@ == power_on(rom@),
    {
        let rom = rom.clone();
        CPU {
            a: 0x00,
            x: 0x00,
            y: 0x00,
            pc: 0x00,
            sp: 0x00,
            flags: Flags::new(),
            memory: Memory::new(),
            cyc: 0x00,
            rom,
        }
    }

    /// Back to the power-on state, keeping the loaded program.
    pub fn reset(&mut self)
        ensures
            final(self)@ == power_on(old(self)@.rom),
    {
        self.a = 0x00;
        self.x = 0x00;
        self.y = 0x00;
        self.pc = 0x00;
        self.sp = 0x00;
        self.flags = Flags::new();
        self.memory = Memory::new();
        self.cyc = 0x00;
    }

    /// 8-bit addition, wrapping modulo 256.
    pub fn add(&self, a: u8, b: u8) -> (r: u8)
        ensures
            r == wrap8(a + b),
    {
        ((a as u16 + b as u16) % 256) as u8
    }

    /// 8-bit subtraction, wrapping modulo 256.
    pub fn sub(&self, a: u8, b: u8) -> (r: u8)
        ensures
            r == wrap8(a - b),
    {
        ((a as u16 + 256 - b as u16) % 256) as u8
    }

    /// 8-bit multiplication, wrapping modulo 256.
    pub fn mul(&self, a: u8, b: u8) -> (r: u8)
        ensures
            r == wrap8(a * b),
    {
        assert(a * b <= 255 * 255) by (nonlinear_arith)
            requires
                a <= 255,
                b <= 255,
        ;
        ((a as u32 * b as u32) % 256) as u8
    }

    /// 8-bit division, rounding down.
    pub fn div(&self, a: u8, b: u8) -> (r: u8)
        requires
            b != 0,
        ensures
            r == a / b,
    {
        a / b
    }

    pub fn update_pc(&mut self, pc: u16)
        ensures
            final(self)@ == (CpuView { pc, ..old(self)@ }),
    {
        self.pc = pc;
    }

    pub fn accumulator(&self) -> (r: u8)
        ensures
            r == self@.a,
    {
        self.a
    }

    pub fn x(&self) -> (r: u8)
        ensures
            r == self@.x,
    {
        self.x
    }

    pub fn y(&self) -> (r: u8)
        ensures
            r == self@.y,
    {
        self.y
    }

    pub fn pc(&self) -> (r: u16)
        ensures
            r == self@.pc,
    {
        self.pc
    }

    pub fn sp(&self) -> (r: u16)
        ensures
            r == self@.sp,
    {
        self.sp
    }

    pub fn flags(&self) -> (r: Flags)
        ensures
            r == self@.flags,
    {
        self.flags
    }

    pub fn cycles(&self) -> (r: u64)
        ensures
            r == self@.cyc,
    {
        self.cyc
    }

    pub fn memory(&self) -> (r: &Memory)
        ensures
            r@ == self@.mem,
    {
        &self.memory
    }

    pub fn rom(&self) -> (r: &Vec<u8>)
        ensures
            r@ == self@.rom,
    {
        &self.rom
    }

    /// The byte at `addr`; zero where nothing was written.
    pub fn read(&self, addr: u16) -> (r: u8)
        ensures
            r == byte_at(self@.mem, addr),
    {
        self.memory.read(addr)
    }

    /// Whether the engine is halted: the instruction at the program counter
    /// is not wholly inside the program.
    pub fn is_halted(&self) -> (r: bool)
        ensures
            r == halted(self@),
    {
        !instruction_fits(&self.rom, self.pc as usize)
    }

    fn zp_word(&self, zp: u8) -> (r: u16)
        ensures
            r == zp_word(self@.mem, zp),
    {
        let lo = self.memory.read(zp as u16);
        let hi = self.memory.read(((zp as u16 + 1) % 256) as u16);
        make_word(lo, hi)
    }

    /// The effective address of an operand in addressing mode `mode`; zero
    /// for the modes that have none.
    pub fn effective_address(&self, mode: AddrMod, operands: &Vec<u8>) -> (r: u16)
        requires
            operands@.len() >= mode.operand_count(),
        ensures
            r == effective_address(self@, mode, operands@),
    {
        match mode {
            AddrMod::ZeroPage => operands[0] as u16,
            AddrMod::ZeroPageX => ((operands[0] as u16 + self.x as u16) % 256) as u16,
            AddrMod::ZeroPageY => ((operands[0] as u16 + self.y as u16) % 256) as u16,
            AddrMod::Absolute => make_word(operands[0], operands[1]),
            AddrMod::AbsoluteX => {
                let base = make_word(operands[0], operands[1]);
                ((base as u32 + self.x as u32) % 0x10000) as u16
            },
            AddrMod::AbsoluteY => {
                let base = make_word(operands[0], operands[1]);
                ((base as u32 + self.y as u32) % 0x10000) as u16
            },
            AddrMod::IndirectX => self.zp_word(((operands[0] as u16 + self.x as u16) % 256) as u8),
            AddrMod::IndirectY => {
                let base = self.zp_word(operands[0]);
                ((base as u32 + self.y as u32) % 0x10000) as u16
            },
            AddrMod::Indirect => {
                let p = make_word(operands[0], operands[1]);
                let p_next = ((p / 256) * 256 + (p % 256 + 1) % 256) as u16;
                make_word(self.memory.read(p), self.memory.read(p_next))
            },
            _ => 0,
        }
    }

    /// The operand value read in `mode`: the byte itself in immediate mode,
    /// else the byte at the effective address.
    fn operand(&self, mode: AddrMod, operands: &Vec<u8>) -> (r: u8)
        requires
            operands@.len() >= mode.operand_count(),
        ensures
            r == operand_value(self@, mode, operands@),
    {
        match mode {
            AddrMod::Immediate => operands[0],
            _ => {
                let ea = self.effective_address(mode, operands);
                self.memory.read(ea)
            },
        }
    }

    /// Reads the operand of an instruction in `addr_mod`: `None` for the
    /// modes that have no operand value.
    pub fn mem_read(&self, addr_mod: AddrMod, operands: &Vec<u8>) -> (r: Option<u8>)
        requires
            operands@.len() >= addr_mod.operand_count(),
        ensures
            r == read_operand(self@, addr_mod, operands@),
    {
        match addr_mod {
            AddrMod::Immediate | AddrMod::ZeroPage | AddrMod::ZeroPageX | AddrMod::ZeroPageY
            | AddrMod::Absolute | AddrMod::AbsoluteX | AddrMod::AbsoluteY | AddrMod::IndirectX
            | AddrMod::IndirectY | AddrMod::Indirect => Some(self.operand(addr_mod, operands)),
            _ => Option::None,
        }
    }

    /// Stores `val` at the effective address of a memory-mode operand; does
    /// nothing in the other modes.
    pub fn mem_write(&mut self, addr_mod: AddrMod, operands: &Vec<u8>, val: u8)
        requires
            operands@.len() >= addr_mod.operand_count(),
        ensures
            final(self)@ == write_operand(old(self)@, addr_mod, operands@, val),
    {
        match addr_mod {
            AddrMod::ZeroPage | AddrMod::ZeroPageX | AddrMod::ZeroPageY | AddrMod::Absolute
            | AddrMod::AbsoluteX | AddrMod::AbsoluteY | AddrMod::IndirectX | AddrMod::IndirectY
            | AddrMod::Indirect => {
                let ea = self.effective_address(addr_mod, operands);
                self.memory.write(ea, val);
            },
            _ => {},
        }
    }

    /// Splits one or two operand bytes into the first and the optional second.
    pub fn unwrap_operands(operands: &Vec<u8>) -> (r: Option<(u8, Option<u8>)>)
        ensures
            operands@.len() == 1 ==> r == Some((operands@[0], Option::<u8>::None)),
            operands@.len() == 2 ==> r == Some((operands@[0], Some(operands@[1]))),
            operands@.len() != 1 && operands@.len() != 2 ==> r is None,
    {
        if operands.len() == 1 {
            Some((operands[0], Option::None))
        } else if operands.len() == 2 {
            Some((operands[0], Some(operands[1])))
        } else {
            Option::None
        }
    }

    fn push_byte(&mut self, v: u8)
        ensures
            final(self)@ == push(old(self)@, v),
    {
        self.memory.write((0x100 + self.sp as u32) as u16, v);
        self.sp = ((self.sp as u32 + 255) % 256) as u16;
    }

    fn pull_byte(&mut self) -> (r: u8)
        ensures
            r == pull_value(old(self)@),
            final(self)@ == pulled(old(self)@),
    {
        self.sp = ((self.sp as u32 + 1) % 256) as u16;
        self.memory.read((0x100 + self.sp as u32) as u16)
    }

    fn set_nz(&mut self, r: u8)
        ensures
            final(self)@ == (CpuView { flags: with_nz(old(self)@.flags, r), ..old(self)@ }),
    {
        self.flags.trig_z_if(r == 0);
        self.flags.trig_n_if(r >= 128);
    }

    fn compare(&mut self, r: u8, m: u8)
        ensures
            final(self)@ == (CpuView { flags: compare_flags(old(self)@.flags, r, m), ..old(self)@ }),
    {
        self.flags.trig_c_if(r >= m);
        self.flags.trig_z_if(r == m);
        let d = self.sub(r, m);
        self.flags.trig_n_if(d >= 128);
    }

    fn carry(&self) -> (r: u8)
        ensures
            r == carry_in(self@.flags),
    {
        if self.flags.c {
            1
        } else {
            0
        }
    }

    /// Whether an indexed access crosses into another page than its base.
    fn crosses_page(&self, mode: AddrMod, operands: &Vec<u8>) -> (r: bool)
        requires
            operands@.len() >= mode.operand_count(),
        ensures
            r == page_crossed(self@, mode, operands@),
    {
        match mode {
            AddrMod::AbsoluteX | AddrMod::AbsoluteY => {
                let base = make_word(operands[0], operands[1]);
                let ea = self.effective_address(mode, operands);
                base / 256 != ea / 256
            },
            AddrMod::IndirectY => {
                let base = self.zp_word(operands[0]);
                let ea = self.effective_address(mode, operands);
                base / 256 != ea / 256
            },
            _ => false,
        }
    }

    /// The cycles that executing `ins` in the current state costs.
    fn cost_of(&self, ins: &Instruction, next: u16) -> (r: u8)
        requires
            ins.wf(),
            ins.opcode.fixed_mode() is Some ==> ins.opcode.fixed_mode() == Some(ins.addr_mod),
            next == next_pc(self@, ins.addr_mod),
        ensures
            r == cost(self@, ins.opcode, ins.addr_mod, ins.operands@),
    {
        let base = ins.cycles();
        let m = ins.opcode;
        let extra: u8 = if charges_page_cross(m) && self.crosses_page(ins.addr_mod, &ins.operands) {
            1
        } else if branches(m) && taken(m, self.flags) {
            let target = relative_target(next, ins.operands[0]);
            if next / 256 != target / 256 {
                2
            } else {
                1
            }
        } else {
            0
        };
        base + extra
    }

    /// Loads, stores and register transfers.
    #[verifier::rlimit(50)]
    fn apply_load_store(&mut self, ins: &Instruction, next: u16)
        requires
            ins.wf(),
            ins.opcode.fixed_mode() is Some ==> ins.opcode.fixed_mode() == Some(ins.addr_mod),
            next == next_pc(old(self)@, ins.addr_mod),
            matches!(ins.opcode, Mnemonic::Lda | Mnemonic::Ldx | Mnemonic::Ldy | Mnemonic::Sta | Mnemonic::Stx | Mnemonic::Sty | Mnemonic::Tax | Mnemonic::Tay | Mnemonic::Txa | Mnemonic::Tya | Mnemonic::Tsx | Mnemonic::Txs),
        ensures
            final(self)@ == effect(old(self)@, ins.opcode, ins.addr_mod, ins.operands@),
    {
        let mode = ins.addr_mod;
        let ops = &ins.operands;
        let m = ins.opcode;
        match m {
            Mnemonic::Lda => {
                let v = self.operand(mode, ops);
                self.a = v;
                self.set_nz(v);
                self.pc = next;
            },
            Mnemonic::Ldx => {
                let v = self.operand(mode, ops);
                self.x = v;
                self.set_nz(v);
                self.pc = next;
            },
            Mnemonic::Ldy => {
                let v = self.operand(mode, ops);
                self.y = v;
                self.set_nz(v);
                self.pc = next;
            },
            Mnemonic::Sta => {
                let ea = self.effective_address(mode, ops);
                self.memory.write(ea, self.a);
                self.pc = next;
            },
            Mnemonic::Stx => {
                let ea = self.effective_address(mode, ops);
                self.memory.write(ea, self.x);
                self.pc = next;
            },
            Mnemonic::Sty => {
                let ea = self.effective_address(mode, ops);
                self.memory.write(ea, self.y);
                self.pc = next;
            },
            Mnemonic::Tax => {
                self.x = self.a;
                self.set_nz(self.a);
                self.pc = next;
            },
            Mnemonic::Tay => {
                self.y = self.a;
                self.set_nz(self.a);
                self.pc = next;
            },
            Mnemonic::Txa => {
                self.a = self.x;
                self.set_nz(self.x);
                self.pc = next;
            },
            Mnemonic::Tya => {
                self.a = self.y;
                self.set_nz(self.y);
                self.pc = next;
            },
            Mnemonic::Tsx => {
                let v = self.sp as u8;
                self.x = v;
                self.set_nz(v);
                self.pc = next;
            },
            Mnemonic::Txs => {
                self.sp = self.x as u16;
                self.pc = next;
            },
            _ => {},
        }
    }

    /// Logical, arithmetic and compare operations.
    #[verifier::rlimit(50)]
    fn apply_logic_arith(&mut self, ins: &Instruction, next: u16)
        requires
            ins.wf(),
            ins.opcode.fixed_mode() is Some ==> ins.opcode.fixed_mode() == Some(ins.addr_mod),
            next == next_pc(old(self)@, ins.addr_mod),
            matches!(ins.opcode, Mnemonic::And | Mnemonic::Eor | Mnemonic::Ora | Mnemonic::Bit | Mnemonic::Adc | Mnemonic::Sbc | Mnemonic::Cmp | Mnemonic::Cpx | Mnemonic::Cpy),
        ensures
            final(self)@ == effect(old(self)@, ins.opcode, ins.addr_mod, ins.operands@),
    {
        let mode = ins.addr_mod;
        let ops = &ins.operands;
        let m = ins.opcode;
        match m {
            Mnemonic::And => {
                let r = self.a & self.operand(mode, ops);
                self.a = r;
                self.set_nz(r);
                self.pc = next;
            },
            Mnemonic::Eor => {
                let r = self.a ^ self.operand(mode, ops);
                self.a = r;
                self.set_nz(r);
                self.pc = next;
            },
            Mnemonic::Ora => {
                let r = self.a | self.operand(mode, ops);
                self.a = r;
                self.set_nz(r);
                self.pc = next;
            },
            Mnemonic::Bit => {
                let v = self.operand(mode, ops);
                self.flags.trig_z_if(self.a & v == 0);
                self.flags.trig_v_if((v / 64) % 2 == 1);
                self.flags.trig_n_if(v >= 128);
                self.pc = next;
            },
            Mnemonic::Adc => {
                let v = self.operand(mode, ops);
                let c = self.carry();
                let (bin, bin_carry, ovf) = add_binary(self.a, v, c);
                let (r, carry) = if self.flags.d {
                    add_decimal(self.a, v, c)
                } else {
                    (bin, bin_carry)
                };
                self.flags.trig_c_if(carry);
                self.flags.trig_v_if(ovf);
                self.a = r;
                self.set_nz(r);
                self.pc = next;
            },
            Mnemonic::Sbc => {
                let v = self.operand(mode, ops);
                let c = self.carry();
                let (bin, carry, ovf) = sub_binary(self.a, v, c);
                let r = if self.flags.d {
                    sub_decimal(self.a, v, c)
                } else {
                    bin
                };
                self.flags.trig_c_if(carry);
                self.flags.trig_v_if(ovf);
                self.a = r;
                self.set_nz(r);
                self.pc = next;
            },
            Mnemonic::Cmp => {
                let v = self.operand(mode, ops);
                self.compare(self.a, v);
                self.pc = next;
            },
            Mnemonic::Cpx => {
                let v = self.operand(mode, ops);
                self.compare(self.x, v);
                self.pc = next;
            },
            Mnemonic::Cpy => {
                let v = self.operand(mode, ops);
                self.compare(self.y, v);
                self.pc = next;
            },
            _ => {},
        }
    }

    /// Increments and decrements.
    #[verifier::rlimit(50)]
    fn apply_inc_dec(&mut self, ins: &Instruction, next: u16)
        requires
            ins.wf(),
            ins.opcode.fixed_mode() is Some ==> ins.opcode.fixed_mode() == Some(ins.addr_mod),
            next == next_pc(old(self)@, ins.addr_mod),
            matches!(ins.opcode, Mnemonic::Inc | Mnemonic::Dec | Mnemonic::Inx | Mnemonic::Iny | Mnemonic::Dex | Mnemonic::Dey),
        ensures
            final(self)@ == effect(old(self)@, ins.opcode, ins.addr_mod, ins.operands@),
    {
        let mode = ins.addr_mod;
        let ops = &ins.operands;
        let m = ins.opcode;
        match m {
            Mnemonic::Inc => {
                let v = self.operand(mode, ops);
                let ea = self.effective_address(mode, ops);
                let r = self.add(v, 1);
                self.memory.write(ea, r);
                self.set_nz(r);
                self.pc = next;
            },
            Mnemonic::Dec => {
                let v = self.operand(mode, ops);
                let ea = self.effective_address(mode, ops);
                let r = self.sub(v, 1);
                self.memory.write(ea, r);
                self.set_nz(r);
                self.pc = next;
            },
            Mnemonic::Inx => {
                let r = self.add(self.x, 1);
                self.x = r;
                self.set_nz(r);
                self.pc = next;
            },
            Mnemonic::Iny => {
                let r = self.add(self.y, 1);
                self.y = r;
                self.set_nz(r);
                self.pc = next;
            },
            Mnemonic::Dex => {
                let r = self.sub(self.x, 1);
                self.x = r;
                self.set_nz(r);
                self.pc = next;
            },
            Mnemonic::Dey => {
                let r = self.sub(self.y, 1);
                self.y = r;
                self.set_nz(r);
                self.pc = next;
            },
            _ => {},
        }
    }

    /// Shifts and rotates.
    #[verifier::rlimit(50)]
    fn apply_shift(&mut self, ins: &Instruction, next: u16)
        requires
            ins.wf(),
            ins.opcode.fixed_mode() is Some ==> ins.opcode.fixed_mode() == Some(ins.addr_mod),
            next == next_pc(old(self)@, ins.addr_mod),
            matches!(ins.opcode, Mnemonic::Asl | Mnemonic::Lsr | Mnemonic::Rol | Mnemonic::Ror),
        ensures
            final(self)@ == effect(old(self)@, ins.opcode, ins.addr_mod, ins.operands@),
    {
        let mode = ins.addr_mod;
        let ops = &ins.operands;
        let m = ins.opcode;
        match m {
            Mnemonic::Asl | Mnemonic::Lsr | Mnemonic::Rol | Mnemonic::Ror => {
                let c = self.carry();
                if mode == AddrMod::Accumulator {
                    let (r, carry) = shift_value(m, self.a, c);
                    self.a = r;
                    self.flags.trig_c_if(carry);
                    self.set_nz(r);
                } else {
                    let v = self.operand(mode, ops);
                    let ea = self.effective_address(mode, ops);
                    let (r, carry) = shift_value(m, v, c);
                    self.memory.write(ea, r);
                    self.flags.trig_c_if(carry);
                    self.set_nz(r);
                }
                self.pc = next;
            },
            _ => {},
        }
    }

    /// Flag operations.
    #[verifier::rlimit(50)]
    fn apply_flag(&mut self, ins: &Instruction, next: u16)
        requires
            ins.wf(),
            ins.opcode.fixed_mode() is Some ==> ins.opcode.fixed_mode() == Some(ins.addr_mod),
            next == next_pc(old(self)@, ins.addr_mod),
            matches!(ins.opcode, Mnemonic::Clc | Mnemonic::Cld | Mnemonic::Cli | Mnemonic::Clv | Mnemonic::Sec | Mnemonic::Sed | Mnemonic::Sei),
        ensures
            final(self)@ == effect(old(self)@, ins.opcode, ins.addr_mod, ins.operands@),
    {
        let mode = ins.addr_mod;
        let ops = &ins.operands;
        let m = ins.opcode;
        match m {
            Mnemonic::Clc => {
                self.flags.trig_c_if(false);
                self.pc = next;
            },
            Mnemonic::Cld => {
                self.flags.trig_d_if(false);
                self.pc = next;
            },
            Mnemonic::Cli => {
                self.flags.trig_i_if(false);
                self.pc = next;
            },
            Mnemonic::Clv => {
                self.flags.trig_v_if(false);
                self.pc = next;
            },
            Mnemonic::Sec => {
                self.flags.trig_c_if(true);
                self.pc = next;
            },
            Mnemonic::Sed => {
                self.flags.trig_d_if(true);
                self.pc = next;
            },
            Mnemonic::Sei => {
                self.flags.trig_i_if(true);
                self.pc = next;
            },
            _ => {},
        }
    }

    /// Stack, jumps, branches, interrupts and no-ops.
    #[verifier::rlimit(50)]
    fn apply_control(&mut self, ins: &Instruction, next: u16)
        requires
            ins.wf(),
            ins.opcode.fixed_mode() is Some ==> ins.opcode.fixed_mode() == Some(ins.addr_mod),
            next == next_pc(old(self)@, ins.addr_mod),
            matches!(ins.opcode, Mnemonic::Pha | Mnemonic::Php | Mnemonic::Pla | Mnemonic::Plp | Mnemonic::Jmp | Mnemonic::Jsr | Mnemonic::Rts | Mnemonic::Bcc | Mnemonic::Bcs | Mnemonic::Beq | Mnemonic::Bne | Mnemonic::Bmi | Mnemonic::Bpl | Mnemonic::Bvc | Mnemonic::Bvs | Mnemonic::Brk | Mnemonic::Rti | Mnemonic::Nop | Mnemonic::Ukn),
        ensures
            final(self)@ == effect(old(self)@, ins.opcode, ins.addr_mod, ins.operands@),
    {
        let mode = ins.addr_mod;
        let ops = &ins.operands;
        let m = ins.opcode;
        match m {
            Mnemonic::Pha => {
                let v = self.a;
                self.push_byte(v);
                self.pc = next;
            },
            Mnemonic::Php => {
                let status = Flags { b: true, ..self.flags }.to_byte();
                self.push_byte(status);
                self.pc = next;
            },
            Mnemonic::Pla => {
                let v = self.pull_byte();
                self.a = v;
                self.set_nz(v);
                self.pc = next;
            },
            Mnemonic::Plp => {
                let v = self.pull_byte();
                self.flags = Flags::from_byte(v);
                self.pc = next;
            },
            Mnemonic::Jmp => {
                self.pc = self.effective_address(mode, ops);
            },
            Mnemonic::Jsr => {
                let ret = ((self.pc as u32 + 2) % 0x10000) as u16;
                self.push_byte((ret / 256) as u8);
                self.push_byte((ret % 256) as u8);
                self.pc = make_word(ops[0], ops[1]);
            },
            Mnemonic::Rts => {
                let lo = self.pull_byte();
                let hi = self.pull_byte();
                self.pc = ((make_word(lo, hi) as u32 + 1) % 0x10000) as u16;
            },
            Mnemonic::Bcc | Mnemonic::Bcs | Mnemonic::Beq | Mnemonic::Bne | Mnemonic::Bmi
            | Mnemonic::Bpl | Mnemonic::Bvc | Mnemonic::Bvs => {
                if taken(m, self.flags) {
                    self.pc = relative_target(next, ops[0]);
                } else {
                    self.pc = next;
                }
            },
            Mnemonic::Brk => {
                let ret = ((self.pc as u32 + 2) % 0x10000) as u16;
                self.push_byte((ret / 256) as u8);
                self.push_byte((ret % 256) as u8);
                let status = Flags { b: true, ..self.flags }.to_byte();
                self.push_byte(status);
                self.flags.trig_b_if(true);
                self.flags.trig_i_if(true);
                let lo = self.memory.read(0xFFFE);
                let hi = self.memory.read(0xFFFF);
                self.pc = make_word(lo, hi);
            },
            Mnemonic::Rti => {
                let status = self.pull_byte();
                self.flags = Flags::from_byte(status);
                let lo = self.pull_byte();
                let hi = self.pull_byte();
                self.pc = make_word(lo, hi);
            },
            Mnemonic::Nop | Mnemonic::Ukn => {
                self.pc = next;
            },

            _ => {},
        }
    }

    /// Performs the effect of `ins`, leaving the cycle counter alone.
    fn apply(&mut self, ins: &Instruction, next: u16)
        requires
            ins.wf(),
            ins.opcode.fixed_mode() is Some ==> ins.opcode.fixed_mode() == Some(ins.addr_mod),
            next == next_pc(old(self)@, ins.addr_mod),
        ensures
            final(self)@ == effect(old(self)@, ins.opcode, ins.addr_mod, ins.operands@),
    {
        match ins.opcode {
            Mnemonic::Lda | Mnemonic::Ldx | Mnemonic::Ldy | Mnemonic::Sta | Mnemonic::Stx | Mnemonic::Sty | Mnemonic::Tax | Mnemonic::Tay | Mnemonic::Txa | Mnemonic::Tya | Mnemonic::Tsx | Mnemonic::Txs => self.apply_load_store(ins, next),
            Mnemonic::And | Mnemonic::Eor | Mnemonic::Ora | Mnemonic::Bit | Mnemonic::Adc | Mnemonic::Sbc | Mnemonic::Cmp | Mnemonic::Cpx | Mnemonic::Cpy => self.apply_logic_arith(ins, next),
            Mnemonic::Inc | Mnemonic::Dec | Mnemonic::Inx | Mnemonic::Iny | Mnemonic::Dex | Mnemonic::Dey => self.apply_inc_dec(ins, next),
            Mnemonic::Asl | Mnemonic::Lsr | Mnemonic::Rol | Mnemonic::Ror => self.apply_shift(ins, next),
            Mnemonic::Clc | Mnemonic::Cld | Mnemonic::Cli | Mnemonic::Clv | Mnemonic::Sec | Mnemonic::Sed | Mnemonic::Sei => self.apply_flag(ins, next),
            Mnemonic::Pha | Mnemonic::Php | Mnemonic::Pla | Mnemonic::Plp | Mnemonic::Jmp | Mnemonic::Jsr | Mnemonic::Rts | Mnemonic::Bcc | Mnemonic::Bcs | Mnemonic::Beq | Mnemonic::Bne | Mnemonic::Bmi | Mnemonic::Bpl | Mnemonic::Bvc | Mnemonic::Bvs | Mnemonic::Brk | Mnemonic::Rti | Mnemonic::Nop | Mnemonic::Ukn => self.apply_control(ins, next),
        }
    }

    /// Executes one decoded instruction and counts its cycles.
    fn execute(&mut self, ins: &Instruction, next: u16)
        requires
            ins.wf(),
            ins.opcode.fixed_mode() is Some ==> ins.opcode.fixed_mode() == Some(ins.addr_mod),
            next == next_pc(old(self)@, ins.addr_mod),
        ensures
            final(self)@ == execute(old(self)@, ins.opcode, ins.addr_mod, ins.operands@),
    {
        let spent = self.cost_of(ins, next);
        self.apply(ins, next);
        self.cyc = self.cyc.saturating_add(spent as u64);
    }

    /// Executes the instruction at the program counter, or reports why the
    /// engine is halted and changes nothing.
    pub fn step(&mut self) -> (r: StepResult)
        ensures
            r == step_result(old(self)@),
            final(self)@ == step_state(old(self)@),
    {
        if self.pc as usize >= self.rom.len() {
            proof {
                reveal(step_state);
            }
            return StepResult::OutOfBounds;
        }
        if !instruction_fits(&self.rom, self.pc as usize) {
            proof {
                reveal(step_state);
            }
            return StepResult::Truncated;
        }
        let (instr, next) = next_instruction(&self.rom, self.pc);
        proof {
            lemma_table_modes(self.rom@[self.pc as int]);
        }
        self.execute(&instr, next);
        proof {
            reveal(step_state);
        }
        StepResult::Executed
    }

    /// Steps until the engine halts or `max_steps` instructions have been
    /// executed; returns the number executed.
    pub fn run(&mut self, max_steps: u64) -> (r: u64)
        ensures
            r == run_count(old(self)@, max_steps as nat),
            final(self)@ == run_state(old(self)@, max_steps as nat),
            r < max_steps ==> halted(final(self)@),
    {
        let ghost start = self@;
        let mut k: u64 = 0;
        let mut stopped = false;
        while k < max_steps && !stopped
            invariant
                k <= max_steps,
                run_state(start, max_steps as nat) == run_state(self@, (max_steps - k) as nat),
                run_count(start, max_steps as nat) == k + run_count(self@, (max_steps - k) as nat),
                stopped ==> halted(self@),
            decreases (max_steps - k) as int + (if stopped {
                0int
            } else {
                1int
            }),
        {
            if self.is_halted() {
                stopped = true;
            } else {
                self.step();
                k = k + 1;
            }
        }
        k
    }
}

} // verus!
