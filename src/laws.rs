//! Laws that relate the operations of the engine to each other, proved over
//! the model that the operations' own contracts use.
use vstd::prelude::*;
use crate::addrmod::AddrMod;
use crate::assembler::{opcode_table, operands_at};
use crate::flags::Flags;
use crate::instructions::Mnemonic;
use crate::semantics::{
    CpuView, adc_decimal, execute, halted, power_on, sbc_decimal, step_result, step_state,
};

verus! {

/// `after` agrees with `before` on every flag that `affected` leaves out.
pub open spec fn kept_outside(before: Flags, after: Flags, affected: Flags) -> bool {
    &&& !affected.c ==> after.c == before.c
    &&& !affected.z ==> after.z == before.z
    &&& !affected.i ==> after.i == before.i
    &&& !affected.d ==> after.d == before.d
    &&& !affected.b ==> after.b == before.b
    &&& !affected.v ==> after.v == before.v
    &&& !affected.n ==> after.n == before.n
}

proof fn lemma_execute_keeps_unaffected(s: CpuView, m: Mnemonic, mode: AddrMod, ops: Seq<u8>)
    ensures
        kept_outside(s.flags, execute(s, m, mode, ops).flags, m.affected()),
{
    match m {
        Mnemonic::Lda => {},
        Mnemonic::Ldx => {},
        Mnemonic::Ldy => {},
        Mnemonic::Sta => {},
        Mnemonic::Stx => {},
        Mnemonic::Sty => {},
        Mnemonic::Tax => {},
        Mnemonic::Tay => {},
        Mnemonic::Txa => {},
        Mnemonic::Tya => {},
        Mnemonic::Tsx => {},
        Mnemonic::Txs => {},
        Mnemonic::Pha => {},
        Mnemonic::Php => {},
        Mnemonic::Pla => {},
        Mnemonic::Plp => {},
        Mnemonic::And => {},
        Mnemonic::Eor => {},
        Mnemonic::Ora => {},
        Mnemonic::Bit => {},
        Mnemonic::Adc => {},
        Mnemonic::Sbc => {},
        Mnemonic::Cmp => {},
        Mnemonic::Cpx => {},
        Mnemonic::Cpy => {},
        Mnemonic::Inc => {},
        Mnemonic::Inx => {},
        Mnemonic::Iny => {},
        Mnemonic::Dec => {},
        Mnemonic::Dex => {},
        Mnemonic::Dey => {},
        Mnemonic::Asl => {},
        Mnemonic::Lsr => {},
        Mnemonic::Rol => {},
        Mnemonic::Ror => {},
        Mnemonic::Jmp => {},
        Mnemonic::Jsr => {},
        Mnemonic::Rts => {},
        Mnemonic::Bcc => {},
        Mnemonic::Bcs => {},
        Mnemonic::Beq => {},
        Mnemonic::Bmi => {},
        Mnemonic::Bne => {},
        Mnemonic::Bpl => {},
        Mnemonic::Bvc => {},
        Mnemonic::Bvs => {},
        Mnemonic::Clc => {},
        Mnemonic::Cld => {},
        Mnemonic::Cli => {},
        Mnemonic::Clv => {},
        Mnemonic::Sec => {},
        Mnemonic::Sed => {},
        Mnemonic::Sei => {},
        Mnemonic::Brk => {},
        Mnemonic::Nop => {},
        Mnemonic::Rti => {},
        Mnemonic::Ukn => {},
    }
}

/// Executing an instruction leaves every flag outside the instruction's
/// declared affected set as it was.
pub proof fn step_keeps_unaffected_flags(s: CpuView)
    requires
        !halted(s),
    ensures
        kept_outside(s.flags, step_state(s).flags, opcode_table(s.rom[s.pc as int]).0.affected()),
{
    reveal(step_state);
    let (m, mode) = opcode_table(s.rom[s.pc as int]);
    lemma_execute_keeps_unaffected(s, m, mode, operands_at(s.rom, s.pc as int));
}

proof fn lemma_execute_keeps_stack_page(s: CpuView, m: Mnemonic, mode: AddrMod, ops: Seq<u8>)
    requires
        s.sp < 256,
    ensures
        execute(s, m, mode, ops).sp < 256,
        execute(s, m, mode, ops).cyc >= s.cyc,
{
    match m {
        Mnemonic::Lda => {},
        Mnemonic::Ldx => {},
        Mnemonic::Ldy => {},
        Mnemonic::Sta => {},
        Mnemonic::Stx => {},
        Mnemonic::Sty => {},
        Mnemonic::Tax => {},
        Mnemonic::Tay => {},
        Mnemonic::Txa => {},
        Mnemonic::Tya => {},
        Mnemonic::Tsx => {},
        Mnemonic::Txs => {},
        Mnemonic::Pha => {},
        Mnemonic::Php => {},
        Mnemonic::Pla => {},
        Mnemonic::Plp => {},
        Mnemonic::And => {},
        Mnemonic::Eor => {},
        Mnemonic::Ora => {},
        Mnemonic::Bit => {},
        Mnemonic::Adc => {},
        Mnemonic::Sbc => {},
        Mnemonic::Cmp => {},
        Mnemonic::Cpx => {},
        Mnemonic::Cpy => {},
        Mnemonic::Inc => {},
        Mnemonic::Inx => {},
        Mnemonic::Iny => {},
        Mnemonic::Dec => {},
        Mnemonic::Dex => {},
        Mnemonic::Dey => {},
        Mnemonic::Asl => {},
        Mnemonic::Lsr => {},
        Mnemonic::Rol => {},
        Mnemonic::Ror => {},
        Mnemonic::Jmp => {},
        Mnemonic::Jsr => {},
        Mnemonic::Rts => {},
        Mnemonic::Bcc => {},
        Mnemonic::Bcs => {},
        Mnemonic::Beq => {},
        Mnemonic::Bmi => {},
        Mnemonic::Bne => {},
        Mnemonic::Bpl => {},
        Mnemonic::Bvc => {},
        Mnemonic::Bvs => {},
        Mnemonic::Clc => {},
        Mnemonic::Cld => {},
        Mnemonic::Cli => {},
        Mnemonic::Clv => {},
        Mnemonic::Sec => {},
        Mnemonic::Sed => {},
        Mnemonic::Sei => {},
        Mnemonic::Brk => {},
        Mnemonic::Nop => {},
        Mnemonic::Rti => {},
        Mnemonic::Ukn => {},
    }
}

/// A step keeps the stack pointer an offset into the stack page, and never
/// lowers the cycle counter.
pub proof fn step_keeps_stack_page_and_counts_up(s: CpuView)
    requires
        s.sp < 256,
    ensures
        step_state(s).sp < 256,
        step_state(s).cyc >= s.cyc,
{
    reveal(step_state);
    if !halted(s) {
        let (m, mode) = opcode_table(s.rom[s.pc as int]);
        lemma_execute_keeps_stack_page(s, m, mode, operands_at(s.rom, s.pc as int));
    }
}

/// Stepping is deterministic: equal states report the same outcome and
/// step to equal states.
pub proof fn step_deterministic(s: CpuView, t: CpuView)
    requires
        s == t,
    ensures
        step_result(s) == step_result(t),
        step_state(s) == step_state(t),
{
}

/// Resetting twice leaves the state that resetting once leaves.
pub proof fn reset_idempotent(s: CpuView)
    ensures
        power_on(power_on(s.rom).rom) == power_on(s.rom),
{
}

/// Both nibbles of `v` are decimal digits.
pub open spec fn is_bcd(v: u8) -> bool {
    v % 16 <= 9 && v / 16 <= 9
}

/// The number 0 to 99 that a packed decimal byte stands for.
pub open spec fn bcd_value(v: u8) -> int {
    (v / 16) * 10 + v % 16
}

/// The packed decimal byte of a number 0 to 99.
pub open spec fn to_bcd(n: int) -> u8 {
    ((n / 10) * 16 + n % 10) as u8
}

/// In decimal mode, adding packed decimal operands adds their values with
/// the carry, modulo 100, and carries out exactly when the sum reaches 100.
pub proof fn decimal_add_is_decimal(a: u8, m: u8, c: int)
    requires
        is_bcd(a),
        is_bcd(m),
        c == 0 || c == 1,
    ensures
        adc_decimal(a, m, c) == (
            to_bcd((bcd_value(a) + bcd_value(m) + c) % 100),
            bcd_value(a) + bcd_value(m) + c >= 100,
        ),
{
    let lo0 = a % 16 + m % 16 + c;
    let lo_carry: int = if lo0 > 9 {
        1
    } else {
        0
    };
    let lo_digit = lo0 - 10 * lo_carry;
    let hi0 = a / 16 + m / 16 + lo_carry;
    let hi_carry: int = if hi0 > 9 {
        1
    } else {
        0
    };
    let hi_digit = hi0 - 10 * hi_carry;
    let total = bcd_value(a) + bcd_value(m) + c;
    assert(total == 100 * hi_carry + 10 * hi_digit + lo_digit);
    lemma_two_digits(total, hi_carry, hi_digit, lo_digit);
    let lo = if lo0 > 9 {
        lo0 + 6
    } else {
        lo0
    };
    assert(lo % 16 == lo_digit);
    let hi = if hi0 > 9 {
        hi0 + 6
    } else {
        hi0
    };
    assert(hi % 16 == hi_digit);
}

/// In decimal mode, subtracting packed decimal operands subtracts their
/// values and the borrow `1 - c`, modulo 100.
pub proof fn decimal_subtract_is_decimal(a: u8, m: u8, c: int)
    requires
        is_bcd(a),
        is_bcd(m),
        c == 0 || c == 1,
    ensures
        sbc_decimal(a, m, c) == to_bcd((bcd_value(a) - bcd_value(m) - (1 - c)) % 100),
{
    let lo0 = a % 16 - m % 16 - (1 - c);
    let lo_borrow: int = if lo0 < 0 {
        1
    } else {
        0
    };
    let lo_digit = lo0 + 10 * lo_borrow;
    let hi1 = a / 16 - m / 16 - lo_borrow;
    let hi_borrow: int = if hi1 < 0 {
        1
    } else {
        0
    };
    let hi_digit = hi1 + 10 * hi_borrow;
    let total = bcd_value(a) - bcd_value(m) - (1 - c);
    assert(total == -100 * hi_borrow + 10 * hi_digit + lo_digit);
    lemma_two_digits(total, -hi_borrow, hi_digit, lo_digit);
    let lo = if lo0 < 0 {
        lo0 - 6
    } else {
        lo0
    };
    assert(lo % 16 == lo_digit);
    let hi = if hi1 < 0 {
        hi1 - 6
    } else {
        hi1
    };
    assert(hi % 16 == hi_digit);
}

proof fn lemma_two_digits(n: int, k: int, hi: int, lo: int)
    requires
        n == 100 * k + 10 * hi + lo,
        0 <= hi <= 9,
        0 <= lo <= 9,
    ensures
        n % 100 == 10 * hi + lo,
        to_bcd(n % 100) == (hi * 16 + lo) as u8,
{
    vstd::arithmetic::div_mod::lemma_mod_multiples_vanish(k, 10 * hi + lo, 100);
    assert((10 * hi + lo) / 10 == hi);
    assert((10 * hi + lo) % 10 == lo);
}

} // verus!
