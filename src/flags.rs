//! The processor status register: seven independently stored flags.
use vstd::prelude::*;

verus! {

/// Carry, Zero, Interrupt-disable, Decimal, Break, Overflow and Negative.
/// Also used to name the set of flags an instruction is documented to affect.
#[derive(Debug, Clone, Copy, PartialEq, Eq, Structural)]
pub struct Flags {
    pub c: bool,
    pub z: bool,
    pub i: bool,
    pub d: bool,
    pub b: bool,
    pub v: bool,
    pub n: bool,
}

/// All seven flags clear.
pub open spec fn flags_clear() -> Flags {
    Flags { c: false, z: false, i: false, d: false, b: false, v: false, n: false }
}

/// All seven flags set.
pub open spec fn flags_all() -> Flags {
    Flags { c: true, z: true, i: true, d: true, b: true, v: true, n: true }
}

/// The flags whose letters occur in `letters` (other characters are ignored).
pub open spec fn flags_of_letters(letters: Seq<char>) -> Flags {
    Flags {
        c: letters.contains('C'),
        z: letters.contains('Z'),
        i: letters.contains('I'),
        d: letters.contains('D'),
        b: letters.contains('B'),
        v: letters.contains('V'),
        n: letters.contains('N'),
    }
}

pub open spec fn bit_value(set: bool, weight: int) -> int {
    if set {
        weight
    } else {
        0
    }
}

impl Flags {
    /// The status byte `NV1BDIZC`: bit 7 Negative down to bit 0 Carry, bit 5 always one.
    pub open spec fn status_byte(self) -> u8 {
        (bit_value(self.c, 1) + bit_value(self.z, 2) + bit_value(self.i, 4) + bit_value(self.d, 8)
            + bit_value(self.b, 16) + 32 + bit_value(self.v, 64) + bit_value(self.n, 128)) as u8
    }

    /// The flags read back from a status byte; bit 5 is ignored.
    pub open spec fn from_status_byte(v: u8) -> Flags {
        Flags {
            c: v % 2 == 1,
            z: (v / 2) % 2 == 1,
            i: (v / 4) % 2 == 1,
            d: (v / 8) % 2 == 1,
            b: (v / 16) % 2 == 1,
            v: (v / 64) % 2 == 1,
            n: v / 128 == 1,
        }
    }

    pub fn new() -> (r: Flags)
        ensures
            r == flags_clear(),
    {
        Flags { c: false, z: false, i: false, d: false, b: false, v: false, n: false }
    }

    /// The set of flags named by their letters `C Z I D B V N`.
    pub fn trigger(aflags: Vec<char>) -> (r: Flags)
        ensures
            r == flags_of_letters(aflags@),
    {
        let mut af = Flags::new();
        let mut k: usize = 0;
        while k < aflags.len()
            invariant
                k <= aflags@.len(),
                af == flags_of_letters(aflags@.subrange(0, k as int)),
            decreases aflags@.len() - k,
        {
            let flag = aflags[k];
            proof {
                let prefix = aflags@.subrange(0, k as int);
                let next = aflags@.subrange(0, k + 1);
                assert(next == prefix.push(flag));
                assert forall|ch: char| next.contains(ch) <==> (prefix.contains(ch) || ch == flag) by {
                    if next.contains(ch) && !(ch == flag) {
                        let j = choose|j: int| 0 <= j < next.len() && next[j] == ch;
                        assert(prefix[j] == ch);
                    }
                    if prefix.contains(ch) {
                        let j = choose|j: int| 0 <= j < prefix.len() && prefix[j] == ch;
                        assert(next[j] == ch);
                    }
                    if ch == flag {
                        assert(next[k as int] == ch);
                    }
                }
            }
            match flag {
                'C' => af.c = true,
                'Z' => af.z = true,
                'I' => af.i = true,
                'D' => af.d = true,
                'B' => af.b = true,
                'V' => af.v = true,
                'N' => af.n = true,
                _ => (),
            }
            k = k + 1;
        }
        assert(aflags@.subrange(0, aflags@.len() as int) == aflags@);
        af
    }

    pub fn trigger_all() -> (r: Flags)
        ensures
            r == flags_all(),
    {
        Flags { c: true, z: true, i: true, d: true, b: true, v: true, n: true }
    }

    pub fn trig_c_if(&mut self, condition: bool)
        ensures
            *final(self) == (Flags { c: condition, ..*old(self) }),
    {
        if condition {
            self.c = true;
        } else {
            self.c = false;
        }
    }

    pub fn trig_z_if(&mut self, condition: bool)
        ensures
            *final(self) == (Flags { z: condition, ..*old(self) }),
    {
        if condition {
            self.z = true;
        } else {
            self.z = false;
        }
    }

    pub fn trig_i_if(&mut self, condition: bool)
        ensures
            *final(self) == (Flags { i: condition, ..*old(self) }),
    {
        if condition {
            self.i = true;
        } else {
            self.i = false;
        }
    }

    pub fn trig_d_if(&mut self, condition: bool)
        ensures
            *final(self) == (Flags { d: condition, ..*old(self) }),
    {
        if condition {
            self.d = true;
        } else {
            self.d = false;
        }
    }

    pub fn trig_b_if(&mut self, condition: bool)
        ensures
            *final(self) == (Flags { b: condition, ..*old(self) }),
    {
        if condition {
            self.b = true;
        } else {
            self.b = false;
        }
    }

    pub fn trig_v_if(&mut self, condition: bool)
        ensures
            *final(self) == (Flags { v: condition, ..*old(self) }),
    {
        if condition {
            self.v = true;
        } else {
            self.v = false;
        }
    }

    pub fn trig_n_if(&mut self, condition: bool)
        ensures
            *final(self) == (Flags { n: condition, ..*old(self) }),
    {
        if condition {
            self.n = true;
        } else {
            self.n = false;
        }
    }

    /// Packs the flags into the status byte pushed by `PHP` and `BRK`.
    pub fn to_byte(&self) -> (r: u8)
        ensures
            r == self.status_byte(),
    {
        let mut r: u8 = 32;
        if self.c {
            r = r + 1;
        }
        if self.z {
            r = r + 2;
        }
        if self.i {
            r = r + 4;
        }
        if self.d {
            r = r + 8;
        }
        if self.b {
            r = r + 16;
        }
        if self.v {
            r = r + 64;
        }
        if self.n {
            r = r + 128;
        }
        r
    }

    /// Unpacks a status byte pulled by `PLP` and `RTI`.
    pub fn from_byte(v: u8) -> (r: Flags)
        ensures
            r == Flags::from_status_byte(v),
    {
        Flags {
            c: v % 2 == 1,
            z: (v / 2) % 2 == 1,
            i: (v / 4) % 2 == 1,
            d: (v / 8) % 2 == 1,
            b: (v / 16) % 2 == 1,
            v: (v / 64) % 2 == 1,
            n: v / 128 == 1,
        }
    }
}

} // verus!
