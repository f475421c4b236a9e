//! Addressing modes: how an instruction locates its operand.
use vstd::prelude::*;

verus! {

/// The addressing mode of an instruction. `Unknown` stands for "no instruction
/// could be decoded" and has zero length.
#[derive(Debug, Clone, Copy, PartialEq, Eq, Structural)]
pub enum AddrMod {
    Unknown,
    Implied,
    Accumulator,
    Immediate,
    ZeroPage,
    ZeroPageX,
    ZeroPageY,
    Relative,
    IndirectX,
    IndirectY,
    Indirect,
    Absolute,
    AbsoluteX,
    AbsoluteY,
}

impl AddrMod {
    /// Total length in bytes (opcode and operands) of an instruction in this mode.
    pub open spec fn len_spec(self) -> nat {
        match self {
            AddrMod::Unknown => 0,
            AddrMod::Implied | AddrMod::Accumulator => 1,
            AddrMod::Immediate | AddrMod::ZeroPage | AddrMod::ZeroPageX | AddrMod::ZeroPageY
            | AddrMod::Relative | AddrMod::IndirectX | AddrMod::IndirectY => 2,
            AddrMod::Indirect | AddrMod::Absolute | AddrMod::AbsoluteX | AddrMod::AbsoluteY => 3,
        }
    }

    /// Number of operand bytes that follow the opcode.
    pub open spec fn operand_count(self) -> nat {
        if self.len_spec() == 0 {
            0
        } else {
            (self.len_spec() - 1) as nat
        }
    }

    /// The text put in front of a rendered operand.
    pub open spec fn indicator_spec(self) -> Seq<char> {
        match self {
            AddrMod::Immediate => seq!['#'],
            _ => Seq::empty(),
        }
    }

    pub fn bytes(&self) -> (r: usize)
        ensures
            r == self.len_spec(),
    {
        match self {
            AddrMod::Unknown => 0,
            AddrMod::Implied => 1,
            AddrMod::Accumulator => 1,
            AddrMod::Immediate => 2,
            AddrMod::ZeroPage => 2,
            AddrMod::ZeroPageX => 2,
            AddrMod::ZeroPageY => 2,
            AddrMod::Relative => 2,
            AddrMod::IndirectX => 2,
            AddrMod::IndirectY => 2,
            AddrMod::Indirect => 3,
            AddrMod::Absolute => 3,
            AddrMod::AbsoluteX => 3,
            AddrMod::AbsoluteY => 3,
        }
    }

    pub fn indicator(&self) -> (r: String)
        ensures
            r@ == self.indicator_spec(),
    {
        let r = match self {
            AddrMod::Immediate => "#".to_string(),
            _ => String::new(),
        };
        proof {
            reveal_strlit("#");
        }
        r
    }
}

} // verus!
