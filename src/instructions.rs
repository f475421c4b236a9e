//! Decoded instructions and the static facts about each operation: its
//! category, description, the flags it affects and its cycle cost.
use vstd::prelude::*;
use crate::addrmod::AddrMod;
use crate::flags::{Flags, flags_all, flags_clear};
use crate::opcat::OpCat;

verus! {

/// The symbolic operation names of the processor; `Ukn` marks an opcode
/// byte with no legal encoding.
#[derive(Debug, Clone, Copy, PartialEq, Eq, Structural)]
pub enum Mnemonic {
    Lda,
    Ldx,
    Ldy,
    Sta,
    Stx,
    Sty,
    Tax,
    Tay,
    Txa,
    Tya,
    Tsx,
    Txs,
    Pha,
    Php,
    Pla,
    Plp,
    And,
    Eor,
    Ora,
    Bit,
    Adc,
    Sbc,
    Cmp,
    Cpx,
    Cpy,
    Inc,
    Inx,
    Iny,
    Dec,
    Dex,
    Dey,
    Asl,
    Lsr,
    Rol,
    Ror,
    Jmp,
    Jsr,
    Rts,
    Bcc,
    Bcs,
    Beq,
    Bmi,
    Bne,
    Bpl,
    Bvc,
    Bvs,
    Clc,
    Cld,
    Cli,
    Clv,
    Sec,
    Sed,
    Sei,
    Brk,
    Nop,
    Rti,
    Ukn,
}

impl Mnemonic {
    /// The three-letter name used by the disassembler.
    pub open spec fn text(self) -> Seq<char> {
        match self {
            Mnemonic::Lda => "LDA"@,
            Mnemonic::Ldx => "LDX"@,
            Mnemonic::Ldy => "LDY"@,
            Mnemonic::Sta => "STA"@,
            Mnemonic::Stx => "STX"@,
            Mnemonic::Sty => "STY"@,
            Mnemonic::Tax => "TAX"@,
            Mnemonic::Tay => "TAY"@,
            Mnemonic::Txa => "TXA"@,
            Mnemonic::Tya => "TYA"@,
            Mnemonic::Tsx => "TSX"@,
            Mnemonic::Txs => "TXS"@,
            Mnemonic::Pha => "PHA"@,
            Mnemonic::Php => "PHP"@,
            Mnemonic::Pla => "PLA"@,
            Mnemonic::Plp => "PLP"@,
            Mnemonic::And => "AND"@,
            Mnemonic::Eor => "EOR"@,
            Mnemonic::Ora => "ORA"@,
            Mnemonic::Bit => "BIT"@,
            Mnemonic::Adc => "ADC"@,
            Mnemonic::Sbc => "SBC"@,
            Mnemonic::Cmp => "CMP"@,
            Mnemonic::Cpx => "CPX"@,
            Mnemonic::Cpy => "CPY"@,
            Mnemonic::Inc => "INC"@,
            Mnemonic::Inx => "INX"@,
            Mnemonic::Iny => "INY"@,
            Mnemonic::Dec => "DEC"@,
            Mnemonic::Dex => "DEX"@,
            Mnemonic::Dey => "DEY"@,
            Mnemonic::Asl => "ASL"@,
            Mnemonic::Lsr => "LSR"@,
            Mnemonic::Rol => "ROL"@,
            Mnemonic::Ror => "ROR"@,
            Mnemonic::Jmp => "JMP"@,
            Mnemonic::Jsr => "JSR"@,
            Mnemonic::Rts => "RTS"@,
            Mnemonic::Bcc => "BCC"@,
            Mnemonic::Bcs => "BCS"@,
            Mnemonic::Beq => "BEQ"@,
            Mnemonic::Bmi => "BMI"@,
            Mnemonic::Bne => "BNE"@,
            Mnemonic::Bpl => "BPL"@,
            Mnemonic::Bvc => "BVC"@,
            Mnemonic::Bvs => "BVS"@,
            Mnemonic::Clc => "CLC"@,
            Mnemonic::Cld => "CLD"@,
            Mnemonic::Cli => "CLI"@,
            Mnemonic::Clv => "CLV"@,
            Mnemonic::Sec => "SEC"@,
            Mnemonic::Sed => "SED"@,
            Mnemonic::Sei => "SEI"@,
            Mnemonic::Brk => "BRK"@,
            Mnemonic::Nop => "NOP"@,
            Mnemonic::Rti => "RTI"@,
            Mnemonic::Ukn => "UKN"@,
        }
    }

    /// The category each operation belongs to.
    pub open spec fn category(self) -> OpCat {
        match self {
            Mnemonic::Lda => OpCat::LoadStore,
            Mnemonic::Ldx => OpCat::LoadStore,
            Mnemonic::Ldy => OpCat::LoadStore,
            Mnemonic::Sta => OpCat::LoadStore,
            Mnemonic::Stx => OpCat::LoadStore,
            Mnemonic::Sty => OpCat::LoadStore,
            Mnemonic::Tax => OpCat::Register,
            Mnemonic::Tay => OpCat::Register,
            Mnemonic::Txa => OpCat::Register,
            Mnemonic::Tya => OpCat::Register,
            Mnemonic::Tsx => OpCat::Stack,
            Mnemonic::Txs => OpCat::Stack,
            Mnemonic::Pha => OpCat::Stack,
            Mnemonic::Php => OpCat::Stack,
            Mnemonic::Pla => OpCat::Stack,
            Mnemonic::Plp => OpCat::Stack,
            Mnemonic::And => OpCat::Logical,
            Mnemonic::Eor => OpCat::Logical,
            Mnemonic::Ora => OpCat::Logical,
            Mnemonic::Bit => OpCat::Logical,
            Mnemonic::Adc => OpCat::Arithmetic,
            Mnemonic::Sbc => OpCat::Arithmetic,
            Mnemonic::Cmp => OpCat::Arithmetic,
            Mnemonic::Cpx => OpCat::Arithmetic,
            Mnemonic::Cpy => OpCat::Arithmetic,
            Mnemonic::Inc => OpCat::IncDec,
            Mnemonic::Inx => OpCat::IncDec,
            Mnemonic::Iny => OpCat::IncDec,
            Mnemonic::Dec => OpCat::IncDec,
            Mnemonic::Dex => OpCat::IncDec,
            Mnemonic::Dey => OpCat::IncDec,
            Mnemonic::Asl => OpCat::Shifts,
            Mnemonic::Lsr => OpCat::Shifts,
            Mnemonic::Rol => OpCat::Shifts,
            Mnemonic::Ror => OpCat::Shifts,
            Mnemonic::Jmp => OpCat::JumpCall,
            Mnemonic::Jsr => OpCat::JumpCall,
            Mnemonic::Rts => OpCat::JumpCall,
            Mnemonic::Bcc => OpCat::Branch,
            Mnemonic::Bcs => OpCat::Branch,
            Mnemonic::Beq => OpCat::Branch,
            Mnemonic::Bmi => OpCat::Branch,
            Mnemonic::Bne => OpCat::Branch,
            Mnemonic::Bpl => OpCat::Branch,
            Mnemonic::Bvc => OpCat::Branch,
            Mnemonic::Bvs => OpCat::Branch,
            Mnemonic::Clc => OpCat::StatusCtrl,
            Mnemonic::Cld => OpCat::StatusCtrl,
            Mnemonic::Cli => OpCat::StatusCtrl,
            Mnemonic::Clv => OpCat::StatusCtrl,
            Mnemonic::Sec => OpCat::StatusCtrl,
            Mnemonic::Sed => OpCat::StatusCtrl,
            Mnemonic::Sei => OpCat::StatusCtrl,
            Mnemonic::Brk => OpCat::StatusCtrl,
            Mnemonic::Nop => OpCat::StatusCtrl,
            Mnemonic::Rti => OpCat::StatusCtrl,
            Mnemonic::Ukn => OpCat::Unimpl,
        }
    }

    /// The human-readable description of each operation.
    pub open spec fn description(self) -> Seq<char> {
        match self {
            Mnemonic::Lda => "Load Accumulator"@,
            Mnemonic::Ldx => "Load X Register"@,
            Mnemonic::Ldy => "Load Y Register"@,
            Mnemonic::Sta => "Store Accumulator"@,
            Mnemonic::Stx => "Store X Register"@,
            Mnemonic::Sty => "Store Y Register"@,
            Mnemonic::Tax => "Transfer Accumulator to X"@,
            Mnemonic::Tay => "Transfer Accumulator to Y"@,
            Mnemonic::Txa => "Transfer X to Accumulator"@,
            Mnemonic::Tya => "Transfer Y to Accumulator"@,
            Mnemonic::Tsx => "Transfer Stack Pointer to X"@,
            Mnemonic::Txs => "Transfer X to Stack Pointer"@,
            Mnemonic::Pha => "Push Accumulator on Stack"@,
            Mnemonic::Php => "Push Processor Status on Stack"@,
            Mnemonic::Pla => "Pull Accumulator from Stack"@,
            Mnemonic::Plp => "Pull Processor Status from Stack"@,
            Mnemonic::And => "Logical AND"@,
            Mnemonic::Eor => "Logical Exclusive OR"@,
            Mnemonic::Ora => "Logical Inclusive OR"@,
            Mnemonic::Bit => "Bit Test"@,
            Mnemonic::Adc => "Add with Carry"@,
            Mnemonic::Sbc => "Subtract with Carry"@,
            Mnemonic::Cmp => "Compare Accumulator"@,
            Mnemonic::Cpx => "Compare X Register"@,
            Mnemonic::Cpy => "Compare Y Register"@,
            Mnemonic::Inc => "Increment Memory Location"@,
            Mnemonic::Inx => "Increment X Register"@,
            Mnemonic::Iny => "Increment Y Register"@,
            Mnemonic::Dec => "Decrement Memory Location"@,
            Mnemonic::Dex => "Decrement X Register"@,
            Mnemonic::Dey => "Decrement Y Register"@,
            Mnemonic::Asl => "Arithmetic Shift Left"@,
            Mnemonic::Lsr => "Logical Shift Right"@,
            Mnemonic::Rol => "Rotate Left"@,
            Mnemonic::Ror => "Rotate Right"@,
            Mnemonic::Jmp => "Jump to New Location"@,
            Mnemonic::Jsr => "Jump to New Location Saving Return Address"@,
            Mnemonic::Rts => "Return from Subroutine"@,
            Mnemonic::Bcc => "Branch if Carry Clear"@,
            Mnemonic::Bcs => "Branch if Carry Set"@,
            Mnemonic::Beq => "Branch if Zero Set"@,
            Mnemonic::Bmi => "Branch if Negative Set"@,
            Mnemonic::Bne => "Branch if Zero Clear"@,
            Mnemonic::Bpl => "Branch if Negative Clear"@,
            Mnemonic::Bvc => "Branch if Overflow Clear"@,
            Mnemonic::Bvs => "Branch if Overflow Set"@,
            Mnemonic::Clc => "Clear Carry Flag"@,
            Mnemonic::Cld => "Clear Decimal Mode"@,
            Mnemonic::Cli => "Clear Interrupt Disable Bit"@,
            Mnemonic::Clv => "Clear Overflow Flag"@,
            Mnemonic::Sec => "Set Carry Flag"@,
            Mnemonic::Sed => "Set Decimal Mode"@,
            Mnemonic::Sei => "Set Interrupt Disable"@,
            Mnemonic::Brk => "Force an Interrupt"@,
            Mnemonic::Nop => "No Operation"@,
            Mnemonic::Rti => "Return from Interrupt"@,
            Mnemonic::Ukn => "UNKNOWN"@,
        }
    }

    /// The flags each operation is documented to affect.
    pub open spec fn affected(self) -> Flags {
        match self {
            Mnemonic::Lda => Flags { c: false, z: true, i: false, d: false, b: false, v: false, n: true },
            Mnemonic::Ldx => Flags { c: false, z: true, i: false, d: false, b: false, v: false, n: true },
            Mnemonic::Ldy => Flags { c: false, z: true, i: false, d: false, b: false, v: false, n: true },
            Mnemonic::Sta => flags_clear(),
            Mnemonic::Stx => flags_clear(),
            Mnemonic::Sty => flags_clear(),
            Mnemonic::Tax => Flags { c: false, z: true, i: false, d: false, b: false, v: false, n: true },
            Mnemonic::Tay => Flags { c: false, z: true, i: false, d: false, b: false, v: false, n: true },
            Mnemonic::Txa => Flags { c: false, z: true, i: false, d: false, b: false, v: false, n: true },
            Mnemonic::Tya => Flags { c: false, z: true, i: false, d: false, b: false, v: false, n: true },
            Mnemonic::Tsx => Flags { c: false, z: true, i: false, d: false, b: false, v: false, n: true },
            Mnemonic::Txs => flags_clear(),
            Mnemonic::Pha => flags_clear(),
            Mnemonic::Php => flags_clear(),
            Mnemonic::Pla => Flags { c: false, z: true, i: false, d: false, b: false, v: false, n: true },
            Mnemonic::Plp => flags_all(),
            Mnemonic::And => Flags { c: false, z: true, i: false, d: false, b: false, v: false, n: true },
            Mnemonic::Eor => Flags { c: false, z: true, i: false, d: false, b: false, v: false, n: true },
            Mnemonic::Ora => Flags { c: false, z: true, i: false, d: false, b: false, v: false, n: true },
            Mnemonic::Bit => Flags { c: false, z: true, i: false, d: false, b: false, v: true, n: true },
            Mnemonic::Adc => Flags { c: true, z: true, i: false, d: false, b: false, v: true, n: true },
            Mnemonic::Sbc => Flags { c: true, z: true, i: false, d: false, b: false, v: true, n: true },
            Mnemonic::Cmp => Flags { c: true, z: true, i: false, d: false, b: false, v: false, n: true },
            Mnemonic::Cpx => Flags { c: true, z: true, i: false, d: false, b: false, v: false, n: true },
            Mnemonic::Cpy => Flags { c: true, z: true, i: false, d: false, b: false, v: false, n: true },
            Mnemonic::Inc => Flags { c: false, z: true, i: false, d: false, b: false, v: false, n: true },
            Mnemonic::Inx => Flags { c: false, z: true, i: false, d: false, b: false, v: false, n: true },
            Mnemonic::Iny => Flags { c: false, z: true, i: false, d: false, b: false, v: false, n: true },
            Mnemonic::Dec => Flags { c: false, z: true, i: false, d: false, b: false, v: false, n: true },
            Mnemonic::Dex => Flags { c: false, z: true, i: false, d: false, b: false, v: false, n: true },
            Mnemonic::Dey => Flags { c: false, z: true, i: false, d: false, b: false, v: false, n: true },
            Mnemonic::Asl => Flags { c: true, z: true, i: false, d: false, b: false, v: false, n: true },
            Mnemonic::Lsr => Flags { c: true, z: true, i: false, d: false, b: false, v: false, n: true },
            Mnemonic::Rol => Flags { c: true, z: true, i: false, d: false, b: false, v: false, n: true },
            Mnemonic::Ror => Flags { c: true, z: true, i: false, d: false, b: false, v: false, n: true },
            Mnemonic::Jmp => flags_clear(),
            Mnemonic::Jsr => flags_clear(),
            Mnemonic::Rts => flags_clear(),
            Mnemonic::Bcc => flags_clear(),
            Mnemonic::Bcs => flags_clear(),
            Mnemonic::Beq => flags_clear(),
            Mnemonic::Bmi => flags_clear(),
            Mnemonic::Bne => flags_clear(),
            Mnemonic::Bpl => flags_clear(),
            Mnemonic::Bvc => flags_clear(),
            Mnemonic::Bvs => flags_clear(),
            Mnemonic::Clc => Flags { c: true, z: false, i: false, d: false, b: false, v: false, n: false },
            Mnemonic::Cld => Flags { c: false, z: false, i: false, d: true, b: false, v: false, n: false },
            Mnemonic::Cli => Flags { c: false, z: false, i: true, d: false, b: false, v: false, n: false },
            Mnemonic::Clv => Flags { c: false, z: false, i: false, d: false, b: false, v: true, n: false },
            Mnemonic::Sec => Flags { c: true, z: false, i: false, d: false, b: false, v: false, n: false },
            Mnemonic::Sed => Flags { c: false, z: false, i: false, d: true, b: false, v: false, n: false },
            Mnemonic::Sei => Flags { c: false, z: false, i: true, d: false, b: false, v: false, n: false },
            Mnemonic::Brk => Flags { c: false, z: false, i: true, d: false, b: true, v: false, n: false },
            Mnemonic::Nop => flags_clear(),
            Mnemonic::Rti => flags_all(),
            Mnemonic::Ukn => flags_clear(),
        }
    }

    /// The addressing mode that an operation always has, where it has only one.
    pub open spec fn fixed_mode(self) -> Option<AddrMod> {
        match self {
            Mnemonic::Tax => Some(AddrMod::Implied),
            Mnemonic::Tay => Some(AddrMod::Implied),
            Mnemonic::Txa => Some(AddrMod::Implied),
            Mnemonic::Tya => Some(AddrMod::Implied),
            Mnemonic::Tsx => Some(AddrMod::Implied),
            Mnemonic::Txs => Some(AddrMod::Implied),
            Mnemonic::Pha => Some(AddrMod::Implied),
            Mnemonic::Php => Some(AddrMod::Implied),
            Mnemonic::Pla => Some(AddrMod::Implied),
            Mnemonic::Plp => Some(AddrMod::Implied),
            Mnemonic::Inx => Some(AddrMod::Implied),
            Mnemonic::Iny => Some(AddrMod::Implied),
            Mnemonic::Dex => Some(AddrMod::Implied),
            Mnemonic::Dey => Some(AddrMod::Implied),
            Mnemonic::Jsr => Some(AddrMod::Absolute),
            Mnemonic::Rts => Some(AddrMod::Implied),
            Mnemonic::Bcc => Some(AddrMod::Relative),
            Mnemonic::Bcs => Some(AddrMod::Relative),
            Mnemonic::Beq => Some(AddrMod::Relative),
            Mnemonic::Bmi => Some(AddrMod::Relative),
            Mnemonic::Bne => Some(AddrMod::Relative),
            Mnemonic::Bpl => Some(AddrMod::Relative),
            Mnemonic::Bvc => Some(AddrMod::Relative),
            Mnemonic::Bvs => Some(AddrMod::Relative),
            Mnemonic::Clc => Some(AddrMod::Implied),
            Mnemonic::Cld => Some(AddrMod::Implied),
            Mnemonic::Cli => Some(AddrMod::Implied),
            Mnemonic::Clv => Some(AddrMod::Implied),
            Mnemonic::Sec => Some(AddrMod::Implied),
            Mnemonic::Sed => Some(AddrMod::Implied),
            Mnemonic::Sei => Some(AddrMod::Implied),
            Mnemonic::Brk => Some(AddrMod::Implied),
            Mnemonic::Nop => Some(AddrMod::Implied),
            Mnemonic::Rti => Some(AddrMod::Implied),
            Mnemonic::Ukn => Some(AddrMod::Unknown),
            _ => Option::None,
        }
    }

    /// The documented cycle cost of an operation in a mode, before the extra
    /// cycles of a crossed page or a taken branch.
    pub open spec fn base_cycles(self, mode: AddrMod) -> nat {
        match self {
            Mnemonic::Sta => match mode {
                AddrMod::ZeroPage => 3,
                AddrMod::ZeroPageX | AddrMod::ZeroPageY | AddrMod::Absolute => 4,
                AddrMod::AbsoluteX | AddrMod::AbsoluteY => 5,
                _ => 6,
            },
            Mnemonic::Stx | Mnemonic::Sty => match mode {
                AddrMod::ZeroPage => 3,
                _ => 4,
            },
            Mnemonic::Asl | Mnemonic::Lsr | Mnemonic::Rol | Mnemonic::Ror | Mnemonic::Inc
            | Mnemonic::Dec => match mode {
                AddrMod::Accumulator => 2,
                AddrMod::ZeroPage => 5,
                AddrMod::ZeroPageX | AddrMod::Absolute => 6,
                _ => 7,
            },
            Mnemonic::Lda | Mnemonic::Ldx | Mnemonic::Ldy | Mnemonic::And | Mnemonic::Eor
            | Mnemonic::Ora | Mnemonic::Bit | Mnemonic::Adc | Mnemonic::Sbc | Mnemonic::Cmp
            | Mnemonic::Cpx | Mnemonic::Cpy => match mode {
                AddrMod::ZeroPage => 3,
                AddrMod::ZeroPageX | AddrMod::ZeroPageY | AddrMod::Absolute | AddrMod::AbsoluteX
                | AddrMod::AbsoluteY => 4,
                AddrMod::IndirectX => 6,
                AddrMod::IndirectY => 5,
                _ => 2,
            },
            Mnemonic::Jmp => match mode {
                AddrMod::Absolute => 3,
                _ => 5,
            },
            Mnemonic::Jsr | Mnemonic::Rts | Mnemonic::Rti => 6,
            Mnemonic::Brk => 7,
            Mnemonic::Pha | Mnemonic::Php => 3,
            Mnemonic::Pla | Mnemonic::Plp => 4,
            Mnemonic::Ukn => 0,
            _ => 2,
        }
    }

    pub fn name(&self) -> (r: String)
        ensures
            r@ == self.text(),
    {
        let s = match self {
            Mnemonic::Lda => "LDA",
            Mnemonic::Ldx => "LDX",
            Mnemonic::Ldy => "LDY",
            Mnemonic::Sta => "STA",
            Mnemonic::Stx => "STX",
            Mnemonic::Sty => "STY",
            Mnemonic::Tax => "TAX",
            Mnemonic::Tay => "TAY",
            Mnemonic::Txa => "TXA",
            Mnemonic::Tya => "TYA",
            Mnemonic::Tsx => "TSX",
            Mnemonic::Txs => "TXS",
            Mnemonic::Pha => "PHA",
            Mnemonic::Php => "PHP",
            Mnemonic::Pla => "PLA",
            Mnemonic::Plp => "PLP",
            Mnemonic::And => "AND",
            Mnemonic::Eor => "EOR",
            Mnemonic::Ora => "ORA",
            Mnemonic::Bit => "BIT",
            Mnemonic::Adc => "ADC",
            Mnemonic::Sbc => "SBC",
            Mnemonic::Cmp => "CMP",
            Mnemonic::Cpx => "CPX",
            Mnemonic::Cpy => "CPY",
            Mnemonic::Inc => "INC",
            Mnemonic::Inx => "INX",
            Mnemonic::Iny => "INY",
            Mnemonic::Dec => "DEC",
            Mnemonic::Dex => "DEX",
            Mnemonic::Dey => "DEY",
            Mnemonic::Asl => "ASL",
            Mnemonic::Lsr => "LSR",
            Mnemonic::Rol => "ROL",
            Mnemonic::Ror => "ROR",
            Mnemonic::Jmp => "JMP",
            Mnemonic::Jsr => "JSR",
            Mnemonic::Rts => "RTS",
            Mnemonic::Bcc => "BCC",
            Mnemonic::Bcs => "BCS",
            Mnemonic::Beq => "BEQ",
            Mnemonic::Bmi => "BMI",
            Mnemonic::Bne => "BNE",
            Mnemonic::Bpl => "BPL",
            Mnemonic::Bvc => "BVC",
            Mnemonic::Bvs => "BVS",
            Mnemonic::Clc => "CLC",
            Mnemonic::Cld => "CLD",
            Mnemonic::Cli => "CLI",
            Mnemonic::Clv => "CLV",
            Mnemonic::Sec => "SEC",
            Mnemonic::Sed => "SED",
            Mnemonic::Sei => "SEI",
            Mnemonic::Brk => "BRK",
            Mnemonic::Nop => "NOP",
            Mnemonic::Rti => "RTI",
            Mnemonic::Ukn => "UKN",
        };
        s.to_string()
    }
}

/// A decoded instruction: operation, operand bytes, category, addressing
/// mode, description and the set of flags it is documented to affect.
#[derive(Debug)]
pub struct Instruction {
    pub opcode: Mnemonic,
    pub operands: Vec<u8>,
    pub op_cat: OpCat,
    pub addr_mod: AddrMod,
    pub desc: String,
    pub aflags: Flags,
}

impl Instruction {
    /// Category, description and affected flags are those of the operation.
    pub open spec fn has_metadata(&self) -> bool {
        &&& self.op_cat == self.opcode.category()
        &&& self.desc@ == self.opcode.description()
        &&& self.aflags == self.opcode.affected()
    }

    /// A well-formed instruction: its metadata are those of its operation and
    /// it holds as many operand bytes as its addressing mode calls for.
    pub open spec fn wf(&self) -> bool {
        &&& self.has_metadata()
        &&& self.operands@.len() == self.addr_mod.operand_count()
    }

    pub fn new(
        opcode: Mnemonic,
        operands: Vec<u8>,
        op_cat: OpCat,
        addr_mod: AddrMod,
        desc: String,
        aflags: Flags,
    ) -> (r: Instruction)
        ensures
            r.opcode == opcode,
            r.operands@ == operands@,
            r.op_cat == op_cat,
            r.addr_mod == addr_mod,
            r.desc@ == desc@,
            r.aflags == aflags,
    {
        Instruction { opcode, operands, op_cat, addr_mod, desc, aflags }
    }

    /// The documented cycle cost of the instruction, without page-crossing or
    /// taken-branch extras.
    pub fn cycles(&self) -> (r: u8)
        ensures
            r == self.opcode.base_cycles(self.addr_mod),
    {
        match self.opcode {
            Mnemonic::Sta => match self.addr_mod {
                AddrMod::ZeroPage => 3,
                AddrMod::ZeroPageX | AddrMod::ZeroPageY | AddrMod::Absolute => 4,
                AddrMod::AbsoluteX | AddrMod::AbsoluteY => 5,
                _ => 6,
            },
            Mnemonic::Stx | Mnemonic::Sty => match self.addr_mod {
                AddrMod::ZeroPage => 3,
                _ => 4,
            },
            Mnemonic::Asl | Mnemonic::Lsr | Mnemonic::Rol | Mnemonic::Ror | Mnemonic::Inc
            | Mnemonic::Dec => match self.addr_mod {
                AddrMod::Accumulator => 2,
                AddrMod::ZeroPage => 5,
                AddrMod::ZeroPageX | AddrMod::Absolute => 6,
                _ => 7,
            },
            Mnemonic::Lda | Mnemonic::Ldx | Mnemonic::Ldy | Mnemonic::And | Mnemonic::Eor
            | Mnemonic::Ora | Mnemonic::Bit | Mnemonic::Adc | Mnemonic::Sbc | Mnemonic::Cmp
            | Mnemonic::Cpx | Mnemonic::Cpy => match self.addr_mod {
                AddrMod::ZeroPage => 3,
                AddrMod::ZeroPageX | AddrMod::ZeroPageY | AddrMod::Absolute | AddrMod::AbsoluteX
                | AddrMod::AbsoluteY => 4,
                AddrMod::IndirectX => 6,
                AddrMod::IndirectY => 5,
                _ => 2,
            },
            Mnemonic::Jmp => match self.addr_mod {
                AddrMod::Absolute => 3,
                _ => 5,
            },
            Mnemonic::Jsr | Mnemonic::Rts | Mnemonic::Rti => 6,
            Mnemonic::Brk => 7,
            Mnemonic::Pha | Mnemonic::Php => 3,
            Mnemonic::Pla | Mnemonic::Plp => 4,
            Mnemonic::Ukn => 0,
            _ => 2,
        }
    }

    /// The sentinel for an opcode byte with no legal encoding.
    pub fn ukn() -> (r: Instruction)
        ensures
            r.opcode == Mnemonic::Ukn,
            r.operands@.len() == 0,
            r.addr_mod == AddrMod::Unknown,
            r.wf(),
    {
        Instruction::new(
            Mnemonic::Ukn,
            vec![],
            OpCat::Unimpl,
            AddrMod::Unknown,
            "UNKNOWN".to_string(),
            Flags::new(),
        )
    }

    pub fn lda(operands: Vec<u8>, addr_mod: AddrMod) -> (r: Instruction)
        ensures
            r.opcode == Mnemonic::Lda,
            r.operands@ == operands@,
            r.addr_mod == addr_mod,
            r.has_metadata(),
    {
        let letters = vec!['N', 'Z'];
        proof {
            assert(letters@[0] == 'N');
            assert(letters@[1] == 'Z');
            assert(!letters@.contains('C'));
            assert(!letters@.contains('I'));
            assert(!letters@.contains('D'));
            assert(!letters@.contains('B'));
            assert(!letters@.contains('V'));
        }
        Instruction::new(
            Mnemonic::Lda,
            operands,
            OpCat::LoadStore,
            addr_mod,
            "Load Accumulator".to_string(),
            Flags::trigger(letters),
        )
    }

    pub fn ldx(operands: Vec<u8>, addr_mod: AddrMod) -> (r: Instruction)
        ensures
            r.opcode == Mnemonic::Ldx,
            r.operands@ == operands@,
            r.addr_mod == addr_mod,
            r.has_metadata(),
    {
        let letters = vec!['N', 'Z'];
        proof {
            assert(letters@[0] == 'N');
            assert(letters@[1] == 'Z');
            assert(!letters@.contains('C'));
            assert(!letters@.contains('I'));
            assert(!letters@.contains('D'));
            assert(!letters@.contains('B'));
            assert(!letters@.contains('V'));
        }
        Instruction::new(
            Mnemonic::Ldx,
            operands,
            OpCat::LoadStore,
            addr_mod,
            "Load X Register".to_string(),
            Flags::trigger(letters),
        )
    }

    pub fn ldy(operands: Vec<u8>, addr_mod: AddrMod) -> (r: Instruction)
        ensures
            r.opcode == Mnemonic::Ldy,
            r.operands@ == operands@,
            r.addr_mod == addr_mod,
            r.has_metadata(),
    {
        let letters = vec!['N', 'Z'];
        proof {
            assert(letters@[0] == 'N');
            assert(letters@[1] == 'Z');
            assert(!letters@.contains('C'));
            assert(!letters@.contains('I'));
            assert(!letters@.contains('D'));
            assert(!letters@.contains('B'));
            assert(!letters@.contains('V'));
        }
        Instruction::new(
            Mnemonic::Ldy,
            operands,
            OpCat::LoadStore,
            addr_mod,
            "Load Y Register".to_string(),
            Flags::trigger(letters),
        )
    }

    pub fn sta(operands: Vec<u8>, addr_mod: AddrMod) -> (r: Instruction)
        ensures
            r.opcode == Mnemonic::Sta,
            r.operands@ == operands@,
            r.addr_mod == addr_mod,
            r.has_metadata(),
    {
        Instruction::new(
            Mnemonic::Sta,
            operands,
            OpCat::LoadStore,
            addr_mod,
            "Store Accumulator".to_string(),
            Flags::new(),
        )
    }

    pub fn stx(operands: Vec<u8>, addr_mod: AddrMod) -> (r: Instruction)
        ensures
            r.opcode == Mnemonic::Stx,
            r.operands@ == operands@,
            r.addr_mod == addr_mod,
            r.has_metadata(),
    {
        Instruction::new(
            Mnemonic::Stx,
            operands,
            OpCat::LoadStore,
            addr_mod,
            "Store X Register".to_string(),
            Flags::new(),
        )
    }

    pub fn sty(operands: Vec<u8>, addr_mod: AddrMod) -> (r: Instruction)
        ensures
            r.opcode == Mnemonic::Sty,
            r.operands@ == operands@,
            r.addr_mod == addr_mod,
            r.has_metadata(),
    {
        Instruction::new(
            Mnemonic::Sty,
            operands,
            OpCat::LoadStore,
            addr_mod,
            "Store Y Register".to_string(),
            Flags::new(),
        )
    }

    pub fn tax() -> (r: Instruction)
        ensures
            r.opcode == Mnemonic::Tax,
            r.operands@.len() == 0,
            r.addr_mod == AddrMod::Implied,
            r.wf(),
    {
        let letters = vec!['N', 'Z'];
        proof {
            assert(letters@[0] == 'N');
            assert(letters@[1] == 'Z');
            assert(!letters@.contains('C'));
            assert(!letters@.contains('I'));
            assert(!letters@.contains('D'));
            assert(!letters@.contains('B'));
            assert(!letters@.contains('V'));
        }
        Instruction::new(
            Mnemonic::Tax,
            vec![],
            OpCat::Register,
            AddrMod::Implied,
            "Transfer Accumulator to X".to_string(),
            Flags::trigger(letters),
        )
    }

    pub fn tay() -> (r: Instruction)
        ensures
            r.opcode == Mnemonic::Tay,
            r.operands@.len() == 0,
            r.addr_mod == AddrMod::Implied,
            r.wf(),
    {
        let letters = vec!['N', 'Z'];
        proof {
            assert(letters@[0] == 'N');
            assert(letters@[1] == 'Z');
            assert(!letters@.contains('C'));
            assert(!letters@.contains('I'));
            assert(!letters@.contains('D'));
            assert(!letters@.contains('B'));
            assert(!letters@.contains('V'));
        }
        Instruction::new(
            Mnemonic::Tay,
            vec![],
            OpCat::Register,
            AddrMod::Implied,
            "Transfer Accumulator to Y".to_string(),
            Flags::trigger(letters),
        )
    }

    pub fn txa() -> (r: Instruction)
        ensures
            r.opcode == Mnemonic::Txa,
            r.operands@.len() == 0,
            r.addr_mod == AddrMod::Implied,
            r.wf(),
    {
        let letters = vec!['N', 'Z'];
        proof {
            assert(letters@[0] == 'N');
            assert(letters@[1] == 'Z');
            assert(!letters@.contains('C'));
            assert(!letters@.contains('I'));
            assert(!letters@.contains('D'));
            assert(!letters@.contains('B'));
            assert(!letters@.contains('V'));
        }
        Instruction::new(
            Mnemonic::Txa,
            vec![],
            OpCat::Register,
            AddrMod::Implied,
            "Transfer X to Accumulator".to_string(),
            Flags::trigger(letters),
        )
    }

    pub fn tya() -> (r: Instruction)
        ensures
            r.opcode == Mnemonic::Tya,
            r.operands@.len() == 0,
            r.addr_mod == AddrMod::Implied,
            r.wf(),
    {
        let letters = vec!['N', 'Z'];
        proof {
            assert(letters@[0] == 'N');
            assert(letters@[1] == 'Z');
            assert(!letters@.contains('C'));
            assert(!letters@.contains('I'));
            assert(!letters@.contains('D'));
            assert(!letters@.contains('B'));
            assert(!letters@.contains('V'));
        }
        Instruction::new(
            Mnemonic::Tya,
            vec![],
            OpCat::Register,
            AddrMod::Implied,
            "Transfer Y to Accumulator".to_string(),
            Flags::trigger(letters),
        )
    }

    pub fn tsx() -> (r: Instruction)
        ensures
            r.opcode == Mnemonic::Tsx,
            r.operands@.len() == 0,
            r.addr_mod == AddrMod::Implied,
            r.wf(),
    {
        let letters = vec!['N', 'Z'];
        proof {
            assert(letters@[0] == 'N');
            assert(letters@[1] == 'Z');
            assert(!letters@.contains('C'));
            assert(!letters@.contains('I'));
            assert(!letters@.contains('D'));
            assert(!letters@.contains('B'));
            assert(!letters@.contains('V'));
        }
        Instruction::new(
            Mnemonic::Tsx,
            vec![],
            OpCat::Stack,
            AddrMod::Implied,
            "Transfer Stack Pointer to X".to_string(),
            Flags::trigger(letters),
        )
    }

    pub fn txs() -> (r: Instruction)
        ensures
            r.opcode == Mnemonic::Txs,
            r.operands@.len() == 0,
            r.addr_mod == AddrMod::Implied,
            r.wf(),
    {
        Instruction::new(
            Mnemonic::Txs,
            vec![],
            OpCat::Stack,
            AddrMod::Implied,
            "Transfer X to Stack Pointer".to_string(),
            Flags::new(),
        )
    }

    pub fn pha() -> (r: Instruction)
        ensures
            r.opcode == Mnemonic::Pha,
            r.operands@.len() == 0,
            r.addr_mod == AddrMod::Implied,
            r.wf(),
    {
        Instruction::new(
            Mnemonic::Pha,
            vec![],
            OpCat::Stack,
            AddrMod::Implied,
            "Push Accumulator on Stack".to_string(),
            Flags::new(),
        )
    }

    pub fn php() -> (r: Instruction)
        ensures
            r.opcode == Mnemonic::Php,
            r.operands@.len() == 0,
            r.addr_mod == AddrMod::Implied,
            r.wf(),
    {
        Instruction::new(
            Mnemonic::Php,
            vec![],
            OpCat::Stack,
            AddrMod::Implied,
            "Push Processor Status on Stack".to_string(),
            Flags::new(),
        )
    }

    pub fn pla() -> (r: Instruction)
        ensures
            r.opcode == Mnemonic::Pla,
            r.operands@.len() == 0,
            r.addr_mod == AddrMod::Implied,
            r.wf(),
    {
        let letters = vec!['N', 'Z'];
        proof {
            assert(letters@[0] == 'N');
            assert(letters@[1] == 'Z');
            assert(!letters@.contains('C'));
            assert(!letters@.contains('I'));
            assert(!letters@.contains('D'));
            assert(!letters@.contains('B'));
            assert(!letters@.contains('V'));
        }
        Instruction::new(
            Mnemonic::Pla,
            vec![],
            OpCat::Stack,
            AddrMod::Implied,
            "Pull Accumulator from Stack".to_string(),
            Flags::trigger(letters),
        )
    }

    pub fn plp() -> (r: Instruction)
        ensures
            r.opcode == Mnemonic::Plp,
            r.operands@.len() == 0,
            r.addr_mod == AddrMod::Implied,
            r.wf(),
    {
        Instruction::new(
            Mnemonic::Plp,
            vec![],
            OpCat::Stack,
            AddrMod::Implied,
            "Pull Processor Status from Stack".to_string(),
            Flags::trigger_all(),
        )
    }

    pub fn and(operands: Vec<u8>, addr_mod: AddrMod) -> (r: Instruction)
        ensures
            r.opcode == Mnemonic::And,
            r.operands@ == operands@,
            r.addr_mod == addr_mod,
            r.has_metadata(),
    {
        let letters = vec!['N', 'Z'];
        proof {
            assert(letters@[0] == 'N');
            assert(letters@[1] == 'Z');
            assert(!letters@.contains('C'));
            assert(!letters@.contains('I'));
            assert(!letters@.contains('D'));
            assert(!letters@.contains('B'));
            assert(!letters@.contains('V'));
        }
        Instruction::new(
            Mnemonic::And,
            operands,
            OpCat::Logical,
            addr_mod,
            "Logical AND".to_string(),
            Flags::trigger(letters),
        )
    }

    pub fn eor(operands: Vec<u8>, addr_mod: AddrMod) -> (r: Instruction)
        ensures
            r.opcode == Mnemonic::Eor,
            r.operands@ == operands@,
            r.addr_mod == addr_mod,
            r.has_metadata(),
    {
        let letters = vec!['N', 'Z'];
        proof {
            assert(letters@[0] == 'N');
            assert(letters@[1] == 'Z');
            assert(!letters@.contains('C'));
            assert(!letters@.contains('I'));
            assert(!letters@.contains('D'));
            assert(!letters@.contains('B'));
            assert(!letters@.contains('V'));
        }
        Instruction::new(
            Mnemonic::Eor,
            operands,
            OpCat::Logical,
            addr_mod,
            "Logical Exclusive OR".to_string(),
            Flags::trigger(letters),
        )
    }

    pub fn ora(operands: Vec<u8>, addr_mod: AddrMod) -> (r: Instruction)
        ensures
            r.opcode == Mnemonic::Ora,
            r.operands@ == operands@,
            r.addr_mod == addr_mod,
            r.has_metadata(),
    {
        let letters = vec!['N', 'Z'];
        proof {
            assert(letters@[0] == 'N');
            assert(letters@[1] == 'Z');
            assert(!letters@.contains('C'));
            assert(!letters@.contains('I'));
            assert(!letters@.contains('D'));
            assert(!letters@.contains('B'));
            assert(!letters@.contains('V'));
        }
        Instruction::new(
            Mnemonic::Ora,
            operands,
            OpCat::Logical,
            addr_mod,
            "Logical Inclusive OR".to_string(),
            Flags::trigger(letters),
        )
    }

    pub fn bit(operands: Vec<u8>, addr_mod: AddrMod) -> (r: Instruction)
        ensures
            r.opcode == Mnemonic::Bit,
            r.operands@ == operands@,
            r.addr_mod == addr_mod,
            r.has_metadata(),
    {
        let letters = vec!['N', 'V', 'Z'];
        proof {
            assert(letters@[0] == 'N');
            assert(letters@[1] == 'V');
            assert(letters@[2] == 'Z');
            assert(!letters@.contains('C'));
            assert(!letters@.contains('I'));
            assert(!letters@.contains('D'));
            assert(!letters@.contains('B'));
        }
        Instruction::new(
            Mnemonic::Bit,
            operands,
            OpCat::Logical,
            addr_mod,
            "Bit Test".to_string(),
            Flags::trigger(letters),
        )
    }

    pub fn adc(operands: Vec<u8>, addr_mod: AddrMod) -> (r: Instruction)
        ensures
            r.opcode == Mnemonic::Adc,
            r.operands@ == operands@,
            r.addr_mod == addr_mod,
            r.has_metadata(),
    {
        let letters = vec!['N', 'V', 'Z', 'C'];
        proof {
            assert(letters@[0] == 'N');
            assert(letters@[1] == 'V');
            assert(letters@[2] == 'Z');
            assert(letters@[3] == 'C');
            assert(!letters@.contains('I'));
            assert(!letters@.contains('D'));
            assert(!letters@.contains('B'));
        }
        Instruction::new(
            Mnemonic::Adc,
            operands,
            OpCat::Arithmetic,
            addr_mod,
            "Add with Carry".to_string(),
            Flags::trigger(letters),
        )
    }

    pub fn sbc(operands: Vec<u8>, addr_mod: AddrMod) -> (r: Instruction)
        ensures
            r.opcode == Mnemonic::Sbc,
            r.operands@ == operands@,
            r.addr_mod == addr_mod,
            r.has_metadata(),
    {
        let letters = vec!['N', 'V', 'Z', 'C'];
        proof {
            assert(letters@[0] == 'N');
            assert(letters@[1] == 'V');
            assert(letters@[2] == 'Z');
            assert(letters@[3] == 'C');
            assert(!letters@.contains('I'));
            assert(!letters@.contains('D'));
            assert(!letters@.contains('B'));
        }
        Instruction::new(
            Mnemonic::Sbc,
            operands,
            OpCat::Arithmetic,
            addr_mod,
            "Subtract with Carry".to_string(),
            Flags::trigger(letters),
        )
    }

    pub fn cmp(operands: Vec<u8>, addr_mod: AddrMod) -> (r: Instruction)
        ensures
            r.opcode == Mnemonic::Cmp,
            r.operands@ == operands@,
            r.addr_mod == addr_mod,
            r.has_metadata(),
    {
        let letters = vec!['N', 'Z', 'C'];
        proof {
            assert(letters@[0] == 'N');
            assert(letters@[1] == 'Z');
            assert(letters@[2] == 'C');
            assert(!letters@.contains('I'));
            assert(!letters@.contains('D'));
            assert(!letters@.contains('B'));
            assert(!letters@.contains('V'));
        }
        Instruction::new(
            Mnemonic::Cmp,
            operands,
            OpCat::Arithmetic,
            addr_mod,
            "Compare Accumulator".to_string(),
            Flags::trigger(letters),
        )
    }

    pub fn cpx(operands: Vec<u8>, addr_mod: AddrMod) -> (r: Instruction)
        ensures
            r.opcode == Mnemonic::Cpx,
            r.operands@ == operands@,
            r.addr_mod == addr_mod,
            r.has_metadata(),
    {
        let letters = vec!['N', 'Z', 'C'];
        proof {
            assert(letters@[0] == 'N');
            assert(letters@[1] == 'Z');
            assert(letters@[2] == 'C');
            assert(!letters@.contains('I'));
            assert(!letters@.contains('D'));
            assert(!letters@.contains('B'));
            assert(!letters@.contains('V'));
        }
        Instruction::new(
            Mnemonic::Cpx,
            operands,
            OpCat::Arithmetic,
            addr_mod,
            "Compare X Register".to_string(),
            Flags::trigger(letters),
        )
    }

    pub fn cpy(operands: Vec<u8>, addr_mod: AddrMod) -> (r: Instruction)
        ensures
            r.opcode == Mnemonic::Cpy,
            r.operands@ == operands@,
            r.addr_mod == addr_mod,
            r.has_metadata(),
    {
        let letters = vec!['N', 'Z', 'C'];
        proof {
            assert(letters@[0] == 'N');
            assert(letters@[1] == 'Z');
            assert(letters@[2] == 'C');
            assert(!letters@.contains('I'));
            assert(!letters@.contains('D'));
            assert(!letters@.contains('B'));
            assert(!letters@.contains('V'));
        }
        Instruction::new(
            Mnemonic::Cpy,
            operands,
            OpCat::Arithmetic,
            addr_mod,
            "Compare Y Register".to_string(),
            Flags::trigger(letters),
        )
    }

    pub fn inc(operands: Vec<u8>, addr_mod: AddrMod) -> (r: Instruction)
        ensures
            r.opcode == Mnemonic::Inc,
            r.operands@ == operands@,
            r.addr_mod == addr_mod,
            r.has_metadata(),
    {
        let letters = vec!['N', 'Z'];
        proof {
            assert(letters@[0] == 'N');
            assert(letters@[1] == 'Z');
            assert(!letters@.contains('C'));
            assert(!letters@.contains('I'));
            assert(!letters@.contains('D'));
            assert(!letters@.contains('B'));
            assert(!letters@.contains('V'));
        }
        Instruction::new(
            Mnemonic::Inc,
            operands,
            OpCat::IncDec,
            addr_mod,
            "Increment Memory Location".to_string(),
            Flags::trigger(letters),
        )
    }

    pub fn inx() -> (r: Instruction)
        ensures
            r.opcode == Mnemonic::Inx,
            r.operands@.len() == 0,
            r.addr_mod == AddrMod::Implied,
            r.wf(),
    {
        let letters = vec!['N', 'Z'];
        proof {
            assert(letters@[0] == 'N');
            assert(letters@[1] == 'Z');
            assert(!letters@.contains('C'));
            assert(!letters@.contains('I'));
            assert(!letters@.contains('D'));
            assert(!letters@.contains('B'));
            assert(!letters@.contains('V'));
        }
        Instruction::new(
            Mnemonic::Inx,
            vec![],
            OpCat::IncDec,
            AddrMod::Implied,
            "Increment X Register".to_string(),
            Flags::trigger(letters),
        )
    }

    pub fn iny() -> (r: Instruction)
        ensures
            r.opcode == Mnemonic::Iny,
            r.operands@.len() == 0,
            r.addr_mod == AddrMod::Implied,
            r.wf(),
    {
        let letters = vec!['N', 'Z'];
        proof {
            assert(letters@[0] == 'N');
            assert(letters@[1] == 'Z');
            assert(!letters@.contains('C'));
            assert(!letters@.contains('I'));
            assert(!letters@.contains('D'));
            assert(!letters@.contains('B'));
            assert(!letters@.contains('V'));
        }
        Instruction::new(
            Mnemonic::Iny,
            vec![],
            OpCat::IncDec,
            AddrMod::Implied,
            "Increment Y Register".to_string(),
            Flags::trigger(letters),
        )
    }

    pub fn dec(operands: Vec<u8>, addr_mod: AddrMod) -> (r: Instruction)
        ensures
            r.opcode == Mnemonic::Dec,
            r.operands@ == operands@,
            r.addr_mod == addr_mod,
            r.has_metadata(),
    {
        let letters = vec!['N', 'Z'];
        proof {
            assert(letters@[0] == 'N');
            assert(letters@[1] == 'Z');
            assert(!letters@.contains('C'));
            assert(!letters@.contains('I'));
            assert(!letters@.contains('D'));
            assert(!letters@.contains('B'));
            assert(!letters@.contains('V'));
        }
        Instruction::new(
            Mnemonic::Dec,
            operands,
            OpCat::IncDec,
            addr_mod,
            "Decrement Memory Location".to_string(),
            Flags::trigger(letters),
        )
    }

    pub fn dex() -> (r: Instruction)
        ensures
            r.opcode == Mnemonic::Dex,
            r.operands@.len() == 0,
            r.addr_mod == AddrMod::Implied,
            r.wf(),
    {
        let letters = vec!['N', 'Z'];
        proof {
            assert(letters@[0] == 'N');
            assert(letters@[1] == 'Z');
            assert(!letters@.contains('C'));
            assert(!letters@.contains('I'));
            assert(!letters@.contains('D'));
            assert(!letters@.contains('B'));
            assert(!letters@.contains('V'));
        }
        Instruction::new(
            Mnemonic::Dex,
            vec![],
            OpCat::IncDec,
            AddrMod::Implied,
            "Decrement X Register".to_string(),
            Flags::trigger(letters),
        )
    }

    pub fn dey() -> (r: Instruction)
        ensures
            r.opcode == Mnemonic::Dey,
            r.operands@.len() == 0,
            r.addr_mod == AddrMod::Implied,
            r.wf(),
    {
        let letters = vec!['N', 'Z'];
        proof {
            assert(letters@[0] == 'N');
            assert(letters@[1] == 'Z');
            assert(!letters@.contains('C'));
            assert(!letters@.contains('I'));
            assert(!letters@.contains('D'));
            assert(!letters@.contains('B'));
            assert(!letters@.contains('V'));
        }
        Instruction::new(
            Mnemonic::Dey,
            vec![],
            OpCat::IncDec,
            AddrMod::Implied,
            "Decrement Y Register".to_string(),
            Flags::trigger(letters),
        )
    }

    pub fn asl(operands: Vec<u8>, addr_mod: AddrMod) -> (r: Instruction)
        ensures
            r.opcode == Mnemonic::Asl,
            r.operands@ == operands@,
            r.addr_mod == addr_mod,
            r.has_metadata(),
    {
        let letters = vec!['N', 'Z', 'C'];
        proof {
            assert(letters@[0] == 'N');
            assert(letters@[1] == 'Z');
            assert(letters@[2] == 'C');
            assert(!letters@.contains('I'));
            assert(!letters@.contains('D'));
            assert(!letters@.contains('B'));
            assert(!letters@.contains('V'));
        }
        Instruction::new(
            Mnemonic::Asl,
            operands,
            OpCat::Shifts,
            addr_mod,
            "Arithmetic Shift Left".to_string(),
            Flags::trigger(letters),
        )
    }

    pub fn lsr(operands: Vec<u8>, addr_mod: AddrMod) -> (r: Instruction)
        ensures
            r.opcode == Mnemonic::Lsr,
            r.operands@ == operands@,
            r.addr_mod == addr_mod,
            r.has_metadata(),
    {
        let letters = vec!['N', 'Z', 'C'];
        proof {
            assert(letters@[0] == 'N');
            assert(letters@[1] == 'Z');
            assert(letters@[2] == 'C');
            assert(!letters@.contains('I'));
            assert(!letters@.contains('D'));
            assert(!letters@.contains('B'));
            assert(!letters@.contains('V'));
        }
        Instruction::new(
            Mnemonic::Lsr,
            operands,
            OpCat::Shifts,
            addr_mod,
            "Logical Shift Right".to_string(),
            Flags::trigger(letters),
        )
    }

    pub fn rol(operands: Vec<u8>, addr_mod: AddrMod) -> (r: Instruction)
        ensures
            r.opcode == Mnemonic::Rol,
            r.operands@ == operands@,
            r.addr_mod == addr_mod,
            r.has_metadata(),
    {
        let letters = vec!['N', 'Z', 'C'];
        proof {
            assert(letters@[0] == 'N');
            assert(letters@[1] == 'Z');
            assert(letters@[2] == 'C');
            assert(!letters@.contains('I'));
            assert(!letters@.contains('D'));
            assert(!letters@.contains('B'));
            assert(!letters@.contains('V'));
        }
        Instruction::new(
            Mnemonic::Rol,
            operands,
            OpCat::Shifts,
            addr_mod,
            "Rotate Left".to_string(),
            Flags::trigger(letters),
        )
    }

    pub fn ror(operands: Vec<u8>, addr_mod: AddrMod) -> (r: Instruction)
        ensures
            r.opcode == Mnemonic::Ror,
            r.operands@ == operands@,
            r.addr_mod == addr_mod,
            r.has_metadata(),
    {
        let letters = vec!['N', 'Z', 'C'];
        proof {
            assert(letters@[0] == 'N');
            assert(letters@[1] == 'Z');
            assert(letters@[2] == 'C');
            assert(!letters@.contains('I'));
            assert(!letters@.contains('D'));
            assert(!letters@.contains('B'));
            assert(!letters@.contains('V'));
        }
        Instruction::new(
            Mnemonic::Ror,
            operands,
            OpCat::Shifts,
            addr_mod,
            "Rotate Right".to_string(),
            Flags::trigger(letters),
        )
    }

    pub fn jmp(operands: Vec<u8>, addr_mod: AddrMod) -> (r: Instruction)
        ensures
            r.opcode == Mnemonic::Jmp,
            r.operands@ == operands@,
            r.addr_mod == addr_mod,
            r.has_metadata(),
    {
        Instruction::new(
            Mnemonic::Jmp,
            operands,
            OpCat::JumpCall,
            addr_mod,
            "Jump to New Location".to_string(),
            Flags::new(),
        )
    }

    pub fn jsr(operands: Vec<u8>) -> (r: Instruction)
        ensures
            r.opcode == Mnemonic::Jsr,
            r.operands@ == operands@,
            r.addr_mod == AddrMod::Absolute,
            r.has_metadata(),
    {
        Instruction::new(
            Mnemonic::Jsr,
            operands,
            OpCat::JumpCall,
            AddrMod::Absolute,
            "Jump to New Location Saving Return Address".to_string(),
            Flags::new(),
        )
    }

    pub fn rts() -> (r: Instruction)
        ensures
            r.opcode == Mnemonic::Rts,
            r.operands@.len() == 0,
            r.addr_mod == AddrMod::Implied,
            r.wf(),
    {
        Instruction::new(
            Mnemonic::Rts,
            vec![],
            OpCat::JumpCall,
            AddrMod::Implied,
            "Return from Subroutine".to_string(),
            Flags::new(),
        )
    }

    pub fn bcc(operands: Vec<u8>) -> (r: Instruction)
        ensures
            r.opcode == Mnemonic::Bcc,
            r.operands@ == operands@,
            r.addr_mod == AddrMod::Relative,
            r.has_metadata(),
    {
        Instruction::new(
            Mnemonic::Bcc,
            operands,
            OpCat::Branch,
            AddrMod::Relative,
            "Branch if Carry Clear".to_string(),
            Flags::new(),
        )
    }

    pub fn bcs(operands: Vec<u8>) -> (r: Instruction)
        ensures
            r.opcode == Mnemonic::Bcs,
            r.operands@ == operands@,
            r.addr_mod == AddrMod::Relative,
            r.has_metadata(),
    {
        Instruction::new(
            Mnemonic::Bcs,
            operands,
            OpCat::Branch,
            AddrMod::Relative,
            "Branch if Carry Set".to_string(),
            Flags::new(),
        )
    }

    pub fn beq(operands: Vec<u8>) -> (r: Instruction)
        ensures
            r.opcode == Mnemonic::Beq,
            r.operands@ == operands@,
            r.addr_mod == AddrMod::Relative,
            r.has_metadata(),
    {
        Instruction::new(
            Mnemonic::Beq,
            operands,
            OpCat::Branch,
            AddrMod::Relative,
            "Branch if Zero Set".to_string(),
            Flags::new(),
        )
    }

    pub fn bmi(operands: Vec<u8>) -> (r: Instruction)
        ensures
            r.opcode == Mnemonic::Bmi,
            r.operands@ == operands@,
            r.addr_mod == AddrMod::Relative,
            r.has_metadata(),
    {
        Instruction::new(
            Mnemonic::Bmi,
            operands,
            OpCat::Branch,
            AddrMod::Relative,
            "Branch if Negative Set".to_string(),
            Flags::new(),
        )
    }

    pub fn bne(operands: Vec<u8>) -> (r: Instruction)
        ensures
            r.opcode == Mnemonic::Bne,
            r.operands@ == operands@,
            r.addr_mod == AddrMod::Relative,
            r.has_metadata(),
    {
        Instruction::new(
            Mnemonic::Bne,
            operands,
            OpCat::Branch,
            AddrMod::Relative,
            "Branch if Zero Clear".to_string(),
            Flags::new(),
        )
    }

    pub fn bpl(operands: Vec<u8>) -> (r: Instruction)
        ensures
            r.opcode == Mnemonic::Bpl,
            r.operands@ == operands@,
            r.addr_mod == AddrMod::Relative,
            r.has_metadata(),
    {
        Instruction::new(
            Mnemonic::Bpl,
            operands,
            OpCat::Branch,
            AddrMod::Relative,
            "Branch if Negative Clear".to_string(),
            Flags::new(),
        )
    }

    pub fn bvc(operands: Vec<u8>) -> (r: Instruction)
        ensures
            r.opcode == Mnemonic::Bvc,
            r.operands@ == operands@,
            r.addr_mod == AddrMod::Relative,
            r.has_metadata(),
    {
        Instruction::new(
            Mnemonic::Bvc,
            operands,
            OpCat::Branch,
            AddrMod::Relative,
            "Branch if Overflow Clear".to_string(),
            Flags::new(),
        )
    }

    pub fn bvs(operands: Vec<u8>) -> (r: Instruction)
        ensures
            r.opcode == Mnemonic::Bvs,
            r.operands@ == operands@,
            r.addr_mod == AddrMod::Relative,
            r.has_metadata(),
    {
        Instruction::new(
            Mnemonic::Bvs,
            operands,
            OpCat::Branch,
            AddrMod::Relative,
            "Branch if Overflow Set".to_string(),
            Flags::new(),
        )
    }

    pub fn clc() -> (r: Instruction)
        ensures
            r.opcode == Mnemonic::Clc,
            r.operands@.len() == 0,
            r.addr_mod == AddrMod::Implied,
            r.wf(),
    {
        let letters = vec!['C'];
        proof {
            assert(letters@[0] == 'C');
            assert(!letters@.contains('Z'));
            assert(!letters@.contains('I'));
            assert(!letters@.contains('D'));
            assert(!letters@.contains('B'));
            assert(!letters@.contains('V'));
            assert(!letters@.contains('N'));
        }
        Instruction::new(
            Mnemonic::Clc,
            vec![],
            OpCat::StatusCtrl,
            AddrMod::Implied,
            "Clear Carry Flag".to_string(),
            Flags::trigger(letters),
        )
    }

    pub fn cld() -> (r: Instruction)
        ensures
            r.opcode == Mnemonic::Cld,
            r.operands@.len() == 0,
            r.addr_mod == AddrMod::Implied,
            r.wf(),
    {
        let letters = vec!['D'];
        proof {
            assert(letters@[0] == 'D');
            assert(!letters@.contains('C'));
            assert(!letters@.contains('Z'));
            assert(!letters@.contains('I'));
            assert(!letters@.contains('B'));
            assert(!letters@.contains('V'));
            assert(!letters@.contains('N'));
        }
        Instruction::new(
            Mnemonic::Cld,
            vec![],
            OpCat::StatusCtrl,
            AddrMod::Implied,
            "Clear Decimal Mode".to_string(),
            Flags::trigger(letters),
        )
    }

    pub fn cli() -> (r: Instruction)
        ensures
            r.opcode == Mnemonic::Cli,
            r.operands@.len() == 0,
            r.addr_mod == AddrMod::Implied,
            r.wf(),
    {
        let letters = vec!['I'];
        proof {
            assert(letters@[0] == 'I');
            assert(!letters@.contains('C'));
            assert(!letters@.contains('Z'));
            assert(!letters@.contains('D'));
            assert(!letters@.contains('B'));
            assert(!letters@.contains('V'));
            assert(!letters@.contains('N'));
        }
        Instruction::new(
            Mnemonic::Cli,
            vec![],
            OpCat::StatusCtrl,
            AddrMod::Implied,
            "Clear Interrupt Disable Bit".to_string(),
            Flags::trigger(letters),
        )
    }

    pub fn clv() -> (r: Instruction)
        ensures
            r.opcode == Mnemonic::Clv,
            r.operands@.len() == 0,
            r.addr_mod == AddrMod::Implied,
            r.wf(),
    {
        let letters = vec!['V'];
        proof {
            assert(letters@[0] == 'V');
            assert(!letters@.contains('C'));
            assert(!letters@.contains('Z'));
            assert(!letters@.contains('I'));
            assert(!letters@.contains('D'));
            assert(!letters@.contains('B'));
            assert(!letters@.contains('N'));
        }
        Instruction::new(
            Mnemonic::Clv,
            vec![],
            OpCat::StatusCtrl,
            AddrMod::Implied,
            "Clear Overflow Flag".to_string(),
            Flags::trigger(letters),
        )
    }

    pub fn sec() -> (r: Instruction)
        ensures
            r.opcode == Mnemonic::Sec,
            r.operands@.len() == 0,
            r.addr_mod == AddrMod::Implied,
            r.wf(),
    {
        let letters = vec!['C'];
        proof {
            assert(letters@[0] == 'C');
            assert(!letters@.contains('Z'));
            assert(!letters@.contains('I'));
            assert(!letters@.contains('D'));
            assert(!letters@.contains('B'));
            assert(!letters@.contains('V'));
            assert(!letters@.contains('N'));
        }
        Instruction::new(
            Mnemonic::Sec,
            vec![],
            OpCat::StatusCtrl,
            AddrMod::Implied,
            "Set Carry Flag".to_string(),
            Flags::trigger(letters),
        )
    }

    pub fn sed() -> (r: Instruction)
        ensures
            r.opcode == Mnemonic::Sed,
            r.operands@.len() == 0,
            r.addr_mod == AddrMod::Implied,
            r.wf(),
    {
        let letters = vec!['D'];
        proof {
            assert(letters@[0] == 'D');
            assert(!letters@.contains('C'));
            assert(!letters@.contains('Z'));
            assert(!letters@.contains('I'));
            assert(!letters@.contains('B'));
            assert(!letters@.contains('V'));
            assert(!letters@.contains('N'));
        }
        Instruction::new(
            Mnemonic::Sed,
            vec![],
            OpCat::StatusCtrl,
            AddrMod::Implied,
            "Set Decimal Mode".to_string(),
            Flags::trigger(letters),
        )
    }

    pub fn sei() -> (r: Instruction)
        ensures
            r.opcode == Mnemonic::Sei,
            r.operands@.len() == 0,
            r.addr_mod == AddrMod::Implied,
            r.wf(),
    {
        let letters = vec!['I'];
        proof {
            assert(letters@[0] == 'I');
            assert(!letters@.contains('C'));
            assert(!letters@.contains('Z'));
            assert(!letters@.contains('D'));
            assert(!letters@.contains('B'));
            assert(!letters@.contains('V'));
            assert(!letters@.contains('N'));
        }
        Instruction::new(
            Mnemonic::Sei,
            vec![],
            OpCat::StatusCtrl,
            AddrMod::Implied,
            "Set Interrupt Disable".to_string(),
            Flags::trigger(letters),
        )
    }

    pub fn brk() -> (r: Instruction)
        ensures
            r.opcode == Mnemonic::Brk,
            r.operands@.len() == 0,
            r.addr_mod == AddrMod::Implied,
            r.wf(),
    {
        let letters = vec!['B', 'I'];
        proof {
            assert(letters@[0] == 'B');
            assert(letters@[1] == 'I');
            assert(!letters@.contains('C'));
            assert(!letters@.contains('Z'));
            assert(!letters@.contains('D'));
            assert(!letters@.contains('V'));
            assert(!letters@.contains('N'));
        }
        Instruction::new(
            Mnemonic::Brk,
            vec![],
            OpCat::StatusCtrl,
            AddrMod::Implied,
            "Force an Interrupt".to_string(),
            Flags::trigger(letters),
        )
    }

    pub fn nop() -> (r: Instruction)
        ensures
            r.opcode == Mnemonic::Nop,
            r.operands@.len() == 0,
            r.addr_mod == AddrMod::Implied,
            r.wf(),
    {
        Instruction::new(
            Mnemonic::Nop,
            vec![],
            OpCat::StatusCtrl,
            AddrMod::Implied,
            "No Operation".to_string(),
            Flags::new(),
        )
    }

    pub fn rti() -> (r: Instruction)
        ensures
            r.opcode == Mnemonic::Rti,
            r.operands@.len() == 0,
            r.addr_mod == AddrMod::Implied,
            r.wf(),
    {
        Instruction::new(
            Mnemonic::Rti,
            vec![],
            OpCat::StatusCtrl,
            AddrMod::Implied,
            "Return from Interrupt".to_string(),
            Flags::trigger_all(),
        )
    }

    /// Builds the instruction of operation `m` in mode `mode` through the
    /// operation's own constructor.
    pub(crate) fn of_parts(m: Mnemonic, operands: Vec<u8>, mode: AddrMod) -> (r: Instruction)
        requires
            m.fixed_mode() is Some ==> m.fixed_mode() == Some(mode),
            operands@.len() == mode.operand_count(),
        ensures
            r.opcode == m,
            r.operands@ == operands@,
            r.addr_mod == mode,
            r.wf(),
    {
        match m {
            Mnemonic::Lda => Instruction::lda(operands, mode),
            Mnemonic::Ldx => Instruction::ldx(operands, mode),
            Mnemonic::Ldy => Instruction::ldy(operands, mode),
            Mnemonic::Sta => Instruction::sta(operands, mode),
            Mnemonic::Stx => Instruction::stx(operands, mode),
            Mnemonic::Sty => Instruction::sty(operands, mode),
            Mnemonic::Tax => Instruction::tax(),
            Mnemonic::Tay => Instruction::tay(),
            Mnemonic::Txa => Instruction::txa(),
            Mnemonic::Tya => Instruction::tya(),
            Mnemonic::Tsx => Instruction::tsx(),
            Mnemonic::Txs => Instruction::txs(),
            Mnemonic::Pha => Instruction::pha(),
            Mnemonic::Php => Instruction::php(),
            Mnemonic::Pla => Instruction::pla(),
            Mnemonic::Plp => Instruction::plp(),
            Mnemonic::And => Instruction::and(operands, mode),
            Mnemonic::Eor => Instruction::eor(operands, mode),
            Mnemonic::Ora => Instruction::ora(operands, mode),
            Mnemonic::Bit => Instruction::bit(operands, mode),
            Mnemonic::Adc => Instruction::adc(operands, mode),
            Mnemonic::Sbc => Instruction::sbc(operands, mode),
            Mnemonic::Cmp => Instruction::cmp(operands, mode),
            Mnemonic::Cpx => Instruction::cpx(operands, mode),
            Mnemonic::Cpy => Instruction::cpy(operands, mode),
            Mnemonic::Inc => Instruction::inc(operands, mode),
            Mnemonic::Inx => Instruction::inx(),
            Mnemonic::Iny => Instruction::iny(),
            Mnemonic::Dec => Instruction::dec(operands, mode),
            Mnemonic::Dex => Instruction::dex(),
            Mnemonic::Dey => Instruction::dey(),
            Mnemonic::Asl => Instruction::asl(operands, mode),
            Mnemonic::Lsr => Instruction::lsr(operands, mode),
            Mnemonic::Rol => Instruction::rol(operands, mode),
            Mnemonic::Ror => Instruction::ror(operands, mode),
            Mnemonic::Jmp => Instruction::jmp(operands, mode),
            Mnemonic::Jsr => Instruction::jsr(operands),
            Mnemonic::Rts => Instruction::rts(),
            Mnemonic::Bcc => Instruction::bcc(operands),
            Mnemonic::Bcs => Instruction::bcs(operands),
            Mnemonic::Beq => Instruction::beq(operands),
            Mnemonic::Bmi => Instruction::bmi(operands),
            Mnemonic::Bne => Instruction::bne(operands),
            Mnemonic::Bpl => Instruction::bpl(operands),
            Mnemonic::Bvc => Instruction::bvc(operands),
            Mnemonic::Bvs => Instruction::bvs(operands),
            Mnemonic::Clc => Instruction::clc(),
            Mnemonic::Cld => Instruction::cld(),
            Mnemonic::Cli => Instruction::cli(),
            Mnemonic::Clv => Instruction::clv(),
            Mnemonic::Sec => Instruction::sec(),
            Mnemonic::Sed => Instruction::sed(),
            Mnemonic::Sei => Instruction::sei(),
            Mnemonic::Brk => Instruction::brk(),
            Mnemonic::Nop => Instruction::nop(),
            Mnemonic::Rti => Instruction::rti(),
            Mnemonic::Ukn => Instruction::ukn(),
        }
    }
}

} // verus!
