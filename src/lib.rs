//! An emulator for the 6502 8-bit microprocessor: an opcode decoder, a
//! disassembler and an execution engine, each stated against a
//! mathematical model of the processor and proved to follow it.
pub mod addrmod;
pub mod assembler;
pub mod cpu;
pub mod flags;
pub mod instructions;
pub mod laws;
pub mod memory;
pub mod opcat;
pub mod semantics;
pub mod shell;
