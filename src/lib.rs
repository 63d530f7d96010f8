//! An instruction interpreter for the 6502 8-bit processor: a flat 64 KiB
//! memory, operand-address resolution for every addressing mode, and a
//! fetch-decode-execute loop whose every step is specified over a
//! mathematical model of the machine.

pub mod memory;
pub mod addressing;
pub mod opcodes;
pub mod cpu;
