use vstd::prelude::*;

use crate::memory::{MEMORY_SIZE, make_word, word_at, high_byte};

verus! {

/// Where an instruction's operand lives.
#[derive(Clone, Copy, Debug, PartialEq, Eq, Structural)]
pub enum AddressingMode {
    Immediate,
    ZeroPage,
    ZeroPageX,
    ZeroPageY,
    Absolute,
    AbsoluteX,
    AbsoluteY,
    IndirectX,
    IndirectY,
    NoneAddressing,
}

/// `a + b` wrapped to 8 bits.
pub open spec fn add8(a: u8, b: u8) -> u8 {
    ((a + b) % 0x100) as u8
}

/// `a + b` wrapped to 16 bits.
pub open spec fn add16(a: u16, b: u8) -> u16 {
    ((a + b) % 0x1_0000) as u16
}

/// The word held by the zero-page pointer `pointer`: the low byte at
/// `pointer`, the high byte at `pointer + 1` wrapped within page zero.
pub open spec fn zero_page_word(bytes: Seq<u8>, pointer: u8) -> u16 {
    make_word(bytes[pointer as int], bytes[add8(pointer, 1) as int])
}

/// The effective address of an operand in `mode`, when the operand bytes
/// start at `pc` and the index registers hold `x` and `y`; `None` for
/// `NoneAddressing`, which has no operand.
pub open spec fn operand_address(
    mode: AddressingMode,
    pc: u16,
    x: u8,
    y: u8,
    bytes: Seq<u8>,
) -> Option<u16> {
    let operand = bytes[pc as int];
    match mode {
        AddressingMode::Immediate => Some(pc),
        AddressingMode::ZeroPage => Some(operand as u16),
        AddressingMode::ZeroPageX => Some(add8(operand, x) as u16),
        AddressingMode::ZeroPageY => Some(add8(operand, y) as u16),
        AddressingMode::Absolute => Some(word_at(bytes, pc)),
        AddressingMode::AbsoluteX => Some(add16(word_at(bytes, pc), x)),
        AddressingMode::AbsoluteY => Some(add16(word_at(bytes, pc), y)),
        AddressingMode::IndirectX => Some(zero_page_word(bytes, add8(operand, x))),
        AddressingMode::IndirectY => Some(add16(zero_page_word(bytes, operand), y)),
        AddressingMode::NoneAddressing => None,
    }
}

/// Resolution is a function of the mode, the program counter, the index
/// registers and memory alone: equal inputs resolve to equal addresses, and
/// every mode but `NoneAddressing` resolves to some address.
pub proof fn lemma_resolution_is_pure(
    mode: AddressingMode,
    pc: u16,
    x: u8,
    y: u8,
    bytes: Seq<u8>,
    pc2: u16,
    x2: u8,
    y2: u8,
    bytes2: Seq<u8>,
)
    requires
        pc == pc2,
        x == x2,
        y == y2,
        bytes == bytes2,
    ensures
        operand_address(mode, pc, x, y, bytes) == operand_address(mode, pc2, x2, y2, bytes2),
        operand_address(mode, pc, x, y, bytes) is Some <==> mode != AddressingMode::NoneAddressing,
{
}

/// Zero-page indexed addressing stays in page zero: the operand byte plus the
/// index register wraps modulo 256, so the high byte of the result is zero.
pub proof fn lemma_zero_page_indexed_stays_in_page_zero(
    mode: AddressingMode,
    pc: u16,
    x: u8,
    y: u8,
    bytes: Seq<u8>,
)
    requires
        mode == AddressingMode::ZeroPageX || mode == AddressingMode::ZeroPageY,
    ensures
        operand_address(mode, pc, x, y, bytes) matches Some(address) && high_byte(address) == 0
            && address == (bytes[pc as int] + (if mode == AddressingMode::ZeroPageX {
            x
        } else {
            y
        })) % 0x100,
{
}

/// Absolute indexed addressing adds the index register to the base word
/// modulo 65536: when the low byte overflows, the carry reaches the high byte,
/// so the address lands on the page after the base's page.
pub proof fn lemma_absolute_indexed_crosses_pages(
    mode: AddressingMode,
    pc: u16,
    x: u8,
    y: u8,
    bytes: Seq<u8>,
)
    requires
        mode == AddressingMode::AbsoluteX || mode == AddressingMode::AbsoluteY,
    ensures
        ({
            let base = word_at(bytes, pc);
            let index = if mode == AddressingMode::AbsoluteX {
                x
            } else {
                y
            };
            operand_address(mode, pc, x, y, bytes) matches Some(address) && address == (base
                + index) % 0x1_0000 && (base % 0x100 + index >= 0x100 && base + index < 0x1_0000
                ==> high_byte(address) == high_byte(base) + 1)
        }),
{
}

/// Indirect addressing wraps within page zero: the pointer (the operand byte,
/// plus X for `IndirectX`) wraps modulo 256, and so does the address of the
/// pointer's high byte; `IndirectY` then adds Y to the word modulo 65536.
pub proof fn lemma_indirect_pointer_wraps_in_page_zero(
    mode: AddressingMode,
    pc: u16,
    x: u8,
    y: u8,
    bytes: Seq<u8>,
)
    requires
        mode == AddressingMode::IndirectX || mode == AddressingMode::IndirectY,
        bytes.len() == MEMORY_SIZE,
    ensures
        ({
            let operand = bytes[pc as int];
            let pointer: int = if mode == AddressingMode::IndirectX {
                (operand + x) % 0x100
            } else {
                operand as int
            };
            let word = bytes[pointer] + 0x100 * bytes[(pointer + 1) % 0x100];
            &&& 0 <= pointer < 0x100
            &&& operand_address(mode, pc, x, y, bytes) matches Some(address)
            &&& mode == AddressingMode::IndirectX ==> address == word
            &&& mode == AddressingMode::IndirectY ==> address == (word + y) % 0x1_0000
        }),
{
}

} // verus!
