use vstd::prelude::*;

use crate::addressing::AddressingMode;

verus! {

/// What the opcode table records of one opcode byte.
#[derive(Clone, Copy, Debug)]
pub struct OpCode {
    pub code: u8,
    pub mnemonic: &'static str,
    /// Bytes taken by the instruction: the opcode and its operand bytes.
    pub len: u8,
    pub cycles: u8,
    pub mode: AddressingMode,
}

/// The entries of the table that the interpreter is built with.
pub open spec fn standard_opcode(code: u8) -> Option<OpCode> {
    let entry = |mnemonic: &'static str, len: u8, cycles: u8, mode: AddressingMode|
        Some(OpCode { code, mnemonic, len, cycles, mode });
    match code {
        0x00 => entry("BRK", 1, 7, AddressingMode::NoneAddressing),
        0xaa => entry("TAX", 1, 2, AddressingMode::NoneAddressing),
        0xe8 => entry("INX", 1, 2, AddressingMode::NoneAddressing),
        0xa9 => entry("LDA", 2, 2, AddressingMode::Immediate),
        0xa5 => entry("LDA", 2, 3, AddressingMode::ZeroPage),
        0xb5 => entry("LDA", 2, 4, AddressingMode::ZeroPageX),
        0xad => entry("LDA", 3, 4, AddressingMode::Absolute),
        0xbd => entry("LDA", 3, 4, AddressingMode::AbsoluteX),
        0xb9 => entry("LDA", 3, 4, AddressingMode::AbsoluteY),
        0xa1 => entry("LDA", 2, 6, AddressingMode::IndirectX),
        0xb1 => entry("LDA", 2, 5, AddressingMode::IndirectY),
        0x85 => entry("STA", 2, 3, AddressingMode::ZeroPage),
        0x95 => entry("STA", 2, 4, AddressingMode::ZeroPageX),
        0x8d => entry("STA", 3, 4, AddressingMode::Absolute),
        0x9d => entry("STA", 3, 5, AddressingMode::AbsoluteX),
        0x99 => entry("STA", 3, 5, AddressingMode::AbsoluteY),
        0x81 => entry("STA", 2, 6, AddressingMode::IndirectX),
        0x91 => entry("STA", 2, 6, AddressingMode::IndirectY),
        _ => None,
    }
}

/// The standard table as a sequence indexed by opcode byte.
pub open spec fn standard_table() -> Seq<Option<OpCode>> {
    Seq::new(0x100, |i: int| standard_opcode(i as u8))
}

/// A lookup table from opcode byte to its metadata.
pub struct OpcodeTable {
    entries: Vec<Option<OpCode>>,
}

impl View for OpcodeTable {
    type V = Seq<Option<OpCode>>;

    closed spec fn view(&self) -> Seq<Option<OpCode>> {
        self.entries@
    }
}

/// A table has one slot per opcode byte, each entry sits at its own code,
/// and every instruction takes at least its opcode byte.
pub open spec fn table_wf(entries: Seq<Option<OpCode>>) -> bool {
    &&& entries.len() == 0x100
    &&& forall|i: int|
        0 <= i < 0x100 && #[trigger] entries[i] is Some ==> entries[i]->0.code == i
            && entries[i]->0.len >= 1
}

impl OpcodeTable {
    pub open spec fn wf(&self) -> bool {
        table_wf(self@)
    }

    /// A table that recognizes no opcode.
    pub fn empty() -> (r: OpcodeTable)
        ensures
            r.wf(),
            r@ == Seq::new(0x100, |i: int| None::<OpCode>),
    {
        let mut entries: Vec<Option<OpCode>> = Vec::new();
        let mut i: usize = 0;
        while i < 0x100
            invariant
                i <= 0x100,
                entries@ == Seq::new(i as nat, |k: int| None::<OpCode>),
            decreases 0x100 - i,
        {
            entries.push(None);
            i = i + 1;
            assert(entries@ =~= Seq::new(i as nat, |k: int| None::<OpCode>));
        }
        OpcodeTable { entries }
    }

    /// Records `op` under its own code, replacing what was there.
    pub fn insert(&mut self, op: OpCode)
        requires
            old(self).wf(),
            op.len >= 1,
        ensures
            final(self).wf(),
            final(self)@ == old(self)@.update(op.code as int, Some(op)),
    {
        self.entries.set(op.code as usize, Some(op));
    }

    /// The metadata recorded for `code`, if any.
    pub fn get(&self, code: u8) -> (r: Option<OpCode>)
        requires
            self.wf(),
        ensures
            r == self@[code as int],
    {
        self.entries[code as usize]
    }

    /// The table of every opcode that this interpreter executes: BRK, TAX,
    /// INX, and LDA and STA in each of their addressing modes.
    pub fn standard() -> (r: OpcodeTable)
        ensures
            r.wf(),
            r@ == standard_table(),
    {
        let mut t = OpcodeTable::empty();
        t.insert(OpCode { code: 0x00, mnemonic: "BRK", len: 1, cycles: 7, mode: AddressingMode::NoneAddressing });
        t.insert(OpCode { code: 0xaa, mnemonic: "TAX", len: 1, cycles: 2, mode: AddressingMode::NoneAddressing });
        t.insert(OpCode { code: 0xe8, mnemonic: "INX", len: 1, cycles: 2, mode: AddressingMode::NoneAddressing });
        t.insert(OpCode { code: 0xa9, mnemonic: "LDA", len: 2, cycles: 2, mode: AddressingMode::Immediate });
        t.insert(OpCode { code: 0xa5, mnemonic: "LDA", len: 2, cycles: 3, mode: AddressingMode::ZeroPage });
        t.insert(OpCode { code: 0xb5, mnemonic: "LDA", len: 2, cycles: 4, mode: AddressingMode::ZeroPageX });
        t.insert(OpCode { code: 0xad, mnemonic: "LDA", len: 3, cycles: 4, mode: AddressingMode::Absolute });
        t.insert(OpCode { code: 0xbd, mnemonic: "LDA", len: 3, cycles: 4, mode: AddressingMode::AbsoluteX });
        t.insert(OpCode { code: 0xb9, mnemonic: "LDA", len: 3, cycles: 4, mode: AddressingMode::AbsoluteY });
        t.insert(OpCode { code: 0xa1, mnemonic: "LDA", len: 2, cycles: 6, mode: AddressingMode::IndirectX });
        t.insert(OpCode { code: 0xb1, mnemonic: "LDA", len: 2, cycles: 5, mode: AddressingMode::IndirectY });
        t.insert(OpCode { code: 0x85, mnemonic: "STA", len: 2, cycles: 3, mode: AddressingMode::ZeroPage });
        t.insert(OpCode { code: 0x95, mnemonic: "STA", len: 2, cycles: 4, mode: AddressingMode::ZeroPageX });
        t.insert(OpCode { code: 0x8d, mnemonic: "STA", len: 3, cycles: 4, mode: AddressingMode::Absolute });
        t.insert(OpCode { code: 0x9d, mnemonic: "STA", len: 3, cycles: 5, mode: AddressingMode::AbsoluteX });
        t.insert(OpCode { code: 0x99, mnemonic: "STA", len: 3, cycles: 5, mode: AddressingMode::AbsoluteY });
        t.insert(OpCode { code: 0x81, mnemonic: "STA", len: 2, cycles: 6, mode: AddressingMode::IndirectX });
        t.insert(OpCode { code: 0x91, mnemonic: "STA", len: 2, cycles: 6, mode: AddressingMode::IndirectY });
        assert(t@ =~= standard_table());
        t
    }
}

} // verus!
