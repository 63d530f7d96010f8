use vstd::prelude::*;

verus! {

/// Number of bytes in the address space: every 16-bit address is backed.
pub const MEMORY_SIZE: usize = 0x1_0000;

/// The address that follows `address`, wrapping from 0xFFFF to 0x0000.
pub open spec fn next_address(address: u16) -> u16 {
    ((address + 1) % 0x1_0000) as u16
}

/// The low byte of a 16-bit word.
pub open spec fn low_byte(word: u16) -> u8 {
    (word % 256) as u8
}

/// The high byte of a 16-bit word.
pub open spec fn high_byte(word: u16) -> u8 {
    (word / 256) as u8
}

/// The 16-bit word whose low byte is `lo` and whose high byte is `hi`.
pub open spec fn make_word(lo: u8, hi: u8) -> u16 {
    (hi * 256 + lo) as u16
}

/// The little-endian word stored at `address` and the address after it.
pub open spec fn word_at(bytes: Seq<u8>, address: u16) -> u16 {
    make_word(bytes[address as int], bytes[next_address(address) as int])
}

/// `bytes` with `word` stored little-endian at `address`: low byte first,
/// then the high byte at the following address.
pub open spec fn with_word(bytes: Seq<u8>, address: u16, word: u16) -> Seq<u8> {
    bytes.update(address as int, low_byte(word)).update(
        next_address(address) as int,
        high_byte(word),
    )
}

/// The whole address space as a flat array of bytes.
pub struct Memory {
    bytes: Vec<u8>,
}

impl View for Memory {
    type V = Seq<u8>;

    closed spec fn view(&self) -> Seq<u8> {
        self.bytes@
    }
}

impl Memory {
    /// A memory backs exactly one byte for each 16-bit address.
    pub open spec fn wf(&self) -> bool {
        self@.len() == MEMORY_SIZE
    }

    /// A memory whose every byte is zero.
    pub fn new() -> (r: Memory)
        ensures
            r.wf(),
            r@ == Seq::new(MEMORY_SIZE as nat, |i: int| 0u8),
    {
        let mut bytes: Vec<u8> = Vec::new();
        let mut i: usize = 0;
        while i < MEMORY_SIZE
            invariant
                i <= MEMORY_SIZE,
                bytes@ == Seq::new(i as nat, |k: int| 0u8),
            decreases MEMORY_SIZE - i,
        {
            bytes.push(0);
            i = i + 1;
            assert(bytes@ =~= Seq::new(i as nat, |k: int| 0u8));
        }
        Memory { bytes }
    }

    /// The byte stored at `address`.
    pub fn read(&self, address: u16) -> (r: u8)
        requires
            self.wf(),
        ensures
            r == self@[address as int],
    {
        self.bytes[address as usize]
    }

    /// Stores `data` at `address`; every other byte is left as it was.
    pub fn write(&mut self, address: u16, data: u8)
        requires
            old(self).wf(),
        ensures
            final(self).wf(),
            final(self)@ == old(self)@.update(address as int, data),
    {
        self.bytes.set(address as usize, data);
    }

    /// The little-endian word at `address`: the low byte from `address`, the
    /// high byte from the next address (0x0000 after 0xFFFF).
    pub fn read_word(&self, address: u16) -> (r: u16)
        requires
            self.wf(),
        ensures
            r == word_at(self@, address),
    {
        let lo = self.read(address);
        let hi = self.read(address.wrapping_add(1));
        proof {
            lemma_word_from_bytes(lo, hi);
        }
        ((hi as u16) << 8) | (lo as u16)
    }

    /// Stores `data` little-endian at `address`, low byte first, through two
    /// byte writes.
    pub fn write_word(&mut self, address: u16, data: u16)
        requires
            old(self).wf(),
        ensures
            final(self).wf(),
            final(self)@ == with_word(old(self)@, address, data),
    {
        let hi = (data >> 8) as u8;
        let lo = (data & 0xff) as u8;
        assert((data >> 8) as u8 == data / 256 && (data & 0xff) as u8 == data % 256)
            by (bit_vector);
        self.write(address, lo);
        self.write(address.wrapping_add(1), hi);
    }
}

/// Shifting the high byte up by eight and or-ing in the low byte builds the
/// same word as `make_word`.
pub proof fn lemma_word_from_bytes(lo: u8, hi: u8)
    ensures
        ((hi as u16) << 8) | (lo as u16) == make_word(lo, hi),
{
    assert(((hi as u16) << 8) | (lo as u16) == hi * 256 + lo) by (bit_vector);
}

/// Writing a word and reading it back at the same address gives the word,
/// at every address, the last one included (its high byte goes to 0x0000).
pub proof fn lemma_word_round_trip(bytes: Seq<u8>, address: u16, word: u16)
    requires
        bytes.len() == MEMORY_SIZE,
    ensures
        word_at(with_word(bytes, address, word), address) == word,
{
}

} // verus!
