use vstd::prelude::*;

verus! {

/// Number of addressable bytes: addresses run from 0x000 to 0xFFF.
pub const MEMORY_SIZE: usize = 0x1000;

/// Bytes occupied by one font glyph.
pub const GLYPH_SIZE: u16 = 5;

/// Flat 4096-byte store, seeded on construction with the built-in
/// hexadecimal font at address 0.
pub struct Memory {
    bytes: Vec<u8>,
}

impl View for Memory {
    type V = Seq<u8>;

    closed spec fn view(&self) -> Seq<u8> {
        self.bytes@
    }
}

impl Memory {
    pub open spec fn wf(&self) -> bool {
        self@.len() == MEMORY_SIZE
    }

    /// The 80-byte font table: glyphs 0 through F in order, five bytes per
    /// glyph, each byte one 8-pixel row with the glyph in its high nibble.
    pub open spec fn font() -> Seq<u8> {
        seq![
            // 0
            0b0110_0000u8,
            0b1001_0000u8,
            0b1001_0000u8,
            0b1001_0000u8,
            0b0110_0000u8,
            // 1
            0b0110_0000u8,
            0b0010_0000u8,
            0b0010_0000u8,
            0b0010_0000u8,
            0b0111_0000u8,
            // 2
            0b1110_0000u8,
            0b0001_0000u8,
            0b0011_0000u8,
            0b0110_0000u8,
            0b1111_0000u8,
            // 3
            0b1110_0000u8,
            0b0001_0000u8,
            0b0110_0000u8,
            0b0001_0000u8,
            0b1110_0000u8,
            // 4
            0b1001_0000u8,
            0b1001_0000u8,
            0b1111_0000u8,
            0b0001_0000u8,
            0b0001_0000u8,
            // 5
            0b1111_0000u8,
            0b1000_0000u8,
            0b1111_0000u8,
            0b0001_0000u8,
            0b1111_0000u8,
            // 6
            0b1111_0000u8,
            0b1000_0000u8,
            0b1111_0000u8,
            0b1001_0000u8,
            0b1111_0000u8,
            // 7
            0b1111_0000u8,
            0b0001_0000u8,
            0b0010_0000u8,
            0b0100_0000u8,
            0b0100_0000u8,
            // 8
            0b1111_0000u8,
            0b1001_0000u8,
            0b1111_0000u8,
            0b1001_0000u8,
            0b1111_0000u8,
            // 9
            0b1111_0000u8,
            0b1001_0000u8,
            0b1111_0000u8,
            0b0001_0000u8,
            0b1111_0000u8,
            // A
            0b1111_0000u8,
            0b1001_0000u8,
            0b1111_0000u8,
            0b1001_0000u8,
            0b1001_0000u8,
            // B
            0b1110_0000u8,
            0b1001_0000u8,
            0b1110_0000u8,
            0b1001_0000u8,
            0b1110_0000u8,
            // C
            0b1111_0000u8,
            0b1000_0000u8,
            0b1000_0000u8,
            0b1000_0000u8,
            0b1111_0000u8,
            // D
            0b1110_0000u8,
            0b1001_0000u8,
            0b1001_0000u8,
            0b1001_0000u8,
            0b1110_0000u8,
            // E
            0b1111_0000u8,
            0b1000_0000u8,
            0b1111_0000u8,
            0b1000_0000u8,
            0b1111_0000u8,
            // F
            0b1111_0000u8,
            0b1000_0000u8,
            0b1110_0000u8,
            0b1000_0000u8,
            0b1000_0000u8,
        ]
    }

    /// Memory contents right after construction: the font table, then zeroes.
    pub open spec fn initial() -> Seq<u8> {
        Self::font() + Seq::new((MEMORY_SIZE - 80) as nat, |i: int| 0u8)
    }

    pub fn get(&self, index: u16) -> (value: u8)
        requires
            self.wf(),
            index < MEMORY_SIZE,
        ensures
            value == self@[index as int],
    {
        self.bytes[index as usize]
    }

    pub fn set(&mut self, index: u16, value: u8)
        requires
            old(self).wf(),
            index < MEMORY_SIZE,
        ensures
            final(self).wf(),
            final(self)@ == old(self)@.update(index as int, value),
    {
        self.bytes.set(index as usize, value);
    }

    /// Base address of the font glyph for `value`: five bytes per glyph,
    /// glyphs starting at address 0.
    pub fn index_of_char(&self, value: u8) -> (address: u16)
        ensures
            address == 5 * value,
    {
        GLYPH_SIZE * (value as u16)
    }

    /// A copy of the bytes at `start .. start + length`.
    #[verifier::loop_isolation(false)]
    pub fn range(&self, start: u16, length: u16) -> (bytes: Vec<u8>)
        requires
            self.wf(),
            start + length <= MEMORY_SIZE,
        ensures
            bytes@ == self@.subrange(start as int, start as int + length as int),
    {
        let mut bytes: Vec<u8> = Vec::new();
        let mut i: u16 = 0;
        while i < length
            invariant
                i <= length,
                bytes@ == self@.subrange(start as int, start as int + i as int),
            decreases length - i,
        {
            bytes.push(self.bytes[(start + i) as usize]);
            proof {
                assert(bytes@ =~= self@.subrange(start as int, start as int + (i + 1) as int));
            }
            i = i + 1;
        }
        bytes
    }
}

impl Default for Memory {
    /// A zeroed memory with the font table seeded at address 0.
    #[verifier::loop_isolation(false)]
    fn default() -> (memory: Memory)
        ensures
            memory.wf(),
            memory@ == Memory::initial(),
    {
        let mut bytes: Vec<u8> = Vec::new();
        // 0
        bytes.push(0b0110_0000);
        bytes.push(0b1001_0000);
        bytes.push(0b1001_0000);
        bytes.push(0b1001_0000);
        bytes.push(0b0110_0000);
        // 1
        bytes.push(0b0110_0000);
        bytes.push(0b0010_0000);
        bytes.push(0b0010_0000);
        bytes.push(0b0010_0000);
        bytes.push(0b0111_0000);
        // 2
        bytes.push(0b1110_0000);
        bytes.push(0b0001_0000);
        bytes.push(0b0011_0000);
        bytes.push(0b0110_0000);
        bytes.push(0b1111_0000);
        // 3
        bytes.push(0b1110_0000);
        bytes.push(0b0001_0000);
        bytes.push(0b0110_0000);
        bytes.push(0b0001_0000);
        bytes.push(0b1110_0000);
        // 4
        bytes.push(0b1001_0000);
        bytes.push(0b1001_0000);
        bytes.push(0b1111_0000);
        bytes.push(0b0001_0000);
        bytes.push(0b0001_0000);
        // 5
        bytes.push(0b1111_0000);
        bytes.push(0b1000_0000);
        bytes.push(0b1111_0000);
        bytes.push(0b0001_0000);
        bytes.push(0b1111_0000);
        // 6
        bytes.push(0b1111_0000);
        bytes.push(0b1000_0000);
        bytes.push(0b1111_0000);
        bytes.push(0b1001_0000);
        bytes.push(0b1111_0000);
        // 7
        bytes.push(0b1111_0000);
        bytes.push(0b0001_0000);
        bytes.push(0b0010_0000);
        bytes.push(0b0100_0000);
        bytes.push(0b0100_0000);
        // 8
        bytes.push(0b1111_0000);
        bytes.push(0b1001_0000);
        bytes.push(0b1111_0000);
        bytes.push(0b1001_0000);
        bytes.push(0b1111_0000);
        // 9
        bytes.push(0b1111_0000);
        bytes.push(0b1001_0000);
        bytes.push(0b1111_0000);
        bytes.push(0b0001_0000);
        bytes.push(0b1111_0000);
        // A
        bytes.push(0b1111_0000);
        bytes.push(0b1001_0000);
        bytes.push(0b1111_0000);
        bytes.push(0b1001_0000);
        bytes.push(0b1001_0000);
        // B
        bytes.push(0b1110_0000);
        bytes.push(0b1001_0000);
        bytes.push(0b1110_0000);
        bytes.push(0b1001_0000);
        bytes.push(0b1110_0000);
        // C
        bytes.push(0b1111_0000);
        bytes.push(0b1000_0000);
        bytes.push(0b1000_0000);
        bytes.push(0b1000_0000);
        bytes.push(0b1111_0000);
        // D
        bytes.push(0b1110_0000);
        bytes.push(0b1001_0000);
        bytes.push(0b1001_0000);
        bytes.push(0b1001_0000);
        bytes.push(0b1110_0000);
        // E
        bytes.push(0b1111_0000);
        bytes.push(0b1000_0000);
        bytes.push(0b1111_0000);
        bytes.push(0b1000_0000);
        bytes.push(0b1111_0000);
        // F
        bytes.push(0b1111_0000);
        bytes.push(0b1000_0000);
        bytes.push(0b1110_0000);
        bytes.push(0b1000_0000);
        bytes.push(0b1000_0000);
        proof {
            assert(bytes@ =~= Memory::font());
        }
        while bytes.len() < MEMORY_SIZE
            invariant
                80 <= bytes@.len() <= MEMORY_SIZE,
                bytes@ == Memory::font() + Seq::new((bytes@.len() - 80) as nat, |i: int| 0u8),
            decreases MEMORY_SIZE - bytes@.len(),
        {
            bytes.push(0);
            proof {
                assert(bytes@ =~= Memory::font()
                    + Seq::new((bytes@.len() - 80) as nat, |i: int| 0u8));
            }
        }
        proof {
            assert(bytes@ =~= Memory::initial());
        }
        Memory { bytes }
    }
}

} // verus!
