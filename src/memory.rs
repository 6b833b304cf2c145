use vstd::prelude::*;

verus! {

/// Size of the address space in bytes.
pub const MEM_SIZE: usize = 4096;

/// Address at which loaded programs start.
pub const PROGRAM_START: usize = 0x200;

/// Number of bytes of the built-in font: sixteen glyphs of five bytes.
pub const FONT_SIZE: usize = 80;

/// Bytes of each glyph of the built-in font.
pub const GLYPH_SIZE: usize = 5;

/// The built-in hex-digit font: glyph `d` occupies bytes `5 * d .. 5 * d + 5`.
pub const FONT: [u8; FONT_SIZE] = [
    0xF0, 0x90, 0x90, 0x90, 0xF0, // 0
    0x20, 0x60, 0x20, 0x20, 0x70, // 1
    0xF0, 0x10, 0xF0, 0x80, 0xF0, // 2
    0xF0, 0x10, 0xF0, 0x10, 0xF0, // 3
    0x90, 0x90, 0xF0, 0x10, 0x10, // 4
    0xF0, 0x80, 0xF0, 0x10, 0xF0, // 5
    0xF0, 0x80, 0xF0, 0x90, 0xF0, // 6
    0xF0, 0x10, 0x20, 0x40, 0x40, // 7
    0xF0, 0x90, 0xF0, 0x90, 0xF0, // 8
    0xF0, 0x90, 0xF0, 0x10, 0xF0, // 9
    0xF0, 0x90, 0xF0, 0x90, 0x90, // A
    0xE0, 0x90, 0xE0, 0x90, 0xE0, // B
    0xF0, 0x80, 0x80, 0x80, 0xF0, // C
    0xE0, 0x90, 0x90, 0x90, 0xE0, // D
    0xF0, 0x80, 0xF0, 0x80, 0xF0, // E
    0xF0, 0x80, 0xF0, 0x80, 0x80, // F
];

/// The 4096-byte address space, with the font at its start.
pub struct Memory {
    pub bytes: [u8; MEM_SIZE],
}

/// The contents of a freshly created memory: the font, then zeros.
pub open spec fn initial_memory() -> Seq<u8> {
    Seq::new(MEM_SIZE as nat, |a: int| if a < FONT_SIZE { FONT@[a] } else { 0u8 })
}

/// `mem` with `rom` copied over it from address `PROGRAM_START` on.
pub open spec fn with_rom(mem: Seq<u8>, rom: Seq<u8>) -> Seq<u8> {
    Seq::new(
        mem.len(),
        |a: int|
            if PROGRAM_START <= a < PROGRAM_START + rom.len() {
                rom[a - PROGRAM_START]
            } else {
                mem[a]
            },
    )
}

impl View for Memory {
    type V = Seq<u8>;

    open spec fn view(&self) -> Seq<u8> {
        self.bytes@
    }
}

impl Memory {
    pub fn new() -> (r: Memory)
        ensures
            r@ == initial_memory(),
    {
        let mut bytes = [0u8; MEM_SIZE];
        let mut a: usize = 0;
        while a < FONT_SIZE
            invariant
                a <= FONT_SIZE,
                bytes@.len() == MEM_SIZE,
                forall|b: int| 0 <= b < a ==> bytes@[b] == FONT@[b],
                forall|b: int| a <= b < MEM_SIZE ==> bytes@[b] == 0,
            decreases FONT_SIZE - a,
        {
            bytes[a] = FONT[a];
            a = a + 1;
        }
        let r = Memory { bytes };
        assert(r@ =~= initial_memory());
        r
    }

    pub fn read_byte(&self, address: usize) -> (r: u8)
        requires
            address < MEM_SIZE,
        ensures
            r == self@[address as int],
    {
        self.bytes[address]
    }

    pub fn write_byte(&mut self, address: usize, value: u8)
        requires
            address < MEM_SIZE,
        ensures
            final(self)@ == old(self)@.update(address as int, value),
    {
        self.bytes[address] = value;
    }

    /// Address of the font glyph of the hexadecimal digit `hex_sprite`.
    pub fn sprite_address(&self, hex_sprite: u8) -> (r: usize)
        requires
            hex_sprite < 16,
        ensures
            r == GLYPH_SIZE * hex_sprite as usize,
    {
        GLYPH_SIZE * hex_sprite as usize
    }

    /// The `length` bytes from `address` on.
    pub fn read_sprite(&self, address: usize, length: usize) -> (r: Vec<u8>)
        requires
            address + length <= MEM_SIZE,
        ensures
            r@ == self@.subrange(address as int, address + length),
    {
        let mut r: Vec<u8> = Vec::with_capacity(length);
        let mut k: usize = 0;
        while k < length
            invariant
                k <= length,
                address + length <= MEM_SIZE,
                self@.len() == MEM_SIZE,
                r@ == self@.subrange(address as int, address + k),
            decreases length - k,
        {
            r.push(self.bytes[address + k]);
            k = k + 1;
            assert(r@ =~= self@.subrange(address as int, address + k));
        }
        r
    }

    /// Copies `rom` into memory from `PROGRAM_START` on.
    pub fn load_rom(&mut self, rom: &[u8])
        requires
            PROGRAM_START + rom@.len() <= MEM_SIZE,
        ensures
            final(self)@ == with_rom(old(self)@, rom@),
    {
        let mut k: usize = 0;
        while k < rom.len()
            invariant
                k <= rom@.len(),
                PROGRAM_START + rom@.len() <= MEM_SIZE,
                self@.len() == MEM_SIZE,
                old(self)@.len() == MEM_SIZE,
                forall|a: int|
                    0 <= a < MEM_SIZE ==> self@[a] == (if PROGRAM_START <= a < PROGRAM_START + k {
                        rom@[a - PROGRAM_START]
                    } else {
                        old(self)@[a]
                    }),
            decreases rom@.len() - k,
        {
            self.bytes[PROGRAM_START + k] = rom[k];
            k = k + 1;
        }
        assert(self@ =~= with_rom(old(self)@, rom@));
    }
}

} // verus!
