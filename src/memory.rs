use vstd::prelude::*;

verus! {

/// Number of addressable bytes.
pub const MEMORY_SIZE: usize = 4096;

/// First address of the program region.
pub const PROGRAM_START: usize = 0x200;

/// Largest program image that fits between the program start and the top of memory.
pub const MAX_PROGRAM_SIZE: usize = 3584;

/// Built-in glyph sprites for the hexadecimal digits 0 through F, five bytes each.
pub const FONT: [u8; 80] = [
    0xF0, 0x90, 0x90, 0x90, 0xF0, // 0
    0x20, 0x60, 0x20, 0x20, 0x70, // 1
    0xF0, 0x10, 0xF0, 0x80, 0xF0, // 2
    0xF0, 0x10, 0xF0, 0x10, 0xF0, // 3
    0x90, 0x90, 0xF0, 0x10, 0x10, // 4
    0xF0, 0x80, 0xF0, 0x10, 0xF0, // 5
    0xF0, 0x80, 0xF0, 0x90, 0xF0, // 6
    0xF0, 0x10, 0x20, 0x40, 0x40, // 7
    0xF0, 0x90, 0xF0, 0x90, 0xF0, // 8
    0xF0, 0x90, 0xF0, 0x10, 0xF0, // 9
    0xF0, 0x90, 0xF0, 0x90, 0x90, // A
    0xE0, 0x90, 0xE0, 0x90, 0xE0, // B
    0xF0, 0x80, 0x80, 0x80, 0xF0, // C
    0xE0, 0x90, 0x90, 0x90, 0xE0, // D
    0xF0, 0x80, 0xF0, 0x80, 0xF0, // E
    0xF0, 0x80, 0xF0, 0x80, 0x80, // F
];

/// The flat byte-addressable memory of the machine.
#[derive(Debug)]
pub struct MemoryBus {
    rom: [u8; 4096],
}

impl View for MemoryBus {
    type V = Seq<u8>;

    closed spec fn view(&self) -> Seq<u8> {
        self.rom@
    }
}

/// The memory after a program image has been copied in at the program start:
/// the image's bytes up to the top of memory, everything else as before.
pub open spec fn with_program(mem: Seq<u8>, image: Seq<u8>) -> Seq<u8> {
    Seq::new(
        mem.len(),
        |a: int|
            if PROGRAM_START <= a < PROGRAM_START + image.len() {
                image[a - PROGRAM_START]
            } else {
                mem[a]
            },
    )
}

/// The 16-bit word stored at `addr`, most significant byte first.
pub open spec fn word_at(mem: Seq<u8>, addr: int) -> u16 {
    (mem[addr] as int * 256 + mem[addr + 1] as int) as u16
}

impl MemoryBus {
    /// Every memory holds exactly `MEMORY_SIZE` bytes.
    pub proof fn lemma_size(&self)
        ensures
            self@.len() == MEMORY_SIZE,
    {
    }

    /// A memory holding the glyph sprites at its bottom and zero everywhere else.
    pub fn new() -> (r: Self)
        ensures
            r@.len() == MEMORY_SIZE,
            forall|i: int| 0 <= i < 80 ==> r@[i] == FONT@[i],
            forall|i: int| 80 <= i < MEMORY_SIZE ==> r@[i] == 0,
    {
        let mut rom = [0u8; 4096];
        let mut i: usize = 0;
        while i < 80
            invariant
                i <= 80,
                rom@.len() == 4096,
                forall|j: int| 0 <= j < i ==> rom@[j] == FONT@[j],
                forall|j: int| i <= j < 4096 ==> rom@[j] == 0,
            decreases 80 - i,
        {
            rom[i] = FONT[i];
            i += 1;
        }
        MemoryBus { rom }
    }

    /// Copies a program image into memory from the program start on; bytes that
    /// would lie past the top of memory are dropped. The glyph region is untouched.
    pub fn load_rom(&mut self, image: &[u8])
        ensures
            final(self)@ == with_program(old(self)@, image@),
    {
        let mut i: usize = 0;
        while i < image.len() && i < MAX_PROGRAM_SIZE
            invariant
                i <= image@.len(),
                i <= MAX_PROGRAM_SIZE,
                self.rom@.len() == MEMORY_SIZE,
                forall|a: int|
                    0 <= a < MEMORY_SIZE ==> #[trigger] self.rom@[a] == if PROGRAM_START <= a
                        < PROGRAM_START + i {
                        image@[a - PROGRAM_START]
                    } else {
                        old(self).rom@[a]
                    },
            decreases image@.len() - i,
        {
            self.rom[PROGRAM_START + i] = image[i];
            i += 1;
        }
        assert(self@ =~= with_program(old(self)@, image@));
    }

    /// The byte at `addr`.
    pub fn read_byte(&self, addr: u16) -> (r: u8)
        requires
            addr < MEMORY_SIZE,
        ensures
            r == self@[addr as int],
    {
        self.rom[addr as usize]
    }

    /// The word at `addr`: the byte there and the next one, most significant first.
    pub fn read_word(&self, addr: u16) -> (r: u16)
        requires
            addr + 1 < MEMORY_SIZE,
        ensures
            r == word_at(self@, addr as int),
            r as int == self@[addr as int] * 256 + self@[addr + 1],
    {
        let hi = self.rom[addr as usize] as u16;
        let lo = self.rom[addr as usize + 1] as u16;
        hi * 256 + lo
    }

    /// Overwrites the byte at `addr` with `val`.
    pub fn write(&mut self, addr: u16, val: u8)
        requires
            addr < MEMORY_SIZE,
        ensures
            final(self)@ == old(self)@.update(addr as int, val),
    {
        self.rom[addr as usize] = val;
    }

    /// The number of addressable bytes.
    pub fn len(&self) -> (r: usize)
        ensures
            r == self@.len(),
            r == MEMORY_SIZE,
    {
        self.rom.len()
    }
}

} // verus!
