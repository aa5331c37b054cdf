use vstd::prelude::*;
use crate::fault::Fault;

verus! {

pub const MEMORY_SIZE: usize = 4096;

/// Address at which programs are loaded and execution starts.
pub const START_ADDRESS: usize = 0x200;

/// Address of the first byte of the font table.
pub const FONTSET_START_ADDRESS: usize = 0x50;

/// Largest program image that fits in memory.
pub const MAX_ROM_SIZE: usize = 3584;

/// Five-byte glyphs of the hexadecimal digits `0`..`F`.
pub const FONTSET: [u8; 80] = [
    0xF0, 0x90, 0x90, 0x90, 0xF0, // 0
    0x20, 0x60, 0x20, 0x20, 0x70, // 1
    0xF0, 0x10, 0xF0, 0x80, 0xF0, // 2
    0xF0, 0x10, 0xF0, 0x10, 0xF0, // 3
    0x90, 0x90, 0xF0, 0x10, 0x10, // 4
    0xF0, 0x80, 0xF0, 0x10, 0xF0, // 5
    0xF0, 0x80, 0xF0, 0x90, 0xF0, // 6
    0xF0, 0x10, 0x20, 0x40, 0x40, // 7
    0xF0, 0x90, 0xF0, 0x90, 0xF0, // 8
    0xF0, 0x90, 0xF0, 0x10, 0xF0, // 9
    0xF0, 0x90, 0xF0, 0x90, 0x90, // A
    0xE0, 0x90, 0xE0, 0x90, 0xE0, // B
    0xF0, 0x80, 0x80, 0x80, 0xF0, // C
    0xE0, 0x90, 0x90, 0x90, 0xE0, // D
    0xF0, 0x80, 0xF0, 0x80, 0xF0, // E
    0xF0, 0x80, 0xF0, 0x80, 0x80, // F
];

/// Memory contents at power-on: the font table in place, every other byte zero.
pub open spec fn initial_memory() -> Seq<u8> {
    Seq::new(
        MEMORY_SIZE as nat,
        |i: int|
            if FONTSET_START_ADDRESS <= i < FONTSET_START_ADDRESS + 80 {
                FONTSET@[i - FONTSET_START_ADDRESS]
            } else {
                0u8
            },
    )
}

/// `mem` with `data` written starting at `at`.
pub open spec fn overwrite(mem: Seq<u8>, at: int, data: Seq<u8>) -> Seq<u8> {
    mem.subrange(0, at) + data + mem.subrange(at + data.len(), mem.len() as int)
}

/// Address of the glyph of digit `d`.
pub open spec fn glyph_address(d: u8) -> u16 {
    (FONTSET_START_ADDRESS + 5 * d) as u16
}

/// Instruction word stored big-endian at `at` and `at + 1`.
pub open spec fn word_at(mem: Seq<u8>, at: int) -> u16 {
    (mem[at] * 256 + mem[at + 1]) as u16
}

/// The three decimal digits of `n`, hundreds first, written at `at`.
pub open spec fn with_decimal_digits(mem: Seq<u8>, at: int, n: u8) -> Seq<u8> {
    mem.update(at, n / 100).update(at + 1, (n / 10) % 10).update(at + 2, n % 10)
}

/// 4 KiB of memory with the program counter and the index register.
pub struct Memory {
    buf: [u8; MEMORY_SIZE],
    pc: u16,
    pub index_register: u16,
}

impl View for Memory {
    type V = Seq<u8>;

    closed spec fn view(&self) -> Seq<u8> {
        self.buf@
    }
}

impl Memory {
    /// Address of the next instruction.
    pub closed spec fn pc(&self) -> u16 {
        self.pc
    }

    /// Value of the index register.
    pub closed spec fn index(&self) -> u16 {
        self.index_register
    }

    pub fn new() -> (r: Memory)
        ensures
            r@ == initial_memory(),
            r.pc() == START_ADDRESS,
            r.index() == 0,
    {
        let mut buf: [u8; MEMORY_SIZE] = [0u8; MEMORY_SIZE];
        let mut i: usize = 0;
        while i < FONTSET.len()
            invariant
                i <= 80,
                buf@.len() == MEMORY_SIZE,
                forall|j: int|
                    0 <= j < MEMORY_SIZE ==> #[trigger] buf@[j] == if FONTSET_START_ADDRESS <= j
                        < FONTSET_START_ADDRESS + i {
                        FONTSET@[j - FONTSET_START_ADDRESS]
                    } else {
                        0u8
                    },
            decreases 80 - i,
        {
            buf[FONTSET_START_ADDRESS + i] = FONTSET[i];
            i += 1;
        }
        let r = Memory { buf, pc: START_ADDRESS as u16, index_register: 0 };
        assert(r@ =~= initial_memory());
        r
    }

    /// Reads the big-endian instruction word at the program counter and moves past it.
    pub fn fetch(&mut self) -> (r: u16)
        requires
            old(self).pc() + 1 < MEMORY_SIZE,
        ensures
            r == word_at(old(self)@, old(self).pc() as int),
            final(self)@ == old(self)@,
            final(self).pc() == old(self).pc() + 2,
            final(self).index() == old(self).index(),
    {
        let hi = self.buf[self.pc as usize];
        let lo = self.buf[(self.pc + 1) as usize];
        let opcode = ((hi as u16) << 8u16) | (lo as u16);
        proof {
            assert(((hi as u16) << 8u16) | (lo as u16) == hi * 256 + lo) by (bit_vector);
        }
        self.advance(2);
        opcode
    }

    /// Writes a program image at `0x200`; fails when it is longer than 3584 bytes.
    pub fn load_instructions(&mut self, data: &[u8]) -> (r: Result<(), Fault>)
        ensures
            r is Err <==> data@.len() > MAX_ROM_SIZE,
            r is Err ==> r == Err::<(), Fault>(Fault::RomTooLarge) && *final(self) == *old(self),
            r is Ok ==> final(self)@ == overwrite(old(self)@, START_ADDRESS as int, data@),
            final(self).pc() == old(self).pc(),
            final(self).index() == old(self).index(),
    {
        if data.len() > MEMORY_SIZE - START_ADDRESS {
            return Err(Fault::RomTooLarge);
        }
        let n = data.len();
        let mut i: usize = 0;
        while i < n
            invariant
                n == data@.len() <= MAX_ROM_SIZE,
                i <= n,
                self@.len() == MEMORY_SIZE,
                self.pc == old(self).pc,
                self.index_register == old(self).index_register,
                forall|j: int|
                    0 <= j < MEMORY_SIZE ==> #[trigger] self@[j] == if START_ADDRESS <= j
                        < START_ADDRESS + i {
                        data@[j - START_ADDRESS]
                    } else {
                        old(self)@[j]
                    },
            decreases n - i,
        {
            self.buf[START_ADDRESS + i] = data[i];
            i += 1;
        }
        assert(self@ =~= overwrite(old(self)@, START_ADDRESS as int, data@));
        Ok(())
    }

    pub fn set_address(&mut self, addr: u16)
        ensures
            final(self)@ == old(self)@,
            final(self).pc() == addr,
            final(self).index() == old(self).index(),
    {
        self.pc = addr;
    }

    pub fn get_pointer(&self) -> (r: u16)
        ensures
            r == self.pc(),
    {
        self.pc
    }

    pub fn advance(&mut self, n: u16)
        requires
            old(self).pc() + n <= u16::MAX,
        ensures
            final(self)@ == old(self)@,
            final(self).pc() == old(self).pc() + n,
            final(self).index() == old(self).index(),
    {
        self.pc += n;
    }

    pub fn go_back(&mut self, n: u16)
        requires
            old(self).pc() >= n,
        ensures
            final(self)@ == old(self)@,
            final(self).pc() == old(self).pc() - n,
            final(self).index() == old(self).index(),
    {
        self.pc -= n;
    }

    pub fn get_index_register(&self) -> (r: u16)
        ensures
            r == self.index(),
    {
        self.index_register
    }

    pub fn set_index_register(&mut self, value: u16)
        ensures
            final(self)@ == old(self)@,
            final(self).pc() == old(self).pc(),
            final(self).index() == value,
    {
        self.index_register = value;
    }

    /// Bytes at addresses `from` up to, not including, `to`.
    pub fn slice(&self, from: usize, to: usize) -> (r: &[u8])
        requires
            from <= to <= MEMORY_SIZE,
        ensures
            r@ == self@.subrange(from as int, to as int),
    {
        vstd::slice::slice_subrange(self.buf.as_slice(), from, to)
    }

    /// Points the index register at the glyph of digit `font_no`.
    pub fn set_index_register_to_font_no(&mut self, font_no: u8)
        ensures
            final(self)@ == old(self)@,
            final(self).pc() == old(self).pc(),
            final(self).index() == glyph_address(font_no),
    {
        self.index_register = (FONTSET_START_ADDRESS + (5 * (font_no as usize))) as u16;
    }

    /// Writes the decimal digits of `n`, hundreds first, at the index register.
    pub fn store_bcd_repr(&mut self, n: u8)
        requires
            old(self).index() + 2 < MEMORY_SIZE,
        ensures
            final(self)@ == with_decimal_digits(old(self)@, old(self).index() as int, n),
            final(self).pc() == old(self).pc(),
            final(self).index() == old(self).index(),
    {
        let at = self.index_register as usize;
        self.buf[at + 2] = n % 10;
        let m = n / 10;
        self.buf[at + 1] = m % 10;
        let m = m / 10;
        self.buf[at] = m % 10;
    }

    /// Writes `src` starting at the index register.
    pub fn copy_from(&mut self, src: &[u8])
        requires
            old(self).index() + src@.len() <= MEMORY_SIZE,
        ensures
            final(self)@ == overwrite(old(self)@, old(self).index() as int, src@),
            final(self).pc() == old(self).pc(),
            final(self).index() == old(self).index(),
    {
        let at = self.index_register as usize;
        let n = src.len();
        let mut i: usize = 0;
        while i < n
            invariant
                n == src@.len(),
                at == old(self).index_register,
                at + n <= MEMORY_SIZE,
                i <= n,
                self@.len() == MEMORY_SIZE,
                self.pc == old(self).pc,
                self.index_register == old(self).index_register,
                forall|j: int|
                    0 <= j < MEMORY_SIZE ==> #[trigger] self@[j] == if at <= j < at + i {
                        src@[j - at]
                    } else {
                        old(self)@[j]
                    },
            decreases n - i,
        {
            self.buf[at + i] = src[i];
            i += 1;
        }
        assert(self@ =~= overwrite(old(self)@, at as int, src@));
    }
}

} // verus!
