//! Flat addressable memory of the machine: 4096 bytes, a font region holding
//! sixteen 5-byte hexadecimal glyphs, and a program region starting at 0x200.
//! Every accessor is bounds-checked and fails with an error instead of
//! wrapping or panicking.

use vstd::prelude::*;

verus! {

/// A memory address; valid addresses lie in `[0, MEMORY_END)`.
pub type Address = u16;

/// Number of addressable bytes.
pub const MEMORY_SIZE: usize = 4096;

/// First address past the end of memory.
pub const MEMORY_END: Address = 4096;

/// Start of the font region.
pub const FONT_LOCATION: Address = 0;

/// First address of the program region; programs are loaded here.
pub const PROGRAM_ENTRYPOINT: Address = 0x200;

/// Bytes available to a loaded program.
pub const PROGRAM_CAPACITY: Address = MEMORY_END - PROGRAM_ENTRYPOINT;

/// Bytes per font glyph.
pub const GLYPH_SIZE: Address = 5;

/// Failures of memory accesses; returned before any byte is written.
#[derive(Clone, Copy, Debug, PartialEq, Eq, Structural)]
pub enum Error {
    /// A single-byte access at this address, which is past the end of memory.
    OutOfBound(Address),
    /// A bulk access of `len` bytes from `start` (the two fields) that does
    /// not fit below `MEMORY_END`.
    RangeOutOfBound(Address, Address),
    /// A program longer than `PROGRAM_CAPACITY` bytes.
    ProgramTooLarge,
}

/// High nibble of a byte.
pub open spec fn nibble_hi(b: u8) -> u8 {
    b / 16
}

/// Low nibble of a byte.
pub open spec fn nibble_lo(b: u8) -> u8 {
    b % 16
}

/// The glyph for hexadecimal digit `g`, one byte per pixel row.
pub open spec fn spec_glyph(g: int) -> Seq<u8> {
    if g == 0x0 {
        seq![0xF0, 0x90, 0x90, 0x90, 0xF0]
    } else if g == 0x1 {
        seq![0x20, 0x60, 0x20, 0x20, 0x70]
    } else if g == 0x2 {
        seq![0xF0, 0x10, 0xF0, 0x80, 0xF0]
    } else if g == 0x3 {
        seq![0xF0, 0x10, 0xF0, 0x10, 0xF0]
    } else if g == 0x4 {
        seq![0x90, 0x90, 0xF0, 0x10, 0x10]
    } else if g == 0x5 {
        seq![0xF0, 0x80, 0xF0, 0x10, 0xF0]
    } else if g == 0x6 {
        seq![0xF0, 0x80, 0xF0, 0x90, 0xF0]
    } else if g == 0x7 {
        seq![0xF0, 0x10, 0x20, 0x40, 0x40]
    } else if g == 0x8 {
        seq![0xF0, 0x90, 0xF0, 0x90, 0xF0]
    } else if g == 0x9 {
        seq![0xF0, 0x90, 0xF0, 0x10, 0xF0]
    } else if g == 0xA {
        seq![0xF0, 0x90, 0xF0, 0x90, 0x90]
    } else if g == 0xB {
        seq![0xE0, 0x90, 0xE0, 0x90, 0xE0]
    } else if g == 0xC {
        seq![0xF0, 0x80, 0x80, 0x80, 0xF0]
    } else if g == 0xD {
        seq![0xE0, 0x90, 0x90, 0x90, 0xE0]
    } else if g == 0xE {
        seq![0xF0, 0x80, 0xF0, 0x80, 0xF0]
    } else {
        seq![0xF0, 0x80, 0xF0, 0x80, 0x80]
    }
}

/// Byte `a` of the font region, for `a` in `[0, 80)`: row `a % 5` of the
/// glyph for digit `a / 5`.
pub open spec fn font_byte(a: int) -> u8 {
    spec_glyph(a / 5)[a % 5]
}

/// The machine's memory.
pub struct Memory {
    bytes: [u8; MEMORY_SIZE],
}

impl View for Memory {
    type V = Seq<u8>;

    closed spec fn view(&self) -> Seq<u8> {
        self.bytes@
    }
}

/// The five pixel rows of the glyph for hexadecimal digit `g`.
fn glyph(g: u8) -> (r: [u8; 5])
    requires
        g < 16,
    ensures
        r@ =~= spec_glyph(g as int),
{
    match g {
        0x0 => [0xF0, 0x90, 0x90, 0x90, 0xF0],
        0x1 => [0x20, 0x60, 0x20, 0x20, 0x70],
        0x2 => [0xF0, 0x10, 0xF0, 0x80, 0xF0],
        0x3 => [0xF0, 0x10, 0xF0, 0x10, 0xF0],
        0x4 => [0x90, 0x90, 0xF0, 0x10, 0x10],
        0x5 => [0xF0, 0x80, 0xF0, 0x10, 0xF0],
        0x6 => [0xF0, 0x80, 0xF0, 0x90, 0xF0],
        0x7 => [0xF0, 0x10, 0x20, 0x40, 0x40],
        0x8 => [0xF0, 0x90, 0xF0, 0x90, 0xF0],
        0x9 => [0xF0, 0x90, 0xF0, 0x10, 0xF0],
        0xA => [0xF0, 0x90, 0xF0, 0x90, 0x90],
        0xB => [0xE0, 0x90, 0xE0, 0x90, 0xE0],
        0xC => [0xF0, 0x80, 0x80, 0x80, 0xF0],
        0xD => [0xE0, 0x90, 0x90, 0x90, 0xE0],
        0xE => [0xF0, 0x80, 0xF0, 0x80, 0xF0],
        _ => [0xF0, 0x80, 0xF0, 0x80, 0x80],
    }
}

/// A memory view always has exactly `MEMORY_SIZE` bytes.
pub broadcast proof fn lemma_memory_len(m: Memory)
    ensures
        (#[trigger] m@).len() == MEMORY_SIZE,
{
}

impl Memory {
    /// Memory with every byte zero.
    pub fn zeroed() -> (m: Memory)
        ensures
            m@.len() == MEMORY_SIZE,
            forall|a: int| 0 <= a < MEMORY_SIZE ==> m@[a] == 0u8,
    {
        Memory { bytes: [0u8; MEMORY_SIZE] }
    }

    /// Read the byte at `addr`; fails for addresses past the end of memory.
    pub fn get(&self, addr: Address) -> (r: Result<u8, Error>)
        ensures
            addr < MEMORY_END ==> r == Ok::<u8, Error>(self@[addr as int]),
            addr >= MEMORY_END ==> r == Err::<u8, Error>(Error::OutOfBound(addr)),
    {
        if addr < MEMORY_END {
            Ok(self.bytes[addr as usize])
        } else {
            Err(Error::OutOfBound(addr))
        }
    }

    /// Write `value` at `addr`; fails for addresses past the end of memory,
    /// leaving memory unchanged.
    pub fn set(&mut self, addr: Address, value: u8) -> (r: Result<(), Error>)
        ensures
            final(self)@.len() == old(self)@.len(),
            addr < MEMORY_END ==> r == Ok::<(), Error>(()) && final(self)@ == old(self)@.update(
                addr as int,
                value,
            ),
            addr >= MEMORY_END ==> r == Err::<(), Error>(Error::OutOfBound(addr)) && final(self)@
                == old(self)@,
    {
        if addr < MEMORY_END {
            self.bytes[addr as usize] = value;
            Ok(())
        } else {
            Err(Error::OutOfBound(addr))
        }
    }

    /// A mutable reference to the byte at `addr`; the memory after the call
    /// holds whatever value the caller leaves behind the reference. Fails
    /// for addresses past the end of memory, leaving memory unchanged.
    pub fn get_mut(&mut self, addr: Address) -> (r: Result<&mut u8, Error>)
        ensures
            addr < MEMORY_END ==> (r matches Ok(b) && *b == old(self)@[addr as int]
                && final(self)@ == old(self)@.update(addr as int, *final(b))),
            addr >= MEMORY_END ==> (r matches Err(e) && e == Error::OutOfBound(addr)
                && final(self)@ == old(self)@),
    {
        if addr < MEMORY_END {
            Ok(&mut self.bytes[addr as usize])
        } else {
            Err(Error::OutOfBound(addr))
        }
    }

    /// Copy out the `len` bytes starting at `start`; fails if the range does
    /// not fit below `MEMORY_END`. Used for bulk sprite reads.
    pub fn range(&self, start: Address, len: Address) -> (r: Result<Vec<u8>, Error>)
        ensures
            start + len <= MEMORY_END ==> (r matches Ok(bytes) && bytes@ == self@.subrange(
                start as int,
                start + len,
            )),
            start + len > MEMORY_END ==> r == Err::<Vec<u8>, Error>(
                Error::RangeOutOfBound(start, len),
            ),
    {
        if start as usize + len as usize <= MEMORY_SIZE {
            let mut bytes: Vec<u8> = Vec::new();
            let mut k: u16 = 0;
            while k < len
                invariant
                    k <= len,
                    start + len <= MEMORY_END,
                    bytes@ == self@.subrange(start as int, start + k),
                decreases len - k,
            {
                bytes.push(self.bytes[(start + k) as usize]);
                k = k + 1;
                proof {
                    assert(bytes@ =~= self@.subrange(start as int, start + k));
                }
            }
            Ok(bytes)
        } else {
            Err(Error::RangeOutOfBound(start, len))
        }
    }

    /// The four nibbles of the two bytes at `addr` and `addr + 1`, in source
    /// order: high then low nibble of the first byte, high then low nibble of
    /// the second. This order is what the instruction decoder matches on.
    pub fn nibbles_at(&self, addr: Address) -> (r: Result<[u8; 4], Error>)
        ensures
            addr + 1 < MEMORY_END ==> (r matches Ok(n) && n@ =~= seq![
                nibble_hi(self@[addr as int]),
                nibble_lo(self@[addr as int]),
                nibble_hi(self@[addr + 1]),
                nibble_lo(self@[addr + 1]),
            ]),
            addr >= MEMORY_END ==> r == Err::<[u8; 4], Error>(Error::OutOfBound(addr)),
            addr + 1 == MEMORY_END ==> r == Err::<[u8; 4], Error>(
                Error::OutOfBound((addr + 1) as u16),
            ),
    {
        if addr >= MEMORY_END {
            Err(Error::OutOfBound(addr))
        } else if addr + 1 >= MEMORY_END {
            Err(Error::OutOfBound(addr + 1))
        } else {
            let a = self.bytes[addr as usize];
            let b = self.bytes[addr as usize + 1];
            proof {
                assert(a >> 4u8 == a / 16 && (a & 0xf) == a % 16) by (bit_vector);
                assert(b >> 4u8 == b / 16 && (b & 0xf) == b % 16) by (bit_vector);
            }
            Ok([a >> 4, a & 0xf, b >> 4, b & 0xf])
        }
    }

    /// Install a program at `PROGRAM_ENTRYPOINT`; fails if it does not fit in
    /// the program region, leaving memory unchanged. Bytes of the program
    /// region past the program keep their previous contents.
    pub fn load_program(&mut self, program: &[u8]) -> (r: Result<(), Error>)
        ensures
            program@.len() <= PROGRAM_CAPACITY ==> {
                &&& r == Ok::<(), Error>(())
                &&& final(self)@.len() == MEMORY_SIZE
                &&& forall|k: int|
                    0 <= k < program@.len() ==> final(self)@[PROGRAM_ENTRYPOINT + k]
                        == program@[k]
                &&& forall|a: int|
                    0 <= a < MEMORY_SIZE && !(PROGRAM_ENTRYPOINT <= a < PROGRAM_ENTRYPOINT
                        + program@.len()) ==> final(self)@[a] == old(self)@[a]
            },
            program@.len() > PROGRAM_CAPACITY ==> r == Err::<(), Error>(Error::ProgramTooLarge)
                && final(self)@ == old(self)@,
    {
        if program.len() > PROGRAM_CAPACITY as usize {
            return Err(Error::ProgramTooLarge);
        }
        let mut k: usize = 0;
        while k < program.len()
            invariant
                k <= program@.len(),
                program@.len() <= PROGRAM_CAPACITY,
                self@.len() == MEMORY_SIZE,
                forall|j: int| 0 <= j < k ==> self@[PROGRAM_ENTRYPOINT + j] == program@[j],
                forall|a: int|
                    0 <= a < MEMORY_SIZE && !(PROGRAM_ENTRYPOINT <= a < PROGRAM_ENTRYPOINT + k)
                        ==> self@[a] == old(self)@[a],
            decreases program@.len() - k,
        {
            self.bytes[PROGRAM_ENTRYPOINT as usize + k] = program[k];
            k = k + 1;
        }
        Ok(())
    }

    /// Write the sixteen hexadecimal glyphs into the font region, digit `0`
    /// at `FONT_LOCATION`, `GLYPH_SIZE` bytes per digit; the rest of memory
    /// is untouched.
    pub fn load_font(&mut self)
        ensures
            final(self)@.len() == MEMORY_SIZE,
            forall|a: int| 0 <= a < 16 * GLYPH_SIZE ==> final(self)@[a] == font_byte(a),
            forall|a: int|
                16 * GLYPH_SIZE <= a < MEMORY_SIZE ==> final(self)@[a] == old(self)@[a],
    {
        let mut g: u8 = 0;
        while g < 16
            invariant
                g <= 16,
                self@.len() == MEMORY_SIZE,
                forall|a: int| 0 <= a < g * GLYPH_SIZE ==> self@[a] == font_byte(a),
                forall|a: int| g * GLYPH_SIZE <= a < MEMORY_SIZE ==> self@[a] == old(self)@[a],
            decreases 16 - g,
        {
            let rows = glyph(g);
            let base: usize = g as usize * GLYPH_SIZE as usize;
            let mut j: usize = 0;
            while j < GLYPH_SIZE as usize
                invariant
                    g < 16,
                    j <= GLYPH_SIZE,
                    base == g * GLYPH_SIZE,
                    rows@ =~= spec_glyph(g as int),
                    self@.len() == MEMORY_SIZE,
                    forall|a: int| 0 <= a < base + j ==> self@[a] == font_byte(a),
                    forall|a: int| base + j <= a < MEMORY_SIZE ==> self@[a] == old(self)@[a],
                decreases GLYPH_SIZE - j,
            {
                self.bytes[base + j] = rows[j];
                proof {
                    let a = base + j;
                    assert(a / 5 == g && a % 5 == j) by (nonlinear_arith)
                        requires
                            a == g * 5 + j,
                            0 <= j < 5,
                            0 <= g < 16,
                    ;
                }
                j = j + 1;
            }
            g = g + 1;
        }
    }
}

} // verus!
