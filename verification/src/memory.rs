//! The machine's memory: a fixed-size byte array addressed by word.
//!
//! An address names a word, not a byte. Word `a` occupies the bytes at
//! offsets `2 * a` and `2 * a + 1`, high byte first. Code and data share the
//! one address space; memory itself gives its contents no meaning.

use crate::fault::Fault;
use vstd::prelude::*;

verus! {

/// The machine's native unit of data and of addressing.
pub type Word = u16;

/// Bytes in one word.
pub const WORD_SIZE: usize = 2;

/// Addressable words in a memory image.
pub const MEM_WORDS: usize = 4096;

/// Bytes in a memory image.
pub const MEM_SIZE: usize = 8192;

/// The word whose high byte is `hi` and whose low byte is `lo`.
pub open spec fn word_of(hi: u8, lo: u8) -> Word {
    (hi as int * 256 + lo as int) as Word
}

/// The high byte of `w`.
pub open spec fn high_byte(w: Word) -> u8 {
    (w as int / 256) as u8
}

/// The low byte of `w`.
pub open spec fn low_byte(w: Word) -> u8 {
    (w as int % 256) as u8
}

/// Whether `addr` names a word inside memory.
pub open spec fn in_bounds(addr: Word) -> bool {
    (addr as int) < MEM_WORDS as int
}

/// The word that the byte image `bytes` holds at word address `addr`.
pub open spec fn word_at(bytes: Seq<u8>, addr: Word) -> Word {
    word_of(bytes[2 * (addr as int)], bytes[2 * (addr as int) + 1])
}

/// The byte image `bytes` with `value` stored at word address `addr`.
pub open spec fn store_word(bytes: Seq<u8>, addr: Word, value: Word) -> Seq<u8> {
    bytes.update(2 * (addr as int), high_byte(value)).update(
        2 * (addr as int) + 1,
        low_byte(value),
    )
}

/// The byte image `bytes` with its first `image.len()` bytes replaced by
/// `image`.
pub open spec fn overlay(bytes: Seq<u8>, image: Seq<u8>) -> Seq<u8> {
    image + bytes.subrange(image.len() as int, bytes.len() as int)
}

/// Splitting a word into its bytes and joining them again gives the word
/// back, and the other way round.
pub proof fn lemma_word_bytes(w: Word, hi: u8, lo: u8)
    ensures
        word_of(high_byte(w), low_byte(w)) == w,
        high_byte(word_of(hi, lo)) == hi,
        low_byte(word_of(hi, lo)) == lo,
{
}

/// Bytes of memory shown on one line of the hexadecimal listing.
pub const LINE_BYTES: usize = 64;

/// Bytes of memory in one group of a line; a blank follows each group.
pub const GROUP_BYTES: usize = 8;

/// Characters in one group of the listing: two digits for each byte and the
/// blank behind them.
pub const GROUP_CHARS: usize = 17;

/// Characters in one line of the listing: eight groups and the line feed.
pub const LINE_CHARS: usize = 137;

/// Characters in the whole listing.
pub const LISTING_CHARS: usize = 17536;

/// The ASCII code of the hexadecimal digit, in upper case, for a value from
/// 0 to 15.
pub open spec fn hex_digit(nibble: u8) -> u8 {
    if nibble < 10 {
        (0x30 + nibble) as u8
    } else {
        (0x37 + nibble) as u8
    }
}

/// The character at position `pos` of the listing of the image `bytes`.
///
/// A line shows `LINE_BYTES` bytes in groups of `GROUP_BYTES`. Each byte is
/// two hexadecimal digits, high digit first; a blank ends each group and a
/// line feed ends each line.
pub open spec fn listing_char(bytes: Seq<u8>, pos: int) -> u8 {
    let line = pos / 137;
    let column = pos % 137;
    let group = column / 17;
    let place = column % 17;
    let byte = bytes[line * 64 + group * 8 + place / 2];
    if column == 136 {
        0x0A
    } else if place == 16 {
        0x20
    } else if place % 2 == 0 {
        hex_digit(byte / 16)
    } else {
        hex_digit(byte % 16)
    }
}

/// The listing of the image `bytes` as ASCII text.
pub open spec fn listing(bytes: Seq<u8>) -> Seq<u8> {
    Seq::new(LISTING_CHARS as nat, |pos: int| listing_char(bytes, pos))
}

/// The ASCII code of the hexadecimal digit for `nibble`.
fn hex_digit_of(nibble: u8) -> (c: u8)
    requires
        nibble < 16,
    ensures
        c == hex_digit(nibble),
{
    if nibble < 10 {
        0x30 + nibble
    } else {
        0x37 + nibble
    }
}

/// A memory image of `MEM_SIZE` bytes. Its view is the sequence of its bytes.
pub struct Memory {
    mem: [u8; MEM_SIZE],
}

impl View for Memory {
    type V = Seq<u8>;

    closed spec fn view(&self) -> Seq<u8> {
        self.mem@
    }
}

impl Memory {
    /// The length of the view never changes.
    pub proof fn lemma_len(&self)
        ensures
            self@.len() == MEM_SIZE,
    {
    }

    /// A memory image in which every byte is zero.
    pub fn new() -> (m: Self)
        ensures
            m@ == Seq::new(MEM_SIZE as nat, |i: int| 0u8),
    {
        let m = Memory { mem: [0u8; MEM_SIZE] };
        assert(m.mem@ =~= Seq::new(MEM_SIZE as nat, |i: int| 0u8));
        m
    }

    /// Reads the word at `addr`, or fails when `addr` lies outside memory.
    pub fn read(&self, addr: Word) -> (r: Result<Word, Fault>)
        ensures
            in_bounds(addr) ==> r == Ok::<Word, Fault>(word_at(self@, addr)),
            !in_bounds(addr) ==> r == Err::<Word, Fault>(Fault::OutOfBoundsAccess(addr)),
    {
        if addr as usize >= MEM_WORDS {
            return Err(Fault::OutOfBoundsAccess(addr));
        }
        let offset: usize = addr as usize * WORD_SIZE;
        let hi: u8 = self.mem[offset];
        let lo: u8 = self.mem[offset + 1];
        Ok(hi as u16 * 256 + lo as u16)
    }

    /// Stores `value` at `addr`, or fails and changes nothing when `addr`
    /// lies outside memory.
    pub fn write(&mut self, addr: Word, value: Word) -> (r: Result<(), Fault>)
        ensures
            in_bounds(addr) ==> r == Ok::<(), Fault>(()) && final(self)@ == store_word(
                old(self)@,
                addr,
                value,
            ),
            !in_bounds(addr) ==> r == Err::<(), Fault>(Fault::OutOfBoundsAccess(addr))
                && final(self)@ == old(self)@,
    {
        if addr as usize >= MEM_WORDS {
            return Err(Fault::OutOfBoundsAccess(addr));
        }
        let offset: usize = addr as usize * WORD_SIZE;
        self.mem[offset] = (value / 256) as u8;
        self.mem[offset + 1] = (value % 256) as u8;
        Ok(())
    }

    /// Copies `bytes` to the start of memory and returns how many bytes were
    /// copied. An image larger than memory is refused and nothing is copied.
    pub fn load(&mut self, bytes: &[u8]) -> (r: Result<usize, Fault>)
        ensures
            bytes@.len() <= MEM_SIZE ==> r == Ok::<usize, Fault>(bytes@.len() as usize)
                && final(self)@ == overlay(old(self)@, bytes@),
            bytes@.len() > MEM_SIZE ==> r == Err::<usize, Fault>(
                Fault::ProgramTooLarge(bytes@.len() as usize, MEM_SIZE),
            ) && final(self)@ == old(self)@,
    {
        let n: usize = bytes.len();
        if n > MEM_SIZE {
            return Err(Fault::ProgramTooLarge(n, MEM_SIZE));
        }
        let mut i: usize = 0;
        while i < n
            invariant
                i <= n,
                n == bytes@.len(),
                n <= MEM_SIZE,
                self.mem@.len() == MEM_SIZE,
                forall|j: int| 0 <= j < i ==> self.mem@[j] == bytes@[j],
                forall|j: int| i <= j < MEM_SIZE ==> self.mem@[j] == old(self).mem@[j],
            decreases n - i,
        {
            self.mem[i] = bytes[i];
            i += 1;
        }
        assert(self.mem@ =~= overlay(old(self).mem@, bytes@));
        Ok(n)
    }

    /// How many bytes the image holds.
    pub fn size(&self) -> (n: usize)
        ensures
            n == MEM_SIZE,
            n == self@.len(),
    {
        MEM_SIZE
    }

    /// The hexadecimal listing of the whole image, as ASCII text.
    pub fn dump_memory(&self) -> (text: Vec<u8>)
        ensures
            text@ == listing(self@),
    {
        let mut text: Vec<u8> = Vec::with_capacity(LISTING_CHARS);
        let mut line: usize = 0;
        while line < MEM_SIZE / LINE_BYTES
            invariant
                line <= 128,
                text@.len() == line * 137,
                forall|p: int| 0 <= p < text@.len() ==> text@[p] == listing_char(self.mem@, p),
            decreases 128 - line,
        {
            let mut group: usize = 0;
            while group < LINE_BYTES / GROUP_BYTES
                invariant
                    line < 128,
                    group <= 8,
                    text@.len() == line * 137 + group * 17,
                    forall|p: int|
                        0 <= p < text@.len() ==> text@[p] == listing_char(self.mem@, p),
                decreases 8 - group,
            {
                let mut k: usize = 0;
                while k < GROUP_BYTES
                    invariant
                        line < 128,
                        group < 8,
                        k <= 8,
                        text@.len() == line * 137 + group * 17 + 2 * k,
                        forall|p: int|
                            0 <= p < text@.len() ==> text@[p] == listing_char(self.mem@, p),
                    decreases 8 - k,
                {
                    let byte: u8 = self.mem[line * LINE_BYTES + group * GROUP_BYTES + k];
                    let ghost at = text@.len() as int;
                    assert(at / 137 == line && at % 137 == group * 17 + 2 * k);
                    assert((at + 1) / 137 == line && (at + 1) % 137 == group * 17 + 2 * k + 1);
                    text.push(hex_digit_of(byte / 16));
                    text.push(hex_digit_of(byte % 16));
                    k += 1;
                }
                let ghost at = text@.len() as int;
                assert(at / 137 == line && at % 137 == group * 17 + 16);
                text.push(0x20);
                group += 1;
            }
            let ghost at = text@.len() as int;
            assert(at / 137 == line && at % 137 == 136);
            text.push(0x0A);
            line += 1;
        }
        assert(text@ =~= listing(self.mem@));
        text
    }

    /// A copy of the whole image, byte for byte.
    pub fn dump(&self) -> (bytes: Vec<u8>)
        ensures
            bytes@ == self@,
    {
        let mut bytes: Vec<u8> = Vec::with_capacity(MEM_SIZE);
        let mut i: usize = 0;
        while i < MEM_SIZE
            invariant
                i <= MEM_SIZE,
                bytes@.len() == i,
                forall|j: int| 0 <= j < i ==> bytes@[j] == self.mem@[j],
            decreases MEM_SIZE - i,
        {
            bytes.push(self.mem[i]);
            i += 1;
        }
        assert(bytes@ =~= self.mem@);
        bytes
    }
}

} // verus!
