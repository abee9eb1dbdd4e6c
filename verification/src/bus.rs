use vstd::prelude::*;

verus! {

/// Number of cells in the full 16-bit address space.
pub const ADDRESS_SPACE: usize = 0x10000;

/// The address that follows `addr`, wrapping from `0xFFFF` to `0`.
pub open spec fn next_addr(addr: u16) -> u16 {
    if addr == 0xFFFF {
        0
    } else {
        (addr + 1) as u16
    }
}

/// The 16-bit word whose low byte is `lo` and whose high byte is `hi`.
pub open spec fn word_of(lo: u8, hi: u8) -> u16 {
    (lo as int + 256 * (hi as int)) as u16
}

/// The low byte of `word`.
pub open spec fn low_byte(word: u16) -> u8 {
    (word % 256) as u8
}

/// The high byte of `word`.
pub open spec fn high_byte(word: u16) -> u8 {
    (word / 256) as u8
}

/// The little-endian word stored in `cells` at `addr` and at the address after it.
pub open spec fn word_at(cells: Seq<u8>, addr: u16) -> u16 {
    word_of(cells[addr as int], cells[next_addr(addr) as int])
}

/// `cells` after the little-endian word `word` was stored at `addr` and at the
/// address after it, low byte first.
pub open spec fn with_word(cells: Seq<u8>, addr: u16, word: u16) -> Seq<u8> {
    cells.update(addr as int, low_byte(word)).update(next_addr(addr) as int, high_byte(word))
}

/// Computes [`next_addr`].
pub fn following(addr: u16) -> (next: u16)
    ensures
        next == next_addr(addr),
{
    if addr == 0xFFFF {
        0
    } else {
        addr + 1
    }
}

/// Computes [`word_of`].
pub fn make_word(lo: u8, hi: u8) -> (word: u16)
    ensures
        word == word_of(lo, hi),
{
    (lo as u16) + 256 * (hi as u16)
}

/// A byte-addressable memory.
///
/// What is proved of the processor is proved over a model of the bus: the
/// sequence of its cells. An implementation that gives this model must behave
/// as a memory does: a read returns the cell's content and changes nothing, a
/// write replaces exactly one cell. The cells need not span the whole address
/// space; an address at or beyond their number is not mapped, and must not be
/// read or written.
///
/// A device whose reads or writes do more than that can implement the two
/// operations and give no model. The processor runs on it all the same, but
/// none of its contracts then says anything of the run.
pub trait Bus {
    /// The content of the memory, cell by cell from address 0. Without a
    /// model of its own an implementation has no cells.
    open spec fn cells(&self) -> Seq<u8> {
        Seq::empty()
    }

    /// Reads the byte at `addr`.
    fn read(&self, addr: u16) -> (data: u8)
        requires
            (addr as int) < self.cells().len(),
        ensures
            data == self.cells()[addr as int],
    ;

    /// Writes `data` at `addr`.
    fn write(&mut self, addr: u16, data: u8)
        requires
            (addr as int) < old(self).cells().len(),
        ensures
            final(self).cells() == old(self).cells().update(addr as int, data),
    ;

    /// Reads the little-endian word at `addr`. The high byte comes from the
    /// address after `addr`, which is 0 for `0xFFFF`.
    fn read_word(&self, addr: u16) -> (word: u16)
        requires
            (addr as int) < self.cells().len(),
            (next_addr(addr) as int) < self.cells().len(),
        ensures
            word == word_at(self.cells(), addr),
    {
        let lo: u8 = self.read(addr);
        let hi: u8 = self.read(following(addr));
        make_word(lo, hi)
    }

    /// Writes `data` as a little-endian word at `addr`, low byte first. The high
    /// byte goes to the address after `addr`, which is 0 for `0xFFFF`.
    fn write_word(&mut self, addr: u16, data: u16)
        requires
            (addr as int) < old(self).cells().len(),
            (next_addr(addr) as int) < old(self).cells().len(),
        ensures
            final(self).cells() == with_word(old(self).cells(), addr, data),
    {
        self.write(addr, (data % 256) as u8);
        self.write(following(addr), (data / 256) as u8);
    }
}

/// Plain random-access memory.
#[derive(Debug)]
pub struct Ram {
    memory: Vec<u8>,
}

impl Bus for Ram {
    closed spec fn cells(&self) -> Seq<u8> {
        self.memory@
    }

    fn read(&self, addr: u16) -> (data: u8) {
        self.memory[addr as usize]
    }

    fn write(&mut self, addr: u16, data: u8) {
        self.memory.set(addr as usize, data);
    }
}

/// `cells` with `bytes` copied over the cells from `at` on.
pub open spec fn with_bytes(cells: Seq<u8>, bytes: Seq<u8>, at: int) -> Seq<u8> {
    Seq::new(
        cells.len(),
        |i: int|
            if at <= i < at + bytes.len() {
                bytes[i - at]
            } else {
                cells[i]
            },
    )
}

impl Ram {
    /// A memory over the whole 16-bit address space, every cell zero.
    pub fn new() -> (ram: Self)
        ensures
            ram.cells() == Seq::new(ADDRESS_SPACE as nat, |i: int| 0u8),
    {
        Self::of_size(ADDRESS_SPACE)
    }

    /// A memory of `size` cells, every cell zero.
    pub fn of_size(size: usize) -> (ram: Self)
        ensures
            ram.cells() == Seq::new(size as nat, |i: int| 0u8),
    {
        let ram = Self { memory: vec![0u8; size] };
        assert(ram.memory@ =~= Seq::new(size as nat, |i: int| 0u8));
        ram
    }

    /// Copies `bytes` into the memory, the first of them to address `at`.
    pub fn load(&mut self, bytes: &[u8], at: usize)
        requires
            at + bytes@.len() <= old(self).cells().len(),
        ensures
            final(self).cells() == with_bytes(old(self).cells(), bytes@, at as int),
    {
        let size: usize = self.memory.len();
        let mut i: usize = 0;
        while i < bytes.len()
            invariant
                i <= bytes@.len(),
                at + bytes@.len() <= size,
                self.memory@.len() == size,
                size == old(self).memory@.len(),
                self.memory@ == with_bytes(old(self).memory@, bytes@.take(i as int), at as int),
            decreases bytes@.len() - i,
        {
            self.memory.set(at + i, bytes[i]);
            i += 1;
            assert(self.memory@ =~= with_bytes(
                old(self).memory@,
                bytes@.take(i as int),
                at as int,
            ));
        }
        assert(bytes@.take(i as int) =~= bytes@);
    }
}

impl Clone for Ram {
    fn clone(&self) -> (copy: Self)
        ensures
            copy.cells() == self.cells(),
    {
        let copy = Self { memory: self.memory.clone() };
        assert(copy.memory@ =~= self.memory@);
        copy
    }
}

impl Default for Ram {
    fn default() -> (ram: Self)
        ensures
            ram.cells() == Seq::new(ADDRESS_SPACE as nat, |i: int| 0u8),
    {
        Self::new()
    }
}

} // verus!
