use crate::bus::{high_byte, low_byte, make_word, word_at, word_of, Bus, ADDRESS_SPACE};
use crate::cpu::{wrapped_byte, Machine, CPU};
use vstd::prelude::*;

verus! {

/// First address of the page that holds the stack.
pub const STACK_PAGE: u16 = 0x0100;

/// The address of the stack cell that the stack pointer `pointer` names.
pub open spec fn stack_addr(pointer: u8) -> u16 {
    (STACK_PAGE + pointer) as u16
}

/// Whether the cells of `m` hold the whole stack page.
pub open spec fn stack_mapped(m: Machine) -> bool {
    m.memory.len() >= STACK_PAGE + 0x100
}

/// `m` after `data` was pushed: the byte goes to the cell that the stack
/// pointer names, and the pointer moves up by one within the page.
pub open spec fn pushed_byte(m: Machine, data: u8) -> Machine {
    Machine {
        memory: m.memory.update(stack_addr(m.stack_pointer) as int, data),
        stack_pointer: wrapped_byte(m.stack_pointer + 1),
        ..m
    }
}

/// `m` after a byte was pulled: the stack pointer moves down by one within
/// the page.
pub open spec fn after_pull_byte(m: Machine) -> Machine {
    Machine { stack_pointer: wrapped_byte(m.stack_pointer - 1), ..m }
}

/// The byte that a pull gives on `m`: the one that the pointer names after it
/// moved down.
pub open spec fn top_byte(m: Machine) -> u8 {
    m.memory[stack_addr(wrapped_byte(m.stack_pointer - 1)) as int]
}

/// `m` after `data` was pushed as a word: low byte first, the high byte in
/// the cell above it, and the pointer up by two within the page.
pub open spec fn pushed_word(m: Machine, data: u16) -> Machine {
    Machine {
        memory: m.memory.update(stack_addr(m.stack_pointer) as int, low_byte(data)).update(
            stack_addr(wrapped_byte(m.stack_pointer + 1)) as int,
            high_byte(data),
        ),
        stack_pointer: wrapped_byte(m.stack_pointer + 2),
        ..m
    }
}

/// `m` after a word was pulled: the stack pointer moves down by two within
/// the page.
pub open spec fn after_pull_word(m: Machine) -> Machine {
    Machine { stack_pointer: wrapped_byte(m.stack_pointer - 2), ..m }
}

/// The word that a pull gives on `m`.
pub open spec fn top_word(m: Machine) -> u16 {
    word_of(
        m.memory[stack_addr(wrapped_byte(m.stack_pointer - 2)) as int],
        m.memory[stack_addr(wrapped_byte(m.stack_pointer - 1)) as int],
    )
}

impl<T: Bus> CPU<T> {
    /// Pushes a byte on the stack.
    pub fn push_byte(&mut self, data: u8)
        requires
            stack_mapped(old(self)@),
        ensures
            final(self)@ == pushed_byte(old(self)@, data),
    {
        self.bus.write(STACK_PAGE + (self.stack_pointer as u16), data);
        self.stack_pointer = self.stack_pointer.wrapping_add(1);
    }

    /// Pulls the byte pushed last.
    pub fn pull_byte(&mut self) -> (data: u8)
        requires
            stack_mapped(old(self)@),
        ensures
            final(self)@ == after_pull_byte(old(self)@),
            data == top_byte(old(self)@),
    {
        self.stack_pointer = self.stack_pointer.wrapping_sub(1);
        self.bus.read(STACK_PAGE + (self.stack_pointer as u16))
    }

    /// Pushes a word on the stack, low byte first.
    pub fn push_word(&mut self, data: u16)
        requires
            stack_mapped(old(self)@),
        ensures
            final(self)@ == pushed_word(old(self)@, data),
    {
        let above: u8 = self.stack_pointer.wrapping_add(1);
        self.bus.write(STACK_PAGE + (self.stack_pointer as u16), (data % 256) as u8);
        self.bus.write(STACK_PAGE + (above as u16), (data / 256) as u8);
        self.stack_pointer = self.stack_pointer.wrapping_add(2);
    }

    /// Pulls the word pushed last.
    pub fn pull_word(&mut self) -> (data: u16)
        requires
            stack_mapped(old(self)@),
        ensures
            final(self)@ == after_pull_word(old(self)@),
            data == top_word(old(self)@),
    {
        self.stack_pointer = self.stack_pointer.wrapping_sub(2);
        let above: u8 = self.stack_pointer.wrapping_add(1);
        let low: u8 = self.bus.read(STACK_PAGE + (self.stack_pointer as u16));
        let high: u8 = self.bus.read(STACK_PAGE + (above as u16));
        make_word(low, high)
    }
}

/// The address of the word that a listing of the stack shows in place
/// `index`, for the stack pointer `pointer`: place 0 is the word pushed last.
pub open spec fn listed_addr(pointer: u8, index: int) -> u16 {
    (STACK_PAGE + pointer - 2 - 2 * index) as u16
}

impl<T: Bus> CPU<T> {
    /// Lists the stack as words, the word pushed last first. The listing
    /// takes the cells from the bottom of the page up to the stack pointer as
    /// whole words, so it holds half as many words as the pointer says
    /// bytes; a byte left at the bottom is not listed.
    pub fn stack_words(&self) -> (words: Vec<u16>)
        requires
            stack_mapped(self@),
        ensures
            words@.len() == self.stack_pointer / 2,
            forall|i: int|
                0 <= i < words@.len() ==> #[trigger] words@[i] == word_at(
                    self@.memory,
                    listed_addr(self.stack_pointer, i),
                ),
    {
        let count: u8 = self.stack_pointer / 2;
        let mut words: Vec<u16> = Vec::new();
        let mut i: u8 = 0;
        while i < count
            invariant
                stack_mapped(self@),
                count == self.stack_pointer / 2,
                i <= count,
                words@.len() == i,
                forall|k: int|
                    0 <= k < i ==> #[trigger] words@[k] == word_at(
                        self@.memory,
                        listed_addr(self.stack_pointer, k),
                    ),
            decreases count - i,
        {
            let addr: u16 = STACK_PAGE + (self.stack_pointer as u16) - 2 - 2 * (i as u16);
            words.push(self.bus.read_word(addr));
            i += 1;
        }
        words
    }
}

/// A byte that was pushed is the byte that the next pull gives, and the pull
/// puts the stack pointer back where it was before the push.
pub proof fn lemma_push_pull_byte(m: Machine, data: u8)
    requires
        stack_mapped(m),
    ensures
        top_byte(pushed_byte(m, data)) == data,
        after_pull_byte(pushed_byte(m, data)).stack_pointer == m.stack_pointer,
{
}

/// A word that was pushed is the word that the next pull gives, and the pull
/// puts the stack pointer back where it was before the push.
pub proof fn lemma_push_pull_word(m: Machine, data: u16)
    requires
        stack_mapped(m),
    ensures
        top_word(pushed_word(m, data)) == data,
        after_pull_word(pushed_word(m, data)).stack_pointer == m.stack_pointer,
{
}

/// A push changes no cell outside the stack page, and no register but the
/// stack pointer.
pub proof fn lemma_push_stays_in_page(m: Machine, byte: u8, word: u16, addr: u16)
    requires
        m.memory.len() == ADDRESS_SPACE,
        addr < STACK_PAGE || addr >= STACK_PAGE + 0x100,
    ensures
        pushed_byte(m, byte).memory[addr as int] == m.memory[addr as int],
        pushed_word(m, word).memory[addr as int] == m.memory[addr as int],
        pushed_byte(m, byte) == (Machine {
            memory: pushed_byte(m, byte).memory,
            stack_pointer: pushed_byte(m, byte).stack_pointer,
            ..m
        }),
        pushed_word(m, word) == (Machine {
            memory: pushed_word(m, word).memory,
            stack_pointer: pushed_word(m, word).stack_pointer,
            ..m
        }),
{
}

} // verus!
