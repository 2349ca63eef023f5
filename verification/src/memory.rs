use std::collections::HashMap;
use std::ops::Range;
use vstd::prelude::*;

verus! {

/// The machine's memory: a sparse mapping from address to word. It holds the
/// cells that were written; every other address reads as zero.
pub type ComputerMemory = HashMap<usize, i32>;

/// The word that a memory holding `cells` shows at `addr`: the cell where one
/// was written, and zero anywhere else, also below zero and above every
/// address that the machine can form.
pub open spec fn word_at(cells: Map<usize, i32>, addr: int) -> i32 {
    if 0 <= addr <= usize::MAX && cells.contains_key(addr as usize) {
        cells[addr as usize]
    } else {
        0
    }
}

/// The cells of a memory after `data[addr]` was written to every address
/// `addr` of `range`.
pub open spec fn cells_after_write(
    cells: Map<usize, i32>,
    range: Range<usize>,
    data: Seq<i32>,
) -> Map<usize, i32> {
    Map::new(
        |addr: usize| cells.contains_key(addr) || range.start <= addr < range.end,
        |addr: usize|
            if range.start <= addr < range.end {
                data[addr as int]
            } else {
                cells[addr]
            },
    )
}

/// The words that a memory holding `cells` shows over `range`, lowest address
/// first. A range whose end is not above its start is empty.
pub open spec fn words_in(cells: Map<usize, i32>, range: Range<usize>) -> Seq<i32> {
    Seq::new(
        if range.start <= range.end {
            (range.end - range.start) as nat
        } else {
            0
        },
        |offset: int| word_at(cells, range.start + offset),
    )
}

/// A memory that can be read and written over a contiguous range of addresses.
pub trait RangeAddressable {
    /// The cells that were written.
    spec fn cells(&self) -> Map<usize, i32>;

    /// Reads the words at the addresses of `range`, lowest address first.
    /// Addresses that were never written read as zero.
    fn read_range(&self, range: Range<usize>) -> (words: Vec<i32>)
        ensures
            words@ == words_in(self.cells(), range),
    ;

    /// Writes `data[addr]` to every address `addr` of `range`; `data` is
    /// indexed by address, not by offset into the range.
    fn write_range(&mut self, range: Range<usize>, data: Vec<i32>)
        requires
            range.start < range.end ==> range.end <= data@.len(),
        ensures
            final(self).cells() == cells_after_write(old(self).cells(), range, data@),
    ;
}

impl RangeAddressable for ComputerMemory {
    open spec fn cells(&self) -> Map<usize, i32> {
        self@
    }

    fn read_range(&self, range: Range<usize>) -> (words: Vec<i32>) {
        let mut words: Vec<i32> = Vec::new();
        let mut addr = range.start;
        while addr < range.end
            invariant
                range.start <= addr,
                range.start <= range.end ==> addr <= range.end,
                range.start > range.end ==> addr == range.start,
                words@.len() == addr - range.start,
                forall|offset: int|
                    0 <= offset < words@.len() ==> words@[offset] == word_at(
                        self@,
                        range.start + offset,
                    ),
            decreases range.end - addr,
        {
            let word = match self.get(&addr) {
                Some(word) => *word,
                None => 0,
            };
            words.push(word);
            addr = addr + 1;
        }
        assert(words@ =~= words_in(self@, range));
        words
    }

    fn write_range(&mut self, range: Range<usize>, data: Vec<i32>) {
        let mut addr = range.start;
        while addr < range.end
            invariant
                range.start < range.end ==> range.end <= data@.len(),
                range.start <= addr,
                range.start <= range.end ==> addr <= range.end,
                range.start > range.end ==> addr == range.start,
                self@ == cells_after_write(
                    old(self)@,
                    Range { start: range.start, end: addr },
                    data@,
                ),
            decreases range.end - addr,
        {
            self.insert(addr, data[addr]);
            assert(self@ =~= cells_after_write(
                old(self)@,
                Range { start: range.start, end: (addr + 1) as usize },
                data@,
            ));
            addr = addr + 1;
        }
        assert(self@ =~= cells_after_write(old(self)@, range, data@));
    }
}

} // verus!
