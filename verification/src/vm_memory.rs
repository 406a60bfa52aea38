//! Linear memory: a page-sized byte buffer with limits.

use vstd::prelude::*;
use crate::ast::{Limit, MemoryType};

verus! {

/// Bytes per WebAssembly memory page.
pub const MEMORY_PAGE_SIZE: usize = 65536;

/// One linear-memory instance. Its byte length is always a whole number of
/// pages within the declared limits.
pub struct VMMemory {
    memory_type: MemoryType,
    data: Vec<u8>,
}

impl VMMemory {
    /// The declared limits.
    pub closed spec fn spec_memory_type(&self) -> MemoryType {
        self.memory_type
    }

    /// The bytes.
    pub closed spec fn view(&self) -> Seq<u8> {
        self.data@
    }

    /// A fresh memory of the declared minimum page count, zero filled.
    pub fn new(memory_type: MemoryType) -> (m: VMMemory)
        requires
            memory_type.limit.minimum * MEMORY_PAGE_SIZE <= usize::MAX,
        ensures
            m.spec_memory_type() == memory_type,
            m@.len() == memory_type.limit.minimum * MEMORY_PAGE_SIZE,
            forall|i: int| 0 <= i < m@.len() ==> m@[i] == 0u8,
    {
        let page_count = memory_type.limit.minimum as usize;
        let byte_count = page_count * MEMORY_PAGE_SIZE;
        let mut data: Vec<u8> = Vec::new();
        let mut i: usize = 0;
        while i < byte_count
            invariant
                0 <= i <= byte_count,
                data@.len() == i,
                forall|j: int| 0 <= j < i ==> data@[j] == 0u8,
            decreases byte_count - i,
        {
            data.push(0u8);
            i += 1;
        }
        VMMemory { memory_type, data }
    }

    /// A fresh zero-filled memory with the given page limits.
    pub fn new_by_page_range(minimum: u32, maximum: u32) -> (m: VMMemory)
        requires
            minimum * MEMORY_PAGE_SIZE <= usize::MAX,
        ensures
            m.spec_memory_type() == (MemoryType {
                limit: Limit { minimum, maximum: Some(maximum) },
            }),
            m@.len() == minimum * MEMORY_PAGE_SIZE,
            forall|i: int| 0 <= i < m@.len() ==> m@[i] == 0u8,
    {
        VMMemory::new(MemoryType { limit: Limit { minimum, maximum: Some(maximum) } })
    }

    pub fn get_memory_type(&self) -> (t: MemoryType)
        ensures
            t == self.spec_memory_type(),
    {
        self.memory_type
    }

    /// The current size in bytes.
    pub fn byte_count(&self) -> (n: usize)
        ensures
            n == self@.len(),
    {
        self.data.len()
    }

    /// The current size in pages.
    pub fn page_count(&self) -> (n: usize)
        ensures
            n as int == self@.len() as int / (MEMORY_PAGE_SIZE as int),
    {
        self.data.len() / MEMORY_PAGE_SIZE
    }

    /// Reads one byte.
    pub fn read_byte(&self, address: usize) -> (r: Option<u8>)
        ensures
            match r {
                Some(b) => address < self@.len() && b == self@[address as int],
                None => address >= self@.len(),
            },
    {
        if address < self.data.len() {
            Some(self.data[address])
        } else {
            None
        }
    }

    /// Writes one byte; fails outside the buffer.
    pub fn write_byte(&mut self, address: usize, value: u8) -> (r: bool)
        ensures
            final(self).spec_memory_type() == old(self).spec_memory_type(),
            r == (address < old(self)@.len()),
            r ==> final(self)@ == old(self)@.update(address as int, value),
            !r ==> final(self)@ == old(self)@,
    {
        if address < self.data.len() {
            self.data.set(address, value);
            true
        } else {
            false
        }
    }

    /// Grows the memory by whole pages, zero filling the new bytes; fails
    /// when the declared maximum or the address space would be exceeded.
    /// Returns the previous page count on success.
    pub fn grow(&mut self, additional_pages: usize) -> (r: Option<usize>)
        ensures
            final(self).spec_memory_type() == old(self).spec_memory_type(),
            // growth fails exactly when the declared maximum or the
            // address space would be exceeded
            r is None <==> ({
                let previous_pages = old(self)@.len() as int / (MEMORY_PAGE_SIZE as int);
                ||| previous_pages + additional_pages > usize::MAX
                ||| (old(self).spec_memory_type().limit.maximum matches Some(maximum)
                    && previous_pages + additional_pages > maximum)
                ||| additional_pages * MEMORY_PAGE_SIZE > usize::MAX
                ||| old(self)@.len() + additional_pages * MEMORY_PAGE_SIZE > usize::MAX
            }),
            match r {
                Some(previous) => {
                    &&& previous as int == old(self)@.len() as int / (MEMORY_PAGE_SIZE as int)
                    &&& final(self)@.len() == old(self)@.len() + additional_pages
                        * MEMORY_PAGE_SIZE
                    &&& final(self)@.take(old(self)@.len() as int) == old(self)@
                    &&& forall|i: int|
                        old(self)@.len() <= i < final(self)@.len() ==> final(self)@[i] == 0u8
                },
                None => final(self)@ == old(self)@,
            },
    {
        let previous_pages = self.data.len() / MEMORY_PAGE_SIZE;
        let new_pages = match previous_pages.checked_add(additional_pages) {
            Some(n) => n,
            None => {
                return None;
            },
        };
        match self.memory_type.limit.maximum {
            Some(maximum) => {
                if new_pages > maximum as usize {
                    return None;
                }
            },
            None => {},
        }
        let additional_bytes = match additional_pages.checked_mul(MEMORY_PAGE_SIZE) {
            Some(n) => n,
            None => {
                return None;
            },
        };
        if self.data.len().checked_add(additional_bytes).is_none() {
            return None;
        }
        let ghost old_data = self.data@;
        let mut i: usize = 0;
        while i < additional_bytes
            invariant
                0 <= i <= additional_bytes,
                self.data@.len() == old_data.len() + i,
                self.data@.take(old_data.len() as int) == old_data,
                self.memory_type == old(self).memory_type,
                forall|j: int| old_data.len() <= j < self.data@.len() ==> self.data@[j] == 0u8,
                old_data.len() + additional_bytes <= usize::MAX,
            decreases additional_bytes - i,
        {
            self.data.push(0u8);
            proof {
                assert(self.data@.take(old_data.len() as int) =~= old_data);
            }
            i += 1;
        }
        Some(previous_pages)
    }
}

} // verus!
