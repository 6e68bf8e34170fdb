//! A sparse paged backend for the full 16 MiB bus: fixed-size pages
//! allocated on first write, with unwritten memory reading as zero.

use vstd::prelude::*;
use vstd::arithmetic::div_mod::lemma_div_pos_is_pos;
use vstd::arithmetic::div_mod::lemma_fundamental_div_mod;
use vstd::arithmetic::div_mod::lemma_mod_bound;
use vstd::arithmetic::div_mod::lemma_multiply_divide_lt;
use crate::addrspace::AddressSpace;
use crate::bus::ADDRBUS_MASK;
use crate::bus::AddressBus;
use crate::bus::BUS_SIZE;
use crate::bus::lemma_masked_distinct;
use crate::bus::mask_address;
use crate::bus::mask_address_offset;

verus! {

/// Bytes per page: a free implementation parameter balancing sparse
/// overhead against indexing cost, invisible to the bus contract.
pub const PAGE_SIZE: u32 = 0x1000;

/// Pages covering the whole bus: `PAGE_COUNT * PAGE_SIZE == BUS_SIZE`.
pub const PAGE_COUNT: u32 = 0x1000;

/// The whole 16 MiB bus space, stored as pages allocated on demand.
///
/// A page slot holding `None` stands for a page never written, all of
/// whose bytes read as zero; a write materializes the page zero-filled
/// first. The declared size is recorded at construction and the page
/// table always spans the full bus, so every masked address resolves.
pub struct PagedMem {
    size: u32,
    pages: Vec<Option<Vec<u8>>>,
}

/// A bus address splits into a page index and an in-page offset.
proof fn lemma_page_index(addr: int)
    requires
        0 <= addr < BUS_SIZE,
    ensures
        0 <= addr / (PAGE_SIZE as int) < PAGE_COUNT,
        0 <= addr % (PAGE_SIZE as int) < PAGE_SIZE,
        addr == (PAGE_SIZE as int) * (addr / (PAGE_SIZE as int)) + addr % (PAGE_SIZE as int),
{
    lemma_div_pos_is_pos(addr, PAGE_SIZE as int);
    lemma_multiply_divide_lt(addr, PAGE_SIZE as int, PAGE_COUNT as int);
    lemma_mod_bound(addr, PAGE_SIZE as int);
    lemma_fundamental_div_mod(addr, PAGE_SIZE as int);
}

/// A zero-filled page, as a fresh write target.
fn zero_page() -> (r: Vec<u8>)
    ensures
        r@.len() == PAGE_SIZE,
        forall|i: int| 0 <= i < PAGE_SIZE ==> r@[i] == 0,
{
    let mut p: Vec<u8> = Vec::new();
    while p.len() < PAGE_SIZE as usize
        invariant
            p@.len() <= PAGE_SIZE,
            forall|i: int| 0 <= i < p@.len() ==> p@[i] == 0,
        decreases PAGE_SIZE - p@.len(),
    {
        p.push(0);
    }
    p
}

impl PagedMem {
    /// The total size, in bytes, this instance was declared with
    /// (clamped to the bus span at construction).
    pub closed spec fn size_spec(&self) -> u32 {
        self.size
    }

    /// Returns the declared total size in bytes.
    pub fn size(&self) -> (r: u32)
        ensures
            r == self.size_spec(),
    {
        self.size
    }

    /// Creates a memory of `size` bytes, every address reading as zero.
    ///
    /// A size of zero is rejected; a size beyond the 16 MiB bus span is
    /// clamped to it, since the extra bytes could never be addressed.
    pub fn new(size: u32) -> (r: Option<PagedMem>)
        ensures
            r is Some <==> size > 0,
            r matches Some(m) ==> {
                &&& m.inv()
                &&& m.size_spec() == (if size < BUS_SIZE {
                    size
                } else {
                    BUS_SIZE
                })
                &&& forall|x: int| 0 <= x < BUS_SIZE ==> m.bus_byte(x) == 0
            },
    {
        if size == 0 {
            return None;
        }
        let clamped = if size < BUS_SIZE {
            size
        } else {
            BUS_SIZE
        };
        let mut pages: Vec<Option<Vec<u8>>> = Vec::new();
        while pages.len() < PAGE_COUNT as usize
            invariant
                pages@.len() <= PAGE_COUNT,
                forall|i: int| 0 <= i < pages@.len() ==> pages@[i] is None,
            decreases PAGE_COUNT - pages@.len(),
        {
            pages.push(None);
        }
        let m = PagedMem { size: clamped, pages };
        proof {
            assert forall|x: int| 0 <= x < BUS_SIZE implies m.bus_byte(x) == 0 by {
                lemma_page_index(x);
            }
        }
        Some(m)
    }

    /// Reads the byte stored at a bus address, unallocated pages
    /// reading as zero.
    fn get_byte(&self, addr: u32) -> (r: u8)
        requires
            self.inv(),
            addr <= ADDRBUS_MASK,
        ensures
            r == self.bus_byte(addr as int),
    {
        proof {
            lemma_page_index(addr as int);
        }
        let pi = (addr / PAGE_SIZE) as usize;
        let off = (addr % PAGE_SIZE) as usize;
        match &self.pages[pi] {
            Some(p) => p[off],
            None => 0,
        }
    }

    /// Stores a byte at a bus address, materializing the page
    /// zero-filled on first touch.
    fn put_byte(&mut self, addr: u32, v: u8)
        requires
            old(self).inv(),
            addr <= ADDRBUS_MASK,
        ensures
            final(self).inv(),
            final(self).size_spec() == old(self).size_spec(),
            forall|x: int|
                0 <= x < BUS_SIZE ==> final(self).bus_byte(x) == (if x == addr as int {
                    v
                } else {
                    old(self).bus_byte(x)
                }),
    {
        proof {
            lemma_page_index(addr as int);
        }
        let pi = (addr / PAGE_SIZE) as usize;
        let off = (addr % PAGE_SIZE) as usize;
        let mut page: Vec<u8> = match self.pages[pi].take() {
            Some(p) => p,
            None => zero_page(),
        };
        page[off] = v;
        self.pages[pi] = Some(page);
        proof {
            assert forall|x: int|
                0 <= x < BUS_SIZE implies self.bus_byte(x) == (if x == addr as int {
                    v
                } else {
                    old(self).bus_byte(x)
                }) by {
                lemma_page_index(x);
            }
        }
    }
}

impl AddressBus for PagedMem {
    /// The page table spans the whole bus, every materialized page is
    /// full-sized, and the declared size is positive and within the bus.
    closed spec fn inv(&self) -> bool {
        &&& self.pages@.len() == PAGE_COUNT
        &&& (forall|i: int|
            0 <= i < self.pages@.len() ==> ((#[trigger] self.pages@[i]) matches Some(p)
                ==> p@.len() == PAGE_SIZE))
        &&& 1 <= self.size <= BUS_SIZE
    }

    /// The byte at a bus address: the stored byte of the page it falls
    /// in, or zero where that page was never written.
    closed spec fn bus_byte(&self, addr: int) -> u8 {
        match self.pages@[addr / (PAGE_SIZE as int)] {
            Some(p) => p@[addr % (PAGE_SIZE as int)],
            None => 0,
        }
    }

    fn read_byte(&self, address_space: AddressSpace, address: u32) -> (r: u32) {
        self.get_byte(mask_address(address)) as u32
    }

    fn read_word(&self, address_space: AddressSpace, address: u32) -> (r: u32) {
        let b0 = self.get_byte(mask_address(address)) as u32;
        let b1 = self.get_byte(mask_address_offset(address, 1)) as u32;
        b0 * 0x100 + b1
    }

    fn read_long(&self, address_space: AddressSpace, address: u32) -> (r: u32) {
        let b0 = self.get_byte(mask_address(address)) as u32;
        let b1 = self.get_byte(mask_address_offset(address, 1)) as u32;
        let b2 = self.get_byte(mask_address_offset(address, 2)) as u32;
        let b3 = self.get_byte(mask_address_offset(address, 3)) as u32;
        b0 * 0x1000000 + b1 * 0x10000 + b2 * 0x100 + b3
    }

    fn write_byte(&mut self, address_space: AddressSpace, address: u32, value: u32)
        ensures
            final(self).size_spec() == old(self).size_spec(),
    {
        self.put_byte(mask_address(address), (value % 0x100) as u8);
    }

    fn write_word(&mut self, address_space: AddressSpace, address: u32, value: u32)
        ensures
            final(self).size_spec() == old(self).size_spec(),
    {
        proof {
            lemma_masked_distinct(address as int, address as int + 1);
        }
        self.put_byte(mask_address(address), ((value / 0x100) % 0x100) as u8);
        self.put_byte(mask_address_offset(address, 1), (value % 0x100) as u8);
    }

    fn write_long(&mut self, address_space: AddressSpace, address: u32, value: u32)
        ensures
            final(self).size_spec() == old(self).size_spec(),
    {
        proof {
            lemma_masked_distinct(address as int, address as int + 1);
            lemma_masked_distinct(address as int, address as int + 2);
            lemma_masked_distinct(address as int, address as int + 3);
            lemma_masked_distinct(address as int + 1, address as int + 2);
            lemma_masked_distinct(address as int + 1, address as int + 3);
            lemma_masked_distinct(address as int + 2, address as int + 3);
        }
        self.put_byte(mask_address(address), ((value / 0x1000000) % 0x100) as u8);
        self.put_byte(mask_address_offset(address, 1), ((value / 0x10000) % 0x100) as u8);
        self.put_byte(mask_address_offset(address, 2), ((value / 0x100) % 0x100) as u8);
        self.put_byte(mask_address_offset(address, 3), (value % 0x100) as u8);
    }
}

} // verus!
