//! The abstract bus contract: 24-bit address masking, big-endian
//! byte composition, and the `AddressBus` interface that every memory
//! backend satisfies.

use vstd::prelude::*;
use vstd::arithmetic::div_mod::lemma_add_mod_noop;
use vstd::arithmetic::div_mod::lemma_fundamental_div_mod;
use vstd::arithmetic::div_mod::lemma_mod_bound;
use vstd::arithmetic::div_mod::lemma_mod_twice;
use vstd::arithmetic::div_mod::lemma_small_mod;
use crate::addrspace::AddressSpace;

verus! {

/// Only the low 24 address lines are wired: addresses alias onto the
/// 16 MiB space through this mask.
pub const ADDRBUS_MASK: u32 = 0x00ff_ffff;

/// The number of distinct bus addresses: one past the highest wired address.
pub const BUS_SIZE: u32 = ADDRBUS_MASK + 1;

/// The bus address that a raw 32-bit address aliases onto: its low 24 bits.
pub open spec fn masked(a: int) -> int {
    a % (BUS_SIZE as int)
}

/// The low byte of a value: what a byte-wide transfer carries.
pub open spec fn lo_byte(v: u32) -> u8 {
    (v % 0x100) as u8
}

/// Bits 8..16 of a value: the upper byte of its low word.
pub open spec fn byte1(v: u32) -> u8 {
    ((v / 0x100) % 0x100) as u8
}

/// Bits 16..24 of a value.
pub open spec fn byte2(v: u32) -> u8 {
    ((v / 0x10000) % 0x100) as u8
}

/// Bits 24..32 of a value: the most significant byte.
pub open spec fn byte3(v: u32) -> u8 {
    ((v / 0x1000000) % 0x100) as u8
}

/// The 16-bit value transferred big-endian as the bytes `hi`, `lo`,
/// with `hi` at the lower address.
pub open spec fn word_of(hi: u8, lo: u8) -> int {
    0x100 * hi + lo
}

/// The 32-bit value transferred big-endian as the bytes `b0` .. `b3`,
/// with `b0`, the most significant byte, at the lowest address.
pub open spec fn long_of(b0: u8, b1: u8, b2: u8, b3: u8) -> int {
    0x1000000 * b0 + 0x10000 * b1 + 0x100 * b2 + b3
}

/// The capability contract every memory backend satisfies.
///
/// A backend models its observable state as one byte per bus address
/// (`bus_byte`). Every operation first aliases the raw 32-bit address
/// onto the bus through `masked`, and multi-byte transfers move the
/// most significant byte at the lowest address, each constituent byte
/// resolving through its own (independently masked) address.
///
/// The address space is threaded through as classification data for
/// collaborators; it never gates access.
pub trait AddressBus {
    /// Well-formedness of the backend's own representation.
    spec fn inv(&self) -> bool;

    /// The byte observable at a (masked) bus address.
    spec fn bus_byte(&self, addr: int) -> u8;

    /// Reads the byte at the aliased address.
    fn read_byte(&self, address_space: AddressSpace, address: u32) -> (r: u32)
        requires
            self.inv(),
        ensures
            r == self.bus_byte(masked(address as int)),
    ;

    /// Reads a big-endian 16-bit value, one byte per aliased address.
    fn read_word(&self, address_space: AddressSpace, address: u32) -> (r: u32)
        requires
            self.inv(),
        ensures
            r == word_of(
                self.bus_byte(masked(address as int)),
                self.bus_byte(masked(address as int + 1)),
            ),
    ;

    /// Reads a big-endian 32-bit value, one byte per aliased address.
    fn read_long(&self, address_space: AddressSpace, address: u32) -> (r: u32)
        requires
            self.inv(),
        ensures
            r == long_of(
                self.bus_byte(masked(address as int)),
                self.bus_byte(masked(address as int + 1)),
                self.bus_byte(masked(address as int + 2)),
                self.bus_byte(masked(address as int + 3)),
            ),
    ;

    /// Stores the low byte of `value` at the aliased address; every
    /// other bus address is untouched.
    fn write_byte(&mut self, address_space: AddressSpace, address: u32, value: u32)
        requires
            old(self).inv(),
        ensures
            final(self).inv(),
            forall|x: int|
                0 <= x < BUS_SIZE ==> final(self).bus_byte(x) == (if x == masked(
                    address as int,
                ) {
                    lo_byte(value)
                } else {
                    old(self).bus_byte(x)
                }),
    ;

    /// Stores the low word of `value` big-endian at the two aliased
    /// addresses; every other bus address is untouched.
    fn write_word(&mut self, address_space: AddressSpace, address: u32, value: u32)
        requires
            old(self).inv(),
        ensures
            final(self).inv(),
            forall|x: int|
                0 <= x < BUS_SIZE ==> final(self).bus_byte(x) == (if x == masked(
                    address as int,
                ) {
                    byte1(value)
                } else if x == masked(address as int + 1) {
                    lo_byte(value)
                } else {
                    old(self).bus_byte(x)
                }),
    ;

    /// Stores `value` big-endian at the four aliased addresses; every
    /// other bus address is untouched.
    fn write_long(&mut self, address_space: AddressSpace, address: u32, value: u32)
        requires
            old(self).inv(),
        ensures
            final(self).inv(),
            forall|x: int|
                0 <= x < BUS_SIZE ==> final(self).bus_byte(x) == (if x == masked(
                    address as int,
                ) {
                    byte3(value)
                } else if x == masked(address as int + 1) {
                    byte2(value)
                } else if x == masked(address as int + 2) {
                    byte1(value)
                } else if x == masked(address as int + 3) {
                    lo_byte(value)
                } else {
                    old(self).bus_byte(x)
                }),
    ;
}

/// Aliasing is idempotent: masking an address in software before the
/// call lands on the same bus address the bus itself would use. With
/// `read_byte`'s contract this is the masking law: reading at `a` and
/// at `a & ADDRBUS_MASK` observe the same byte.
pub proof fn lemma_masked_aliasing(address: u32)
    ensures
        masked((address & ADDRBUS_MASK) as int) == masked(address as int),
{
    assert(address & ADDRBUS_MASK == address % 0x100_0000) by (bit_vector);
    lemma_mod_twice(address as int, BUS_SIZE as int);
}

/// A masked address is a valid bus address.
pub proof fn lemma_masked_in_range(a: int)
    requires
        0 <= a,
    ensures
        0 <= masked(a) < BUS_SIZE,
{
    lemma_mod_bound(a, BUS_SIZE as int);
}

/// Two raw addresses less than a bus-span apart alias onto distinct
/// bus addresses.
pub proof fn lemma_masked_distinct(a: int, b: int)
    requires
        0 <= a < b,
        b - a < BUS_SIZE,
    ensures
        masked(a) != masked(b),
{
    let m = BUS_SIZE as int;
    lemma_fundamental_div_mod(a, m);
    lemma_fundamental_div_mod(b, m);
    if masked(a) == masked(b) {
        let k = b / m - a / m;
        assert(b - a == m * k) by (nonlinear_arith)
            requires
                a == m * (a / m) + a % m,
                b == m * (b / m) + b % m,
                a % m == b % m,
                k == b / m - a / m,
        ;
        assert(false) by (nonlinear_arith)
            requires
                b - a == m * k,
                0 < b - a < m,
        ;
    }
}

/// Masks a raw 32-bit address onto the bus.
pub fn mask_address(address: u32) -> (r: u32)
    ensures
        r == masked(address as int),
        r <= ADDRBUS_MASK,
{
    proof {
        assert(address & 0x00ff_ffff == address % 0x100_0000) by (bit_vector);
    }
    address & ADDRBUS_MASK
}

/// Masks the `k`-th successor of a raw address onto the bus, wrapping
/// both past the 32-bit space and past the bus span.
pub fn mask_address_offset(address: u32, k: u32) -> (r: u32)
    requires
        k <= ADDRBUS_MASK,
    ensures
        r == masked(address as int + k as int),
        r <= ADDRBUS_MASK,
{
    let m = mask_address(address);
    proof {
        lemma_small_mod(k as nat, BUS_SIZE as nat);
        lemma_add_mod_noop(address as int, k as int, BUS_SIZE as int);
    }
    mask_address(m + k)
}

/// Decomposing a 32-bit value into its four bytes and recomposing them
/// big-endian restores the value.
pub proof fn lemma_long_recompose(v: u32)
    ensures
        long_of(byte3(v), byte2(v), byte1(v), lo_byte(v)) == v,
{
    assert(0x1000000 * ((v / 0x1000000) % 0x100) + 0x10000 * ((v / 0x10000) % 0x100) + 0x100 * ((v
        / 0x100) % 0x100) + v % 0x100 == v) by (bit_vector);
}

/// Decomposing a value's low word into its two bytes and recomposing
/// them big-endian restores the low word.
pub proof fn lemma_word_recompose(v: u32)
    ensures
        word_of(byte1(v), lo_byte(v)) == v % 0x10000,
{
    assert(0x100 * ((v / 0x100) % 0x100) + v % 0x100 == v % 0x10000) by (bit_vector);
}

/// Write-then-read round trip for bytes, over the bus contract: a
/// state that `write_byte`'s contract relates to `pre` for address
/// `a` observes the low byte of the written value at `a`'s bus
/// address — so `read_byte` after `write_byte` returns `value % 0x100`.
pub proof fn lemma_byte_round_trip<B: AddressBus>(pre: &B, post: &B, address: u32, value: u32)
    requires
        forall|x: int|
            0 <= x < BUS_SIZE ==> post.bus_byte(x) == (if x == masked(address as int) {
                lo_byte(value)
            } else {
                pre.bus_byte(x)
            }),
    ensures
        post.bus_byte(masked(address as int)) == value % 0x100,
{
    lemma_masked_in_range(address as int);
}

/// Write-then-read round trip for words: a state that `write_word`'s
/// contract relates to `pre` for address `a` reads back, big-endian
/// from `a`, exactly the low word of the written value.
pub proof fn lemma_word_round_trip<B: AddressBus>(pre: &B, post: &B, address: u32, value: u32)
    requires
        forall|x: int|
            0 <= x < BUS_SIZE ==> post.bus_byte(x) == (if x == masked(address as int) {
                byte1(value)
            } else if x == masked(address as int + 1) {
                lo_byte(value)
            } else {
                pre.bus_byte(x)
            }),
    ensures
        word_of(
            post.bus_byte(masked(address as int)),
            post.bus_byte(masked(address as int + 1)),
        ) == value % 0x10000,
{
    lemma_masked_in_range(address as int);
    lemma_masked_in_range(address as int + 1);
    lemma_masked_distinct(address as int, address as int + 1);
    lemma_word_recompose(value);
}

/// Write-then-read round trip for longs, at every address — including
/// one whose four bytes straddle a page or wrap the bus: a state that
/// `write_long`'s contract relates to `pre` for address `a` reads
/// back, big-endian from `a`, exactly the written value. The backend's
/// partition of the space is invisible to this contract.
pub proof fn lemma_long_round_trip<B: AddressBus>(pre: &B, post: &B, address: u32, value: u32)
    requires
        forall|x: int|
            0 <= x < BUS_SIZE ==> post.bus_byte(x) == (if x == masked(address as int) {
                byte3(value)
            } else if x == masked(address as int + 1) {
                byte2(value)
            } else if x == masked(address as int + 2) {
                byte1(value)
            } else if x == masked(address as int + 3) {
                lo_byte(value)
            } else {
                pre.bus_byte(x)
            }),
    ensures
        long_of(
            post.bus_byte(masked(address as int)),
            post.bus_byte(masked(address as int + 1)),
            post.bus_byte(masked(address as int + 2)),
            post.bus_byte(masked(address as int + 3)),
        ) == value,
{
    let a = address as int;
    lemma_masked_in_range(a);
    lemma_masked_in_range(a + 1);
    lemma_masked_in_range(a + 2);
    lemma_masked_in_range(a + 3);
    lemma_masked_distinct(a, a + 1);
    lemma_masked_distinct(a, a + 2);
    lemma_masked_distinct(a, a + 3);
    lemma_masked_distinct(a + 1, a + 2);
    lemma_masked_distinct(a + 1, a + 3);
    lemma_masked_distinct(a + 2, a + 3);
    lemma_long_recompose(value);
}

} // verus!
