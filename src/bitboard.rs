use vstd::prelude::*;
use vstd::std_specs::bits::u64_trailing_zeros;
use vstd::arithmetic::power::lemma_pow0;
use vstd::arithmetic::power2::{pow2, lemma2_to64, lemma_pow2_unfold};
use bitintr::{Blsr, Popcnt, Tzcnt};

verus! {

/// Number of set bits of a word.
pub open spec fn popcount(x: u64) -> nat
    decreases x,
{
    if x == 0 {
        0
    } else {
        (x % 2) as nat + popcount(x / 2)
    }
}

/// Whether bit `sq` of `b` is set.
pub open spec fn has_bit(b: u64, sq: int) -> bool {
    0 <= sq < 64 && (b >> (sq as u64)) & 1 == 1
}

/// Relies on bitintr's `Tzcnt::tzcnt`, which returns `trailing_zeros` of the word.
#[verifier::external_body]
fn tzcnt_u64(x: u64) -> (r: u64)
    ensures
        r == u64_trailing_zeros(x) as u64,
{
    x.tzcnt()
}

/// Relies on bitintr's `Blsr::blsr`: the word with its lowest set bit cleared,
/// computed as `x & x.wrapping_sub(1)`; it asserts a non-zero argument.
#[verifier::external_body]
fn blsr_u64(x: u64) -> (r: u64)
    requires
        x != 0,
    ensures
        r == x & ((x - 1) as u64),
{
    x.blsr()
}

/// Relies on bitintr's `Popcnt::popcnt`, which returns `count_ones` of the word.
#[verifier::external_body]
fn popcnt_u64(x: u64) -> (r: u64)
    ensures
        r == popcount(x),
{
    x.popcnt()
}

/// A set of squares: bit `i` is set iff square `i` belongs to the set.
#[derive(Clone, Copy, PartialEq, Eq, Structural, Debug)]
pub struct Bitboard {
    pub bits: u64,
}

impl Bitboard {
    pub fn new() -> (r: Bitboard)
        ensures
            r.bits == 0,
    {
        Bitboard { bits: 0 }
    }

    pub fn from_u64(source: u64) -> (r: Bitboard)
        ensures
            r.bits == source,
    {
        Bitboard { bits: source }
    }

    pub fn to_u64(&self) -> (r: u64)
        ensures
            r == self.bits,
    {
        self.bits
    }

    pub fn get_bit(&self, square: u8) -> (r: bool)
        requires
            square < 64,
        ensures
            r == (self.bits & (1u64 << square) != 0),
    {
        self.bits & (1u64 << square) != 0
    }

    pub fn get_bit_sq(&self, square: crate::definitions::Square) -> (r: bool)
        requires
            square.index() < 64,
        ensures
            r == (self.bits & (1u64 << square.index()) != 0),
    {
        self.get_bit(square.to_u8())
    }

    pub fn set_bit(&mut self, square: u8)
        requires
            square < 64,
        ensures
            final(self).bits == old(self).bits | (1u64 << square),
    {
        self.bits = self.bits | (1u64 << square);
    }

    pub fn set_bit_sq(&mut self, square: crate::definitions::Square)
        requires
            square.index() < 64,
        ensures
            final(self).bits == old(self).bits | (1u64 << square.index()),
    {
        self.set_bit(square.to_u8())
    }

    pub fn unset_bit(&mut self, square: u8)
        requires
            square < 64,
        ensures
            final(self).bits == old(self).bits & !(1u64 << square),
    {
        self.bits = self.bits & !(1u64 << square);
    }

    pub fn unset_bit_sq(&mut self, square: crate::definitions::Square)
        requires
            square.index() < 64,
        ensures
            final(self).bits == old(self).bits & !(1u64 << square.index()),
    {
        self.unset_bit(square.to_u8())
    }

    pub fn is_empty(&self) -> (r: bool)
        ensures
            r == (self.bits == 0),
    {
        self.bits == 0
    }

    pub fn is_not_empty(&self) -> (r: bool)
        ensures
            r == (self.bits != 0),
    {
        self.bits != 0
    }

    /// Index of the lowest set square; 64 when the set is empty.
    pub fn least_significant(&self) -> (r: u8)
        ensures
            r as u64 == u64_trailing_zeros(self.bits) as u64,
            self.bits == 0 <==> r == 64,
            r < 64 ==> has_bit(self.bits, r as int),
    {
        let t = tzcnt_u64(self.bits);
        proof {
            vstd::std_specs::bits::axiom_u64_trailing_zeros(self.bits);
        }
        t as u8
    }

    /// Removes the lowest set square and returns its index, or `None` on an empty set.
    pub fn extract_bit(&mut self) -> (r: Option<u8>)
        ensures
            old(self).bits == 0 ==> r is None && final(self).bits == 0,
            old(self).bits != 0 ==> r is Some && r->0 as u64 == u64_trailing_zeros(old(self).bits) as u64
                && r->0 < 64 && has_bit(old(self).bits, r->0 as int)
                && final(self).bits == old(self).bits & ((old(self).bits - 1) as u64)
                && final(self).bits < old(self).bits,
    {
        if self.bits == 0 {
            return None;
        }
        let bit = self.least_significant();
        self.bits = blsr_u64(self.bits);
        proof {
            let x = old(self).bits;
            assert(x != 0 ==> x & ((x - 1) as u64) < x) by (bit_vector);
        }
        Some(bit)
    }

    pub fn and(&self, other: Bitboard) -> (r: Bitboard)
        ensures
            r.bits == self.bits & other.bits,
    {
        Bitboard { bits: self.bits & other.bits }
    }

    pub fn and_u64(&self, other: u64) -> (r: Bitboard)
        ensures
            r.bits == self.bits & other,
    {
        Bitboard { bits: self.bits & other }
    }

    pub fn or(&self, other: Bitboard) -> (r: Bitboard)
        ensures
            r.bits == self.bits | other.bits,
    {
        Bitboard { bits: self.bits | other.bits }
    }

    pub fn or_u64(&self, other: u64) -> (r: Bitboard)
        ensures
            r.bits == self.bits | other,
    {
        Bitboard { bits: self.bits | other }
    }

    pub fn not(&self) -> (r: Bitboard)
        ensures
            r.bits == !self.bits,
    {
        Bitboard { bits: !self.bits }
    }

    pub fn count(&self) -> (r: u32)
        ensures
            r == popcount(self.bits),
    {
        let c = popcnt_u64(self.bits);
        proof {
            lemma_popcount_bound(self.bits);
        }
        c as u32
    }

    pub fn xor(&self, other: Bitboard) -> (r: Bitboard)
        ensures
            r.bits == self.bits ^ other.bits,
    {
        Bitboard { bits: self.bits ^ other.bits }
    }
}

/// A word has at most 64 set bits.
pub proof fn lemma_popcount_bound(x: u64)
    ensures
        popcount(x) <= 64,
{
    lemma2_to64();
    lemma_popcount_below(x, 64);
}

proof fn lemma_popcount_below(x: u64, n: nat)
    requires
        x < pow2(n),
    ensures
        popcount(x) <= n,
    decreases n,
{
    if x != 0 {
        if n == 0 {
            lemma_pow0(2);
        } else {
            lemma_pow2_unfold(n);
            lemma_popcount_below(x / 2, (n - 1) as nat);
        }
    }
}

} // verus!
