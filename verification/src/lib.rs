//! Typed, zero-overhead access to sub-fields packed inside a single
//! fixed-width integer: individual flag bits and multi-bit numeric ranges,
//! each independently readable and optionally writable.
//!
//! The crate has three layers:
//! - numeric domain traits ([`helper_traits`]) that tell which primitive
//!   integers are eligible backing stores;
//! - a bit-arithmetic engine (the [`BitField`] trait and its
//!   implementations in [`engine`]) with single-bit and inclusive bit-range
//!   get/set/clear/toggle, specified against a `Seq<bool>` view of the
//!   backing value (least-significant bit first);
//! - a layout compiler ([`layout`]) that parses a declarative field-list
//!   description of a record type and emits one accessor description per
//!   field, plus the record's constructor and raw-value accessors.
//!
//! [`records`] holds two record types written exactly as the layout
//! compiler lays them out, so the generated API shape can be exercised.
//!
//! Fields may overlap in bit position; that is permitted, not validated.
//! Bit indices are never range-checked at run time: a caller must meet the
//! stated preconditions.

use vstd::prelude::*;

pub mod engine;
pub mod helper_traits;
pub mod layout;
pub mod records;

use helper_traits::{BitSize, One, Zero};
use vstd::std_specs::ops::SubSpec;

verus! {

/// One bound of a bit range: a bit index that is part of the range, one just
/// past it, or no bound at all.
pub enum BitBound<T> {
    Included(T),
    Excluded(T),
    Unbounded,
}

/// A possibly open-ended bit range, normalized to an inclusive index pair by
/// [`range_convrt`].
pub struct BitRange<T> {
    pub start: BitBound<T>,
    pub end: BitBound<T>,
}

/// The bits of `s` with the window `start..=end` replaced by the low bits of
/// `v`: inside the window, bit `j` becomes `v[j - start]`; outside it, `s` is
/// unchanged. Bits of `v` at or above the window width are discarded.
pub open spec fn range_written(s: Seq<bool>, start: nat, end: nat, v: Seq<bool>) -> Seq<bool> {
    Seq::new(s.len(), |j: int| if start <= j && j <= end {
            v[j - start]
        } else {
            s[j]
        })
}

/// The window `start..=end` of `s`, right-aligned at bit 0 and zero-extended
/// to the full width.
pub open spec fn range_read(s: Seq<bool>, start: nat, end: nat) -> Seq<bool> {
    Seq::new(s.len(), |j: int| j <= end - start && s[j + start])
}

/// The window `start..=end` of `s`, right-aligned at bit 0, with the bits
/// above the window filled the way an arithmetic right shift fills them:
/// zero, unless the window ends at the topmost bit (the sign bit of a signed
/// backing store), in which case that bit is replicated.
pub open spec fn range_read_arith(s: Seq<bool>, start: nat, end: nat) -> Seq<bool> {
    Seq::new(s.len(), |j: int| if j <= end - start {
            s[j + start]
        } else if j + start < s.len() {
            false
        } else {
            end == s.len() - 1 && s[s.len() - 1]
        })
}

/// As long as the window stays below the topmost bit, or covers the whole
/// width from bit 0, the arithmetic-shift read equals the zero-extending one.
pub proof fn lemma_range_read_arith_below_sign(s: Seq<bool>, start: nat, end: nat)
    requires
        start <= end < s.len(),
        end < s.len() - 1 || start == 0,
    ensures
        range_read_arith(s, start, end) == range_read(s, start, end),
{
    assert(range_read_arith(s, start, end) =~= range_read(s, start, end));
}

/// Bit-field manipulation over a backing store whose value is modelled as a
/// sequence of bits, least-significant first. `T` is the index type and also
/// the type carried into and out of bit ranges.
pub trait BitField<T>: Sized {
    /// The backing value as a sequence of bits, least-significant first.
    spec fn bits(&self) -> Seq<bool>;

    /// The width in bits of the backing store.
    spec fn width() -> nat;

    /// A bit index of type `T`, read as an unsigned number.
    spec fn idx(i: T) -> nat;

    /// A range value of type `T` as a sequence of bits, least-significant
    /// first, of length [`BitField::width`].
    spec fn val_bits(v: T) -> Seq<bool>;

    /// The bits a range read returns. Unsigned backing stores use
    /// [`range_read`] (zero-extension); signed ones use
    /// [`range_read_arith`], since their extraction ends in an arithmetic
    /// right shift.
    spec fn range_out(s: Seq<bool>, start: nat, end: nat) -> Seq<bool>;

    /// The bit view always has exactly `width` bits.
    proof fn bits_len(&self)
        ensures
            self.bits().len() == Self::width(),
    ;

    /// The bit view of a range value always has exactly `width` bits.
    proof fn val_bits_len(v: T)
        ensures
            Self::val_bits(v).len() == Self::width(),
    ;

    /// Sets the i'th bit to 1. No-op if the bit is already set.
    fn set_bit(&mut self, i: T)
        requires
            Self::idx(i) < Self::width(),
        ensures
            final(self).bits() == old(self).bits().update(Self::idx(i) as int, true),
    ;

    /// Clears the i'th bit to 0.
    fn clear_bit(&mut self, i: T)
        requires
            Self::idx(i) < Self::width(),
        ensures
            final(self).bits() == old(self).bits().update(Self::idx(i) as int, false),
    ;

    /// Toggles the i'th bit.
    fn toggle_bit(&mut self, i: T)
        requires
            Self::idx(i) < Self::width(),
        ensures
            final(self).bits() == old(self).bits().update(
                Self::idx(i) as int,
                !old(self).bits()[Self::idx(i) as int],
            ),
    ;

    /// Gets the i'th bit: true for 1, false for 0.
    fn get_bit(&self, i: T) -> (r: bool)
        requires
            Self::idx(i) < Self::width(),
        ensures
            r == self.bits()[Self::idx(i) as int],
    ;

    /// Sets the bits in the inclusive range `start..=end` to the low
    /// `end - start + 1` bits of `b`; higher bits of `b` are discarded.
    fn set_bit_range(&mut self, start: T, end: T, b: T)
        requires
            Self::idx(start) <= Self::idx(end),
            Self::idx(end) < Self::width(),
        ensures
            final(self).bits() == range_written(
                old(self).bits(),
                Self::idx(start),
                Self::idx(end),
                Self::val_bits(b),
            ),
    ;

    /// Gets the bits in the inclusive range `start..=end`, right-aligned at
    /// bit 0.
    fn get_bit_range(&self, start: T, end: T) -> (r: T)
        requires
            Self::idx(start) <= Self::idx(end),
            Self::idx(end) < Self::width(),
        ensures
            Self::val_bits(r) == Self::range_out(self.bits(), Self::idx(start), Self::idx(end)),
    ;
}

/// Normalizes a possibly open-ended bit range to an inclusive `(start, end)`
/// pair: an included bound stands as it is, an excluded bound `x` becomes
/// `x - 1`, an omitted lower bound becomes zero, and an omitted upper bound
/// becomes the backing type's width minus one. An excluded bound of zero
/// would underflow and is excluded by precondition.
pub fn range_convrt<T: Copy + One + Zero + BitSize + core::ops::Sub<Output = T>>(
    range: BitRange<T>,
) -> (r: (T, T))
    requires
        T::obeys_sub_spec(),
        (range.start matches BitBound::Excluded(n) ==> n.sub_req(T::one_spec())),
        (range.end matches BitBound::Excluded(n) ==> n.sub_req(T::one_spec())),
        (range.end matches BitBound::Unbounded ==> T::bit_size_spec().sub_req(T::one_spec())),
    ensures
        r.0 == (match range.start {
            BitBound::Included(n) => n,
            BitBound::Excluded(n) => n.sub_spec(T::one_spec()),
            BitBound::Unbounded => T::zero_spec(),
        }),
        r.1 == (match range.end {
            BitBound::Included(n) => n,
            BitBound::Excluded(n) => n.sub_spec(T::one_spec()),
            BitBound::Unbounded => T::bit_size_spec().sub_spec(T::one_spec()),
        }),
{
    let start = match range.start {
        BitBound::Included(n) => n,
        BitBound::Excluded(n) => n - T::one(),
        BitBound::Unbounded => T::zero(),
    };
    let end = match range.end {
        BitBound::Included(n) => n,
        BitBound::Excluded(n) => n - T::one(),
        BitBound::Unbounded => T::bit_size() - T::one(),
    };
    (start, end)
}

proof fn zero_bits_clear()
    by (bit_vector)
    ensures
        (0u8 >> 0u8) & 1u8 != 1u8,
        (0u16 >> 0u16) & 1u16 != 1u16,
        (0u32 >> 0u32) & 1u32 != 1u32,
        (0u64 >> 0u64) & 1u64 != 1u64,
        (0u128 >> 0u128) & 1u128 != 1u128,
        (0usize >> 0usize) & 1usize != 1usize,
        (0i8 >> 0u8) & 1i8 != 1i8,
        (0i16 >> 0u16) & 1i16 != 1i16,
        (0i32 >> 0u32) & 1i32 != 1i32,
        (0i64 >> 0u64) & 1i64 != 1i64,
        (0i128 >> 0u128) & 1i128 != 1i128,
        (0isize >> 0usize) & 1isize != 1isize,
{
}

/// Makes sure that [`BitField`] is implemented for all the supported numeric
/// types: bit 0 of each type's zero value reads as false, checked statically.
pub fn check_numeric_types() {
    proof {
        zero_bits_clear();
    }
    let a: u8 = 0;
    let a_bit = a.get_bit(0);
    assert(!a_bit);
    let b: u16 = 0;
    let b_bit = b.get_bit(0);
    assert(!b_bit);
    let c: u32 = 0;
    let c_bit = c.get_bit(0);
    assert(!c_bit);
    let d: u64 = 0;
    let d_bit = d.get_bit(0);
    assert(!d_bit);
    let e: u128 = 0;
    let e_bit = e.get_bit(0);
    assert(!e_bit);
    let f: usize = 0;
    let f_bit = f.get_bit(0);
    assert(!f_bit);
    let g: i8 = 0;
    let g_bit = g.get_bit(0);
    assert(!g_bit);
    let h: i16 = 0;
    let h_bit = h.get_bit(0);
    assert(!h_bit);
    let i: i32 = 0;
    let i_bit = i.get_bit(0);
    assert(!i_bit);
    let j: i64 = 0;
    let j_bit = j.get_bit(0);
    assert(!j_bit);
    let k: i128 = 0;
    let k_bit = k.get_bit(0);
    assert(!k_bit);
    let l: isize = 0;
    let l_bit = l.get_bit(0);
    assert(!l_bit);
}

/// Single-bit round trip: starting from an all-zero backing value, setting
/// bit `i` makes exactly that bit read back as true and every other index
/// still read as false, and clearing it afterwards restores the all-false
/// value.
pub proof fn lemma_single_bit_round_trip(s: Seq<bool>, i: nat)
    requires
        i < s.len(),
        forall|j: int| 0 <= j < s.len() ==> !s[j],
    ensures
        s.update(i as int, true)[i as int],
        forall|j: int| 0 <= j < s.len() && j != i ==> !s.update(i as int, true)[j],
        s.update(i as int, true).update(i as int, false) == s,
{
    assert(s.update(i as int, true).update(i as int, false) =~= s);
}

/// Range round trip: writing `v` into the window `start..=end` and reading
/// the window back yields exactly the low `end - start + 1` bits of `v`;
/// higher bits of `v` are discarded.
pub proof fn lemma_range_round_trip(s: Seq<bool>, start: nat, end: nat, v: Seq<bool>)
    requires
        start <= end < s.len(),
        v.len() == s.len(),
    ensures
        range_read(range_written(s, start, end, v), start, end) == Seq::new(
            s.len(),
            |j: int| j <= end - start && v[j],
        ),
{
    assert(range_read(range_written(s, start, end, v), start, end) =~= Seq::new(
        s.len(),
        |j: int| j <= end - start && v[j],
    ));
}

/// Full-width range boundary: a range covering every bit position writes the
/// whole value and reads the whole value back.
pub proof fn lemma_full_width_range(s: Seq<bool>, v: Seq<bool>)
    requires
        s.len() > 0,
        v.len() == s.len(),
    ensures
        range_written(s, 0, (s.len() - 1) as nat, v) == v,
        range_read(s, 0, (s.len() - 1) as nat) == s,
{
    assert(range_written(s, 0, (s.len() - 1) as nat, v) =~= v);
    assert(range_read(s, 0, (s.len() - 1) as nat) =~= s);
}

/// Non-overlapping independence: writing the window `s1..=e1` never alters
/// what the disjoint window `s2..=e2` reads.
pub proof fn lemma_disjoint_ranges_independent(
    s: Seq<bool>,
    s1: nat,
    e1: nat,
    v: Seq<bool>,
    s2: nat,
    e2: nat,
)
    requires
        s1 <= e1 < s.len(),
        s2 <= e2 < s.len(),
        e1 < s2 || e2 < s1,
    ensures
        range_read(range_written(s, s1, e1, v), s2, e2) == range_read(s, s2, e2),
{
    assert(range_read(range_written(s, s1, e1, v), s2, e2) =~= range_read(s, s2, e2));
}

/// Non-overlapping independence, flag form: updating a single bit outside a
/// window never alters what that window reads.
pub proof fn lemma_bit_update_outside_range(s: Seq<bool>, i: nat, b: bool, s2: nat, e2: nat)
    requires
        i < s.len(),
        s2 <= e2 < s.len(),
        i < s2 || e2 < i,
    ensures
        range_read(s.update(i as int, b), s2, e2) == range_read(s, s2, e2),
{
    assert(range_read(s.update(i as int, b), s2, e2) =~= range_read(s, s2, e2));
}

} // verus!
