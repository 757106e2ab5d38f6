//! Two record types written exactly as the layout compiler lays records out,
//! so the generated accessor surface can be exercised end to end.
//!
//! [`TestBf`] is the record declared by `TestBf = u16 { on: 2; love: 0 - 1; }`,
//! and [`TestB2`] is the record declared by
//! `TestB2 = u32 { love: 0 - 1; love2: 2 - 4; war: 5 - 8 [mut = false]; }`.
//! `war` is immutable: it exposes only a getter, never a setter.
//!
//! Each record wraps exactly one backing integer, is zero-valued by default,
//! and also implements the whole [`BitField`] operation set by delegating to
//! the wrapped value, so a record is itself a valid bit-field operand.

use crate::BitField;
use crate::{range_read, range_written};
use vstd::prelude::*;

verus! {

/// A 16-bit record: flag `on` at bit 2, range `love` at bits 0..=1.
pub struct TestBf(pub u16);

impl BitField<u16> for TestBf {
    open spec fn bits(&self) -> Seq<bool> {
        self.0.bits()
    }

    open spec fn width() -> nat {
        <u16 as BitField<u16>>::width()
    }

    open spec fn idx(i: u16) -> nat {
        <u16 as BitField<u16>>::idx(i)
    }

    open spec fn val_bits(v: u16) -> Seq<bool> {
        <u16 as BitField<u16>>::val_bits(v)
    }

    open spec fn range_out(s: Seq<bool>, start: nat, end: nat) -> Seq<bool> {
        range_read(s, start, end)
    }

    proof fn bits_len(&self) {
        self.0.bits_len();
    }

    proof fn val_bits_len(v: u16) {
        <u16 as BitField<u16>>::val_bits_len(v);
    }

    fn set_bit(&mut self, i: u16) {
        self.0.set_bit(i);
    }

    fn clear_bit(&mut self, i: u16) {
        self.0.clear_bit(i);
    }

    fn toggle_bit(&mut self, i: u16) {
        self.0.toggle_bit(i);
    }

    fn get_bit(&self, i: u16) -> (r: bool) {
        self.0.get_bit(i)
    }

    fn set_bit_range(&mut self, start: u16, end: u16, b: u16) {
        self.0.set_bit_range(start, end, b);
    }

    fn get_bit_range(&self, start: u16, end: u16) -> (r: u16) {
        self.0.get_bit_range(start, end)
    }
}

impl Default for TestBf {
    /// The zero-valued record.
    fn default() -> (r: Self)
        ensures
            r.0 == 0u16,
    {
        TestBf(0)
    }
}

impl TestBf {
    /// Builds the record from a raw backing value.
    pub fn new(n: u16) -> (r: Self)
        ensures
            r.0 == n,
    {
        TestBf(n)
    }

    /// The whole backing value.
    pub fn get_inner(&self) -> (r: u16)
        ensures
            r == self.0,
    {
        self.0
    }

    /// Replaces the whole backing value.
    pub fn set_inner(&mut self, val: u16)
        ensures
            final(self).0 == val,
    {
        self.0 = val;
    }

    /// Reads the flag `on` (bit 2).
    pub fn get_on(&self) -> (r: bool)
        ensures
            r == self.bits()[2],
    {
        self.0.get_bit(2)
    }

    /// Sets the flag `on` (bit 2).
    pub fn set_on(&mut self)
        ensures
            final(self).bits() == old(self).bits().update(2, true),
    {
        self.0.set_bit(2);
    }

    /// Clears the flag `on` (bit 2).
    pub fn clear_on(&mut self)
        ensures
            final(self).bits() == old(self).bits().update(2, false),
    {
        self.0.clear_bit(2);
    }

    /// Reads the range `love` (bits 0..=1), right-aligned.
    pub fn get_love(&self) -> (r: u16)
        ensures
            <u16 as BitField<u16>>::val_bits(r) == range_read(self.bits(), 0, 1),
    {
        self.0.get_bit_range(0, 1)
    }

    /// Writes the low two bits of `val` into the range `love` (bits 0..=1).
    pub fn set_love(&mut self, val: u16)
        ensures
            final(self).bits() == range_written(
                old(self).bits(),
                0,
                1,
                <u16 as BitField<u16>>::val_bits(val),
            ),
    {
        self.0.set_bit_range(0, 1, val);
    }
}

/// A 32-bit record: range `love` at bits 0..=1, range `love2` at bits 2..=4,
/// and the immutable range `war` at bits 5..=8.
pub struct TestB2(pub u32);

impl BitField<u32> for TestB2 {
    open spec fn bits(&self) -> Seq<bool> {
        self.0.bits()
    }

    open spec fn width() -> nat {
        <u32 as BitField<u32>>::width()
    }

    open spec fn idx(i: u32) -> nat {
        <u32 as BitField<u32>>::idx(i)
    }

    open spec fn val_bits(v: u32) -> Seq<bool> {
        <u32 as BitField<u32>>::val_bits(v)
    }

    open spec fn range_out(s: Seq<bool>, start: nat, end: nat) -> Seq<bool> {
        range_read(s, start, end)
    }

    proof fn bits_len(&self) {
        self.0.bits_len();
    }

    proof fn val_bits_len(v: u32) {
        <u32 as BitField<u32>>::val_bits_len(v);
    }

    fn set_bit(&mut self, i: u32) {
        self.0.set_bit(i);
    }

    fn clear_bit(&mut self, i: u32) {
        self.0.clear_bit(i);
    }

    fn toggle_bit(&mut self, i: u32) {
        self.0.toggle_bit(i);
    }

    fn get_bit(&self, i: u32) -> (r: bool) {
        self.0.get_bit(i)
    }

    fn set_bit_range(&mut self, start: u32, end: u32, b: u32) {
        self.0.set_bit_range(start, end, b);
    }

    fn get_bit_range(&self, start: u32, end: u32) -> (r: u32) {
        self.0.get_bit_range(start, end)
    }
}

impl Default for TestB2 {
    /// The zero-valued record.
    fn default() -> (r: Self)
        ensures
            r.0 == 0u32,
    {
        TestB2(0)
    }
}

impl TestB2 {
    /// Builds the record from a raw backing value.
    pub fn new(n: u32) -> (r: Self)
        ensures
            r.0 == n,
    {
        TestB2(n)
    }

    /// The whole backing value.
    pub fn get_inner(&self) -> (r: u32)
        ensures
            r == self.0,
    {
        self.0
    }

    /// Replaces the whole backing value.
    pub fn set_inner(&mut self, val: u32)
        ensures
            final(self).0 == val,
    {
        self.0 = val;
    }

    /// Reads the range `love` (bits 0..=1), right-aligned.
    pub fn get_love(&self) -> (r: u32)
        ensures
            <u32 as BitField<u32>>::val_bits(r) == range_read(self.bits(), 0, 1),
    {
        self.0.get_bit_range(0, 1)
    }

    /// Writes the low two bits of `val` into the range `love` (bits 0..=1).
    pub fn set_love(&mut self, val: u32)
        ensures
            final(self).bits() == range_written(
                old(self).bits(),
                0,
                1,
                <u32 as BitField<u32>>::val_bits(val),
            ),
    {
        self.0.set_bit_range(0, 1, val);
    }

    /// Reads the range `love2` (bits 2..=4), right-aligned.
    pub fn get_love2(&self) -> (r: u32)
        ensures
            <u32 as BitField<u32>>::val_bits(r) == range_read(self.bits(), 2, 4),
    {
        self.0.get_bit_range(2, 4)
    }

    /// Writes the low three bits of `val` into the range `love2` (bits 2..=4).
    pub fn set_love2(&mut self, val: u32)
        ensures
            final(self).bits() == range_written(
                old(self).bits(),
                2,
                4,
                <u32 as BitField<u32>>::val_bits(val),
            ),
    {
        self.0.set_bit_range(2, 4, val);
    }

    /// Reads the immutable range `war` (bits 5..=8), right-aligned. `war` is
    /// declared with `mut = false`, so no setter exists for it.
    pub fn get_war(&self) -> (r: u32)
        ensures
            <u32 as BitField<u32>>::val_bits(r) == range_read(self.bits(), 5, 8),
    {
        self.0.get_bit_range(5, 8)
    }
}


/// Non-overlapping independence at the record level: writing the `love`
/// window of a [`TestB2`] never alters what the disjoint `war` window reads.
pub proof fn lemma_love_war_independent(before: TestB2, after: TestB2, val: u32)
    requires
        after.bits() == range_written(
            before.bits(),
            0,
            1,
            <u32 as BitField<u32>>::val_bits(val),
        ),
    ensures
        range_read(after.bits(), 5, 8) == range_read(before.bits(), 5, 8),
{
    before.bits_len();
    crate::lemma_disjoint_ranges_independent(
        before.bits(),
        0,
        1,
        <u32 as BitField<u32>>::val_bits(val),
        5,
        8,
    );
}

} // verus!
