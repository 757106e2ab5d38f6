//! The bit-arithmetic engine: [`BitField`] implementations for the primitive
//! integer types, each proved against the `Seq<bool>` bit model.
//!
//! Every implementation follows the same scheme: a spec function gives bit
//! `j` of a value through shift-and-mask arithmetic, a single bit-vector
//! proof function bundles the per-bit facts about the six operations, and
//! each method connects its machine arithmetic to the sequence model through
//! those facts. A range covering the type's full width is special-cased when
//! the window mask is built, since shifting by the full width is not defined.

use crate::BitField;
use crate::{range_read, range_read_arith, range_written};
use vstd::prelude::*;

verus! {

/// Bit `j` of `x`: true for 1.
pub open spec fn u8_bit(x: u8, j: u8) -> bool {
    (x >> j) & 1u8 == 1u8
}

/// The window mask for the inclusive range `s..=e`: `e - s + 1` one-bits at
/// bit 0. A full-width window is the all-ones value directly, never a shift
/// by the type's width.
pub open spec fn u8_mask(s: u8, e: u8) -> u8 {
    if e - s + 1 == 8 {
        !0u8
    } else {
        !((!0u8) << ((e - s + 1) as u8))
    }
}

/// The value of `x` with the window `s..=e` overwritten by the low bits of
/// `b`, as the machine computes it.
pub open spec fn u8_set_range(x: u8, s: u8, e: u8, b: u8) -> u8 {
    (x & !(u8_mask(s, e) << s)) | ((b & u8_mask(s, e)) << s)
}

/// The window `s..=e` of `x`, right-aligned, as the machine computes it.
pub open spec fn u8_get_range(x: u8, s: u8, e: u8) -> u8 {
    (x & (u8_mask(s, e) << s)) >> s
}

proof fn u8_facts(x: u8, b: u8, i: u8, s: u8, e: u8)
    by (bit_vector)
    requires
        i < 8,
        s <= e,
        e < 8,
    ensures
        forall|j: u8| j < 8 ==> #[trigger] u8_bit(x | (1u8 << i), j) == (j == i || u8_bit(x, j)),
        forall|j: u8|
            j < 8 ==> #[trigger] u8_bit(x & !(1u8 << i), j) == (j != i && u8_bit(x, j)),
        forall|j: u8|
            j < 8 ==> #[trigger] u8_bit(x ^ (1u8 << i), j) == (if j == i {
                !u8_bit(x, j)
            } else {
                u8_bit(x, j)
            }),
        (((x & (1u8 << i)) >> i) != 0) == u8_bit(x, i),
        forall|j: u8|
            j < 8 ==> #[trigger] u8_bit(u8_set_range(x, s, e, b), j) == (if s <= j && j <= e {
                u8_bit(b, (j - s) as u8)
            } else {
                u8_bit(x, j)
            }),
        forall|j: u8|
            j < 8 ==> #[trigger] u8_bit(u8_get_range(x, s, e), j) == (j <= e - s && u8_bit(
                x,
                (j + s) as u8,
            )),
{
}

impl BitField<u8> for u8 {
    open spec fn bits(&self) -> Seq<bool> {
        Seq::new(8, |j: int| u8_bit(*self, j as u8))
    }

    open spec fn width() -> nat {
        8
    }

    open spec fn idx(i: u8) -> nat {
        i as nat
    }

    open spec fn val_bits(v: u8) -> Seq<bool> {
        Seq::new(8, |j: int| u8_bit(v, j as u8))
    }

    open spec fn range_out(s: Seq<bool>, start: nat, end: nat) -> Seq<bool> {
        range_read(s, start, end)
    }

    proof fn bits_len(&self) {
    }

    proof fn val_bits_len(v: u8) {
    }

    fn set_bit(&mut self, i: u8) {
        let ghost x = *self;
        *self |= 1u8 << i;
        proof {
            u8_facts(x, 0, i, 0, 0);
            assert(self.bits() =~= x.bits().update(i as int, true));
        }
    }

    fn clear_bit(&mut self, i: u8) {
        let ghost x = *self;
        *self &= !(1u8 << i);
        proof {
            u8_facts(x, 0, i, 0, 0);
            assert(self.bits() =~= x.bits().update(i as int, false));
        }
    }

    fn toggle_bit(&mut self, i: u8) {
        let ghost x = *self;
        *self ^= 1u8 << i;
        proof {
            u8_facts(x, 0, i, 0, 0);
            assert(self.bits() =~= x.bits().update(i as int, !x.bits()[i as int]));
        }
    }

    fn get_bit(&self, i: u8) -> (r: bool) {
        let r = ((*self & (1u8 << i)) >> i) != 0;
        proof {
            u8_facts(*self, 0, i, 0, 0);
        }
        r
    }

    fn set_bit_range(&mut self, start: u8, end: u8, b: u8) {
        let ghost x = *self;
        let k: u8 = end - start + 1;
        let mask: u8 = if k == 8 {
            !0u8
        } else {
            !((!0u8) << k)
        };
        *self &= !(mask << start);
        *self |= (b & mask) << start;
        proof {
            assert(*self == u8_set_range(x, start, end, b));
            u8_facts(x, b, 0, start, end);
            assert(self.bits() =~= range_written(
                x.bits(),
                start as nat,
                end as nat,
                <u8 as BitField<u8>>::val_bits(b),
            ));
        }
    }

    fn get_bit_range(&self, start: u8, end: u8) -> (r: u8) {
        let k: u8 = end - start + 1;
        let mask: u8 = if k == 8 {
            !0u8
        } else {
            !((!0u8) << k)
        };
        let r = (*self & (mask << start)) >> start;
        proof {
            assert(r == u8_get_range(*self, start, end));
            u8_facts(*self, 0, 0, start, end);
            assert(<u8 as BitField<u8>>::val_bits(r) =~= range_read(
                self.bits(),
                start as nat,
                end as nat,
            ));
        }
        r
    }
}

/// Bit `j` of `x`: true for 1.
pub open spec fn u16_bit(x: u16, j: u16) -> bool {
    (x >> j) & 1u16 == 1u16
}

/// The window mask for the inclusive range `s..=e`: `e - s + 1` one-bits at
/// bit 0. A full-width window is the all-ones value directly, never a shift
/// by the type's width.
pub open spec fn u16_mask(s: u16, e: u16) -> u16 {
    if e - s + 1 == 16 {
        !0u16
    } else {
        !((!0u16) << ((e - s + 1) as u16))
    }
}

/// The value of `x` with the window `s..=e` overwritten by the low bits of
/// `b`, as the machine computes it.
pub open spec fn u16_set_range(x: u16, s: u16, e: u16, b: u16) -> u16 {
    (x & !(u16_mask(s, e) << s)) | ((b & u16_mask(s, e)) << s)
}

/// The window `s..=e` of `x`, right-aligned, as the machine computes it.
pub open spec fn u16_get_range(x: u16, s: u16, e: u16) -> u16 {
    (x & (u16_mask(s, e) << s)) >> s
}

proof fn u16_facts(x: u16, b: u16, i: u16, s: u16, e: u16)
    by (bit_vector)
    requires
        i < 16,
        s <= e,
        e < 16,
    ensures
        forall|j: u16| j < 16 ==> #[trigger] u16_bit(x | (1u16 << i), j) == (j == i || u16_bit(x, j)),
        forall|j: u16|
            j < 16 ==> #[trigger] u16_bit(x & !(1u16 << i), j) == (j != i && u16_bit(x, j)),
        forall|j: u16|
            j < 16 ==> #[trigger] u16_bit(x ^ (1u16 << i), j) == (if j == i {
                !u16_bit(x, j)
            } else {
                u16_bit(x, j)
            }),
        (((x & (1u16 << i)) >> i) != 0) == u16_bit(x, i),
        forall|j: u16|
            j < 16 ==> #[trigger] u16_bit(u16_set_range(x, s, e, b), j) == (if s <= j && j <= e {
                u16_bit(b, (j - s) as u16)
            } else {
                u16_bit(x, j)
            }),
        forall|j: u16|
            j < 16 ==> #[trigger] u16_bit(u16_get_range(x, s, e), j) == (j <= e - s && u16_bit(
                x,
                (j + s) as u16,
            )),
{
}

impl BitField<u16> for u16 {
    open spec fn bits(&self) -> Seq<bool> {
        Seq::new(16, |j: int| u16_bit(*self, j as u16))
    }

    open spec fn width() -> nat {
        16
    }

    open spec fn idx(i: u16) -> nat {
        i as nat
    }

    open spec fn val_bits(v: u16) -> Seq<bool> {
        Seq::new(16, |j: int| u16_bit(v, j as u16))
    }

    open spec fn range_out(s: Seq<bool>, start: nat, end: nat) -> Seq<bool> {
        range_read(s, start, end)
    }

    proof fn bits_len(&self) {
    }

    proof fn val_bits_len(v: u16) {
    }

    fn set_bit(&mut self, i: u16) {
        let ghost x = *self;
        *self |= 1u16 << i;
        proof {
            u16_facts(x, 0, i, 0, 0);
            assert(self.bits() =~= x.bits().update(i as int, true));
        }
    }

    fn clear_bit(&mut self, i: u16) {
        let ghost x = *self;
        *self &= !(1u16 << i);
        proof {
            u16_facts(x, 0, i, 0, 0);
            assert(self.bits() =~= x.bits().update(i as int, false));
        }
    }

    fn toggle_bit(&mut self, i: u16) {
        let ghost x = *self;
        *self ^= 1u16 << i;
        proof {
            u16_facts(x, 0, i, 0, 0);
            assert(self.bits() =~= x.bits().update(i as int, !x.bits()[i as int]));
        }
    }

    fn get_bit(&self, i: u16) -> (r: bool) {
        let r = ((*self & (1u16 << i)) >> i) != 0;
        proof {
            u16_facts(*self, 0, i, 0, 0);
        }
        r
    }

    fn set_bit_range(&mut self, start: u16, end: u16, b: u16) {
        let ghost x = *self;
        let k: u16 = end - start + 1;
        let mask: u16 = if k == 16 {
            !0u16
        } else {
            !((!0u16) << k)
        };
        *self &= !(mask << start);
        *self |= (b & mask) << start;
        proof {
            assert(*self == u16_set_range(x, start, end, b));
            u16_facts(x, b, 0, start, end);
            assert(self.bits() =~= range_written(
                x.bits(),
                start as nat,
                end as nat,
                <u16 as BitField<u16>>::val_bits(b),
            ));
        }
    }

    fn get_bit_range(&self, start: u16, end: u16) -> (r: u16) {
        let k: u16 = end - start + 1;
        let mask: u16 = if k == 16 {
            !0u16
        } else {
            !((!0u16) << k)
        };
        let r = (*self & (mask << start)) >> start;
        proof {
            assert(r == u16_get_range(*self, start, end));
            u16_facts(*self, 0, 0, start, end);
            assert(<u16 as BitField<u16>>::val_bits(r) =~= range_read(
                self.bits(),
                start as nat,
                end as nat,
            ));
        }
        r
    }
}

/// Bit `j` of `x`: true for 1.
pub open spec fn u32_bit(x: u32, j: u32) -> bool {
    (x >> j) & 1u32 == 1u32
}

/// The window mask for the inclusive range `s..=e`: `e - s + 1` one-bits at
/// bit 0. A full-width window is the all-ones value directly, never a shift
/// by the type's width.
pub open spec fn u32_mask(s: u32, e: u32) -> u32 {
    if e - s + 1 == 32 {
        !0u32
    } else {
        !((!0u32) << ((e - s + 1) as u32))
    }
}

/// The value of `x` with the window `s..=e` overwritten by the low bits of
/// `b`, as the machine computes it.
pub open spec fn u32_set_range(x: u32, s: u32, e: u32, b: u32) -> u32 {
    (x & !(u32_mask(s, e) << s)) | ((b & u32_mask(s, e)) << s)
}

/// The window `s..=e` of `x`, right-aligned, as the machine computes it.
pub open spec fn u32_get_range(x: u32, s: u32, e: u32) -> u32 {
    (x & (u32_mask(s, e) << s)) >> s
}

proof fn u32_facts(x: u32, b: u32, i: u32, s: u32, e: u32)
    by (bit_vector)
    requires
        i < 32,
        s <= e,
        e < 32,
    ensures
        forall|j: u32| j < 32 ==> #[trigger] u32_bit(x | (1u32 << i), j) == (j == i || u32_bit(x, j)),
        forall|j: u32|
            j < 32 ==> #[trigger] u32_bit(x & !(1u32 << i), j) == (j != i && u32_bit(x, j)),
        forall|j: u32|
            j < 32 ==> #[trigger] u32_bit(x ^ (1u32 << i), j) == (if j == i {
                !u32_bit(x, j)
            } else {
                u32_bit(x, j)
            }),
        (((x & (1u32 << i)) >> i) != 0) == u32_bit(x, i),
        forall|j: u32|
            j < 32 ==> #[trigger] u32_bit(u32_set_range(x, s, e, b), j) == (if s <= j && j <= e {
                u32_bit(b, (j - s) as u32)
            } else {
                u32_bit(x, j)
            }),
        forall|j: u32|
            j < 32 ==> #[trigger] u32_bit(u32_get_range(x, s, e), j) == (j <= e - s && u32_bit(
                x,
                (j + s) as u32,
            )),
{
}

impl BitField<u32> for u32 {
    open spec fn bits(&self) -> Seq<bool> {
        Seq::new(32, |j: int| u32_bit(*self, j as u32))
    }

    open spec fn width() -> nat {
        32
    }

    open spec fn idx(i: u32) -> nat {
        i as nat
    }

    open spec fn val_bits(v: u32) -> Seq<bool> {
        Seq::new(32, |j: int| u32_bit(v, j as u32))
    }

    open spec fn range_out(s: Seq<bool>, start: nat, end: nat) -> Seq<bool> {
        range_read(s, start, end)
    }

    proof fn bits_len(&self) {
    }

    proof fn val_bits_len(v: u32) {
    }

    fn set_bit(&mut self, i: u32) {
        let ghost x = *self;
        *self |= 1u32 << i;
        proof {
            u32_facts(x, 0, i, 0, 0);
            assert(self.bits() =~= x.bits().update(i as int, true));
        }
    }

    fn clear_bit(&mut self, i: u32) {
        let ghost x = *self;
        *self &= !(1u32 << i);
        proof {
            u32_facts(x, 0, i, 0, 0);
            assert(self.bits() =~= x.bits().update(i as int, false));
        }
    }

    fn toggle_bit(&mut self, i: u32) {
        let ghost x = *self;
        *self ^= 1u32 << i;
        proof {
            u32_facts(x, 0, i, 0, 0);
            assert(self.bits() =~= x.bits().update(i as int, !x.bits()[i as int]));
        }
    }

    fn get_bit(&self, i: u32) -> (r: bool) {
        let r = ((*self & (1u32 << i)) >> i) != 0;
        proof {
            u32_facts(*self, 0, i, 0, 0);
        }
        r
    }

    fn set_bit_range(&mut self, start: u32, end: u32, b: u32) {
        let ghost x = *self;
        let k: u32 = end - start + 1;
        let mask: u32 = if k == 32 {
            !0u32
        } else {
            !((!0u32) << k)
        };
        *self &= !(mask << start);
        *self |= (b & mask) << start;
        proof {
            assert(*self == u32_set_range(x, start, end, b));
            u32_facts(x, b, 0, start, end);
            assert(self.bits() =~= range_written(
                x.bits(),
                start as nat,
                end as nat,
                <u32 as BitField<u32>>::val_bits(b),
            ));
        }
    }

    fn get_bit_range(&self, start: u32, end: u32) -> (r: u32) {
        let k: u32 = end - start + 1;
        let mask: u32 = if k == 32 {
            !0u32
        } else {
            !((!0u32) << k)
        };
        let r = (*self & (mask << start)) >> start;
        proof {
            assert(r == u32_get_range(*self, start, end));
            u32_facts(*self, 0, 0, start, end);
            assert(<u32 as BitField<u32>>::val_bits(r) =~= range_read(
                self.bits(),
                start as nat,
                end as nat,
            ));
        }
        r
    }
}

/// Bit `j` of `x`: true for 1.
pub open spec fn u64_bit(x: u64, j: u64) -> bool {
    (x >> j) & 1u64 == 1u64
}

/// The window mask for the inclusive range `s..=e`: `e - s + 1` one-bits at
/// bit 0. A full-width window is the all-ones value directly, never a shift
/// by the type's width.
pub open spec fn u64_mask(s: u64, e: u64) -> u64 {
    if e - s + 1 == 64 {
        !0u64
    } else {
        !((!0u64) << ((e - s + 1) as u64))
    }
}

/// The value of `x` with the window `s..=e` overwritten by the low bits of
/// `b`, as the machine computes it.
pub open spec fn u64_set_range(x: u64, s: u64, e: u64, b: u64) -> u64 {
    (x & !(u64_mask(s, e) << s)) | ((b & u64_mask(s, e)) << s)
}

/// The window `s..=e` of `x`, right-aligned, as the machine computes it.
pub open spec fn u64_get_range(x: u64, s: u64, e: u64) -> u64 {
    (x & (u64_mask(s, e) << s)) >> s
}

proof fn u64_facts(x: u64, b: u64, i: u64, s: u64, e: u64)
    by (bit_vector)
    requires
        i < 64,
        s <= e,
        e < 64,
    ensures
        forall|j: u64| j < 64 ==> #[trigger] u64_bit(x | (1u64 << i), j) == (j == i || u64_bit(x, j)),
        forall|j: u64|
            j < 64 ==> #[trigger] u64_bit(x & !(1u64 << i), j) == (j != i && u64_bit(x, j)),
        forall|j: u64|
            j < 64 ==> #[trigger] u64_bit(x ^ (1u64 << i), j) == (if j == i {
                !u64_bit(x, j)
            } else {
                u64_bit(x, j)
            }),
        (((x & (1u64 << i)) >> i) != 0) == u64_bit(x, i),
        forall|j: u64|
            j < 64 ==> #[trigger] u64_bit(u64_set_range(x, s, e, b), j) == (if s <= j && j <= e {
                u64_bit(b, (j - s) as u64)
            } else {
                u64_bit(x, j)
            }),
        forall|j: u64|
            j < 64 ==> #[trigger] u64_bit(u64_get_range(x, s, e), j) == (j <= e - s && u64_bit(
                x,
                (j + s) as u64,
            )),
{
}

impl BitField<u64> for u64 {
    open spec fn bits(&self) -> Seq<bool> {
        Seq::new(64, |j: int| u64_bit(*self, j as u64))
    }

    open spec fn width() -> nat {
        64
    }

    open spec fn idx(i: u64) -> nat {
        i as nat
    }

    open spec fn val_bits(v: u64) -> Seq<bool> {
        Seq::new(64, |j: int| u64_bit(v, j as u64))
    }

    open spec fn range_out(s: Seq<bool>, start: nat, end: nat) -> Seq<bool> {
        range_read(s, start, end)
    }

    proof fn bits_len(&self) {
    }

    proof fn val_bits_len(v: u64) {
    }

    fn set_bit(&mut self, i: u64) {
        let ghost x = *self;
        *self |= 1u64 << i;
        proof {
            u64_facts(x, 0, i, 0, 0);
            assert(self.bits() =~= x.bits().update(i as int, true));
        }
    }

    fn clear_bit(&mut self, i: u64) {
        let ghost x = *self;
        *self &= !(1u64 << i);
        proof {
            u64_facts(x, 0, i, 0, 0);
            assert(self.bits() =~= x.bits().update(i as int, false));
        }
    }

    fn toggle_bit(&mut self, i: u64) {
        let ghost x = *self;
        *self ^= 1u64 << i;
        proof {
            u64_facts(x, 0, i, 0, 0);
            assert(self.bits() =~= x.bits().update(i as int, !x.bits()[i as int]));
        }
    }

    fn get_bit(&self, i: u64) -> (r: bool) {
        let r = ((*self & (1u64 << i)) >> i) != 0;
        proof {
            u64_facts(*self, 0, i, 0, 0);
        }
        r
    }

    fn set_bit_range(&mut self, start: u64, end: u64, b: u64) {
        let ghost x = *self;
        let k: u64 = end - start + 1;
        let mask: u64 = if k == 64 {
            !0u64
        } else {
            !((!0u64) << k)
        };
        *self &= !(mask << start);
        *self |= (b & mask) << start;
        proof {
            assert(*self == u64_set_range(x, start, end, b));
            u64_facts(x, b, 0, start, end);
            assert(self.bits() =~= range_written(
                x.bits(),
                start as nat,
                end as nat,
                <u64 as BitField<u64>>::val_bits(b),
            ));
        }
    }

    fn get_bit_range(&self, start: u64, end: u64) -> (r: u64) {
        let k: u64 = end - start + 1;
        let mask: u64 = if k == 64 {
            !0u64
        } else {
            !((!0u64) << k)
        };
        let r = (*self & (mask << start)) >> start;
        proof {
            assert(r == u64_get_range(*self, start, end));
            u64_facts(*self, 0, 0, start, end);
            assert(<u64 as BitField<u64>>::val_bits(r) =~= range_read(
                self.bits(),
                start as nat,
                end as nat,
            ));
        }
        r
    }
}

/// Bit `j` of `x`: true for 1.
pub open spec fn u128_bit(x: u128, j: u128) -> bool {
    (x >> j) & 1u128 == 1u128
}

/// The window mask for the inclusive range `s..=e`: `e - s + 1` one-bits at
/// bit 0. A full-width window is the all-ones value directly, never a shift
/// by the type's width.
pub open spec fn u128_mask(s: u128, e: u128) -> u128 {
    if e - s + 1 == 128 {
        !0u128
    } else {
        !((!0u128) << ((e - s + 1) as u128))
    }
}

/// The value of `x` with the window `s..=e` overwritten by the low bits of
/// `b`, as the machine computes it.
pub open spec fn u128_set_range(x: u128, s: u128, e: u128, b: u128) -> u128 {
    (x & !(u128_mask(s, e) << s)) | ((b & u128_mask(s, e)) << s)
}

/// The window `s..=e` of `x`, right-aligned, as the machine computes it.
pub open spec fn u128_get_range(x: u128, s: u128, e: u128) -> u128 {
    (x & (u128_mask(s, e) << s)) >> s
}

#[verifier::rlimit(100)]
proof fn u128_facts(x: u128, b: u128, i: u128, s: u128, e: u128)
    by (bit_vector)
    requires
        i < 128,
        s <= e,
        e < 128,
    ensures
        forall|j: u128| j < 128 ==> #[trigger] u128_bit(x | (1u128 << i), j) == (j == i || u128_bit(x, j)),
        forall|j: u128|
            j < 128 ==> #[trigger] u128_bit(x & !(1u128 << i), j) == (j != i && u128_bit(x, j)),
        forall|j: u128|
            j < 128 ==> #[trigger] u128_bit(x ^ (1u128 << i), j) == (if j == i {
                !u128_bit(x, j)
            } else {
                u128_bit(x, j)
            }),
        (((x & (1u128 << i)) >> i) != 0) == u128_bit(x, i),
        forall|j: u128|
            j < 128 ==> #[trigger] u128_bit(u128_set_range(x, s, e, b), j) == (if s <= j && j <= e {
                u128_bit(b, (j - s) as u128)
            } else {
                u128_bit(x, j)
            }),
        forall|j: u128|
            j < 128 ==> #[trigger] u128_bit(u128_get_range(x, s, e), j) == (j <= e - s && u128_bit(
                x,
                (j + s) as u128,
            )),
{
}

impl BitField<u128> for u128 {
    open spec fn bits(&self) -> Seq<bool> {
        Seq::new(128, |j: int| u128_bit(*self, j as u128))
    }

    open spec fn width() -> nat {
        128
    }

    open spec fn idx(i: u128) -> nat {
        i as nat
    }

    open spec fn val_bits(v: u128) -> Seq<bool> {
        Seq::new(128, |j: int| u128_bit(v, j as u128))
    }

    open spec fn range_out(s: Seq<bool>, start: nat, end: nat) -> Seq<bool> {
        range_read(s, start, end)
    }

    proof fn bits_len(&self) {
    }

    proof fn val_bits_len(v: u128) {
    }

    fn set_bit(&mut self, i: u128) {
        let ghost x = *self;
        *self |= 1u128 << i;
        proof {
            u128_facts(x, 0, i, 0, 0);
            assert(self.bits() =~= x.bits().update(i as int, true));
        }
    }

    fn clear_bit(&mut self, i: u128) {
        let ghost x = *self;
        *self &= !(1u128 << i);
        proof {
            u128_facts(x, 0, i, 0, 0);
            assert(self.bits() =~= x.bits().update(i as int, false));
        }
    }

    fn toggle_bit(&mut self, i: u128) {
        let ghost x = *self;
        *self ^= 1u128 << i;
        proof {
            u128_facts(x, 0, i, 0, 0);
            assert(self.bits() =~= x.bits().update(i as int, !x.bits()[i as int]));
        }
    }

    fn get_bit(&self, i: u128) -> (r: bool) {
        let r = ((*self & (1u128 << i)) >> i) != 0;
        proof {
            u128_facts(*self, 0, i, 0, 0);
        }
        r
    }

    fn set_bit_range(&mut self, start: u128, end: u128, b: u128) {
        let ghost x = *self;
        let k: u128 = end - start + 1;
        let mask: u128 = if k == 128 {
            !0u128
        } else {
            !((!0u128) << k)
        };
        *self &= !(mask << start);
        *self |= (b & mask) << start;
        proof {
            assert(*self == u128_set_range(x, start, end, b));
            u128_facts(x, b, 0, start, end);
            assert(self.bits() =~= range_written(
                x.bits(),
                start as nat,
                end as nat,
                <u128 as BitField<u128>>::val_bits(b),
            ));
        }
    }

    fn get_bit_range(&self, start: u128, end: u128) -> (r: u128) {
        let k: u128 = end - start + 1;
        let mask: u128 = if k == 128 {
            !0u128
        } else {
            !((!0u128) << k)
        };
        let r = (*self & (mask << start)) >> start;
        proof {
            assert(r == u128_get_range(*self, start, end));
            u128_facts(*self, 0, 0, start, end);
            assert(<u128 as BitField<u128>>::val_bits(r) =~= range_read(
                self.bits(),
                start as nat,
                end as nat,
            ));
        }
        r
    }
}

/// Bit `j` of `x`: true for 1. Right shift on a signed value is an
/// arithmetic shift, which leaves the extracted bit unchanged.
pub open spec fn i8_bit(x: i8, j: u8) -> bool {
    (x >> j) & 1i8 == 1i8
}

/// The window mask for the inclusive range `s..=e`: `e - s + 1` one-bits at
/// bit 0. A full-width window is the all-ones value directly, never a shift
/// by the type's width.
pub open spec fn i8_mask(s: u8, e: u8) -> i8 {
    if e - s + 1 == 8 {
        !0i8
    } else {
        !((!0i8) << ((e - s + 1) as u8))
    }
}

/// The value of `x` with the window `s..=e` overwritten by the low bits of
/// `b`, as the machine computes it.
pub open spec fn i8_set_range(x: i8, s: u8, e: u8, b: i8) -> i8 {
    (x & !(i8_mask(s, e) << s)) | ((b & i8_mask(s, e)) << s)
}

/// The window `s..=e` of `x`, right-aligned, as the machine computes it.
pub open spec fn i8_get_range(x: i8, s: u8, e: u8) -> i8 {
    (x & (i8_mask(s, e) << s)) >> s
}

proof fn i8_facts(x: i8, b: i8, i: u8, s: u8, e: u8)
    by (bit_vector)
    requires
        i < 8,
        s <= e,
        e < 8,
    ensures
        forall|j: u8| j < 8 ==> #[trigger] i8_bit(x | (1i8 << i), j) == (j == i || i8_bit(x, j)),
        forall|j: u8|
            j < 8 ==> #[trigger] i8_bit(x & !(1i8 << i), j) == (j != i && i8_bit(x, j)),
        forall|j: u8|
            j < 8 ==> #[trigger] i8_bit(x ^ (1i8 << i), j) == (if j == i {
                !i8_bit(x, j)
            } else {
                i8_bit(x, j)
            }),
        (((x & (1i8 << i)) >> i) != 0) == i8_bit(x, i),
        forall|j: u8|
            j < 8 ==> #[trigger] i8_bit(i8_set_range(x, s, e, b), j) == (if s <= j && j <= e {
                i8_bit(b, (j - s) as u8)
            } else {
                i8_bit(x, j)
            }),
        forall|j: u8|
            j < 8 ==> #[trigger] i8_bit(i8_get_range(x, s, e), j) == (if j <= e - s {
                i8_bit(x, (j + s) as u8)
            } else if j + s < 8 {
                false
            } else {
                e == 7 && i8_bit(x, 7u8)
            }),
{
}

impl BitField<i8> for i8 {
    open spec fn bits(&self) -> Seq<bool> {
        Seq::new(8, |j: int| i8_bit(*self, j as u8))
    }

    open spec fn width() -> nat {
        8
    }

    open spec fn idx(i: i8) -> nat {
        (i as u8) as nat
    }

    open spec fn val_bits(v: i8) -> Seq<bool> {
        Seq::new(8, |j: int| i8_bit(v, j as u8))
    }

    open spec fn range_out(s: Seq<bool>, start: nat, end: nat) -> Seq<bool> {
        range_read_arith(s, start, end)
    }

    proof fn bits_len(&self) {
    }

    proof fn val_bits_len(v: i8) {
    }

    fn set_bit(&mut self, i: i8) {
        let ghost x = *self;
        let iu: u8 = i as u8;
        *self |= 1i8 << iu;
        proof {
            i8_facts(x, 0, iu, 0, 0);
            assert(self.bits() =~= x.bits().update(iu as int, true));
        }
    }

    fn clear_bit(&mut self, i: i8) {
        let ghost x = *self;
        let iu: u8 = i as u8;
        *self &= !(1i8 << iu);
        proof {
            i8_facts(x, 0, iu, 0, 0);
            assert(self.bits() =~= x.bits().update(iu as int, false));
        }
    }

    fn toggle_bit(&mut self, i: i8) {
        let ghost x = *self;
        let iu: u8 = i as u8;
        *self ^= 1i8 << iu;
        proof {
            i8_facts(x, 0, iu, 0, 0);
            assert(self.bits() =~= x.bits().update(iu as int, !x.bits()[iu as int]));
        }
    }

    fn get_bit(&self, i: i8) -> (r: bool) {
        let iu: u8 = i as u8;
        let r = ((*self & (1i8 << iu)) >> iu) != 0;
        proof {
            i8_facts(*self, 0, iu, 0, 0);
        }
        r
    }

    fn set_bit_range(&mut self, start: i8, end: i8, b: i8) {
        let ghost x = *self;
        let su: u8 = start as u8;
        let eu: u8 = end as u8;
        let k: u8 = eu - su + 1;
        let mask: i8 = if k == 8 {
            !0i8
        } else {
            !((!0i8) << k)
        };
        *self &= !(mask << su);
        *self |= (b & mask) << su;
        proof {
            assert(*self == i8_set_range(x, su, eu, b));
            i8_facts(x, b, 0, su, eu);
            assert(self.bits() =~= range_written(
                x.bits(),
                su as nat,
                eu as nat,
                <i8 as BitField<i8>>::val_bits(b),
            ));
        }
    }

    fn get_bit_range(&self, start: i8, end: i8) -> (r: i8) {
        let su: u8 = start as u8;
        let eu: u8 = end as u8;
        let k: u8 = eu - su + 1;
        let mask: i8 = if k == 8 {
            !0i8
        } else {
            !((!0i8) << k)
        };
        let r = (*self & (mask << su)) >> su;
        proof {
            assert(r == i8_get_range(*self, su, eu));
            i8_facts(*self, 0, 0, su, eu);
            assert(<i8 as BitField<i8>>::val_bits(r) =~= range_read_arith(
                self.bits(),
                su as nat,
                eu as nat,
            ));
        }
        r
    }
}

/// Bit `j` of `x`: true for 1. Right shift on a signed value is an
/// arithmetic shift, which leaves the extracted bit unchanged.
pub open spec fn i16_bit(x: i16, j: u16) -> bool {
    (x >> j) & 1i16 == 1i16
}

/// The window mask for the inclusive range `s..=e`: `e - s + 1` one-bits at
/// bit 0. A full-width window is the all-ones value directly, never a shift
/// by the type's width.
pub open spec fn i16_mask(s: u16, e: u16) -> i16 {
    if e - s + 1 == 16 {
        !0i16
    } else {
        !((!0i16) << ((e - s + 1) as u16))
    }
}

/// The value of `x` with the window `s..=e` overwritten by the low bits of
/// `b`, as the machine computes it.
pub open spec fn i16_set_range(x: i16, s: u16, e: u16, b: i16) -> i16 {
    (x & !(i16_mask(s, e) << s)) | ((b & i16_mask(s, e)) << s)
}

/// The window `s..=e` of `x`, right-aligned, as the machine computes it.
pub open spec fn i16_get_range(x: i16, s: u16, e: u16) -> i16 {
    (x & (i16_mask(s, e) << s)) >> s
}

proof fn i16_facts(x: i16, b: i16, i: u16, s: u16, e: u16)
    by (bit_vector)
    requires
        i < 16,
        s <= e,
        e < 16,
    ensures
        forall|j: u16| j < 16 ==> #[trigger] i16_bit(x | (1i16 << i), j) == (j == i || i16_bit(x, j)),
        forall|j: u16|
            j < 16 ==> #[trigger] i16_bit(x & !(1i16 << i), j) == (j != i && i16_bit(x, j)),
        forall|j: u16|
            j < 16 ==> #[trigger] i16_bit(x ^ (1i16 << i), j) == (if j == i {
                !i16_bit(x, j)
            } else {
                i16_bit(x, j)
            }),
        (((x & (1i16 << i)) >> i) != 0) == i16_bit(x, i),
        forall|j: u16|
            j < 16 ==> #[trigger] i16_bit(i16_set_range(x, s, e, b), j) == (if s <= j && j <= e {
                i16_bit(b, (j - s) as u16)
            } else {
                i16_bit(x, j)
            }),
        forall|j: u16|
            j < 16 ==> #[trigger] i16_bit(i16_get_range(x, s, e), j) == (if j <= e - s {
                i16_bit(x, (j + s) as u16)
            } else if j + s < 16 {
                false
            } else {
                e == 15 && i16_bit(x, 15u16)
            }),
{
}

impl BitField<i16> for i16 {
    open spec fn bits(&self) -> Seq<bool> {
        Seq::new(16, |j: int| i16_bit(*self, j as u16))
    }

    open spec fn width() -> nat {
        16
    }

    open spec fn idx(i: i16) -> nat {
        (i as u16) as nat
    }

    open spec fn val_bits(v: i16) -> Seq<bool> {
        Seq::new(16, |j: int| i16_bit(v, j as u16))
    }

    open spec fn range_out(s: Seq<bool>, start: nat, end: nat) -> Seq<bool> {
        range_read_arith(s, start, end)
    }

    proof fn bits_len(&self) {
    }

    proof fn val_bits_len(v: i16) {
    }

    fn set_bit(&mut self, i: i16) {
        let ghost x = *self;
        let iu: u16 = i as u16;
        *self |= 1i16 << iu;
        proof {
            i16_facts(x, 0, iu, 0, 0);
            assert(self.bits() =~= x.bits().update(iu as int, true));
        }
    }

    fn clear_bit(&mut self, i: i16) {
        let ghost x = *self;
        let iu: u16 = i as u16;
        *self &= !(1i16 << iu);
        proof {
            i16_facts(x, 0, iu, 0, 0);
            assert(self.bits() =~= x.bits().update(iu as int, false));
        }
    }

    fn toggle_bit(&mut self, i: i16) {
        let ghost x = *self;
        let iu: u16 = i as u16;
        *self ^= 1i16 << iu;
        proof {
            i16_facts(x, 0, iu, 0, 0);
            assert(self.bits() =~= x.bits().update(iu as int, !x.bits()[iu as int]));
        }
    }

    fn get_bit(&self, i: i16) -> (r: bool) {
        let iu: u16 = i as u16;
        let r = ((*self & (1i16 << iu)) >> iu) != 0;
        proof {
            i16_facts(*self, 0, iu, 0, 0);
        }
        r
    }

    fn set_bit_range(&mut self, start: i16, end: i16, b: i16) {
        let ghost x = *self;
        let su: u16 = start as u16;
        let eu: u16 = end as u16;
        let k: u16 = eu - su + 1;
        let mask: i16 = if k == 16 {
            !0i16
        } else {
            !((!0i16) << k)
        };
        *self &= !(mask << su);
        *self |= (b & mask) << su;
        proof {
            assert(*self == i16_set_range(x, su, eu, b));
            i16_facts(x, b, 0, su, eu);
            assert(self.bits() =~= range_written(
                x.bits(),
                su as nat,
                eu as nat,
                <i16 as BitField<i16>>::val_bits(b),
            ));
        }
    }

    fn get_bit_range(&self, start: i16, end: i16) -> (r: i16) {
        let su: u16 = start as u16;
        let eu: u16 = end as u16;
        let k: u16 = eu - su + 1;
        let mask: i16 = if k == 16 {
            !0i16
        } else {
            !((!0i16) << k)
        };
        let r = (*self & (mask << su)) >> su;
        proof {
            assert(r == i16_get_range(*self, su, eu));
            i16_facts(*self, 0, 0, su, eu);
            assert(<i16 as BitField<i16>>::val_bits(r) =~= range_read_arith(
                self.bits(),
                su as nat,
                eu as nat,
            ));
        }
        r
    }
}

/// Bit `j` of `x`: true for 1. Right shift on a signed value is an
/// arithmetic shift, which leaves the extracted bit unchanged.
pub open spec fn i32_bit(x: i32, j: u32) -> bool {
    (x >> j) & 1i32 == 1i32
}

/// The window mask for the inclusive range `s..=e`: `e - s + 1` one-bits at
/// bit 0. A full-width window is the all-ones value directly, never a shift
/// by the type's width.
pub open spec fn i32_mask(s: u32, e: u32) -> i32 {
    if e - s + 1 == 32 {
        !0i32
    } else {
        !((!0i32) << ((e - s + 1) as u32))
    }
}

/// The value of `x` with the window `s..=e` overwritten by the low bits of
/// `b`, as the machine computes it.
pub open spec fn i32_set_range(x: i32, s: u32, e: u32, b: i32) -> i32 {
    (x & !(i32_mask(s, e) << s)) | ((b & i32_mask(s, e)) << s)
}

/// The window `s..=e` of `x`, right-aligned, as the machine computes it.
pub open spec fn i32_get_range(x: i32, s: u32, e: u32) -> i32 {
    (x & (i32_mask(s, e) << s)) >> s
}

proof fn i32_facts(x: i32, b: i32, i: u32, s: u32, e: u32)
    by (bit_vector)
    requires
        i < 32,
        s <= e,
        e < 32,
    ensures
        forall|j: u32| j < 32 ==> #[trigger] i32_bit(x | (1i32 << i), j) == (j == i || i32_bit(x, j)),
        forall|j: u32|
            j < 32 ==> #[trigger] i32_bit(x & !(1i32 << i), j) == (j != i && i32_bit(x, j)),
        forall|j: u32|
            j < 32 ==> #[trigger] i32_bit(x ^ (1i32 << i), j) == (if j == i {
                !i32_bit(x, j)
            } else {
                i32_bit(x, j)
            }),
        (((x & (1i32 << i)) >> i) != 0) == i32_bit(x, i),
        forall|j: u32|
            j < 32 ==> #[trigger] i32_bit(i32_set_range(x, s, e, b), j) == (if s <= j && j <= e {
                i32_bit(b, (j - s) as u32)
            } else {
                i32_bit(x, j)
            }),
        forall|j: u32|
            j < 32 ==> #[trigger] i32_bit(i32_get_range(x, s, e), j) == (if j <= e - s {
                i32_bit(x, (j + s) as u32)
            } else if j + s < 32 {
                false
            } else {
                e == 31 && i32_bit(x, 31u32)
            }),
{
}

impl BitField<i32> for i32 {
    open spec fn bits(&self) -> Seq<bool> {
        Seq::new(32, |j: int| i32_bit(*self, j as u32))
    }

    open spec fn width() -> nat {
        32
    }

    open spec fn idx(i: i32) -> nat {
        (i as u32) as nat
    }

    open spec fn val_bits(v: i32) -> Seq<bool> {
        Seq::new(32, |j: int| i32_bit(v, j as u32))
    }

    open spec fn range_out(s: Seq<bool>, start: nat, end: nat) -> Seq<bool> {
        range_read_arith(s, start, end)
    }

    proof fn bits_len(&self) {
    }

    proof fn val_bits_len(v: i32) {
    }

    fn set_bit(&mut self, i: i32) {
        let ghost x = *self;
        let iu: u32 = i as u32;
        *self |= 1i32 << iu;
        proof {
            i32_facts(x, 0, iu, 0, 0);
            assert(self.bits() =~= x.bits().update(iu as int, true));
        }
    }

    fn clear_bit(&mut self, i: i32) {
        let ghost x = *self;
        let iu: u32 = i as u32;
        *self &= !(1i32 << iu);
        proof {
            i32_facts(x, 0, iu, 0, 0);
            assert(self.bits() =~= x.bits().update(iu as int, false));
        }
    }

    fn toggle_bit(&mut self, i: i32) {
        let ghost x = *self;
        let iu: u32 = i as u32;
        *self ^= 1i32 << iu;
        proof {
            i32_facts(x, 0, iu, 0, 0);
            assert(self.bits() =~= x.bits().update(iu as int, !x.bits()[iu as int]));
        }
    }

    fn get_bit(&self, i: i32) -> (r: bool) {
        let iu: u32 = i as u32;
        let r = ((*self & (1i32 << iu)) >> iu) != 0;
        proof {
            i32_facts(*self, 0, iu, 0, 0);
        }
        r
    }

    fn set_bit_range(&mut self, start: i32, end: i32, b: i32) {
        let ghost x = *self;
        let su: u32 = start as u32;
        let eu: u32 = end as u32;
        let k: u32 = eu - su + 1;
        let mask: i32 = if k == 32 {
            !0i32
        } else {
            !((!0i32) << k)
        };
        *self &= !(mask << su);
        *self |= (b & mask) << su;
        proof {
            assert(*self == i32_set_range(x, su, eu, b));
            i32_facts(x, b, 0, su, eu);
            assert(self.bits() =~= range_written(
                x.bits(),
                su as nat,
                eu as nat,
                <i32 as BitField<i32>>::val_bits(b),
            ));
        }
    }

    fn get_bit_range(&self, start: i32, end: i32) -> (r: i32) {
        let su: u32 = start as u32;
        let eu: u32 = end as u32;
        let k: u32 = eu - su + 1;
        let mask: i32 = if k == 32 {
            !0i32
        } else {
            !((!0i32) << k)
        };
        let r = (*self & (mask << su)) >> su;
        proof {
            assert(r == i32_get_range(*self, su, eu));
            i32_facts(*self, 0, 0, su, eu);
            assert(<i32 as BitField<i32>>::val_bits(r) =~= range_read_arith(
                self.bits(),
                su as nat,
                eu as nat,
            ));
        }
        r
    }
}

/// Bit `j` of `x`: true for 1. Right shift on a signed value is an
/// arithmetic shift, which leaves the extracted bit unchanged.
pub open spec fn i64_bit(x: i64, j: u64) -> bool {
    (x >> j) & 1i64 == 1i64
}

/// The window mask for the inclusive range `s..=e`: `e - s + 1` one-bits at
/// bit 0. A full-width window is the all-ones value directly, never a shift
/// by the type's width.
pub open spec fn i64_mask(s: u64, e: u64) -> i64 {
    if e - s + 1 == 64 {
        !0i64
    } else {
        !((!0i64) << ((e - s + 1) as u64))
    }
}

/// The value of `x` with the window `s..=e` overwritten by the low bits of
/// `b`, as the machine computes it.
pub open spec fn i64_set_range(x: i64, s: u64, e: u64, b: i64) -> i64 {
    (x & !(i64_mask(s, e) << s)) | ((b & i64_mask(s, e)) << s)
}

/// The window `s..=e` of `x`, right-aligned, as the machine computes it.
pub open spec fn i64_get_range(x: i64, s: u64, e: u64) -> i64 {
    (x & (i64_mask(s, e) << s)) >> s
}

proof fn i64_facts(x: i64, b: i64, i: u64, s: u64, e: u64)
    by (bit_vector)
    requires
        i < 64,
        s <= e,
        e < 64,
    ensures
        forall|j: u64| j < 64 ==> #[trigger] i64_bit(x | (1i64 << i), j) == (j == i || i64_bit(x, j)),
        forall|j: u64|
            j < 64 ==> #[trigger] i64_bit(x & !(1i64 << i), j) == (j != i && i64_bit(x, j)),
        forall|j: u64|
            j < 64 ==> #[trigger] i64_bit(x ^ (1i64 << i), j) == (if j == i {
                !i64_bit(x, j)
            } else {
                i64_bit(x, j)
            }),
        (((x & (1i64 << i)) >> i) != 0) == i64_bit(x, i),
        forall|j: u64|
            j < 64 ==> #[trigger] i64_bit(i64_set_range(x, s, e, b), j) == (if s <= j && j <= e {
                i64_bit(b, (j - s) as u64)
            } else {
                i64_bit(x, j)
            }),
        forall|j: u64|
            j < 64 ==> #[trigger] i64_bit(i64_get_range(x, s, e), j) == (if j <= e - s {
                i64_bit(x, (j + s) as u64)
            } else if j + s < 64 {
                false
            } else {
                e == 63 && i64_bit(x, 63u64)
            }),
{
}

impl BitField<i64> for i64 {
    open spec fn bits(&self) -> Seq<bool> {
        Seq::new(64, |j: int| i64_bit(*self, j as u64))
    }

    open spec fn width() -> nat {
        64
    }

    open spec fn idx(i: i64) -> nat {
        (i as u64) as nat
    }

    open spec fn val_bits(v: i64) -> Seq<bool> {
        Seq::new(64, |j: int| i64_bit(v, j as u64))
    }

    open spec fn range_out(s: Seq<bool>, start: nat, end: nat) -> Seq<bool> {
        range_read_arith(s, start, end)
    }

    proof fn bits_len(&self) {
    }

    proof fn val_bits_len(v: i64) {
    }

    fn set_bit(&mut self, i: i64) {
        let ghost x = *self;
        let iu: u64 = i as u64;
        *self |= 1i64 << iu;
        proof {
            i64_facts(x, 0, iu, 0, 0);
            assert(self.bits() =~= x.bits().update(iu as int, true));
        }
    }

    fn clear_bit(&mut self, i: i64) {
        let ghost x = *self;
        let iu: u64 = i as u64;
        *self &= !(1i64 << iu);
        proof {
            i64_facts(x, 0, iu, 0, 0);
            assert(self.bits() =~= x.bits().update(iu as int, false));
        }
    }

    fn toggle_bit(&mut self, i: i64) {
        let ghost x = *self;
        let iu: u64 = i as u64;
        *self ^= 1i64 << iu;
        proof {
            i64_facts(x, 0, iu, 0, 0);
            assert(self.bits() =~= x.bits().update(iu as int, !x.bits()[iu as int]));
        }
    }

    fn get_bit(&self, i: i64) -> (r: bool) {
        let iu: u64 = i as u64;
        let r = ((*self & (1i64 << iu)) >> iu) != 0;
        proof {
            i64_facts(*self, 0, iu, 0, 0);
        }
        r
    }

    fn set_bit_range(&mut self, start: i64, end: i64, b: i64) {
        let ghost x = *self;
        let su: u64 = start as u64;
        let eu: u64 = end as u64;
        let k: u64 = eu - su + 1;
        let mask: i64 = if k == 64 {
            !0i64
        } else {
            !((!0i64) << k)
        };
        *self &= !(mask << su);
        *self |= (b & mask) << su;
        proof {
            assert(*self == i64_set_range(x, su, eu, b));
            i64_facts(x, b, 0, su, eu);
            assert(self.bits() =~= range_written(
                x.bits(),
                su as nat,
                eu as nat,
                <i64 as BitField<i64>>::val_bits(b),
            ));
        }
    }

    fn get_bit_range(&self, start: i64, end: i64) -> (r: i64) {
        let su: u64 = start as u64;
        let eu: u64 = end as u64;
        let k: u64 = eu - su + 1;
        let mask: i64 = if k == 64 {
            !0i64
        } else {
            !((!0i64) << k)
        };
        let r = (*self & (mask << su)) >> su;
        proof {
            assert(r == i64_get_range(*self, su, eu));
            i64_facts(*self, 0, 0, su, eu);
            assert(<i64 as BitField<i64>>::val_bits(r) =~= range_read_arith(
                self.bits(),
                su as nat,
                eu as nat,
            ));
        }
        r
    }
}

/// Bit `j` of `x`: true for 1. Right shift on a signed value is an
/// arithmetic shift, which leaves the extracted bit unchanged.
pub open spec fn i128_bit(x: i128, j: u128) -> bool {
    (x >> j) & 1i128 == 1i128
}

/// The window mask for the inclusive range `s..=e`: `e - s + 1` one-bits at
/// bit 0. A full-width window is the all-ones value directly, never a shift
/// by the type's width.
pub open spec fn i128_mask(s: u128, e: u128) -> i128 {
    if e - s + 1 == 128 {
        !0i128
    } else {
        !((!0i128) << ((e - s + 1) as u128))
    }
}

/// The value of `x` with the window `s..=e` overwritten by the low bits of
/// `b`, as the machine computes it.
pub open spec fn i128_set_range(x: i128, s: u128, e: u128, b: i128) -> i128 {
    (x & !(i128_mask(s, e) << s)) | ((b & i128_mask(s, e)) << s)
}

/// The window `s..=e` of `x`, right-aligned, as the machine computes it.
pub open spec fn i128_get_range(x: i128, s: u128, e: u128) -> i128 {
    (x & (i128_mask(s, e) << s)) >> s
}

#[verifier::rlimit(100)]
proof fn i128_facts(x: i128, b: i128, i: u128, s: u128, e: u128)
    by (bit_vector)
    requires
        i < 128,
        s <= e,
        e < 128,
    ensures
        forall|j: u128| j < 128 ==> #[trigger] i128_bit(x | (1i128 << i), j) == (j == i || i128_bit(x, j)),
        forall|j: u128|
            j < 128 ==> #[trigger] i128_bit(x & !(1i128 << i), j) == (j != i && i128_bit(x, j)),
        forall|j: u128|
            j < 128 ==> #[trigger] i128_bit(x ^ (1i128 << i), j) == (if j == i {
                !i128_bit(x, j)
            } else {
                i128_bit(x, j)
            }),
        (((x & (1i128 << i)) >> i) != 0) == i128_bit(x, i),
        forall|j: u128|
            j < 128 ==> #[trigger] i128_bit(i128_set_range(x, s, e, b), j) == (if s <= j && j <= e {
                i128_bit(b, (j - s) as u128)
            } else {
                i128_bit(x, j)
            }),
        forall|j: u128|
            j < 128 ==> #[trigger] i128_bit(i128_get_range(x, s, e), j) == (if j <= e - s {
                i128_bit(x, (j + s) as u128)
            } else if j + s < 128 {
                false
            } else {
                e == 127 && i128_bit(x, 127u128)
            }),
{
}

impl BitField<i128> for i128 {
    open spec fn bits(&self) -> Seq<bool> {
        Seq::new(128, |j: int| i128_bit(*self, j as u128))
    }

    open spec fn width() -> nat {
        128
    }

    open spec fn idx(i: i128) -> nat {
        (i as u128) as nat
    }

    open spec fn val_bits(v: i128) -> Seq<bool> {
        Seq::new(128, |j: int| i128_bit(v, j as u128))
    }

    open spec fn range_out(s: Seq<bool>, start: nat, end: nat) -> Seq<bool> {
        range_read_arith(s, start, end)
    }

    proof fn bits_len(&self) {
    }

    proof fn val_bits_len(v: i128) {
    }

    fn set_bit(&mut self, i: i128) {
        let ghost x = *self;
        let iu: u128 = i as u128;
        *self |= 1i128 << iu;
        proof {
            i128_facts(x, 0, iu, 0, 0);
            assert(self.bits() =~= x.bits().update(iu as int, true));
        }
    }

    fn clear_bit(&mut self, i: i128) {
        let ghost x = *self;
        let iu: u128 = i as u128;
        *self &= !(1i128 << iu);
        proof {
            i128_facts(x, 0, iu, 0, 0);
            assert(self.bits() =~= x.bits().update(iu as int, false));
        }
    }

    fn toggle_bit(&mut self, i: i128) {
        let ghost x = *self;
        let iu: u128 = i as u128;
        *self ^= 1i128 << iu;
        proof {
            i128_facts(x, 0, iu, 0, 0);
            assert(self.bits() =~= x.bits().update(iu as int, !x.bits()[iu as int]));
        }
    }

    fn get_bit(&self, i: i128) -> (r: bool) {
        let iu: u128 = i as u128;
        let r = ((*self & (1i128 << iu)) >> iu) != 0;
        proof {
            i128_facts(*self, 0, iu, 0, 0);
        }
        r
    }

    fn set_bit_range(&mut self, start: i128, end: i128, b: i128) {
        let ghost x = *self;
        let su: u128 = start as u128;
        let eu: u128 = end as u128;
        let k: u128 = eu - su + 1;
        let mask: i128 = if k == 128 {
            !0i128
        } else {
            !((!0i128) << k)
        };
        *self &= !(mask << su);
        *self |= (b & mask) << su;
        proof {
            assert(*self == i128_set_range(x, su, eu, b));
            i128_facts(x, b, 0, su, eu);
            assert(self.bits() =~= range_written(
                x.bits(),
                su as nat,
                eu as nat,
                <i128 as BitField<i128>>::val_bits(b),
            ));
        }
    }

    fn get_bit_range(&self, start: i128, end: i128) -> (r: i128) {
        let su: u128 = start as u128;
        let eu: u128 = end as u128;
        let k: u128 = eu - su + 1;
        let mask: i128 = if k == 128 {
            !0i128
        } else {
            !((!0i128) << k)
        };
        let r = (*self & (mask << su)) >> su;
        proof {
            assert(r == i128_get_range(*self, su, eu));
            i128_facts(*self, 0, 0, su, eu);
            assert(<i128 as BitField<i128>>::val_bits(r) =~= range_read_arith(
                self.bits(),
                su as nat,
                eu as nat,
            ));
        }
        r
    }
}

/// Bit `j` of `x`: true for 1.
pub open spec fn usize_bit(x: usize, j: usize) -> bool {
    (x >> j) & 1usize == 1usize
}

/// The window mask for the inclusive range `s..=e`: `e - s + 1` one-bits at
/// bit 0. A full-width window is the all-ones value directly, never a shift
/// by the type's width.
pub open spec fn usize_mask(s: usize, e: usize) -> usize {
    if e - s + 1 == usize::BITS as usize {
        !0usize
    } else {
        !((!0usize) << ((e - s + 1) as usize))
    }
}

/// The value of `x` with the window `s..=e` overwritten by the low bits of
/// `b`, as the machine computes it.
pub open spec fn usize_set_range(x: usize, s: usize, e: usize, b: usize) -> usize {
    (x & !(usize_mask(s, e) << s)) | ((b & usize_mask(s, e)) << s)
}

/// The window `s..=e` of `x`, right-aligned, as the machine computes it.
pub open spec fn usize_get_range(x: usize, s: usize, e: usize) -> usize {
    (x & (usize_mask(s, e) << s)) >> s
}

#[verifier::rlimit(100)]
proof fn usize_facts(x: usize, b: usize, i: usize, s: usize, e: usize)
    by (bit_vector)
    requires
        i < usize::BITS as usize,
        s <= e,
        e < usize::BITS as usize,
    ensures
        forall|j: usize| j < usize::BITS as usize ==> #[trigger] usize_bit(x | (1usize << i), j) == (j == i || usize_bit(x, j)),
        forall|j: usize|
            j < usize::BITS as usize ==> #[trigger] usize_bit(x & !(1usize << i), j) == (j != i && usize_bit(x, j)),
        forall|j: usize|
            j < usize::BITS as usize ==> #[trigger] usize_bit(x ^ (1usize << i), j) == (if j == i {
                !usize_bit(x, j)
            } else {
                usize_bit(x, j)
            }),
        (((x & (1usize << i)) >> i) != 0) == usize_bit(x, i),
        forall|j: usize|
            j < usize::BITS as usize ==> #[trigger] usize_bit(usize_set_range(x, s, e, b), j) == (if s <= j && j <= e {
                usize_bit(b, (j - s) as usize)
            } else {
                usize_bit(x, j)
            }),
        forall|j: usize|
            j < usize::BITS as usize ==> #[trigger] usize_bit(usize_get_range(x, s, e), j) == (j <= e - s && usize_bit(
                x,
                (j + s) as usize,
            )),
{
}

impl BitField<usize> for usize {
    open spec fn bits(&self) -> Seq<bool> {
        Seq::new(usize::BITS as nat, |j: int| usize_bit(*self, j as usize))
    }

    open spec fn width() -> nat {
        usize::BITS as nat
    }

    open spec fn idx(i: usize) -> nat {
        i as nat
    }

    open spec fn val_bits(v: usize) -> Seq<bool> {
        Seq::new(usize::BITS as nat, |j: int| usize_bit(v, j as usize))
    }

    open spec fn range_out(s: Seq<bool>, start: nat, end: nat) -> Seq<bool> {
        range_read(s, start, end)
    }

    proof fn bits_len(&self) {
    }

    proof fn val_bits_len(v: usize) {
    }

    fn set_bit(&mut self, i: usize) {
        let ghost x = *self;
        *self |= 1usize << i;
        proof {
            usize_facts(x, 0, i, 0, 0);
            assert(self.bits() =~= x.bits().update(i as int, true));
        }
    }

    fn clear_bit(&mut self, i: usize) {
        let ghost x = *self;
        *self &= !(1usize << i);
        proof {
            usize_facts(x, 0, i, 0, 0);
            assert(self.bits() =~= x.bits().update(i as int, false));
        }
    }

    fn toggle_bit(&mut self, i: usize) {
        let ghost x = *self;
        *self ^= 1usize << i;
        proof {
            usize_facts(x, 0, i, 0, 0);
            assert(self.bits() =~= x.bits().update(i as int, !x.bits()[i as int]));
        }
    }

    fn get_bit(&self, i: usize) -> (r: bool) {
        let r = ((*self & (1usize << i)) >> i) != 0;
        proof {
            usize_facts(*self, 0, i, 0, 0);
        }
        r
    }

    fn set_bit_range(&mut self, start: usize, end: usize, b: usize) {
        let ghost x = *self;
        let k: usize = end - start + 1;
        let mask: usize = if k == usize::BITS as usize {
            !0usize
        } else {
            !((!0usize) << k)
        };
        *self &= !(mask << start);
        *self |= (b & mask) << start;
        proof {
            assert(*self == usize_set_range(x, start, end, b));
            usize_facts(x, b, 0, start, end);
            assert(self.bits() =~= range_written(
                x.bits(),
                start as nat,
                end as nat,
                <usize as BitField<usize>>::val_bits(b),
            ));
        }
    }

    fn get_bit_range(&self, start: usize, end: usize) -> (r: usize) {
        let k: usize = end - start + 1;
        let mask: usize = if k == usize::BITS as usize {
            !0usize
        } else {
            !((!0usize) << k)
        };
        let r = (*self & (mask << start)) >> start;
        proof {
            assert(r == usize_get_range(*self, start, end));
            usize_facts(*self, 0, 0, start, end);
            assert(<usize as BitField<usize>>::val_bits(r) =~= range_read(
                self.bits(),
                start as nat,
                end as nat,
            ));
        }
        r
    }
}

/// Bit `j` of `x`: true for 1. Right shift on a signed value is an
/// arithmetic shift, which leaves the extracted bit unchanged.
pub open spec fn isize_bit(x: isize, j: usize) -> bool {
    (x >> j) & 1isize == 1isize
}

/// The window mask for the inclusive range `s..=e`: `e - s + 1` one-bits at
/// bit 0. A full-width window is the all-ones value directly, never a shift
/// by the type's width.
pub open spec fn isize_mask(s: usize, e: usize) -> isize {
    if e - s + 1 == usize::BITS as usize {
        !0isize
    } else {
        !((!0isize) << ((e - s + 1) as usize))
    }
}

/// The value of `x` with the window `s..=e` overwritten by the low bits of
/// `b`, as the machine computes it.
pub open spec fn isize_set_range(x: isize, s: usize, e: usize, b: isize) -> isize {
    (x & !(isize_mask(s, e) << s)) | ((b & isize_mask(s, e)) << s)
}

/// The window `s..=e` of `x`, right-aligned, as the machine computes it.
pub open spec fn isize_get_range(x: isize, s: usize, e: usize) -> isize {
    (x & (isize_mask(s, e) << s)) >> s
}

#[verifier::rlimit(100)]
proof fn isize_facts(x: isize, b: isize, i: usize, s: usize, e: usize)
    by (bit_vector)
    requires
        i < usize::BITS as usize,
        s <= e,
        e < usize::BITS as usize,
    ensures
        forall|j: usize| j < usize::BITS as usize ==> #[trigger] isize_bit(x | (1isize << i), j) == (j == i || isize_bit(x, j)),
        forall|j: usize|
            j < usize::BITS as usize ==> #[trigger] isize_bit(x & !(1isize << i), j) == (j != i && isize_bit(x, j)),
        forall|j: usize|
            j < usize::BITS as usize ==> #[trigger] isize_bit(x ^ (1isize << i), j) == (if j == i {
                !isize_bit(x, j)
            } else {
                isize_bit(x, j)
            }),
        (((x & (1isize << i)) >> i) != 0) == isize_bit(x, i),
        forall|j: usize|
            j < usize::BITS as usize ==> #[trigger] isize_bit(isize_set_range(x, s, e, b), j) == (if s <= j && j <= e {
                isize_bit(b, (j - s) as usize)
            } else {
                isize_bit(x, j)
            }),
        forall|j: usize|
            j < usize::BITS as usize ==> #[trigger] isize_bit(isize_get_range(x, s, e), j) == (if j <= e - s {
                isize_bit(x, (j + s) as usize)
            } else if j + s < usize::BITS as usize {
                false
            } else {
                e == (usize::BITS - 1) as usize && isize_bit(x, (usize::BITS - 1) as usize)
            }),
{
}

impl BitField<isize> for isize {
    open spec fn bits(&self) -> Seq<bool> {
        Seq::new(usize::BITS as nat, |j: int| isize_bit(*self, j as usize))
    }

    open spec fn width() -> nat {
        usize::BITS as nat
    }

    open spec fn idx(i: isize) -> nat {
        (i as usize) as nat
    }

    open spec fn val_bits(v: isize) -> Seq<bool> {
        Seq::new(usize::BITS as nat, |j: int| isize_bit(v, j as usize))
    }

    open spec fn range_out(s: Seq<bool>, start: nat, end: nat) -> Seq<bool> {
        range_read_arith(s, start, end)
    }

    proof fn bits_len(&self) {
    }

    proof fn val_bits_len(v: isize) {
    }

    fn set_bit(&mut self, i: isize) {
        let ghost x = *self;
        let iu: usize = i as usize;
        *self |= 1isize << iu;
        proof {
            isize_facts(x, 0, iu, 0, 0);
            assert(self.bits() =~= x.bits().update(iu as int, true));
        }
    }

    fn clear_bit(&mut self, i: isize) {
        let ghost x = *self;
        let iu: usize = i as usize;
        *self &= !(1isize << iu);
        proof {
            isize_facts(x, 0, iu, 0, 0);
            assert(self.bits() =~= x.bits().update(iu as int, false));
        }
    }

    fn toggle_bit(&mut self, i: isize) {
        let ghost x = *self;
        let iu: usize = i as usize;
        *self ^= 1isize << iu;
        proof {
            isize_facts(x, 0, iu, 0, 0);
            assert(self.bits() =~= x.bits().update(iu as int, !x.bits()[iu as int]));
        }
    }

    fn get_bit(&self, i: isize) -> (r: bool) {
        let iu: usize = i as usize;
        let r = ((*self & (1isize << iu)) >> iu) != 0;
        proof {
            isize_facts(*self, 0, iu, 0, 0);
        }
        r
    }

    fn set_bit_range(&mut self, start: isize, end: isize, b: isize) {
        let ghost x = *self;
        let su: usize = start as usize;
        let eu: usize = end as usize;
        let k: usize = eu - su + 1;
        let mask: isize = if k == usize::BITS as usize {
            !0isize
        } else {
            !((!0isize) << k)
        };
        *self &= !(mask << su);
        *self |= (b & mask) << su;
        proof {
            assert(*self == isize_set_range(x, su, eu, b));
            isize_facts(x, b, 0, su, eu);
            assert(self.bits() =~= range_written(
                x.bits(),
                su as nat,
                eu as nat,
                <isize as BitField<isize>>::val_bits(b),
            ));
        }
    }

    fn get_bit_range(&self, start: isize, end: isize) -> (r: isize) {
        let su: usize = start as usize;
        let eu: usize = end as usize;
        let k: usize = eu - su + 1;
        let mask: isize = if k == usize::BITS as usize {
            !0isize
        } else {
            !((!0isize) << k)
        };
        let r = (*self & (mask << su)) >> su;
        proof {
            assert(r == isize_get_range(*self, su, eu));
            isize_facts(*self, 0, 0, su, eu);
            assert(<isize as BitField<isize>>::val_bits(r) =~= range_read_arith(
                self.bits(),
                su as nat,
                eu as nat,
            ));
        }
        r
    }
}

} // verus!
