//! Helper traits [`One`], [`Zero`] and [`BitSize`]: the numeric domain a
//! backing store must supply, implemented for the standard signed and
//! unsigned integer widths 8 through 128 and the pointer-sized types.

use vstd::prelude::*;

verus! {

/// Helper identity trait: types that can report their value one.
pub trait One: Sized {
    /// The value one, at the specification level.
    spec fn one_spec() -> Self;

    /// Gets one for Self.
    fn one() -> (r: Self)
        ensures
            r == Self::one_spec(),
    ;
}

/// Helper trait for types that can be "zero".
pub trait Zero: Sized {
    /// The value zero, at the specification level.
    spec fn zero_spec() -> Self;

    /// Gets zero for Self.
    fn zero() -> (r: Self)
        ensures
            r == Self::zero_spec(),
    ;
}

/// Helper trait to get the number of bits in a type, expressed as a value of
/// the type itself. Every implementation must report the type's true width.
pub trait BitSize: Sized {
    /// The width in bits, at the specification level.
    spec fn bit_size_spec() -> Self;

    /// Gets the number of bits in this type.
    fn bit_size() -> (r: Self)
        ensures
            r == Self::bit_size_spec(),
    ;
}

impl One for u8 {
    open spec fn one_spec() -> u8 {
        1u8
    }

    fn one() -> u8 {
        1
    }
}

impl Zero for u8 {
    open spec fn zero_spec() -> u8 {
        0u8
    }

    fn zero() -> u8 {
        0
    }
}

impl BitSize for u8 {
    open spec fn bit_size_spec() -> u8 {
        8u8
    }

    fn bit_size() -> u8 {
        8
    }
}


impl One for u16 {
    open spec fn one_spec() -> u16 {
        1u16
    }

    fn one() -> u16 {
        1
    }
}

impl Zero for u16 {
    open spec fn zero_spec() -> u16 {
        0u16
    }

    fn zero() -> u16 {
        0
    }
}

impl BitSize for u16 {
    open spec fn bit_size_spec() -> u16 {
        16u16
    }

    fn bit_size() -> u16 {
        16
    }
}

impl One for u32 {
    open spec fn one_spec() -> u32 {
        1u32
    }

    fn one() -> u32 {
        1
    }
}

impl Zero for u32 {
    open spec fn zero_spec() -> u32 {
        0u32
    }

    fn zero() -> u32 {
        0
    }
}

impl BitSize for u32 {
    open spec fn bit_size_spec() -> u32 {
        32u32
    }

    fn bit_size() -> u32 {
        32
    }
}

impl One for u64 {
    open spec fn one_spec() -> u64 {
        1u64
    }

    fn one() -> u64 {
        1
    }
}

impl Zero for u64 {
    open spec fn zero_spec() -> u64 {
        0u64
    }

    fn zero() -> u64 {
        0
    }
}

impl BitSize for u64 {
    open spec fn bit_size_spec() -> u64 {
        64u64
    }

    fn bit_size() -> u64 {
        64
    }
}

impl One for u128 {
    open spec fn one_spec() -> u128 {
        1u128
    }

    fn one() -> u128 {
        1
    }
}

impl Zero for u128 {
    open spec fn zero_spec() -> u128 {
        0u128
    }

    fn zero() -> u128 {
        0
    }
}

impl BitSize for u128 {
    open spec fn bit_size_spec() -> u128 {
        128u128
    }

    fn bit_size() -> u128 {
        128
    }
}

impl One for i8 {
    open spec fn one_spec() -> i8 {
        1i8
    }

    fn one() -> i8 {
        1
    }
}

impl Zero for i8 {
    open spec fn zero_spec() -> i8 {
        0i8
    }

    fn zero() -> i8 {
        0
    }
}

impl BitSize for i8 {
    open spec fn bit_size_spec() -> i8 {
        8i8
    }

    fn bit_size() -> i8 {
        8
    }
}

impl One for i16 {
    open spec fn one_spec() -> i16 {
        1i16
    }

    fn one() -> i16 {
        1
    }
}

impl Zero for i16 {
    open spec fn zero_spec() -> i16 {
        0i16
    }

    fn zero() -> i16 {
        0
    }
}

impl BitSize for i16 {
    open spec fn bit_size_spec() -> i16 {
        16i16
    }

    fn bit_size() -> i16 {
        16
    }
}

impl One for i32 {
    open spec fn one_spec() -> i32 {
        1i32
    }

    fn one() -> i32 {
        1
    }
}

impl Zero for i32 {
    open spec fn zero_spec() -> i32 {
        0i32
    }

    fn zero() -> i32 {
        0
    }
}

impl BitSize for i32 {
    open spec fn bit_size_spec() -> i32 {
        32i32
    }

    fn bit_size() -> i32 {
        32
    }
}

impl One for i64 {
    open spec fn one_spec() -> i64 {
        1i64
    }

    fn one() -> i64 {
        1
    }
}

impl Zero for i64 {
    open spec fn zero_spec() -> i64 {
        0i64
    }

    fn zero() -> i64 {
        0
    }
}

impl BitSize for i64 {
    open spec fn bit_size_spec() -> i64 {
        64i64
    }

    fn bit_size() -> i64 {
        64
    }
}

impl One for i128 {
    open spec fn one_spec() -> i128 {
        1i128
    }

    fn one() -> i128 {
        1
    }
}

impl Zero for i128 {
    open spec fn zero_spec() -> i128 {
        0i128
    }

    fn zero() -> i128 {
        0
    }
}

impl BitSize for i128 {
    open spec fn bit_size_spec() -> i128 {
        128i128
    }

    fn bit_size() -> i128 {
        128
    }
}

impl One for usize {
    open spec fn one_spec() -> usize {
        1usize
    }

    fn one() -> usize {
        1
    }
}

impl Zero for usize {
    open spec fn zero_spec() -> usize {
        0usize
    }

    fn zero() -> usize {
        0
    }
}

impl BitSize for usize {
    open spec fn bit_size_spec() -> usize {
        usize::BITS as usize
    }

    fn bit_size() -> usize {
        usize::BITS as usize
    }
}

impl One for isize {
    open spec fn one_spec() -> isize {
        1isize
    }

    fn one() -> isize {
        1
    }
}

impl Zero for isize {
    open spec fn zero_spec() -> isize {
        0isize
    }

    fn zero() -> isize {
        0
    }
}

impl BitSize for isize {
    open spec fn bit_size_spec() -> isize {
        usize::BITS as isize
    }

    fn bit_size() -> isize {
        usize::BITS as isize
    }
}

} // verus!
