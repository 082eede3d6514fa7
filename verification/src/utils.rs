//! Integer types that can serve as pixel addresses and colours.

use vstd::prelude::*;

verus! {

/// A primitive integer type: a finite range of the integers with checked
/// arithmetic and an order.
pub trait PrimInt: Copy + Sized {
    /// The integer that a value stands for.
    spec fn as_int(self) -> int;

    /// The smallest integer of the type.
    spec fn min_int() -> int;

    /// The largest integer of the type.
    spec fn max_int() -> int;

    /// Every value lies between the smallest and the largest of its type.
    proof fn lemma_bounded(self)
        ensures
            Self::min_int() <= self.as_int() <= Self::max_int(),
    ;

    /// The number one.
    fn one() -> (r: Self)
        ensures
            r.as_int() == 1,
    ;

    /// Whether `self` is less than or equal to `other`.
    fn at_most(self, other: Self) -> (b: bool)
        ensures
            b == (self.as_int() <= other.as_int()),
    ;

    /// The sum, or `None` where the type has no value for it.
    fn checked_add(self, other: Self) -> (r: Option<Self>)
        ensures
            r is Some <==> Self::min_int() <= self.as_int() + other.as_int() <= Self::max_int(),
            r matches Some(sum) ==> sum.as_int() == self.as_int() + other.as_int(),
    ;

    /// The difference, or `None` where the type has no value for it.
    fn checked_sub(self, other: Self) -> (r: Option<Self>)
        ensures
            r is Some <==> Self::min_int() <= self.as_int() - other.as_int() <= Self::max_int(),
            r matches Some(diff) ==> diff.as_int() == self.as_int() - other.as_int(),
    ;
}

impl PrimInt for u8 {
    open spec fn as_int(self) -> int {
        self as int
    }

    open spec fn min_int() -> int {
        u8::MIN as int
    }

    open spec fn max_int() -> int {
        u8::MAX as int
    }

    proof fn lemma_bounded(self) {
    }

    fn one() -> (r: Self)
        ensures
            r == 1,
    {
        1
    }

    fn at_most(self, other: Self) -> (b: bool)
        ensures
            b == (self <= other),
    {
        self <= other
    }

    fn checked_add(self, other: Self) -> (r: Option<Self>)
        ensures
            r == (if u8::MIN <= self + other <= u8::MAX {
                Some((self + other) as u8)
            } else {
                None
            }),
    {
        u8::checked_add(self, other)
    }

    fn checked_sub(self, other: Self) -> (r: Option<Self>)
        ensures
            r == (if u8::MIN <= self - other <= u8::MAX {
                Some((self - other) as u8)
            } else {
                None
            }),
    {
        u8::checked_sub(self, other)
    }
}

impl PrimInt for u16 {
    open spec fn as_int(self) -> int {
        self as int
    }

    open spec fn min_int() -> int {
        u16::MIN as int
    }

    open spec fn max_int() -> int {
        u16::MAX as int
    }

    proof fn lemma_bounded(self) {
    }

    fn one() -> (r: Self)
        ensures
            r == 1,
    {
        1
    }

    fn at_most(self, other: Self) -> (b: bool)
        ensures
            b == (self <= other),
    {
        self <= other
    }

    fn checked_add(self, other: Self) -> (r: Option<Self>)
        ensures
            r == (if u16::MIN <= self + other <= u16::MAX {
                Some((self + other) as u16)
            } else {
                None
            }),
    {
        u16::checked_add(self, other)
    }

    fn checked_sub(self, other: Self) -> (r: Option<Self>)
        ensures
            r == (if u16::MIN <= self - other <= u16::MAX {
                Some((self - other) as u16)
            } else {
                None
            }),
    {
        u16::checked_sub(self, other)
    }
}

impl PrimInt for u32 {
    open spec fn as_int(self) -> int {
        self as int
    }

    open spec fn min_int() -> int {
        u32::MIN as int
    }

    open spec fn max_int() -> int {
        u32::MAX as int
    }

    proof fn lemma_bounded(self) {
    }

    fn one() -> (r: Self)
        ensures
            r == 1,
    {
        1
    }

    fn at_most(self, other: Self) -> (b: bool)
        ensures
            b == (self <= other),
    {
        self <= other
    }

    fn checked_add(self, other: Self) -> (r: Option<Self>)
        ensures
            r == (if u32::MIN <= self + other <= u32::MAX {
                Some((self + other) as u32)
            } else {
                None
            }),
    {
        u32::checked_add(self, other)
    }

    fn checked_sub(self, other: Self) -> (r: Option<Self>)
        ensures
            r == (if u32::MIN <= self - other <= u32::MAX {
                Some((self - other) as u32)
            } else {
                None
            }),
    {
        u32::checked_sub(self, other)
    }
}

impl PrimInt for u64 {
    open spec fn as_int(self) -> int {
        self as int
    }

    open spec fn min_int() -> int {
        u64::MIN as int
    }

    open spec fn max_int() -> int {
        u64::MAX as int
    }

    proof fn lemma_bounded(self) {
    }

    fn one() -> (r: Self)
        ensures
            r == 1,
    {
        1
    }

    fn at_most(self, other: Self) -> (b: bool)
        ensures
            b == (self <= other),
    {
        self <= other
    }

    fn checked_add(self, other: Self) -> (r: Option<Self>)
        ensures
            r == (if u64::MIN <= self + other <= u64::MAX {
                Some((self + other) as u64)
            } else {
                None
            }),
    {
        u64::checked_add(self, other)
    }

    fn checked_sub(self, other: Self) -> (r: Option<Self>)
        ensures
            r == (if u64::MIN <= self - other <= u64::MAX {
                Some((self - other) as u64)
            } else {
                None
            }),
    {
        u64::checked_sub(self, other)
    }
}

impl PrimInt for u128 {
    open spec fn as_int(self) -> int {
        self as int
    }

    open spec fn min_int() -> int {
        u128::MIN as int
    }

    open spec fn max_int() -> int {
        u128::MAX as int
    }

    proof fn lemma_bounded(self) {
    }

    fn one() -> (r: Self)
        ensures
            r == 1,
    {
        1
    }

    fn at_most(self, other: Self) -> (b: bool)
        ensures
            b == (self <= other),
    {
        self <= other
    }

    fn checked_add(self, other: Self) -> (r: Option<Self>)
        ensures
            r == (if u128::MIN <= self + other <= u128::MAX {
                Some((self + other) as u128)
            } else {
                None
            }),
    {
        u128::checked_add(self, other)
    }

    fn checked_sub(self, other: Self) -> (r: Option<Self>)
        ensures
            r == (if u128::MIN <= self - other <= u128::MAX {
                Some((self - other) as u128)
            } else {
                None
            }),
    {
        u128::checked_sub(self, other)
    }
}

impl PrimInt for i8 {
    open spec fn as_int(self) -> int {
        self as int
    }

    open spec fn min_int() -> int {
        i8::MIN as int
    }

    open spec fn max_int() -> int {
        i8::MAX as int
    }

    proof fn lemma_bounded(self) {
    }

    fn one() -> (r: Self)
        ensures
            r == 1,
    {
        1
    }

    fn at_most(self, other: Self) -> (b: bool)
        ensures
            b == (self <= other),
    {
        self <= other
    }

    fn checked_add(self, other: Self) -> (r: Option<Self>)
        ensures
            r == (if i8::MIN <= self + other <= i8::MAX {
                Some((self + other) as i8)
            } else {
                None
            }),
    {
        i8::checked_add(self, other)
    }

    fn checked_sub(self, other: Self) -> (r: Option<Self>)
        ensures
            r == (if i8::MIN <= self - other <= i8::MAX {
                Some((self - other) as i8)
            } else {
                None
            }),
    {
        i8::checked_sub(self, other)
    }
}

impl PrimInt for i16 {
    open spec fn as_int(self) -> int {
        self as int
    }

    open spec fn min_int() -> int {
        i16::MIN as int
    }

    open spec fn max_int() -> int {
        i16::MAX as int
    }

    proof fn lemma_bounded(self) {
    }

    fn one() -> (r: Self)
        ensures
            r == 1,
    {
        1
    }

    fn at_most(self, other: Self) -> (b: bool)
        ensures
            b == (self <= other),
    {
        self <= other
    }

    fn checked_add(self, other: Self) -> (r: Option<Self>)
        ensures
            r == (if i16::MIN <= self + other <= i16::MAX {
                Some((self + other) as i16)
            } else {
                None
            }),
    {
        i16::checked_add(self, other)
    }

    fn checked_sub(self, other: Self) -> (r: Option<Self>)
        ensures
            r == (if i16::MIN <= self - other <= i16::MAX {
                Some((self - other) as i16)
            } else {
                None
            }),
    {
        i16::checked_sub(self, other)
    }
}

impl PrimInt for i32 {
    open spec fn as_int(self) -> int {
        self as int
    }

    open spec fn min_int() -> int {
        i32::MIN as int
    }

    open spec fn max_int() -> int {
        i32::MAX as int
    }

    proof fn lemma_bounded(self) {
    }

    fn one() -> (r: Self)
        ensures
            r == 1,
    {
        1
    }

    fn at_most(self, other: Self) -> (b: bool)
        ensures
            b == (self <= other),
    {
        self <= other
    }

    fn checked_add(self, other: Self) -> (r: Option<Self>)
        ensures
            r == (if i32::MIN <= self + other <= i32::MAX {
                Some((self + other) as i32)
            } else {
                None
            }),
    {
        i32::checked_add(self, other)
    }

    fn checked_sub(self, other: Self) -> (r: Option<Self>)
        ensures
            r == (if i32::MIN <= self - other <= i32::MAX {
                Some((self - other) as i32)
            } else {
                None
            }),
    {
        i32::checked_sub(self, other)
    }
}

impl PrimInt for i64 {
    open spec fn as_int(self) -> int {
        self as int
    }

    open spec fn min_int() -> int {
        i64::MIN as int
    }

    open spec fn max_int() -> int {
        i64::MAX as int
    }

    proof fn lemma_bounded(self) {
    }

    fn one() -> (r: Self)
        ensures
            r == 1,
    {
        1
    }

    fn at_most(self, other: Self) -> (b: bool)
        ensures
            b == (self <= other),
    {
        self <= other
    }

    fn checked_add(self, other: Self) -> (r: Option<Self>)
        ensures
            r == (if i64::MIN <= self + other <= i64::MAX {
                Some((self + other) as i64)
            } else {
                None
            }),
    {
        i64::checked_add(self, other)
    }

    fn checked_sub(self, other: Self) -> (r: Option<Self>)
        ensures
            r == (if i64::MIN <= self - other <= i64::MAX {
                Some((self - other) as i64)
            } else {
                None
            }),
    {
        i64::checked_sub(self, other)
    }
}

impl PrimInt for i128 {
    open spec fn as_int(self) -> int {
        self as int
    }

    open spec fn min_int() -> int {
        i128::MIN as int
    }

    open spec fn max_int() -> int {
        i128::MAX as int
    }

    proof fn lemma_bounded(self) {
    }

    fn one() -> (r: Self)
        ensures
            r == 1,
    {
        1
    }

    fn at_most(self, other: Self) -> (b: bool)
        ensures
            b == (self <= other),
    {
        self <= other
    }

    fn checked_add(self, other: Self) -> (r: Option<Self>)
        ensures
            r == (if i128::MIN <= self + other <= i128::MAX {
                Some((self + other) as i128)
            } else {
                None
            }),
    {
        i128::checked_add(self, other)
    }

    fn checked_sub(self, other: Self) -> (r: Option<Self>)
        ensures
            r == (if i128::MIN <= self - other <= i128::MAX {
                Some((self - other) as i128)
            } else {
                None
            }),
    {
        i128::checked_sub(self, other)
    }
}

} // verus!
