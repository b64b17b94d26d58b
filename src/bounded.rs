//! The integer types a wrapping number can be built on.
use vstd::prelude::*;

use crate::decimal::{decimal_of, render};

verus! {

/// A bounded machine integer, seen through its mathematical value.
///
/// Each operation is stated over `as_int` and asks only that its exact result
/// fits the type.
pub trait WrapInt: Sized + Copy {
    /// The mathematical value.
    spec fn as_int(self) -> int;

    /// The smallest value of the type.
    spec fn lo() -> int;

    /// The largest value of the type.
    spec fn hi() -> int;

    /// The value of the type whose mathematical value is `i`, for `lo() <= i <= hi()`.
    spec fn from_int(i: int) -> Self;

    proof fn lemma_int(x: Self)
        ensures
            Self::lo() <= x.as_int() <= Self::hi(),
            Self::lo() <= 0 < Self::hi(),
            Self::from_int(x.as_int()) == x,
    ;

    proof fn lemma_from_int(i: int)
        requires
            Self::lo() <= i <= Self::hi(),
        ensures
            Self::from_int(i).as_int() == i,
    ;

    fn zero() -> (r: Self)
        ensures
            r.as_int() == 0,
    ;

    fn one() -> (r: Self)
        ensures
            r.as_int() == 1,
    ;

    fn max_value() -> (r: Self)
        ensures
            r.as_int() == Self::hi(),
    ;

    fn less(self, o: Self) -> (r: bool)
        ensures
            r == (self.as_int() < o.as_int()),
    ;

    fn same(self, o: Self) -> (r: bool)
        ensures
            r == (self.as_int() == o.as_int()),
    ;

    fn plus(self, o: Self) -> (r: Self)
        requires
            Self::lo() <= self.as_int() + o.as_int() <= Self::hi(),
        ensures
            r.as_int() == self.as_int() + o.as_int(),
    ;

    fn minus(self, o: Self) -> (r: Self)
        requires
            Self::lo() <= self.as_int() - o.as_int() <= Self::hi(),
        ensures
            r.as_int() == self.as_int() - o.as_int(),
    ;

    /// `self - o` where it is a value of the type.
    fn checked_minus(self, o: Self) -> (r: Option<Self>)
        ensures
            r.is_some() == (Self::lo() <= self.as_int() - o.as_int() <= Self::hi()),
            r.is_some() ==> r.unwrap().as_int() == self.as_int() - o.as_int(),
    ;

    /// The Euclidean remainder: never negative, also for a negative `self`.
    fn modulo(self, o: Self) -> (r: Self)
        requires
            o.as_int() > 0,
        ensures
            r.as_int() == self.as_int() % o.as_int(),
    ;

    /// The value in decimal.
    fn to_decimal(self) -> (r: String)
        ensures
            r@ == decimal_of(self.as_int()),
    ;

    /// The value as an index, where it is one.
    fn to_usize(self) -> (r: Option<usize>)
        ensures
            r.is_some() == (0 <= self.as_int() <= usize::MAX),
            r.is_some() ==> r.unwrap() as int == self.as_int(),
    ;
}

impl WrapInt for u8 {
    open spec fn as_int(self) -> int {
        self as int
    }

    open spec fn lo() -> int {
        0
    }

    open spec fn hi() -> int {
        u8::MAX as int
    }

    open spec fn from_int(i: int) -> Self {
        i as u8
    }

    proof fn lemma_int(x: Self) {
    }

    proof fn lemma_from_int(i: int) {
    }

    fn zero() -> (r: Self) {
        0
    }

    fn one() -> (r: Self) {
        1
    }

    fn max_value() -> (r: Self) {
        u8::MAX
    }

    fn less(self, o: Self) -> (r: bool) {
        self < o
    }

    fn same(self, o: Self) -> (r: bool) {
        self == o
    }

    fn plus(self, o: Self) -> (r: Self) {
        self + o
    }

    fn minus(self, o: Self) -> (r: Self) {
        self - o
    }

    fn checked_minus(self, o: Self) -> (r: Option<Self>) {
        self.checked_sub(o)
    }

    fn modulo(self, o: Self) -> (r: Self) {
        self % o
    }

    fn to_decimal(self) -> (r: String) {
        render(false, self as u128)
    }

    fn to_usize(self) -> (r: Option<usize>) {
        if self as u128 <= usize::MAX as u128 {
            Some(self as usize)
        } else {
            None
        }
    }
}

impl WrapInt for u16 {
    open spec fn as_int(self) -> int {
        self as int
    }

    open spec fn lo() -> int {
        0
    }

    open spec fn hi() -> int {
        u16::MAX as int
    }

    open spec fn from_int(i: int) -> Self {
        i as u16
    }

    proof fn lemma_int(x: Self) {
    }

    proof fn lemma_from_int(i: int) {
    }

    fn zero() -> (r: Self) {
        0
    }

    fn one() -> (r: Self) {
        1
    }

    fn max_value() -> (r: Self) {
        u16::MAX
    }

    fn less(self, o: Self) -> (r: bool) {
        self < o
    }

    fn same(self, o: Self) -> (r: bool) {
        self == o
    }

    fn plus(self, o: Self) -> (r: Self) {
        self + o
    }

    fn minus(self, o: Self) -> (r: Self) {
        self - o
    }

    fn checked_minus(self, o: Self) -> (r: Option<Self>) {
        self.checked_sub(o)
    }

    fn modulo(self, o: Self) -> (r: Self) {
        self % o
    }

    fn to_decimal(self) -> (r: String) {
        render(false, self as u128)
    }

    fn to_usize(self) -> (r: Option<usize>) {
        if self as u128 <= usize::MAX as u128 {
            Some(self as usize)
        } else {
            None
        }
    }
}

impl WrapInt for u32 {
    open spec fn as_int(self) -> int {
        self as int
    }

    open spec fn lo() -> int {
        0
    }

    open spec fn hi() -> int {
        u32::MAX as int
    }

    open spec fn from_int(i: int) -> Self {
        i as u32
    }

    proof fn lemma_int(x: Self) {
    }

    proof fn lemma_from_int(i: int) {
    }

    fn zero() -> (r: Self) {
        0
    }

    fn one() -> (r: Self) {
        1
    }

    fn max_value() -> (r: Self) {
        u32::MAX
    }

    fn less(self, o: Self) -> (r: bool) {
        self < o
    }

    fn same(self, o: Self) -> (r: bool) {
        self == o
    }

    fn plus(self, o: Self) -> (r: Self) {
        self + o
    }

    fn minus(self, o: Self) -> (r: Self) {
        self - o
    }

    fn checked_minus(self, o: Self) -> (r: Option<Self>) {
        self.checked_sub(o)
    }

    fn modulo(self, o: Self) -> (r: Self) {
        self % o
    }

    fn to_decimal(self) -> (r: String) {
        render(false, self as u128)
    }

    fn to_usize(self) -> (r: Option<usize>) {
        if self as u128 <= usize::MAX as u128 {
            Some(self as usize)
        } else {
            None
        }
    }
}

impl WrapInt for u64 {
    open spec fn as_int(self) -> int {
        self as int
    }

    open spec fn lo() -> int {
        0
    }

    open spec fn hi() -> int {
        u64::MAX as int
    }

    open spec fn from_int(i: int) -> Self {
        i as u64
    }

    proof fn lemma_int(x: Self) {
    }

    proof fn lemma_from_int(i: int) {
    }

    fn zero() -> (r: Self) {
        0
    }

    fn one() -> (r: Self) {
        1
    }

    fn max_value() -> (r: Self) {
        u64::MAX
    }

    fn less(self, o: Self) -> (r: bool) {
        self < o
    }

    fn same(self, o: Self) -> (r: bool) {
        self == o
    }

    fn plus(self, o: Self) -> (r: Self) {
        self + o
    }

    fn minus(self, o: Self) -> (r: Self) {
        self - o
    }

    fn checked_minus(self, o: Self) -> (r: Option<Self>) {
        self.checked_sub(o)
    }

    fn modulo(self, o: Self) -> (r: Self) {
        self % o
    }

    fn to_decimal(self) -> (r: String) {
        render(false, self as u128)
    }

    fn to_usize(self) -> (r: Option<usize>) {
        if self as u128 <= usize::MAX as u128 {
            Some(self as usize)
        } else {
            None
        }
    }
}

impl WrapInt for u128 {
    open spec fn as_int(self) -> int {
        self as int
    }

    open spec fn lo() -> int {
        0
    }

    open spec fn hi() -> int {
        u128::MAX as int
    }

    open spec fn from_int(i: int) -> Self {
        i as u128
    }

    proof fn lemma_int(x: Self) {
    }

    proof fn lemma_from_int(i: int) {
    }

    fn zero() -> (r: Self) {
        0
    }

    fn one() -> (r: Self) {
        1
    }

    fn max_value() -> (r: Self) {
        u128::MAX
    }

    fn less(self, o: Self) -> (r: bool) {
        self < o
    }

    fn same(self, o: Self) -> (r: bool) {
        self == o
    }

    fn plus(self, o: Self) -> (r: Self) {
        self + o
    }

    fn minus(self, o: Self) -> (r: Self) {
        self - o
    }

    fn checked_minus(self, o: Self) -> (r: Option<Self>) {
        self.checked_sub(o)
    }

    fn modulo(self, o: Self) -> (r: Self) {
        self % o
    }

    fn to_decimal(self) -> (r: String) {
        render(false, self as u128)
    }

    fn to_usize(self) -> (r: Option<usize>) {
        if self <= usize::MAX as u128 {
            Some(self as usize)
        } else {
            None
        }
    }
}

impl WrapInt for usize {
    open spec fn as_int(self) -> int {
        self as int
    }

    open spec fn lo() -> int {
        0
    }

    open spec fn hi() -> int {
        usize::MAX as int
    }

    open spec fn from_int(i: int) -> Self {
        i as usize
    }

    proof fn lemma_int(x: Self) {
    }

    proof fn lemma_from_int(i: int) {
    }

    fn zero() -> (r: Self) {
        0
    }

    fn one() -> (r: Self) {
        1
    }

    fn max_value() -> (r: Self) {
        usize::MAX
    }

    fn less(self, o: Self) -> (r: bool) {
        self < o
    }

    fn same(self, o: Self) -> (r: bool) {
        self == o
    }

    fn plus(self, o: Self) -> (r: Self) {
        self + o
    }

    fn minus(self, o: Self) -> (r: Self) {
        self - o
    }

    fn checked_minus(self, o: Self) -> (r: Option<Self>) {
        self.checked_sub(o)
    }

    fn modulo(self, o: Self) -> (r: Self) {
        self % o
    }

    fn to_decimal(self) -> (r: String) {
        render(false, self as u128)
    }

    fn to_usize(self) -> (r: Option<usize>) {
        Some(self)
    }
}

impl WrapInt for i8 {
    open spec fn as_int(self) -> int {
        self as int
    }

    open spec fn lo() -> int {
        i8::MIN as int
    }

    open spec fn hi() -> int {
        i8::MAX as int
    }

    open spec fn from_int(i: int) -> Self {
        i as i8
    }

    proof fn lemma_int(x: Self) {
    }

    proof fn lemma_from_int(i: int) {
    }

    fn zero() -> (r: Self) {
        0
    }

    fn one() -> (r: Self) {
        1
    }

    fn max_value() -> (r: Self) {
        i8::MAX
    }

    fn less(self, o: Self) -> (r: bool) {
        self < o
    }

    fn same(self, o: Self) -> (r: bool) {
        self == o
    }

    fn plus(self, o: Self) -> (r: Self) {
        self + o
    }

    fn minus(self, o: Self) -> (r: Self) {
        self - o
    }

    fn checked_minus(self, o: Self) -> (r: Option<Self>) {
        self.checked_sub(o)
    }

    fn modulo(self, o: Self) -> (r: Self) {
        match self.checked_rem_euclid(o) {
            Some(r) => r,
            None => 0,
        }
    }

    fn to_decimal(self) -> (r: String) {
        if self < 0 {
            let magnitude = (-(self as i128 + 1)) as u128 + 1;
            render(true, magnitude)
        } else {
            render(false, self as u128)
        }
    }

    fn to_usize(self) -> (r: Option<usize>) {
        if 0 <= self && self as i128 <= usize::MAX as i128 {
            Some(self as usize)
        } else {
            None
        }
    }
}

impl WrapInt for i16 {
    open spec fn as_int(self) -> int {
        self as int
    }

    open spec fn lo() -> int {
        i16::MIN as int
    }

    open spec fn hi() -> int {
        i16::MAX as int
    }

    open spec fn from_int(i: int) -> Self {
        i as i16
    }

    proof fn lemma_int(x: Self) {
    }

    proof fn lemma_from_int(i: int) {
    }

    fn zero() -> (r: Self) {
        0
    }

    fn one() -> (r: Self) {
        1
    }

    fn max_value() -> (r: Self) {
        i16::MAX
    }

    fn less(self, o: Self) -> (r: bool) {
        self < o
    }

    fn same(self, o: Self) -> (r: bool) {
        self == o
    }

    fn plus(self, o: Self) -> (r: Self) {
        self + o
    }

    fn minus(self, o: Self) -> (r: Self) {
        self - o
    }

    fn checked_minus(self, o: Self) -> (r: Option<Self>) {
        self.checked_sub(o)
    }

    fn modulo(self, o: Self) -> (r: Self) {
        match self.checked_rem_euclid(o) {
            Some(r) => r,
            None => 0,
        }
    }

    fn to_decimal(self) -> (r: String) {
        if self < 0 {
            let magnitude = (-(self as i128 + 1)) as u128 + 1;
            render(true, magnitude)
        } else {
            render(false, self as u128)
        }
    }

    fn to_usize(self) -> (r: Option<usize>) {
        if 0 <= self && self as i128 <= usize::MAX as i128 {
            Some(self as usize)
        } else {
            None
        }
    }
}

impl WrapInt for i32 {
    open spec fn as_int(self) -> int {
        self as int
    }

    open spec fn lo() -> int {
        i32::MIN as int
    }

    open spec fn hi() -> int {
        i32::MAX as int
    }

    open spec fn from_int(i: int) -> Self {
        i as i32
    }

    proof fn lemma_int(x: Self) {
    }

    proof fn lemma_from_int(i: int) {
    }

    fn zero() -> (r: Self) {
        0
    }

    fn one() -> (r: Self) {
        1
    }

    fn max_value() -> (r: Self) {
        i32::MAX
    }

    fn less(self, o: Self) -> (r: bool) {
        self < o
    }

    fn same(self, o: Self) -> (r: bool) {
        self == o
    }

    fn plus(self, o: Self) -> (r: Self) {
        self + o
    }

    fn minus(self, o: Self) -> (r: Self) {
        self - o
    }

    fn checked_minus(self, o: Self) -> (r: Option<Self>) {
        self.checked_sub(o)
    }

    fn modulo(self, o: Self) -> (r: Self) {
        match self.checked_rem_euclid(o) {
            Some(r) => r,
            None => 0,
        }
    }

    fn to_decimal(self) -> (r: String) {
        if self < 0 {
            let magnitude = (-(self as i128 + 1)) as u128 + 1;
            render(true, magnitude)
        } else {
            render(false, self as u128)
        }
    }

    fn to_usize(self) -> (r: Option<usize>) {
        if 0 <= self && self as i128 <= usize::MAX as i128 {
            Some(self as usize)
        } else {
            None
        }
    }
}

impl WrapInt for i64 {
    open spec fn as_int(self) -> int {
        self as int
    }

    open spec fn lo() -> int {
        i64::MIN as int
    }

    open spec fn hi() -> int {
        i64::MAX as int
    }

    open spec fn from_int(i: int) -> Self {
        i as i64
    }

    proof fn lemma_int(x: Self) {
    }

    proof fn lemma_from_int(i: int) {
    }

    fn zero() -> (r: Self) {
        0
    }

    fn one() -> (r: Self) {
        1
    }

    fn max_value() -> (r: Self) {
        i64::MAX
    }

    fn less(self, o: Self) -> (r: bool) {
        self < o
    }

    fn same(self, o: Self) -> (r: bool) {
        self == o
    }

    fn plus(self, o: Self) -> (r: Self) {
        self + o
    }

    fn minus(self, o: Self) -> (r: Self) {
        self - o
    }

    fn checked_minus(self, o: Self) -> (r: Option<Self>) {
        self.checked_sub(o)
    }

    fn modulo(self, o: Self) -> (r: Self) {
        match self.checked_rem_euclid(o) {
            Some(r) => r,
            None => 0,
        }
    }

    fn to_decimal(self) -> (r: String) {
        if self < 0 {
            let magnitude = (-(self as i128 + 1)) as u128 + 1;
            render(true, magnitude)
        } else {
            render(false, self as u128)
        }
    }

    fn to_usize(self) -> (r: Option<usize>) {
        if 0 <= self && self as i128 <= usize::MAX as i128 {
            Some(self as usize)
        } else {
            None
        }
    }
}

impl WrapInt for i128 {
    open spec fn as_int(self) -> int {
        self as int
    }

    open spec fn lo() -> int {
        i128::MIN as int
    }

    open spec fn hi() -> int {
        i128::MAX as int
    }

    open spec fn from_int(i: int) -> Self {
        i as i128
    }

    proof fn lemma_int(x: Self) {
    }

    proof fn lemma_from_int(i: int) {
    }

    fn zero() -> (r: Self) {
        0
    }

    fn one() -> (r: Self) {
        1
    }

    fn max_value() -> (r: Self) {
        i128::MAX
    }

    fn less(self, o: Self) -> (r: bool) {
        self < o
    }

    fn same(self, o: Self) -> (r: bool) {
        self == o
    }

    fn plus(self, o: Self) -> (r: Self) {
        self + o
    }

    fn minus(self, o: Self) -> (r: Self) {
        self - o
    }

    fn checked_minus(self, o: Self) -> (r: Option<Self>) {
        self.checked_sub(o)
    }

    fn modulo(self, o: Self) -> (r: Self) {
        match self.checked_rem_euclid(o) {
            Some(r) => r,
            None => 0,
        }
    }

    fn to_decimal(self) -> (r: String) {
        if self < 0 {
            let magnitude = (-(self as i128 + 1)) as u128 + 1;
            render(true, magnitude)
        } else {
            render(false, self as u128)
        }
    }

    fn to_usize(self) -> (r: Option<usize>) {
        if 0 <= self && self <= usize::MAX as i128 {
            Some(self as usize)
        } else {
            None
        }
    }
}

impl WrapInt for isize {
    open spec fn as_int(self) -> int {
        self as int
    }

    open spec fn lo() -> int {
        isize::MIN as int
    }

    open spec fn hi() -> int {
        isize::MAX as int
    }

    open spec fn from_int(i: int) -> Self {
        i as isize
    }

    proof fn lemma_int(x: Self) {
    }

    proof fn lemma_from_int(i: int) {
    }

    fn zero() -> (r: Self) {
        0
    }

    fn one() -> (r: Self) {
        1
    }

    fn max_value() -> (r: Self) {
        isize::MAX
    }

    fn less(self, o: Self) -> (r: bool) {
        self < o
    }

    fn same(self, o: Self) -> (r: bool) {
        self == o
    }

    fn plus(self, o: Self) -> (r: Self) {
        self + o
    }

    fn minus(self, o: Self) -> (r: Self) {
        self - o
    }

    fn checked_minus(self, o: Self) -> (r: Option<Self>) {
        self.checked_sub(o)
    }

    fn modulo(self, o: Self) -> (r: Self) {
        match self.checked_rem_euclid(o) {
            Some(r) => r,
            None => 0,
        }
    }

    fn to_decimal(self) -> (r: String) {
        if self < 0 {
            let magnitude = (-(self as i128 + 1)) as u128 + 1;
            render(true, magnitude)
        } else {
            render(false, self as u128)
        }
    }

    fn to_usize(self) -> (r: Option<usize>) {
        if 0 <= self && self as i128 <= usize::MAX as i128 {
            Some(self as usize)
        } else {
            None
        }
    }
}

} // verus!
