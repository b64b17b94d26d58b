//! The wrapping number and its arithmetic.
use vstd::prelude::*;
use vstd::arithmetic::div_mod::{
    lemma_add_mod_noop,
    lemma_mod_bound,
    lemma_mod_add_multiples_vanish,
    lemma_small_mod,
    lemma_sub_mod_noop,
};

use crate::bounded::WrapInt;
use crate::decimal::decimal_of;

verus! {

/// The wrap formula: `((value - min) mod (max - min)) + min`, where `mod` is the
/// Euclidean remainder, never negative.
pub open spec fn wrap_spec(value: int, min: int, max: int) -> int {
    (value - min) % (max - min) + min
}

/// A window `[min, max)` that arithmetic can wrap in: it is not empty, and its
/// width `max - min` is a value of the type.
pub open spec fn window_ok<T: WrapInt>(min: T, max: T) -> bool {
    min.as_int() < max.as_int() && max.as_int() - min.as_int() <= T::hi()
}

/// `x mod m`, given `d == x % m` shifted by at most one `m` into `[0, m)`.
proof fn lemma_shift_mod(x: int, d: int, m: int)
    requires
        0 < m,
        -m < d < m,
        d % m == x % m,
    ensures
        0 <= d ==> d == x % m,
        d < 0 ==> d + m == x % m,
{
    if d >= 0 {
        lemma_small_mod(d as nat, m as nat);
    } else {
        lemma_small_mod((d + m) as nat, m as nat);
        lemma_mod_add_multiples_vanish(d, m);
    }
}

/// Number with arbitrary wrapping.
#[derive(Clone, Copy, Debug)]
pub struct WrapNum<T> {
    /// Current value.
    pub value: T,
    /// Minimum value.
    pub min: T,
    /// Maximum value: the window is `[min, max)` for arithmetic.
    pub max: T,
}

impl<T: WrapInt> WrapNum<T> {
    /// What construction guarantees: `min <= value <= max`.
    pub open spec fn wf(self) -> bool {
        self.min.as_int() <= self.value.as_int() <= self.max.as_int()
    }

    /// The same window, holding the wrapped value of `v`.
    pub open spec fn with_wrapped(self, v: int) -> Self {
        WrapNum {
            value: T::from_int(wrap_spec(v, self.min.as_int(), self.max.as_int())),
            min: self.min,
            max: self.max,
        }
    }

    /// `(value - min) mod range`, with no intermediate result leaving `T`.
    fn offset(value: T, min: T, range: T) -> (r: T)
        requires
            range.as_int() > 0,
        ensures
            r.as_int() == (value.as_int() - min.as_int()) % range.as_int(),
    {
        let a = value.modulo(range);
        let b = min.modulo(range);
        proof {
            T::lemma_int(a);
            T::lemma_int(b);
            T::lemma_int(range);
            lemma_mod_bound(value.as_int(), range.as_int());
            lemma_mod_bound(min.as_int(), range.as_int());
            lemma_sub_mod_noop(value.as_int(), min.as_int(), range.as_int());
            lemma_shift_mod(value.as_int() - min.as_int(), a.as_int() - b.as_int(), range.as_int());
        }
        if a.less(b) {
            range.minus(b.minus(a))
        } else {
            a.minus(b)
        }
    }

    /// `(off + s) mod range` for `off` and `s` in `[0, range)`.
    fn forward(off: T, s: T, range: T) -> (r: T)
        requires
            0 <= off.as_int() < range.as_int(),
            0 <= s.as_int() < range.as_int(),
        ensures
            r.as_int() == (off.as_int() + s.as_int()) % range.as_int(),
    {
        proof {
            T::lemma_int(off);
            T::lemma_int(range);
        }
        let room = range.minus(s);
        if off.less(room) {
            proof {
                lemma_small_mod((off.as_int() + s.as_int()) as nat, range.as_int() as nat);
            }
            off.plus(s)
        } else {
            proof {
                let d = off.as_int() + s.as_int() - range.as_int();
                lemma_small_mod(d as nat, range.as_int() as nat);
                lemma_mod_add_multiples_vanish(d, range.as_int());
            }
            off.minus(room)
        }
    }

    /// `(off - s) mod range` for `off` and `s` in `[0, range)`.
    fn backward(off: T, s: T, range: T) -> (r: T)
        requires
            0 <= off.as_int() < range.as_int(),
            0 <= s.as_int() < range.as_int(),
        ensures
            r.as_int() == (off.as_int() - s.as_int()) % range.as_int(),
    {
        proof {
            T::lemma_int(off);
            T::lemma_int(range);
            let d = off.as_int() - s.as_int();
            lemma_shift_mod(d, d, range.as_int());
        }
        if off.less(s) {
            range.minus(s.minus(off))
        } else {
            off.minus(s)
        }
    }

    /// Brings `value` into the window `[min, max)` by the wrap formula.
    pub fn wrapped_result(value: T, min: T, max: T) -> (r: T)
        requires
            window_ok(min, max),
        ensures
            r.as_int() == wrap_spec(value.as_int(), min.as_int(), max.as_int()),
            min.as_int() <= r.as_int() < max.as_int(),
    {
        proof {
            T::lemma_int(min);
            T::lemma_int(max);
        }
        let range = max.minus(min);
        let off = Self::offset(value, min, range);
        off.plus(min)
    }

    /// Whether the window is one that arithmetic can wrap in.
    pub fn has_window(&self) -> (r: bool)
        ensures
            r == window_ok(self.min, self.max),
    {
        proof {
            T::lemma_int(self.min);
        }
        match self.max.checked_minus(self.min) {
            Some(range) => {
                let zero = T::zero();
                zero.less(range)
            },
            None => false,
        }
    }

    /// The same window, holding `value + rhs` wrapped into it.
    fn wrap_add(self, rhs: T) -> (r: Self)
        requires
            window_ok(self.min, self.max),
        ensures
            r == self.with_wrapped(self.value.as_int() + rhs.as_int()),
    {
        proof {
            T::lemma_int(self.min);
            T::lemma_int(self.max);
        }
        let range = self.max.minus(self.min);
        let off = Self::offset(self.value, self.min, range);
        let s = rhs.modulo(range);
        let r = Self::forward(off, s, range);
        proof {
            lemma_add_mod_noop(self.value.as_int() - self.min.as_int(), rhs.as_int(), range.as_int());
        }
        let value = r.plus(self.min);
        proof {
            T::lemma_int(value);
        }
        WrapNum { value, min: self.min, max: self.max }
    }

    /// The same window, holding `value - rhs` wrapped into it.
    fn wrap_sub(self, rhs: T) -> (r: Self)
        requires
            window_ok(self.min, self.max),
        ensures
            r == self.with_wrapped(self.value.as_int() - rhs.as_int()),
    {
        proof {
            T::lemma_int(self.min);
            T::lemma_int(self.max);
        }
        let range = self.max.minus(self.min);
        let off = Self::offset(self.value, self.min, range);
        let s = rhs.modulo(range);
        let r = Self::backward(off, s, range);
        proof {
            lemma_sub_mod_noop(self.value.as_int() - self.min.as_int(), rhs.as_int(), range.as_int());
        }
        let value = r.plus(self.min);
        proof {
            T::lemma_int(value);
        }
        WrapNum { value, min: self.min, max: self.max }
    }
}

/// On a window that cannot wrap (`min >= max`, or `max - min` wider than the
/// type) the number is left as it is; [`WrapNum::try_add_assign`] reports it.
impl<T: WrapInt> std::ops::AddAssign<T> for WrapNum<T> {
    fn add_assign(&mut self, rhs: T)
        ensures
            window_ok(old(self).min, old(self).max) ==> *final(self) == old(self).with_wrapped(
                old(self).value.as_int() + rhs.as_int(),
            ),
            !window_ok(old(self).min, old(self).max) ==> *final(self) == *old(self),
    {
        if self.has_window() {
            *self = self.wrap_add(rhs);
        }
    }
}

/// On a window that cannot wrap (`min >= max`, or `max - min` wider than the
/// type) the number is left as it is; [`WrapNum::try_sub_assign`] reports it.
impl<T: WrapInt> std::ops::SubAssign<T> for WrapNum<T> {
    fn sub_assign(&mut self, rhs: T)
        ensures
            window_ok(old(self).min, old(self).max) ==> *final(self) == old(self).with_wrapped(
                old(self).value.as_int() - rhs.as_int(),
            ),
            !window_ok(old(self).min, old(self).max) ==> *final(self) == *old(self),
    {
        if self.has_window() {
            *self = self.wrap_sub(rhs);
        }
    }
}

impl<T: WrapInt> std::ops::Add<T> for WrapNum<T> {
    type Output = Self;

    fn add(self, rhs: T) -> (r: Self) {
        self.wrap_add(rhs)
    }
}

impl<T: WrapInt> vstd::std_specs::ops::AddSpecImpl<T> for WrapNum<T> {
    open spec fn obeys_add_spec() -> bool {
        true
    }

    open spec fn add_req(self, rhs: T) -> bool {
        window_ok(self.min, self.max)
    }

    open spec fn add_spec(self, rhs: T) -> Self {
        self.with_wrapped(self.value.as_int() + rhs.as_int())
    }
}

/// The left operand's window is kept; the right one's is ignored.
impl<T: WrapInt> std::ops::Add for WrapNum<T> {
    type Output = Self;

    fn add(self, rhs: Self) -> (r: Self) {
        self.wrap_add(rhs.value)
    }
}

impl<T: WrapInt> vstd::std_specs::ops::AddSpecImpl for WrapNum<T> {
    open spec fn obeys_add_spec() -> bool {
        true
    }

    open spec fn add_req(self, rhs: Self) -> bool {
        window_ok(self.min, self.max)
    }

    open spec fn add_spec(self, rhs: Self) -> Self {
        self.with_wrapped(self.value.as_int() + rhs.value.as_int())
    }
}

impl<T: WrapInt> std::ops::Sub<T> for WrapNum<T> {
    type Output = Self;

    fn sub(self, rhs: T) -> (r: Self) {
        self.wrap_sub(rhs)
    }
}

impl<T: WrapInt> vstd::std_specs::ops::SubSpecImpl<T> for WrapNum<T> {
    open spec fn obeys_sub_spec() -> bool {
        true
    }

    open spec fn sub_req(self, rhs: T) -> bool {
        window_ok(self.min, self.max)
    }

    open spec fn sub_spec(self, rhs: T) -> Self {
        self.with_wrapped(self.value.as_int() - rhs.as_int())
    }
}

/// The left operand's window is kept; the right one's is ignored.
impl<T: WrapInt> std::ops::Sub for WrapNum<T> {
    type Output = Self;

    fn sub(self, rhs: Self) -> (r: Self) {
        self.wrap_sub(rhs.value)
    }
}

impl<T: WrapInt> vstd::std_specs::ops::SubSpecImpl for WrapNum<T> {
    open spec fn obeys_sub_spec() -> bool {
        true
    }

    open spec fn sub_req(self, rhs: Self) -> bool {
        window_ok(self.min, self.max)
    }

    open spec fn sub_spec(self, rhs: Self) -> Self {
        self.with_wrapped(self.value.as_int() - rhs.value.as_int())
    }
}

/// Two numbers are equal when their values are, whatever their windows.
impl<T: WrapInt> PartialEq for WrapNum<T> {
    fn eq(&self, other: &Self) -> (r: bool) {
        self.value.same(other.value)
    }
}

impl<T: WrapInt> vstd::std_specs::cmp::PartialEqSpecImpl for WrapNum<T> {
    open spec fn obeys_eq_spec() -> bool {
        true
    }

    open spec fn eq_spec(&self, other: &Self) -> bool {
        self.value.as_int() == other.value.as_int()
    }
}

/// A number equals a bare integer when its value does.
impl<T: WrapInt> PartialEq<T> for WrapNum<T> {
    fn eq(&self, other: &T) -> (r: bool) {
        self.value.same(*other)
    }
}

impl<T: WrapInt> vstd::std_specs::cmp::PartialEqSpecImpl<T> for WrapNum<T> {
    open spec fn obeys_eq_spec() -> bool {
        true
    }

    open spec fn eq_spec(&self, other: &T) -> bool {
        self.value.as_int() == other.as_int()
    }
}

/// Why a range-checked constructor refused its value.
#[derive(Clone, Copy, Debug, PartialEq, Eq, Structural)]
pub enum RangeError {
    /// `value > max`.
    AboveMax,
    /// `value < min`.
    BelowMin,
    /// The window cannot wrap: `min >= max`, or `max - min` does not fit the type.
    BadWindow,
}

impl<T: WrapInt> WrapNum<T> {
    /// The number a bare integer becomes: `min` is zero and `max` the type's largest value.
    pub open spec fn promote(value: T) -> Self {
        WrapNum { value, min: T::from_int(0), max: T::from_int(T::hi()) }
    }

    /// What range-checked construction gives: an error for a value above `max`,
    /// else for one below `min`, else the number.
    pub open spec fn checked_new(value: T, min: T, max: T) -> Result<Self, RangeError> {
        if value.as_int() > max.as_int() {
            Err(RangeError::AboveMax)
        } else if value.as_int() < min.as_int() {
            Err(RangeError::BelowMin)
        } else {
            Ok(WrapNum { value, min, max })
        }
    }

    /// Create new wrapped number and automatic zeroed [`WrapNum::value`].
    pub fn new(max: T) -> (r: Self)
        requires
            0 <= max.as_int(),
        ensures
            r.value.as_int() == 0,
            r.min.as_int() == 0,
            r.max == max,
            r.wf(),
    {
        WrapNum { value: T::zero(), min: T::zero(), max }
    }

    /// Create new wrapped number with given max; `min` is zero.
    pub fn new_max(value: T, max: T) -> (r: Self)
        requires
            value.as_int() <= max.as_int(),
        ensures
            r.value == value,
            r.min.as_int() == 0,
            r.max == max,
    {
        WrapNum { value, min: T::zero(), max }
    }

    /// Create new wrapped number with given min/max.
    pub fn new_min_max(value: T, min: T, max: T) -> (r: Self)
        requires
            min.as_int() <= value.as_int() <= max.as_int(),
        ensures
            r == (WrapNum { value, min, max }),
            r.wf(),
    {
        WrapNum { value, min, max }
    }

    /// Create new wrapped number whose window ends with `max` included: the
    /// stored maximum is `max + 1`.
    pub fn new_inclusive(max: T) -> (r: Self)
        requires
            0 <= max.as_int() < T::hi(),
        ensures
            r.value.as_int() == 0,
            r.min.as_int() == 0,
            r.max.as_int() == max.as_int() + 1,
    {
        let one = T::one();
        proof {
            T::lemma_int(max);
        }
        Self::new(max.plus(one))
    }

    /// Create new wrapped number over the half-open window `[min, max)`, starting at `min`.
    pub fn new_range(min: T, max: T) -> (r: Self)
        requires
            min.as_int() <= max.as_int(),
        ensures
            r == (WrapNum { value: min, min, max }),
    {
        Self::new_min_max(min, min, max)
    }

    /// Create new wrapped number over the closed window `[min, max]`, starting
    /// at `min`: the stored maximum is `max + 1`.
    pub fn new_range_inclusive(min: T, max: T) -> (r: Self)
        requires
            min.as_int() <= max.as_int() < T::hi(),
        ensures
            r.value == min,
            r.min == min,
            r.max.as_int() == max.as_int() + 1,
    {
        let one = T::one();
        proof {
            T::lemma_int(max);
        }
        Self::new_min_max(min, min, max.plus(one))
    }

    /// [`WrapNum::new_max`], refusing a value above `max` instead of requiring it away.
    pub fn try_new_max(value: T, max: T) -> (r: Result<Self, RangeError>)
        ensures
            value.as_int() > max.as_int() ==> r == Err::<Self, RangeError>(RangeError::AboveMax),
            value.as_int() <= max.as_int() ==> r is Ok && r->Ok_0.value == value
                && r->Ok_0.min.as_int() == 0 && r->Ok_0.max == max,
    {
        if max.less(value) {
            Err(RangeError::AboveMax)
        } else {
            Ok(Self::new_max(value, max))
        }
    }

    /// [`WrapNum::new_min_max`], refusing a value outside `[min, max]` instead of
    /// requiring it away. A value above `max` is reported first.
    pub fn try_new_min_max(value: T, min: T, max: T) -> (r: Result<Self, RangeError>)
        ensures
            r == Self::checked_new(value, min, max),
            value.as_int() > max.as_int() ==> r == Err::<Self, RangeError>(RangeError::AboveMax),
            value.as_int() <= max.as_int() && value.as_int() < min.as_int() ==> r == Err::<
                Self,
                RangeError,
            >(RangeError::BelowMin),
            min.as_int() <= value.as_int() <= max.as_int() ==> r == Ok::<Self, RangeError>(
                WrapNum { value, min, max },
            ),
    {
        if max.less(value) {
            Err(RangeError::AboveMax)
        } else if value.less(min) {
            Err(RangeError::BelowMin)
        } else {
            Ok(Self::new_min_max(value, min, max))
        }
    }

    /// The value in decimal; the bounds are not shown.
    pub fn to_string(&self) -> (r: String)
        ensures
            r@ == decimal_of(self.value.as_int()),
    {
        self.value.to_decimal()
    }

    /// `+=` that reports an unusable window instead of leaving the number as it is.
    pub fn try_add_assign(&mut self, rhs: T) -> (r: Result<(), RangeError>)
        ensures
            window_ok(old(self).min, old(self).max) ==> r is Ok && *final(self) == old(
                self,
            ).with_wrapped(old(self).value.as_int() + rhs.as_int()),
            !window_ok(old(self).min, old(self).max) ==> r == Err::<(), RangeError>(
                RangeError::BadWindow,
            ) && *final(self) == *old(self),
    {
        if self.has_window() {
            *self = self.wrap_add(rhs);
            Ok(())
        } else {
            Err(RangeError::BadWindow)
        }
    }

    /// `-=` that reports an unusable window instead of leaving the number as it is.
    pub fn try_sub_assign(&mut self, rhs: T) -> (r: Result<(), RangeError>)
        ensures
            window_ok(old(self).min, old(self).max) ==> r is Ok && *final(self) == old(
                self,
            ).with_wrapped(old(self).value.as_int() - rhs.as_int()),
            !window_ok(old(self).min, old(self).max) ==> r == Err::<(), RangeError>(
                RangeError::BadWindow,
            ) && *final(self) == *old(self),
    {
        if self.has_window() {
            *self = self.wrap_sub(rhs);
            Ok(())
        } else {
            Err(RangeError::BadWindow)
        }
    }

    /// Equality of the value and of both bounds.
    pub fn total_eq(self, other: &Self) -> (r: bool)
        ensures
            r == (self.value.as_int() == other.value.as_int() && self.min.as_int()
                == other.min.as_int() && self.max.as_int() == other.max.as_int()),
    {
        self.value.same(other.value) && self.min.same(other.min) && self.max.same(other.max)
    }
}

impl<T: WrapInt> Default for WrapNum<T> {
    /// Value and minimum zero, maximum the type's largest value.
    fn default() -> (r: Self)
        ensures
            r == Self::promote(T::from_int(0)),
    {
        let zero = T::zero();
        let top = T::max_value();
        proof {
            T::lemma_int(zero);
            T::lemma_int(top);
        }
        WrapNum { value: zero, min: zero, max: top }
    }
}

impl<T: WrapInt> From<T> for WrapNum<T> {
    fn from(value: T) -> (r: Self) {
        let zero = T::zero();
        let top = T::max_value();
        proof {
            T::lemma_int(zero);
            T::lemma_int(top);
        }
        WrapNum { value, min: zero, max: top }
    }
}

impl<T: WrapInt> vstd::std_specs::convert::FromSpecImpl<T> for WrapNum<T> {
    open spec fn obeys_from_spec() -> bool {
        true
    }

    open spec fn from_spec(v: T) -> Self {
        Self::promote(v)
    }
}

/// The element of `v` at the position `i.value`, to write through.
pub fn at_mut<E, U: WrapInt>(v: &mut Vec<E>, i: WrapNum<U>) -> (r: &mut E)
    requires
        0 <= i.value.as_int() < old(v).len(),
    ensures
        *r == old(v)@[i.value.as_int()],
        final(v)@ == old(v)@.update(i.value.as_int(), *final(r)),
{
    let k = i.value.to_usize().unwrap();
    &mut v[k]
}

/// A vector indexed by a wrapping number's value.
impl<E, U: WrapInt> std::ops::Index<WrapNum<U>> for Vec<E> {
    type Output = E;

    fn index(&self, index: WrapNum<U>) -> (r: &E)
        ensures
            *r == self@[index.value.as_int()],
    {
        let i = index.value.to_usize().unwrap();
        &self[i]
    }
}

impl<E, U: WrapInt> vstd::std_specs::core::IndexSpecImpl<WrapNum<U>> for Vec<E> {
    open spec fn index_req(&self, index: &WrapNum<U>) -> bool {
        0 <= index.value.as_int() < self.len()
    }
}

impl From<WrapNum<u8>> for u8 {
    fn from(wrap_num: WrapNum<u8>) -> (r: u8) {
        wrap_num.value
    }
}

impl vstd::std_specs::convert::FromSpecImpl<WrapNum<u8>> for u8 {
    open spec fn obeys_from_spec() -> bool {
        true
    }

    open spec fn from_spec(v: WrapNum<u8>) -> Self {
        v.value
    }
}

impl From<WrapNum<u16>> for u16 {
    fn from(wrap_num: WrapNum<u16>) -> (r: u16) {
        wrap_num.value
    }
}

impl vstd::std_specs::convert::FromSpecImpl<WrapNum<u16>> for u16 {
    open spec fn obeys_from_spec() -> bool {
        true
    }

    open spec fn from_spec(v: WrapNum<u16>) -> Self {
        v.value
    }
}

impl From<WrapNum<u32>> for u32 {
    fn from(wrap_num: WrapNum<u32>) -> (r: u32) {
        wrap_num.value
    }
}

impl vstd::std_specs::convert::FromSpecImpl<WrapNum<u32>> for u32 {
    open spec fn obeys_from_spec() -> bool {
        true
    }

    open spec fn from_spec(v: WrapNum<u32>) -> Self {
        v.value
    }
}

impl From<WrapNum<u64>> for u64 {
    fn from(wrap_num: WrapNum<u64>) -> (r: u64) {
        wrap_num.value
    }
}

impl vstd::std_specs::convert::FromSpecImpl<WrapNum<u64>> for u64 {
    open spec fn obeys_from_spec() -> bool {
        true
    }

    open spec fn from_spec(v: WrapNum<u64>) -> Self {
        v.value
    }
}

impl From<WrapNum<u128>> for u128 {
    fn from(wrap_num: WrapNum<u128>) -> (r: u128) {
        wrap_num.value
    }
}

impl vstd::std_specs::convert::FromSpecImpl<WrapNum<u128>> for u128 {
    open spec fn obeys_from_spec() -> bool {
        true
    }

    open spec fn from_spec(v: WrapNum<u128>) -> Self {
        v.value
    }
}

impl From<WrapNum<usize>> for usize {
    fn from(wrap_num: WrapNum<usize>) -> (r: usize) {
        wrap_num.value
    }
}

impl vstd::std_specs::convert::FromSpecImpl<WrapNum<usize>> for usize {
    open spec fn obeys_from_spec() -> bool {
        true
    }

    open spec fn from_spec(v: WrapNum<usize>) -> Self {
        v.value
    }
}

impl From<WrapNum<i8>> for i8 {
    fn from(wrap_num: WrapNum<i8>) -> (r: i8) {
        wrap_num.value
    }
}

impl vstd::std_specs::convert::FromSpecImpl<WrapNum<i8>> for i8 {
    open spec fn obeys_from_spec() -> bool {
        true
    }

    open spec fn from_spec(v: WrapNum<i8>) -> Self {
        v.value
    }
}

impl From<WrapNum<i16>> for i16 {
    fn from(wrap_num: WrapNum<i16>) -> (r: i16) {
        wrap_num.value
    }
}

impl vstd::std_specs::convert::FromSpecImpl<WrapNum<i16>> for i16 {
    open spec fn obeys_from_spec() -> bool {
        true
    }

    open spec fn from_spec(v: WrapNum<i16>) -> Self {
        v.value
    }
}

impl From<WrapNum<i32>> for i32 {
    fn from(wrap_num: WrapNum<i32>) -> (r: i32) {
        wrap_num.value
    }
}

impl vstd::std_specs::convert::FromSpecImpl<WrapNum<i32>> for i32 {
    open spec fn obeys_from_spec() -> bool {
        true
    }

    open spec fn from_spec(v: WrapNum<i32>) -> Self {
        v.value
    }
}

impl From<WrapNum<i64>> for i64 {
    fn from(wrap_num: WrapNum<i64>) -> (r: i64) {
        wrap_num.value
    }
}

impl vstd::std_specs::convert::FromSpecImpl<WrapNum<i64>> for i64 {
    open spec fn obeys_from_spec() -> bool {
        true
    }

    open spec fn from_spec(v: WrapNum<i64>) -> Self {
        v.value
    }
}

impl From<WrapNum<i128>> for i128 {
    fn from(wrap_num: WrapNum<i128>) -> (r: i128) {
        wrap_num.value
    }
}

impl vstd::std_specs::convert::FromSpecImpl<WrapNum<i128>> for i128 {
    open spec fn obeys_from_spec() -> bool {
        true
    }

    open spec fn from_spec(v: WrapNum<i128>) -> Self {
        v.value
    }
}

impl From<WrapNum<isize>> for isize {
    fn from(wrap_num: WrapNum<isize>) -> (r: isize) {
        wrap_num.value
    }
}

impl vstd::std_specs::convert::FromSpecImpl<WrapNum<isize>> for isize {
    open spec fn obeys_from_spec() -> bool {
        true
    }

    open spec fn from_spec(v: WrapNum<isize>) -> Self {
        v.value
    }
}

} // verus!
