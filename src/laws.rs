//! Laws that relate the wrapping number's operations.
use vstd::prelude::*;
use vstd::arithmetic::div_mod::{lemma_mod_bound, lemma_mod_twice};
use vstd::std_specs::convert::FromSpec;
use vstd::std_specs::ops::{AddSpec, SubSpec};

use crate::bounded::WrapInt;
use crate::wrap_num::{window_ok, wrap_spec, RangeError, WrapNum};

verus! {

/// Wrapping lands in the window: `min <= wrap_spec(v, min, max) < max`.
pub proof fn lemma_wrap_in_window(value: int, min: int, max: int)
    requires
        min < max,
    ensures
        min <= wrap_spec(value, min, max) < max,
{
    lemma_mod_bound(value - min, max - min);
}

/// Construction from a value inside `[min, max]` succeeds and keeps the value.
pub proof fn lemma_construct_accepts<T: WrapInt>(value: T, min: T, max: T)
    requires
        min.as_int() <= value.as_int() <= max.as_int(),
    ensures
        WrapNum::<T>::checked_new(value, min, max) is Ok,
        WrapNum::<T>::checked_new(value, min, max)->Ok_0.value == value,
        WrapNum::<T>::checked_new(value, min, max)->Ok_0.wf(),
{
}

/// Construction from a value above `max` or below `min` fails.
pub proof fn lemma_construct_refuses<T: WrapInt>(value: T, min: T, max: T)
    requires
        value.as_int() > max.as_int() || value.as_int() < min.as_int(),
    ensures
        WrapNum::<T>::checked_new(value, min, max) is Err,
        value.as_int() > max.as_int() ==> WrapNum::<T>::checked_new(value, min, max)
            == Err::<WrapNum<T>, RangeError>(RangeError::AboveMax),
{
}

/// Adding a scalar to a number wraps the exact sum into the number's window:
/// the result's value is `(a.value + s - a.min) mod range + a.min`, it lies in
/// `[a.min, a.min + range)`, and the window is `a`'s.
pub proof fn lemma_add_wraps<T: WrapInt>(a: WrapNum<T>, s: T)
    requires
        a.wf(),
        window_ok(a.min, a.max),
    ensures
        a.add_spec(s).value.as_int() == (a.value.as_int() + s.as_int() - a.min.as_int()) % (
        a.max.as_int() - a.min.as_int()) + a.min.as_int(),
        a.min.as_int() <= a.add_spec(s).value.as_int() < a.min.as_int() + (a.max.as_int()
            - a.min.as_int()),
        a.add_spec(s).min == a.min,
        a.add_spec(s).max == a.max,
{
    let w = wrap_spec(a.value.as_int() + s.as_int(), a.min.as_int(), a.max.as_int());
    lemma_wrap_in_window(a.value.as_int() + s.as_int(), a.min.as_int(), a.max.as_int());
    T::lemma_int(a.min);
    T::lemma_int(a.max);
    T::lemma_from_int(w);
}

/// Subtracting a scalar wraps backward as far as needed, over any number of
/// windows: the result's value is `(a.value - s - a.min) mod range + a.min`, in
/// `[a.min, a.min + range)`, and the window is `a`'s.
pub proof fn lemma_sub_wraps<T: WrapInt>(a: WrapNum<T>, s: T)
    requires
        a.wf(),
        window_ok(a.min, a.max),
    ensures
        a.sub_spec(s).value.as_int() == (a.value.as_int() - s.as_int() - a.min.as_int()) % (
        a.max.as_int() - a.min.as_int()) + a.min.as_int(),
        a.min.as_int() <= a.sub_spec(s).value.as_int() < a.min.as_int() + (a.max.as_int()
            - a.min.as_int()),
        a.sub_spec(s).min == a.min,
        a.sub_spec(s).max == a.max,
{
    let w = wrap_spec(a.value.as_int() - s.as_int(), a.min.as_int(), a.max.as_int());
    lemma_wrap_in_window(a.value.as_int() - s.as_int(), a.min.as_int(), a.max.as_int());
    T::lemma_int(a.min);
    T::lemma_int(a.max);
    T::lemma_from_int(w);
}

/// Converting a bare integer into a number and back gives the integer again.
pub proof fn lemma_round_trip<T: WrapInt>(bare: T)
    ensures
        WrapNum::<T>::from_spec(bare).value == bare,
{
}

/// Wrapping an already wrapped value changes nothing.
pub proof fn lemma_wrap_idempotent(value: int, min: int, max: int)
    requires
        min < max,
    ensures
        wrap_spec(wrap_spec(value, min, max), min, max) == wrap_spec(value, min, max),
{
    lemma_mod_twice(value - min, max - min);
}

} // verus!
