//! Functions that take functions, and functions that make them.

use vstd::prelude::*;

verus! {

/// The sum of `x` and `y`, which has to fit in an `i32`.
pub fn my_function(x: i32, y: i32) -> (sum: i32)
    requires
        i32::MIN <= x + y <= i32::MAX,
    ensures
        sum == x + y,
{
    x + y
}

/// Calls `f` on `arg` twice and adds up what comes back. The two results need not be
/// the same, and every two that are possible have to add up within `i32`.
pub fn do_twice2<T>(f: T, arg: i32) -> (sum: i32) where T: Fn(i32) -> i32
    requires
        call_requires(f, (arg,)),
        forall|a: i32, b: i32|
            call_ensures(f, (arg,), a) && call_ensures(f, (arg,), b) ==> i32::MIN <= a + b
                <= i32::MAX,
    ensures
        exists|a: i32, b: i32|
            call_ensures(f, (arg,), a) && call_ensures(f, (arg,), b) && sum == a + b,
{
    let first = f(arg);
    let second = f(arg);
    first + second
}

/// Calls `f` on `arg` twice and adds up what comes back, as `do_twice2` does.
pub fn do_twice(f: impl Fn(i32) -> i32, arg: i32) -> (sum: i32)
    requires
        call_requires(f, (arg,)),
        forall|a: i32, b: i32|
            call_ensures(f, (arg,), a) && call_ensures(f, (arg,), b) ==> i32::MIN <= a + b
                <= i32::MAX,
    ensures
        exists|a: i32, b: i32|
            call_ensures(f, (arg,), a) && call_ensures(f, (arg,), b) && sum == a + b,
{
    do_twice2(f, arg)
}

/// Makes the function that adds `a` to its argument. It takes every argument for
/// which that sum fits in an `i32`.
pub fn returns_closure(a: i32) -> (adder: impl Fn(i32) -> i32)
    ensures
        forall|b: i32| i32::MIN <= a + b <= i32::MAX ==> call_requires(adder, (b,)),
        forall|b: i32, sum: i32| call_ensures(adder, (b,), sum) ==> sum == a + b,
{
    move |b: i32| -> (sum: i32)
        requires
            i32::MIN <= a + b <= i32::MAX,
        ensures
            sum == a + b,
        { a + b }
}

/// What the function made for `a` makes of `b`: their sum where `a` is positive, and
/// `a` less `b` where it is not.
pub open spec fn sum_or_difference(a: i32, b: i32) -> int {
    if a > 0 {
        a + b
    } else {
        a - b
    }
}

/// Makes the function that adds its argument to `a` where `a` is positive, and takes
/// it away from `a` where `a` is not. It takes every argument for which the result
/// fits in an `i32`.
pub fn returns_closure2(a: i32) -> (made: impl Fn(i32) -> i32)
    ensures
        forall|b: i32| i32::MIN <= sum_or_difference(a, b) <= i32::MAX ==> call_requires(made, (b,)),
        forall|b: i32, result: i32|
            call_ensures(made, (b,), result) ==> result == sum_or_difference(a, b),
{
    move |b: i32| -> (result: i32)
        requires
            i32::MIN <= sum_or_difference(a, b) <= i32::MAX,
        ensures
            result == sum_or_difference(a, b),
        {
            if a > 0 {
                a + b
            } else {
                a - b
            }
        }
}

} // verus!
