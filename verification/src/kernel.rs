//! The arithmetic kernel: the rounding operations on binary64 words, which
//! the engine takes from its caller as one function.

use vstd::prelude::*;
use crate::binary64::settled;

verus! {

/// The operations that the engine asks of its kernel: those that round. A
/// kernel is called as `kernel(operation, a, b)` on the words of two numbers
/// and returns the word of the result; the sine ignores `b`.
#[derive(Clone, Copy, PartialEq, Eq, Structural, Debug)]
pub enum Operation {
    /// `a + b`, rounded.
    Add,
    /// `a - b`, rounded.
    Sub,
    /// `a * b`, rounded.
    Mul,
    /// `a / b`, rounded.
    Div,
    /// The remainder of `a / b` with the sign of `a`.
    Rem,
    /// The sine of `a`, an angle in radians, rounded.
    Sin,
}

/// The word that the engine takes from `kernel` for an operation and its
/// operands: the word that the kernel returns, with its NaN settled.
pub open spec fn value_of<K: Fn(Operation, u64, u64) -> u64>(
    kernel: &K,
    operation: Operation,
    a: u64,
    b: u64,
) -> u64 {
    settled(choose|r: u64| kernel.ensures((operation, a, b), r))
}

/// What the engine needs of a kernel: it accepts every operation on every pair
/// of words, and it is a function but for the NaN that it picks, so that
/// equal operands give equal numbers, or a NaN both times.
pub open spec fn is_kernel<K: Fn(Operation, u64, u64) -> u64>(kernel: &K) -> bool {
    &&& forall|operation: Operation, a: u64, b: u64| #[trigger] kernel.requires((operation, a, b))
    &&& forall|operation: Operation, a: u64, b: u64, first: u64, second: u64|
        #[trigger] kernel.ensures((operation, a, b), first) && #[trigger] kernel.ensures(
            (operation, a, b),
            second,
        ) ==> settled(first) == settled(second)
}

/// The rounded sum `a + b`.
pub open spec fn sum<K: Fn(Operation, u64, u64) -> u64>(kernel: &K, a: u64, b: u64) -> u64 {
    value_of(kernel, Operation::Add, a, b)
}

/// The rounded difference `a - b`.
pub open spec fn difference<K: Fn(Operation, u64, u64) -> u64>(kernel: &K, a: u64, b: u64) -> u64 {
    value_of(kernel, Operation::Sub, a, b)
}

/// The rounded product `a * b`.
pub open spec fn product<K: Fn(Operation, u64, u64) -> u64>(kernel: &K, a: u64, b: u64) -> u64 {
    value_of(kernel, Operation::Mul, a, b)
}

/// The rounded quotient `a / b`.
pub open spec fn quotient<K: Fn(Operation, u64, u64) -> u64>(kernel: &K, a: u64, b: u64) -> u64 {
    value_of(kernel, Operation::Div, a, b)
}

/// The remainder of `a / b`.
pub open spec fn remainder<K: Fn(Operation, u64, u64) -> u64>(kernel: &K, a: u64, b: u64) -> u64 {
    value_of(kernel, Operation::Rem, a, b)
}

/// The rounded sine of `a`.
pub open spec fn sine<K: Fn(Operation, u64, u64) -> u64>(kernel: &K, a: u64) -> u64 {
    value_of(kernel, Operation::Sin, a, 0)
}

/// Calls the kernel once and settles the NaN of what it returns.
pub fn evaluate<K: Fn(Operation, u64, u64) -> u64>(
    kernel: &K,
    operation: Operation,
    a: u64,
    b: u64,
) -> (r: u64)
    requires
        is_kernel(kernel),
    ensures
        r == value_of(kernel, operation, a, b),
{
    let returned: u64 = kernel(operation, a, b);
    proof {
        let chosen = choose|r: u64| kernel.ensures((operation, a, b), r);
        assert(kernel.ensures((operation, a, b), chosen));
    }
    settled(returned)
}

/// `a + b` by the kernel.
pub fn plus<K: Fn(Operation, u64, u64) -> u64>(kernel: &K, a: u64, b: u64) -> (r: u64)
    requires
        is_kernel(kernel),
    ensures
        r == sum(kernel, a, b),
{
    evaluate(kernel, Operation::Add, a, b)
}

/// `a - b` by the kernel.
pub fn minus<K: Fn(Operation, u64, u64) -> u64>(kernel: &K, a: u64, b: u64) -> (r: u64)
    requires
        is_kernel(kernel),
    ensures
        r == difference(kernel, a, b),
{
    evaluate(kernel, Operation::Sub, a, b)
}

/// `a * b` by the kernel.
pub fn times<K: Fn(Operation, u64, u64) -> u64>(kernel: &K, a: u64, b: u64) -> (r: u64)
    requires
        is_kernel(kernel),
    ensures
        r == product(kernel, a, b),
{
    evaluate(kernel, Operation::Mul, a, b)
}

/// `a / b` by the kernel.
pub fn over<K: Fn(Operation, u64, u64) -> u64>(kernel: &K, a: u64, b: u64) -> (r: u64)
    requires
        is_kernel(kernel),
    ensures
        r == quotient(kernel, a, b),
{
    evaluate(kernel, Operation::Div, a, b)
}

/// The remainder of `a / b` by the kernel.
pub fn modulo<K: Fn(Operation, u64, u64) -> u64>(kernel: &K, a: u64, b: u64) -> (r: u64)
    requires
        is_kernel(kernel),
    ensures
        r == remainder(kernel, a, b),
{
    evaluate(kernel, Operation::Rem, a, b)
}

/// The sine of `a` by the kernel.
pub fn sine_of<K: Fn(Operation, u64, u64) -> u64>(kernel: &K, a: u64) -> (r: u64)
    requires
        is_kernel(kernel),
    ensures
        r == sine(kernel, a),
{
    evaluate(kernel, Operation::Sin, a, 0)
}

} // verus!
