//! Small sequence helpers: Fibonacci numbers, which set the hue speed of the
//! colour bands, and closing an outline into a loop.

use vstd::prelude::*;

verus! {

/// The Fibonacci numbers, with `fib(0) == 0` and `fib(1) == 1`.
pub open spec fn fib(n: nat) -> nat
    decreases n,
{
    if n == 0 {
        0
    } else if n == 1 {
        1
    } else {
        fib((n - 2) as nat) + fib((n - 1) as nat)
    }
}

/// The Fibonacci numbers never decrease.
pub proof fn lemma_fib_monotone(i: nat, j: nat)
    requires
        i <= j,
    ensures
        fib(i) <= fib(j),
    decreases j - i,
{
    if i < j {
        lemma_fib_monotone(i, (j - 1) as nat);
    }
}

/// The `n`-th Fibonacci number. The caller keeps the result within `u64`
/// (that is, `n <= 93`).
pub fn fibonacci(n: u64) -> (r: u64)
    requires
        fib(n as nat) <= u64::MAX,
    ensures
        r == fib(n as nat),
{
    if n == 0 {
        return 0;
    }
    let mut a: u64 = 1;
    let mut b: u64 = 0;
    let mut count: u64 = 1;
    while count < n
        invariant
            1 <= count <= n,
            a == fib(count as nat),
            b == fib((count - 1) as nat),
            fib(n as nat) <= u64::MAX,
        decreases n - count,
    {
        proof {
            lemma_fib_monotone((count + 1) as nat, n as nat);
        }
        let tmp = a + b;
        b = a;
        a = tmp;
        count += 1;
    }
    a
}

/// Appends a copy of the first point to the end, so that a polyline through
/// the result is a closed outline.
pub fn close_loop<T: Copy>(points: Vec<T>) -> (r: Vec<T>)
    requires
        points.len() > 0,
    ensures
        r@ == points@.push(points@[0]),
{
    let mut v = points;
    let first = v[0];
    v.push(first);
    v
}

} // verus!
