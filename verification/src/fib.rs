//! The Fibonacci sequence: its mathematical definition, a verified
//! executable computation, and the overflow boundary of the `u32` result.

use vstd::prelude::*;

verus! {

/// The Fibonacci sequence: `fib(0) == 0`, `fib(1) == 1`, and every later
/// value is the sum of the two before it.
pub open spec fn fib(n: nat) -> nat
    decreases n,
{
    if n == 0 {
        0
    } else if n == 1 {
        1
    } else {
        fib((n - 1) as nat) + fib((n - 2) as nat)
    }
}

/// For every `n >= 2`, the sequence satisfies the defining recurrence
/// `fib(n) == fib(n - 1) + fib(n - 2)`.
pub proof fn lemma_fib_recurrence(n: nat)
    requires
        n >= 2,
    ensures
        fib(n) == fib((n - 1) as nat) + fib((n - 2) as nat),
{
}

/// The sequence never decreases: `fib(i) <= fib(j)` whenever `i <= j`.
pub proof fn lemma_fib_monotonic(i: nat, j: nat)
    requires
        i <= j,
    ensures
        fib(i) <= fib(j),
    decreases j,
{
    if i < j {
        if j == 1 {
            assert(fib(0) == 0);
        } else {
            lemma_fib_monotonic(i, (j - 1) as nat);
        }
    }
}

/// For every `n >= 1`, `fib(n) >= fib(n - 1)`: each value is at least
/// the one before it.
pub proof fn lemma_fib_step_monotonic(n: nat)
    requires
        n >= 1,
    ensures
        fib(n) >= fib((n - 1) as nat),
{
    lemma_fib_monotonic((n - 1) as nat, n);
}

/// Computes the `n`-th Fibonacci number.
///
/// The caller must stay below the overflow boundary of the `u32` result:
/// `fib(47)` is the largest Fibonacci number that fits (see
/// `lemma_fib_overflow_boundary`). `fibonacci_checked` performs that test
/// itself and accepts every `n`.
pub fn fibonacci(n: u32) -> (r: u32)
    requires
        fib(n as nat) <= u32::MAX,
    ensures
        r == fib(n as nat),
{
    if n == 0 {
        return 0;
    }
    let mut a: u32 = 0;
    let mut b: u32 = 1;
    let mut i: u32 = 1;
    while i < n
        invariant
            1 <= i <= n,
            a == fib((i - 1) as nat),
            b == fib(i as nat),
            fib(n as nat) <= u32::MAX,
        decreases n - i,
    {
        proof {
            lemma_fib_monotonic((i + 1) as nat, n as nat);
        }
        let c = a + b;
        a = b;
        b = c;
        i = i + 1;
    }
    b
}

/// The exact values of the sequence at the `u32` overflow boundary:
/// `fib(47)` still fits in a `u32`, `fib(48)` no longer does.
pub proof fn lemma_fib_overflow_boundary()
    ensures
        fib(47) == 2971215073,
        fib(48) == 4807526976,
        fib(47) <= u32::MAX,
        fib(48) > u32::MAX,
{
    assert(fib(0) == 0);
    assert(fib(1) == 1);
    assert(fib(2) == 1);
    assert(fib(3) == 2);
    assert(fib(4) == 3);
    assert(fib(5) == 5);
    assert(fib(6) == 8);
    assert(fib(7) == 13);
    assert(fib(8) == 21);
    assert(fib(9) == 34);
    assert(fib(10) == 55);
    assert(fib(11) == 89);
    assert(fib(12) == 144);
    assert(fib(13) == 233);
    assert(fib(14) == 377);
    assert(fib(15) == 610);
    assert(fib(16) == 987);
    assert(fib(17) == 1597);
    assert(fib(18) == 2584);
    assert(fib(19) == 4181);
    assert(fib(20) == 6765);
    assert(fib(21) == 10946);
    assert(fib(22) == 17711);
    assert(fib(23) == 28657);
    assert(fib(24) == 46368);
    assert(fib(25) == 75025);
    assert(fib(26) == 121393);
    assert(fib(27) == 196418);
    assert(fib(28) == 317811);
    assert(fib(29) == 514229);
    assert(fib(30) == 832040);
    assert(fib(31) == 1346269);
    assert(fib(32) == 2178309);
    assert(fib(33) == 3524578);
    assert(fib(34) == 5702887);
    assert(fib(35) == 9227465);
    assert(fib(36) == 14930352);
    assert(fib(37) == 24157817);
    assert(fib(38) == 39088169);
    assert(fib(39) == 63245986);
    assert(fib(40) == 102334155);
    assert(fib(41) == 165580141);
    assert(fib(42) == 267914296);
    assert(fib(43) == 433494437);
    assert(fib(44) == 701408733);
    assert(fib(45) == 1134903170);
    assert(fib(46) == 1836311903);
    assert(fib(47) == 2971215073);
    assert(fib(48) == 4807526976);
}

/// Computes the `n`-th Fibonacci number for any `n`, reporting by `None`
/// exactly the inputs whose result does not fit in a `u32`.
pub fn fibonacci_checked(n: u32) -> (r: Option<u32>)
    ensures
        r is Some <==> fib(n as nat) <= u32::MAX,
        r is Some ==> r->0 == fib(n as nat),
{
    proof {
        lemma_fib_overflow_boundary();
    }
    if n <= 47 {
        proof {
            lemma_fib_monotonic(n as nat, 47);
        }
        Some(fibonacci(n))
    } else {
        proof {
            lemma_fib_monotonic(48, n as nat);
        }
        None
    }
}

/// The computation is a pure function of the index: any two results that
/// meet the contract of `fibonacci` for the same `n` are the same value.
pub proof fn lemma_fibonacci_deterministic(n: u32, r1: u32, r2: u32)
    requires
        r1 == fib(n as nat),
        r2 == fib(n as nat),
    ensures
        r1 == r2,
{
}

} // verus!
