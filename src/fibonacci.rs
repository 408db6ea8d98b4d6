//! The Fibonacci sequence, both as a mathematical definition and as an
//! executable loop whose additions wrap at 2^64.
use vstd::prelude::*;
use vstd::arithmetic::div_mod::lemma_add_mod_noop;

verus! {

/// Number of distinct `u64` values; `u64` arithmetic that wraps works modulo it.
pub open spec fn u64_modulus() -> nat {
    0x1_0000_0000_0000_0000
}

/// The Fibonacci sequence with fib(0) = 0 and fib(1) = fib(2) = 1.
pub open spec fn fib_value(n: nat) -> nat
    decreases n,
{
    if n == 0 {
        0
    } else if n == 1 {
        1
    } else {
        fib_value((n - 1) as nat) + fib_value((n - 2) as nat)
    }
}

/// What `fib` returns for `n`: the nth Fibonacci number reduced modulo 2^64,
/// and 1 for the index 0, where the loop does not run.
pub open spec fn fib_u64(n: nat) -> u64 {
    if n == 0 {
        1
    } else {
        (fib_value(n) % u64_modulus()) as u64
    }
}

/// The nth Fibonacci number (1-based: fib(1) = fib(2) = 1). Additions wrap
/// silently at 2^64, so for n > 93 the result is the true value modulo 2^64.
/// For n = 0 the loop is empty and the initial accumulator, 1, is returned.
pub fn fib(n: u32) -> (r: u64)
    ensures
        r == fib_u64(n as nat),
        n >= 1 ==> r as int == fib_value(n as nat) % u64_modulus(),
        n >= 1 && fib_value(n as nat) <= u64::MAX ==> r as nat == fib_value(n as nat),
{
    proof {
        reveal_with_fuel(fib_value, 3);
    }
    if n == 1 || n == 2 {
        return 1;
    }
    let mut a: u64 = 1;
    let mut b: u64 = 1;
    let mut i: u32 = 2;
    while i < n
        invariant
            2 <= i,
            i <= n || (n == 0 && i == 2),
            a as int == fib_value((i - 1) as nat) % u64_modulus(),
            b as int == fib_value(i as nat) % u64_modulus(),
        decreases n - i,
    {
        let next: u64 = a.wrapping_add(b);
        proof {
            lemma_add_mod_noop(
                fib_value((i - 1) as nat) as int,
                fib_value(i as nat) as int,
                u64_modulus() as int,
            );
            assert(fib_value((i + 1) as nat) == fib_value(i as nat) + fib_value((i - 1) as nat));
        }
        a = b;
        b = next;
        i = i + 1;
    }
    b
}

/// Each value `fib` returns for n >= 3 is the sum of its values for n - 1
/// and n - 2, taken modulo 2^64; while the nth Fibonacci number fits in a
/// `u64` the sum is exact and no wrapping happens.
pub proof fn lemma_fib_recurrence(n: nat)
    requires
        n >= 3,
    ensures
        fib_value(n) == fib_value((n - 1) as nat) + fib_value((n - 2) as nat),
        fib_u64(n) as int == (fib_u64((n - 1) as nat) + fib_u64((n - 2) as nat)) % (
        u64_modulus() as int),
        fib_value(n) <= u64::MAX ==> fib_u64(n) == fib_u64((n - 1) as nat) + fib_u64(
            (n - 2) as nat,
        ),
{
    let m = u64_modulus() as int;
    let x = fib_value((n - 1) as nat) as int;
    let y = fib_value((n - 2) as nat) as int;
    lemma_add_mod_noop(x, y, m);
    if fib_value(n) <= u64::MAX {
        vstd::arithmetic::div_mod::lemma_small_mod(x as nat, m as nat);
        vstd::arithmetic::div_mod::lemma_small_mod(y as nat, m as nat);
        vstd::arithmetic::div_mod::lemma_small_mod((x + y) as nat, m as nat);
    }
}

} // verus!
