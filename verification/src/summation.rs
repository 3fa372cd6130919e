//! The sum of the whole numbers up to a bound.

use vstd::prelude::*;

verus! {

/// The sum `0 + 1 + ... + n`, in closed form.
pub open spec fn sum_up_to(n: nat) -> nat {
    n * (n + 1) / 2
}

/// The closed form obeys the recurrence that defines the sum: nothing is
/// summed up to zero, and each further bound adds itself.
pub proof fn sum_up_to_unfolds(n: nat)
    ensures
        sum_up_to(0) == 0,
        sum_up_to(n + 1) == sum_up_to(n) + (n + 1),
{
    assert((n + 1) * (n + 2) == n * (n + 1) + 2 * (n + 1)) by (nonlinear_arith);
}

/// A larger bound never gives a smaller sum.
pub proof fn sum_up_to_grows(a: nat, b: nat)
    requires
        a <= b,
    ensures
        sum_up_to(a) <= sum_up_to(b),
{
    assert(a * (a + 1) <= b * (b + 1)) by (nonlinear_arith)
        requires
            a <= b,
    ;
}

/// The largest bound whose sum still fits in a `u32`.
pub const LARGEST_BOUND: u32 = 92681;

/// The sums that fit in a `u32` are exactly those up to `LARGEST_BOUND`.
pub proof fn sum_fits_up_to_largest_bound(n: nat)
    ensures
        sum_up_to(n) <= u32::MAX <==> n <= LARGEST_BOUND,
{
    if n <= LARGEST_BOUND {
        sum_up_to_grows(n, LARGEST_BOUND as nat);
    } else {
        sum_up_to_grows(LARGEST_BOUND as nat + 1, n);
    }
}

/// Adds up the whole numbers from 0 to `n`, `n` included. The sum has to
/// fit in a `u32`, which it does for every `n` up to `LARGEST_BOUND`.
pub fn sum_one_to_n(n: u32) -> (sum: u32)
    requires
        sum_up_to(n as nat) <= u32::MAX,
    ensures
        sum == sum_up_to(n as nat),
{
    let mut sum: u32 = 0;
    let mut next: u32 = 0;
    while next < n
        invariant
            next <= n,
            sum == sum_up_to(next as nat),
            sum_up_to(n as nat) <= u32::MAX,
        decreases n - next,
    {
        proof {
            sum_up_to_unfolds(next as nat);
            sum_up_to_grows(next as nat + 1, n as nat);
        }
        next = next + 1;
        sum = sum + next;
    }
    sum
}

} // verus!
