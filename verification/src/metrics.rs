use vstd::prelude::*;

verus! {

/// The value of a monotonically bumped `u64` counter after one increment (it wraps at the top).
pub open spec fn bumped(count: u64) -> u64 {
    if count == u64::MAX {
        0
    } else {
        (count + 1) as u64
    }
}

/// A counter that started at `start` after `n` increments (wrapping at the top).
pub open spec fn counted(start: u64, n: nat) -> u64 {
    ((start + n) % 0x1_0000_0000_0000_0000) as u64
}

/// No increment leaves the counter where it started.
pub proof fn lemma_counted_zero(start: u64)
    ensures
        counted(start, 0) == start,
{
}

/// One more increment of a counter moves it one step along `counted`.
pub proof fn lemma_counted_step(start: u64, n: nat)
    ensures
        bumped(counted(start, n)) == counted(start, n + 1),
{
    let m: int = 0x1_0000_0000_0000_0000;
    let x: int = start + n;
    vstd::arithmetic::div_mod::lemma_add_mod_noop(x, 1, m);
    assert(1int % m == 1);
    assert(0 <= x % m < m) by {
        vstd::arithmetic::div_mod::lemma_mod_bound(x, m);
    }
}

/// One increment of a counter, wrapping at `u64::MAX`.
pub fn bump_count(count: u64) -> (r: u64)
    ensures
        r == bumped(count),
{
    count.wrapping_add(1)
}

} // verus!
