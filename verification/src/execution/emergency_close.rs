//! Emergency close schedule: up to three IOC close attempts with a doubling price
//! buffer, then a reduce-only hedge on the opposite side if exposure remains.

use vstd::prelude::*;

use crate::execution::order_dispatcher::OrderSide;

verus! {

/// Number of IOC close attempts before the hedge fallback.
pub const MAX_CLOSE_ATTEMPTS: u8 = 3;

/// Price buffer of the first close attempt, in ticks.
pub const INITIAL_BUFFER_TICKS: i32 = 5;

/// Buffer of close attempt `n` (from 1): the initial buffer doubled for each attempt
/// before it.
pub open spec fn buffer_ticks_spec(n: nat) -> int
    decreases n,
{
    if n <= 1 {
        INITIAL_BUFFER_TICKS as int
    } else {
        2 * buffer_ticks_spec((n - 1) as nat)
    }
}

/// The price buffer, in ticks, of close attempt `attempt_number`.
pub fn close_buffer_ticks(attempt_number: u8) -> (b: i32)
    requires
        1 <= attempt_number <= MAX_CLOSE_ATTEMPTS,
    ensures
        b == buffer_ticks_spec(attempt_number as nat),
{
    proof {
        reveal_with_fuel(buffer_ticks_spec, 3);
    }
    if attempt_number == 1 {
        INITIAL_BUFFER_TICKS
    } else if attempt_number == 2 {
        INITIAL_BUFFER_TICKS * 2
    } else {
        INITIAL_BUFFER_TICKS * 4
    }
}

/// The next close attempt after `attempts_done` attempts, with its buffer; `None`
/// once the position is neutral or every attempt has been made.
pub fn next_close_attempt(attempts_done: u8, neutral: bool) -> (r: Option<(u8, i32)>)
    ensures
        r is None <==> (neutral || attempts_done >= MAX_CLOSE_ATTEMPTS),
        r matches Some((n, b)) ==> n == attempts_done + 1 && b == buffer_ticks_spec(n as nat),
{
    if neutral || attempts_done >= MAX_CLOSE_ATTEMPTS {
        None
    } else {
        let n = attempts_done + 1;
        Some((n, close_buffer_ticks(n)))
    }
}

/// The hedge fallback trades opposite to the close side.
pub fn hedge_side(close_side: OrderSide) -> (s: OrderSide)
    ensures
        s != close_side,
{
    match close_side {
        OrderSide::Buy => OrderSide::Sell,
        OrderSide::Sell => OrderSide::Buy,
    }
}

/// The cause recorded on an atomic naked event.
pub fn atomic_naked_event_cause() -> (s: &'static str)
    ensures
        s@ == "atomic_legging_failure"@,
{
    "atomic_legging_failure"
}

/// Each close attempt doubles the buffer of the one before: 5, 10, 20 ticks.
pub proof fn lemma_buffer_doubles(n: nat)
    requires
        1 <= n < MAX_CLOSE_ATTEMPTS,
    ensures
        buffer_ticks_spec(n + 1) == 2 * buffer_ticks_spec(n),
        buffer_ticks_spec(1) == 5,
        buffer_ticks_spec(2) == 10,
        buffer_ticks_spec(3) == 20,
{
    reveal_with_fuel(buffer_ticks_spec, 3);
}

} // verus!
