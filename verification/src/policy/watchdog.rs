use vstd::prelude::*;

use crate::metrics::{bump_count, bumped};
use crate::text::{decimal, push_decimal};

verus! {

/// Default cooldown in seconds.
pub const EMERGENCY_REDUCEONLY_COOLDOWN_S: u64 = 300;

/// Watchdog silence threshold in milliseconds.
pub const WS_SILENCE_TRIGGER_MS: u64 = 5_000;

#[derive(Debug, Clone, PartialEq, Eq, Structural)]
pub enum HttpMethod {
    Get,
    Post,
    Put,
    Delete,
}

#[derive(Debug, Clone)]
pub struct HttpRequest {
    pub method: HttpMethod,
}

impl HttpRequest {
    pub fn post() -> (r: Self)
        ensures
            r.method == HttpMethod::Post,
    {
        Self { method: HttpMethod::Post }
    }

    pub fn with_method(method: HttpMethod) -> (r: Self)
        ensures
            r.method == method,
    {
        Self { method }
    }
}

#[derive(Debug, Clone)]
pub struct HttpResponse {
    pub status: u16,
    pub body: String,
}

/// An order as seen by the watchdog's cancellation logic.
#[derive(Debug, Clone, PartialEq, Eq)]
pub struct Order {
    pub order_id: String,
    /// Reduce-only closes and hedges are never canceled under emergency.
    pub reduce_only: bool,
}

/// What emergency reduce-only does to a set of orders.
#[derive(Debug, Clone)]
pub struct EmergencyReduceOnlyEffect {
    pub cancel_orders: Vec<String>,
    pub preserve_orders: Vec<String>,
    pub submit_hedge: bool,
}

/// Ids of the orders, in order, whose reduce-only flag equals `reduce_only`.
pub open spec fn order_ids_where(orders: Seq<Order>, reduce_only: bool) -> Seq<String>
    decreases orders.len(),
{
    if orders.len() == 0 {
        Seq::empty()
    } else {
        let rest = order_ids_where(orders.drop_last(), reduce_only);
        if orders.last().reduce_only == reduce_only {
            rest.push(orders.last().order_id)
        } else {
            rest
        }
    }
}

/// Cancels every order that is not reduce-only, preserves the reduce-only ones, and asks
/// for a hedge when the exposure is over its limit.
pub fn emergency_reduceonly_effect(orders: &[Order], exposure_over_limit: bool) -> (e: EmergencyReduceOnlyEffect)
    ensures
        e.cancel_orders@ == order_ids_where(orders@, false),
        e.preserve_orders@ == order_ids_where(orders@, true),
        e.submit_hedge == exposure_over_limit,
{
    let mut cancel_orders: Vec<String> = Vec::new();
    let mut preserve_orders: Vec<String> = Vec::new();
    let mut i: usize = 0;
    while i < orders.len()
        invariant
            i <= orders@.len(),
            cancel_orders@ == order_ids_where(orders@.take(i as int), false),
            preserve_orders@ == order_ids_where(orders@.take(i as int), true),
        decreases orders@.len() - i,
    {
        proof {
            assert(orders@.take(i + 1).drop_last() =~= orders@.take(i as int));
        }
        if orders[i].reduce_only {
            preserve_orders.push(orders[i].order_id.clone());
        } else {
            cancel_orders.push(orders[i].order_id.clone());
        }
        i = i + 1;
    }
    assert(orders@.take(orders@.len() as int) =~= orders@);
    EmergencyReduceOnlyEffect { cancel_orders, preserve_orders, submit_hedge: exposure_over_limit }
}

/// The emergency reduce-only latch and its call counter.
pub struct EmergencyReduceOnlyState {
    /// Time (epoch ms) until which the latch is active; 0 when cleared.
    pub emergency_reduceonly_until_ts_ms: u64,
    /// Cooldown in ms.
    pub cooldown_ms: u64,
    /// Number of activations.
    pub http_emergency_reduce_only_calls_total: u64,
}

/// Latch is set and not yet expired.
pub open spec fn latch_active(until: u64, now_ms: u64) -> bool {
    until > 0 && now_ms < until
}

pub open spec fn sat_add(a: u64, b: u64) -> u64 {
    if a + b > u64::MAX {
        u64::MAX
    } else {
        (a + b) as u64
    }
}

impl EmergencyReduceOnlyState {
    pub fn new(cooldown_s: u64) -> (s: Self)
        ensures
            s.emergency_reduceonly_until_ts_ms == 0,
            s.cooldown_ms == (if cooldown_s * 1000 > u64::MAX { u64::MAX as int } else { cooldown_s * 1000 }),
            s.http_emergency_reduce_only_calls_total == 0,
    {
        Self {
            emergency_reduceonly_until_ts_ms: 0,
            cooldown_ms: if cooldown_s <= u64::MAX / 1000 { cooldown_s * 1000 } else { u64::MAX },
            http_emergency_reduce_only_calls_total: 0,
        }
    }

    pub fn is_active(&self, now_ms: u64) -> (r: bool)
        ensures
            r == latch_active(self.emergency_reduceonly_until_ts_ms, now_ms),
    {
        let until = self.emergency_reduceonly_until_ts_ms;
        until > 0 && now_ms < until
    }

    /// Sets the latch to `now_ms + cooldown_ms` (saturating) and counts the call.
    pub fn activate(&mut self, now_ms: u64)
        ensures
            final(self).emergency_reduceonly_until_ts_ms == sat_add(now_ms, old(self).cooldown_ms),
            final(self).cooldown_ms == old(self).cooldown_ms,
            final(self).http_emergency_reduce_only_calls_total == bumped(
                old(self).http_emergency_reduce_only_calls_total,
            ),
    {
        self.emergency_reduceonly_until_ts_ms = now_ms.saturating_add(self.cooldown_ms);
        self.http_emergency_reduce_only_calls_total = bump_count(self.http_emergency_reduce_only_calls_total);
    }

    pub fn until_ts_ms(&self) -> (r: u64)
        ensures
            r == self.emergency_reduceonly_until_ts_ms,
    {
        self.emergency_reduceonly_until_ts_ms
    }

    pub fn calls_total(&self) -> (r: u64)
        ensures
            r == self.http_emergency_reduce_only_calls_total,
    {
        self.http_emergency_reduce_only_calls_total
    }

    pub fn clear(&mut self)
        ensures
            final(self).emergency_reduceonly_until_ts_ms == 0,
            final(self).cooldown_ms == old(self).cooldown_ms,
            final(self).http_emergency_reduce_only_calls_total == old(self).http_emergency_reduce_only_calls_total,
    {
        self.emergency_reduceonly_until_ts_ms = 0;
    }
}

/// Body of the 200 answer: the latch end time as JSON.
pub open spec fn activated_body(until: u64) -> Seq<char> {
    "{\"ok\":true,\"emergency_reduceonly_until_ts_ms\":"@ + decimal(until as nat) + "}"@
}

pub open spec fn method_not_allowed_body() -> Seq<char> {
    "{\"error\":\"method not allowed\"}"@
}

/// `POST` activates the latch at `now_ms` and answers 200 with its end time; any other method
/// answers 405 and leaves the latch alone.
pub fn handle_emergency_reduce_only_at(req: &HttpRequest, state: &mut EmergencyReduceOnlyState, now_ms: u64) -> (r: HttpResponse)
    ensures
        req.method != HttpMethod::Post ==> (r.status == 405 && r.body@ == method_not_allowed_body()
            && *final(state) == *old(state)),
        req.method == HttpMethod::Post ==> (r.status == 200 && final(state).emergency_reduceonly_until_ts_ms
            == sat_add(now_ms, old(state).cooldown_ms) && final(state).cooldown_ms == old(state).cooldown_ms
            && final(state).http_emergency_reduce_only_calls_total == bumped(
            old(state).http_emergency_reduce_only_calls_total,
        ) && r.body@ == activated_body(final(state).emergency_reduceonly_until_ts_ms)),
{
    if req.method != HttpMethod::Post {
        return HttpResponse { status: 405, body: String::from_str("{\"error\":\"method not allowed\"}") };
    }
    state.activate(now_ms);
    let until = state.until_ts_ms();
    let mut body = String::from_str("{\"ok\":true,\"emergency_reduceonly_until_ts_ms\":");
    push_decimal(&mut body, until);
    body.append("}");
    HttpResponse { status: 200, body }
}

/// More than five seconds of websocket silence activates the latch.
pub fn check_watchdog(ws_silence_ms: u64, state: &mut EmergencyReduceOnlyState, now_ms: u64) -> (r: bool)
    ensures
        r == (ws_silence_ms > WS_SILENCE_TRIGGER_MS),
        r ==> (final(state).emergency_reduceonly_until_ts_ms == sat_add(now_ms, old(state).cooldown_ms)
            && final(state).cooldown_ms == old(state).cooldown_ms
            && final(state).http_emergency_reduce_only_calls_total == bumped(
            old(state).http_emergency_reduce_only_calls_total,
        )),
        !r ==> *final(state) == *old(state),
{
    if ws_silence_ms > WS_SILENCE_TRIGGER_MS {
        state.activate(now_ms);
        true
    } else {
        false
    }
}

/// Clears the latch once it has expired and reconciliation confirms it is safe.
pub fn maybe_clear_emergency_reduceonly(state: &mut EmergencyReduceOnlyState, now_ms: u64, reconcile_safe: bool)
    ensures
        ({
            let until = old(state).emergency_reduceonly_until_ts_ms;
            if until > 0 && now_ms >= until && reconcile_safe {
                final(state).emergency_reduceonly_until_ts_ms == 0 && final(state).cooldown_ms
                    == old(state).cooldown_ms && final(state).http_emergency_reduce_only_calls_total
                    == old(state).http_emergency_reduce_only_calls_total
            } else {
                *final(state) == *old(state)
            }
        }),
{
    let until = state.until_ts_ms();
    if until > 0 && now_ms >= until && reconcile_safe {
        state.clear();
    }
}

/// Once activated at `now`, the latch stays active for the whole cooldown (when the
/// cooldown is positive and the end time does not saturate), and a clear attempted before
/// expiry leaves it in place.
pub proof fn lemma_latch_holds_through_cooldown(now: u64, cooldown_ms: u64, later: u64)
    requires
        cooldown_ms > 0,
        now + cooldown_ms <= u64::MAX,
        now <= later < now + cooldown_ms,
    ensures
        latch_active(sat_add(now, cooldown_ms), later),
        !(sat_add(now, cooldown_ms) > 0 && later >= sat_add(now, cooldown_ms)),
{
}

} // verus!
