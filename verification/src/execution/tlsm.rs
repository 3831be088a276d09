use vstd::prelude::*;

use crate::execution::state::{tlsm_state_is_terminal, TlsmEvent, TlsmState};
use crate::metrics::{bump_count, bumped};

verus! {

/// Count of events that arrived out of order.
pub struct TlsmMetrics {
    out_of_order_total: u64,
}

impl TlsmMetrics {
    pub closed spec fn count(&self) -> u64 {
        self.out_of_order_total
    }

    pub fn new() -> (m: Self)
        ensures
            m.count() == 0,
    {
        Self { out_of_order_total: 0 }
    }

    pub fn out_of_order_total(&self) -> (r: u64)
        ensures
            r == self.count(),
    {
        self.out_of_order_total
    }

    pub fn record_out_of_order(&mut self)
        ensures
            final(self).count() == bumped(old(self).count()),
    {
        self.out_of_order_total = bump_count(self.out_of_order_total);
    }
}

#[derive(Debug, Clone)]
pub struct TlsmLedgerError {
    pub message: String,
}

impl TlsmLedgerError {
    pub fn new(message: &str) -> (e: Self)
        ensures
            e.message@ == message@,
    {
        Self { message: String::from_str(message) }
    }
}

#[derive(Debug)]
pub enum TlsmError {
    Ledger(TlsmLedgerError),
}

impl From<TlsmLedgerError> for TlsmError {
    fn from(err: TlsmLedgerError) -> (r: Self)
        ensures
            r == TlsmError::Ledger(err),
    {
        TlsmError::Ledger(err)
    }
}

impl vstd::std_specs::convert::FromSpecImpl<TlsmLedgerError> for TlsmError {
    open spec fn obeys_from_spec() -> bool {
        true
    }

    open spec fn from_spec(err: TlsmLedgerError) -> Self {
        TlsmError::Ledger(err)
    }
}

/// The order-leg timestamps that the state machine keeps.
#[derive(Debug, Clone, Copy, PartialEq, Eq, Structural)]
pub struct TlsmTimestamps {
    pub sent_ts: Option<u64>,
    pub ack_ts: Option<u64>,
    pub last_fill_ts: Option<u64>,
}

/// Next state: `Filled` always wins; terminal states stay; otherwise the event moves the
/// leg forward (a late `Sent` or `Acked` never moves it back).
pub open spec fn next_state_spec(current: TlsmState, event: TlsmEvent) -> TlsmState {
    if event is Filled {
        TlsmState::Filled
    } else if tlsm_state_is_terminal(current) {
        current
    } else {
        match event {
            TlsmEvent::Sent { .. } => if current == TlsmState::Created { TlsmState::Sent } else { current },
            TlsmEvent::Acked { .. } => if current == TlsmState::Created || current == TlsmState::Sent {
                TlsmState::Acked
            } else {
                current
            },
            TlsmEvent::PartiallyFilled { .. } => TlsmState::PartiallyFilled,
            TlsmEvent::Canceled { .. } => TlsmState::Canceled,
            TlsmEvent::Failed { .. } => TlsmState::Failed,
            TlsmEvent::Filled { .. } => TlsmState::Filled,
        }
    }
}

pub fn next_state(current: TlsmState, event: &TlsmEvent) -> (s: TlsmState)
    ensures
        s == next_state_spec(current, *event),
{
    if matches!(event, TlsmEvent::Filled { .. }) {
        return TlsmState::Filled;
    }
    if current.is_terminal() {
        return current;
    }
    match event {
        TlsmEvent::Sent { .. } => match current {
            TlsmState::Created => TlsmState::Sent,
            _ => current,
        },
        TlsmEvent::Acked { .. } => match current {
            TlsmState::Created | TlsmState::Sent => TlsmState::Acked,
            _ => current,
        },
        TlsmEvent::PartiallyFilled { .. } => TlsmState::PartiallyFilled,
        TlsmEvent::Canceled { .. } => TlsmState::Canceled,
        TlsmEvent::Failed { .. } => TlsmState::Failed,
        TlsmEvent::Filled { .. } => TlsmState::Filled,
    }
}

/// Whether `event` arrives out of the expected order, given the state and timestamps so far.
pub open spec fn out_of_order_spec(state: TlsmState, ts: TlsmTimestamps, event: TlsmEvent) -> bool {
    match event {
        TlsmEvent::Sent { .. } => ts.sent_ts is Some || ts.ack_ts is Some || ts.last_fill_ts is Some
            || tlsm_state_is_terminal(state),
        TlsmEvent::Acked { .. } => ts.sent_ts is None || ts.last_fill_ts is Some || state == TlsmState::Canceled
            || state == TlsmState::Failed,
        TlsmEvent::PartiallyFilled { .. } => ts.ack_ts is None || state == TlsmState::Canceled || state
            == TlsmState::Failed || state == TlsmState::Filled,
        TlsmEvent::Filled { .. } => ts.ack_ts is None || state == TlsmState::Canceled || state
            == TlsmState::Failed || state == TlsmState::Filled,
        TlsmEvent::Canceled { .. } => ts.sent_ts is None || state == TlsmState::Filled,
        TlsmEvent::Failed { .. } => ts.sent_ts is None || state == TlsmState::Filled,
    }
}

pub fn is_out_of_order(state: TlsmState, ts: &TlsmTimestamps, event: &TlsmEvent) -> (r: bool)
    ensures
        r == out_of_order_spec(state, *ts, *event),
{
    match event {
        TlsmEvent::Sent { .. } => {
            ts.sent_ts.is_some() || ts.ack_ts.is_some() || ts.last_fill_ts.is_some() || state.is_terminal()
        },
        TlsmEvent::Acked { .. } => {
            ts.sent_ts.is_none() || ts.last_fill_ts.is_some() || matches!(state, TlsmState::Canceled | TlsmState::Failed)
        },
        TlsmEvent::PartiallyFilled { .. } => {
            ts.ack_ts.is_none() || matches!(state, TlsmState::Canceled | TlsmState::Failed | TlsmState::Filled)
        },
        TlsmEvent::Filled { .. } => {
            ts.ack_ts.is_none() || matches!(state, TlsmState::Canceled | TlsmState::Failed | TlsmState::Filled)
        },
        TlsmEvent::Canceled { .. } => ts.sent_ts.is_none() || matches!(state, TlsmState::Filled),
        TlsmEvent::Failed { .. } => ts.sent_ts.is_none() || matches!(state, TlsmState::Filled),
    }
}

/// Timestamps after an event: the first `Sent` and first `Acked` times stick, and fills
/// keep the latest fill time.
pub open spec fn apply_ts_spec(ts: TlsmTimestamps, event: TlsmEvent) -> TlsmTimestamps {
    match event {
        TlsmEvent::Sent { ts_ms } => TlsmTimestamps {
            sent_ts: if ts.sent_ts is None { Some(ts_ms) } else { ts.sent_ts },
            ..ts
        },
        TlsmEvent::Acked { ts_ms } => TlsmTimestamps {
            ack_ts: if ts.ack_ts is None { Some(ts_ms) } else { ts.ack_ts },
            ..ts
        },
        TlsmEvent::PartiallyFilled { ts_ms } => TlsmTimestamps {
            last_fill_ts: Some(
                match ts.last_fill_ts {
                    Some(e) => if e >= ts_ms { e } else { ts_ms },
                    None => ts_ms,
                },
            ),
            ..ts
        },
        TlsmEvent::Filled { ts_ms } => TlsmTimestamps {
            last_fill_ts: Some(
                match ts.last_fill_ts {
                    Some(e) => if e >= ts_ms { e } else { ts_ms },
                    None => ts_ms,
                },
            ),
            ..ts
        },
        TlsmEvent::Canceled { .. } => ts,
        TlsmEvent::Failed { .. } => ts,
    }
}

pub fn apply_event_ts(ts: &mut TlsmTimestamps, event: &TlsmEvent)
    ensures
        *final(ts) == apply_ts_spec(*old(ts), *event),
{
    match event {
        TlsmEvent::Sent { ts_ms } => {
            if ts.sent_ts.is_none() {
                ts.sent_ts = Some(*ts_ms);
            }
        },
        TlsmEvent::Acked { ts_ms } => {
            if ts.ack_ts.is_none() {
                ts.ack_ts = Some(*ts_ms);
            }
        },
        TlsmEvent::PartiallyFilled { ts_ms } | TlsmEvent::Filled { ts_ms } => {
            let t = *ts_ms;
            ts.last_fill_ts = Some(
                match ts.last_fill_ts {
                    Some(existing) => if existing >= t { existing } else { t },
                    None => t,
                },
            );
        },
        TlsmEvent::Canceled { .. } | TlsmEvent::Failed { .. } => {},
    }
}

/// One step of the order-leg state machine: counts an out-of-order event, folds the event's
/// time into the timestamps, and returns the previous and next state.
pub fn step(
    metrics: &mut TlsmMetrics,
    state: &mut TlsmState,
    ts: &mut TlsmTimestamps,
    event: TlsmEvent,
) -> (r: (TlsmState, TlsmState))
    ensures
        r.0 == *old(state),
        r.1 == next_state_spec(*old(state), event),
        *final(state) == r.1,
        *final(ts) == apply_ts_spec(*old(ts), event),
        final(metrics).count() == (if out_of_order_spec(*old(state), *old(ts), event) {
            bumped(old(metrics).count())
        } else {
            old(metrics).count()
        }),
{
    let from = *state;
    if is_out_of_order(from, ts, &event) {
        metrics.record_out_of_order();
    }
    apply_event_ts(ts, &event);
    let to = next_state(from, &event);
    *state = to;
    (from, to)
}

/// `Filled` is absorbing, and `Canceled`/`Failed` can only be left for `Filled`.
pub proof fn lemma_terminal_states_stick(current: TlsmState, event: TlsmEvent)
    requires
        tlsm_state_is_terminal(current),
    ensures
        next_state_spec(current, event) == current || next_state_spec(current, event) == TlsmState::Filled,
        current == TlsmState::Filled ==> next_state_spec(current, event) == TlsmState::Filled,
{
}

/// The first sent and acknowledged times never change once set, and the last fill
/// time never decreases.
pub proof fn lemma_timestamps_monotone(ts: TlsmTimestamps, event: TlsmEvent)
    ensures
        ts.sent_ts is Some ==> apply_ts_spec(ts, event).sent_ts == ts.sent_ts,
        ts.ack_ts is Some ==> apply_ts_spec(ts, event).ack_ts == ts.ack_ts,
        ts.last_fill_ts matches Some(f) ==> (apply_ts_spec(ts, event).last_fill_ts matches Some(g) && g >= f),
{
}

/// Law (events move the leg): a fill always leaves the leg Filled; on a leg not yet
/// Filled, Canceled or Failed, a cancel leaves it Canceled, a failure Failed and a
/// partial fill PartiallyFilled; a send moves a Created leg to Sent and an
/// acknowledgement moves a Created or Sent leg to Acked.
pub proof fn lemma_events_move_the_leg(current: TlsmState, event: TlsmEvent)
    ensures
        event is Filled ==> next_state_spec(current, event) == TlsmState::Filled,
        (current != TlsmState::Filled && current != TlsmState::Canceled && current != TlsmState::Failed)
            ==> {
            &&& event is Canceled ==> next_state_spec(current, event) == TlsmState::Canceled
            &&& event is Failed ==> next_state_spec(current, event) == TlsmState::Failed
            &&& event is PartiallyFilled ==> next_state_spec(current, event) == TlsmState::PartiallyFilled
        },
        (current == TlsmState::Created && event is Sent) ==> next_state_spec(current, event) == TlsmState::Sent,
        ((current == TlsmState::Created || current == TlsmState::Sent) && event is Acked) ==> next_state_spec(
            current,
            event,
        ) == TlsmState::Acked,
{
}

} // verus!
