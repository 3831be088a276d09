use vstd::prelude::*;

verus! {

/// Lifecycle state of a single order leg.
#[derive(Debug, Clone, Copy, PartialEq, Eq, Structural)]
pub enum TlsmState {
    Created,
    Sent,
    Acked,
    PartiallyFilled,
    Filled,
    Canceled,
    Failed,
}

pub open spec fn tlsm_state_is_terminal(s: TlsmState) -> bool {
    s == TlsmState::Filled || s == TlsmState::Canceled || s == TlsmState::Failed
}

pub open spec fn tlsm_state_name(s: TlsmState) -> Seq<char> {
    match s {
        TlsmState::Created => "Created"@,
        TlsmState::Sent => "Sent"@,
        TlsmState::Acked => "Acked"@,
        TlsmState::PartiallyFilled => "PartiallyFilled"@,
        TlsmState::Filled => "Filled"@,
        TlsmState::Canceled => "Canceled"@,
        TlsmState::Failed => "Failed"@,
    }
}

impl TlsmState {
    pub fn is_terminal(self) -> (r: bool)
        ensures
            r == tlsm_state_is_terminal(self),
    {
        matches!(self, TlsmState::Filled | TlsmState::Canceled | TlsmState::Failed)
    }

    pub fn as_str(self) -> (r: &'static str)
        ensures
            r@ == tlsm_state_name(self),
    {
        match self {
            TlsmState::Created => "Created",
            TlsmState::Sent => "Sent",
            TlsmState::Acked => "Acked",
            TlsmState::PartiallyFilled => "PartiallyFilled",
            TlsmState::Filled => "Filled",
            TlsmState::Canceled => "Canceled",
            TlsmState::Failed => "Failed",
        }
    }
}

#[derive(Debug, Clone, Copy, PartialEq, Eq, Structural)]
pub enum TlsmSide {
    Buy,
    Sell,
}

impl TlsmSide {
    pub fn as_str(self) -> (r: &'static str)
        ensures
            r@ == (match self {
                TlsmSide::Buy => "Buy"@,
                TlsmSide::Sell => "Sell"@,
            }),
    {
        match self {
            TlsmSide::Buy => "Buy",
            TlsmSide::Sell => "Sell",
        }
    }
}

/// A venue event for an order leg, stamped with its time in milliseconds.
#[derive(Debug, Clone, Copy, PartialEq, Eq, Structural)]
pub enum TlsmEvent {
    Sent { ts_ms: u64 },
    Acked { ts_ms: u64 },
    PartiallyFilled { ts_ms: u64 },
    Filled { ts_ms: u64 },
    Canceled { ts_ms: u64 },
    Failed { ts_ms: u64 },
}

pub open spec fn event_ts(e: TlsmEvent) -> u64 {
    match e {
        TlsmEvent::Sent { ts_ms } => ts_ms,
        TlsmEvent::Acked { ts_ms } => ts_ms,
        TlsmEvent::PartiallyFilled { ts_ms } => ts_ms,
        TlsmEvent::Filled { ts_ms } => ts_ms,
        TlsmEvent::Canceled { ts_ms } => ts_ms,
        TlsmEvent::Failed { ts_ms } => ts_ms,
    }
}

impl TlsmEvent {
    pub fn ts_ms(&self) -> (r: u64)
        ensures
            r == event_ts(*self),
    {
        match self {
            TlsmEvent::Sent { ts_ms }
            | TlsmEvent::Acked { ts_ms }
            | TlsmEvent::PartiallyFilled { ts_ms }
            | TlsmEvent::Filled { ts_ms }
            | TlsmEvent::Canceled { ts_ms }
            | TlsmEvent::Failed { ts_ms } => *ts_ms,
        }
    }
}

} // verus!
