use vstd::prelude::*;

use crate::execution::intent::IntentClass;
use crate::risk::state::RiskState;

verus! {

/// Deterministic reject reason for expiry/delist guard failures.
#[derive(Debug, Clone, Copy, PartialEq, Eq, Hash, Structural)]
pub enum ExpiryRejectReason {
    InstrumentExpiredOrDelisted,
}

impl ExpiryRejectReason {
    /// The reason code as reported to operators.
    pub fn to_string(&self) -> (s: String)
        ensures
            s@ == "INSTRUMENT_EXPIRED_OR_DELISTED"@,
    {
        match self {
            ExpiryRejectReason::InstrumentExpiredOrDelisted => String::from_str("INSTRUMENT_EXPIRED_OR_DELISTED"),
        }
    }
}

#[derive(Debug, Clone, Copy, PartialEq, Eq, Structural)]
pub struct ExpiryReject {
    pub risk_state: RiskState,
    pub reason: ExpiryRejectReason,
}

/// Derived instrument lifecycle state.
#[derive(Debug, Clone, Copy, PartialEq, Eq, Structural)]
pub enum InstrumentState {
    Active,
    DelistingSoon,
    ExpiredOrDelisted,
}

/// Terminal lifecycle errors returned by venue APIs.
#[derive(Debug, Clone, Copy, PartialEq, Eq, Structural)]
pub enum TerminalLifecycleErrorKind {
    InvalidInstrument,
    NotFound,
    OrderbookClosed,
    InstrumentNotOpen,
}

/// The single rejection this guard produces.
pub open spec fn expiry_reject() -> ExpiryReject {
    ExpiryReject { risk_state: RiskState::Degraded, reason: ExpiryRejectReason::InstrumentExpiredOrDelisted }
}

/// Delisted, or at or past its expiry.
pub open spec fn expired_or_delisted(is_active: bool, expiration_timestamp: Option<i64>, now: i64) -> bool {
    !is_active || (expiration_timestamp matches Some(e) && now >= e)
}

/// `e - buffer`, saturating at the bounds of `i64`.
pub open spec fn sat_sub_i64(e: i64, buffer: i64) -> i64 {
    if e - buffer > i64::MAX {
        i64::MAX
    } else if e - buffer < i64::MIN {
        i64::MIN
    } else {
        (e - buffer) as i64
    }
}

/// Saturating `e - buffer` on `i64`.
pub fn saturating_sub_i64(e: i64, buffer: i64) -> (r: i64)
    ensures
        r == sat_sub_i64(e, buffer),
{
    if buffer >= 0 {
        if e >= i64::MIN + buffer {
            e - buffer
        } else {
            i64::MIN
        }
    } else {
        if e <= i64::MAX + buffer {
            e - buffer
        } else {
            i64::MAX
        }
    }
}

pub open spec fn instrument_state_spec(
    is_active: bool,
    expiration_timestamp: Option<i64>,
    now: i64,
    buffer_ms: i64,
) -> InstrumentState {
    if expired_or_delisted(is_active, expiration_timestamp, now) {
        InstrumentState::ExpiredOrDelisted
    } else if expiration_timestamp matches Some(e) && now >= sat_sub_i64(e, buffer_ms) {
        InstrumentState::DelistingSoon
    } else {
        InstrumentState::Active
    }
}

/// Rejects OPEN intents on expired or delisted instruments; closes and cancels always pass.
pub struct ExpiryGuard;

impl ExpiryGuard {
    pub fn check(
        is_active: bool,
        expiration_timestamp: Option<i64>,
        current_time_ms: i64,
        intent_class: IntentClass,
    ) -> (r: Result<(), ExpiryReject>)
        ensures
            r is Err <==> (intent_class == IntentClass::Open && expired_or_delisted(
                is_active,
                expiration_timestamp,
                current_time_ms,
            )),
            r matches Err(e) ==> e == expiry_reject(),
    {
        if matches!(intent_class, IntentClass::Close | IntentClass::Cancel) {
            return Ok(());
        }
        Self::check_instrument_status(is_active, expiration_timestamp, current_time_ms)
    }

    pub fn check_with_buffer(
        is_active: bool,
        expiration_timestamp: Option<i64>,
        current_time_ms: i64,
        buffer_ms: i64,
        intent_class: IntentClass,
    ) -> (r: Result<(), ExpiryReject>)
        ensures
            r is Err <==> (intent_class == IntentClass::Open && instrument_state_spec(
                is_active,
                expiration_timestamp,
                current_time_ms,
                buffer_ms,
            ) != InstrumentState::Active),
            r matches Err(e) ==> e == expiry_reject(),
    {
        if matches!(intent_class, IntentClass::Close | IntentClass::Cancel) {
            return Ok(());
        }
        match Self::derive_instrument_state(is_active, expiration_timestamp, current_time_ms, buffer_ms) {
            InstrumentState::Active => Ok(()),
            InstrumentState::DelistingSoon | InstrumentState::ExpiredOrDelisted => Err(
                ExpiryReject {
                    risk_state: RiskState::Degraded,
                    reason: ExpiryRejectReason::InstrumentExpiredOrDelisted,
                },
            ),
        }
    }

    fn check_instrument_status(is_active: bool, expiration_timestamp: Option<i64>, current_time_ms: i64) -> (r: Result<
        (),
        ExpiryReject,
    >)
        ensures
            r is Err <==> expired_or_delisted(is_active, expiration_timestamp, current_time_ms),
            r matches Err(e) ==> e == expiry_reject(),
    {
        if !is_active {
            return Err(
                ExpiryReject {
                    risk_state: RiskState::Degraded,
                    reason: ExpiryRejectReason::InstrumentExpiredOrDelisted,
                },
            );
        }
        if let Some(expiry_ms) = expiration_timestamp {
            if current_time_ms >= expiry_ms {
                return Err(
                    ExpiryReject {
                        risk_state: RiskState::Degraded,
                        reason: ExpiryRejectReason::InstrumentExpiredOrDelisted,
                    },
                );
            }
        }
        Ok(())
    }

    pub fn is_expired_or_delisted(is_active: bool, expiration_timestamp: Option<i64>, current_time_ms: i64) -> (r: bool)
        ensures
            r == expired_or_delisted(is_active, expiration_timestamp, current_time_ms),
    {
        Self::check_instrument_status(is_active, expiration_timestamp, current_time_ms).is_err()
    }

    pub fn derive_instrument_state(
        is_active: bool,
        expiration_timestamp: Option<i64>,
        current_time_ms: i64,
        buffer_ms: i64,
    ) -> (s: InstrumentState)
        ensures
            s == instrument_state_spec(is_active, expiration_timestamp, current_time_ms, buffer_ms),
    {
        if !is_active {
            return InstrumentState::ExpiredOrDelisted;
        }
        if let Some(expiry_ms) = expiration_timestamp {
            if current_time_ms >= expiry_ms {
                return InstrumentState::ExpiredOrDelisted;
            }
            if current_time_ms >= saturating_sub_i64(expiry_ms, buffer_ms) {
                return InstrumentState::DelistingSoon;
            }
        }
        InstrumentState::Active
    }

    /// A terminal lifecycle error counts as expired/delisted exactly when the instrument is.
    pub fn handle_terminal_lifecycle_error(
        is_active: bool,
        expiration_timestamp: Option<i64>,
        current_time_ms: i64,
        _error_kind: TerminalLifecycleErrorKind,
    ) -> (r: Option<InstrumentState>)
        ensures
            r == (if expired_or_delisted(is_active, expiration_timestamp, current_time_ms) {
                Some(InstrumentState::ExpiredOrDelisted)
            } else {
                None
            }),
    {
        if Self::is_expired_or_delisted(is_active, expiration_timestamp, current_time_ms) {
            Some(InstrumentState::ExpiredOrDelisted)
        } else {
            None
        }
    }
}

/// The buffered check is never more permissive than the plain one (a non-negative
/// buffer only widens the rejection window), and risk-reducing intents are never refused.
pub proof fn lemma_buffer_only_tightens(
    is_active: bool,
    expiration_timestamp: Option<i64>,
    now: i64,
    buffer_ms: i64,
)
    requires
        buffer_ms >= 0,
    ensures
        expired_or_delisted(is_active, expiration_timestamp, now) ==> instrument_state_spec(
            is_active,
            expiration_timestamp,
            now,
            buffer_ms,
        ) == InstrumentState::ExpiredOrDelisted,
        instrument_state_spec(is_active, expiration_timestamp, now, buffer_ms) == InstrumentState::Active
            ==> !expired_or_delisted(is_active, expiration_timestamp, now),
{
}

} // verus!
