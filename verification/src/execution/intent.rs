use vstd::prelude::*;

use crate::risk::state::TradingMode;

verus! {

/// What an intent asks the venue to do.
#[derive(Debug, Clone, Copy, PartialEq, Eq, Structural)]
pub enum IntentAction {
    Place,
    Cancel,
    Close,
    Hedge,
    Unknown,
}

/// Risk classification of an intent.
#[derive(Debug, Clone, Copy, PartialEq, Eq, Structural)]
pub enum IntentClass {
    Open,
    Close,
    Cancel,
}

/// Classification from the reduce-only flag alone: only an explicit `Some(true)` closes.
pub open spec fn class_from_reduce_only(reduce_only: Option<bool>) -> IntentClass {
    if reduce_only == Some(true) {
        IntentClass::Close
    } else {
        IntentClass::Open
    }
}

/// Classification from the action and the reduce-only flag.
pub open spec fn class_from_action(action: IntentAction, reduce_only: Option<bool>) -> IntentClass {
    match action {
        IntentAction::Cancel => IntentClass::Cancel,
        IntentAction::Close | IntentAction::Hedge => IntentClass::Close,
        IntentAction::Place => class_from_reduce_only(reduce_only),
        IntentAction::Unknown => class_from_reduce_only(reduce_only),
    }
}

/// Whether an intent of a class may go out under a trading mode.
pub open spec fn class_allowed_in_mode(class: IntentClass, mode: TradingMode) -> bool {
    match class {
        IntentClass::Open => mode == TradingMode::Active,
        IntentClass::Close | IntentClass::Cancel => mode != TradingMode::Kill,
    }
}

impl IntentClass {
    pub fn from_action(action: IntentAction, reduce_only: Option<bool>) -> (c: Self)
        ensures
            c == class_from_action(action, reduce_only),
    {
        match action {
            IntentAction::Cancel => IntentClass::Cancel,
            IntentAction::Close | IntentAction::Hedge => IntentClass::Close,
            IntentAction::Place => {
                if reduce_only == Some(true) {
                    IntentClass::Close
                } else {
                    IntentClass::Open
                }
            },
            IntentAction::Unknown => IntentClass::from_reduce_only(reduce_only),
        }
    }

    pub fn from_reduce_only(reduce_only: Option<bool>) -> (c: Self)
        ensures
            c == class_from_reduce_only(reduce_only),
    {
        if reduce_only == Some(true) {
            IntentClass::Close
        } else {
            IntentClass::Open
        }
    }

    pub fn is_open(self) -> (r: bool)
        ensures
            r == (self == IntentClass::Open),
    {
        matches!(self, IntentClass::Open)
    }

    pub fn allowed_in_mode(self, mode: TradingMode) -> (r: bool)
        ensures
            r == class_allowed_in_mode(self, mode),
    {
        match self {
            IntentClass::Open => mode.allows_open(),
            IntentClass::Close => mode.allows_close(),
            IntentClass::Cancel => mode.allows_cancel(),
        }
    }
}

/// Whatever the mode, an intent that is not an open is never refused where an open is accepted,
/// and nothing is accepted under `Kill` but nothing risk-reducing is refused outside it.
pub proof fn lemma_mode_admits_reducing_intents(class: IntentClass, mode: TradingMode)
    ensures
        class_allowed_in_mode(IntentClass::Open, mode) ==> class_allowed_in_mode(class, mode),
        mode == TradingMode::Kill ==> !class_allowed_in_mode(class, mode),
        (mode != TradingMode::Kill && class != IntentClass::Open) ==> class_allowed_in_mode(class, mode),
{
}

} // verus!
