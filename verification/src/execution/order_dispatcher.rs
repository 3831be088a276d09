//! Order-dispatch value types shared by emergency close and the other execution paths.

use vstd::prelude::*;

verus! {

#[derive(Debug, Clone, Copy, PartialEq, Eq, Structural)]
pub enum OrderSide {
    Buy,
    Sell,
}

#[derive(Debug, Clone, Copy, PartialEq, Eq, Structural)]
pub enum OrderType {
    /// Immediate-or-cancel.
    IOC,
    Limit,
}

#[derive(Debug, Clone, Copy, PartialEq, Eq, Structural)]
pub enum OrderStatus {
    Filled,
    PartiallyFilled,
    Rejected,
    Canceled,
}

/// A failed dispatch, with its message.
#[derive(Debug, Clone)]
pub struct DispatchError {
    pub message: String,
}

impl DispatchError {
    pub fn new(message: &str) -> (e: Self)
        ensures
            e.message@ == message@,
    {
        Self { message: String::from_str(message) }
    }

    /// The error as displayed: "Dispatch error: " followed by the message.
    pub fn to_string(&self) -> (s: String)
        ensures
            s@ == "Dispatch error: "@ + self.message@,
    {
        let mut s = String::from_str("Dispatch error: ");
        s.append(self.message.as_str());
        s
    }
}

/// Dispatcher for tests: every order fills in full.
#[derive(Debug, Clone)]
pub struct TestStubDispatcher;

/// Placeholder for the exchange-backed dispatcher: every dispatch fails.
#[derive(Debug, Clone)]
pub struct ProductionDispatcher {
    _private: bool,
}

impl ProductionDispatcher {
    /// The dispatcher carries no state: every value of it is the one `new` makes.
    pub closed spec fn is_placeholder(&self) -> bool {
        self._private
    }

    pub fn new() -> (d: Self)
        ensures
            d.is_placeholder(),
    {
        Self { _private: true }
    }

    /// The message of the error that a close dispatch returns.
    pub fn close_error() -> (e: DispatchError)
        ensures
            e.message@
                == "ProductionDispatcher::dispatch_close NOT IMPLEMENTED - integrate with exchange API layer"@,
    {
        DispatchError::new(
            "ProductionDispatcher::dispatch_close NOT IMPLEMENTED - integrate with exchange API layer",
        )
    }

    /// The message of the error that a hedge dispatch returns.
    pub fn hedge_error() -> (e: DispatchError)
        ensures
            e.message@
                == "ProductionDispatcher::dispatch_hedge NOT IMPLEMENTED - integrate with exchange API layer"@,
    {
        DispatchError::new(
            "ProductionDispatcher::dispatch_hedge NOT IMPLEMENTED - integrate with exchange API layer",
        )
    }
}

} // verus!
