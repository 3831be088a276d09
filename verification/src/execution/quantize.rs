use vstd::prelude::*;

verus! {

#[derive(Debug, Clone, Copy, PartialEq, Eq, Structural)]
pub enum Side {
    Buy,
    Sell,
}

#[derive(Debug, Clone, Copy, PartialEq, Eq, Structural)]
pub enum QuantizeRejectReason {
    TooSmallAfterQuantization,
    InstrumentMetadataMissing,
    InvalidInput,
}

#[derive(Debug, Clone, Copy, PartialEq, Eq, Structural)]
pub struct QuantizeReject {
    pub reason: QuantizeRejectReason,
}

} // verus!
