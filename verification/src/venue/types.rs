use vstd::prelude::*;

use crate::text::{eq_ignore_ascii_case_spec, str_eq_ignore_ascii_case};

verus! {

#[derive(Debug, Clone, Copy, PartialEq, Eq, Structural)]
pub enum InstrumentKind {
    Option,
    LinearFuture,
    InverseFuture,
    Perpetual,
}

#[derive(Debug, Clone, Copy, PartialEq, Eq, Structural)]
pub enum DeribitInstrumentKind {
    Option,
    Future,
}

#[derive(Debug, Clone, Copy, PartialEq, Eq, Structural)]
pub enum DeribitSettlementPeriod {
    Perpetual,
    Week,
    Month,
    Other,
}

/// Instruments quoted in USDC (any ASCII case) are linear.
pub open spec fn is_linear_quote(quote_currency: Seq<char>) -> bool {
    eq_ignore_ascii_case_spec(quote_currency, seq!['U', 'S', 'D', 'C'])
}

pub open spec fn kind_from_deribit(
    kind: DeribitInstrumentKind,
    settlement_period: DeribitSettlementPeriod,
    quote_currency: Seq<char>,
) -> InstrumentKind {
    match kind {
        DeribitInstrumentKind::Option => InstrumentKind::Option,
        DeribitInstrumentKind::Future => if is_linear_quote(quote_currency) {
            InstrumentKind::LinearFuture
        } else if settlement_period == DeribitSettlementPeriod::Perpetual {
            InstrumentKind::Perpetual
        } else {
            InstrumentKind::InverseFuture
        },
    }
}

impl InstrumentKind {
    pub fn from_deribit(
        kind: DeribitInstrumentKind,
        settlement_period: DeribitSettlementPeriod,
        quote_currency: &str,
    ) -> (r: Self)
        ensures
            r == kind_from_deribit(kind, settlement_period, quote_currency@),
    {
        proof {
            reveal_strlit("USDC");
            assert("USDC"@ =~= seq!['U', 'S', 'D', 'C']);
        }
        let is_linear = str_eq_ignore_ascii_case(quote_currency, "USDC");
        match kind {
            DeribitInstrumentKind::Option => InstrumentKind::Option,
            DeribitInstrumentKind::Future => match settlement_period {
                DeribitSettlementPeriod::Perpetual => {
                    if is_linear {
                        InstrumentKind::LinearFuture
                    } else {
                        InstrumentKind::Perpetual
                    }
                },
                _ => {
                    if is_linear {
                        InstrumentKind::LinearFuture
                    } else {
                        InstrumentKind::InverseFuture
                    }
                },
            },
        }
    }
}

} // verus!
