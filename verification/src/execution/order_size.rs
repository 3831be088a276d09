//! Order-size shape: which quantity is canonical for an instrument kind, and the
//! checks an order size and its exchange amount must pass before any amount is
//! computed.

use vstd::prelude::*;

use crate::venue::types::InstrumentKind;

verus! {

#[derive(Debug, Clone, Copy, PartialEq, Eq, Structural)]
pub enum OrderSizeError {
    /// Both `qty_coin` and `qty_usd` were given.
    BothCanonical,
    /// The canonical quantity for the instrument kind was missing.
    MissingCanonical,
    /// The index price was not finite and positive.
    InvalidIndexPrice,
}

/// The unit in which an instrument's size is canonical.
#[derive(Debug, Clone, Copy, PartialEq, Eq, Structural)]
pub enum SizeUnit {
    /// Options and linear futures are sized in coin.
    Coin,
    /// Perpetuals and inverse futures are sized in USD.
    Usd,
}

pub open spec fn canonical_unit_of(kind: InstrumentKind) -> SizeUnit {
    match kind {
        InstrumentKind::Option | InstrumentKind::LinearFuture => SizeUnit::Coin,
        InstrumentKind::Perpetual | InstrumentKind::InverseFuture => SizeUnit::Usd,
    }
}

pub fn canonical_unit(kind: InstrumentKind) -> (u: SizeUnit)
    ensures
        u == canonical_unit_of(kind),
{
    match kind {
        InstrumentKind::Option | InstrumentKind::LinearFuture => SizeUnit::Coin,
        InstrumentKind::Perpetual | InstrumentKind::InverseFuture => SizeUnit::Usd,
    }
}

/// The outcome of building an order size, from which quantities were given and
/// whether the index price is positive: both quantities is refused first, then a
/// missing canonical quantity, then (for coin-sized kinds, whose notional is priced
/// at the index) a price that is not positive.
pub open spec fn order_size_check_spec(
    kind: InstrumentKind,
    has_qty_coin: bool,
    has_qty_usd: bool,
    index_price_positive: bool,
) -> Result<SizeUnit, OrderSizeError> {
    if has_qty_coin && has_qty_usd {
        Err(OrderSizeError::BothCanonical)
    } else {
        match canonical_unit_of(kind) {
            SizeUnit::Coin => if !has_qty_coin {
                Err(OrderSizeError::MissingCanonical)
            } else if !index_price_positive {
                Err(OrderSizeError::InvalidIndexPrice)
            } else {
                Ok(SizeUnit::Coin)
            },
            SizeUnit::Usd => if !has_qty_usd {
                Err(OrderSizeError::MissingCanonical)
            } else {
                Ok(SizeUnit::Usd)
            },
        }
    }
}

pub fn check_order_size(
    kind: InstrumentKind,
    has_qty_coin: bool,
    has_qty_usd: bool,
    index_price_positive: bool,
) -> (r: Result<SizeUnit, OrderSizeError>)
    ensures
        r == order_size_check_spec(kind, has_qty_coin, has_qty_usd, index_price_positive),
{
    if has_qty_coin && has_qty_usd {
        return Err(OrderSizeError::BothCanonical);
    }
    match canonical_unit(kind) {
        SizeUnit::Coin => {
            if !has_qty_coin {
                Err(OrderSizeError::MissingCanonical)
            } else if !index_price_positive {
                Err(OrderSizeError::InvalidIndexPrice)
            } else {
                Ok(SizeUnit::Coin)
            }
        },
        SizeUnit::Usd => {
            if !has_qty_usd {
                Err(OrderSizeError::MissingCanonical)
            } else {
                Ok(SizeUnit::Usd)
            }
        },
    }
}

/// Why an order size could not be mapped to an exchange amount.
#[derive(Debug, Clone, Copy, PartialEq, Eq, Structural)]
pub enum UnitMismatch {
    BothQty,
    InvalidIndexPrice,
    MissingCanonical,
    MissingMultiplierForValidation,
    ContractsMismatch,
}

impl UnitMismatch {
    pub fn as_str(self) -> (r: &'static str)
        ensures
            r@ == (match self {
                UnitMismatch::BothQty => "both_qty"@,
                UnitMismatch::InvalidIndexPrice => "invalid_index_price"@,
                UnitMismatch::MissingCanonical => "missing_canonical"@,
                UnitMismatch::MissingMultiplierForValidation => "missing_multiplier_for_validation"@,
                UnitMismatch::ContractsMismatch => "contracts_mismatch"@,
            }),
    {
        match self {
            UnitMismatch::BothQty => "both_qty",
            UnitMismatch::InvalidIndexPrice => "invalid_index_price",
            UnitMismatch::MissingCanonical => "missing_canonical",
            UnitMismatch::MissingMultiplierForValidation => "missing_multiplier_for_validation",
            UnitMismatch::ContractsMismatch => "contracts_mismatch",
        }
    }
}

/// The checks before an order size is mapped to an exchange amount: both quantities
/// is refused first; USD-sized kinds, whose coin quantity is derived through the
/// index price, then need a positive price; then the canonical quantity must be
/// there; and where a contract count is given, a multiplier to check it against.
/// The remaining check, that the count agrees with the amount, is on the amount
/// itself.
pub open spec fn amount_mapping_check_spec(
    kind: InstrumentKind,
    has_qty_coin: bool,
    has_qty_usd: bool,
    index_price_positive: bool,
    has_contracts: bool,
    has_multiplier: bool,
) -> Result<SizeUnit, UnitMismatch> {
    let unit = canonical_unit_of(kind);
    if has_qty_coin && has_qty_usd {
        Err(UnitMismatch::BothQty)
    } else if unit == SizeUnit::Usd && !index_price_positive {
        Err(UnitMismatch::InvalidIndexPrice)
    } else if (unit == SizeUnit::Coin && !has_qty_coin) || (unit == SizeUnit::Usd && !has_qty_usd) {
        Err(UnitMismatch::MissingCanonical)
    } else if has_contracts && !has_multiplier {
        Err(UnitMismatch::MissingMultiplierForValidation)
    } else {
        Ok(unit)
    }
}

pub fn check_amount_mapping(
    kind: InstrumentKind,
    has_qty_coin: bool,
    has_qty_usd: bool,
    index_price_positive: bool,
    has_contracts: bool,
    has_multiplier: bool,
) -> (r: Result<SizeUnit, UnitMismatch>)
    ensures
        r == amount_mapping_check_spec(
            kind,
            has_qty_coin,
            has_qty_usd,
            index_price_positive,
            has_contracts,
            has_multiplier,
        ),
{
    if has_qty_coin && has_qty_usd {
        return Err(UnitMismatch::BothQty);
    }
    let unit = canonical_unit(kind);
    let has_canonical = match unit {
        SizeUnit::Coin => has_qty_coin,
        SizeUnit::Usd => {
            if !index_price_positive {
                return Err(UnitMismatch::InvalidIndexPrice);
            }
            has_qty_usd
        },
    };
    if !has_canonical {
        return Err(UnitMismatch::MissingCanonical);
    }
    if has_contracts && !has_multiplier {
        return Err(UnitMismatch::MissingMultiplierForValidation);
    }
    Ok(unit)
}

} // verus!
