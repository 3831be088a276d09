//! Correlation buckets of the global exposure budget.

use vstd::prelude::*;

use crate::text::{has_prefix, str_eq, str_starts_with};

verus! {

/// Correlation bucket of an instrument.
#[derive(Debug, Clone, Copy, PartialEq, Eq, Hash, Structural)]
pub enum CorrelationBucket {
    Btc,
    Eth,
    Alts,
}

/// The Unicode upper-case form of a string, as `str::to_uppercase` computes it.
pub uninterp spec fn unicode_uppercase(s: Seq<char>) -> Seq<char>;

/// Calls `str::to_uppercase`, which maps each character to its Unicode upper-case form
/// independently of locale; the result is named by `unicode_uppercase`.
#[verifier::external_body]
fn to_uppercase(s: &str) -> (r: String)
    ensures
        r@ == unicode_uppercase(s@),
{
    s.to_uppercase()
}

/// The bucket of an instrument id that is already upper-cased: "BTC-", "BTC_" or
/// exactly "BTC" is Btc, the same for ETH, everything else Alts.
pub open spec fn bucket_of_upper(u: Seq<char>) -> CorrelationBucket {
    if has_prefix(u, "BTC-"@) || has_prefix(u, "BTC_"@) || u == "BTC"@ {
        CorrelationBucket::Btc
    } else if has_prefix(u, "ETH-"@) || has_prefix(u, "ETH_"@) || u == "ETH"@ {
        CorrelationBucket::Eth
    } else {
        CorrelationBucket::Alts
    }
}

impl CorrelationBucket {
    /// The bucket of an upper-cased instrument id.
    pub fn classify_upper(upper: &str) -> (b: CorrelationBucket)
        ensures
            b == bucket_of_upper(upper@),
    {
        if str_starts_with(upper, "BTC-") || str_starts_with(upper, "BTC_") || str_eq(upper, "BTC") {
            CorrelationBucket::Btc
        } else if str_starts_with(upper, "ETH-") || str_starts_with(upper, "ETH_") || str_eq(
            upper,
            "ETH",
        ) {
            CorrelationBucket::Eth
        } else {
            CorrelationBucket::Alts
        }
    }

    /// The bucket of an instrument id, matched case-insensitively at its start.
    pub fn classify(instrument_id: &str) -> (b: CorrelationBucket)
        ensures
            b == bucket_of_upper(unicode_uppercase(instrument_id@)),
    {
        let upper = to_uppercase(instrument_id);
        Self::classify_upper(upper.as_str())
    }
}

} // verus!
