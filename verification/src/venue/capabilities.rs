use vstd::prelude::*;

use crate::venue::types::InstrumentKind;

verus! {

/// Name of the environment variable that enables linked orders for the bot.
pub const ENABLE_LINKED_ORDERS_FOR_BOT: &'static str = "ENABLE_LINKED_ORDERS_FOR_BOT";

#[derive(Debug, Clone, Copy, PartialEq, Eq, Structural)]
pub struct VenueCapabilities {
    pub linked_orders_supported: bool,
}

#[derive(Debug, Clone, Copy, PartialEq, Eq, Structural)]
pub struct FeatureFlags {
    pub enable_linked_orders_for_bot: bool,
}

impl Default for VenueCapabilities {
    fn default() -> (c: Self)
        ensures
            !c.linked_orders_supported,
    {
        Self { linked_orders_supported: false }
    }
}

impl VenueCapabilities {
    /// Linked orders need venue support and the bot flag, and are never used on options.
    pub fn linked_orders_supported_for(
        self,
        instrument_kind: InstrumentKind,
        feature_flags: FeatureFlags,
    ) -> (r: bool)
        ensures
            r == (instrument_kind != InstrumentKind::Option && self.linked_orders_supported
                && feature_flags.enable_linked_orders_for_bot),
    {
        match instrument_kind {
            InstrumentKind::Option => false,
            InstrumentKind::LinearFuture
            | InstrumentKind::InverseFuture
            | InstrumentKind::Perpetual => {
                self.linked_orders_supported && feature_flags.enable_linked_orders_for_bot
            },
        }
    }
}

impl Default for FeatureFlags {
    fn default() -> (f: Self)
        ensures
            !f.enable_linked_orders_for_bot,
    {
        Self { enable_linked_orders_for_bot: false }
    }
}

} // verus!
