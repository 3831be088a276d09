pub mod atomic_group_executor;
pub mod build_order_intent;
pub mod dispatch_map;
pub mod emergency_close;
pub mod gate;
pub mod gates;
pub mod group;
pub mod intent;
pub mod order_dispatcher;
pub mod order_size;
pub mod order_type_guard;
pub mod post_only_guard;
pub mod preflight;
pub mod quantize;
pub mod reject;
pub mod sequencer;
pub mod state;
pub mod tlsm;
