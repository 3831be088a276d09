pub mod basis_monitor;
pub mod churn_breaker;
pub mod exchange_health;
pub mod expiry_guard;
pub mod exposure_budget;
pub mod fees;
pub mod inventory_skew;
pub mod margin_gate;
pub mod network_jitter;
pub mod self_impact_guard;
pub mod state;
