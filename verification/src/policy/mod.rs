pub mod canonical_json;
pub mod cert_json;
pub mod digest;
pub mod f1_gate;
pub mod guard;
pub mod watchdog;
