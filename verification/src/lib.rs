pub mod analytics;
pub mod execution;
pub mod metrics;
pub mod named_table;
pub mod policy;
pub mod recovery;
pub mod reflex;
pub mod risk;
pub mod text;
pub mod venue;
