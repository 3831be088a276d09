pub mod cache;
pub mod capabilities;
pub mod types;
