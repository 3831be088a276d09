pub mod cortex;
