//! Checks and helpers shared by the operations.

pub mod buffer_times;
pub mod utils;
pub mod validate_cpi_invocation;
