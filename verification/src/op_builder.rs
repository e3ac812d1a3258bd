//! Builder utilities for constructing agent operations.
pub use crate::adapters::OpBuilder;
