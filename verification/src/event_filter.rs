//! Utilities for filtering and processing agent events.
pub use crate::adapters::EventFilter;
pub use crate::adapters::FilteredEvent;
