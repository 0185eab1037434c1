//! Device discovery and connection core of a telemetry relay: device
//! addresses and filters, a deduplicating device registry, a metadata
//! database for vendor codes and identifiers, the byte formatting used for
//! characteristic values, and the decision steps of the scan and connect
//! loops.
pub mod address;
pub mod text;
pub mod format;
pub mod db;
pub mod registry;
pub mod engine;
pub mod relay;
pub mod homer_core;
pub mod listing;
pub use crate::homer_core::Metric;
