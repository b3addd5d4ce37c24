//! GPU telemetry harvesting: a normalized metric model, the merge of the
//! driver's per-process usage sources, and the probes that turn native
//! readings into one result bundle.

pub mod apple;
pub mod harvest;
pub mod merge;
pub mod metric;
pub mod nvidia;
pub mod nvml_driver;
pub mod widgets;
