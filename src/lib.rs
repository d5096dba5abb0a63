//! Process resource recording: a metric model with exact time-unit
//! conversions, a Linux metric source read through procfs, the snapshot
//! rules of the macOS and Windows sources over what their accounting calls
//! report, encoding of captured output, and the decisions that drive a
//! recording run.

pub mod metrics;
pub mod readings;
pub mod linux;
pub mod macos;
pub mod windows;
pub mod payload;
pub mod run;
pub mod timeunits;
