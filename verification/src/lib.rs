//! Real-time instrumentation core: typed tracers (counters, histograms,
//! log streams) record events, and deterministic aggregation turns those
//! events into queryable state that a collecting engine can drain (push
//! mode) or poll (pull mode) without ever blocking the recording path.

pub mod arith;
pub mod counter;
pub mod histogram;
pub mod logger;
pub mod metric;
pub mod provider;
pub mod supervisor;
pub mod tracer;
pub mod trusted;
