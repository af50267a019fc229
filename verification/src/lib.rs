//! Active-probing latency/loss monitor: the verified measurement core.
//!
//! The library covers the probe/echo wire protocol (an 8-byte timestamp
//! payload), the per-target measurement state (send/receive counters, an
//! in-flight flag, and a bounded latency window), and the metrics
//! computation that turns raw counters into a loss estimate and a
//! time-windowed latency average. Sockets, scheduling, and the metrics
//! exposition transport live outside the library and hand it plain values.

pub mod codec;
pub mod targets;
pub mod store;
pub mod prober;
pub mod receiver;
pub mod metrics;
