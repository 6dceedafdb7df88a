//! A telemetry counter engine for a device-oriented host process.
//!
//! Counters are incremented per device instance through stable handles,
//! devices register themselves lazily in a registry, and a periodic flush
//! produces an exactly-once delta per counter together with a class-level
//! aggregate that preserves the legacy single-block view.

pub mod emf;
pub mod metrics;
pub mod names;
pub mod netdevice;
