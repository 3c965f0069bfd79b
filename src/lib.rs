//! Configuration resolution and metrics-registry state of an eBPF metrics exporter.
pub mod config;
pub mod state;
