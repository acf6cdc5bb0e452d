//! Metrics engine for a terminal system dashboard.
//!
//! The engine queries the operating system (through `sysinfo`) for CPU,
//! memory, swap, per-interface network and process figures, and turns them
//! into renderer-ready snapshot structures: human-scaled quantities, exact
//! usage ratios, and fixed-length sliding-window histories for throughput
//! charts. All derivation logic is verified; the operating-system queries
//! themselves stand behind small trusted wrappers.

pub mod history;
pub mod os;
pub mod quantity;
pub mod ratio;
pub mod readings;
pub mod system;
pub mod text;
