//! Plain-value readings, as one tick's answers from the operating
//! system. The trusted boundary produces them; the verified engine
//! consumes them, and is proved correct for every possible reading.

use vstd::prelude::*;

verus! {

/// One tick's memory figures, in bytes.
#[derive(Clone, Copy, Debug, PartialEq, Eq, Structural)]
pub struct MemoryReading {
    pub total_memory: u64,
    pub used_memory: u64,
    pub total_swap: u64,
    pub used_swap: u64,
}

/// One interface's per-tick byte counts. The source counters reset at
/// every query interval, so these are deltas, not totals since boot.
#[derive(Clone, Debug, PartialEq, Eq)]
pub struct NetIfReading {
    pub name: String,
    pub received: u64,
    pub transmitted: u64,
}

/// One live process's figures. The floating-point CPU share and the
/// process status are already rendered as text at the trusted boundary;
/// everything else is a plain count.
#[derive(Clone, Debug, PartialEq, Eq)]
pub struct ProcessReading {
    pub cpu_text: String,
    pub pid_text: String,
    pub mem_bytes: u64,
    pub virtual_bytes: u64,
    pub run_time: u64,
    pub status_text: String,
    pub read_bytes: u64,
    pub written_bytes: u64,
    pub cmd: Vec<String>,
}

} // verus!
