//! Trusted boundary to the operating-system metrics source, the
//! `sysinfo` crate.
//!
//! Every reading here depends on the machine's live state, so no
//! contract can pin a value down; each wrapper makes one outside query
//! and converts the answer to plain values. The verified engine takes
//! those values as arguments and is proved correct for every possible
//! reading.

use vstd::prelude::*;
use sysinfo::{CpuExt, NetworkExt, ProcessExt, System, SystemExt};
use crate::readings::{NetIfReading, ProcessReading};

verus! {

/// The live handle to the operating-system metrics source.
#[verifier::external_type_specification]
#[verifier::external_body]
pub struct ExSystem(sysinfo::System);

/// The engine's exclusively owned live handle to the metrics source.
/// Opaque outside this crate: nothing but the engine's refresh
/// operations may query or mutate it.
#[derive(Debug)]
pub struct OsHandle {
    pub(crate) sys: sysinfo::System,
}

/// Relies on sysinfo::SystemExt::new_all: a fresh handle with every
/// metric already refreshed once.
#[verifier::external_body]
pub(crate) fn new_system() -> OsHandle {
    OsHandle { sys: System::new_all() }
}

/// Relies on sysinfo::SystemExt::host_name: the machine's hostname, if
/// the operating system reports one.
#[verifier::external_body]
pub(crate) fn query_host_name(h: &OsHandle) -> Option<String> {
    h.sys.host_name()
}

/// Relies on sysinfo::SystemExt::name: the operating system's name, if
/// reported.
#[verifier::external_body]
pub(crate) fn query_os_name(h: &OsHandle) -> Option<String> {
    h.sys.name()
}

/// Relies on sysinfo::SystemExt::os_version: the operating system's
/// version, if reported.
#[verifier::external_body]
pub(crate) fn query_os_version(h: &OsHandle) -> Option<String> {
    h.sys.os_version()
}

/// Relies on sysinfo::SystemExt::kernel_version: the kernel's version,
/// if reported.
#[verifier::external_body]
pub(crate) fn query_kernel_version(h: &OsHandle) -> Option<String> {
    h.sys.kernel_version()
}

/// Relies on sysinfo::SystemExt::refresh_cpu: updates the handle's CPU
/// counters; utilization is measured against the previous refresh.
#[verifier::external_body]
pub(crate) fn refresh_cpu(h: &mut OsHandle) {
    h.sys.refresh_cpu();
}

/// Relies on sysinfo::SystemExt::global_cpu_info and
/// sysinfo::CpuExt::cpu_usage: the all-core-aggregated utilization
/// percentage since the previous CPU refresh — a machine-dependent
/// floating-point reading, carried as decimal text.
#[verifier::external_body]
pub(crate) fn query_global_cpu_usage(h: &OsHandle) -> String {
    format!("{}", h.sys.global_cpu_info().cpu_usage())
}

/// Relies on sysinfo::SystemExt::refresh_memory: updates the handle's
/// memory and swap counters.
#[verifier::external_body]
pub(crate) fn refresh_memory(h: &mut OsHandle) {
    h.sys.refresh_memory();
}

/// Relies on sysinfo::SystemExt::total_memory: total memory in bytes.
#[verifier::external_body]
pub(crate) fn query_total_memory(h: &OsHandle) -> u64 {
    h.sys.total_memory()
}

/// Relies on sysinfo::SystemExt::used_memory: used memory in bytes.
#[verifier::external_body]
pub(crate) fn query_used_memory(h: &OsHandle) -> u64 {
    h.sys.used_memory()
}

/// Relies on sysinfo::SystemExt::total_swap: total swap in bytes.
#[verifier::external_body]
pub(crate) fn query_total_swap(h: &OsHandle) -> u64 {
    h.sys.total_swap()
}

/// Relies on sysinfo::SystemExt::used_swap: used swap in bytes.
#[verifier::external_body]
pub(crate) fn query_used_swap(h: &OsHandle) -> u64 {
    h.sys.used_swap()
}

/// Relies on sysinfo::SystemExt::refresh_networks: updates the
/// handle's per-interface counters; the counts read afterwards are the
/// deltas since the previous network refresh.
#[verifier::external_body]
pub(crate) fn refresh_networks(h: &mut OsHandle) {
    h.sys.refresh_networks();
}

/// Relies on sysinfo::SystemExt::networks together with
/// sysinfo::NetworkExt::received and transmitted: one entry per
/// interface, with the byte counts observed in the last query interval.
#[verifier::external_body]
pub(crate) fn query_networks(h: &OsHandle) -> Vec<NetIfReading> {
    h.sys.networks().into_iter().map(|(name, data)| NetIfReading {
        name: name.clone(),
        received: data.received(),
        transmitted: data.transmitted(),
    }).collect()
}

/// Relies on sysinfo::SystemExt::refresh_processes: requeries the live
/// process table.
#[verifier::external_body]
pub(crate) fn refresh_processes(h: &mut OsHandle) {
    h.sys.refresh_processes();
}

/// Relies on sysinfo::SystemExt::processes and the sysinfo::ProcessExt
/// accessors: one entry per live process.
#[verifier::external_body]
pub(crate) fn query_processes(h: &OsHandle) -> Vec<ProcessReading> {
    h.sys.processes().iter().map(|(pid, p)| ProcessReading {
        cpu_text: format!("{:.1}", p.cpu_usage()),
        pid_text: pid.to_string(),
        mem_bytes: p.memory(),
        virtual_bytes: p.virtual_memory(),
        run_time: p.run_time(),
        status_text: p.status().to_string(),
        read_bytes: p.disk_usage().read_bytes,
        written_bytes: p.disk_usage().written_bytes,
        cmd: p.cmd().to_vec(),
    }).collect()
}

} // verus!
