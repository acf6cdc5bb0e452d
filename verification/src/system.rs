//! The metrics engine: snapshot stores, per-tick refreshes, and the
//! process-table projection.

use vstd::prelude::*;
use vstd::arithmetic::div_mod::{
    lemma_div_is_ordered, lemma_div_is_ordered_by_denominator, lemma_fundamental_div_mod,
    lemma_hoist_over_denominator, lemma_small_mod,
};
use vstd::arithmetic::mul::lemma_mul_upper_bound;
use vstd::string::StringExecFns;
use crate::history::History;
use crate::os;
use crate::quantity::{den_of, lemma_den_values, lemma_scale_invariant, spec_den, spec_level,
    spec_size_text, Size};
use crate::ratio::Ratio;
use crate::readings::{MemoryReading, NetIfReading, ProcessReading};
use crate::text::{digit_str, join_spaces, spec_digit_char, spec_digits, spec_join_spaces,
    u64_string};

verus! {

/// The memory and swap snapshot: scaled quantities for display, and the
/// exact usage figures derived from the latest reading.
#[derive(Clone, Copy, Debug, PartialEq, Eq, Structural)]
pub struct AppMemoryInfo {
    pub total_memory: Size,
    pub used_memory: Size,
    pub total_swap: Size,
    pub used_swap: Size,
    pub swap_usage: Ratio,
    pub memory_usage: Ratio,
}

/// Raw memory counters kept side by side, in bytes.
#[derive(Clone, Copy, Debug, PartialEq, Eq, Structural)]
pub struct AppCPUInfo {
    pub total_memory: u64,
    pub used_memory: u64,
    pub total_swap: u64,
    pub used_swap: u64,
}

/// The network snapshot: two 300-sample sliding windows of per-tick
/// totals, the per-interface detail of the latest tick, and the latest
/// tick's totals.
#[derive(Clone, Debug)]
pub struct AppNetworkInfo {
    pub received_list: History,
    pub transmitted_list: History,
    pub detail: Vec<NetIfReading>,
    pub received: u64,
    pub transmitted: u64,
}

/// The ratio of two scaled magnitudes, used over total: each magnitude
/// is `raw / den(level)`, so the quotient is `(used.raw * den(total.level))
/// / (total.raw * den(used.level))`. Comparing post-scaling magnitudes is
/// unit-unsafe when the two land in different tiers; that approximation
/// is kept deliberately, as the swap-usage figure is specified this way.
pub open spec fn spec_magnitude_ratio(used: Size, total: Size) -> Ratio {
    Ratio {
        num: (used.raw * spec_den(total.level)) as u128,
        den: (total.raw * spec_den(used.level)) as u128,
    }
}

impl AppMemoryInfo {
    /// All four scaled quantities carry the unit their raw count scales
    /// to.
    pub open spec fn wf(self) -> bool {
        self.total_memory.wf() && self.used_memory.wf() && self.total_swap.wf()
            && self.used_swap.wf()
    }

    /// How one observed memory reading transforms the snapshot:
    /// - the totals' quantities are kept from construction time;
    /// - used memory and used swap are rescaled from the reading;
    /// - the memory usage is exactly `used / total * 100`;
    /// - with no swap configured the swap usage is exactly zero, else it
    ///   is the ratio of the used-swap and total-swap magnitudes.
    pub open spec fn spec_applied(prev: AppMemoryInfo, rd: MemoryReading, cur: AppMemoryInfo) -> bool {
        &&& cur.total_memory == prev.total_memory
        &&& cur.total_swap == prev.total_swap
        &&& cur.used_memory == (Size { raw: rd.used_memory, level: spec_level(rd.used_memory) })
        &&& cur.used_swap == (Size { raw: rd.used_swap, level: spec_level(rd.used_swap) })
        &&& cur.memory_usage == (Ratio {
            num: (rd.used_memory * 100) as u128,
            den: rd.total_memory as u128,
        })
        &&& (rd.total_swap == 0 ==> cur.swap_usage == (Ratio { num: 0, den: 1 }))
        &&& (rd.total_swap != 0 ==> cur.swap_usage == spec_magnitude_ratio(
            cur.used_swap,
            prev.total_swap,
        ))
    }

    /// Applies one memory reading; a missing reading leaves every field
    /// stale, never partially overwritten.
    pub fn apply_reading(&mut self, reading: Option<MemoryReading>)
        requires
            old(self).wf(),
        ensures
            final(self).wf(),
            reading is None ==> *final(self) == *old(self),
            reading matches Some(rd) ==> Self::spec_applied(*old(self), rd, *final(self)),
    {
        match reading {
            None => {},
            Some(rd) => {
                self.used_memory = Size::convent_from(rd.used_memory);
                self.memory_usage = Ratio {
                    num: (rd.used_memory as u128) * 100,
                    den: rd.total_memory as u128,
                };
                self.used_swap = Size::convent_from(rd.used_swap);
                if rd.total_swap == 0 {
                    self.swap_usage = Ratio::zero();
                } else {
                    self.swap_usage = magnitude_ratio(self.used_swap, self.total_swap);
                }
            },
        }
    }
}

/// Memory-usage law: once a reading with a non-zero total is applied,
/// the stored percentage is exactly `used_memory / total_memory * 100`,
/// as the finite rational `used_memory * 100 / total_memory`.
pub proof fn lemma_memory_usage_formula(prev: AppMemoryInfo, rd: MemoryReading, cur: AppMemoryInfo)
    requires
        AppMemoryInfo::spec_applied(prev, rd, cur),
        rd.total_memory > 0,
    ensures
        cur.memory_usage.den != 0,
        cur.memory_usage.num == rd.used_memory * 100,
        cur.memory_usage.den == rd.total_memory,
{
}

/// Swap-disabled law: if the reading says there is no swap at all, the
/// applied snapshot carries a swap usage of exactly zero.
pub proof fn lemma_swap_disabled(prev: AppMemoryInfo, rd: MemoryReading, cur: AppMemoryInfo)
    requires
        AppMemoryInfo::spec_applied(prev, rd, cur),
        rd.total_swap == 0,
    ensures
        cur.swap_usage == (Ratio { num: 0, den: 1 }),
{
}

/// The ratio of two scaled magnitudes as an exact rational.
fn magnitude_ratio(used: Size, total: Size) -> (r: Ratio)
    requires
        used.wf(),
        total.wf(),
    ensures
        r == spec_magnitude_ratio(used, total),
{
    proof {
        lemma_den_values();
        lemma_scale_invariant(used.raw);
        lemma_scale_invariant(total.raw);
        lemma_mul_upper_bound(used.raw as int, u64::MAX as int, spec_den(total.level) as int, 8796093022208);
        lemma_mul_upper_bound(total.raw as int, u64::MAX as int, spec_den(used.level) as int, 8796093022208);
    }
    let num: u128 = (used.raw as u128) * (den_of(total.level) as u128);
    let den: u128 = (total.raw as u128) * (den_of(used.level) as u128);
    Ratio { num, den }
}

/// The per-tick total of the received counters, accumulated with 64-bit
/// wraparound on overflow.
pub open spec fn spec_total_received(s: Seq<NetIfReading>) -> u64
    decreases s.len(),
{
    if s.len() == 0 {
        0u64
    } else {
        ((spec_total_received(s.drop_last()) + s.last().received) % 0x10000000000000000) as u64
    }
}

/// The per-tick total of the transmitted counters, accumulated with
/// 64-bit wraparound on overflow.
pub open spec fn spec_total_transmitted(s: Seq<NetIfReading>) -> u64
    decreases s.len(),
{
    if s.len() == 0 {
        0u64
    } else {
        ((spec_total_transmitted(s.drop_last()) + s.last().transmitted) % 0x10000000000000000) as u64
    }
}

impl AppNetworkInfo {
    /// Both sliding windows are in their proper 300-sample shape.
    pub open spec fn wf(self) -> bool {
        self.received_list.wf() && self.transmitted_list.wf()
    }

    /// How one observed tick of interface readings transforms the
    /// snapshot:
    /// - the per-interface detail is replaced wholesale, never merged;
    /// - the totals are the sums over the tick's readings;
    /// - each total is pushed onto the front of its sliding window and
    ///   the window's oldest sample is evicted.
    pub open spec fn spec_applied(prev: AppNetworkInfo, rd: Seq<NetIfReading>, cur: AppNetworkInfo) -> bool {
        &&& cur.detail@ == rd
        &&& cur.received == spec_total_received(rd)
        &&& cur.transmitted == spec_total_transmitted(rd)
        &&& cur.received_list@ == seq![cur.received] + prev.received_list@.take(299)
        &&& cur.transmitted_list@ == seq![cur.transmitted] + prev.transmitted_list@.take(299)
    }

    /// Applies one tick of interface readings; a missing reading leaves
    /// the whole snapshot stale.
    pub fn apply_reading(&mut self, reading: Option<Vec<NetIfReading>>)
        requires
            old(self).wf(),
        ensures
            final(self).wf(),
            reading is None ==> *final(self) == *old(self),
            reading matches Some(v) ==> Self::spec_applied(*old(self), v@, *final(self)),
            final(self).received_list@.len() == 300,
            final(self).transmitted_list@.len() == 300,
    {
        proof {
            crate::history::lemma_history_len(&self.received_list);
            crate::history::lemma_history_len(&self.transmitted_list);
        }
        match reading {
            None => {},
            Some(v) => {
                let mut received: u64 = 0;
                let mut transmitted: u64 = 0;
                let mut i: usize = 0;
                while i < v.len()
                    invariant
                        i <= v.len(),
                        received == spec_total_received(v@.take(i as int)),
                        transmitted == spec_total_transmitted(v@.take(i as int)),
                    decreases v.len() - i,
                {
                    proof {
                        assert(v@.take(i + 1).drop_last() =~= v@.take(i as int));
                        assert(v@.take(i + 1).last() == v@[i as int]);
                    }
                    received = received.wrapping_add(v[i].received);
                    transmitted = transmitted.wrapping_add(v[i].transmitted);
                    i += 1;
                }
                proof {
                    assert(v@.take(v@.len() as int) =~= v@);
                }
                self.received = received;
                self.transmitted = transmitted;
                self.received_list.record(received);
                self.transmitted_list.record(transmitted);
                self.detail = v;
            },
        }
    }
}

/// The engine. It owns the single live handle to the operating-system
/// metrics source, the immutable system identity, and every snapshot;
/// the renderer reads the snapshots by reference and must not mutate
/// them.
#[derive(Debug)]
pub struct AppSystemInfo {
    /// The live handle; opaque, and never to be touched by the renderer.
    pub sys: os::OsHandle,
    pub hostname: String,
    pub os_name: String,
    pub os_version: String,
    pub kernel_version: String,
    /// The latest all-core CPU utilization percentage, as the decimal
    /// text of the machine-dependent floating-point reading.
    pub global_cpu_usage: String,
    pub memory_info: AppMemoryInfo,
    pub network_info: AppNetworkInfo,
}

/// The immutable-after-construction system identity is untouched.
pub open spec fn spec_identity_unchanged(a: AppSystemInfo, b: AppSystemInfo) -> bool {
    &&& b.hostname == a.hostname
    &&& b.os_name == a.os_name
    &&& b.os_version == a.os_version
    &&& b.kernel_version == a.kernel_version
}

/// The identity fallback: an identity field the operating system does
/// not report reads "Unknown".
pub fn unknown_or(v: Option<String>) -> (r: String)
    ensures
        v matches Some(s) ==> r == s,
        v is None ==> r@ == "Unknown"@,
{
    match v {
        Some(s) => s,
        None => String::from_str("Unknown"),
    }
}

impl AppSystemInfo {
    /// The snapshots are well formed.
    pub open spec fn wf(self) -> bool {
        self.memory_info.wf() && self.network_info.wf()
    }
}

impl Default for AppSystemInfo {
    /// Builds the engine: one live handle with every metric refreshed
    /// once, the identity captured (or "Unknown"), the memory and swap
    /// totals scaled, and zeroed usage figures and histories.
    fn default() -> (r: AppSystemInfo)
        ensures
            r.wf(),
            r.network_info.received_list@ == Seq::new(300, |i: int| 0u64),
            r.network_info.transmitted_list@ == Seq::new(300, |i: int| 0u64),
            r.network_info.detail@ == Seq::<NetIfReading>::empty(),
            r.network_info.received == 0,
            r.network_info.transmitted == 0,
            r.memory_info.used_memory == (Size { raw: 0, level: 1 }),
            r.memory_info.used_swap == (Size { raw: 0, level: 1 }),
            r.memory_info.swap_usage == (Ratio { num: 0, den: 1 }),
            r.memory_info.memory_usage == (Ratio { num: 0, den: 1 }),
    {
        let sys = os::new_system();
        let hostname = unknown_or(os::query_host_name(&sys));
        let os_name = unknown_or(os::query_os_name(&sys));
        let os_version = unknown_or(os::query_os_version(&sys));
        let kernel_version = unknown_or(os::query_kernel_version(&sys));
        let total_memory = os::query_total_memory(&sys);
        let total_swap = os::query_total_swap(&sys);
        AppSystemInfo {
            sys,
            hostname,
            os_name,
            os_version,
            kernel_version,
            global_cpu_usage: String::new(),
            memory_info: AppMemoryInfo {
                total_memory: Size::convent_from(total_memory),
                used_memory: Size::convent_from(0),
                total_swap: Size::convent_from(total_swap),
                used_swap: Size::convent_from(0),
                swap_usage: Ratio::zero(),
                memory_usage: Ratio::zero(),
            },
            network_info: AppNetworkInfo {
                received_list: History::new(),
                transmitted_list: History::new(),
                detail: Vec::new(),
                received: 0,
                transmitted: 0,
            },
        }
    }
}

impl AppSystemInfo {
    /// Applies one CPU reading; a missing reading leaves the figure
    /// stale.
    pub fn apply_cpu_reading(&mut self, reading: Option<String>)
        requires
            old(self).wf(),
        ensures
            final(self).wf(),
            reading is None ==> *final(self) == *old(self),
            reading matches Some(t) ==> final(self).global_cpu_usage == t,
            final(self).memory_info == old(self).memory_info,
            final(self).network_info == old(self).network_info,
            spec_identity_unchanged(*old(self), *final(self)),
    {
        match reading {
            None => {},
            Some(t) => {
                self.global_cpu_usage = t;
            },
        }
    }

    /// Queries the global, all-core-aggregated CPU utilization and
    /// overwrites the stored figure. The value is a machine-dependent
    /// reading, so the contract promises only that nothing else moves.
    pub fn refresh_global_cpu_usage(&mut self)
        requires
            old(self).wf(),
        ensures
            final(self).wf(),
            final(self).memory_info == old(self).memory_info,
            final(self).network_info == old(self).network_info,
            spec_identity_unchanged(*old(self), *final(self)),
    {
        os::refresh_cpu(&mut self.sys);
        let txt = os::query_global_cpu_usage(&self.sys);
        self.apply_cpu_reading(Some(txt));
    }

    /// Queries total and used memory and swap and applies the reading
    /// to the memory snapshot; nothing else moves.
    pub fn refresh_memory_info(&mut self)
        requires
            old(self).wf(),
        ensures
            final(self).wf(),
            exists|rd: MemoryReading|
                AppMemoryInfo::spec_applied(old(self).memory_info, rd, final(self).memory_info),
            final(self).network_info == old(self).network_info,
            final(self).global_cpu_usage == old(self).global_cpu_usage,
            spec_identity_unchanged(*old(self), *final(self)),
    {
        os::refresh_memory(&mut self.sys);
        let rd = MemoryReading {
            total_memory: os::query_total_memory(&self.sys),
            used_memory: os::query_used_memory(&self.sys),
            total_swap: os::query_total_swap(&self.sys),
            used_swap: os::query_used_swap(&self.sys),
        };
        self.memory_info.apply_reading(Some(rd));
        proof {
            assert(AppMemoryInfo::spec_applied(old(self).memory_info, rd, self.memory_info));
        }
    }

    /// Queries every interface's per-tick counters and applies the tick
    /// to the network snapshot, then hands the snapshot back read-only;
    /// nothing else moves.
    pub fn refresh_network_info(&mut self) -> (r: &AppNetworkInfo)
        requires
            old(self).wf(),
        ensures
            final(self).wf(),
            exists|rd: Seq<NetIfReading>|
                AppNetworkInfo::spec_applied(old(self).network_info, rd, final(self).network_info),
            final(self).network_info.received_list@.len() == 300,
            final(self).network_info.transmitted_list@.len() == 300,
            final(self).memory_info == old(self).memory_info,
            final(self).global_cpu_usage == old(self).global_cpu_usage,
            spec_identity_unchanged(*old(self), *final(self)),
            *r == final(self).network_info,
    {
        os::refresh_networks(&mut self.sys);
        let v = os::query_networks(&self.sys);
        let ghost rd: Seq<NetIfReading> = v@;
        self.network_info.apply_reading(Some(v));
        proof {
            assert(AppNetworkInfo::spec_applied(old(self).network_info, rd, self.network_info));
        }
        &self.network_info
    }

    /// The single per-tick entry point: refreshes CPU, then memory,
    /// then network, in that fixed order, exactly once each. The
    /// process table is not refreshed here — it is rebuilt lazily by
    /// `get_process_info`, being the most expensive query.
    pub fn refresh_all(&mut self)
        requires
            old(self).wf(),
        ensures
            final(self).wf(),
            spec_identity_unchanged(*old(self), *final(self)),
            exists|rd: MemoryReading|
                AppMemoryInfo::spec_applied(old(self).memory_info, rd, final(self).memory_info),
            exists|rd: Seq<NetIfReading>|
                AppNetworkInfo::spec_applied(old(self).network_info, rd, final(self).network_info),
            final(self).network_info.received_list@.len() == 300,
            final(self).network_info.transmitted_list@.len() == 300,
    {
        self.refresh_global_cpu_usage();
        self.refresh_memory_info();
        self.refresh_network_info();
    }

    /// Rebuilds the process table from a fresh query of the live
    /// process list: the fixed, ordered column labels and one row of
    /// ten display cells per process. Nothing is cached, and no row
    /// order is imposed beyond the order the readings arrive in.
    pub fn get_process_info(&mut self) -> (r: (Vec<&'static str>, Vec<Vec<String>>))
        requires
            old(self).wf(),
        ensures
            final(self).wf(),
            r.0@.map_values(|s: &str| s@) == spec_columns(),
            exists|rds: Seq<ProcessReading>, tm: u64| spec_rows_ok(rds, tm, r.1@),
            final(self).memory_info == old(self).memory_info,
            final(self).network_info == old(self).network_info,
            final(self).global_cpu_usage == old(self).global_cpu_usage,
            spec_identity_unchanged(*old(self), *final(self)),
    {
        os::refresh_processes(&mut self.sys);
        let readings = os::query_processes(&self.sys);
        let total = os::query_total_memory(&self.sys);
        let cols = columns();
        let mut rows: Vec<Vec<String>> = Vec::new();
        let mut i: usize = 0;
        while i < readings.len()
            invariant
                i <= readings.len(),
                rows@.len() == i,
                forall|j: int|
                    0 <= j < i ==> spec_row(
                        readings@[j],
                        total,
                        (#[trigger] rows@[j])@.map_values(|s: String| s@),
                    ),
            decreases readings.len() - i,
        {
            rows.push(process_row(&readings[i], total));
            i += 1;
        }
        let result = (cols, rows);
        proof {
            assert(spec_rows_ok(readings@, total, result.1@));
        }
        result
    }
}

/// The fixed, ordered process-table column labels.
pub open spec fn spec_columns() -> Seq<Seq<char>> {
    seq![
        "CPU%"@,
        "MEM%"@,
        "PID"@,
        "VIRT"@,
        "RES"@,
        "TIME+"@,
        "S"@,
        "R/s"@,
        "W/s"@,
        "Command"@,
    ]
}

/// The column labels as display values.
fn columns() -> (r: Vec<&'static str>)
    ensures
        r@.map_values(|s: &str| s@) == spec_columns(),
{
    let mut r: Vec<&'static str> = Vec::new();
    r.push("CPU%");
    r.push("MEM%");
    r.push("PID");
    r.push("VIRT");
    r.push("RES");
    r.push("TIME+");
    r.push("S");
    r.push("R/s");
    r.push("W/s");
    r.push("Command");
    proof {
        assert(r@.map_values(|s: &str| s@) =~= spec_columns());
    }
    r
}

/// The value `num / den` in tenths, rounded half-up.
pub open spec fn spec_tenths(num: u64, den: u64) -> nat
    recommends
        den > 0,
{
    ((num as nat) * 10 + (den as nat) / 2) / (den as nat)
}

/// The memory share a process row shows: resident over total bytes,
/// deliberately without the conventional per-cent scaling — a
/// carried-over quirk kept as specified; whether a percentage was meant
/// is an open question — rounded half-up to one decimal digit. Reads
/// "NaN" when the reported total is zero, the tolerated non-finite
/// edge.
pub open spec fn spec_frac1_text(num: u64, den: u64) -> Seq<char> {
    if den == 0 {
        "NaN"@
    } else {
        spec_digits(spec_tenths(num, den) / 10) + seq![
            '.',
            spec_digit_char(spec_tenths(num, den) % 10),
        ]
    }
}

/// One renderer-ready process row: the ten cells, in column order —
/// CPU share text, memory share, process id, scaled virtual and
/// resident sizes, whole seconds of run time, status, scaled
/// per-tick disk read and write counts, and the space-joined command
/// line.
pub open spec fn spec_row(rd: ProcessReading, total_memory: u64, row: Seq<Seq<char>>) -> bool {
    &&& row.len() == 10
    &&& row[0] == rd.cpu_text@
    &&& row[1] == spec_frac1_text(rd.mem_bytes, total_memory)
    &&& row[2] == rd.pid_text@
    &&& row[3] == spec_size_text(Size { raw: rd.virtual_bytes, level: spec_level(rd.virtual_bytes) })
    &&& row[4] == spec_size_text(Size { raw: rd.mem_bytes, level: spec_level(rd.mem_bytes) })
    &&& row[5] == spec_digits(rd.run_time as nat)
    &&& row[6] == rd.status_text@
    &&& row[7] == spec_size_text(Size { raw: rd.read_bytes, level: spec_level(rd.read_bytes) })
    &&& row[8] == spec_size_text(Size { raw: rd.written_bytes, level: spec_level(rd.written_bytes) })
    &&& row[9] == spec_join_spaces(rd.cmd@.map_values(|s: String| s@))
}

/// A whole process table is the row projection of some sequence of
/// readings against one total-memory figure.
pub open spec fn spec_rows_ok(rds: Seq<ProcessReading>, total_memory: u64, rows: Seq<Vec<String>>) -> bool {
    &&& rows.len() == rds.len()
    &&& forall|i: int|
        0 <= i < rds.len() ==> spec_row(
            rds[i],
            total_memory,
            (#[trigger] rows[i])@.map_values(|s: String| s@),
        )
}

/// Splitting the rounded tenths at the divisor: the whole quotient
/// contributes its ten-fold, and the remainder contributes the rounded
/// fractional tenths, which never exceed 10.
proof fn lemma_frac_split(num: u64, den: u64)
    requires
        den >= 1,
    ensures
        spec_tenths(num, den) == (num as int / den as int) * 10 + ((num as int % den as int) * 10
            + den as int / 2) / den as int,
        ((num as int % den as int) * 10 + den as int / 2) / den as int <= 10,
{
    let n = num as int;
    let d = den as int;
    let q = n / d;
    let r2 = n % d;
    lemma_fundamental_div_mod(n, d);
    assert(n == d * q + r2);
    assert(n * 10 == r2 * 10 + (q * 10) * d) by (nonlinear_arith)
        requires
            n == d * q + r2,
    ;
    lemma_hoist_over_denominator(r2 * 10 + d / 2, q * 10, den as nat);
    assert((r2 * 10 + d / 2) / d + q * 10 == (n * 10 + d / 2) / d);
    assert(r2 * 10 + d / 2 <= 11 * d - 1) by (nonlinear_arith)
        requires
            0 <= r2 < d,
            d >= 1,
    ;
    assert((11 * d - 1) / d == 10) by {
        lemma_hoist_over_denominator(d - 1, 10, den as nat);
        assert(d - 1 + 10 * d == 11 * d - 1);
        assert((d - 1) / d == 0) by {
            vstd::arithmetic::div_mod::lemma_basic_div_specific_divisor(d);
        }
    }
    lemma_div_is_ordered(r2 * 10 + d / 2, 11 * d - 1, d);
}

/// The memory-share cell: `num / den` with one decimal digit, rounded
/// half-up, or "NaN" for a zero total.
pub fn format_frac1(num: u64, den: u64) -> (r: String)
    ensures
        r@ == spec_frac1_text(num, den),
{
    if den == 0 {
        String::from_str("NaN")
    } else {
        let q: u64 = num / den;
        let r2: u64 = num % den;
        let tf128: u128 = ((r2 as u128) * 10 + (den as u128) / 2) / (den as u128);
        proof {
            lemma_frac_split(num, den);
        }
        let tf: u64 = tf128 as u64;
        let whole: u64;
        let tenth: u64;
        if tf == 10 {
            proof {
                if den == 1 {
                    assert(r2 == 0);
                    assert(tf128 == 0);
                }
                lemma_div_is_ordered_by_denominator(num as int, 2, den as int);
                lemma_div_is_ordered(num as int, u64::MAX as int, 2);
            }
            whole = q + 1;
            tenth = 0;
        } else {
            whole = q;
            tenth = tf;
        }
        proof {
            let t = spec_tenths(num, den) as int;
            let qi = q as int;
            if tf == 10 {
                assert(t == (qi + 1) * 10);
                assert(t / 10 == qi + 1 && t % 10 == 0) by {
                    lemma_hoist_over_denominator(0, qi + 1, 10);
                    vstd::arithmetic::div_mod::lemma_mod_multiples_basic(qi + 1, 10);
                }
            } else {
                assert(t == qi * 10 + tf);
                assert(t / 10 == qi) by {
                    lemma_hoist_over_denominator(tf as int, qi, 10);
                }
                assert(t % 10 == tf) by {
                    vstd::arithmetic::div_mod::lemma_mod_multiples_vanish(qi, tf as int, 10);
                    assert(qi * 10 + tf == 10 * qi + tf);
                    lemma_small_mod(tf as nat, 10);
                }
            }
        }
        let mut s = u64_string(whole);
        s.append(".");
        s.append(digit_str(tenth));
        proof {
            reveal_strlit(".");
            assert(s@ =~= spec_frac1_text(num, den));
        }
        s
    }
}

/// Builds the ten display cells for one process reading.
pub fn process_row(rd: &ProcessReading, total_memory: u64) -> (r: Vec<String>)
    ensures
        spec_row(*rd, total_memory, r@.map_values(|s: String| s@)),
{
    let mut row: Vec<String> = Vec::new();
    row.push(rd.cpu_text.clone());
    row.push(format_frac1(rd.mem_bytes, total_memory));
    row.push(rd.pid_text.clone());
    row.push(Size::convent_from(rd.virtual_bytes).format());
    row.push(Size::convent_from(rd.mem_bytes).format());
    row.push(u64_string(rd.run_time));
    row.push(rd.status_text.clone());
    row.push(Size::convent_from(rd.read_bytes).format());
    row.push(Size::convent_from(rd.written_bytes).format());
    row.push(join_spaces(&rd.cmd));
    proof {
        let m = row@.map_values(|s: String| s@);
        assert(m.len() == 10);
        assert(m[0] == row@[0]@);
        assert(m[1] == row@[1]@);
        assert(m[2] == row@[2]@);
        assert(m[3] == row@[3]@);
        assert(m[4] == row@[4]@);
        assert(m[5] == row@[5]@);
        assert(m[6] == row@[6]@);
        assert(m[7] == row@[7]@);
        assert(m[8] == row@[8]@);
        assert(m[9] == row@[9]@);
    }
    row
}

} // verus!
