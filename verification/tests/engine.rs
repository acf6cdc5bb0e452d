use ttop::history::History;
use ttop::quantity::Size;
use ttop::ratio::Ratio;
use ttop::readings::{MemoryReading, NetIfReading, ProcessReading};
use ttop::system::{format_frac1, process_row, unknown_or, AppMemoryInfo, AppNetworkInfo,
    AppSystemInfo};

fn fresh_memory_info() -> AppMemoryInfo {
    AppMemoryInfo {
        total_memory: Size::convent_from(0),
        used_memory: Size::convent_from(0),
        total_swap: Size::convent_from(0),
        used_swap: Size::convent_from(0),
        swap_usage: Ratio::zero(),
        memory_usage: Ratio::zero(),
    }
}

fn fresh_network_info() -> AppNetworkInfo {
    AppNetworkInfo {
        received_list: History::new(),
        transmitted_list: History::new(),
        detail: Vec::new(),
        received: 0,
        transmitted: 0,
    }
}

#[test]
fn history_always_holds_300_samples() {
    let mut h = History::new();
    assert_eq!(h.to_vec().len(), 300);
    assert!(h.to_vec().iter().all(|&x| x == 0));
    for i in 0..=300u64 {
        h.record(i);
        assert_eq!(h.to_vec().len(), 300);
    }
    let v = h.to_vec();
    assert_eq!(v[0], 300);
    assert_eq!(v[299], 1);
}

#[test]
fn history_slides_most_recent_first() {
    let mut h = History::new();
    h.record(1);
    h.record(2);
    h.record(3);
    let v = h.to_vec();
    assert_eq!(v[0], 3);
    assert_eq!(v[1], 2);
    assert_eq!(v[2], 1);
    assert_eq!(v[3], 0);
    assert_eq!(v.len(), 300);
}

#[test]
fn memory_scenario_half_used_no_swap() {
    let mut m = fresh_memory_info();
    m.apply_reading(Some(MemoryReading {
        total_memory: 16_000_000_000,
        used_memory: 8_000_000_000,
        total_swap: 0,
        used_swap: 0,
    }));
    // memory_usage is exactly used / total * 100 = 50.
    assert_eq!(m.memory_usage.num, 800_000_000_000);
    assert_eq!(m.memory_usage.den, 16_000_000_000);
    assert_eq!(m.memory_usage.num as f64 / m.memory_usage.den as f64, 50.0);
    // swap disabled forces the usage to exactly zero.
    assert_eq!(m.swap_usage, Ratio { num: 0, den: 1 });
    assert!(m.swap_usage.is_finite());
}

#[test]
fn memory_usage_formula_is_exact() {
    let mut m = fresh_memory_info();
    m.apply_reading(Some(MemoryReading {
        total_memory: 3,
        used_memory: 1,
        total_swap: 0,
        used_swap: 0,
    }));
    assert_eq!(m.memory_usage.num, 100);
    assert_eq!(m.memory_usage.den, 3);
}

#[test]
fn memory_usage_tolerates_zero_total() {
    let mut m = fresh_memory_info();
    m.apply_reading(Some(MemoryReading {
        total_memory: 0,
        used_memory: 5,
        total_swap: 0,
        used_swap: 0,
    }));
    assert!(!m.memory_usage.is_finite());
    assert!((m.memory_usage.num as f64 / m.memory_usage.den as f64).is_infinite());
}

#[test]
fn swap_usage_is_ratio_of_scaled_magnitudes() {
    let mut m = fresh_memory_info();
    m.total_swap = Size::convent_from(4_000_000);
    m.apply_reading(Some(MemoryReading {
        total_memory: 16_000_000_000,
        used_memory: 8_000_000_000,
        total_swap: 4_000_000,
        used_swap: 2_000_000,
    }));
    // Both swap quantities land in the second tier (divisor 8192), so
    // the magnitude ratio is exactly one half.
    assert_eq!(m.used_swap, Size::convent_from(2_000_000));
    assert_eq!(m.swap_usage.num, 2_000_000u128 * 8192);
    assert_eq!(m.swap_usage.den, 4_000_000u128 * 8192);
    assert_eq!(m.swap_usage.num as f64 / m.swap_usage.den as f64, 0.5);
}

#[test]
fn used_swap_recomputed_even_when_swap_disabled() {
    let mut m = fresh_memory_info();
    m.apply_reading(Some(MemoryReading {
        total_memory: 1000,
        used_memory: 500,
        total_swap: 0,
        used_swap: 123,
    }));
    assert_eq!(m.used_swap, Size::convent_from(123));
    assert_eq!(m.swap_usage, Ratio { num: 0, den: 1 });
}

#[test]
fn total_quantities_keep_their_construction_values() {
    let mut m = fresh_memory_info();
    m.total_memory = Size::convent_from(16_000_000_000);
    m.total_swap = Size::convent_from(4_000_000);
    m.apply_reading(Some(MemoryReading {
        total_memory: 32_000_000_000,
        used_memory: 1,
        total_swap: 8_000_000,
        used_swap: 1,
    }));
    assert_eq!(m.total_memory, Size::convent_from(16_000_000_000));
    assert_eq!(m.total_swap, Size::convent_from(4_000_000));
}

#[test]
fn memory_stays_stale_on_missing_reading() {
    let mut m = fresh_memory_info();
    m.apply_reading(Some(MemoryReading {
        total_memory: 16_000_000_000,
        used_memory: 8_000_000_000,
        total_swap: 0,
        used_swap: 0,
    }));
    let before = m;
    m.apply_reading(None);
    assert_eq!(m, before);
}

#[test]
fn network_scenario_two_interfaces() {
    let mut n = fresh_network_info();
    n.apply_reading(Some(vec![
        NetIfReading { name: "eth0".to_string(), received: 100, transmitted: 50 },
        NetIfReading { name: "wlan0".to_string(), received: 200, transmitted: 150 },
    ]));
    assert_eq!(n.received, 300);
    assert_eq!(n.transmitted, 200);
    assert_eq!(n.detail.len(), 2);
    assert_eq!(n.detail[0].name, "eth0");
    assert_eq!(n.detail[1].name, "wlan0");
    let v = n.received_list.to_vec();
    assert_eq!(v.len(), 300);
    assert_eq!(v[0], 300);
    assert_eq!(n.transmitted_list.to_vec()[0], 200);
}

#[test]
fn network_detail_is_replaced_wholesale() {
    let mut n = fresh_network_info();
    n.apply_reading(Some(vec![
        NetIfReading { name: "eth0".to_string(), received: 1, transmitted: 1 },
        NetIfReading { name: "wlan0".to_string(), received: 1, transmitted: 1 },
    ]));
    n.apply_reading(Some(vec![
        NetIfReading { name: "lo".to_string(), received: 9, transmitted: 8 },
    ]));
    assert_eq!(n.detail.len(), 1);
    assert_eq!(n.detail[0].name, "lo");
    assert_eq!(n.received, 9);
    let v = n.received_list.to_vec();
    assert_eq!(v[0], 9);
    assert_eq!(v[1], 2);
    assert_eq!(v[2], 0);
}

#[test]
fn network_stays_stale_on_missing_reading() {
    let mut n = fresh_network_info();
    n.apply_reading(Some(vec![
        NetIfReading { name: "eth0".to_string(), received: 5, transmitted: 6 },
    ]));
    let received_before = n.received;
    let window_before = n.received_list.to_vec();
    n.apply_reading(None);
    assert_eq!(n.received, received_before);
    assert_eq!(n.received_list.to_vec(), window_before);
    assert_eq!(n.detail.len(), 1);
}

#[test]
fn frac1_rounds_and_tolerates_zero() {
    assert_eq!(format_frac1(8_000_000_000, 16_000_000_000), "0.5");
    assert_eq!(format_frac1(999, 1000), "1.0");
    assert_eq!(format_frac1(1, 1000), "0.0");
    assert_eq!(format_frac1(7, 0), "NaN");
}

#[test]
fn identity_falls_back_to_unknown() {
    assert_eq!(unknown_or(None), "Unknown");
    assert_eq!(unknown_or(Some("penguin".to_string())), "penguin");
}

#[test]
fn process_row_has_the_ten_cells() {
    let rd = ProcessReading {
        cpu_text: "12.3".to_string(),
        pid_text: "42".to_string(),
        mem_bytes: 1000,
        virtual_bytes: 8000,
        run_time: 77,
        status_text: "S".to_string(),
        read_bytes: 0,
        written_bytes: 8192,
        cmd: vec!["/bin/foo".to_string(), "-x".to_string()],
    };
    let row = process_row(&rd, 16000);
    assert_eq!(row.len(), 10);
    assert_eq!(row[0], "12.3");
    assert_eq!(row[1], "0.1");
    assert_eq!(row[2], "42");
    assert_eq!(row[3], "1000.00k");
    assert_eq!(row[4], "125.00k");
    assert_eq!(row[5], "77");
    assert_eq!(row[6], "S");
    assert_eq!(row[7], "0.00k");
    assert_eq!(row[8], "1.00M");
    assert_eq!(row[9], "/bin/foo -x");
}

#[test]
fn engine_refreshes_against_the_live_system() {
    let mut engine = AppSystemInfo::default();
    assert!(!engine.hostname.is_empty());
    assert_eq!(engine.network_info.received_list.to_vec().len(), 300);
    engine.refresh_all();
    assert_eq!(engine.network_info.received_list.to_vec().len(), 300);
    assert_eq!(engine.network_info.transmitted_list.to_vec().len(), 300);
    let before_cpu = engine.global_cpu_usage.clone();
    engine.apply_cpu_reading(None);
    assert_eq!(engine.global_cpu_usage, before_cpu);
    let net = engine.refresh_network_info();
    assert_eq!(net.received_list.to_vec().len(), 300);
    let (columns, rows) = engine.get_process_info();
    assert_eq!(
        columns,
        vec!["CPU%", "MEM%", "PID", "VIRT", "RES", "TIME+", "S", "R/s", "W/s", "Command"]
    );
    for row in &rows {
        assert_eq!(row.len(), 10);
    }
}
