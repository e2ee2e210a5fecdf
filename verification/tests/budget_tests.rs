use soroban_debug::budget::{BudgetInfo, BudgetInspector};

#[test]
fn zero_limit_means_zero_percent() {
    let info = BudgetInfo::from_counters(12345, 0, 999, 0);
    assert_eq!(info.cpu_percentage_bps(), 0);
    assert_eq!(info.memory_percentage_bps(), 0);
    assert!(!info.high_cpu());
    assert!(!info.high_memory());
}

#[test]
fn percentage_is_consumed_over_limit_times_hundred() {
    // 25 of 50 is 50%, i.e. 5000 basis points.
    let info = BudgetInfo::from_counters(25, 50, 30, 120);
    assert_eq!(info.cpu_percentage_bps(), 5000);
    // 30 of 120 is 25%.
    assert_eq!(info.memory_percentage_bps(), 2500);
    // The exact value matches the floating-point formula the display uses.
    let cpu_pct = info.cpu_instructions as f64 / info.cpu_limit as f64 * 100.0;
    assert_eq!(info.cpu_percentage_bps() as f64 / 100.0, cpu_pct);
}

#[test]
fn fresh_invocation_with_large_limit_is_at_zero_percent() {
    let info = BudgetInfo::from_counters(0, 100_000_000, 0, 40 * 1024 * 1024);
    assert_eq!(info.cpu_percentage_bps(), 0);
    let cpu_pct = info.cpu_instructions as f64 / info.cpu_limit as f64 * 100.0;
    assert_eq!(cpu_pct, 0.0);
}

#[test]
fn warning_threshold_is_strictly_above_eighty_percent() {
    assert!(BudgetInfo::from_counters(81, 100, 0, 0).high_cpu());
    assert!(!BudgetInfo::from_counters(80, 100, 0, 0).high_cpu());
    assert!(BudgetInfo::from_counters(0, 0, 97, 120).high_memory());
    assert!(!BudgetInfo::from_counters(0, 0, 96, 120).high_memory());
}

#[test]
fn truncation_rounds_towards_zero() {
    // 1 of 3 is 33.33..%: 3333 basis points, truncated.
    let info = BudgetInfo::from_counters(1, 3, 2, 3);
    assert_eq!(info.cpu_percentage_bps(), 3333);
    assert_eq!(info.memory_percentage_bps(), 6666);
}

#[test]
fn snapshot_reads_the_real_host() {
    // A fresh host has charged nothing against its budget yet.
    let host = soroban_env_host::Host::default();
    let info = BudgetInspector::get_cpu_usage(&host);
    assert_eq!(info.cpu_instructions, 0);
    assert_eq!(info.memory_bytes, 0);
    assert_eq!(info.cpu_percentage_bps(), 0);
    assert_eq!(info.memory_percentage_bps(), 0);
    assert!(!info.high_cpu());
    assert!(!info.high_memory());
}
