use rotator::quota::{
    consumed_core_minutes, fallback_snapshot, remaining_core_minutes, run_budget_minutes,
    sku_weight, snapshot_from_report, snapshot_from_usage, UsageItem, FALLBACK_FAIL_OPEN,
    INCLUDED_CORE_MINUTES, MAX_CONTINUOUS_RUN_MINUTES, MIN_ADMIT_RUNTIME_MINUTES,
    SAFETY_BUFFER_MINUTES,
};

fn item(product: &str, sku: &str, minutes: u64) -> UsageItem {
    UsageItem {
        product: String::from(product),
        sku: String::from(sku),
        minutes,
    }
}

#[test]
fn remaining_is_saturating_difference() {
    assert_eq!(remaining_core_minutes(30, 120), 90);
    assert_eq!(remaining_core_minutes(120, 120), 0);
    assert_eq!(remaining_core_minutes(121, 120), 0);
    assert_eq!(remaining_core_minutes(999, 120), 0);
    assert_eq!(remaining_core_minutes(0, 0), 0);
}

#[test]
fn admission_boundary_exact_threshold_admits() {
    // 7200 - 4800 = 2400 core-minutes left; over the 2x multiplier that is
    // exactly 1200 minutes = 20 hours of runtime.
    let s = snapshot_from_usage(4800, INCLUDED_CORE_MINUTES);
    assert_eq!(s.remaining_runtime_minutes, MIN_ADMIT_RUNTIME_MINUTES);
    assert!(s.admitted);
}

#[test]
fn admission_boundary_just_below_threshold_rejects() {
    let s = snapshot_from_usage(4801, INCLUDED_CORE_MINUTES);
    assert_eq!(s.remaining_runtime_minutes, 1199);
    assert!(!s.admitted);
    let s2 = snapshot_from_usage(4802, INCLUDED_CORE_MINUTES);
    assert_eq!(s2.remaining_runtime_minutes, 1199);
    assert!(!s2.admitted);
}

#[test]
fn admission_with_no_consumption() {
    let s = snapshot_from_usage(0, INCLUDED_CORE_MINUTES);
    assert_eq!(s.remaining_runtime_minutes, 3600);
    assert!(s.admitted);
}

#[test]
fn budget_is_capped_and_buffered() {
    // Plenty of quota: the continuous-run ceiling caps the budget.
    let wide = snapshot_from_usage(0, INCLUDED_CORE_MINUTES);
    assert_eq!(run_budget_minutes(&wide), MAX_CONTINUOUS_RUN_MINUTES);
    // Exactly at the admission threshold: the safety buffer is withheld.
    let tight = snapshot_from_usage(4800, INCLUDED_CORE_MINUTES);
    let budget = run_budget_minutes(&tight);
    assert_eq!(budget, MIN_ADMIT_RUNTIME_MINUTES - SAFETY_BUFFER_MINUTES);
    assert!(budget > 0);
    assert!(budget <= MAX_CONTINUOUS_RUN_MINUTES);
    assert!(budget <= tight.remaining_runtime_minutes - SAFETY_BUFFER_MINUTES);
}

#[test]
fn sku_weights_follow_machine_class() {
    assert_eq!(sku_weight(&item("codespaces", "compute 2-core", 10)), 2);
    assert_eq!(sku_weight(&item("codespaces", "codespaces compute 4-core", 10)), 4);
    assert_eq!(sku_weight(&item("codespaces", "storage", 10)), 0);
    assert_eq!(sku_weight(&item("actions", "compute 2-core", 10)), 0);
}

#[test]
fn consumed_core_minutes_weights_and_sums() {
    let items = vec![
        item("codespaces", "compute 2-core", 30),
        item("codespaces", "compute 4-core", 10),
        item("codespaces", "storage", 500),
        item("actions", "compute 2-core", 99),
    ];
    // 30 * 2 + 10 * 4 = 100 core-minutes.
    assert_eq!(consumed_core_minutes(&items), 100);
}

#[test]
fn report_snapshot_uses_standard_allowance() {
    let items = vec![item("codespaces", "compute 4-core", 600)];
    let s = snapshot_from_report(&items);
    assert_eq!(s.consumed_core_minutes, 2400);
    assert_eq!(s.included_core_minutes, INCLUDED_CORE_MINUTES);
    assert_eq!(s.remaining_runtime_minutes, 2400);
    assert!(s.admitted);
}

#[test]
fn fallback_fail_closed_treats_allowance_exhausted() {
    let s = fallback_snapshot(false);
    assert_eq!(s.consumed_core_minutes, INCLUDED_CORE_MINUTES);
    assert_eq!(s.remaining_runtime_minutes, 0);
    assert!(!s.admitted);
}

#[test]
fn fallback_fail_open_treats_allowance_untouched() {
    let s = fallback_snapshot(true);
    assert_eq!(s.consumed_core_minutes, 0);
    assert_eq!(s.remaining_runtime_minutes, 3600);
    assert!(s.admitted);
}

#[test]
fn fallback_policy_constant_is_fail_closed() {
    assert!(!FALLBACK_FAIL_OPEN);
}

#[test]
fn remaining_hours_reports_whole_hours() {
    let s = snapshot_from_usage(4801, INCLUDED_CORE_MINUTES);
    assert_eq!(s.remaining_hours(), 19);
    let s2 = snapshot_from_usage(0, INCLUDED_CORE_MINUTES);
    assert_eq!(s2.remaining_hours(), 60);
}
