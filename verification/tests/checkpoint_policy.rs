use soksak_sidecar_terminal_wezterm::checkpoint::{CheckpointPolicy, CKPT_CAP, CKPT_IDLE};

const MS: u64 = 1_000_000;
const SEC: u64 = 1_000 * MS;

// A reading of the caller's monotonic clock, in nanoseconds.
fn base() -> u64 {
    7 * SEC
}

#[test]
fn clean_has_no_deadline_and_is_not_due() {
    let p = CheckpointPolicy::default();
    assert!(!p.is_dirty());
    assert_eq!(p.deadline(), None);
    assert!(!p.is_due(base()));
}

#[test]
fn idle_deadline_is_last_output_plus_idle() {
    let base = base();
    let mut p = CheckpointPolicy::with(300 * MS, 5 * SEC);
    p.on_output(base);
    assert_eq!(p.deadline(), Some(base + 300 * MS));
    assert!(!p.is_due(base + 299 * MS));
    assert!(p.is_due(base + 300 * MS));
}

#[test]
fn a_later_output_extends_the_idle_window() {
    let base = base();
    let mut p = CheckpointPolicy::with(300 * MS, 5 * SEC);
    p.on_output(base);
    p.on_output(base + 200 * MS);
    // The idle anchor moved: deadline = 200ms + 300ms (< cap).
    assert_eq!(p.deadline(), Some(base + 500 * MS));
    assert!(!p.is_due(base + 499 * MS));
}

#[test]
fn cap_bounds_a_continuous_burst() {
    let base = base();
    let idle = 300 * MS;
    let cap = 5 * SEC;
    let mut p = CheckpointPolicy::with(idle, cap);
    p.on_output(base); // dirty_since = base, so the cap deadline is base + 5s
    // A burst: output every 100ms keeps pushing the idle deadline, the cap bounds it.
    for k in 1..=60u64 {
        p.on_output(base + 100 * MS * k);
    }
    // Last output = base + 6s, idle deadline = base + 6.3s; the cap deadline base + 5s wins.
    assert_eq!(p.deadline(), Some(base + cap));
    assert!(p.is_due(base + cap));
}

#[test]
fn reset_returns_to_clean() {
    let base = base();
    let mut p = CheckpointPolicy::default();
    p.on_output(base);
    assert!(p.is_dirty());
    p.reset();
    assert!(!p.is_dirty());
    assert_eq!(p.deadline(), None);
}

#[test]
fn default_policy_uses_the_documented_idle_and_cap() {
    assert_eq!(CKPT_IDLE, 300 * MS);
    assert_eq!(CKPT_CAP, 5 * SEC);
    let mut p = CheckpointPolicy::default();
    p.on_output(base());
    assert_eq!(p.deadline(), Some(base() + 300 * MS));
}

#[test]
fn a_new_cycle_after_reset_anchors_the_cap_at_its_first_output() {
    let base = base();
    let mut p = CheckpointPolicy::with(300 * MS, 1 * SEC);
    p.on_output(base);
    p.reset();
    let second = base + 10 * SEC;
    p.on_output(second);
    p.on_output(second + 900 * MS);
    // cap anchor = second, idle anchor = second + 900ms: min(second + 1.2s, second + 1s).
    assert_eq!(p.deadline(), Some(second + SEC));
}

#[test]
fn due_stays_due_as_time_passes() {
    let base = base();
    let mut p = CheckpointPolicy::with(300 * MS, 5 * SEC);
    p.on_output(base);
    assert!(p.is_due(base + 300 * MS));
    assert!(p.is_due(base + 4 * SEC));
    assert!(p.is_due(base + 60 * SEC));
}

#[test]
fn the_deadline_range_check_matches_the_clock() {
    let mut p = CheckpointPolicy::with(300 * MS, 5 * SEC);
    assert!(p.deadline_in_range());
    p.on_output(u64::MAX - 100 * MS);
    assert!(!p.deadline_in_range());
    p.reset();
    p.on_output(base());
    assert!(p.deadline_in_range());
}
