use zaindari::policy::{exit_code, PolicyOptions};
use zaindari::report::{PillarResult, PillarStatus, ZaindariReport};

fn report_with(
    gate: Option<PillarStatus>,
    guard: Option<PillarStatus>,
    watch: Option<PillarStatus>,
) -> ZaindariReport<f64> {
    let mut r = ZaindariReport::empty();
    r.pillars.gate = gate.map(|s| PillarResult::new(s, "g"));
    r.pillars.guard = guard.map(|s| PillarResult::new(s, "g"));
    r.pillars.watch = watch.map(|s| PillarResult::new(s, "w"));
    r
}

#[test]
fn all_pass_is_zero() {
    let r = report_with(Some(PillarStatus::Pass), Some(PillarStatus::Pass), None);
    assert_eq!(exit_code(&r, PolicyOptions::default()), 0);
}

#[test]
fn gate_fail_is_two() {
    let r = report_with(Some(PillarStatus::Fail), None, None);
    assert_eq!(exit_code(&r, PolicyOptions::default()), 2);
}

#[test]
fn guard_fail_is_two() {
    let r = report_with(None, Some(PillarStatus::Fail), None);
    assert_eq!(exit_code(&r, PolicyOptions::default()), 2);
}

#[test]
fn watch_warn_is_zero_by_default() {
    let r = report_with(None, None, Some(PillarStatus::Warn));
    assert_eq!(exit_code(&r, PolicyOptions::default()), 0);
}

#[test]
fn watch_warn_is_two_under_strict() {
    let r = report_with(None, None, Some(PillarStatus::Warn));
    let opts = PolicyOptions {
        strict_watch: true,
        ..Default::default()
    };
    assert_eq!(exit_code(&r, opts), 2);
}

#[test]
fn engine_missing_is_one_and_beats_a_failure() {
    let r = report_with(
        Some(PillarStatus::Fail),
        Some(PillarStatus::EngineMissing),
        None,
    );
    assert_eq!(exit_code(&r, PolicyOptions::default()), 1);
}

#[test]
fn skipped_pillars_do_not_gate() {
    let r = report_with(
        Some(PillarStatus::Skipped),
        Some(PillarStatus::Skipped),
        Some(PillarStatus::Skipped),
    );
    assert_eq!(exit_code(&r, PolicyOptions::default()), 0);
}

#[test]
fn empty_report_is_zero_even_under_strict() {
    let r = report_with(None, None, None);
    let opts = PolicyOptions {
        strict_watch: true,
        error_on_missing: true,
    };
    assert_eq!(exit_code(&r, opts), 0);
}

#[test]
fn watch_engine_missing_is_one_even_without_strict() {
    let r = report_with(Some(PillarStatus::Pass), None, Some(PillarStatus::EngineMissing));
    assert_eq!(exit_code(&r, PolicyOptions::default()), 1);
}

#[test]
fn strict_watch_does_not_mask_a_gate_failure() {
    let r = report_with(Some(PillarStatus::Fail), None, Some(PillarStatus::Warn));
    let opts = PolicyOptions {
        strict_watch: true,
        ..Default::default()
    };
    assert_eq!(exit_code(&r, opts), 2);
}

#[test]
fn error_on_missing_changes_nothing() {
    for s in [
        PillarStatus::Pass,
        PillarStatus::Fail,
        PillarStatus::Warn,
        PillarStatus::Skipped,
        PillarStatus::EngineMissing,
    ] {
        let r = report_with(Some(s), None, Some(s));
        let a = PolicyOptions {
            strict_watch: false,
            error_on_missing: false,
        };
        let b = PolicyOptions {
            strict_watch: false,
            error_on_missing: true,
        };
        assert_eq!(exit_code(&r, a), exit_code(&r, b));
    }
}
