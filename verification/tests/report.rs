use zaindari::config::{
    default_aatxe_bin, default_cardinal_bin, default_iratxo_bin, sample_config, CONFIG_FILENAME,
};
use zaindari::report::{
    DeltaSign, Finding, Metric, MetricDirection, PillarResult, PillarStatus, Severity,
    ZaindariReport, REPORT_SCHEMA_VERSION,
};

fn sign(d: f64) -> DeltaSign {
    if d < 0.0 {
        DeltaSign::Negative
    } else if d > 0.0 {
        DeltaSign::Positive
    } else {
        DeltaSign::Neither
    }
}

fn minus(a: f64, b: f64) -> f64 {
    a - b
}

#[test]
fn metric_delta_is_value_minus_baseline() {
    let m = Metric::with_baseline("recall", 0.80, 0.90, MetricDirection::HigherBetter, &minus);
    assert!((m.delta.unwrap() - (-0.10_f64)).abs() < 1e-9);
    assert!(m.regressed(sign));
}

#[test]
fn lower_better_metric_regresses_when_it_rises() {
    let m = Metric::with_baseline("fp_per_case", 3.0, 2.0, MetricDirection::LowerBetter, &minus);
    assert!(m.regressed(sign));
    let improved =
        Metric::with_baseline("fp_per_case", 1.0, 2.0, MetricDirection::LowerBetter, &minus);
    assert!(!improved.regressed(sign));
}

#[test]
fn plain_metric_never_regresses() {
    let m = Metric::plain("count", 5.0, MetricDirection::Neutral);
    assert!(!m.regressed(sign));
}

#[test]
fn nan_delta_never_regresses() {
    let m = Metric::with_baseline("x", f64::NAN, 1.0, MetricDirection::HigherBetter, &minus);
    assert!(!m.regressed(sign));
}

#[test]
fn labels_are_the_traffic_lights() {
    assert_eq!(PillarStatus::Pass.label(), "PASS");
    assert_eq!(PillarStatus::Fail.label(), "FAIL");
    assert_eq!(PillarStatus::Warn.label(), "WARN");
    assert_eq!(PillarStatus::Skipped.label(), "SKIPPED");
    assert_eq!(PillarStatus::EngineMissing.label(), "ENGINE MISSING");
    assert_eq!(Severity::Critical.label(), "critical");
    assert_eq!(Severity::Info.label(), "info");
}

#[test]
fn severities_are_listed_worst_first() {
    let all = Severity::all_worst_first();
    assert_eq!(
        all,
        [
            Severity::Critical,
            Severity::Major,
            Severity::Minor,
            Severity::Nit,
            Severity::Info
        ]
    );
    let mut sorted = all;
    sorted.sort();
    assert_eq!(sorted, all);
}

#[test]
fn engine_missing_carries_the_hint() {
    let r: PillarResult<f64> = PillarResult::engine_missing("aatxe", "install it");
    assert_eq!(r.status, PillarStatus::EngineMissing);
    assert_eq!(r.headline, "engine `aatxe` not found on PATH — install it");
    assert!(r.metrics.is_empty() && r.findings.is_empty() && r.raw_ref.is_none());
}

#[test]
fn finding_with_location() {
    let f = Finding::new(Severity::Minor, "t", "d").with_location("file:3");
    assert_eq!(f.severity, Severity::Minor);
    assert_eq!(f.title, "t");
    assert_eq!(f.detail, "d");
    assert_eq!(f.location.as_deref(), Some("file:3"));
    assert!(Finding::new(Severity::Nit, "a", "b").location.is_none());
}

#[test]
fn plain_metric_has_no_baseline_and_never_regresses() {
    let m = Metric::plain("count", 5.0_f64, MetricDirection::Neutral);
    assert_eq!(m.name, "count");
    assert_eq!(m.value, 5.0);
    assert!(m.baseline.is_none() && m.delta.is_none());
    for d in [
        MetricDirection::HigherBetter,
        MetricDirection::LowerBetter,
        MetricDirection::Neutral,
    ] {
        assert!(!d.regressed_by(None));
    }
}

#[test]
fn regression_follows_direction() {
    assert!(MetricDirection::HigherBetter.regressed_by(Some(DeltaSign::Negative)));
    assert!(!MetricDirection::HigherBetter.regressed_by(Some(DeltaSign::Positive)));
    assert!(MetricDirection::LowerBetter.regressed_by(Some(DeltaSign::Positive)));
    assert!(!MetricDirection::LowerBetter.regressed_by(Some(DeltaSign::Negative)));
    assert!(!MetricDirection::Neutral.regressed_by(Some(DeltaSign::Negative)));
    assert!(!MetricDirection::HigherBetter.regressed_by(Some(DeltaSign::Neither)));
}

#[test]
fn empty_report_has_no_pillars() {
    let r: ZaindariReport<f64> = ZaindariReport::empty();
    assert_eq!(r.schema_version, REPORT_SCHEMA_VERSION);
    assert!(r.pillars.gate.is_none() && r.pillars.guard.is_none() && r.pillars.watch.is_none());
    assert!(r.tool_versions.gate.is_none());
}

#[test]
fn config_defaults_and_sample() {
    assert_eq!(default_aatxe_bin(), "aatxe");
    assert_eq!(default_iratxo_bin(), "iratxo");
    assert_eq!(default_cardinal_bin(), "cardinal-map");
    assert_eq!(CONFIG_FILENAME, "zaindari.toml");
    let s = sample_config();
    assert!(s.contains("[gate]") && s.contains("[guard]") && s.contains("[watch]"));
}

#[test]
fn sample_config_parses_as_toml_with_three_sections() {
    let v: toml::Value = toml::from_str(sample_config()).unwrap();
    let t = v.as_table().unwrap();
    assert!(t["gate"].is_table());
    assert_eq!(t["guard"]["packs"][0].as_str(), Some("rules/promo.cases.yaml"));
    assert_eq!(t["watch"]["anomaly_threshold"].as_float(), Some(0.6));
}
