use zaindari::gate::{self, CouncilFigures};
use zaindari::native::{validate, NativeError, NativeReport};
use zaindari::report::{DeltaSign, MetricDirection, PillarResult, PillarStatus, Severity};
use zaindari::watch::{assess, is_empty_output, ScoredItem, TopDimension};

#[test]
fn gate_exit_two_fails_without_baseline() {
    assert_eq!(gate::status(Some(2), false, &[]), PillarStatus::Fail);
    assert_eq!(gate::status(Some(0), false, &[]), PillarStatus::Pass);
    assert_eq!(gate::status(None, false, &[]), PillarStatus::Pass);
}

#[test]
fn gate_baseline_regression_fails_only_with_a_baseline() {
    let deltas = [
        (MetricDirection::HigherBetter, Some(DeltaSign::Positive)),
        (MetricDirection::LowerBetter, Some(DeltaSign::Positive)),
    ];
    assert_eq!(gate::status(None, true, &deltas), PillarStatus::Fail);
    assert_eq!(gate::status(Some(0), false, &deltas), PillarStatus::Pass);
    let improved = [(MetricDirection::HigherBetter, Some(DeltaSign::Positive))];
    assert_eq!(gate::status(Some(0), true, &improved), PillarStatus::Pass);
}

#[test]
fn gate_findings_forbidden_then_stats() {
    let fs = gate::findings(Some(2), Some((3, 4)));
    assert_eq!(fs.len(), 2);
    assert_eq!(fs[0].severity, Severity::Critical);
    assert_eq!(fs[0].title, "findings on forbidden paths");
    assert_eq!(
        fs[0].detail,
        "2 finding(s) landed on lockfiles / generated code — calibration bug"
    );
    assert_eq!(fs[1].severity, Severity::Major);
    assert_eq!(fs[1].detail, "3/4 stats scenarios passed");
    assert!(gate::findings(Some(0), Some((4, 4))).is_empty());
    assert!(gate::findings(None, None).is_empty());
}

#[test]
fn build_headline_quotes_the_council() {
    assert_eq!(
        gate::build_headline(PillarStatus::Fail, true, None, false, "0.1.1"),
        "Eval quality regressed against the baseline — do not ship."
    );
    assert_eq!(
        gate::build_headline(PillarStatus::Fail, false, None, false, "0.1.1"),
        "Eval gate failed — do not ship."
    );
    let c = CouncilFigures {
        critical_f1: "0.92".to_string(),
        cases_fully_recalled: 11,
        cases_total: 12,
    };
    assert_eq!(
        gate::build_headline(PillarStatus::Pass, true, Some(c), true, "0.1.1"),
        "Eval gate held: critical F1 0.92, 11/12 cases fully recalled (real-LLM run, aatxe 0.1.1)."
    );
    assert_eq!(
        gate::build_headline(PillarStatus::Pass, false, None, false, "0.1.1"),
        "Eval gate held (stub-LLM run, aatxe 0.1.1)."
    );
}

fn item(name: &str, flagged: bool, above: bool, top: Option<TopDimension>) -> ScoredItem {
    ScoredItem {
        name: name.to_string(),
        entity_type: if name == "Klingon" { "product".to_string() } else { String::new() },
        flagged,
        above_threshold: above,
        cardinality: "0.912".to_string(),
        top_dimension: top,
    }
}

#[test]
fn watch_assess_flags_become_findings() {
    let items = vec![
        item("Widget", false, false, None),
        item(
            "Klingon",
            true,
            true,
            Some(TopDimension {
                name: "_resolution".to_string(),
                reason: "name not in trained profiles".to_string(),
                score: "1.00".to_string(),
            }),
        ),
        item(
            "Gadget",
            true,
            false,
            Some(TopDimension {
                name: "length".to_string(),
                reason: String::new(),
                score: "0.70".to_string(),
            }),
        ),
        item("Thing", true, false, None),
    ];
    let a = assess(&items);
    assert_eq!(a.status, PillarStatus::Warn);
    assert_eq!((a.scored, a.flagged, a.above_threshold), (4, 3, 1));
    assert_eq!(
        a.headline,
        "3 of 4 monitored item(s) look anomalous — review before trusting the output."
    );
    assert_eq!(a.findings.len(), 3);
    assert_eq!(a.findings[0].title, "anomalous product: Klingon");
    assert_eq!(
        a.findings[0].detail,
        "cardinality 0.912 — name not in trained profiles (`_resolution` score 1.00)"
    );
    assert_eq!(a.findings[0].location.as_deref(), Some("Klingon"));
    assert_eq!(a.findings[1].title, "anomalous item: Gadget");
    assert_eq!(
        a.findings[1].detail,
        "cardinality 0.912 — driven by `length` (score 0.70)"
    );
    assert_eq!(
        a.findings[2].detail,
        "cardinality 0.912 — no dimension detail"
    );
}

#[test]
fn watch_assess_clean_is_pass() {
    let a = assess(&vec![item("a", false, false, None), item("b", false, true, None)]);
    assert_eq!(a.status, PillarStatus::Pass);
    assert_eq!(
        a.headline,
        "No drift: all 2 monitored item(s) scored below the anomaly threshold."
    );
    assert!(a.findings.is_empty());
    let a = assess(&vec![]);
    assert_eq!(a.status, PillarStatus::Pass);
    assert_eq!(a.scored, 0);
}

#[test]
fn watch_empty_output_detection() {
    assert!(is_empty_output(""));
    assert!(is_empty_output("  \n"));
    assert!(is_empty_output(" null\n"));
    assert!(!is_empty_output("[]"));
    assert!(!is_empty_output("nul"));
    assert!(!is_empty_output("nulls"));
}

fn envelope(schema: u32, raw: Option<&str>) -> NativeReport<f64> {
    let mut p: PillarResult<f64> = PillarResult::new(PillarStatus::Fail, "regressed");
    p.raw_ref = raw.map(|s| s.to_string());
    NativeReport {
        schema_version: schema,
        tool_version: Some("berme-eval 0.1.0".to_string()),
        pillar: p,
    }
}

#[test]
fn native_validate_keeps_the_emitters_result() {
    let (p, v) = validate(envelope(1, None), Some("raw/gate-native.json".to_string())).unwrap();
    assert_eq!(p.status, PillarStatus::Fail);
    assert_eq!(p.headline, "regressed");
    assert_eq!(p.raw_ref.as_deref(), Some("raw/gate-native.json"));
    assert_eq!(v.as_deref(), Some("berme-eval 0.1.0"));
    let (p, _) = validate(envelope(1, Some("emitter/path.json")), Some("zaindari/path.json".to_string())).unwrap();
    assert_eq!(p.raw_ref.as_deref(), Some("emitter/path.json"));
}

#[test]
fn native_validate_rejects_other_schemas() {
    match validate(envelope(999, None), None) {
        Err(NativeError::Schema { got, expected }) => {
            assert_eq!(got, 999);
            assert_eq!(expected, 1);
        }
        _ => panic!("schema 999 accepted"),
    }
}

fn council(f1: f64) -> gate::Council<f64> {
    gate::Council {
        cases_total: 12,
        cases_fully_recalled: 10,
        critical_recall: 0.9,
        critical_precision: 0.8,
        critical_f1: f1,
        severity_calibration_mae: 0.2,
        judge_brier_score: 0.1,
        avg_false_positives_per_case: 1.5,
        forbidden_path_findings: 0,
    }
}

#[test]
fn gate_metrics_pair_scores_with_the_baseline() {
    let cur = council(0.70);
    let base = council(0.85);
    let stats = gate::Stats {
        scenarios_total: 4,
        scenarios_passed: 4,
        pass_rate: 1.0,
    };
    let ms = gate::metrics(
        Some(&cur),
        Some(&base),
        Some(&stats),
        None,
        |a: f64, b: f64| a - b,
        f64::from,
    );
    let names: Vec<&str> = ms.iter().map(|m| m.name.as_str()).collect();
    assert_eq!(
        names,
        vec![
            "council.critical_recall",
            "council.critical_precision",
            "council.critical_f1",
            "council.severity_calibration_mae",
            "council.judge_brier_score",
            "council.avg_false_positives_per_case",
            "council.cases_fully_recalled",
            "council.cases_total",
            "council.forbidden_path_findings",
            "stats.pass_rate"
        ]
    );
    let f1 = &ms[2];
    assert_eq!(f1.baseline, Some(0.85));
    assert!((f1.delta.unwrap() + 0.15).abs() < 1e-9);
    assert_eq!(f1.direction, MetricDirection::HigherBetter);
    assert_eq!(ms[3].direction, MetricDirection::LowerBetter);
    assert_eq!(ms[6].value, 10.0);
    assert!(ms[6].baseline.is_none());
    assert_eq!(ms[7].direction, MetricDirection::Neutral);
    assert!(ms[9].baseline.is_none() && ms[9].delta.is_none());
    let none = gate::metrics::<f64, _, _>(None, Some(&base), None, None, |a: f64, b: f64| a - b, f64::from);
    assert!(none.is_empty());
}

#[test]
fn watch_metrics_counts_then_threshold_then_spread() {
    let a = assess(&vec![item("a", true, true, None), item("b", false, false, None)]);
    let ms = zaindari::watch::metrics(&a, 0.6, Some((0.5, 0.9)), |k: usize| k as f64);
    let got: Vec<(&str, f64)> = ms.iter().map(|m| (m.name.as_str(), m.value)).collect();
    assert_eq!(
        got,
        vec![
            ("watch.items_scored", 2.0),
            ("watch.items_flagged", 1.0),
            ("watch.items_above_threshold", 1.0),
            ("watch.anomaly_threshold", 0.6),
            ("watch.mean_cardinality", 0.5),
            ("watch.max_cardinality", 0.9)
        ]
    );
    let ms = zaindari::watch::metrics(&assess(&vec![]), 0.6, None, |k: usize| k as f64);
    assert_eq!(ms.len(), 4);
}
