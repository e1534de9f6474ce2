use serde_json::Value;
use zaindari::gate::{self, assemble, Council, EvalReport, Stats};
use zaindari::report::{DeltaSign, PillarResult, PillarStatus, Severity};

fn sign(d: f64) -> DeltaSign {
    if d < 0.0 {
        DeltaSign::Negative
    } else if d > 0.0 {
        DeltaSign::Positive
    } else {
        DeltaSign::Neither
    }
}

fn council(recall: f64, precision: f64, f1: f64, mae: f64, brier: f64, fp: f64, forbidden: u32) -> Council<f64> {
    Council {
        cases_total: 12,
        cases_fully_recalled: 11,
        critical_recall: recall,
        critical_precision: precision,
        critical_f1: f1,
        severity_calibration_mae: mae,
        judge_brier_score: brier,
        avg_false_positives_per_case: fp,
        forbidden_path_findings: forbidden,
    }
}

fn report(c: Council<f64>, passed: u32, pass_rate: f64) -> EvalReport<f64> {
    EvalReport {
        aatxe_version: "0.1.1".to_string(),
        council: Some(c),
        stats: Some(Stats {
            scenarios_total: 4,
            scenarios_passed: passed,
            pass_rate,
        }),
        council_used_real_llm: false,
    }
}

/// An eval run that beats the baseline on every score.
fn good() -> EvalReport<f64> {
    report(council(0.95, 0.93, 0.94, 0.10, 0.05, 0.5, 0), 4, 1.0)
}

/// An eval run whose F1 dropped and that touched forbidden paths.
fn regressed() -> EvalReport<f64> {
    report(council(0.80, 0.85, 0.82, 0.30, 0.12, 1.8, 2), 3, 0.75)
}

fn baseline() -> EvalReport<f64> {
    report(council(0.90, 0.90, 0.90, 0.20, 0.10, 1.0, 0), 4, 1.0)
}

fn parse(cur: &EvalReport<f64>, base: Option<&EvalReport<f64>>, exit_code: Option<i32>, raw_ref: Option<String>) -> PillarResult<f64> {
    assemble(
        cur,
        base,
        exit_code,
        raw_ref,
        |a: f64, b: f64| a - b,
        f64::from,
        sign,
        |x: f64| format!("{x:.2}"),
    )
}

#[test]
fn happy_parse_no_baseline_is_pass() {
    let r = parse(&good(), None, Some(0), None);
    assert_eq!(r.status, PillarStatus::Pass);
    assert!(r.metrics.iter().any(|m| m.name == "council.critical_f1"));
    assert!(r.headline.contains("Eval gate held"));
}

#[test]
fn exit_code_2_forces_fail_even_without_baseline() {
    let r = parse(&good(), None, Some(2), None);
    assert_eq!(r.status, PillarStatus::Fail);
}

#[test]
fn baseline_regression_in_metric_is_fail() {
    let r = parse(&regressed(), Some(&baseline()), None, None);
    assert_eq!(r.status, PillarStatus::Fail);
    let f1 = r.metrics.iter().find(|m| m.name == "council.critical_f1").unwrap();
    assert!(f1.baseline.is_some());
    assert!(f1.regressed(sign));
}

#[test]
fn baseline_with_improvement_is_pass() {
    let r = parse(&good(), Some(&baseline()), Some(0), None);
    assert_eq!(r.status, PillarStatus::Pass);
}

#[test]
fn forbidden_path_finding_surfaces_as_critical() {
    let r = parse(&regressed(), Some(&baseline()), Some(2), None);
    assert!(r
        .findings
        .iter()
        .any(|f| f.severity == Severity::Critical && f.title.contains("forbidden")));
}

#[test]
fn assembled_result_is_exact() {
    let r = parse(&good(), None, Some(0), Some("raw/gate-aatxe-evals.json".to_string()));
    assert_eq!(
        r.headline,
        "Eval gate held: critical F1 0.94, 11/12 cases fully recalled (stub-LLM run, aatxe 0.1.1)."
    );
    assert_eq!(r.metrics.len(), 10);
    assert!(r.findings.is_empty());
    assert_eq!(r.raw_ref.as_deref(), Some("raw/gate-aatxe-evals.json"));

    let r = parse(&regressed(), Some(&baseline()), Some(0), None);
    assert_eq!(r.status, PillarStatus::Fail);
    assert_eq!(
        r.headline,
        "Eval quality regressed against the baseline — do not ship."
    );
    assert_eq!(r.findings.len(), 2);
    assert_eq!(r.findings[1].detail, "3/4 stats scenarios passed");
    let f1 = &r.metrics[2];
    assert!((f1.delta.unwrap() + 0.08).abs() < 1e-9);
}

#[test]
fn a_baseline_counts_only_when_given() {
    // Without a baseline nothing is compared, so a weak run with exit 0 passes.
    let r = parse(&regressed(), None, Some(0), None);
    assert_eq!(r.status, PillarStatus::Pass);
    assert!(r.metrics.iter().all(|m| m.baseline.is_none() && m.delta.is_none()));
    let bare = EvalReport::<f64> {
        aatxe_version: "0.2.0".to_string(),
        council: None,
        stats: None,
        council_used_real_llm: true,
    };
    let r = parse(&bare, Some(&baseline()), None, None);
    assert_eq!(r.status, PillarStatus::Pass);
    assert!(r.metrics.is_empty());
    assert_eq!(r.headline, "Eval gate held (real-LLM run, aatxe 0.2.0).");
}

/// Reads the parts of an eval report Gate uses through `serde_json::Value`;
/// what does not parse as JSON is the decoder's error.
fn decode(json: &str) -> Result<EvalReport<f64>, serde_json::Error> {
    let v: Value = serde_json::from_str(json)?;
    let num = |x: &Value| x.as_f64().unwrap_or(0.0);
    let count = |x: &Value| x.as_u64().unwrap_or(0) as u32;
    let c = &v["council"];
    let council = if c.is_object() {
        Some(Council {
            cases_total: count(&c["casesTotal"]),
            cases_fully_recalled: count(&c["casesFullyRecalled"]),
            critical_recall: num(&c["criticalRecall"]),
            critical_precision: num(&c["criticalPrecision"]),
            critical_f1: num(&c["criticalF1"]),
            severity_calibration_mae: num(&c["severityCalibrationMae"]),
            judge_brier_score: num(&c["judgeBrierScore"]),
            avg_false_positives_per_case: num(&c["avgFalsePositivesPerCase"]),
            forbidden_path_findings: count(&c["forbiddenPathFindings"]),
        })
    } else {
        None
    };
    let s = &v["stats"];
    let stats = if s.is_object() {
        Some(Stats {
            scenarios_total: count(&s["scenariosTotal"]),
            scenarios_passed: count(&s["scenariosPassed"]),
            pass_rate: num(&s["passRate"]),
        })
    } else {
        None
    };
    Ok(EvalReport {
        aatxe_version: v["aatxeVersion"].as_str().unwrap_or("").to_string(),
        council,
        stats,
        council_used_real_llm: v["councilUsedRealLlm"].as_bool().unwrap_or(false),
    })
}

fn parse_json(cur: &str, base: Option<&str>, exit_code: Option<i32>) -> Result<PillarResult<f64>, serde_json::Error> {
    gate::parse(
        cur,
        base,
        exit_code,
        None,
        decode,
        |a: f64, b: f64| a - b,
        f64::from,
        sign,
        |x: f64| format!("{x:.2}"),
    )
}

#[test]
fn gate_malformed_json_errors() {
    assert!(parse_json("{not json", None, Some(0)).is_err());
    let ok = r#"{"aatxeVersion": "0.1.1", "councilUsedRealLlm": true}"#;
    assert!(parse_json(ok, Some("{not json"), Some(0)).is_err());
    let r = parse_json(ok, None, Some(0)).unwrap();
    assert_eq!(r.status, PillarStatus::Pass);
    assert_eq!(r.headline, "Eval gate held (real-LLM run, aatxe 0.1.1).");
}

#[test]
fn parsed_baseline_regression_fails() {
    let cur = r#"{"aatxeVersion": "0.1.1", "council": {"casesTotal": 12, "casesFullyRecalled": 9,
        "criticalRecall": 0.8, "criticalPrecision": 0.9, "criticalF1": 0.85,
        "severityCalibrationMae": 0.2, "judgeBrierScore": 0.1, "avgFalsePositivesPerCase": 1.0,
        "forbiddenPathFindings": 0}}"#;
    let base = r#"{"aatxeVersion": "0.1.0", "council": {"casesTotal": 12, "casesFullyRecalled": 10,
        "criticalRecall": 0.9, "criticalPrecision": 0.9, "criticalF1": 0.9,
        "severityCalibrationMae": 0.2, "judgeBrierScore": 0.1, "avgFalsePositivesPerCase": 1.0,
        "forbiddenPathFindings": 0}}"#;
    let r = parse_json(cur, Some(base), None).unwrap();
    assert_eq!(r.status, PillarStatus::Fail);
    let r = parse_json(cur, None, None).unwrap();
    assert_eq!(r.status, PillarStatus::Pass);
    assert_eq!(
        r.headline,
        "Eval gate held: critical F1 0.85, 9/12 cases fully recalled (stub-LLM run, aatxe 0.1.1)."
    );
}
