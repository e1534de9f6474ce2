use serde_json::Value;
use zaindari::native::{parse, NativeError, NativeReport};
use zaindari::report::{
    DeltaSign, Finding, Metric, MetricDirection, PillarResult, PillarStatus, Severity,
    REPORT_SCHEMA_VERSION,
};

fn sign(d: f64) -> DeltaSign {
    if d < 0.0 {
        DeltaSign::Negative
    } else if d > 0.0 {
        DeltaSign::Positive
    } else {
        DeltaSign::Neither
    }
}

fn status(s: &str) -> PillarStatus {
    match s {
        "pass" => PillarStatus::Pass,
        "fail" => PillarStatus::Fail,
        "warn" => PillarStatus::Warn,
        "skipped" => PillarStatus::Skipped,
        _ => PillarStatus::EngineMissing,
    }
}

fn direction(s: &str) -> MetricDirection {
    match s {
        "higher_better" => MetricDirection::HigherBetter,
        "lower_better" => MetricDirection::LowerBetter,
        _ => MetricDirection::Neutral,
    }
}

fn severity(s: &str) -> Severity {
    match s {
        "critical" => Severity::Critical,
        "major" => Severity::Major,
        "minor" => Severity::Minor,
        "nit" => Severity::Nit,
        _ => Severity::Info,
    }
}

fn text(v: &Value) -> &str {
    v.as_str().unwrap_or("")
}

/// Reads the envelope through `serde_json::Value`; what does not parse as
/// JSON is the decoder's error.
fn decode(json: &str) -> Result<NativeReport<f64>, serde_json::Error> {
    let v: Value = serde_json::from_str(json)?;
    let p = &v["pillar"];
    let mut pillar: PillarResult<f64> = PillarResult::new(status(text(&p["status"])), text(&p["headline"]));
    if let Some(ms) = p["metrics"].as_array() {
        for m in ms {
            pillar.metrics.push(Metric {
                name: text(&m["name"]).to_string(),
                value: m["value"].as_f64().unwrap_or(0.0),
                baseline: m["baseline"].as_f64(),
                delta: m["delta"].as_f64(),
                direction: direction(text(&m["direction"])),
            });
        }
    }
    if let Some(fs) = p["findings"].as_array() {
        for f in fs {
            pillar.findings.push(Finding::new(
                severity(text(&f["severity"])),
                text(&f["title"]),
                text(&f["detail"]),
            ));
        }
    }
    pillar.raw_ref = p["rawRef"].as_str().map(String::from);
    Ok(NativeReport {
        schema_version: v["schemaVersion"].as_u64().unwrap_or(0) as u32,
        tool_version: v["toolVersion"].as_str().map(String::from),
        pillar,
    })
}

fn envelope(status: &str) -> String {
    format!(
        r#"{{
          "schemaVersion": {ver},
          "toolVersion": "berme-eval 0.1.0",
          "pillar": {{
            "status": "{status}",
            "headline": "Eval gate held: key-F1 0.97",
            "metrics": [
              {{ "name": "key_f1", "value": 0.97, "baseline": 0.95,
                 "delta": 0.02, "direction": "higher_better" }}
            ],
            "findings": [
              {{ "severity": "major", "title": "value-accuracy dipped",
                 "detail": "0.91 < baseline 0.94" }}
            ]
          }}
        }}"#,
        ver = REPORT_SCHEMA_VERSION,
    )
}

#[test]
fn parses_a_well_formed_envelope() {
    let (pillar, ver) = parse(&envelope("pass"), None, decode).unwrap();
    assert_eq!(pillar.status, PillarStatus::Pass);
    assert_eq!(ver.as_deref(), Some("berme-eval 0.1.0"));
    assert_eq!(pillar.metrics.len(), 1);
    assert!(!pillar.metrics[0].regressed(sign));
    assert_eq!(pillar.findings[0].severity, Severity::Major);
}

#[test]
fn fail_status_round_trips() {
    let (pillar, _) = parse(&envelope("fail"), None, decode).unwrap();
    assert_eq!(pillar.status, PillarStatus::Fail);
}

#[test]
fn zaindari_fills_raw_ref_when_emitter_omits_it() {
    let (pillar, _) = parse(&envelope("pass"), Some("raw/gate-native.json".into()), decode).unwrap();
    assert_eq!(pillar.raw_ref.as_deref(), Some("raw/gate-native.json"));
}

#[test]
fn emitter_raw_ref_wins_over_zaindari_default() {
    let json = format!(
        r#"{{ "schemaVersion": {ver}, "pillar": {{ "status": "pass",
            "headline": "ok", "rawRef": "emitter/path.json" }} }}"#,
        ver = REPORT_SCHEMA_VERSION,
    );
    let (pillar, _) = parse(&json, Some("zaindari/path.json".into()), decode).unwrap();
    assert_eq!(pillar.raw_ref.as_deref(), Some("emitter/path.json"));
}

#[test]
fn wrong_schema_version_is_rejected() {
    let json = r#"{ "schemaVersion": 999, "pillar": { "status": "pass", "headline": "ok" } }"#;
    let err = parse(json, None, decode).unwrap_err();
    assert!(matches!(err, NativeError::Schema { got: 999, .. }));
}

#[test]
fn native_malformed_json_errors() {
    assert!(matches!(parse("{not json", None, decode), Err(NativeError::Parse(_))));
}

#[test]
fn schema_message_names_both_versions() {
    assert_eq!(
        zaindari::native::schema_message(999, 1),
        "native report schemaVersion 999 unsupported (this zaindari understands 1) — upgrade \
         zaindari or the emitter"
    );
}
