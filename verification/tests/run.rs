use zaindari::config::{Config, GateConfig, GuardConfig, WatchConfig};
use zaindari::failure::{engine_failure, Engine, EngineEvent};
use zaindari::report::{PillarResult, PillarStatus};
use zaindari::run::{
    extract_aatxe_version, gate_args, guard_args, native_args, run, stderr_tail, watch_args,
    watch_exit_failure, EngineOutcome, Selection,
};

fn no_gate(_c: &GateConfig) -> EngineOutcome<f64> {
    unreachable!("an unselected engine ran")
}

fn no_guard(_c: &GuardConfig) -> EngineOutcome<f64> {
    unreachable!("an unselected engine ran")
}

fn no_watch(_c: &WatchConfig<f64>) -> EngineOutcome<f64> {
    unreachable!("an unselected engine ran")
}

#[test]
fn unconfigured_pillars_stay_none() {
    let cfg: Config<f64> = Config::default();
    let report = run(&cfg, Selection::all(), no_gate, no_guard, no_watch);
    assert!(report.pillars.gate.is_none());
    assert!(report.pillars.guard.is_none());
    assert!(report.pillars.watch.is_none());
}

#[test]
fn configured_but_unselected_pillar_is_skipped() {
    let cfg: Config<f64> = Config {
        guard: Some(GuardConfig {
            bin: "iratxo".into(),
            packs: vec!["x.cases.yaml".into()],
        }),
        ..Default::default()
    };
    let report = run(&cfg, Selection::only_gate(), no_gate, no_guard, no_watch);
    let g = report.pillars.guard.unwrap();
    assert_eq!(g.status, PillarStatus::Skipped);
    assert_eq!(g.headline, "guard not selected this run");
    assert!(report.pillars.gate.is_none());
    assert!(report.pillars.watch.is_none());
}

#[test]
fn missing_engine_binary_yields_engine_missing_not_panic() {
    let cfg: Config<f64> = Config {
        guard: Some(GuardConfig {
            bin: "zaindari-no-such-binary-xyz".into(),
            packs: vec!["x.cases.yaml".into()],
        }),
        ..Default::default()
    };
    let missing = |gc: &GuardConfig| EngineOutcome {
        result: engine_failure(Engine::Iratxo, &gc.bin, EngineEvent::Missing),
        version: None,
    };
    let report = run(&cfg, Selection::only_guard(), no_gate, missing, no_watch);
    let g = report.pillars.guard.unwrap();
    assert_eq!(g.status, PillarStatus::EngineMissing);
    assert!(g.headline.contains("not found"));
    assert_eq!(
        g.headline,
        "engine `zaindari-no-such-binary-xyz` not found on PATH — build from the iratxo repo \
         (`cargo build -p iratxo-cli`) and set [guard].bin to it"
    );
}

fn sample_cfg() -> Config<f64> {
    Config {
        gate: Some(GateConfig {
            bin: "aatxe".into(),
            corpus: None,
            baseline: None,
            flags: vec![],
            report_cmd: None,
        }),
        guard: Some(GuardConfig {
            bin: "iratxo".into(),
            packs: vec![],
        }),
        watch: Some(WatchConfig {
            bin: "cardinal-map".into(),
            profiles: "p".into(),
            schema: "s".into(),
            input: "i".into(),
            anomaly_threshold: 0.6,
        }),
    }
}

#[test]
fn selected_pillars_get_the_engine_outcome() {
    let cfg = sample_cfg();
    let report = run(&cfg, Selection::only_watch(), no_gate, no_guard, |wc: &WatchConfig<f64>| {
        assert_eq!(wc.bin, "cardinal-map");
        EngineOutcome {
            result: PillarResult::new(PillarStatus::Warn, "drift"),
            version: Some("cm 1.0".to_string()),
        }
    });
    assert_eq!(report.pillars.watch.as_ref().unwrap().status, PillarStatus::Warn);
    assert_eq!(report.tool_versions.watch.as_deref(), Some("cm 1.0"));
    assert_eq!(
        report.pillars.gate.unwrap().headline,
        "gate not selected this run"
    );
    assert_eq!(report.pillars.guard.unwrap().status, PillarStatus::Skipped);
    assert!(report.tool_versions.gate.is_none());
    assert_eq!(report.schema_version, 1);
}

#[test]
fn gate_args_follow_the_config() {
    let gc = GateConfig {
        bin: "aatxe".into(),
        corpus: Some("evals/cases".into()),
        baseline: Some("evals/baseline.json".into()),
        flags: vec!["--council".into(), "--stats".into()],
        report_cmd: None,
    };
    assert_eq!(
        gate_args(&gc, "out.json"),
        vec![
            "evals",
            "--out",
            "out.json",
            "--corpus",
            "evals/cases",
            "--baseline",
            "evals/baseline.json",
            "--council",
            "--stats"
        ]
    );
    let bare = GateConfig {
        bin: "aatxe".into(),
        corpus: None,
        baseline: None,
        flags: vec![],
        report_cmd: None,
    };
    assert_eq!(gate_args(&bare, "o"), vec!["evals", "--out", "o"]);
}

#[test]
fn guard_and_watch_args() {
    let gc = GuardConfig {
        bin: "iratxo".into(),
        packs: vec!["a.yaml".into(), "dir".into()],
    };
    assert_eq!(guard_args(&gc), vec!["test", "a.yaml", "dir"]);
    let cfg = sample_cfg();
    let wc = cfg.watch.unwrap();
    assert_eq!(
        watch_args(&wc, "0.6"),
        vec![
            "check",
            "--json",
            "--schema",
            "s",
            "--profiles",
            "p",
            "--input",
            "i",
            "--threshold",
            "0.6"
        ]
    );
}

#[test]
fn native_args_substitute_every_out_token() {
    let args = vec![
        "--report".to_string(),
        "{out}".to_string(),
        "x={out},y={out}".to_string(),
        "{ou}t".to_string(),
    ];
    assert_eq!(
        native_args(&args, "/tmp/r.json"),
        vec!["--report", "/tmp/r.json", "x=/tmp/r.json,y=/tmp/r.json", "{ou}t"]
    );
}

#[test]
fn stderr_tail_is_prefixed_only_when_present() {
    assert_eq!(stderr_tail("  \n\t"), "");
    assert_eq!(stderr_tail("\n boom \n"), " — stderr: boom");
}

#[test]
fn aatxe_version_is_read_from_the_eval_json() {
    assert_eq!(
        extract_aatxe_version(r#"{"aatxeVersion": "0.1.1", "council": null}"#).as_deref(),
        Some("0.1.1")
    );
    assert_eq!(extract_aatxe_version(r#"{"aatxeVersion": 3}"#), None);
    assert_eq!(extract_aatxe_version("not json"), None);
    assert_eq!(extract_aatxe_version("[\"aatxeVersion\"]"), None);
}

#[test]
fn watch_exit_failure_reports_code_and_stderr() {
    assert!(watch_exit_failure::<f64>(Some(0), "ignored").is_none());
    let r = watch_exit_failure::<f64>(Some(3), "  bad schema\n").unwrap();
    assert_eq!(r.status, PillarStatus::EngineMissing);
    assert_eq!(r.headline, "cardinal-map check failed (exit Some(3)): bad schema");
    let r = watch_exit_failure::<f64>(None, "").unwrap();
    assert_eq!(r.headline, "cardinal-map check failed (exit None): ");
    let r = watch_exit_failure::<f64>(Some(-2147483648), "x").unwrap();
    assert_eq!(
        r.headline,
        "cardinal-map check failed (exit Some(-2147483648)): x"
    );
}
