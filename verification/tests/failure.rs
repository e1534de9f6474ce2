use zaindari::engine::EngineError;
use zaindari::failure::{engine_failure, install_hint, Engine, EngineEvent};
use zaindari::report::{PillarResult, PillarStatus};

fn headline(engine: Engine, bin: &str, ev: EngineEvent) -> String {
    let r: PillarResult<f64> = engine_failure(engine, bin, ev);
    assert_eq!(r.status, PillarStatus::EngineMissing);
    assert!(r.metrics.is_empty() && r.findings.is_empty() && r.raw_ref.is_none());
    r.headline
}

#[test]
fn a_missing_binary_names_it_with_the_install_hint() {
    assert_eq!(
        headline(Engine::Aatxe, "aatxe", EngineEvent::Missing),
        "engine `aatxe` not found on PATH — install with `cargo install aatxe`, or set [gate].bin \
         to its path"
    );
    assert_eq!(
        headline(Engine::CardinalMap, "cm", EngineEvent::Missing),
        format!("engine `cm` not found on PATH — {}", install_hint(Engine::CardinalMap))
    );
    assert_eq!(
        install_hint(Engine::Native),
        "the configured `report_cmd` binary was not found — check the command path"
    );
}

#[test]
fn a_spawn_error_is_reported_verbatim() {
    assert_eq!(
        headline(Engine::Iratxo, "iratxo", EngineEvent::SpawnFailed("running `iratxo`: permission denied".to_string())),
        "running `iratxo`: permission denied"
    );
}

#[test]
fn an_empty_report_cmd_says_what_to_give() {
    assert_eq!(
        headline(Engine::Native, "", EngineEvent::EmptyCommand),
        "report_cmd is empty — give it `[program, args…]`"
    );
}

#[test]
fn unreadable_output_carries_exit_path_and_error() {
    let ev = EngineEvent::OutputUnreadable {
        exit_code: Some(1),
        path: "out/evals.json".to_string(),
        error: "No such file or directory (os error 2)".to_string(),
        stderr: "ignored for aatxe".to_string(),
    };
    assert_eq!(
        headline(Engine::Aatxe, "aatxe", ev),
        "aatxe ran (exit Some(1)) but its eval JSON at out/evals.json was unreadable: No such file \
         or directory (os error 2)"
    );
    let ev = EngineEvent::OutputUnreadable {
        exit_code: None,
        path: "r.json".to_string(),
        error: "gone".to_string(),
        stderr: "\n  boom \n".to_string(),
    };
    assert_eq!(
        headline(Engine::Native, "berme-eval", ev),
        "`berme-eval` ran (exit None) but wrote no native report at r.json: gone — stderr: boom"
    );
    let ev = EngineEvent::OutputUnreadable {
        exit_code: Some(0),
        path: "r.json".to_string(),
        error: "gone".to_string(),
        stderr: "  ".to_string(),
    };
    assert_eq!(
        headline(Engine::Native, "x", ev),
        "`x` ran (exit Some(0)) but wrote no native report at r.json: gone"
    );
}

#[test]
fn decode_failures_name_the_document() {
    assert_eq!(
        headline(Engine::Aatxe, "aatxe", EngineEvent::DecodeFailed("EOF".to_string())),
        "aatxe eval JSON did not parse: EOF"
    );
    assert_eq!(
        headline(Engine::CardinalMap, "cm", EngineEvent::DecodeFailed("EOF".to_string())),
        "cardinal-map JSON did not parse: EOF"
    );
    assert_eq!(
        headline(Engine::Native, "n", EngineEvent::DecodeFailed("EOF".to_string())),
        "native report JSON did not parse: EOF"
    );
}

#[test]
fn a_foreign_schema_is_engine_missing() {
    assert_eq!(
        headline(Engine::Native, "n", EngineEvent::SchemaRejected { got: 7, expected: 1 }),
        "native report schemaVersion 7 unsupported (this zaindari understands 1) — upgrade \
         zaindari or the emitter"
    );
}

#[test]
fn a_missing_binary_stays_missing_and_other_spawn_errors_name_the_binary() {
    assert!(matches!(EngineError::Missing("aatxe".to_string()).event(), EngineEvent::Missing));
    let e = EngineError::Spawn {
        bin: "iratxo".to_string(),
        source: std::io::Error::new(std::io::ErrorKind::PermissionDenied, "permission denied"),
    };
    match e.event() {
        EngineEvent::SpawnFailed(m) => assert_eq!(m, "running `iratxo`: permission denied"),
        _ => panic!("a spawn error became something else"),
    }
}
