//! Engine failures — what a pillar reports when its engine could not be run
//! or what it produced could not be read.
//!
//! Running an engine and reading its files is the caller's side effect; the
//! caller hands over what went wrong as an [`EngineEvent`] and gets the
//! pillar's result back. Every such result is `engine_missing`, so a broken
//! engine always maps to exit code 1 and never to a panic.

use vstd::prelude::*;
use crate::native::{schema_message, schema_message_text};
use crate::report::{bare_result, engine_missing_headline, PillarResult, PillarStatus};
use crate::run::{exit_debug, stderr_tail, stderr_tail_text};
use crate::text::{append_chars, append_str, from_chars, push_signed_decimal, to_chars};
use crate::{gate, guard, native, watch};

verus! {

/// The engine behind a pillar.
#[derive(Debug, Clone, Copy, PartialEq, Eq, Structural)]
pub enum Engine {
    /// Gate's eval harness.
    Aatxe,
    /// Guard's test runner.
    Iratxo,
    /// Watch's scorer.
    CardinalMap,
    /// A `report_cmd` that writes the native envelope.
    Native,
}

/// What went wrong between starting an engine and reading its output.
#[derive(Debug)]
pub enum EngineEvent {
    /// The engine binary is not on PATH or not executable.
    Missing,
    /// Spawning or waiting for the engine failed otherwise; the message says
    /// how.
    SpawnFailed(String),
    /// A native `report_cmd` with no program in it.
    EmptyCommand,
    /// The engine ran, but the file it should have written could not be read.
    OutputUnreadable { exit_code: Option<i32>, path: String, error: String, stderr: String },
    /// The engine's JSON did not decode; the decoder's message.
    DecodeFailed(String),
    /// A native envelope whose schema version this library does not read.
    SchemaRejected { got: u32, expected: u32 },
}

/// The install hint shown when an engine's binary is absent.
pub open spec fn install_hint_of(e: Engine) -> Seq<char> {
    match e {
        Engine::Aatxe => "install with `cargo install aatxe`, or set [gate].bin to its path"@,
        Engine::Iratxo => "build from the iratxo repo (`cargo build -p iratxo-cli`) and set [guard].bin to it"@,
        Engine::CardinalMap => "build from the cardinal-map repo (`go build`) and set [watch].bin to it"@,
        Engine::Native => "the configured `report_cmd` binary was not found — check the command path"@,
    }
}

/// Which events an engine can run into: every engine can be missing or fail
/// to spawn; only a native command can be empty or emit a foreign schema;
/// only aatxe and a native command write an output file; and Guard's text
/// output is never decoded as JSON.
pub open spec fn event_applies(e: Engine, ev: EngineEvent) -> bool {
    match ev {
        EngineEvent::Missing => true,
        EngineEvent::SpawnFailed(_) => true,
        EngineEvent::EmptyCommand => e == Engine::Native,
        EngineEvent::SchemaRejected { .. } => e == Engine::Native,
        EngineEvent::OutputUnreadable { .. } => e == Engine::Aatxe || e == Engine::Native,
        EngineEvent::DecodeFailed(_) => e != Engine::Iratxo,
    }
}

/// What a decode failure's headline starts with, by engine (Guard's text
/// output is never decoded, see [`event_applies`]).
pub open spec fn decode_prefix(e: Engine) -> Seq<char> {
    match e {
        Engine::Aatxe => "aatxe eval JSON did not parse: "@,
        Engine::CardinalMap => "cardinal-map JSON did not parse: "@,
        _ => "native report JSON did not parse: "@,
    }
}

/// The headline when aatxe's eval JSON could not be read.
pub open spec fn aatxe_unreadable_headline(
    exit_code: Option<i32>,
    path: Seq<char>,
    error: Seq<char>,
) -> Seq<char> {
    "aatxe ran (exit "@ + exit_debug(exit_code) + ") but its eval JSON at "@ + path
        + " was unreadable: "@ + error
}

/// The headline when a native command wrote no readable report.
pub open spec fn native_unreadable_headline(
    bin: Seq<char>,
    exit_code: Option<i32>,
    path: Seq<char>,
    error: Seq<char>,
    stderr: Seq<char>,
) -> Seq<char> {
    "`"@ + bin + "` ran (exit "@ + exit_debug(exit_code) + ") but wrote no native report at "@
        + path + ": "@ + error + stderr_tail_text(stderr)
}

/// The headline of the `engine_missing` result for `ev` on engine `e` run
/// as `bin`.
pub open spec fn failure_headline(e: Engine, bin: Seq<char>, ev: EngineEvent) -> Seq<char> {
    match ev {
        EngineEvent::Missing => engine_missing_headline(bin, install_hint_of(e)),
        EngineEvent::SpawnFailed(m) => m@,
        EngineEvent::EmptyCommand => "report_cmd is empty — give it `[program, args…]`"@,
        EngineEvent::OutputUnreadable { exit_code, path, error, stderr } => if e == Engine::Aatxe {
            aatxe_unreadable_headline(exit_code, path@, error@)
        } else {
            native_unreadable_headline(bin, exit_code, path@, error@, stderr@)
        },
        EngineEvent::DecodeFailed(m) => decode_prefix(e) + m@,
        EngineEvent::SchemaRejected { got, expected } => schema_message_text(got, expected),
    }
}

/// The install hint for an engine.
pub fn install_hint(e: Engine) -> (r: &'static str)
    ensures
        r@ == install_hint_of(e),
{
    match e {
        Engine::Aatxe => gate::install_hint(),
        Engine::Iratxo => guard::install_hint(),
        Engine::CardinalMap => watch::install_hint(),
        Engine::Native => native::install_hint(),
    }
}

fn push_exit_debug(v: &mut Vec<char>, code: Option<i32>)
    ensures
        final(v)@ == old(v)@ + exit_debug(code),
{
    match code {
        Some(n) => {
            append_str(v, "Some(");
            push_signed_decimal(v, n);
            append_str(v, ")");
        },
        None => {
            append_str(v, "None");
        },
    }
    proof {
        assert(v@ =~= old(v)@ + exit_debug(code));
    }
}

/// The result a pillar reports when its engine ran into `ev`: always
/// `engine_missing`, with a headline that says what happened.
pub fn engine_failure<N>(engine: Engine, bin: &str, ev: EngineEvent) -> (r: PillarResult<N>)
    requires
        event_applies(engine, ev),
    ensures
        r@ == bare_result::<N>(PillarStatus::EngineMissing, failure_headline(engine, bin@, ev)),
{
    match ev {
        EngineEvent::Missing => PillarResult::engine_missing(bin, install_hint(engine)),
        EngineEvent::SpawnFailed(m) => PillarResult::new(PillarStatus::EngineMissing, m.as_str()),
        EngineEvent::EmptyCommand => PillarResult::new(
            PillarStatus::EngineMissing,
            "report_cmd is empty — give it `[program, args…]`",
        ),
        EngineEvent::OutputUnreadable { exit_code, path, error, stderr } => {
            let mut v: Vec<char> = Vec::new();
            if engine == Engine::Aatxe {
                append_str(&mut v, "aatxe ran (exit ");
                push_exit_debug(&mut v, exit_code);
                append_str(&mut v, ") but its eval JSON at ");
                append_str(&mut v, path.as_str());
                append_str(&mut v, " was unreadable: ");
                append_str(&mut v, error.as_str());
                proof {
                    assert(v@ =~= aatxe_unreadable_headline(exit_code, path@, error@));
                }
            } else {
                append_str(&mut v, "`");
                append_str(&mut v, bin);
                append_str(&mut v, "` ran (exit ");
                push_exit_debug(&mut v, exit_code);
                append_str(&mut v, ") but wrote no native report at ");
                append_str(&mut v, path.as_str());
                append_str(&mut v, ": ");
                append_str(&mut v, error.as_str());
                let tail = stderr_tail(stderr.as_str());
                append_str(&mut v, tail.as_str());
                proof {
                    assert(v@ =~= native_unreadable_headline(
                        bin@,
                        exit_code,
                        path@,
                        error@,
                        stderr@,
                    ));
                }
            }
            let h = from_chars(&v);
            PillarResult::new(PillarStatus::EngineMissing, h.as_str())
        },
        EngineEvent::DecodeFailed(m) => {
            let mut v: Vec<char> = Vec::new();
            match engine {
                Engine::Aatxe => append_str(&mut v, "aatxe eval JSON did not parse: "),
                Engine::CardinalMap => append_str(&mut v, "cardinal-map JSON did not parse: "),
                _ => append_str(&mut v, "native report JSON did not parse: "),
            }
            let mc = to_chars(m.as_str());
            append_chars(&mut v, &mc);
            let h = from_chars(&v);
            PillarResult::new(PillarStatus::EngineMissing, h.as_str())
        },
        EngineEvent::SchemaRejected { got, expected } => {
            let h = schema_message(got, expected);
            PillarResult::new(PillarStatus::EngineMissing, h.as_str())
        },
    }
}

} // verus!
