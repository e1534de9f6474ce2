//! What running an engine produced, and why an engine could not be run.
//!
//! Spawning the process is the caller's side effect; these are the plain
//! values it hands back.

use vstd::prelude::*;
use crate::failure::EngineEvent;
use crate::text::{append_str, from_chars};

verus! {

/// `std::io::Error`, carried opaquely in [`EngineError::Spawn`].
#[verifier::external_type_specification]
#[verifier::external_body]
pub struct ExIoError(std::io::Error);

/// What an engine invocation produced.
#[derive(Debug, Clone, PartialEq, Eq)]
pub struct EngineRun {
    pub stdout: String,
    pub stderr: String,
    /// `None` if the process was terminated by a signal.
    pub exit_code: Option<i32>,
}

/// Why an engine couldn't be run.
#[derive(Debug)]
pub enum EngineError {
    /// The binary was not found or is not executable: the pillar reports
    /// `engine_missing`, not a hard failure.
    Missing(String),
    /// The binary was found but spawning or waiting failed otherwise.
    Spawn { bin: String, source: std::io::Error },
}

/// Calls `ToString::to_string` on a `std::io::Error`, which formats it
/// through its `Display` impl: the operating system's description of the
/// error. Nothing is claimed of the text, which comes from the platform.
#[verifier::external_body]
fn io_error_text(e: &std::io::Error) -> (r: String) {
    e.to_string()
}

/// The message that names the binary a spawn failure was about.
pub open spec fn spawn_message_prefix(bin: Seq<char>) -> Seq<char> {
    "running `"@ + bin + "`: "@
}

impl EngineError {
    /// The event a failed start hands on: a missing binary stays missing;
    /// any other failure becomes a spawn failure whose message names the
    /// binary and then gives the operating system's description.
    pub fn event(self) -> (ev: EngineEvent)
        ensures
            self is Missing ==> ev is Missing,
            self matches EngineError::Spawn { bin, .. } ==> (ev matches EngineEvent::SpawnFailed(m)
                && m@.len() >= spawn_message_prefix(bin@).len() && m@.take(
                spawn_message_prefix(bin@).len() as int,
            ) == spawn_message_prefix(bin@)),
    {
        match self {
            EngineError::Missing(_) => EngineEvent::Missing,
            EngineError::Spawn { bin, source } => {
                let mut v: Vec<char> = Vec::new();
                append_str(&mut v, "running `");
                append_str(&mut v, bin.as_str());
                append_str(&mut v, "`: ");
                let ghost head = v@;
                let t = io_error_text(&source);
                append_str(&mut v, t.as_str());
                proof {
                    assert(head =~= spawn_message_prefix(bin@));
                    assert(v@.take(head.len() as int) =~= head);
                }
                EngineEvent::SpawnFailed(from_chars(&v))
            },
        }
    }
}

} // verus!
