//! Native-report adapter — the engine-agnostic integration point.
//!
//! Any command, in any language, can drive a pillar by emitting a
//! schema-versioned envelope wrapping a single [`PillarResult`]
//! (`{"schemaVersion": 1, "toolVersion": "…", "pillar": {…}}`, camelCase).
//! A native emitter is the authority on its own pass/fail: `pillar.status`
//! decides, the command's exit code is informational.

use vstd::prelude::*;
use crate::report::{PillarResult, PillarResultView, REPORT_SCHEMA_VERSION};
use crate::text::{append_str, decimal, from_chars, opt_view, push_decimal};

verus! {

/// `serde_json::Error`, carried opaquely in [`NativeError::Parse`].
#[verifier::external_type_specification]
#[verifier::external_body]
pub struct ExJsonError(serde_json::Error);

/// The on-disk envelope a native engine writes: a schema-versioned wrapper
/// around one [`PillarResult`] plus an optional engine version string.
pub struct NativeReport<N> {
    pub schema_version: u32,
    pub tool_version: Option<String>,
    pub pillar: PillarResult<N>,
}

/// Why a native report couldn't be turned into a pillar result.
#[derive(Debug)]
pub enum NativeError {
    /// The envelope JSON did not parse.
    Parse(serde_json::Error),
    /// The envelope's `schemaVersion` is not the one this library reads.
    Schema { got: u32, expected: u32 },
}

/// The pillar of an accepted envelope: the emitter's own `rawRef` wins, and
/// `raw_ref` fills it in only when the emitter set none.
pub open spec fn accepted_pillar<N>(
    p: PillarResultView<N>,
    raw_ref: Option<Seq<char>>,
) -> PillarResultView<N> {
    PillarResultView {
        raw_ref: if p.raw_ref is Some {
            p.raw_ref
        } else {
            raw_ref
        },
        ..p
    }
}

/// What validating the decoded envelope `nr` yields: a schema version other
/// than the one this library reads is refused; otherwise the emitter's pillar
/// (with `raw_ref` filled in only where it set none) and its tool version.
pub open spec fn validated<N>(
    nr: NativeReport<N>,
    raw_ref: Option<Seq<char>>,
    r: Result<(PillarResult<N>, Option<String>), NativeError>,
) -> bool {
    if nr.schema_version != REPORT_SCHEMA_VERSION {
        r matches Err(e) && e == (NativeError::Schema {
            got: nr.schema_version,
            expected: REPORT_SCHEMA_VERSION,
        })
    } else {
        r matches Ok((p, v)) && p@ == accepted_pillar(nr.pillar@, raw_ref) && v == nr.tool_version
    }
}

/// Validate a decoded envelope into a pillar result and the optional engine
/// version. `raw_ref` is filled in only when the emitter didn't set its own.
pub fn validate<N>(nr: NativeReport<N>, raw_ref: Option<String>) -> (r: Result<
    (PillarResult<N>, Option<String>),
    NativeError,
>)
    ensures
        validated(nr, opt_view(raw_ref), r),
{
    if nr.schema_version != REPORT_SCHEMA_VERSION {
        return Err(NativeError::Schema { got: nr.schema_version, expected: REPORT_SCHEMA_VERSION });
    }
    let mut pillar = nr.pillar;
    if pillar.raw_ref.is_none() {
        pillar.raw_ref = raw_ref;
    }
    Ok((pillar, nr.tool_version))
}

/// Parse a native report: `decode` reads the envelope out of `json` (the
/// caller's JSON decoder), and the decoded envelope is validated. JSON that
/// does not decode is [`NativeError::Parse`] with the decoder's error; a
/// decoded envelope goes through [`validate`].
pub fn parse<N, D: Fn(&str) -> Result<NativeReport<N>, serde_json::Error>>(
    json: &str,
    raw_ref: Option<String>,
    decode: D,
) -> (r: Result<(PillarResult<N>, Option<String>), NativeError>)
    requires
        decode.requires((json,)),
    ensures
        exists|d: Result<NativeReport<N>, serde_json::Error>|
            #![trigger decode.ensures((json,), d)]
            decode.ensures((json,), d) && match d {
                Err(e) => r == Err::<(PillarResult<N>, Option<String>), NativeError>(
                    NativeError::Parse(e),
                ),
                Ok(nr) => validated(nr, opt_view(raw_ref), r),
            },
{
    let d = decode(json);
    match d {
        Err(e) => Err(NativeError::Parse(e)),
        Ok(nr) => validate(nr, raw_ref),
    }
}

/// The message for an envelope whose schema version is not the one read.
pub open spec fn schema_message_text(got: u32, expected: u32) -> Seq<char> {
    "native report schemaVersion "@ + decimal(got as nat) + " unsupported (this zaindari understands "@
        + decimal(expected as nat) + ") — upgrade zaindari or the emitter"@
}

/// The message for an envelope whose schema version is not the one read.
pub fn schema_message(got: u32, expected: u32) -> (r: String)
    ensures
        r@ == schema_message_text(got, expected),
{
    let mut v: Vec<char> = Vec::new();
    append_str(&mut v, "native report schemaVersion ");
    push_decimal(&mut v, got as u64);
    append_str(&mut v, " unsupported (this zaindari understands ");
    push_decimal(&mut v, expected as u64);
    append_str(&mut v, ") — upgrade zaindari or the emitter");
    proof {
        assert(v@ =~= schema_message_text(got, expected));
    }
    from_chars(&v)
}

/// A native emitter is the authority on its own result: accepting its
/// envelope keeps its status, headline, metrics and findings, and keeps its
/// own `rawRef` when it set one.
pub proof fn law_native_emitter_decides<N>(p: PillarResultView<N>, raw_ref: Option<Seq<char>>)
    ensures
        accepted_pillar(p, raw_ref).status == p.status,
        accepted_pillar(p, raw_ref).headline == p.headline,
        accepted_pillar(p, raw_ref).metrics == p.metrics,
        accepted_pillar(p, raw_ref).findings == p.findings,
        p.raw_ref is Some ==> accepted_pillar(p, raw_ref).raw_ref == p.raw_ref,
        p.raw_ref is None ==> accepted_pillar(p, raw_ref).raw_ref == raw_ref,
{
}

/// Install hint shown when a native command's binary is absent.
pub fn install_hint() -> (r: &'static str)
    ensures
        r@ == "the configured `report_cmd` binary was not found — check the command path"@,
{
    "the configured `report_cmd` binary was not found — check the command path"
}

} // verus!
