//! Orchestrator — decide which configured pillars run, assemble the
//! [`ZaindariReport`], and build each engine's command line.
//!
//! Invoking an engine is the caller's side effect: [`run`] is handed a
//! function that runs one pillar's engine and reports what came of it.

use vstd::prelude::*;
use crate::config::{Config, GateConfig, GuardConfig, WatchConfig};
use crate::policy::{code_for, law_quiet_pillars_do_not_gate, report_code, status_of, PolicyOptions};
use crate::report::{bare_result, PillarResult, PillarStatus, ZaindariReport, REPORT_SCHEMA_VERSION};
use crate::text::{
    append_chars, append_str, from_chars, opt_view, push_signed_decimal, replace_all,
    replace_chars, signed_decimal, string_views, to_chars, trim, trim_chars,
};

verus! {

/// Which pillars to run this invocation.
#[derive(Debug, Clone, Copy, PartialEq, Eq, Structural)]
pub struct Selection {
    pub gate: bool,
    pub guard: bool,
    pub watch: bool,
}

impl Selection {
    /// Every pillar.
    pub fn all() -> (r: Self)
        ensures
            r == (Selection { gate: true, guard: true, watch: true }),
    {
        Self { gate: true, guard: true, watch: true }
    }

    /// Just Gate.
    pub fn only_gate() -> (r: Self)
        ensures
            r == (Selection { gate: true, guard: false, watch: false }),
    {
        Self { gate: true, guard: false, watch: false }
    }

    /// Just the guard pillar.
    pub fn only_guard() -> (r: Self)
        ensures
            r == (Selection { gate: false, guard: true, watch: false }),
    {
        Self { gate: false, guard: true, watch: false }
    }

    /// Just the watch pillar.
    pub fn only_watch() -> (r: Self)
        ensures
            r == (Selection { gate: false, guard: false, watch: true }),
    {
        Self { gate: false, guard: false, watch: true }
    }
}

/// One of the three pillars.
#[derive(Debug, Clone, Copy, PartialEq, Eq, Structural)]
pub enum Pillar {
    Gate,
    Guard,
    Watch,
}

/// What running one pillar's engine produced: its result and the engine
/// version it reported, if any.
pub struct EngineOutcome<N> {
    pub result: PillarResult<N>,
    pub version: Option<String>,
}

/// The headline of a configured pillar that was not selected.
pub open spec fn not_selected_headline(p: Pillar) -> Seq<char> {
    match p {
        Pillar::Gate => "gate not selected this run"@,
        Pillar::Guard => "guard not selected this run"@,
        Pillar::Watch => "watch not selected this run"@,
    }
}

/// How one pillar's slot in the report was filled: absent when the pillar
/// is not configured, skipped when configured but not selected, and
/// otherwise what `engine` reported for the pillar's configuration.
pub open spec fn slot_filled<N, C, F: Fn(&C) -> EngineOutcome<N>>(
    engine: F,
    p: Pillar,
    configured: Option<C>,
    selected: bool,
    result: Option<PillarResult<N>>,
    version: Option<String>,
) -> bool {
    match configured {
        None => result is None && version is None,
        Some(c) => if !selected {
            &&& result matches Some(r) && r@ == bare_result::<N>(
                PillarStatus::Skipped,
                not_selected_headline(p),
            )
            &&& version is None
        } else {
            result is Some && engine.ensures((&c,), EngineOutcome { result: result->0, version })
        },
    }
}

/// `engine` may be called on the configuration of a pillar that is both
/// configured and selected.
pub open spec fn callable_when_selected<N, C, F: Fn(&C) -> EngineOutcome<N>>(
    engine: F,
    configured: Option<C>,
    selected: bool,
) -> bool {
    match configured {
        Some(c) => selected ==> engine.requires((&c,)),
        None => true,
    }
}

/// Run the selected, configured pillars and assemble the report.
///
/// Each pillar's engine is a function of that pillar's configuration; it is
/// called only for a pillar that is configured and selected. A
/// configured-but-unselected pillar is reported `Skipped` and its engine is
/// not run. An unconfigured pillar is left `None`.
pub fn run<N, G, D, W>(cfg: &Config<N>, sel: Selection, gate: G, guard: D, watch: W) -> (r:
    ZaindariReport<N>) where
    G: Fn(&GateConfig) -> EngineOutcome<N>,
    D: Fn(&GuardConfig) -> EngineOutcome<N>,
    W: Fn(&WatchConfig<N>) -> EngineOutcome<N>,

    requires
        callable_when_selected(gate, cfg.gate, sel.gate),
        callable_when_selected(guard, cfg.guard, sel.guard),
        callable_when_selected(watch, cfg.watch, sel.watch),
    ensures
        r.schema_version == REPORT_SCHEMA_VERSION,
        slot_filled(gate, Pillar::Gate, cfg.gate, sel.gate, r.pillars.gate, r.tool_versions.gate),
        slot_filled(
            guard,
            Pillar::Guard,
            cfg.guard,
            sel.guard,
            r.pillars.guard,
            r.tool_versions.guard,
        ),
        slot_filled(
            watch,
            Pillar::Watch,
            cfg.watch,
            sel.watch,
            r.pillars.watch,
            r.tool_versions.watch,
        ),
{
    let mut report: ZaindariReport<N> = ZaindariReport::empty();

    if let Some(gc) = &cfg.gate {
        if sel.gate {
            let o = gate(gc);
            report.pillars.gate = Some(o.result);
            report.tool_versions.gate = o.version;
        } else {
            report.pillars.gate = Some(PillarResult::new(PillarStatus::Skipped, "gate not selected this run"));
        }
    }
    if let Some(gc) = &cfg.guard {
        if sel.guard {
            let o = guard(gc);
            report.pillars.guard = Some(o.result);
            report.tool_versions.guard = o.version;
        } else {
            report.pillars.guard = Some(PillarResult::new(PillarStatus::Skipped, "guard not selected this run"));
        }
    }
    if let Some(wc) = &cfg.watch {
        if sel.watch {
            let o = watch(wc);
            report.pillars.watch = Some(o.result);
            report.tool_versions.watch = o.version;
        } else {
            report.pillars.watch = Some(PillarResult::new(PillarStatus::Skipped, "watch not selected this run"));
        }
    }

    report
}

/// A pillar that is configured but not selected comes out skipped and so
/// never changes the exit code: the code is the one the report would get
/// with that pillar left out. Selecting nothing gives exit 0.
pub proof fn law_unselected_pillars_do_not_gate<N, G, D, W>(
    gate: G,
    guard: D,
    watch: W,
    cfg: Config<N>,
    sel: Selection,
    r: ZaindariReport<N>,
    opts: PolicyOptions,
) where
    G: Fn(&GateConfig) -> EngineOutcome<N>,
    D: Fn(&GuardConfig) -> EngineOutcome<N>,
    W: Fn(&WatchConfig<N>) -> EngineOutcome<N>,

    requires
        slot_filled(gate, Pillar::Gate, cfg.gate, sel.gate, r.pillars.gate, r.tool_versions.gate),
        slot_filled(guard, Pillar::Guard, cfg.guard, sel.guard, r.pillars.guard, r.tool_versions.guard),
        slot_filled(watch, Pillar::Watch, cfg.watch, sel.watch, r.pillars.watch, r.tool_versions.watch),
    ensures
        !sel.gate ==> report_code(r, opts) == code_for(
            None,
            status_of(r.pillars.guard),
            status_of(r.pillars.watch),
            opts.strict_watch,
        ),
        !sel.guard ==> report_code(r, opts) == code_for(
            status_of(r.pillars.gate),
            None,
            status_of(r.pillars.watch),
            opts.strict_watch,
        ),
        !sel.watch ==> report_code(r, opts) == code_for(
            status_of(r.pillars.gate),
            status_of(r.pillars.guard),
            None,
            opts.strict_watch,
        ),
        !sel.gate && !sel.guard && !sel.watch ==> report_code(r, opts) == 0,
{
    law_quiet_pillars_do_not_gate(
        status_of(r.pillars.gate),
        status_of(r.pillars.guard),
        status_of(r.pillars.watch),
        opts.strict_watch,
    );
    law_quiet_pillars_do_not_gate(None, status_of(r.pillars.guard), status_of(r.pillars.watch), opts.strict_watch);
    law_quiet_pillars_do_not_gate(None, None, status_of(r.pillars.watch), opts.strict_watch);
}

// ---------------------------------------------------------------------------
// Engine command lines
// ---------------------------------------------------------------------------

/// `[flag, value]` when the value is present, nothing otherwise.
pub open spec fn flag_pair(flag: Seq<char>, value: Option<String>) -> Seq<Seq<char>> {
    match value {
        Some(v) => seq![flag, v@],
        None => seq![],
    }
}

/// `aatxe evals --out <out> [--corpus <c>] [--baseline <b>] <flags…>`.
pub open spec fn gate_command(gc: GateConfig, out: Seq<char>) -> Seq<Seq<char>> {
    seq!["evals"@, "--out"@, out] + flag_pair("--corpus"@, gc.corpus) + flag_pair(
        "--baseline"@,
        gc.baseline,
    ) + string_views(gc.flags@)
}

/// `iratxo test <packs…>`.
pub open spec fn guard_command(gc: GuardConfig) -> Seq<Seq<char>> {
    seq!["test"@] + string_views(gc.packs@)
}

/// `cardinal-map check --json --schema <s> --profiles <p> --input <i>
/// --threshold <t>`.
pub open spec fn watch_command<N>(wc: WatchConfig<N>, threshold: Seq<char>) -> Seq<Seq<char>> {
    seq![
        "check"@,
        "--json"@,
        "--schema"@,
        wc.schema@,
        "--profiles"@,
        wc.profiles@,
        "--input"@,
        wc.input@,
        "--threshold"@,
        threshold,
    ]
}

/// A native command's arguments with every `{out}` replaced by `out`.
pub open spec fn native_command(args: Seq<Seq<char>>, out: Seq<char>) -> Seq<Seq<char>> {
    args.map_values(|a: Seq<char>| replace_all(a, "{out}"@, out))
}

fn push_str_arg(v: &mut Vec<String>, s: &str)
    ensures
        string_views(final(v)@) == string_views(old(v)@).push(s@),
{
    let ghost before = v@;
    v.push(s.to_string());
    proof {
        assert(string_views(v@) =~= string_views(before).push(s@));
    }
}

fn push_all(v: &mut Vec<String>, items: &Vec<String>)
    ensures
        string_views(final(v)@) == string_views(old(v)@) + string_views(items@),
{
    let mut i: usize = 0;
    while i < items.len()
        invariant
            i <= items@.len(),
            string_views(v@) == string_views(old(v)@) + string_views(items@).take(i as int),
        decreases items@.len() - i,
    {
        let ghost before = v@;
        v.push(items[i].clone());
        proof {
            assert(string_views(v@) =~= string_views(before).push(items@[i as int]@));
            assert(string_views(items@).take(i + 1) =~= string_views(items@).take(i as int).push(
                items@[i as int]@,
            ));
        }
        i += 1;
    }
    proof {
        assert(string_views(items@).take(items@.len() as int) =~= string_views(items@));
    }
}

/// The `aatxe evals` arguments, writing the eval JSON to `out`.
pub fn gate_args(gc: &GateConfig, out: &str) -> (r: Vec<String>)
    ensures
        string_views(r@) == gate_command(*gc, out@),
{
    let mut args: Vec<String> = Vec::new();
    push_str_arg(&mut args, "evals");
    push_str_arg(&mut args, "--out");
    push_str_arg(&mut args, out);
    proof {
        assert(string_views(args@) =~= seq!["evals"@, "--out"@, out@]);
    }
    let ghost a1 = string_views(args@);
    if let Some(corpus) = &gc.corpus {
        push_str_arg(&mut args, "--corpus");
        push_str_arg(&mut args, corpus.as_str());
    }
    proof {
        assert(string_views(args@) =~= a1 + flag_pair("--corpus"@, gc.corpus));
    }
    let ghost a2 = string_views(args@);
    if let Some(baseline) = &gc.baseline {
        push_str_arg(&mut args, "--baseline");
        push_str_arg(&mut args, baseline.as_str());
    }
    proof {
        assert(string_views(args@) =~= a2 + flag_pair("--baseline"@, gc.baseline));
    }
    push_all(&mut args, &gc.flags);
    args
}

/// The `iratxo test` arguments.
pub fn guard_args(gc: &GuardConfig) -> (r: Vec<String>)
    ensures
        string_views(r@) == guard_command(*gc),
{
    let mut args: Vec<String> = Vec::new();
    push_str_arg(&mut args, "test");
    push_all(&mut args, &gc.packs);
    args
}

/// The `cardinal-map check` arguments; `threshold` is the configured
/// threshold as text.
pub fn watch_args<N>(wc: &WatchConfig<N>, threshold: &str) -> (r: Vec<String>)
    ensures
        string_views(r@) == watch_command(*wc, threshold@),
{
    let mut args: Vec<String> = Vec::new();
    push_str_arg(&mut args, "check");
    push_str_arg(&mut args, "--json");
    push_str_arg(&mut args, "--schema");
    push_str_arg(&mut args, wc.schema.as_str());
    push_str_arg(&mut args, "--profiles");
    push_str_arg(&mut args, wc.profiles.as_str());
    push_str_arg(&mut args, "--input");
    push_str_arg(&mut args, wc.input.as_str());
    push_str_arg(&mut args, "--threshold");
    push_str_arg(&mut args, threshold);
    proof {
        assert(string_views(args@) =~= watch_command(*wc, threshold@));
    }
    args
}

/// A native command's arguments with the `{out}` token substituted.
pub fn native_args(args: &[String], out: &str) -> (r: Vec<String>)
    ensures
        string_views(r@) == native_command(string_views(args@), out@),
{
    let token = to_chars("{out}");
    let out_chars = to_chars(out);
    proof {
        reveal_strlit("{out}");
    }
    let mut r: Vec<String> = Vec::new();
    let mut i: usize = 0;
    while i < args.len()
        invariant
            i <= args@.len(),
            token@ == "{out}"@,
            token@.len() > 0,
            out_chars@ == out@,
            string_views(r@) == native_command(string_views(args@), out@).take(i as int),
        decreases args@.len() - i,
    {
        let a = to_chars(args[i].as_str());
        let replaced = replace_chars(&a, &token, &out_chars);
        let ghost before = r@;
        r.push(from_chars(&replaced));
        proof {
            assert(string_views(r@) =~= string_views(before).push(replaced@));
            assert(native_command(string_views(args@), out@).take(i + 1) =~= native_command(
                string_views(args@),
                out@,
            ).take(i as int).push(replaced@));
        }
        i += 1;
    }
    proof {
        assert(native_command(string_views(args@), out@).take(args@.len() as int)
            =~= native_command(string_views(args@), out@));
    }
    r
}

/// A trailing snippet of stderr for error context: empty when stderr is
/// blank, otherwise ` — stderr: ` and the trimmed text.
pub open spec fn stderr_tail_text(stderr: Seq<char>) -> Seq<char> {
    if trim(stderr).len() == 0 {
        seq![]
    } else {
        " — stderr: "@ + trim(stderr)
    }
}

/// A trailing snippet of stderr for error context, prefixed only when present.
pub fn stderr_tail(stderr: &str) -> (r: String)
    ensures
        r@ == stderr_tail_text(stderr@),
{
    let cs = to_chars(stderr);
    let t = trim_chars(&cs);
    let mut v: Vec<char> = Vec::new();
    if t.len() > 0 {
        append_str(&mut v, " — stderr: ");
        append_chars(&mut v, &t);
    }
    proof {
        assert(v@ =~= stderr_tail_text(stderr@));
    }
    from_chars(&v)
}

/// `{:?}` of an optional exit code: `Some(<n>)` or `None`.
pub open spec fn exit_debug(code: Option<i32>) -> Seq<char> {
    match code {
        Some(n) => "Some("@ + signed_decimal(n as int) + ")"@,
        None => "None"@,
    }
}

/// The headline of a `cardinal-map check` run that exited non-zero.
pub open spec fn watch_failure_headline(code: Option<i32>, stderr: Seq<char>) -> Seq<char> {
    "cardinal-map check failed (exit "@ + exit_debug(code) + "): "@ + trim(stderr)
}

/// A non-zero exit from `cardinal-map check` is an operational error (bad
/// schema, unreadable input), not an anomaly: it yields an `engine_missing`
/// result carrying the exit code and stderr. `None` when the run exited 0.
pub fn watch_exit_failure<N>(exit_code: Option<i32>, stderr: &str) -> (r: Option<PillarResult<N>>)
    ensures
        r is Some <==> exit_code != Some(0i32),
        r matches Some(p) ==> p@ == bare_result::<N>(
            PillarStatus::EngineMissing,
            watch_failure_headline(exit_code, stderr@),
        ),
{
    if exit_code == Some(0) {
        return None;
    }
    let mut v: Vec<char> = Vec::new();
    append_str(&mut v, "cardinal-map check failed (exit ");
    match exit_code {
        Some(n) => {
            append_str(&mut v, "Some(");
            push_signed_decimal(&mut v, n);
            append_str(&mut v, ")");
        },
        None => {
            append_str(&mut v, "None");
        },
    }
    append_str(&mut v, "): ");
    let cs = to_chars(stderr);
    let t = trim_chars(&cs);
    append_chars(&mut v, &t);
    proof {
        assert(v@ =~= watch_failure_headline(exit_code, stderr@));
    }
    let h = from_chars(&v);
    Some(PillarResult::new(PillarStatus::EngineMissing, h.as_str()))
}

/// The string value of the top-level member `key` of the JSON document
/// `json`, as `serde_json` reads it (`None` when the document does not parse,
/// is not an object, lacks the member, or the member is not a string).
pub uninterp spec fn json_str_member_of(json: Seq<char>, key: Seq<char>) -> Option<Seq<char>>;

/// Calls `serde_json::from_str::<serde_json::Value>` and reads the string
/// member `key` out of the document. Claimed: the result is
/// [`json_str_member_of`] of the arguments, a function of them alone.
#[verifier::external_body]
fn json_str_member(json: &str, key: &str) -> (r: Option<String>)
    ensures
        opt_view(r) == json_str_member_of(json@, key@),
{
    let v: serde_json::Value = match serde_json::from_str(json) {
        Ok(v) => v,
        Err(_) => return None,
    };
    match v.get(key) {
        Some(serde_json::Value::String(s)) => Some(s.clone()),
        _ => None,
    }
}

/// The `aatxeVersion` string of an aatxe eval JSON.
pub fn extract_aatxe_version(json: &str) -> (r: Option<String>)
    ensures
        opt_view(r) == json_str_member_of(json@, "aatxeVersion"@),
{
    json_str_member(json, "aatxeVersion")
}

/// Where `--baseline` stands in the `aatxe evals` arguments: after
/// `evals --out <out>` and, when a corpus is configured, `--corpus <c>`.
pub open spec fn baseline_position(gc: GateConfig) -> int {
    if gc.corpus is Some {
        5
    } else {
        3
    }
}

/// The `aatxe evals` arguments, position by position: `evals --out <out>`;
/// then `--corpus <c>` when a corpus is configured; then `--baseline <b>`
/// when a baseline is configured, whether or not there is a corpus; then
/// the extra flags, in order, and nothing else.
pub proof fn law_gate_command_layout(gc: GateConfig, out: Seq<char>)
    ensures
        gate_command(gc, out).len() == baseline_position(gc) + (if gc.baseline is Some {
            2int
        } else {
            0int
        }) + gc.flags@.len(),
        gate_command(gc, out)[0] == "evals"@,
        gate_command(gc, out)[1] == "--out"@,
        gate_command(gc, out)[2] == out,
        gc.corpus matches Some(c) ==> gate_command(gc, out)[3] == "--corpus"@ && gate_command(
            gc,
            out,
        )[4] == c@,
        gc.baseline matches Some(b) ==> gate_command(gc, out)[baseline_position(gc)]
            == "--baseline"@ && gate_command(gc, out)[baseline_position(gc) + 1] == b@,
        forall|j: int|
            0 <= j < gc.flags@.len() ==> #[trigger] gate_command(gc, out)[gate_command(
                gc,
                out,
            ).len() - gc.flags@.len() + j] == gc.flags@[j]@,
{
    let cmd = gate_command(gc, out);
    let head = seq!["evals"@, "--out"@, out] + flag_pair("--corpus"@, gc.corpus) + flag_pair(
        "--baseline"@,
        gc.baseline,
    );
    assert(cmd == head + string_views(gc.flags@));
    assert(head.len() == baseline_position(gc) + (if gc.baseline is Some {
        2int
    } else {
        0int
    }));
    assert forall|j: int| 0 <= j < gc.flags@.len() implies #[trigger] cmd[cmd.len()
        - gc.flags@.len() + j] == gc.flags@[j]@ by {
        assert(cmd[head.len() + j] == string_views(gc.flags@)[j]);
    }
}

} // verus!
