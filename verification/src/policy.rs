//! Exit-code policy — the one place that turns a [`ZaindariReport`] into a
//! process exit code.
//!
//! Policy (CI-gate semantics):
//!   * any engine error / engine_missing → exit 1
//!   * gate or guard FAIL → exit 2 (block the build)
//!   * watch anomalies (WARN) → exit 0 by default; exit 2 if `strict_watch`
//!   * everything pass/skipped → exit 0

use vstd::prelude::*;
use crate::report::{PillarResult, PillarStatus, Pillars, ZaindariReport};

verus! {

/// Knobs that change how statuses map to codes.
#[derive(Debug, Clone, Copy, PartialEq, Eq, Structural)]
pub struct PolicyOptions {
    /// Promote watch anomalies (WARN) to a gating failure.
    pub strict_watch: bool,
    /// Reserved for a future "skip missing" behaviour: a missing engine
    /// yields exit 1 whatever this flag says.
    pub error_on_missing: bool,
}

impl Default for PolicyOptions {
    fn default() -> (r: Self)
        ensures
            !r.strict_watch,
            !r.error_on_missing,
    {
        PolicyOptions { strict_watch: false, error_on_missing: false }
    }
}

/// The status of an optional pillar result.
pub open spec fn status_of<N>(r: Option<PillarResult<N>>) -> Option<PillarStatus> {
    match r {
        Some(p) => Some(p.status),
        None => None,
    }
}

/// The exit code for the three pillars' statuses (`None` = not configured).
pub open spec fn code_for(
    gate: Option<PillarStatus>,
    guard: Option<PillarStatus>,
    watch: Option<PillarStatus>,
    strict_watch: bool,
) -> i32 {
    if gate == Some(PillarStatus::EngineMissing) || guard == Some(PillarStatus::EngineMissing)
        || watch == Some(PillarStatus::EngineMissing) {
        1
    } else if gate == Some(PillarStatus::Fail) || guard == Some(PillarStatus::Fail) {
        2
    } else if strict_watch && watch == Some(PillarStatus::Warn) {
        2
    } else {
        0
    }
}

/// The exit code the policy assigns to a report.
pub open spec fn report_code<N>(report: ZaindariReport<N>, opts: PolicyOptions) -> i32 {
    code_for(
        status_of(report.pillars.gate),
        status_of(report.pillars.guard),
        status_of(report.pillars.watch),
        opts.strict_watch,
    )
}

/// The exit code zaindari should return for a finished report.
pub fn exit_code<N>(report: &ZaindariReport<N>, opts: PolicyOptions) -> (code: i32)
    ensures
        code == report_code(*report, opts),
{
    let p = &report.pillars;

    // 1 — any engine that couldn't run (missing binary) is an error.
    if any(p, PillarStatus::EngineMissing) {
        return 1;
    }

    // 2 — gate/guard failure gates the build.
    let gate_failed = is(p.gate.as_ref(), PillarStatus::Fail);
    let guard_failed = is(p.guard.as_ref(), PillarStatus::Fail);
    if gate_failed || guard_failed {
        return 2;
    }

    // strict-watch: a watch WARN becomes a gating failure.
    if opts.strict_watch && is(p.watch.as_ref(), PillarStatus::Warn) {
        return 2;
    }

    0
}

/// Whether a present result has this status.
fn is<N>(r: Option<&PillarResult<N>>, status: PillarStatus) -> (b: bool)
    ensures
        b == (r matches Some(x) && x.status == status),
{
    match r {
        Some(x) => x.status == status,
        None => false,
    }
}

/// Whether any present pillar has this status.
fn any<N>(p: &Pillars<N>, status: PillarStatus) -> (b: bool)
    ensures
        b == (status_of(p.gate) == Some(status) || status_of(p.guard) == Some(status)
            || status_of(p.watch) == Some(status)),
{
    is(p.gate.as_ref(), status) || is(p.guard.as_ref(), status) || is(p.watch.as_ref(), status)
}

// ---------------------------------------------------------------------------
// Laws
// ---------------------------------------------------------------------------

/// The exit code is always 0, 1 or 2.
pub proof fn law_exit_code_range(
    gate: Option<PillarStatus>,
    guard: Option<PillarStatus>,
    watch: Option<PillarStatus>,
    strict_watch: bool,
)
    ensures
        code_for(gate, guard, watch, strict_watch) == 0 || code_for(gate, guard, watch, strict_watch)
            == 1 || code_for(gate, guard, watch, strict_watch) == 2,
{
}

/// A missing engine makes the run inconclusive (exit 1) whatever else
/// happened — it beats a failure.
pub proof fn law_engine_missing_is_one(
    gate: Option<PillarStatus>,
    guard: Option<PillarStatus>,
    watch: Option<PillarStatus>,
    strict_watch: bool,
)
    requires
        gate == Some(PillarStatus::EngineMissing) || guard == Some(PillarStatus::EngineMissing)
            || watch == Some(PillarStatus::EngineMissing),
    ensures
        code_for(gate, guard, watch, strict_watch) == 1,
{
}

/// Exit 1 happens only when some engine is missing.
pub proof fn law_one_only_when_missing(
    gate: Option<PillarStatus>,
    guard: Option<PillarStatus>,
    watch: Option<PillarStatus>,
    strict_watch: bool,
)
    requires
        code_for(gate, guard, watch, strict_watch) == 1,
    ensures
        gate == Some(PillarStatus::EngineMissing) || guard == Some(PillarStatus::EngineMissing)
            || watch == Some(PillarStatus::EngineMissing),
{
}

/// With no engine missing, a gate or guard failure blocks the build (exit 2).
pub proof fn law_gate_or_guard_fail_is_two(
    gate: Option<PillarStatus>,
    guard: Option<PillarStatus>,
    watch: Option<PillarStatus>,
    strict_watch: bool,
)
    requires
        gate != Some(PillarStatus::EngineMissing),
        guard != Some(PillarStatus::EngineMissing),
        watch != Some(PillarStatus::EngineMissing),
        gate == Some(PillarStatus::Fail) || guard == Some(PillarStatus::Fail),
    ensures
        code_for(gate, guard, watch, strict_watch) == 2,
{
}

/// Without `strict_watch`, the watch pillar never gates: whatever watch
/// reported other than a missing engine, the code is the one it would be
/// with watch passing.
pub proof fn law_watch_never_gates_by_default(
    gate: Option<PillarStatus>,
    guard: Option<PillarStatus>,
    watch: PillarStatus,
)
    requires
        watch != PillarStatus::EngineMissing,
    ensures
        code_for(gate, guard, Some(watch), false) == code_for(
            gate,
            guard,
            Some(PillarStatus::Pass),
            false,
        ),
        code_for(gate, guard, Some(watch), false) != 2 || gate == Some(PillarStatus::Fail)
            || guard == Some(PillarStatus::Fail),
{
}

/// `strict_watch` changes the code only by promoting a watch WARN from
/// exit 0 to exit 2.
pub proof fn law_strict_watch_only_promotes_warn(
    gate: Option<PillarStatus>,
    guard: Option<PillarStatus>,
    watch: Option<PillarStatus>,
)
    ensures
        code_for(gate, guard, watch, true) != code_for(gate, guard, watch, false) ==> (watch
            == Some(PillarStatus::Warn) && code_for(gate, guard, watch, false) == 0 && code_for(
            gate,
            guard,
            watch,
            true,
        ) == 2),
        watch == Some(PillarStatus::Warn) && code_for(gate, guard, watch, false) == 0 ==> code_for(
            gate,
            guard,
            watch,
            true,
        ) == 2,
{
}

/// A pillar that passed, was skipped, or was not configured at all never
/// raises the code: replacing it by an absent pillar gives the same code.
pub proof fn law_quiet_pillars_do_not_gate(
    gate: Option<PillarStatus>,
    guard: Option<PillarStatus>,
    watch: Option<PillarStatus>,
    strict_watch: bool,
)
    ensures
        (gate == Some(PillarStatus::Pass) || gate == Some(PillarStatus::Skipped)) ==> code_for(
            gate,
            guard,
            watch,
            strict_watch,
        ) == code_for(None, guard, watch, strict_watch),
        (guard == Some(PillarStatus::Pass) || guard == Some(PillarStatus::Skipped)) ==> code_for(
            gate,
            guard,
            watch,
            strict_watch,
        ) == code_for(gate, None, watch, strict_watch),
        (watch == Some(PillarStatus::Pass) || watch == Some(PillarStatus::Skipped)) ==> code_for(
            gate,
            guard,
            watch,
            strict_watch,
        ) == code_for(gate, guard, None, strict_watch),
        code_for(None, None, None, strict_watch) == 0,
{
}

/// `error_on_missing` does not change the code: a missing engine is always
/// an error.
pub proof fn law_error_on_missing_is_inert<N>(
    report: ZaindariReport<N>,
    a: PolicyOptions,
    b: PolicyOptions,
)
    requires
        a.strict_watch == b.strict_watch,
    ensures
        report_code(report, a) == report_code(report, b),
{
}

} // verus!
