//! Guard adapter — reads the output of `iratxo test`.
//!
//! Engine contract:
//!   * `iratxo test <pack|suite|dir>...`
//!   * human text only: per case `  ok   - <name>` / `  FAIL - <name>`
//!     (+ deeply indented reason lines), and a summary line
//!     `N passed, M failed across K suite(s)`.
//!   * unrunnable suites print to stderr `  - <path>: <reason>`.
//!   * exit code: non-zero (1) if any case fails or any suite can't resolve.
//!
//! The exit code is the source of truth for pass/fail; the text drives the
//! counts and the per-case detail.

use vstd::prelude::*;
use crate::report::{
    finding_views, metric_views, plain_metric, Finding, FindingView, Metric, MetricDirection,
    MetricView, PillarResult, PillarResultView, PillarStatus, Severity,
};
use crate::text::{
    append_chars, append_str, contains, contains_chars, decimal, from_chars, join, join_chars,
    leading_digits, leading_u32, lines, lines_of, opt_view, parse_u32_digits, push_decimal,
    split_once, split_once_chars, split_second, split_second_chars, starts_with,
    starts_with_chars, strip_prefix, strip_prefix_chars, to_chars, trim, trim_chars, trim_start,
    trim_start_chars, views,
};

verus! {

/// The counts of the summary line.
#[derive(Debug, Clone, Copy, PartialEq, Eq, Structural)]
pub struct Summary {
    pub passed: u32,
    pub failed: u32,
    pub suites: u32,
}

/// One failed case with the reason lines printed under it.
pub struct CaseFailureView {
    pub name: Seq<char>,
    pub reasons: Seq<Seq<char>>,
}

// ---------------------------------------------------------------------------
// Specification
// ---------------------------------------------------------------------------

/// The `u32` written at the start of `s`, after leading whitespace.
pub open spec fn number_at_start(s: Seq<char>) -> Option<u32> {
    parse_u32_digits(leading_digits(trim_start(s)))
}

/// `12 passed, 0 failed across 3 suites` → the three counts.
pub open spec fn summary_of_line(l: Seq<char>) -> Option<Summary> {
    match number_at_start(l) {
        None => None,
        Some(passed) => match split_second(l, " passed, "@) {
            None => None,
            Some(after_passed) => match number_at_start(after_passed) {
                None => None,
                Some(failed) => match split_second(after_passed, " failed across "@) {
                    None => None,
                    Some(after_failed) => match number_at_start(after_failed) {
                        None => None,
                        Some(suites) => Some(Summary { passed, failed, suites }),
                    },
                },
            },
        },
    }
}

/// A trimmed line that reads as a summary line.
pub open spec fn is_summary_line(t: Seq<char>) -> bool {
    contains(t, " passed, "@) && contains(t, " failed across "@)
}

/// The last line (trimmed) that reads as a summary line.
pub open spec fn last_summary_line(ls: Seq<Seq<char>>) -> Option<Seq<char>>
    decreases ls.len(),
{
    if ls.len() == 0 {
        None
    } else if is_summary_line(trim(ls.last())) {
        Some(trim(ls.last()))
    } else {
        last_summary_line(ls.drop_last())
    }
}

/// The counts of the last summary line of `stdout`, if it parses.
pub open spec fn summary_of(stdout: Seq<char>) -> Option<Summary> {
    match last_summary_line(lines(stdout)) {
        Some(t) => summary_of_line(t),
        None => None,
    }
}

/// Nine spaces: the indentation of a reason line.
pub open spec fn reason_indent() -> Seq<char> {
    "         "@
}

/// The failures after reading one more line.
pub open spec fn failure_step(acc: Seq<CaseFailureView>, line: Seq<char>) -> Seq<CaseFailureView> {
    let t = trim_start(line);
    match strip_prefix(t, "FAIL - "@) {
        Some(name) => acc.push(CaseFailureView { name: trim(name), reasons: seq![] }),
        None => {
            if acc.len() > 0 && starts_with(line, reason_indent()) && !starts_with(t, "ok "@)
                && !starts_with(t, "FAIL - "@) && t.len() > 0 {
                acc.update(
                    acc.len() - 1,
                    CaseFailureView { name: acc.last().name, reasons: acc.last().reasons.push(t) },
                )
            } else {
                acc
            }
        },
    }
}

/// The `FAIL - <name>` cases of some lines, with their reason lines.
pub open spec fn failures_of(ls: Seq<Seq<char>>) -> Seq<CaseFailureView>
    decreases ls.len(),
{
    if ls.len() == 0 {
        seq![]
    } else {
        failure_step(failures_of(ls.drop_last()), ls.last())
    }
}

/// A stderr line `- <path>: <reason>` read as (path, reason).
pub open spec fn broken_of_line(line: Seq<char>) -> Option<(Seq<char>, Seq<char>)> {
    match strip_prefix(trim_start(line), "- "@) {
        Some(rest) => match split_once(rest, ": "@) {
            Some((path, reason)) => Some((trim(path), trim(reason))),
            None => None,
        },
        None => None,
    }
}

/// The unrunnable suites reported on some stderr lines.
pub open spec fn broken_of(ls: Seq<Seq<char>>) -> Seq<(Seq<char>, Seq<char>)>
    decreases ls.len(),
{
    if ls.len() == 0 {
        seq![]
    } else {
        let prev = broken_of(ls.drop_last());
        match broken_of_line(ls.last()) {
            Some(b) => prev.push(b),
            None => prev,
        }
    }
}

/// Pass/fail: the exit code decides when known; otherwise any failed case
/// or unrunnable suite fails.
pub open spec fn guard_status(
    summary: Option<Summary>,
    n_failures: nat,
    n_broken: nat,
    exit_code: Option<i32>,
) -> PillarStatus {
    let failed_count: nat = match summary {
        Some(s) => s.failed as nat,
        None => n_failures,
    };
    let failed = match exit_code {
        Some(c) => c != 0,
        None => failed_count > 0 || n_broken > 0,
    };
    if failed {
        PillarStatus::Fail
    } else {
        PillarStatus::Pass
    }
}

/// The plain-English headline.
pub open spec fn guard_headline(status: PillarStatus, summary: Option<Summary>) -> Seq<char> {
    match (status, summary) {
        (PillarStatus::Pass, Some(s)) => "All "@ + decimal(s.passed as nat)
            + " guard rule case(s) passed across "@ + decimal(s.suites as nat) + " suite(s)."@,
        (PillarStatus::Pass, None) => "Guard rules passed."@,
        (PillarStatus::Fail, Some(s)) => decimal(s.failed as nat)
            + " guard rule case(s) failed across "@ + decimal(s.suites as nat)
            + " suite(s) — runtime rules are not safe."@,
        (PillarStatus::Fail, None) => "Guard rules failed — runtime rules are not safe."@,
        _ => "Guard ran."@,
    }
}

/// The count metrics, present when the summary line parsed.
pub open spec fn guard_metrics(summary: Option<Summary>) -> Seq<MetricView<u32>> {
    match summary {
        Some(s) => seq![
            plain_metric("guard.cases_passed"@, s.passed, MetricDirection::HigherBetter),
            plain_metric("guard.cases_failed"@, s.failed, MetricDirection::LowerBetter),
            plain_metric("guard.suites"@, s.suites, MetricDirection::Neutral),
        ],
        None => seq![],
    }
}

/// The finding for a failed case.
pub open spec fn failure_finding(f: CaseFailureView) -> FindingView {
    FindingView {
        severity: Severity::Major,
        title: "rule case failed: "@ + f.name,
        detail: if f.reasons.len() == 0 {
            "case did not meet its expectation"@
        } else {
            join(f.reasons, "; "@)
        },
        location: Some(f.name),
    }
}

/// The finding for an unrunnable suite.
pub open spec fn broken_finding(b: (Seq<char>, Seq<char>)) -> FindingView {
    FindingView {
        severity: Severity::Critical,
        title: "suite could not run"@,
        detail: b.1,
        location: Some(b.0),
    }
}

/// The pillar result for `iratxo test` output.
pub open spec fn guard_result(
    stdout: Seq<char>,
    stderr: Seq<char>,
    exit_code: Option<i32>,
    raw_ref: Option<Seq<char>>,
) -> PillarResultView<u32> {
    let summary = summary_of(stdout);
    let failures = failures_of(lines(stdout));
    let broken = broken_of(lines(stderr));
    let status = guard_status(summary, failures.len(), broken.len(), exit_code);
    PillarResultView {
        status,
        headline: guard_headline(status, summary),
        metrics: guard_metrics(summary),
        findings: failures.map_values(|f: CaseFailureView| failure_finding(f))
            + broken.map_values(|b: (Seq<char>, Seq<char>)| broken_finding(b)),
        raw_ref,
    }
}

// ---------------------------------------------------------------------------
// Implementation
// ---------------------------------------------------------------------------

struct CaseFailure {
    name: Vec<char>,
    reasons: Vec<Vec<char>>,
}

impl View for CaseFailure {
    type V = CaseFailureView;

    closed spec fn view(&self) -> CaseFailureView {
        CaseFailureView { name: self.name@, reasons: views(self.reasons@) }
    }
}

spec fn failure_views(v: Seq<CaseFailure>) -> Seq<CaseFailureView> {
    v.map_values(|c: CaseFailure| c@)
}

spec fn broken_views(v: Seq<(Vec<char>, Vec<char>)>) -> Seq<(Seq<char>, Seq<char>)> {
    v.map_values(|b: (Vec<char>, Vec<char>)| (b.0@, b.1@))
}

/// Parse `iratxo test` stdout + stderr + exit code into a pillar result.
///
/// Pass/fail is keyed off the exit code (authoritative); the text is parsed
/// for counts and per-case failures. If the exit code is unknown we fall back
/// to the parsed failure count.
pub fn parse(stdout: &str, stderr: &str, exit_code: Option<i32>, raw_ref: Option<String>) -> (r:
    PillarResult<u32>)
    ensures
        r@ == guard_result(stdout@, stderr@, exit_code, opt_view(raw_ref)),
{
    let out_chars = to_chars(stdout);
    let err_chars = to_chars(stderr);
    let summary = parse_summary(&out_chars);
    let failures = parse_failures(&out_chars);
    let broken = parse_broken_suites(&err_chars);

    let failed_count: usize = match summary {
        Some(s) => s.failed as usize,
        None => failures.len(),
    };
    let exit_failed = match exit_code {
        Some(0) => false,
        Some(_) => true,
        None => failed_count > 0 || broken.len() > 0,
    };

    let status = if exit_failed {
        PillarStatus::Fail
    } else {
        PillarStatus::Pass
    };

    let mut metrics: Vec<Metric<u32>> = Vec::new();
    if let Some(s) = summary {
        metrics.push(Metric::plain("guard.cases_passed", s.passed, MetricDirection::HigherBetter));
        metrics.push(Metric::plain("guard.cases_failed", s.failed, MetricDirection::LowerBetter));
        metrics.push(Metric::plain("guard.suites", s.suites, MetricDirection::Neutral));
    }
    proof {
        assert(metric_views(metrics@) =~= guard_metrics(summary));
    }

    let findings = build_findings(&failures, &broken);
    let headline = headline_for(status, summary);

    let r = PillarResult { status, headline, metrics, findings, raw_ref };
    proof {
        assert(r@ == guard_result(stdout@, stderr@, exit_code, opt_view(raw_ref)));
    }
    r
}

fn headline_for(status: PillarStatus, summary: Option<Summary>) -> (h: String)
    ensures
        h@ == guard_headline(status, summary),
{
    let mut v: Vec<char> = Vec::new();
    match (status, summary) {
        (PillarStatus::Pass, Some(s)) => {
            append_str(&mut v, "All ");
            push_decimal(&mut v, s.passed as u64);
            append_str(&mut v, " guard rule case(s) passed across ");
            push_decimal(&mut v, s.suites as u64);
            append_str(&mut v, " suite(s).");
        },
        (PillarStatus::Pass, None) => {
            append_str(&mut v, "Guard rules passed.");
        },
        (PillarStatus::Fail, Some(s)) => {
            push_decimal(&mut v, s.failed as u64);
            append_str(&mut v, " guard rule case(s) failed across ");
            push_decimal(&mut v, s.suites as u64);
            append_str(&mut v, " suite(s) — runtime rules are not safe.");
        },
        (PillarStatus::Fail, None) => {
            append_str(&mut v, "Guard rules failed — runtime rules are not safe.");
        },
        _ => {
            append_str(&mut v, "Guard ran.");
        },
    }
    proof {
        assert(v@ =~= guard_headline(status, summary));
    }
    from_chars(&v)
}

fn build_findings(failures: &Vec<CaseFailure>, broken: &Vec<(Vec<char>, Vec<char>)>) -> (r: Vec<
    Finding,
>)
    ensures
        finding_views(r@) == failure_views(failures@).map_values(
            |f: CaseFailureView| failure_finding(f),
        ) + broken_views(broken@).map_values(|b: (Seq<char>, Seq<char>)| broken_finding(b)),
{
    let ghost fa = failure_views(failures@).map_values(|f: CaseFailureView| failure_finding(f));
    let ghost br = broken_views(broken@).map_values(|b: (Seq<char>, Seq<char>)| broken_finding(b));
    let mut r: Vec<Finding> = Vec::new();
    let mut i: usize = 0;
    while i < failures.len()
        invariant
            i <= failures@.len(),
            fa == failure_views(failures@).map_values(|f: CaseFailureView| failure_finding(f)),
            finding_views(r@) == fa.take(i as int),
        decreases failures@.len() - i,
    {
        let f = &failures[i];
        let mut title: Vec<char> = Vec::new();
        append_str(&mut title, "rule case failed: ");
        append_chars(&mut title, f.name.as_slice());
        let detail: Vec<char> = if f.reasons.len() == 0 {
            to_chars("case did not meet its expectation")
        } else {
            join_chars(&f.reasons, "; ")
        };
        let t = from_chars(&title);
        let d = from_chars(&detail);
        let n = from_chars(f.name.as_slice());
        let finding = Finding::new(Severity::Major, t.as_str(), d.as_str()).with_location(
            n.as_str(),
        );
        proof {
            assert(finding@ == failure_finding(failures@[i as int]@));
            assert(fa[i as int] == failure_finding(failures@[i as int]@));
        }
        let ghost before = r@;
        r.push(finding);
        proof {
            assert(finding_views(r@) =~= finding_views(before).push(finding@));
            assert(fa.take(i + 1) =~= fa.take(i as int).push(fa[i as int]));
        }
        i += 1;
    }
    proof {
        assert(fa.take(failures@.len() as int) =~= fa);
    }
    let mut j: usize = 0;
    while j < broken.len()
        invariant
            j <= broken@.len(),
            fa.len() == failures@.len(),
            br == broken_views(broken@).map_values(|b: (Seq<char>, Seq<char>)| broken_finding(b)),
            finding_views(r@) == fa + br.take(j as int),
        decreases broken@.len() - j,
    {
        let b = &broken[j];
        let path = from_chars(b.0.as_slice());
        let reason = from_chars(b.1.as_slice());
        let finding = Finding::new(Severity::Critical, "suite could not run", reason.as_str())
            .with_location(path.as_str());
        proof {
            assert(br[j as int] == broken_finding((broken@[j as int].0@, broken@[j as int].1@)));
            assert(finding@ == br[j as int]);
        }
        let ghost before = r@;
        r.push(finding);
        proof {
            assert(finding_views(r@) =~= finding_views(before).push(finding@));
            assert(br.take(j + 1) =~= br.take(j as int).push(br[j as int]));
            assert(fa + br.take(j + 1) =~= (fa + br.take(j as int)).push(br[j as int]));
        }
        j += 1;
    }
    proof {
        assert(br.take(broken@.len() as int) =~= br);
    }
    r
}

/// Parse the trailing `N passed, M failed across K suite(s)` line.
fn parse_summary(stdout: &[char]) -> (r: Option<Summary>)
    ensures
        r == summary_of(stdout@),
{
    let ls = lines_of(stdout);
    let passed_pat = to_chars(" passed, ");
    let failed_pat = to_chars(" failed across ");
    // Search from the end — the summary is the last matching line.
    let mut i: usize = ls.len();
    proof {
        assert(views(ls@).take(ls@.len() as int) =~= views(ls@));
    }
    while i > 0
        invariant
            i <= ls@.len(),
            views(ls@) == lines(stdout@),
            passed_pat@ == " passed, "@,
            failed_pat@ == " failed across "@,
            last_summary_line(views(ls@)) == last_summary_line(views(ls@).take(i as int)),
        decreases i,
    {
        let l = trim_chars(ls[i - 1].as_slice());
        proof {
            assert(views(ls@).take(i as int).drop_last() =~= views(ls@).take(i - 1));
            assert(views(ls@).take(i as int).last() == ls@[i - 1]@);
        }
        if contains_chars(&l, &passed_pat) && contains_chars(&l, &failed_pat) {
            return parse_summary_line(&l);
        }
        i -= 1;
    }
    None
}

/// `12 passed, 0 failed across 3 suites` → Summary.
fn parse_summary_line(l: &[char]) -> (r: Option<Summary>)
    ensures
        r == summary_of_line(l@),
{
    let passed = match leading_u32(l) {
        Some(n) => n,
        None => return None,
    };
    let passed_pat = to_chars(" passed, ");
    let after_passed = match split_second_chars(l, &passed_pat) {
        Some(a) => a,
        None => return None,
    };
    let failed = match leading_u32(&after_passed) {
        Some(n) => n,
        None => return None,
    };
    let failed_pat = to_chars(" failed across ");
    let after_failed = match split_second_chars(&after_passed, &failed_pat) {
        Some(a) => a,
        None => return None,
    };
    let suites = match leading_u32(&after_failed) {
        Some(n) => n,
        None => return None,
    };
    Some(Summary { passed, failed, suites })
}

/// Parse `  FAIL - <name>` lines plus their indented reason lines.
fn parse_failures(stdout: &[char]) -> (r: Vec<CaseFailure>)
    ensures
        failure_views(r@) == failures_of(lines(stdout@)),
{
    let ls = lines_of(stdout);
    let fail_pat = to_chars("FAIL - ");
    let ok_pat = to_chars("ok ");
    let indent = to_chars("         ");
    let mut out: Vec<CaseFailure> = Vec::new();
    let mut i: usize = 0;
    while i < ls.len()
        invariant
            i <= ls@.len(),
            views(ls@) == lines(stdout@),
            fail_pat@ == "FAIL - "@,
            ok_pat@ == "ok "@,
            indent@ == reason_indent(),
            failure_views(out@) == failures_of(views(ls@).take(i as int)),
        decreases ls@.len() - i,
    {
        let line = &ls[i];
        let ghost acc = failure_views(out@);
        proof {
            assert(views(ls@).take(i + 1).drop_last() =~= views(ls@).take(i as int));
            assert(views(ls@).take(i + 1).last() == line@);
        }
        let trimmed = trim_start_chars(line.as_slice());
        match strip_prefix_chars(&trimmed, &fail_pat) {
            Some(name) => {
                let nm = trim_chars(&name);
                let cf = CaseFailure { name: nm, reasons: Vec::new() };
                proof {
                    assert(views(cf.reasons@) =~= Seq::<Seq<char>>::empty());
                }
                out.push(cf);
                proof {
                    assert(failure_views(out@) =~= acc.push(cf@));
                }
            },
            None => {
                if out.len() > 0 && starts_with_chars(line.as_slice(), &indent)
                    && !starts_with_chars(&trimmed, &ok_pat) && !starts_with_chars(
                    &trimmed,
                    &fail_pat,
                ) && trimmed.len() > 0 {
                    let mut last = out.pop().unwrap();
                    let ghost last_view = last@;
                    proof {
                        assert(last_view == acc.last());
                    }
                    last.reasons.push(trimmed);
                    proof {
                        assert(views(last.reasons@) =~= last_view.reasons.push(
                            trim_start(line@),
                        ));
                    }
                    out.push(last);
                    proof {
                        assert(failure_views(out@) =~= acc.update(
                            acc.len() - 1,
                            CaseFailureView {
                                name: acc.last().name,
                                reasons: acc.last().reasons.push(trim_start(line@)),
                            },
                        ));
                    }
                }
            },
        }
        i += 1;
    }
    proof {
        assert(views(ls@).take(ls@.len() as int) =~= views(ls@));
    }
    out
}

/// Parse the stderr `  - <path>: <reason>` lines for unrunnable suites.
fn parse_broken_suites(stderr: &[char]) -> (r: Vec<(Vec<char>, Vec<char>)>)
    ensures
        broken_views(r@) == broken_of(lines(stderr@)),
{
    let ls = lines_of(stderr);
    let dash = to_chars("- ");
    let colon = to_chars(": ");
    let mut out: Vec<(Vec<char>, Vec<char>)> = Vec::new();
    let mut i: usize = 0;
    while i < ls.len()
        invariant
            i <= ls@.len(),
            views(ls@) == lines(stderr@),
            dash@ == "- "@,
            colon@ == ": "@,
            broken_views(out@) == broken_of(views(ls@).take(i as int)),
        decreases ls@.len() - i,
    {
        let line = &ls[i];
        let ghost acc = broken_views(out@);
        proof {
            assert(views(ls@).take(i + 1).drop_last() =~= views(ls@).take(i as int));
            assert(views(ls@).take(i + 1).last() == line@);
        }
        let t = trim_start_chars(line.as_slice());
        if let Some(rest) = strip_prefix_chars(&t, &dash) {
            if let Some((path, reason)) = split_once_chars(&rest, &colon) {
                let p = trim_chars(&path);
                let q = trim_chars(&reason);
                let ghost item = (p@, q@);
                out.push((p, q));
                proof {
                    assert(broken_views(out@) =~= acc.push(item));
                }
            }
        }
        i += 1;
    }
    proof {
        assert(views(ls@).take(ls@.len() as int) =~= views(ls@));
    }
    out
}

// ---------------------------------------------------------------------------
// Laws
// ---------------------------------------------------------------------------

/// A known exit code decides pass/fail on its own: 0 passes, anything else
/// fails, whatever the text says.
pub proof fn law_guard_exit_code_decides(
    stdout: Seq<char>,
    stderr: Seq<char>,
    code: i32,
    raw_ref: Option<Seq<char>>,
)
    ensures
        guard_result(stdout, stderr, Some(code), raw_ref).status == if code == 0 {
            PillarStatus::Pass
        } else {
            PillarStatus::Fail
        },
{
}

/// With no exit code, the guard fails exactly when the summary line reports
/// a failed case (or, without a summary line, some `FAIL -` case was
/// printed) or some suite could not run.
pub proof fn law_guard_unknown_exit_falls_back(
    stdout: Seq<char>,
    stderr: Seq<char>,
    raw_ref: Option<Seq<char>>,
)
    ensures
        (guard_result(stdout, stderr, None, raw_ref).status == PillarStatus::Fail) <==> ((match summary_of(
            stdout,
        ) {
            Some(s) => s.failed > 0,
            None => failures_of(lines(stdout)).len() > 0,
        }) || broken_of(lines(stderr)).len() > 0),
        guard_result(stdout, stderr, None, raw_ref).status == PillarStatus::Fail
            || guard_result(stdout, stderr, None, raw_ref).status == PillarStatus::Pass,
{
}

/// Every failed case becomes a major finding located at the case, followed
/// by one critical finding per unrunnable suite located at its path.
pub proof fn law_guard_findings(
    stdout: Seq<char>,
    stderr: Seq<char>,
    exit_code: Option<i32>,
    raw_ref: Option<Seq<char>>,
)
    ensures
        ({
            let r = guard_result(stdout, stderr, exit_code, raw_ref);
            let fs = failures_of(lines(stdout));
            let bs = broken_of(lines(stderr));
            &&& r.findings.len() == fs.len() + bs.len()
            &&& forall|i: int|
                0 <= i < fs.len() ==> #[trigger] r.findings[i].severity == Severity::Major
                    && r.findings[i].location == Some(fs[i].name)
            &&& forall|j: int|
                0 <= j < bs.len() ==> #[trigger] r.findings[fs.len() + j].severity
                    == Severity::Critical && r.findings[fs.len() + j].location == Some(bs[j].0)
                    && r.findings[fs.len() + j].detail == bs[j].1
        }),
{
    let r = guard_result(stdout, stderr, exit_code, raw_ref);
    let fs = failures_of(lines(stdout));
    let bs = broken_of(lines(stderr));
    assert forall|j: int| 0 <= j < bs.len() implies #[trigger] r.findings[fs.len() + j].severity
        == Severity::Critical && r.findings[fs.len() + j].location == Some(bs[j].0)
        && r.findings[fs.len() + j].detail == bs[j].1 by {
        assert(r.findings[fs.len() + j] == broken_finding(bs[j]));
    }
}

/// The counts metrics are present exactly when a summary line parsed, and
/// then carry its three counts.
pub proof fn law_guard_metrics_follow_summary(
    stdout: Seq<char>,
    stderr: Seq<char>,
    exit_code: Option<i32>,
    raw_ref: Option<Seq<char>>,
)
    ensures
        ({
            let r = guard_result(stdout, stderr, exit_code, raw_ref);
            match summary_of(stdout) {
                Some(s) => r.metrics.len() == 3 && r.metrics[0].value == s.passed
                    && r.metrics[1].value == s.failed && r.metrics[2].value == s.suites,
                None => r.metrics.len() == 0,
            }
        }),
{
}

/// The install hint shown when the `iratxo` binary is absent.
pub fn install_hint() -> (r: &'static str)
    ensures
        r@ == "build from the iratxo repo (`cargo build -p iratxo-cli`) and set [guard].bin to it"@,
{
    "build from the iratxo repo (`cargo build -p iratxo-cli`) and set [guard].bin to it"
}

/// A reason line (indented by nine spaces, not blank, not itself a case
/// line) belongs to the failed case read most recently: reading it adds its
/// trimmed text to that case's reasons and leaves every earlier case, and
/// the names, as they were.
pub proof fn law_guard_reason_joins_latest_failure(ls: Seq<Seq<char>>, l: Seq<char>)
    requires
        failures_of(ls).len() > 0,
        starts_with(l, reason_indent()),
        trim_start(l).len() > 0,
        !starts_with(trim_start(l), "FAIL - "@),
        !starts_with(trim_start(l), "ok "@),
    ensures
        failures_of(ls.push(l)).len() == failures_of(ls).len(),
        forall|j: int|
            0 <= j < failures_of(ls).len() - 1 ==> #[trigger] failures_of(ls.push(l))[j]
                == failures_of(ls)[j],
        failures_of(ls.push(l)).last().name == failures_of(ls).last().name,
        failures_of(ls.push(l)).last().reasons == failures_of(ls).last().reasons.push(
            trim_start(l),
        ),
{
    assert(ls.push(l).drop_last() =~= ls);
    assert(ls.push(l).last() == l);
}

/// A `FAIL - <name>` line opens a new failed case, with no reasons yet,
/// after all the ones read before.
pub proof fn law_guard_fail_line_opens_a_case(ls: Seq<Seq<char>>, l: Seq<char>, name: Seq<char>)
    requires
        strip_prefix(trim_start(l), "FAIL - "@) == Some(name),
    ensures
        failures_of(ls.push(l)) == failures_of(ls).push(
            CaseFailureView { name: trim(name), reasons: seq![] },
        ),
{
    assert(ls.push(l).drop_last() =~= ls);
    assert(ls.push(l).last() == l);
}

} // verus!
