//! Gate adapter — the decisions over `aatxe evals` output.
//!
//! Engine contract:
//!   * `aatxe evals --out <json> [--baseline <json>] [--corpus <dir>] <flags>`
//!   * writes a JSON eval report to `--out`
//!   * exit 0 = ok, exit 2 = regression vs baseline past tolerance, exit 1 = error
//!
//! Pass/fail keys off the exit code when it is known (aatxe already applied
//! its tolerance bands) and, given a baseline, off any baselined metric that
//! moved the wrong way.

use vstd::prelude::*;
use crate::report::{
    finding_views, is_regression, metric_views, DeltaSign, Finding, FindingView, Metric,
    MetricDirection, MetricView, PillarResult, PillarStatus, Severity,
};
use crate::text::{append_str, decimal, from_chars, push_decimal};

verus! {

/// The council section of an aatxe eval report.
pub struct Council<N> {
    pub cases_total: u32,
    pub cases_fully_recalled: u32,
    pub critical_recall: N,
    pub critical_precision: N,
    pub critical_f1: N,
    pub severity_calibration_mae: N,
    pub judge_brier_score: N,
    pub avg_false_positives_per_case: N,
    pub forbidden_path_findings: u32,
}

/// The stats section of an aatxe eval report.
pub struct Stats<N> {
    pub scenarios_total: u32,
    pub scenarios_passed: u32,
    pub pass_rate: N,
}

/// The council scores that are compared with a baseline: name, value and
/// direction, in report order.
pub open spec fn council_scores<N>(c: Council<N>) -> Seq<(Seq<char>, N, MetricDirection)> {
    seq![
        ("council.critical_recall"@, c.critical_recall, MetricDirection::HigherBetter),
        ("council.critical_precision"@, c.critical_precision, MetricDirection::HigherBetter),
        ("council.critical_f1"@, c.critical_f1, MetricDirection::HigherBetter),
        ("council.severity_calibration_mae"@, c.severity_calibration_mae, MetricDirection::LowerBetter),
        ("council.judge_brier_score"@, c.judge_brier_score, MetricDirection::LowerBetter),
        (
            "council.avg_false_positives_per_case"@,
            c.avg_false_positives_per_case,
            MetricDirection::LowerBetter,
        ),
    ]
}

/// The council counts reported as plain metrics: name, count and direction.
pub open spec fn council_counts<N>(c: Council<N>) -> Seq<(Seq<char>, u32, MetricDirection)> {
    seq![
        ("council.cases_fully_recalled"@, c.cases_fully_recalled, MetricDirection::HigherBetter),
        ("council.cases_total"@, c.cases_total, MetricDirection::Neutral),
        ("council.forbidden_path_findings"@, c.forbidden_path_findings, MetricDirection::LowerBetter),
    ]
}

/// The baseline's value of the `i`-th council score, when there is a
/// baseline council.
pub open spec fn base_score<N>(base: Option<Council<N>>, i: int) -> Option<N> {
    match base {
        Some(b) => Some(council_scores(b)[i].1),
        None => None,
    }
}

/// `m` is the metric `name = value` in `direction`, compared with
/// `baseline` when there is one, its delta being what `minus` gives for
/// `(value, baseline)`.
pub open spec fn compared<N, S: Fn(N, N) -> N>(
    m: MetricView<N>,
    name: Seq<char>,
    value: N,
    baseline: Option<N>,
    direction: MetricDirection,
    minus: S,
) -> bool {
    &&& m.name == name
    &&& m.value == value
    &&& m.direction == direction
    &&& m.baseline == baseline
    &&& match baseline {
        Some(b) => m.delta matches Some(d) && minus.ensures((value, b), d),
        None => m.delta is None,
    }
}

/// `m` is the plain metric `name = k` in `direction`, with `count` turning
/// the count into a number.
pub open spec fn counted<N, C: Fn(u32) -> N>(
    m: MetricView<N>,
    name: Seq<char>,
    k: u32,
    direction: MetricDirection,
    count: C,
) -> bool {
    &&& m.name == name
    &&& count.ensures((k,), m.value)
    &&& m.direction == direction
    &&& m.baseline is None
    &&& m.delta is None
}

fn compared_metric<N: Copy, S: Fn(N, N) -> N>(
    name: &str,
    value: N,
    baseline: Option<N>,
    direction: MetricDirection,
    minus: &S,
) -> (m: Metric<N>)
    requires
        forall|a: N, b: N| minus.requires((a, b)),
    ensures
        compared(m@, name@, value, baseline, direction, *minus),
{
    match baseline {
        Some(b) => Metric::with_baseline(name, value, b, direction, minus),
        None => Metric::plain(name, value, direction),
    }
}

fn counted_metric<N, C: Fn(u32) -> N>(name: &str, k: u32, direction: MetricDirection, count: &C) -> (m:
    Metric<N>)
    requires
        forall|k: u32| count.requires((k,)),
    ensures
        counted(m@, name@, k, direction, *count),
{
    Metric::plain(name, count(k), direction)
}

/// The value behind an optional reference.
pub open spec fn unref<T>(o: Option<&T>) -> Option<T> {
    match o {
        Some(x) => Some(*x),
        None => None,
    }
}

/// `ms` are the eval metrics of a report with these sections: with a
/// council, its six scores (compared with the baseline council's, when
/// there is one) then its three counts; then, with a stats section, its
/// pass rate (compared with the baseline's). `minus` gives a delta, `count`
/// turns a count into a number.
pub open spec fn eval_metrics<N, S: Fn(N, N) -> N, C: Fn(u32) -> N>(
    ms: Seq<MetricView<N>>,
    council: Option<Council<N>>,
    base_council: Option<Council<N>>,
    stats: Option<Stats<N>>,
    base_stats: Option<Stats<N>>,
    minus: S,
    count: C,
) -> bool {
    &&& ms.len() == (if council is Some {
        9int
    } else {
        0int
    }) + (if stats is Some {
        1int
    } else {
        0int
    })
    &&& council matches Some(c) ==> {
        &&& forall|i: int|
            0 <= i < 6 ==> compared(
                #[trigger] ms[i],
                council_scores(c)[i].0,
                council_scores(c)[i].1,
                base_score(base_council, i),
                council_scores(c)[i].2,
                minus,
            )
        &&& forall|j: int|
            0 <= j < 3 ==> counted(
                #[trigger] ms[6 + j],
                council_counts(c)[j].0,
                council_counts(c)[j].1,
                council_counts(c)[j].2,
                count,
            )
    }
    &&& stats matches Some(s) ==> compared(
        ms[ms.len() - 1],
        "stats.pass_rate"@,
        s.pass_rate,
        match base_stats {
            Some(b) => Some(b.pass_rate),
            None => None,
        },
        MetricDirection::HigherBetter,
        minus,
    )
}

/// The eval metrics: with a council section, its six scores (compared
/// with the baseline council's, when there is one) and its three counts;
/// then, with a stats section, its pass rate (compared with the baseline's).
/// `minus` computes a delta, `count` turns a count into a number.
pub fn metrics<N: Copy, S: Fn(N, N) -> N, C: Fn(u32) -> N>(
    council: Option<&Council<N>>,
    base_council: Option<&Council<N>>,
    stats: Option<&Stats<N>>,
    base_stats: Option<&Stats<N>>,
    minus: S,
    count: C,
) -> (r: Vec<Metric<N>>)
    requires
        forall|a: N, b: N| minus.requires((a, b)),
        forall|k: u32| count.requires((k,)),
    ensures
        eval_metrics(
            metric_views(r@),
            unref(council),
            unref(base_council),
            unref(stats),
            unref(base_stats),
            minus,
            count,
        ),
{
    let mut r: Vec<Metric<N>> = Vec::new();
    if let Some(c) = council {
        let b = base_council;
        r.push(compared_metric(
            "council.critical_recall",
            c.critical_recall,
            match b { Some(b) => Some(b.critical_recall), None => None },
            MetricDirection::HigherBetter,
            &minus,
        ));
        r.push(compared_metric(
            "council.critical_precision",
            c.critical_precision,
            match b { Some(b) => Some(b.critical_precision), None => None },
            MetricDirection::HigherBetter,
            &minus,
        ));
        r.push(compared_metric(
            "council.critical_f1",
            c.critical_f1,
            match b { Some(b) => Some(b.critical_f1), None => None },
            MetricDirection::HigherBetter,
            &minus,
        ));
        r.push(compared_metric(
            "council.severity_calibration_mae",
            c.severity_calibration_mae,
            match b { Some(b) => Some(b.severity_calibration_mae), None => None },
            MetricDirection::LowerBetter,
            &minus,
        ));
        r.push(compared_metric(
            "council.judge_brier_score",
            c.judge_brier_score,
            match b { Some(b) => Some(b.judge_brier_score), None => None },
            MetricDirection::LowerBetter,
            &minus,
        ));
        r.push(compared_metric(
            "council.avg_false_positives_per_case",
            c.avg_false_positives_per_case,
            match b { Some(b) => Some(b.avg_false_positives_per_case), None => None },
            MetricDirection::LowerBetter,
            &minus,
        ));
        r.push(counted_metric("council.cases_fully_recalled", c.cases_fully_recalled, MetricDirection::HigherBetter, &count));
        r.push(counted_metric("council.cases_total", c.cases_total, MetricDirection::Neutral, &count));
        r.push(counted_metric("council.forbidden_path_findings", c.forbidden_path_findings, MetricDirection::LowerBetter, &count));
    }
    if let Some(st) = stats {
        r.push(compared_metric(
            "stats.pass_rate",
            st.pass_rate,
            match base_stats { Some(b) => Some(b.pass_rate), None => None },
            MetricDirection::HigherBetter,
            &minus,
        ));
    }
    r
}

/// FAIL on aatxe's regression exit code, or on a baselined regression.
pub open spec fn gate_status(exit_code: Option<i32>, had_baseline: bool, any_regressed: bool) -> PillarStatus {
    if exit_code == Some(2i32) || (had_baseline && any_regressed) {
        PillarStatus::Fail
    } else {
        PillarStatus::Pass
    }
}

/// Some metric among `deltas` (direction, where its delta lies) regressed.
pub open spec fn some_regressed(deltas: Seq<(MetricDirection, Option<DeltaSign>)>) -> bool {
    exists|i: int| 0 <= i < deltas.len() && is_regression(#[trigger] deltas[i].0, deltas[i].1)
}

/// Pass or fail for Gate, from the metrics' directions and deltas.
pub fn status(
    exit_code: Option<i32>,
    had_baseline: bool,
    deltas: &[(MetricDirection, Option<DeltaSign>)],
) -> (r: PillarStatus)
    ensures
        r == gate_status(exit_code, had_baseline, some_regressed(deltas@)),
{
    let mut regressed = false;
    let mut i: usize = 0;
    while i < deltas.len()
        invariant
            i <= deltas@.len(),
            regressed <==> exists|j: int| 0 <= j < i && is_regression(
                #[trigger] deltas@[j].0,
                deltas@[j].1,
            ),
        decreases deltas@.len() - i,
    {
        let (d, s) = deltas[i];
        if d.regressed_by(s) {
            regressed = true;
        }
        i += 1;
    }
    let fail = match exit_code {
        Some(2) => true,
        _ => had_baseline && regressed,
    };
    if fail {
        PillarStatus::Fail
    } else {
        PillarStatus::Pass
    }
}

/// The finding for council findings that landed on forbidden paths.
pub open spec fn forbidden_finding(n: u32) -> FindingView {
    FindingView {
        severity: Severity::Critical,
        title: "findings on forbidden paths"@,
        detail: decimal(n as nat) + " finding(s) landed on lockfiles / generated code — calibration bug"@,
        location: None,
    }
}

/// The finding for failed stats scenarios.
pub open spec fn stats_finding(passed: u32, total: u32) -> FindingView {
    FindingView {
        severity: Severity::Major,
        title: "stats scenarios failed"@,
        detail: decimal(passed as nat) + "/"@ + decimal(total as nat) + " stats scenarios passed"@,
        location: None,
    }
}

/// Gate's findings: one for forbidden-path council findings, one for
/// failed stats scenarios, in that order, each only when it applies.
pub open spec fn gate_findings(forbidden: Option<u32>, stats: Option<(u32, u32)>) -> Seq<FindingView> {
    let a: Seq<FindingView> = match forbidden {
        Some(n) => if n > 0 {
            seq![forbidden_finding(n)]
        } else {
            seq![]
        },
        None => seq![],
    };
    let b: Seq<FindingView> = match stats {
        Some((passed, total)) => if passed < total {
            seq![stats_finding(passed, total)]
        } else {
            seq![]
        },
        None => seq![],
    };
    a + b
}

/// Gate's findings from the council's forbidden-path count (present when
/// the report has a council section) and the stats scenario counts
/// `(passed, total)` (present when it has a stats section).
pub fn findings(forbidden_path_findings: Option<u32>, stats: Option<(u32, u32)>) -> (r: Vec<Finding>)
    ensures
        finding_views(r@) == gate_findings(forbidden_path_findings, stats),
{
    let mut r: Vec<Finding> = Vec::new();
    if let Some(n) = forbidden_path_findings {
        if n > 0 {
            let mut d: Vec<char> = Vec::new();
            push_decimal(&mut d, n as u64);
            append_str(&mut d, " finding(s) landed on lockfiles / generated code — calibration bug");
            let detail = from_chars(&d);
            r.push(Finding::new(Severity::Critical, "findings on forbidden paths", detail.as_str()));
        }
    }
    let ghost a = finding_views(r@);
    if let Some((passed, total)) = stats {
        if passed < total {
            let mut d: Vec<char> = Vec::new();
            push_decimal(&mut d, passed as u64);
            append_str(&mut d, "/");
            push_decimal(&mut d, total as u64);
            append_str(&mut d, " stats scenarios passed");
            let detail = from_chars(&d);
            let f = Finding::new(Severity::Major, "stats scenarios failed", detail.as_str());
            let ghost before = r@;
            r.push(f);
            proof {
                assert(finding_views(r@) =~= finding_views(before).push(f@));
            }
        }
    }
    proof {
        assert(finding_views(r@) =~= gate_findings(forbidden_path_findings, stats));
    }
    r
}

/// The council figures a passing headline quotes; `critical_f1` is the F1
/// score already rendered with two decimals.
pub struct CouncilFigures {
    pub critical_f1: String,
    pub cases_fully_recalled: u32,
    pub cases_total: u32,
}

/// `real-LLM` or `stub-LLM`.
pub open spec fn llm_label(real_llm: bool) -> Seq<char> {
    if real_llm {
        "real-LLM"@
    } else {
        "stub-LLM"@
    }
}

/// Gate's plain-English headline.
pub open spec fn gate_headline(
    status: PillarStatus,
    had_baseline: bool,
    council: Option<CouncilFigures>,
    real_llm: bool,
    aatxe_version: Seq<char>,
) -> Seq<char> {
    if status == PillarStatus::Fail && had_baseline {
        "Eval quality regressed against the baseline — do not ship."@
    } else if status == PillarStatus::Fail {
        "Eval gate failed — do not ship."@
    } else {
        match council {
            Some(c) => "Eval gate held: critical F1 "@ + c.critical_f1@ + ", "@ + decimal(
                c.cases_fully_recalled as nat,
            ) + "/"@ + decimal(c.cases_total as nat) + " cases fully recalled ("@ + llm_label(
                real_llm,
            ) + " run, aatxe "@ + aatxe_version + ")."@,
            None => "Eval gate held ("@ + llm_label(real_llm) + " run, aatxe "@ + aatxe_version
                + ")."@,
        }
    }
}

/// Build Gate's headline.
pub fn build_headline(
    status: PillarStatus,
    had_baseline: bool,
    council: Option<CouncilFigures>,
    real_llm: bool,
    aatxe_version: &str,
) -> (r: String)
    ensures
        r@ == gate_headline(status, had_baseline, council, real_llm, aatxe_version@),
{
    let mut v: Vec<char> = Vec::new();
    let llm = if real_llm {
        "real-LLM"
    } else {
        "stub-LLM"
    };
    if status == PillarStatus::Fail && had_baseline {
        append_str(&mut v, "Eval quality regressed against the baseline — do not ship.");
    } else if status == PillarStatus::Fail {
        append_str(&mut v, "Eval gate failed — do not ship.");
    } else {
        match &council {
            Some(c) => {
                append_str(&mut v, "Eval gate held: critical F1 ");
                append_str(&mut v, c.critical_f1.as_str());
                append_str(&mut v, ", ");
                push_decimal(&mut v, c.cases_fully_recalled as u64);
                append_str(&mut v, "/");
                push_decimal(&mut v, c.cases_total as u64);
                append_str(&mut v, " cases fully recalled (");
                append_str(&mut v, llm);
                append_str(&mut v, " run, aatxe ");
                append_str(&mut v, aatxe_version);
                append_str(&mut v, ").");
            },
            None => {
                append_str(&mut v, "Eval gate held (");
                append_str(&mut v, llm);
                append_str(&mut v, " run, aatxe ");
                append_str(&mut v, aatxe_version);
                append_str(&mut v, ").");
            },
        }
    }
    proof {
        assert(v@ =~= gate_headline(status, had_baseline, council, real_llm, aatxe_version@));
    }
    from_chars(&v)
}

/// The parts of an aatxe eval report that Gate reads.
pub struct EvalReport<N> {
    pub aatxe_version: String,
    pub council: Option<Council<N>>,
    pub stats: Option<Stats<N>>,
    pub council_used_real_llm: bool,
}

/// The forbidden-path count of a report with a council section.
pub open spec fn forbidden_count<N>(r: EvalReport<N>) -> Option<u32> {
    match r.council {
        Some(c) => Some(c.forbidden_path_findings),
        None => None,
    }
}

/// The `(passed, total)` scenario counts of a report with a stats section.
pub open spec fn scenario_counts<N>(r: EvalReport<N>) -> Option<(u32, u32)> {
    match r.stats {
        Some(s) => Some((s.scenarios_passed, s.scenarios_total)),
        None => None,
    }
}

/// The baseline report's council section, when there is a baseline.
pub open spec fn base_council_of<N>(base: Option<EvalReport<N>>) -> Option<Council<N>> {
    match base {
        Some(b) => b.council,
        None => None,
    }
}

/// The baseline report's stats section, when there is a baseline.
pub open spec fn base_stats_of<N>(base: Option<EvalReport<N>>) -> Option<Stats<N>> {
    match base {
        Some(b) => b.stats,
        None => None,
    }
}

/// `signs` says, for each metric of `ms` that has a delta, where `sign`
/// puts that delta.
pub open spec fn signs_of<N, G: Fn(N) -> DeltaSign>(
    sign: G,
    ms: Seq<MetricView<N>>,
    signs: Seq<DeltaSign>,
) -> bool {
    &&& signs.len() == ms.len()
    &&& forall|i: int|
        0 <= i < ms.len() ==> (ms[i].delta matches Some(d) ==> sign.ensures(
            (d,),
            #[trigger] signs[i],
        ))
}

/// Each metric's direction with where its delta lies, if it has one.
pub open spec fn signed_deltas<N>(ms: Seq<MetricView<N>>, signs: Seq<DeltaSign>) -> Seq<
    (MetricDirection, Option<DeltaSign>),
> {
    Seq::new(
        ms.len(),
        |i: int|
            (ms[i].direction, if ms[i].delta is Some {
                Some(signs[i])
            } else {
                None
            }),
    )
}

/// The council figures a passing headline quotes, with the F1 score
/// rendered as `f1`.
pub open spec fn figures_of<N>(c: Council<N>, f1: String) -> CouncilFigures {
    CouncilFigures {
        critical_f1: f1,
        cases_fully_recalled: c.cases_fully_recalled,
        cases_total: c.cases_total,
    }
}

/// `h` is Gate's headline for `cur` at `status`, the F1 score rendered by
/// `two_decimals`.
pub open spec fn headline_of<N, F: Fn(N) -> String>(
    status: PillarStatus,
    had_baseline: bool,
    cur: EvalReport<N>,
    two_decimals: F,
    h: Seq<char>,
) -> bool {
    match cur.council {
        Some(c) => exists|t: String|
            #[trigger] two_decimals.ensures((c.critical_f1,), t) && h == gate_headline(
                status,
                had_baseline,
                Some(figures_of(c, t)),
                cur.council_used_real_llm,
                cur.aatxe_version@,
            ),
        None => h == gate_headline(
            status,
            had_baseline,
            None,
            cur.council_used_real_llm,
            cur.aatxe_version@,
        ),
    }
}

/// `p` is Gate's result for the eval report `cur`, compared with `base`
/// when there is one: its eval metrics; its findings; FAIL on exit code 2
/// or, given a baseline, on a metric that moved the wrong way, PASS
/// otherwise; its headline; and `raw_ref`.
pub open spec fn assembled<N, S: Fn(N, N) -> N, C: Fn(u32) -> N, G: Fn(N) -> DeltaSign, F: Fn(
    N,
) -> String>(
    p: PillarResult<N>,
    cur: EvalReport<N>,
    base: Option<EvalReport<N>>,
    exit_code: Option<i32>,
    raw_ref: Option<String>,
    minus: S,
    count: C,
    sign: G,
    two_decimals: F,
) -> bool {
    let ms = metric_views(p.metrics@);
    &&& eval_metrics(
        ms,
        cur.council,
        base_council_of(base),
        cur.stats,
        base_stats_of(base),
        minus,
        count,
    )
    &&& finding_views(p.findings@) == gate_findings(forbidden_count(cur), scenario_counts(cur))
    &&& exists|signs: Seq<DeltaSign>|
        #[trigger] signs_of(sign, ms, signs) && p.status == gate_status(
            exit_code,
            base is Some,
            some_regressed(signed_deltas(ms, signs)),
        )
    &&& headline_of(p.status, base is Some, cur, two_decimals, p.headline@)
    &&& p.raw_ref == raw_ref
}

/// Gate's result for the eval report `cur`, compared with `base` when
/// there is one, given aatxe's exit code and where its raw output was kept.
/// `minus` computes a delta, `count` turns a count into a number, `sign`
/// says where a delta lies and `two_decimals` renders the F1 score.
pub fn assemble<N: Copy, S: Fn(N, N) -> N, C: Fn(u32) -> N, G: Fn(N) -> DeltaSign, F: Fn(
    N,
) -> String>(
    cur: &EvalReport<N>,
    base: Option<&EvalReport<N>>,
    exit_code: Option<i32>,
    raw_ref: Option<String>,
    minus: S,
    count: C,
    sign: G,
    two_decimals: F,
) -> (r: PillarResult<N>)
    requires
        forall|a: N, b: N| minus.requires((a, b)),
        forall|k: u32| count.requires((k,)),
        forall|x: N| sign.requires((x,)),
        forall|x: N| two_decimals.requires((x,)),
    ensures
        assembled(r, *cur, unref(base), exit_code, raw_ref, minus, count, sign, two_decimals),
{
    let cur_council: Option<&Council<N>> = match &cur.council {
        Some(c) => Some(c),
        None => None,
    };
    let cur_stats: Option<&Stats<N>> = match &cur.stats {
        Some(s) => Some(s),
        None => None,
    };
    let base_council: Option<&Council<N>> = match base {
        Some(b) => match &b.council {
            Some(c) => Some(c),
            None => None,
        },
        None => None,
    };
    let base_stats: Option<&Stats<N>> = match base {
        Some(b) => match &b.stats {
            Some(s) => Some(s),
            None => None,
        },
        None => None,
    };
    let ms = metrics(cur_council, base_council, cur_stats, base_stats, minus, count);
    let ghost mv = metric_views(ms@);

    let mut deltas: Vec<(MetricDirection, Option<DeltaSign>)> = Vec::new();
    let ghost mut signs: Seq<DeltaSign> = Seq::empty();
    let mut i: usize = 0;
    while i < ms.len()
        invariant
            i <= ms@.len(),
            mv == metric_views(ms@),
            forall|x: N| sign.requires((x,)),
            deltas@.len() == i,
            signs.len() == i,
            forall|j: int|
                0 <= j < i ==> (mv[j].delta matches Some(d) ==> sign.ensures(
                    (d,),
                    #[trigger] signs[j],
                )),
            forall|j: int|
                0 <= j < i ==> #[trigger] deltas@[j] == (mv[j].direction, if mv[j].delta is Some {
                    Some(signs[j])
                } else {
                    None
                }),
        decreases ms@.len() - i,
    {
        let direction = ms[i].direction;
        match ms[i].delta {
            Some(d) => {
                let s = sign(d);
                deltas.push((direction, Some(s)));
                proof {
                    signs = signs.push(s);
                }
            },
            None => {
                deltas.push((direction, None));
                proof {
                    signs = signs.push(DeltaSign::Neither);
                }
            },
        }
        i += 1;
    }
    proof {
        assert(deltas@ =~= signed_deltas(mv, signs));
        assert(signs_of(sign, mv, signs));
    }
    let had_baseline = base.is_some();
    let st = status(exit_code, had_baseline, deltas.as_slice());

    let forbidden: Option<u32> = match &cur.council {
        Some(c) => Some(c.forbidden_path_findings),
        None => None,
    };
    let scenarios: Option<(u32, u32)> = match &cur.stats {
        Some(s) => Some((s.scenarios_passed, s.scenarios_total)),
        None => None,
    };
    let fs = findings(forbidden, scenarios);

    let figures: Option<CouncilFigures> = match &cur.council {
        Some(c) => {
            let t = two_decimals(c.critical_f1);
            Some(CouncilFigures {
                critical_f1: t,
                cases_fully_recalled: c.cases_fully_recalled,
                cases_total: c.cases_total,
            })
        },
        None => None,
    };
    let ghost fig = figures;
    proof {
        if cur.council is Some {
            let c = cur.council->0;
            assert(fig == Some(figures_of(c, fig->0.critical_f1)));
            assert(two_decimals.ensures((c.critical_f1,), fig->0.critical_f1));
        }
    }
    let h = build_headline(
        st,
        had_baseline,
        figures,
        cur.council_used_real_llm,
        cur.aatxe_version.as_str(),
    );
    PillarResult { status: st, headline: h, metrics: ms, findings: fs, raw_ref }
}

/// `r` is what parsing gives once the current report decoded to `cur`:
/// with no baseline text, Gate's result for `cur`; with one, an error when
/// it does not decode, and otherwise Gate's result for `cur` compared with
/// the decoded baseline.
pub open spec fn parsed_against_baseline<N, D: Fn(&str) -> Result<EvalReport<N>, serde_json::Error>, S: Fn(
    N,
    N,
) -> N, C: Fn(u32) -> N, G: Fn(N) -> DeltaSign, F: Fn(N) -> String>(
    decode: D,
    baseline_json: Option<&str>,
    cur: EvalReport<N>,
    r: Result<PillarResult<N>, serde_json::Error>,
    exit_code: Option<i32>,
    raw_ref: Option<String>,
    minus: S,
    count: C,
    sign: G,
    two_decimals: F,
) -> bool {
    match baseline_json {
        None => r matches Ok(p) && assembled(
            p,
            cur,
            None,
            exit_code,
            raw_ref,
            minus,
            count,
            sign,
            two_decimals,
        ),
        Some(b) => exists|db: Result<EvalReport<N>, serde_json::Error>|
            #[trigger] decode.ensures((b,), db) && match db {
                Err(e) => r == Err::<PillarResult<N>, serde_json::Error>(e),
                Ok(base) => r matches Ok(p) && assembled(
                    p,
                    cur,
                    Some(base),
                    exit_code,
                    raw_ref,
                    minus,
                    count,
                    sign,
                    two_decimals,
                ),
            },
    }
}

/// Parse an aatxe eval JSON, plus a baseline report of the same shape when
/// there is one, into Gate's result. `decode` reads a report out of JSON
/// text (the caller's JSON decoder); the current report is decoded first,
/// then the baseline, and the first that does not decode is the error.
/// The rest is [`assemble`].
pub fn parse<N: Copy, D: Fn(&str) -> Result<EvalReport<N>, serde_json::Error>, S: Fn(
    N,
    N,
) -> N, C: Fn(u32) -> N, G: Fn(N) -> DeltaSign, F: Fn(N) -> String>(
    current_json: &str,
    baseline_json: Option<&str>,
    exit_code: Option<i32>,
    raw_ref: Option<String>,
    decode: D,
    minus: S,
    count: C,
    sign: G,
    two_decimals: F,
) -> (r: Result<PillarResult<N>, serde_json::Error>)
    requires
        decode.requires((current_json,)),
        baseline_json matches Some(b) ==> decode.requires((b,)),
        forall|a: N, b: N| minus.requires((a, b)),
        forall|k: u32| count.requires((k,)),
        forall|x: N| sign.requires((x,)),
        forall|x: N| two_decimals.requires((x,)),
    ensures
        exists|dc: Result<EvalReport<N>, serde_json::Error>|
            #[trigger] decode.ensures((current_json,), dc) && match dc {
                Err(e) => r == Err::<PillarResult<N>, serde_json::Error>(e),
                Ok(cur) => parsed_against_baseline(
                    decode,
                    baseline_json,
                    cur,
                    r,
                    exit_code,
                    raw_ref,
                    minus,
                    count,
                    sign,
                    two_decimals,
                ),
            },
{
    let dc = decode(current_json);
    let cur = match dc {
        Ok(c) => c,
        Err(e) => return Err(e),
    };
    let base: Option<EvalReport<N>> = match baseline_json {
        Some(b) => {
            let db = decode(b);
            match db {
                Ok(x) => Some(x),
                Err(e) => return Err(e),
            }
        },
        None => None,
    };
    let base_ref: Option<&EvalReport<N>> = match &base {
        Some(b) => Some(b),
        None => None,
    };
    Ok(assemble(&cur, base_ref, exit_code, raw_ref, minus, count, sign, two_decimals))
}

// ---------------------------------------------------------------------------
// Laws
// ---------------------------------------------------------------------------

/// aatxe's regression exit code (2) fails Gate even without a baseline.
pub proof fn law_gate_exit_two_fails(had_baseline: bool, any_regressed: bool)
    ensures
        gate_status(Some(2i32), had_baseline, any_regressed) == PillarStatus::Fail,
{
}

/// Without a baseline, only the exit code 2 fails Gate.
pub proof fn law_gate_without_baseline(exit_code: Option<i32>, any_regressed: bool)
    ensures
        (gate_status(exit_code, false, any_regressed) == PillarStatus::Fail) <==> exit_code == Some(
            2i32,
        ),
{
}

/// With a baseline, a metric that moved the wrong way fails Gate,
/// whatever the exit code; when none did, only exit code 2 fails it.
pub proof fn law_gate_baseline_regression(
    exit_code: Option<i32>,
    deltas: Seq<(MetricDirection, Option<DeltaSign>)>,
)
    ensures
        some_regressed(deltas) ==> gate_status(exit_code, true, some_regressed(deltas))
            == PillarStatus::Fail,
        !some_regressed(deltas) ==> ((gate_status(exit_code, true, some_regressed(deltas))
            == PillarStatus::Fail) <==> exit_code == Some(2i32)),
{
}

/// Gate only ever passes or fails.
pub proof fn law_gate_pass_or_fail(exit_code: Option<i32>, had_baseline: bool, any_regressed: bool)
    ensures
        gate_status(exit_code, had_baseline, any_regressed) == PillarStatus::Pass || gate_status(
            exit_code,
            had_baseline,
            any_regressed,
        ) == PillarStatus::Fail,
{
}

/// The install hint shown when the `aatxe` binary is absent.
pub fn install_hint() -> (r: &'static str)
    ensures
        r@ == "install with `cargo install aatxe`, or set [gate].bin to its path"@,
{
    "install with `cargo install aatxe`, or set [gate].bin to its path"
}

/// With a baseline, a metric anywhere in the list that moved the wrong
/// way fails Gate, whatever comes before or after it (metrics without a
/// delta included) and whatever the exit code.
pub proof fn law_gate_any_regressed_metric_fails(
    exit_code: Option<i32>,
    deltas: Seq<(MetricDirection, Option<DeltaSign>)>,
    i: int,
)
    requires
        0 <= i < deltas.len(),
        is_regression(deltas[i].0, deltas[i].1),
    ensures
        some_regressed(deltas),
        gate_status(exit_code, true, some_regressed(deltas)) == PillarStatus::Fail,
{
    assert(is_regression(deltas[i].0, deltas[i].1));
}

/// When no metric moved the wrong way, no regression is seen.
pub proof fn law_gate_no_regressed_metric(deltas: Seq<(MetricDirection, Option<DeltaSign>)>)
    requires
        forall|i: int| 0 <= i < deltas.len() ==> !is_regression(#[trigger] deltas[i].0, deltas[i].1),
    ensures
        !some_regressed(deltas),
{
}

/// The stats finding depends on the stats counts alone: whatever the
/// council reported, it is among Gate's findings exactly when fewer
/// scenarios passed than ran, and then it comes last.
pub proof fn law_gate_stats_finding_needs_only_stats(forbidden: Option<u32>, passed: u32, total: u32)
    ensures
        gate_findings(forbidden, Some((passed, total))).contains(stats_finding(passed, total))
            <==> passed < total,
        passed < total ==> gate_findings(forbidden, Some((passed, total))).last() == stats_finding(
            passed,
            total,
        ),
{
    let fs = gate_findings(forbidden, Some((passed, total)));
    if passed < total {
        assert(fs[fs.len() - 1] == stats_finding(passed, total));
    } else {
        if fs.contains(stats_finding(passed, total)) {
            let k = choose|k: int| 0 <= k < fs.len() && fs[k] == stats_finding(passed, total);
            assert(fs[k].severity == Severity::Critical);
        }
    }
}

/// The forbidden-path finding depends on the council's count alone: it is
/// first among Gate's findings exactly when that count is positive,
/// whatever the stats say.
pub proof fn law_gate_forbidden_finding_needs_only_council(n: u32, stats: Option<(u32, u32)>)
    ensures
        n > 0 ==> gate_findings(Some(n), stats)[0] == forbidden_finding(n),
        n == 0 ==> !gate_findings(Some(n), stats).contains(forbidden_finding(n)),
        !gate_findings(None, stats).contains(forbidden_finding(n)),
{
    if n == 0 && gate_findings(Some(n), stats).contains(forbidden_finding(n)) {
        let fs = gate_findings(Some(n), stats);
        let k = choose|k: int| 0 <= k < fs.len() && fs[k] == forbidden_finding(n);
        assert(fs[k].severity == Severity::Major);
    }
    if gate_findings(None, stats).contains(forbidden_finding(n)) {
        let fs = gate_findings(None, stats);
        let k = choose|k: int| 0 <= k < fs.len() && fs[k] == forbidden_finding(n);
        assert(fs[k].severity == Severity::Major);
    }
}

} // verus!
