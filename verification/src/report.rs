//! The shared report model — the one shape every engine adapter maps into,
//! and the only thing the renderer and the exit-code policy understand.
//!
//! Measurements are generic over their number type `N`: the library never
//! does arithmetic on them, it only carries them.

use vstd::prelude::*;
use crate::text::{append_str, from_chars, opt_view};

verus! {

/// Schema version of [`ZaindariReport`]. Bumped when the shape changes so a
/// stored run JSON can be re-rendered by a known-compatible renderer.
pub const REPORT_SCHEMA_VERSION: u32 = 1;

/// Outcome of one pillar.
#[derive(Debug, Clone, Copy, PartialEq, Eq, Structural)]
pub enum PillarStatus {
    /// Engine ran and met its bar.
    Pass,
    /// Engine ran and failed its bar (regression / rule failure). CI-gating.
    Fail,
    /// Engine ran; result is informational and below a hard-fail line.
    Warn,
    /// Pillar configured but not selected this run.
    Skipped,
    /// Engine binary could not be found / executed.
    EngineMissing,
}

/// The traffic-light label of a status.
pub open spec fn status_label(s: PillarStatus) -> Seq<char> {
    match s {
        PillarStatus::Pass => "PASS"@,
        PillarStatus::Fail => "FAIL"@,
        PillarStatus::Warn => "WARN"@,
        PillarStatus::Skipped => "SKIPPED"@,
        PillarStatus::EngineMissing => "ENGINE MISSING"@,
    }
}

impl PillarStatus {
    /// Human "traffic light" label used in text and HTML output.
    pub fn label(self) -> (r: &'static str)
        ensures
            r@ == status_label(self),
    {
        match self {
            PillarStatus::Pass => "PASS",
            PillarStatus::Fail => "FAIL",
            PillarStatus::Warn => "WARN",
            PillarStatus::Skipped => "SKIPPED",
            PillarStatus::EngineMissing => "ENGINE MISSING",
        }
    }
}

/// Severity of a finding, worst first.
#[derive(Debug, Clone, Copy, PartialEq, Eq, PartialOrd, Ord, Structural)]
pub enum Severity {
    Critical,
    Major,
    Minor,
    Nit,
    Info,
}

/// The position of a severity in worst-to-best order.
pub open spec fn severity_rank(s: Severity) -> nat {
    match s {
        Severity::Critical => 0,
        Severity::Major => 1,
        Severity::Minor => 2,
        Severity::Nit => 3,
        Severity::Info => 4,
    }
}

/// The label of a severity.
pub open spec fn severity_label(s: Severity) -> Seq<char> {
    match s {
        Severity::Critical => "critical"@,
        Severity::Major => "major"@,
        Severity::Minor => "minor"@,
        Severity::Nit => "nit"@,
        Severity::Info => "info"@,
    }
}

impl Severity {
    /// The lower-case label of a severity.
    pub fn label(self) -> (r: &'static str)
        ensures
            r@ == severity_label(self),
    {
        match self {
            Severity::Critical => "critical",
            Severity::Major => "major",
            Severity::Minor => "minor",
            Severity::Nit => "nit",
            Severity::Info => "info",
        }
    }

    /// Worst-to-best order for grouped rendering.
    pub fn all_worst_first() -> (r: [Severity; 5])
        ensures
            r@ == seq![
                Severity::Critical,
                Severity::Major,
                Severity::Minor,
                Severity::Nit,
                Severity::Info,
            ],
            forall|i: int| 0 <= i < 5 ==> severity_rank(#[trigger] r@[i]) == i,
    {
        let r = [Severity::Critical, Severity::Major, Severity::Minor, Severity::Nit, Severity::Info];
        proof {
            assert(r@ =~= seq![
                Severity::Critical,
                Severity::Major,
                Severity::Minor,
                Severity::Nit,
                Severity::Info,
            ]);
        }
        r
    }
}

/// Direction a metric should move for "better".
#[derive(Debug, Clone, Copy, PartialEq, Eq, Structural)]
pub enum MetricDirection {
    /// Higher is better (recall, F1, AUC).
    HigherBetter,
    /// Lower is better (false positives, Brier, MAE).
    LowerBetter,
    /// No inherent good direction (counts, sizes).
    Neutral,
}

/// Where a metric's delta lies relative to zero.
#[derive(Debug, Clone, Copy, PartialEq, Eq, Structural)]
pub enum DeltaSign {
    /// Strictly below zero.
    Negative,
    /// Strictly above zero.
    Positive,
    /// Zero, or not comparable with zero.
    Neither,
}

/// A metric with this direction and delta moved the wrong way.
pub open spec fn is_regression(direction: MetricDirection, delta: Option<DeltaSign>) -> bool {
    match (delta, direction) {
        (Some(DeltaSign::Negative), MetricDirection::HigherBetter) => true,
        (Some(DeltaSign::Positive), MetricDirection::LowerBetter) => true,
        _ => false,
    }
}

impl MetricDirection {
    /// Whether a metric with this direction regressed, given where its
    /// delta (`value - baseline`, absent without a baseline) lies.
    pub fn regressed_by(self, delta: Option<DeltaSign>) -> (r: bool)
        ensures
            r == is_regression(self, delta),
    {
        match (delta, self) {
            (Some(DeltaSign::Negative), MetricDirection::HigherBetter) => true,
            (Some(DeltaSign::Positive), MetricDirection::LowerBetter) => true,
            _ => false,
        }
    }
}

/// A metric without a baseline (no delta) never regresses, and a neutral
/// metric never regresses.
pub proof fn law_no_delta_or_neutral_never_regresses(
    direction: MetricDirection,
    delta: Option<DeltaSign>,
)
    ensures
        !is_regression(direction, None),
        !is_regression(MetricDirection::Neutral, delta),
{
}

/// One named measurement, optionally compared to a baseline.
#[derive(Debug, Clone, PartialEq)]
pub struct Metric<N> {
    pub name: String,
    pub value: N,
    pub baseline: Option<N>,
    /// `value - baseline`, present only when `baseline` is.
    pub delta: Option<N>,
    pub direction: MetricDirection,
}

/// The mathematical content of a [`Metric`].
pub struct MetricView<N> {
    pub name: Seq<char>,
    pub value: N,
    pub baseline: Option<N>,
    pub delta: Option<N>,
    pub direction: MetricDirection,
}

impl<N> View for Metric<N> {
    type V = MetricView<N>;

    open spec fn view(&self) -> MetricView<N> {
        MetricView {
            name: self.name@,
            value: self.value,
            baseline: self.baseline,
            delta: self.delta,
            direction: self.direction,
        }
    }
}

/// A metric without a baseline.
pub open spec fn plain_metric<N>(name: Seq<char>, value: N, direction: MetricDirection) -> MetricView<N> {
    MetricView { name, value, baseline: None, delta: None, direction }
}

impl<N> Metric<N> {
    /// A metric with no baseline.
    pub fn plain(name: &str, value: N, direction: MetricDirection) -> (r: Self)
        ensures
            r@ == plain_metric(name@, value, direction),
    {
        Metric { name: name.to_string(), value, baseline: None, delta: None, direction }
    }
}

impl<N: Copy> Metric<N> {
    /// True when a baselined metric moved in the wrong direction; `sign`
    /// tells where a delta lies relative to zero.
    pub fn regressed<G: Fn(N) -> DeltaSign>(&self, sign: G) -> (r: bool)
        requires
            forall|d: N| sign.requires((d,)),
        ensures
            self.delta is None ==> !r,
            self.delta matches Some(d) ==> exists|s: DeltaSign|
                sign.ensures((d,), s) && r == is_regression(self.direction, Some(s)),
    {
        match self.delta {
            Some(d) => {
                let s = sign(d);
                self.direction.regressed_by(Some(s))
            },
            None => false,
        }
    }

    /// A metric with a baseline; `delta` is `value - baseline` as `minus`
    /// computes it.
    pub fn with_baseline<S: Fn(N, N) -> N>(
        name: &str,
        value: N,
        baseline: N,
        direction: MetricDirection,
        minus: &S,
    ) -> (r: Self)
        requires
            forall|a: N, b: N| minus.requires((a, b)),
        ensures
            r@.name == name@,
            r@.value == value,
            r@.baseline == Some(baseline),
            r@.direction == direction,
            r@.delta matches Some(d) && minus.ensures((value, baseline), d),
    {
        let delta = minus(value, baseline);
        Metric { name: name.to_string(), value, baseline: Some(baseline), delta: Some(delta), direction }
    }
}

/// One actionable item surfaced by an engine.
#[derive(Debug, Clone, PartialEq)]
pub struct Finding {
    pub severity: Severity,
    pub title: String,
    pub detail: String,
    /// Free-form locator (file:line, entity name, rule id) when the engine
    /// gives one.
    pub location: Option<String>,
}

/// The mathematical content of a [`Finding`].
pub struct FindingView {
    pub severity: Severity,
    pub title: Seq<char>,
    pub detail: Seq<char>,
    pub location: Option<Seq<char>>,
}

impl View for Finding {
    type V = FindingView;

    open spec fn view(&self) -> FindingView {
        FindingView {
            severity: self.severity,
            title: self.title@,
            detail: self.detail@,
            location: opt_view(self.location),
        }
    }
}

/// The views of a sequence of findings.
pub open spec fn finding_views(v: Seq<Finding>) -> Seq<FindingView> {
    v.map_values(|f: Finding| f@)
}

/// The views of a sequence of metrics.
pub open spec fn metric_views<N>(v: Seq<Metric<N>>) -> Seq<MetricView<N>> {
    v.map_values(|m: Metric<N>| m@)
}

impl Finding {
    /// A finding without a location.
    pub fn new(severity: Severity, title: &str, detail: &str) -> (r: Self)
        ensures
            r@ == (FindingView { severity, title: title@, detail: detail@, location: None }),
    {
        Finding {
            severity,
            title: title.to_string(),
            detail: detail.to_string(),
            location: None,
        }
    }

    /// The same finding, located at `location`.
    pub fn with_location(self, location: &str) -> (r: Self)
        ensures
            r@ == (FindingView { location: Some(location@), ..self@ }),
    {
        let mut s = self;
        s.location = Some(location.to_string());
        s
    }
}

/// Result for a single pillar, in the shared shape.
#[derive(Debug, Clone, PartialEq)]
pub struct PillarResult<N> {
    pub status: PillarStatus,
    /// One plain-English sentence a non-engineer can read.
    pub headline: String,
    pub metrics: Vec<Metric<N>>,
    pub findings: Vec<Finding>,
    /// Path to the raw engine output captured for this pillar, if written.
    pub raw_ref: Option<String>,
}

/// The mathematical content of a [`PillarResult`].
pub struct PillarResultView<N> {
    pub status: PillarStatus,
    pub headline: Seq<char>,
    pub metrics: Seq<MetricView<N>>,
    pub findings: Seq<FindingView>,
    pub raw_ref: Option<Seq<char>>,
}

impl<N> View for PillarResult<N> {
    type V = PillarResultView<N>;

    open spec fn view(&self) -> PillarResultView<N> {
        PillarResultView {
            status: self.status,
            headline: self.headline@,
            metrics: metric_views(self.metrics@),
            findings: finding_views(self.findings@),
            raw_ref: opt_view(self.raw_ref),
        }
    }
}

/// A result with just a status and a headline.
pub open spec fn bare_result<N>(status: PillarStatus, headline: Seq<char>) -> PillarResultView<N> {
    PillarResultView { status, headline, metrics: seq![], findings: seq![], raw_ref: None }
}

/// The headline of an `engine_missing` result.
pub open spec fn engine_missing_headline(binary: Seq<char>, hint: Seq<char>) -> Seq<char> {
    "engine `"@ + binary + "` not found on PATH — "@ + hint
}

impl<N> PillarResult<N> {
    /// Construct a minimal result with just status + headline.
    pub fn new(status: PillarStatus, headline: &str) -> (r: Self)
        ensures
            r@ == bare_result::<N>(status, headline@),
    {
        let r = PillarResult {
            status,
            headline: headline.to_string(),
            metrics: Vec::new(),
            findings: Vec::new(),
            raw_ref: None,
        };
        proof {
            assert(metric_views(r.metrics@) =~= Seq::<MetricView<N>>::empty());
            assert(finding_views(r.findings@) =~= Seq::<FindingView>::empty());
        }
        r
    }

    /// Standard `engine_missing` result carrying an install hint as the
    /// headline.
    pub fn engine_missing(binary: &str, hint: &str) -> (r: Self)
        ensures
            r@ == bare_result::<N>(
                PillarStatus::EngineMissing,
                engine_missing_headline(binary@, hint@),
            ),
    {
        let mut h: Vec<char> = Vec::new();
        append_str(&mut h, "engine `");
        append_str(&mut h, binary);
        append_str(&mut h, "` not found on PATH — ");
        append_str(&mut h, hint);
        let headline = from_chars(&h);
        Self::new(PillarStatus::EngineMissing, headline.as_str())
    }
}

/// The three pillars. A `None` pillar was not configured; a `Some` with
/// [`PillarStatus::Skipped`] was configured but deliberately not run.
#[derive(Debug, Clone, PartialEq)]
pub struct Pillars<N> {
    pub gate: Option<PillarResult<N>>,
    pub guard: Option<PillarResult<N>>,
    pub watch: Option<PillarResult<N>>,
}

impl<N> Default for Pillars<N> {
    fn default() -> (r: Self)
        ensures
            r.gate is None,
            r.guard is None,
            r.watch is None,
    {
        Pillars { gate: None, guard: None, watch: None }
    }
}

/// Version strings keyed by pillar. `None` = that engine reported no version
/// (or was never run / was missing).
#[derive(Debug, Clone, PartialEq)]
pub struct ToolVersions {
    pub gate: Option<String>,
    pub guard: Option<String>,
    pub watch: Option<String>,
}

impl Default for ToolVersions {
    fn default() -> (r: Self)
        ensures
            r.gate is None,
            r.guard is None,
            r.watch is None,
    {
        ToolVersions { gate: None, guard: None, watch: None }
    }
}

/// Top-level run report: one optional [`PillarResult`] per pillar plus the
/// engine version strings observed at run time.
#[derive(Debug, Clone, PartialEq)]
pub struct ZaindariReport<N> {
    pub schema_version: u32,
    pub tool_versions: ToolVersions,
    pub pillars: Pillars<N>,
}

impl<N> ZaindariReport<N> {
    /// A report with every pillar absent.
    pub fn empty() -> (r: Self)
        ensures
            r.schema_version == REPORT_SCHEMA_VERSION,
            r.tool_versions.gate is None,
            r.tool_versions.guard is None,
            r.tool_versions.watch is None,
            r.pillars.gate is None,
            r.pillars.guard is None,
            r.pillars.watch is None,
    {
        ZaindariReport {
            schema_version: REPORT_SCHEMA_VERSION,
            tool_versions: ToolVersions::default(),
            pillars: Pillars::default(),
        }
    }
}

/// Severity labels name their variants, in lower case, and no two
/// severities share a label: a rendered label says which severity it was.
pub proof fn law_severity_labels_are_distinct_names(a: Severity, b: Severity)
    ensures
        severity_label(a) == severity_label(b) ==> a == b,
        severity_label(Severity::Critical) == "critical"@,
        severity_label(Severity::Major) == "major"@,
        severity_label(Severity::Minor) == "minor"@,
        severity_label(Severity::Nit) == "nit"@,
        severity_label(Severity::Info) == "info"@,
{
    reveal_strlit("critical");
    reveal_strlit("major");
    reveal_strlit("minor");
    reveal_strlit("nit");
    reveal_strlit("info");
    if severity_label(a) == severity_label(b) && a != b {
        assert(severity_label(a).len() == severity_label(b).len());
        assert(severity_label(a)[1] == severity_label(b)[1]);
    }
}

} // verus!
