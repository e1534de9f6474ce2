//! Watch adapter — the decisions over `cardinal-map check --json` output.
//!
//! Engine contract:
//!   * `cardinal-map check --json --schema <s> --profiles <dir> --input <names.json> --threshold <t>`
//!   * `--json` emits a JSON array of scored items (or `null` for none);
//!     each item has a name, an entity type, a cardinality, a `flagged` bit
//!     and per-dimension scores.
//!   * anomalies do not make it exit non-zero.
//!
//! Anomalies are a WARN (drift is signal, not a build break); the exit-code
//! policy promotes WARN to a failure under `strict_watch`.
//!
//! Scores are numbers this library does not compute with: each item arrives
//! with the facts read off them (whether it is above the threshold, the
//! cardinality and the top dimension's score already rendered as text).

use vstd::prelude::*;
use crate::report::{
    finding_views, metric_views, plain_metric, Finding, FindingView, Metric, MetricDirection,
    MetricView, PillarResult, PillarStatus, Severity,
};
use crate::text::{
    append_str, decimal, from_chars, push_decimal, to_chars, trim, trim_chars,
};

verus! {

/// The dimension that drove an item's score most.
pub struct TopDimension {
    pub name: String,
    pub reason: String,
    /// The dimension's score rendered with two decimals.
    pub score: String,
}

/// One scored item.
pub struct ScoredItem {
    pub name: String,
    pub entity_type: String,
    /// The engine flagged the item as anomalous.
    pub flagged: bool,
    /// The item's cardinality is at or above the configured threshold.
    pub above_threshold: bool,
    /// The item's cardinality rendered with three decimals.
    pub cardinality: String,
    /// The highest-scoring dimension other than `_source`, if any.
    pub top_dimension: Option<TopDimension>,
}

/// What the watch pillar makes of a set of scored items.
pub struct WatchAssessment {
    pub status: PillarStatus,
    pub headline: String,
    pub findings: Vec<Finding>,
    pub scored: usize,
    pub flagged: usize,
    pub above_threshold: usize,
}

/// `cardinal-map check --json` printed no items: blank output or `null`.
pub open spec fn no_items(stdout: Seq<char>) -> bool {
    trim(stdout).len() == 0 || trim(stdout) == "null"@
}

/// Whether the engine output holds no items at all (blank, or `null`).
pub fn is_empty_output(stdout: &str) -> (b: bool)
    ensures
        b == no_items(stdout@),
{
    let cs = to_chars(stdout);
    let t = trim_chars(&cs);
    let null = to_chars("null");
    let mut same = t.len() == null.len();
    let mut i: usize = 0;
    while same && i < t.len()
        invariant
            same ==> t@.len() == null@.len(),
            i <= t@.len(),
            same ==> t@.take(i as int) == null@.take(i as int),
            !same ==> t@ != null@,
        ensures
            same ==> i == t@.len(),
            same ==> t@.take(i as int) == null@.take(i as int),
            same ==> t@.len() == null@.len(),
            !same ==> t@ != null@,
        decreases t@.len() - i,
    {
        if t[i] != null[i] {
            same = false;
            break;
        }
        proof {
            assert(t@.take(i + 1) =~= t@.take(i as int).push(t@[i as int]));
            assert(null@.take(i + 1) =~= null@.take(i as int).push(null@[i as int]));
        }
        i += 1;
    }
    proof {
        if same {
            assert(t@.take(t@.len() as int) =~= t@);
            assert(null@.take(null@.len() as int) =~= null@);
        }
    }
    t.len() == 0 || same
}

/// Why an item looks anomalous, from its top dimension.
pub open spec fn why(top: Option<TopDimension>) -> Seq<char> {
    match top {
        Some(d) => if d.reason@.len() == 0 {
            "driven by `"@ + d.name@ + "` (score "@ + d.score@ + ")"@
        } else {
            d.reason@ + " (`"@ + d.name@ + "` score "@ + d.score@ + ")"@
        },
        None => "no dimension detail"@,
    }
}

/// The finding for a flagged item.
pub open spec fn item_finding(it: ScoredItem) -> FindingView {
    FindingView {
        severity: Severity::Major,
        title: "anomalous "@ + (if it.entity_type@.len() == 0 {
            "item"@
        } else {
            it.entity_type@
        }) + ": "@ + it.name@,
        detail: "cardinality "@ + it.cardinality@ + " — "@ + why(it.top_dimension),
        location: Some(it.name@),
    }
}

/// The findings for the flagged items, in order.
pub open spec fn flagged_findings(items: Seq<ScoredItem>) -> Seq<FindingView>
    decreases items.len(),
{
    if items.len() == 0 {
        seq![]
    } else {
        let prev = flagged_findings(items.drop_last());
        if items.last().flagged {
            prev.push(item_finding(items.last()))
        } else {
            prev
        }
    }
}

/// How many items the engine flagged.
pub open spec fn count_flagged(items: Seq<ScoredItem>) -> nat
    decreases items.len(),
{
    if items.len() == 0 {
        0
    } else {
        count_flagged(items.drop_last()) + if items.last().flagged {
            1nat
        } else {
            0nat
        }
    }
}

/// How many items are at or above the threshold.
pub open spec fn count_above(items: Seq<ScoredItem>) -> nat
    decreases items.len(),
{
    if items.len() == 0 {
        0
    } else {
        count_above(items.drop_last()) + if items.last().above_threshold {
            1nat
        } else {
            0nat
        }
    }
}

/// WARN when anything was flagged, PASS otherwise.
pub open spec fn watch_status(flagged: nat) -> PillarStatus {
    if flagged == 0 {
        PillarStatus::Pass
    } else {
        PillarStatus::Warn
    }
}

/// The plain-English headline.
pub open spec fn watch_headline(status: PillarStatus, flagged: nat, total: nat) -> Seq<char> {
    match status {
        PillarStatus::Pass => "No drift: all "@ + decimal(total)
            + " monitored item(s) scored below the anomaly threshold."@,
        PillarStatus::Warn => decimal(flagged) + " of "@ + decimal(total)
            + " monitored item(s) look anomalous — review before trusting the output."@,
        _ => "Watch ran."@,
    }
}

fn why_text(top: &Option<TopDimension>) -> (r: Vec<char>)
    ensures
        r@ == why(*top),
{
    let mut v: Vec<char> = Vec::new();
    match top {
        Some(d) => {
            if d.reason.as_str().is_empty() {
                append_str(&mut v, "driven by `");
                append_str(&mut v, d.name.as_str());
                append_str(&mut v, "` (score ");
                append_str(&mut v, d.score.as_str());
                append_str(&mut v, ")");
            } else {
                append_str(&mut v, d.reason.as_str());
                append_str(&mut v, " (`");
                append_str(&mut v, d.name.as_str());
                append_str(&mut v, "` score ");
                append_str(&mut v, d.score.as_str());
                append_str(&mut v, ")");
            }
        },
        None => {
            append_str(&mut v, "no dimension detail");
        },
    }
    proof {
        assert(v@ =~= why(*top));
    }
    v
}

fn finding_for(it: &ScoredItem) -> (f: Finding)
    ensures
        f@ == item_finding(*it),
{
    let mut title: Vec<char> = Vec::new();
    append_str(&mut title, "anomalous ");
    if it.entity_type.as_str().is_empty() {
        append_str(&mut title, "item");
    } else {
        append_str(&mut title, it.entity_type.as_str());
    }
    append_str(&mut title, ": ");
    append_str(&mut title, it.name.as_str());
    let mut detail: Vec<char> = Vec::new();
    append_str(&mut detail, "cardinality ");
    append_str(&mut detail, it.cardinality.as_str());
    append_str(&mut detail, " — ");
    let w = why_text(&it.top_dimension);
    let ghost before = detail@;
    let mut k: usize = 0;
    while k < w.len()
        invariant
            k <= w@.len(),
            detail@ == before + w@.take(k as int),
        decreases w@.len() - k,
    {
        detail.push(w[k]);
        proof {
            assert(w@.take(k + 1) =~= w@.take(k as int).push(w@[k as int]));
        }
        k += 1;
    }
    proof {
        assert(w@.take(w@.len() as int) =~= w@);
        assert(title@ =~= item_finding(*it).title);
        assert(detail@ =~= item_finding(*it).detail);
    }
    let t = from_chars(&title);
    let d = from_chars(&detail);
    Finding::new(Severity::Major, t.as_str(), d.as_str()).with_location(it.name.as_str())
}

/// Assess the scored items: counts, status, headline and one finding per
/// flagged item.
pub fn assess(items: &Vec<ScoredItem>) -> (r: WatchAssessment)
    ensures
        r.scored == items@.len(),
        r.flagged == count_flagged(items@),
        r.above_threshold == count_above(items@),
        r.status == watch_status(count_flagged(items@)),
        r.headline@ == watch_headline(r.status, count_flagged(items@), items@.len()),
        finding_views(r.findings@) == flagged_findings(items@),
{
    let mut findings: Vec<Finding> = Vec::new();
    let mut flagged: usize = 0;
    let mut above: usize = 0;
    let mut i: usize = 0;
    while i < items.len()
        invariant
            i <= items@.len(),
            flagged == count_flagged(items@.take(i as int)),
            above == count_above(items@.take(i as int)),
            flagged <= i,
            above <= i,
            finding_views(findings@) == flagged_findings(items@.take(i as int)),
        decreases items@.len() - i,
    {
        let it = &items[i];
        proof {
            assert(items@.take(i + 1).drop_last() =~= items@.take(i as int));
            assert(items@.take(i + 1).last() == items@[i as int]);
        }
        if it.flagged {
            let f = finding_for(it);
            let ghost before = findings@;
            findings.push(f);
            proof {
                assert(finding_views(findings@) =~= finding_views(before).push(f@));
            }
            flagged += 1;
        }
        if it.above_threshold {
            above += 1;
        }
        i += 1;
    }
    proof {
        assert(items@.take(items@.len() as int) =~= items@);
    }
    let total = items.len();
    let status = if flagged == 0 {
        PillarStatus::Pass
    } else {
        PillarStatus::Warn
    };
    let mut h: Vec<char> = Vec::new();
    match status {
        PillarStatus::Pass => {
            append_str(&mut h, "No drift: all ");
            push_decimal(&mut h, total as u64);
            append_str(&mut h, " monitored item(s) scored below the anomaly threshold.");
        },
        PillarStatus::Warn => {
            push_decimal(&mut h, flagged as u64);
            append_str(&mut h, " of ");
            push_decimal(&mut h, total as u64);
            append_str(
                &mut h,
                " monitored item(s) look anomalous — review before trusting the output.",
            );
        },
        _ => {
            append_str(&mut h, "Watch ran.");
        },
    }
    proof {
        assert(h@ =~= watch_headline(status, flagged as nat, total as nat));
    }
    let headline = from_chars(&h);
    WatchAssessment { status, headline, findings, scored: total, flagged, above_threshold: above }
}

/// `m` is the plain metric `name = k` in `direction`, with `count` turning
/// the count into a number.
pub open spec fn counted<N, C: Fn(usize) -> N>(
    m: MetricView<N>,
    name: Seq<char>,
    k: usize,
    direction: MetricDirection,
    count: C,
) -> bool {
    &&& m.name == name
    &&& count.ensures((k,), m.value)
    &&& m.direction == direction
    &&& m.baseline is None
    &&& m.delta is None
}

fn counted_metric<N, C: Fn(usize) -> N>(name: &str, k: usize, direction: MetricDirection, count: &C) -> (m: Metric<N>)
    requires
        forall|k: usize| count.requires((k,)),
    ensures
        counted(m@, name@, k, direction, *count),
{
    Metric::plain(name, count(k), direction)
}

/// `ms` are the watch metrics: items scored, flagged and above the
/// threshold, the threshold itself, then — when `spread` gives the mean and
/// the maximum cardinality — those two. `count` turns a count into a number.
pub open spec fn watch_metrics<N, C: Fn(usize) -> N>(
    ms: Seq<MetricView<N>>,
    scored: usize,
    flagged: usize,
    above: usize,
    threshold: N,
    spread: Option<(N, N)>,
    count: C,
) -> bool {
    &&& ms.len() == if spread is Some {
        6int
    } else {
        4int
    }
    &&& counted(ms[0], "watch.items_scored"@, scored, MetricDirection::Neutral, count)
    &&& counted(ms[1], "watch.items_flagged"@, flagged, MetricDirection::LowerBetter, count)
    &&& counted(ms[2], "watch.items_above_threshold"@, above, MetricDirection::LowerBetter, count)
    &&& ms[3] == plain_metric("watch.anomaly_threshold"@, threshold, MetricDirection::Neutral)
    &&& spread matches Some((mean, max)) ==> ms[4] == plain_metric(
        "watch.mean_cardinality"@,
        mean,
        MetricDirection::LowerBetter,
    ) && ms[5] == plain_metric("watch.max_cardinality"@, max, MetricDirection::LowerBetter)
}

/// The watch metrics: items scored, flagged and above the threshold, the
/// threshold itself, then — when `spread` gives the mean and the maximum
/// cardinality — those two. `count` turns a count into a number.
pub fn metrics<N, C: Fn(usize) -> N>(
    a: &WatchAssessment,
    threshold: N,
    spread: Option<(N, N)>,
    count: C,
) -> (r: Vec<Metric<N>>)
    requires
        forall|k: usize| count.requires((k,)),
    ensures
        watch_metrics(
            metric_views(r@),
            a.scored,
            a.flagged,
            a.above_threshold,
            threshold,
            spread,
            count,
        ),
{
    let mut r: Vec<Metric<N>> = Vec::new();
    r.push(counted_metric("watch.items_scored", a.scored, MetricDirection::Neutral, &count));
    r.push(counted_metric("watch.items_flagged", a.flagged, MetricDirection::LowerBetter, &count));
    r.push(counted_metric("watch.items_above_threshold", a.above_threshold, MetricDirection::LowerBetter, &count));
    r.push(Metric::plain("watch.anomaly_threshold", threshold, MetricDirection::Neutral));
    if let Some((mean, max)) = spread {
        r.push(Metric::plain("watch.mean_cardinality", mean, MetricDirection::LowerBetter));
        r.push(Metric::plain("watch.max_cardinality", max, MetricDirection::LowerBetter));
    }
    r
}

/// `p` is the watch pillar's result for the scored `items`: WARN when
/// some item is flagged and PASS otherwise, its headline, one finding per
/// flagged item, the watch metrics — with the mean and maximum cardinality
/// in `spread` when it is given — and `raw_ref`.
pub open spec fn watch_result_is<N, C: Fn(usize) -> N>(
    p: PillarResult<N>,
    items: Seq<ScoredItem>,
    threshold: N,
    raw_ref: Option<String>,
    spread: Option<(N, N)>,
    count: C,
) -> bool {
    let flagged = count_flagged(items);
    &&& p.status == watch_status(flagged)
    &&& p.headline@ == watch_headline(p.status, flagged, items.len())
    &&& finding_views(p.findings@) == flagged_findings(items)
    &&& p.raw_ref == raw_ref
    &&& watch_metrics(
        metric_views(p.metrics@),
        items.len() as usize,
        flagged as usize,
        count_above(items) as usize,
        threshold,
        spread,
        count,
    )
}

/// `p` is the watch pillar's result for the scored `items`, the mean and
/// maximum cardinality being what `spread` gives when there are items and
/// left out when there are none.
pub open spec fn watch_assembled<N, C: Fn(usize) -> N, P: Fn() -> (N, N)>(
    p: PillarResult<N>,
    items: Seq<ScoredItem>,
    threshold: N,
    raw_ref: Option<String>,
    spread: P,
    count: C,
) -> bool {
    if items.len() == 0 {
        watch_result_is(p, items, threshold, raw_ref, None, count)
    } else {
        exists|s: (N, N)|
            #[trigger] spread.ensures((), s) && watch_result_is(
                p,
                items,
                threshold,
                raw_ref,
                Some(s),
                count,
            )
    }
}

/// The watch pillar's result for the scored `items` at `threshold`, with
/// `raw_ref` where the raw output was kept. `spread` gives the mean and the
/// maximum cardinality and is asked only when there are items; `count`
/// turns a count into a number.
pub fn assemble<N, C: Fn(usize) -> N, P: Fn() -> (N, N)>(
    items: &Vec<ScoredItem>,
    threshold: N,
    raw_ref: Option<String>,
    spread: P,
    count: C,
) -> (r: PillarResult<N>)
    requires
        forall|k: usize| count.requires((k,)),
        items@.len() > 0 ==> spread.requires(()),
    ensures
        watch_assembled(r, items@, threshold, raw_ref, spread, count),
{
    let a = assess(items);
    proof {
        law_watch_one_finding_per_flagged_item(items@);
        assert(a.scored == items@.len() as usize);
    }
    let sp: Option<(N, N)> = if items.len() == 0 {
        None
    } else {
        Some(spread())
    };
    let ms = metrics(&a, threshold, sp, count);
    PillarResult {
        status: a.status,
        headline: a.headline,
        metrics: ms,
        findings: a.findings,
        raw_ref,
    }
}

/// `r` is what parsing gives once the output decoded to `d`: an error
/// when it did not decode, and otherwise the watch pillar's result for the
/// decoded items, the spread of the decoded cardinalities included when
/// there are items.
pub open spec fn watch_decoded<N, C: Fn(usize) -> N, P: Fn(&Vec<N>) -> (N, N)>(
    d: Result<(Vec<ScoredItem>, Vec<N>), serde_json::Error>,
    r: Result<PillarResult<N>, serde_json::Error>,
    threshold: N,
    raw_ref: Option<String>,
    spread: P,
    count: C,
) -> bool {
    match d {
        Err(e) => r == Err::<PillarResult<N>, serde_json::Error>(e),
        Ok((items, cards)) => r matches Ok(p) && if items@.len() == 0 {
            watch_result_is(p, items@, threshold, raw_ref, None, count)
        } else {
            exists|s: (N, N)|
                #[trigger] spread.ensures((&cards,), s) && watch_result_is(
                    p,
                    items@,
                    threshold,
                    raw_ref,
                    Some(s),
                    count,
                )
        },
    }
}

/// Parse `cardinal-map check --json` stdout into the watch pillar's result.
/// Output with no items (blank, or `null`) is an empty PASS; otherwise
/// `decode` (the caller's JSON decoder) reads the scored items and their
/// cardinalities, and what does not decode is the error. `spread` gives the
/// mean and maximum of the cardinalities and is asked only when there are
/// items; `count` turns a count into a number.
pub fn parse<N, D: Fn(&str) -> Result<(Vec<ScoredItem>, Vec<N>), serde_json::Error>, P: Fn(
    &Vec<N>,
) -> (N, N), C: Fn(usize) -> N>(
    stdout: &str,
    threshold: N,
    raw_ref: Option<String>,
    decode: D,
    spread: P,
    count: C,
) -> (r: Result<PillarResult<N>, serde_json::Error>)
    requires
        decode.requires((stdout,)),
        forall|v: &Vec<N>| spread.requires((v,)),
        forall|k: usize| count.requires((k,)),
    ensures
        no_items(stdout@) ==> (r matches Ok(p) && watch_result_is(
            p,
            seq![],
            threshold,
            raw_ref,
            None,
            count,
        )),
        !no_items(stdout@) ==> exists|d: Result<(Vec<ScoredItem>, Vec<N>), serde_json::Error>|
            #[trigger] decode.ensures((stdout,), d) && watch_decoded(
                d,
                r,
                threshold,
                raw_ref,
                spread,
                count,
            ),
{
    if is_empty_output(stdout) {
        let items: Vec<ScoredItem> = Vec::new();
        let cards: Vec<N> = Vec::new();
        let f = &spread;
        let sp = || -> (s: (N, N))
            requires
                f.requires((&cards,)),
            { f(&cards) };
        let p = assemble(&items, threshold, raw_ref, sp, count);
        proof {
            assert(items@ =~= Seq::<ScoredItem>::empty());
        }
        return Ok(p);
    }
    let d = decode(stdout);
    match d {
        Err(e) => Err(e),
        Ok((items, cards)) => {
            let f = &spread;
            let sp = || -> (s: (N, N))
                requires
                    f.requires((&cards,)),
                ensures
                    f.ensures((&cards,), s),
                { f(&cards) };
            Ok(assemble(&items, threshold, raw_ref, sp, count))
        },
    }
}

// ---------------------------------------------------------------------------
// Laws
// ---------------------------------------------------------------------------

/// The watch pillar warns exactly when some item was flagged, and never
/// fails: drift is signal, not a build break.
pub proof fn law_watch_warns_iff_flagged(items: Seq<ScoredItem>)
    ensures
        (watch_status(count_flagged(items)) == PillarStatus::Warn) <==> exists|i: int|
            0 <= i < items.len() && #[trigger] items[i].flagged,
        watch_status(count_flagged(items)) != PillarStatus::Fail,
    decreases items.len(),
{
    if items.len() > 0 {
        law_watch_warns_iff_flagged(items.drop_last());
        if exists|i: int| 0 <= i < items.drop_last().len() && #[trigger] items.drop_last()[i].flagged {
            let i = choose|i: int| 0 <= i < items.drop_last().len() && #[trigger] items.drop_last()[i].flagged;
            assert(items[i].flagged);
        }
        if exists|i: int| 0 <= i < items.len() && #[trigger] items[i].flagged {
            let i = choose|i: int| 0 <= i < items.len() && #[trigger] items[i].flagged;
            if i < items.len() - 1 {
                assert(items.drop_last()[i].flagged);
            }
        }
    }
}

/// There is one finding per flagged item, and at most as many flagged or
/// above-threshold items as scored ones.
pub proof fn law_watch_one_finding_per_flagged_item(items: Seq<ScoredItem>)
    ensures
        flagged_findings(items).len() == count_flagged(items),
        count_flagged(items) <= items.len(),
        count_above(items) <= items.len(),
    decreases items.len(),
{
    if items.len() > 0 {
        law_watch_one_finding_per_flagged_item(items.drop_last());
    }
}

/// The install hint shown when the `cardinal-map` binary is absent.
pub fn install_hint() -> (r: &'static str)
    ensures
        r@ == "build from the cardinal-map repo (`go build`) and set [watch].bin to it"@,
{
    "build from the cardinal-map repo (`go build`) and set [watch].bin to it"
}

} // verus!
