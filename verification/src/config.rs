//! `zaindari.toml` — the one config over the three engines.
//!
//! Every pillar section is optional: a missing `[gate]` means that pillar
//! is absent from the report, never failed. Reading and parsing the TOML file
//! happens at the edge of the program; this module holds the config model,
//! its defaults and the sample config.

use vstd::prelude::*;

verus! {

/// Gate pillar — `aatxe evals`.
#[derive(Debug, Clone, PartialEq)]
pub struct GateConfig {
    /// Path to the `aatxe` binary; defaults to the bare name on PATH.
    pub bin: String,
    /// Council corpus directory passed as `--corpus`.
    pub corpus: Option<String>,
    /// Baseline eval JSON passed as `--baseline`.
    pub baseline: Option<String>,
    /// Extra flags appended verbatim to the `aatxe evals` invocation.
    pub flags: Vec<String>,
    /// A native-report command (`[program, args…]`) that drives Gate
    /// pillar in place of `aatxe`; `{out}` in its arguments is replaced by
    /// the path the envelope must be written to.
    pub report_cmd: Option<Vec<String>>,
}

/// Guard pillar — `iratxo test`.
#[derive(Debug, Clone, PartialEq)]
pub struct GuardConfig {
    /// Path to the `iratxo` binary; defaults to the bare name on PATH.
    pub bin: String,
    /// Pack / suite / directory paths passed to `iratxo test`.
    pub packs: Vec<String>,
}

/// Watch pillar — `cardinal-map check`. `N` is the number type of the
/// anomaly threshold.
#[derive(Debug, Clone, PartialEq)]
pub struct WatchConfig<N> {
    /// Path to the `cardinal-map` binary; defaults to the bare name on PATH.
    pub bin: String,
    /// Trained-profile directory passed as `--profiles`.
    pub profiles: String,
    /// Entity schema JSON passed as `--schema`.
    pub schema: String,
    /// JSON array of names to score, passed as `--input`.
    pub input: String,
    /// Cardinality threshold above which an item is flagged anomalous.
    pub anomaly_threshold: N,
}

/// The whole config. Each pillar section is independently optional.
#[derive(Debug, Clone, PartialEq)]
pub struct Config<N> {
    pub gate: Option<GateConfig>,
    pub guard: Option<GuardConfig>,
    pub watch: Option<WatchConfig<N>>,
}

impl<N> Default for Config<N> {
    fn default() -> (r: Self)
        ensures
            r.gate is None,
            r.guard is None,
            r.watch is None,
    {
        Config { gate: None, guard: None, watch: None }
    }
}

/// The default `[gate].bin`.
pub fn default_aatxe_bin() -> (r: String)
    ensures
        r@ == "aatxe"@,
{
    "aatxe".to_string()
}

/// The default `[guard].bin`.
pub fn default_iratxo_bin() -> (r: String)
    ensures
        r@ == "iratxo"@,
{
    "iratxo".to_string()
}

/// The default `[watch].bin`.
pub fn default_cardinal_bin() -> (r: String)
    ensures
        r@ == "cardinal-map"@,
{
    "cardinal-map".to_string()
}

/// The filename zaindari looks for when walking up.
pub const CONFIG_FILENAME: &'static str = "zaindari.toml";

/// The commented sample config `zaindari init` writes.
pub const SAMPLE_CONFIG: &'static str = r#"# zaindari.toml — one config over three LLM-trust engines.
# Every section is optional. A missing section means that pillar is reported
# "skipped", never failed. Delete the sections you don't use.

# ── Gate: pre-ship eval regression gate (engine: aatxe) ──────────────────────
[gate]
# bin = "aatxe"                 # binary path; defaults to `aatxe` on PATH
corpus = "evals/council/cases"  # council corpus dir (--corpus)
baseline = "evals/baseline.json" # baseline eval JSON (--baseline); regression -> exit 2
flags = ["--council", "--stats"] # appended verbatim to `aatxe evals`

# ── Guard: runtime rule packs (engine: iratxo) ───────────────────────────────
[guard]
# bin = "iratxo"
packs = ["rules/promo.cases.yaml"] # suite / pack / dir paths for `iratxo test`

# ── Watch: post-ship drift detection (engine: cardinal-map) ──────────────────
[watch]
# bin = "cardinal-map"
profiles = "profiles/product"   # trained-profile dir (--profiles)
schema = "schemas/product.json" # entity schema (--schema)
input = "watch/today.json"      # JSON array of names to score (--input)
anomaly_threshold = 0.6         # cardinality >= this is flagged anomalous
"#;

/// The commented sample config `zaindari init` writes.
pub fn sample_config() -> (r: &'static str)
    ensures
        r@ == SAMPLE_CONFIG@,
{
    SAMPLE_CONFIG
}

/// `is_file` said no for each of the first `n` candidates.
pub open spec fn none_found<F: Fn(&String) -> bool>(candidates: Seq<String>, n: int, is_file: F) -> bool {
    forall|j: int| 0 <= j < n ==> #[trigger] is_file.ensures((&candidates[j],), false)
}

/// Find the config file by walking up: `candidates` are the config paths
/// of the start directory and then of each ancestor, nearest first, and
/// `is_file` asks the filesystem whether one is there. The first candidate
/// that is a file wins; the farther ones are not asked. `None` when no
/// candidate is a file.
pub fn find_config_path<F: Fn(&String) -> bool>(candidates: &Vec<String>, is_file: F) -> (r:
    Option<String>)
    requires
        forall|j: int| 0 <= j < candidates@.len() ==> is_file.requires((&candidates@[j],)),
    ensures
        r is None ==> none_found(candidates@, candidates@.len() as int, is_file),
        r matches Some(p) ==> exists|i: int|
            0 <= i < candidates@.len() && p == candidates@[i] && #[trigger] is_file.ensures(
                (&candidates@[i],),
                true,
            ) && none_found(candidates@, i, is_file),
{
    let mut i: usize = 0;
    while i < candidates.len()
        invariant
            i <= candidates@.len(),
            forall|j: int| 0 <= j < candidates@.len() ==> is_file.requires((&candidates@[j],)),
            none_found(candidates@, i as int, is_file),
        decreases candidates@.len() - i,
    {
        let c = &candidates[i];
        if is_file(c) {
            let p = c.clone();
            proof {
                assert(is_file.ensures((&candidates@[i as int],), true));
            }
            return Some(p);
        }
        i += 1;
    }
    None
}

} // verus!
