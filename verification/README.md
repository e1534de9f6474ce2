# zaindari

One report model and one exit-code policy over three LLM-trust engines:

| Pillar | Engine | Question |
|---|---|---|
| Gate | `aatxe evals` | Did eval quality regress against the baseline? |
| Guard | `iratxo test` | Does the output break a hard rule? |
| Watch | `cardinal-map check` | Does a live output look anomalous? |

Exit codes: `0` all pillars passed or were skipped (watch anomalies are a
warning), `2` Gate or Guard failed (or a watch anomaly under
`--strict-watch`), `1` an engine was missing or errored.

## Layout

- `src/` — the library, verified with Verus.
  - `text.rs` — character-level text operations (`lines`, `trim`, `find`,
    `split`, `replace`, `join`, decimal parsing and printing), each proved
    against a specification of the standard-library behaviour it follows.
  - `report.rs` — the shared report model, generic over the number type of
    measurements.
  - `policy.rs` — the exit-code policy and its laws.
  - `guard.rs` — parsing `iratxo test` text output into a pillar result.
  - `gate.rs`, `watch.rs`, `native.rs` — the decisions over the other
    engines' output: metrics, status, findings, headlines, envelope checks,
    and each pillar's assembled result.
  - `run.rs` — which pillars run (an unselected pillar's engine is never
    called), report assembly, engine command lines.
  - `engine.rs`, `failure.rs` — what an engine run produced, and the
    `engine_missing` result for every way an engine can fail to run or to
    leave readable output.
  - `config.rs` — the config model, defaults, the sample config and the
    nearest-first config search.
- `app/` — the `zaindari` binary: argument parsing, reading the config and
  engine JSON, spawning engines, float arithmetic on scores, and rendering.
- `tests/` — tests of the library.
