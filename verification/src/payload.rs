//! The payloads that an official run seals.
//!
//! Each starts from the metrics of the run, with or without its timing, and is given the text of
//! its error as it may leave the box.
use crate::number::Number;
use crate::official::{GatesSeal, OfficialSeal};
use crate::overlay::gates::{gates_refusal, is_sha256_hex};
use crate::score::{ScoreMetrics, ScorePayload};
use vstd::prelude::*;

verus! {

/// A payload without a score that did not pass.
pub open spec fn is_failed(p: ScorePayload) -> bool {
    p.score is None && !p.passed
}

/// `p` is the failed payload of an official run that timed nothing: the counts are those of the
/// golden, and the baselines are the resolved pair.
pub open spec fn seals_failed(
    p: ScorePayload,
    base: ScoreMetrics,
    commit: Seq<char>,
    error: String,
    case_count: i64,
    baselines: (Number, Number),
) -> bool {
    &&& is_failed(p)
    &&& p.metrics.commit@ == commit
    &&& p.metrics == (ScoreMetrics {
        baseline_prefill_seconds_per_token: baselines.0,
        baseline_decode_seconds_per_token: baselines.1,
        passed_correctness: false,
        commit: p.metrics.commit,
        error,
        case_count,
        checked_steps: case_count,
        first_failing_case: None,
        first_failing_step: None,
        expected_token: None,
        actual_token: None,
        ..base
    })
}

/// The failed payload of an official run that timed nothing.
pub fn official_failed(
    base: ScoreMetrics,
    commit: &str,
    error: String,
    case_count: i64,
    baselines: (Number, Number),
) -> (p: ScorePayload)
    ensures
        seals_failed(p, base, commit@, error, case_count, baselines),
{
    let mut metrics = base;
    metrics.baseline_prefill_seconds_per_token = baselines.0;
    metrics.baseline_decode_seconds_per_token = baselines.1;
    metrics.passed_correctness = false;
    metrics.commit = commit.to_owned();
    metrics.error = error;
    metrics.case_count = case_count;
    metrics.checked_steps = case_count;
    metrics.first_failing_case = None;
    metrics.first_failing_step = None;
    metrics.expected_token = None;
    metrics.actual_token = None;
    ScorePayload { score: None, passed: false, metrics }
}

/// `p` is the failed payload of an official run whose timing is kept, with what correctness found.
/// The tokens of the failing case are never carried.
pub open spec fn seals_failed_with_case(
    p: ScorePayload,
    timed: ScoreMetrics,
    commit: Seq<char>,
    error: String,
    case_count: i64,
    case: Option<String>,
    step: Option<i64>,
    checked_steps: i64,
) -> bool {
    &&& is_failed(p)
    &&& p.metrics.commit@ == commit
    &&& p.metrics == (ScoreMetrics {
        passed_correctness: false,
        commit: p.metrics.commit,
        error,
        case_count,
        checked_steps,
        first_failing_case: case,
        first_failing_step: step,
        expected_token: None,
        actual_token: None,
        ..timed
    })
}

/// The failed payload of an official run whose timing is kept, with what correctness found.
pub fn official_failed_with_timing_and_case(
    timed: ScoreMetrics,
    commit: &str,
    error: String,
    case_count: i64,
    case: Option<String>,
    step: Option<i64>,
    checked_steps: i64,
) -> (p: ScorePayload)
    ensures
        seals_failed_with_case(p, timed, commit@, error, case_count, case, step, checked_steps),
{
    let mut metrics = timed;
    metrics.passed_correctness = false;
    metrics.commit = commit.to_owned();
    metrics.error = error;
    metrics.case_count = case_count;
    metrics.checked_steps = checked_steps;
    metrics.first_failing_case = case;
    metrics.first_failing_step = step;
    metrics.expected_token = None;
    metrics.actual_token = None;
    ScorePayload { score: None, passed: false, metrics }
}

/// The failed payload of an official run whose timing is kept and whose correctness phase broke
/// down: there is no report, so the counts are those of the golden.
pub fn official_failed_with_timing(
    timed: ScoreMetrics,
    commit: &str,
    error: String,
    case_count: i64,
) -> (p: ScorePayload)
    ensures
        seals_failed_with_case(p, timed, commit@, error, case_count, None, None, case_count),
{
    official_failed_with_timing_and_case(timed, commit, error, case_count, None, None, case_count)
}

/// `p` is the failed payload of an official run whose timing failed a gate: the timing is kept,
/// and what correctness would have filled is blank.
pub open spec fn seals_timed_band(
    p: ScorePayload,
    timed: ScoreMetrics,
    commit: Seq<char>,
    error: String,
) -> bool {
    &&& is_failed(p)
    &&& p.metrics.commit@ == commit
    &&& p.metrics.golden_hash@.len() == 0
    &&& p.metrics == (ScoreMetrics {
        passed_correctness: false,
        commit: p.metrics.commit,
        error,
        golden_hash: p.metrics.golden_hash,
        case_count: 0,
        checked_steps: 0,
        ..timed
    })
}

/// The failed payload of an official run whose timing failed a gate.
pub fn official_failed_timed_band(timed: ScoreMetrics, commit: &str, error: String) -> (p:
    ScorePayload)
    ensures
        seals_timed_band(p, timed, commit@, error),
{
    let mut metrics = timed;
    metrics.passed_correctness = false;
    metrics.commit = commit.to_owned();
    metrics.error = error;
    metrics.golden_hash = String::new();
    metrics.case_count = 0;
    metrics.checked_steps = 0;
    ScorePayload { score: None, passed: false, metrics }
}

/// `p` is the failed payload of an official run with a mismatched timed token: what correctness
/// would have filled is blank, the baselines are kept, and the failing case is the benchmark.
pub open spec fn seals_timed_oracle(
    p: ScorePayload,
    base: ScoreMetrics,
    commit: Seq<char>,
    error: String,
    step: Option<i64>,
    baselines: (Number, Number),
) -> bool {
    &&& is_failed(p)
    &&& p.metrics.commit@ == commit
    &&& p.metrics.golden_hash@.len() == 0
    &&& p.metrics.first_failing_case matches Some(case) && case@ == "benchmark"@
    &&& p.metrics == (ScoreMetrics {
        passed_correctness: false,
        commit: p.metrics.commit,
        error,
        golden_hash: p.metrics.golden_hash,
        case_count: 0,
        checked_steps: 0,
        baseline_prefill_seconds_per_token: baselines.0,
        baseline_decode_seconds_per_token: baselines.1,
        first_failing_case: p.metrics.first_failing_case,
        first_failing_step: step,
        expected_token: None,
        actual_token: None,
        ..base
    })
}

/// The failed payload of an official run with a mismatched timed token. The baselines are the
/// resolved pair, made finite and nonnegative.
pub fn official_failed_timed_oracle(
    base: ScoreMetrics,
    commit: &str,
    error: String,
    step: Option<i64>,
    baselines: (Number, Number),
) -> (p: ScorePayload)
    ensures
        seals_timed_oracle(p, base, commit@, error, step, baselines),
{
    let mut metrics = base;
    metrics.passed_correctness = false;
    metrics.commit = commit.to_owned();
    metrics.error = error;
    metrics.golden_hash = String::new();
    metrics.case_count = 0;
    metrics.checked_steps = 0;
    metrics.baseline_prefill_seconds_per_token = baselines.0;
    metrics.baseline_decode_seconds_per_token = baselines.1;
    metrics.first_failing_case = Some("benchmark".to_owned());
    metrics.first_failing_step = step;
    metrics.expected_token = None;
    metrics.actual_token = None;
    ScorePayload { score: None, passed: false, metrics }
}

/// `p` is the payload of an official run that passed.
pub open spec fn seals_passed(
    p: ScorePayload,
    timed: ScoreMetrics,
    commit: Seq<char>,
    score: Number,
    case_count: i64,
    checked_steps: i64,
) -> bool {
    &&& p.passed
    &&& p.score == Some(score)
    &&& p.metrics.commit@ == commit
    &&& p.metrics == (ScoreMetrics {
        passed_correctness: true,
        commit: p.metrics.commit,
        case_count,
        checked_steps,
        ..timed
    })
}

/// The payload of an official run that passed.
pub fn official_passed(
    timed: ScoreMetrics,
    commit: &str,
    score: Number,
    case_count: i64,
    checked_steps: i64,
) -> (p: ScorePayload)
    ensures
        seals_passed(p, timed, commit@, score, case_count, checked_steps),
{
    let mut metrics = timed;
    metrics.passed_correctness = true;
    metrics.commit = commit.to_owned();
    metrics.case_count = case_count;
    metrics.checked_steps = checked_steps;
    ScorePayload { score: Some(score), passed: true, metrics }
}

/// `p` is the failed payload of a gates-only run: it stays partial.
pub open spec fn seals_gates_failed(
    p: ScorePayload,
    base: ScoreMetrics,
    commit: Seq<char>,
    error: String,
    case_count: i64,
    case: Option<String>,
    step: Option<i64>,
    checked_steps: i64,
    baselines: (Number, Number),
) -> bool {
    &&& is_failed(p)
    &&& p.metrics.commit@ == commit
    &&& p.metrics == (ScoreMetrics {
        baseline_prefill_seconds_per_token: baselines.0,
        baseline_decode_seconds_per_token: baselines.1,
        passed_correctness: false,
        partial_result: true,
        commit: p.metrics.commit,
        error,
        case_count,
        checked_steps,
        first_failing_case: case,
        first_failing_step: step,
        ..base
    })
}

/// The failed payload of a gates-only run.
pub fn official_gates_failed(
    base: ScoreMetrics,
    commit: &str,
    error: String,
    case_count: i64,
    case: Option<String>,
    step: Option<i64>,
    checked_steps: i64,
    baselines: (Number, Number),
) -> (p: ScorePayload)
    ensures
        seals_gates_failed(
            p,
            base,
            commit@,
            error,
            case_count,
            case,
            step,
            checked_steps,
            baselines,
        ),
{
    let mut metrics = base;
    metrics.baseline_prefill_seconds_per_token = baselines.0;
    metrics.baseline_decode_seconds_per_token = baselines.1;
    metrics.passed_correctness = false;
    metrics.partial_result = true;
    metrics.commit = commit.to_owned();
    metrics.error = error;
    metrics.case_count = case_count;
    metrics.checked_steps = checked_steps;
    metrics.first_failing_case = case;
    metrics.first_failing_step = step;
    ScorePayload { score: None, passed: false, metrics }
}

/// `p` is the payload of a gates-only run that passed: it carries no score yet.
pub open spec fn seals_gates_passed(
    p: ScorePayload,
    base: ScoreMetrics,
    commit: Seq<char>,
    case_count: i64,
    checked_steps: i64,
    baselines: (Number, Number),
) -> bool {
    &&& p.passed
    &&& p.score is None
    &&& p.metrics.commit@ == commit
    &&& p.metrics == (ScoreMetrics {
        baseline_prefill_seconds_per_token: baselines.0,
        baseline_decode_seconds_per_token: baselines.1,
        passed_correctness: true,
        partial_result: true,
        commit: p.metrics.commit,
        case_count,
        checked_steps,
        ..base
    })
}

/// The payload of a gates-only run that passed.
pub fn official_gates_passed(
    base: ScoreMetrics,
    commit: &str,
    case_count: i64,
    checked_steps: i64,
    baselines: (Number, Number),
) -> (p: ScorePayload)
    ensures
        seals_gates_passed(p, base, commit@, case_count, checked_steps, baselines),
{
    let mut metrics = base;
    metrics.baseline_prefill_seconds_per_token = baselines.0;
    metrics.baseline_decode_seconds_per_token = baselines.1;
    metrics.passed_correctness = true;
    metrics.partial_result = true;
    metrics.commit = commit.to_owned();
    metrics.case_count = case_count;
    metrics.checked_steps = checked_steps;
    ScorePayload { score: None, passed: true, metrics }
}

/// A seal whose payload keeps the timing of the run.
pub open spec fn keeps_timing(seal: OfficialSeal) -> bool {
    !(seal is Failed || seal is TimedOracle)
}

/// Whether the payload of a seal keeps the timing of the run.
pub fn needs_timing(seal: &OfficialSeal) -> (r: bool)
    ensures
        r == keeps_timing(*seal),
{
    match seal {
        OfficialSeal::Failed { .. } => false,
        OfficialSeal::TimedOracle { .. } => false,
        _ => true,
    }
}

/// `p` is the payload of an official seal. `metrics` are those of the run, with its timing where
/// the seal keeps it; `error` is the text of the error as it may leave the box; `sealable` is the
/// baseline pair made finite and nonnegative.
pub open spec fn seals_official(
    p: ScorePayload,
    seal: OfficialSeal,
    metrics: ScoreMetrics,
    commit: Seq<char>,
    error: String,
    case_count: i64,
    baselines: (Number, Number),
    sealable: (Number, Number),
) -> bool {
    match seal {
        OfficialSeal::Failed { .. } => seals_failed(
            p,
            metrics,
            commit,
            error,
            case_count,
            baselines,
        ),
        OfficialSeal::TimedOracle { step, .. } => seals_timed_oracle(
            p,
            metrics,
            commit,
            error,
            step,
            sealable,
        ),
        OfficialSeal::TimedBand { .. } => seals_timed_band(p, metrics, commit, error),
        OfficialSeal::WithTiming { .. } => seals_failed_with_case(
            p,
            metrics,
            commit,
            error,
            case_count,
            None,
            None,
            case_count,
        ),
        OfficialSeal::Incorrect { case, step, checked_steps, .. } => seals_failed_with_case(
            p,
            metrics,
            commit,
            error,
            case_count,
            case,
            step,
            checked_steps,
        ),
        OfficialSeal::Passed { score, checked_steps } => seals_passed(
            p,
            metrics,
            commit,
            score,
            case_count,
            checked_steps,
        ),
    }
}

/// The payload of an official seal.
pub fn official_payload(
    seal: OfficialSeal,
    metrics: ScoreMetrics,
    commit: &str,
    error: String,
    case_count: i64,
    baselines: (Number, Number),
    sealable: (Number, Number),
) -> (p: ScorePayload)
    ensures
        seals_official(
            p,
            seal,
            metrics,
            commit@,
            error,
            case_count,
            baselines,
            sealable,
        ),
{
    match seal {
        OfficialSeal::Failed { .. } => official_failed(
            metrics,
            commit,
            error,
            case_count,
            baselines,
        ),
        OfficialSeal::TimedOracle { step, .. } => official_failed_timed_oracle(
            metrics,
            commit,
            error,
            step,
            sealable,
        ),
        OfficialSeal::TimedBand { .. } => official_failed_timed_band(metrics, commit, error),
        OfficialSeal::WithTiming { .. } => official_failed_with_timing(
            metrics,
            commit,
            error,
            case_count,
        ),
        OfficialSeal::Incorrect { case, step, checked_steps, .. } =>
        official_failed_with_timing_and_case(
            metrics,
            commit,
            error,
            case_count,
            case,
            step,
            checked_steps,
        ),
        OfficialSeal::Passed { score, checked_steps } => official_passed(
            metrics,
            commit,
            score,
            case_count,
            checked_steps,
        ),
    }
}

/// `p` is the payload of a gates-only seal.
pub open spec fn seals_gates(
    p: ScorePayload,
    seal: GatesSeal,
    metrics: ScoreMetrics,
    commit: Seq<char>,
    error: String,
    case_count: i64,
    baselines: (Number, Number),
) -> bool {
    match seal {
        GatesSeal::Failed { case, step, checked_steps, .. } => seals_gates_failed(
            p,
            metrics,
            commit,
            error,
            case_count,
            case,
            step,
            checked_steps,
            baselines,
        ),
        GatesSeal::Passed { checked_steps } => seals_gates_passed(
            p,
            metrics,
            commit,
            case_count,
            checked_steps,
            baselines,
        ),
    }
}

/// The payload of a gates-only seal.
pub fn gates_payload(
    seal: GatesSeal,
    metrics: ScoreMetrics,
    commit: &str,
    error: String,
    case_count: i64,
    baselines: (Number, Number),
) -> (p: ScorePayload)
    ensures
        seals_gates(p, seal, metrics, commit@, error, case_count, baselines),
{
    match seal {
        GatesSeal::Failed { case, step, checked_steps, .. } => official_gates_failed(
            metrics,
            commit,
            error,
            case_count,
            case,
            step,
            checked_steps,
            baselines,
        ),
        GatesSeal::Passed { checked_steps } => official_gates_passed(
            metrics,
            commit,
            case_count,
            checked_steps,
            baselines,
        ),
    }
}

/// Only a seal that passed carries a score, and then the payload passed and so did correctness.
pub proof fn only_a_passed_seal_is_scored(
    p: ScorePayload,
    seal: OfficialSeal,
    metrics: ScoreMetrics,
    commit: Seq<char>,
    error: String,
    case_count: i64,
    baselines: (Number, Number),
    sealable: (Number, Number),
)
    requires
        seals_official(p, seal, metrics, commit, error, case_count, baselines, sealable),
    ensures
        p.score is Some <==> seal is Passed,
        p.passed <==> seal is Passed,
        p.metrics.passed_correctness <==> seal is Passed,
        p.metrics.commit@ == commit,
        !(seal is Passed) ==> p.metrics.error == error,
        p.metrics.harness_hash == metrics.harness_hash,
        p.metrics.weights_hash == metrics.weights_hash,
{
}

/// A run that ended before correctness carries nothing that correctness fills: no golden, no cases
/// and no steps. A run that reached correctness keeps its golden and the cases of its golden.
pub proof fn timed_failures_blank_the_audit(
    p: ScorePayload,
    seal: OfficialSeal,
    metrics: ScoreMetrics,
    commit: Seq<char>,
    error: String,
    case_count: i64,
    baselines: (Number, Number),
    sealable: (Number, Number),
)
    requires
        seals_official(p, seal, metrics, commit, error, case_count, baselines, sealable),
    ensures
        seal is TimedBand || seal is TimedOracle ==> {
            &&& p.metrics.golden_hash@.len() == 0
            &&& p.metrics.case_count == 0
            &&& p.metrics.checked_steps == 0
        },
        seal is WithTiming || seal is Incorrect || seal is Passed ==> {
            &&& p.metrics.golden_hash == metrics.golden_hash
            &&& p.metrics.case_count == case_count
        },
        keeps_timing(seal) ==> {
            &&& p.metrics.decode_seconds_per_token == metrics.decode_seconds_per_token
            &&& p.metrics.prefill_seconds_per_token == metrics.prefill_seconds_per_token
            &&& p.metrics.decode_speedup == metrics.decode_speedup
        },
        !(seal is Passed) && !(seal is TimedBand) ==> {
            &&& p.metrics.expected_token is None
            &&& p.metrics.actual_token is None
        },
{
}

/// A gates-only payload is always partial and never scored, and it passes exactly when its seal
/// did.
pub proof fn a_gates_payload_awaits_its_timing(
    p: ScorePayload,
    seal: GatesSeal,
    metrics: ScoreMetrics,
    commit: Seq<char>,
    error: String,
    case_count: i64,
    baselines: (Number, Number),
)
    requires
        seals_gates(p, seal, metrics, commit, error, case_count, baselines),
    ensures
        p.metrics.partial_result,
        p.score is None,
        p.passed <==> seal is Passed,
        p.metrics.passed_correctness <==> seal is Passed,
        p.metrics.baseline_prefill_seconds_per_token == baselines.0,
        p.metrics.baseline_decode_seconds_per_token == baselines.1,
{
}

/// A gates-only run that passed is a half that the overlay accepts, as long as its metrics name a
/// harness by a well-formed digest and carry no error.
pub proof fn a_passing_gates_payload_is_overlaid(
    p: ScorePayload,
    seal: GatesSeal,
    metrics: ScoreMetrics,
    commit: Seq<char>,
    error: String,
    case_count: i64,
    baselines: (Number, Number),
)
    requires
        seals_gates(p, seal, metrics, commit, error, case_count, baselines),
        seal is Passed,
        is_sha256_hex(metrics.harness_hash@),
        metrics.error@.len() == 0,
    ensures
        gates_refusal(&p) is None,
{
}

/// `a` and `b` agree on the identities that a run starts from: its harness, its weights and its
/// runtime.
pub open spec fn same_identities(a: ScoreMetrics, b: ScoreMetrics) -> bool {
    &&& a.harness_hash@ == b.harness_hash@
    &&& a.weights_hash@ == b.weights_hash@
    &&& a.runtime@ == b.runtime@
}

/// `a` and `b` agree on everything that timing fills.
pub open spec fn same_timing(a: ScoreMetrics, b: ScoreMetrics) -> bool {
    &&& a.decode_seconds_per_token == b.decode_seconds_per_token
    &&& a.prefill_seconds_per_token == b.prefill_seconds_per_token
    &&& a.decode_speedup == b.decode_speedup
    &&& a.prefill_speedup == b.prefill_speedup
    &&& a.decode_speedup_floor == b.decode_speedup_floor
    &&& a.prefill_speedup_floor == b.prefill_speedup_floor
    &&& a.passed_decode_speedup_floor == b.passed_decode_speedup_floor
    &&& a.passed_prefill_speedup_floor == b.passed_prefill_speedup_floor
    &&& a.benchmark_wall_seconds == b.benchmark_wall_seconds
    &&& a.peak_ram_gb == b.peak_ram_gb
}

/// The payload of an official run is complete or not as the metrics it starts from are: sealing it
/// never makes it partial, and it keeps the identities and the timing of the run.
pub proof fn an_official_payload_stays_as_complete_as_its_run(
    p: ScorePayload,
    seal: OfficialSeal,
    metrics: ScoreMetrics,
    commit: Seq<char>,
    error: String,
    case_count: i64,
    baselines: (Number, Number),
    sealable: (Number, Number),
)
    requires
        seals_official(p, seal, metrics, commit, error, case_count, baselines, sealable),
    ensures
        p.metrics.partial_result == metrics.partial_result,
        same_identities(p.metrics, metrics),
        same_timing(p.metrics, metrics),
        p.metrics.commit@ == commit,
        p.passed == p.metrics.passed_correctness,
        p.passed == (p.score is Some),
{
}

/// Which baselines an official payload carries: those of its timing where it was timed, the
/// resolved pair where nothing was, and the sealable pair where a timed token was wrong. Prefill
/// stays prefill and decode stays decode.
pub proof fn an_official_payload_carries_its_baselines(
    p: ScorePayload,
    seal: OfficialSeal,
    metrics: ScoreMetrics,
    commit: Seq<char>,
    error: String,
    case_count: i64,
    baselines: (Number, Number),
    sealable: (Number, Number),
)
    requires
        seals_official(p, seal, metrics, commit, error, case_count, baselines, sealable),
    ensures
        seal is Failed ==> p.metrics.baseline_prefill_seconds_per_token == baselines.0
            && p.metrics.baseline_decode_seconds_per_token == baselines.1,
        seal is TimedOracle ==> p.metrics.baseline_prefill_seconds_per_token == sealable.0
            && p.metrics.baseline_decode_seconds_per_token == sealable.1,
        !(seal is Failed) && !(seal is TimedOracle)
            ==> p.metrics.baseline_prefill_seconds_per_token
            == metrics.baseline_prefill_seconds_per_token
            && p.metrics.baseline_decode_seconds_per_token
            == metrics.baseline_decode_seconds_per_token,
{
}

/// What an official payload says of its cases: a run that passed carries its score, the cases of
/// its golden and the steps that were checked; one that was incorrect carries the failing case, its
/// step and the steps that were checked; one whose correctness broke down, or that timed nothing,
/// carries the cases of its golden for both counts; one that a timed token ended names the
/// benchmark and the step of the token.
pub proof fn an_official_payload_says_what_was_checked(
    p: ScorePayload,
    seal: OfficialSeal,
    metrics: ScoreMetrics,
    commit: Seq<char>,
    error: String,
    case_count: i64,
    baselines: (Number, Number),
    sealable: (Number, Number),
)
    requires
        seals_official(p, seal, metrics, commit, error, case_count, baselines, sealable),
    ensures
        seal matches OfficialSeal::Passed { score, checked_steps } ==> {
            &&& p.score == Some(score)
            &&& p.metrics.case_count == case_count
            &&& p.metrics.checked_steps == checked_steps
            &&& p.metrics.error == metrics.error
            &&& p.metrics.golden_hash == metrics.golden_hash
            &&& p.metrics.first_failing_case == metrics.first_failing_case
            &&& p.metrics.first_failing_step == metrics.first_failing_step
        },
        seal matches OfficialSeal::Incorrect { case, step, checked_steps, .. } ==> {
            &&& p.metrics.error == error
            &&& p.metrics.case_count == case_count
            &&& p.metrics.checked_steps == checked_steps
            &&& p.metrics.first_failing_case == case
            &&& p.metrics.first_failing_step == step
            &&& p.metrics.golden_hash == metrics.golden_hash
        },
        seal is WithTiming || seal is Failed ==> {
            &&& p.metrics.error == error
            &&& p.metrics.case_count == case_count
            &&& p.metrics.checked_steps == case_count
            &&& p.metrics.first_failing_case is None
            &&& p.metrics.first_failing_step is None
            &&& p.metrics.golden_hash == metrics.golden_hash
        },
        seal matches OfficialSeal::TimedOracle { step, .. } ==> {
            &&& p.metrics.error == error
            &&& p.metrics.first_failing_case matches Some(c) && c@ == "benchmark"@
            &&& p.metrics.first_failing_step == step
            &&& p.metrics.case_count == 0 && p.metrics.checked_steps == 0
            &&& p.metrics.golden_hash@.len() == 0
        },
        seal is TimedBand ==> {
            &&& p.metrics.error == error
            &&& p.metrics.case_count == 0 && p.metrics.checked_steps == 0
            &&& p.metrics.golden_hash@.len() == 0
            &&& p.metrics.first_failing_case == metrics.first_failing_case
            &&& p.metrics.first_failing_step == metrics.first_failing_step
        },
        !(seal is Passed) && !(seal is TimedBand) ==> p.metrics.expected_token is None
            && p.metrics.actual_token is None,
{
}

/// What a gates-only payload says: it is partial, unscored and untimed, it carries the resolved
/// baselines, prefill as prefill and decode as decode, and it tells the cases, the steps and the
/// failure of its seal.
pub proof fn a_gates_payload_says_what_was_checked(
    p: ScorePayload,
    seal: GatesSeal,
    metrics: ScoreMetrics,
    commit: Seq<char>,
    error: String,
    case_count: i64,
    baselines: (Number, Number),
)
    requires
        seals_gates(p, seal, metrics, commit, error, case_count, baselines),
    ensures
        p.metrics.partial_result,
        p.score is None,
        p.passed == p.metrics.passed_correctness,
        same_identities(p.metrics, metrics),
        same_timing(p.metrics, metrics),
        p.metrics.commit@ == commit,
        p.metrics.golden_hash == metrics.golden_hash,
        p.metrics.case_count == case_count,
        p.metrics.baseline_prefill_seconds_per_token == baselines.0,
        p.metrics.baseline_decode_seconds_per_token == baselines.1,
        p.metrics.expected_token == metrics.expected_token,
        p.metrics.actual_token == metrics.actual_token,
        seal matches GatesSeal::Passed { checked_steps } ==> {
            &&& p.passed
            &&& p.metrics.checked_steps == checked_steps
            &&& p.metrics.error == metrics.error
            &&& p.metrics.first_failing_case == metrics.first_failing_case
            &&& p.metrics.first_failing_step == metrics.first_failing_step
        },
        seal matches GatesSeal::Failed { case, step, checked_steps, .. } ==> {
            &&& !p.passed
            &&& p.metrics.checked_steps == checked_steps
            &&& p.metrics.error == error
            &&& p.metrics.first_failing_case == case
            &&& p.metrics.first_failing_step == step
        },
{
}

/// A payload is made from the timing of its run unless nothing was timed to the end: neither where
/// the run failed before, nor where a timed token was wrong. A run that passed, and one whose timing
/// failed a gate, keep the tokens of their metrics.
pub proof fn a_payload_keeps_the_timing_it_has(
    p: ScorePayload,
    seal: OfficialSeal,
    metrics: ScoreMetrics,
    commit: Seq<char>,
    error: String,
    case_count: i64,
    baselines: (Number, Number),
    sealable: (Number, Number),
)
    requires
        seals_official(p, seal, metrics, commit, error, case_count, baselines, sealable),
    ensures
        keeps_timing(seal) <==> seal is TimedBand || seal is WithTiming || seal is Incorrect || seal
            is Passed,
        seal is Passed || seal is TimedBand ==> p.metrics.expected_token == metrics.expected_token
            && p.metrics.actual_token == metrics.actual_token,
{
}

} // verus!
