//! The official run: timed phases first, then the gates on the timing, then correctness. The
//! functions here decide what each outcome leads to and what is sealed.
use crate::number::{is_positive, positive, Number};
use crate::official_texts::{
    baseline_invalid, baselines_half_set, correctness_spawn_failed, mismatch, mismatch_at_step,
    oracle_missing, say_baseline_invalid, say_baselines_half_set, say_correctness_spawn_failed,
    say_mismatch, say_mismatch_at_step, say_oracle_missing,
};
use crate::overlay::view::{want, wanted};
use crate::score::{ScoreMetrics, ScorePayload};
use crate::text::same_text;
use vstd::prelude::*;

verus! {

/// What an official run reads of its golden.
#[derive(Debug)]
pub struct GoldenSummary {
    /// The golden carries the oracle whose workload is timed.
    pub has_benchmark: bool,
    pub baseline_prefill_seconds_per_token: Option<Number>,
    pub baseline_decode_seconds_per_token: Option<Number>,
    /// How many behavior cases its gates hold, where it has gates.
    pub behavior_cases: Option<usize>,
    /// How many correctness cases it holds in all.
    pub total_case_count: i64,
}

/// What the timed phases came to.
#[derive(Debug)]
pub enum TimedOutcome {
    /// A token was not the expected one.
    Mismatch { label: String, step: usize },
    Failed { cause: String },
    Measured,
}

/// What the gates on the timing came to.
#[derive(Debug)]
pub struct TimedEvaluation {
    /// The first gate that failed.
    pub failure: Option<String>,
    pub score: Number,
}

/// The first failing case of a correctness report.
#[derive(Debug)]
pub struct FirstFailure {
    pub case: String,
    pub step: Option<i64>,
    pub is_base_case: bool,
}

/// The verdict on one anchor.
#[derive(Debug)]
pub struct AnchorVerdict {
    pub name: String,
    pub passed: bool,
}

/// A correctness report.
#[derive(Debug)]
pub struct CorrectnessReport {
    pub passed: bool,
    pub checked_steps: i64,
    pub first_failure: Option<FirstFailure>,
    pub anchors: Vec<AnchorVerdict>,
}

/// What the correctness phase came to.
#[derive(Debug)]
pub enum CorrectnessOutcome {
    SpawnFailed { cause: String },
    ConformanceFailed { cause: String },
    BarrierFailed { cause: String },
    Judged { report: CorrectnessReport },
}

/// What an official run seals.
#[derive(Debug)]
pub enum OfficialSeal {
    /// Nothing was timed.
    Failed { error: String },
    /// A timed token was not the expected one.
    TimedOracle { error: String, step: Option<i64> },
    /// The timing failed a gate.
    TimedBand { error: String },
    /// The correctness phase broke down after the timing.
    WithTiming { error: String },
    /// Correctness ran and failed.
    Incorrect { error: String, case: Option<String>, step: Option<i64>, checked_steps: i64 },
    Passed { score: Number, checked_steps: i64 },
}

/// What a gates-only run seals.
#[derive(Debug)]
pub enum GatesSeal {
    Failed { error: String, case: Option<String>, step: Option<i64>, checked_steps: i64 },
    Passed { checked_steps: i64 },
}

/// An [`OfficialSeal`] by its texts.
pub enum SealView {
    Failed { error: Seq<char> },
    TimedOracle { error: Seq<char>, step: Option<i64> },
    TimedBand { error: Seq<char> },
    WithTiming { error: Seq<char> },
    Incorrect {
        error: Seq<char>,
        case: Option<Seq<char>>,
        step: Option<i64>,
        checked_steps: i64,
    },
    Passed { score: Number, checked_steps: i64 },
}

/// A [`GatesSeal`] by its texts.
pub enum GatesSealView {
    Failed {
        error: Seq<char>,
        case: Option<Seq<char>>,
        step: Option<i64>,
        checked_steps: i64,
    },
    Passed { checked_steps: i64 },
}

/// An optional text.
pub open spec fn text_of(t: Option<String>) -> Option<Seq<char>> {
    match t {
        Some(s) => Some(s@),
        None => None,
    }
}

impl View for OfficialSeal {
    type V = SealView;

    open spec fn view(&self) -> SealView {
        match *self {
            OfficialSeal::Failed { error } => SealView::Failed { error: error@ },
            OfficialSeal::TimedOracle { error, step } => SealView::TimedOracle {
                error: error@,
                step,
            },
            OfficialSeal::TimedBand { error } => SealView::TimedBand { error: error@ },
            OfficialSeal::WithTiming { error } => SealView::WithTiming { error: error@ },
            OfficialSeal::Incorrect { error, case, step, checked_steps } => SealView::Incorrect {
                error: error@,
                case: text_of(case),
                step,
                checked_steps,
            },
            OfficialSeal::Passed { score, checked_steps } => SealView::Passed {
                score,
                checked_steps,
            },
        }
    }
}

impl View for GatesSeal {
    type V = GatesSealView;

    open spec fn view(&self) -> GatesSealView {
        match *self {
            GatesSeal::Failed { error, case, step, checked_steps } => GatesSealView::Failed {
                error: error@,
                case: text_of(case),
                step,
                checked_steps,
            },
            GatesSeal::Passed { checked_steps } => GatesSealView::Passed { checked_steps },
        }
    }
}

/// Whether a golden asks for a runtime worker: its gates hold behavior cases.
pub fn benchmark_requires_runtime_worker(golden: &GoldenSummary) -> (r: bool)
    ensures
        r == (golden.behavior_cases matches Some(n) && n > 0),
{
    match golden.behavior_cases {
        Some(n) => n > 0,
        None => false,
    }
}

/// The name of the prefill baseline setting.
pub const PREFILL_KEY: &'static str = "MLXFAST_PAIRED_BASELINE_PREFILL_SECONDS_PER_TOKEN";

/// The name of the decode baseline setting.
pub const DECODE_KEY: &'static str = "MLXFAST_PAIRED_BASELINE_DECODE_SECONDS_PER_TOKEN";

/// The number that a text reads as, where it is a time.
pub open spec fn positive_reading(reading: Option<Number>) -> Option<Number> {
    match reading {
        Some(v) => if positive(v.bits) {
            Some(v)
        } else {
            None
        },
        None => None,
    }
}

/// The number that a text reads as, where it is finite and above zero.
pub fn parse_finite_positive(reading: Option<Number>) -> (r: Option<Number>)
    ensures
        r == positive_reading(reading),
{
    match reading {
        Some(v) => {
            if is_positive(v.bits) {
                Some(v)
            } else {
                None
            }
        },
        None => None,
    }
}

/// The refusal of a pair of baseline settings.
pub open spec fn baseline_refusal(
    prefill: Option<Seq<char>>,
    decode: Option<Seq<char>>,
    prefill_reading: Option<Number>,
    decode_reading: Option<Number>,
) -> Option<Seq<char>> {
    if prefill is None && decode is None {
        None
    } else if prefill is None || decode is None {
        Some(baselines_half_set())
    } else if positive_reading(prefill_reading) is None {
        Some(baseline_invalid(PREFILL_KEY@))
    } else if positive_reading(decode_reading) is None {
        Some(baseline_invalid(DECODE_KEY@))
    } else {
        None
    }
}

/// The pair of baselines that the settings give: none when neither is set. Setting one alone is
/// refused, and so is a text that does not read as a finite number above zero. A reading is the
/// number that the trimmed text of its setting stands for.
pub fn paired_baseline_from_env(
    prefill_raw: Option<&str>,
    decode_raw: Option<&str>,
    prefill_reading: Option<Number>,
    decode_reading: Option<Number>,
) -> (r: Result<Option<(Number, Number)>, String>)
    ensures
        match baseline_refusal(
            wanted(prefill_raw),
            wanted(decode_raw),
            prefill_reading,
            decode_reading,
        ) {
            Some(m) => r matches Err(e) && e@ == m,
            None => if wanted(prefill_raw) is None {
                r == Ok::<Option<(Number, Number)>, String>(None)
            } else {
                r == Ok::<Option<(Number, Number)>, String>(
                    Some((prefill_reading->0, decode_reading->0)),
                )
            },
        },
{
    let prefill = want(prefill_raw);
    let decode = want(decode_raw);
    if prefill.is_none() && decode.is_none() {
        return Ok(None);
    }
    if prefill.is_none() || decode.is_none() {
        return Err(say_baselines_half_set());
    }
    let p = match parse_finite_positive(prefill_reading) {
        Some(v) => v,
        None => return Err(say_baseline_invalid(PREFILL_KEY)),
    };
    let d = match parse_finite_positive(decode_reading) {
        Some(v) => v,
        None => return Err(say_baseline_invalid(DECODE_KEY)),
    };
    Ok(Some((p, d)))
}

fn pick(declared: &Option<Number>, fallback: &Number) -> (r: Number)
    ensures
        r == (match *declared {
            Some(v) => v,
            None => *fallback,
        }),
{
    match declared {
        Some(v) => v.duplicate(),
        None => fallback.duplicate(),
    }
}

/// The baseline pair that an official payload carries: the pair of the settings where they give
/// one, else what the golden declares, each with the constant of the track to fall back on.
/// Settings that were refused give no pair.
pub fn official_resolved_baselines(
    golden: &GoldenSummary,
    paired: Result<Option<(Number, Number)>, String>,
    prefill_constant: &Number,
    decode_constant: &Number,
) -> (r: (Number, Number))
    ensures
        match paired {
            Ok(Some(pair)) => r == pair,
            _ => {
                let declared_prefill = if golden.has_benchmark {
                    golden.baseline_prefill_seconds_per_token
                } else {
                    None
                };
                let declared_decode = if golden.has_benchmark {
                    golden.baseline_decode_seconds_per_token
                } else {
                    None
                };
                &&& r.0 == (match declared_prefill {
                    Some(v) => v,
                    None => *prefill_constant,
                })
                &&& r.1 == (match declared_decode {
                    Some(v) => v,
                    None => *decode_constant,
                })
            },
        },
{
    match paired {
        Ok(Some(pair)) => return pair,
        _ => {},
    }
    if golden.has_benchmark {
        (
            pick(&golden.baseline_prefill_seconds_per_token, prefill_constant),
            pick(&golden.baseline_decode_seconds_per_token, decode_constant),
        )
    } else {
        (prefill_constant.duplicate(), decode_constant.duplicate())
    }
}

/// The failing anchor that a case names.
pub open spec fn names_failed_anchor(anchors: Seq<AnchorVerdict>, case: Seq<char>) -> bool {
    exists|i: int|
        0 <= i < anchors.len() && (#[trigger] anchors[i]).name@ == case && !anchors[i].passed
}

/// The error of a correctness report that failed.
pub open spec fn correctness_error(report: CorrectnessReport) -> Seq<char> {
    match report.first_failure {
        Some(f) => if f.is_base_case {
            "teacher-forced token mismatch"@
        } else if names_failed_anchor(report.anchors@, f.case@) {
            "anchor token mismatch"@
        } else {
            "free-run token mismatch"@
        },
        None => "correctness gate failed"@,
    }
}

/// The step of a correctness report that failed: an anchor has no step of its own and is reported
/// at step zero.
pub open spec fn correctness_step(report: CorrectnessReport) -> Option<i64> {
    match report.first_failure {
        Some(f) => if names_failed_anchor(report.anchors@, f.case@) {
            Some(0i64)
        } else {
            f.step
        },
        None => None,
    }
}

/// The case of a correctness report that failed.
pub open spec fn correctness_case(report: CorrectnessReport) -> Option<Seq<char>> {
    match report.first_failure {
        Some(f) => Some(f.case@),
        None => None,
    }
}

fn is_failed_anchor(anchors: &Vec<AnchorVerdict>, case: &str) -> (r: bool)
    ensures
        r == names_failed_anchor(anchors@, case@),
{
    let mut i: usize = 0;
    while i < anchors.len()
        invariant
            i <= anchors.len(),
            forall|k: int|
                0 <= k < i ==> !((#[trigger] anchors@[k]).name@ == case@ && !anchors@[k].passed),
        decreases anchors.len() - i,
    {
        if same_text(anchors[i].name.as_str(), case) && !anchors[i].passed {
            assert(anchors@[i as int].name@ == case@);
            return true;
        }
        i = i + 1;
    }
    false
}

/// The case, the step and the error that a failed correctness report is sealed under.
pub fn official_correctness_failure(report: &CorrectnessReport) -> (r: (
    Option<String>,
    Option<i64>,
    String,
))
    ensures
        text_of(r.0) == correctness_case(*report),
        r.1 == correctness_step(*report),
        r.2@ == correctness_error(*report),
{
    match &report.first_failure {
        Some(f) => {
            let anchor = is_failed_anchor(&report.anchors, f.case.as_str());
            let error = if f.is_base_case {
                "teacher-forced token mismatch"
            } else if anchor {
                "anchor token mismatch"
            } else {
                "free-run token mismatch"
            };
            let step = if anchor {
                Some(0i64)
            } else {
                f.step
            };
            (Some(f.case.clone()), step, error.to_owned())
        },
        None => (None, None, "correctness gate failed".to_owned()),
    }
}

/// What an official run seals before it times anything: a golden without an oracle fails.
pub open spec fn seal_before_timing(golden: GoldenSummary) -> Option<SealView> {
    if golden.has_benchmark {
        None
    } else {
        Some(SealView::Failed { error: oracle_missing() })
    }
}

/// The label of the timed phase whose tokens have steps.
pub const DECODE_TOKEN_LABEL: &'static str = "benchmark decode token";

/// A step as it is sealed.
pub open spec fn sealed_step(step: usize) -> i64 {
    step as i64
}

/// What an official run seals after its timed phases, if they end it. Only decode tokens have a
/// step: a prefill or seed token is reported without one.
pub open spec fn seal_after_timing(timed: TimedOutcome) -> Option<SealView> {
    match timed {
        TimedOutcome::Measured => None,
        TimedOutcome::Failed { cause } => Some(SealView::Failed { error: cause@ }),
        TimedOutcome::Mismatch { label, step } => if label@ == DECODE_TOKEN_LABEL@ {
            Some(
                SealView::TimedOracle {
                    error: mismatch_at_step(label@, step as nat),
                    step: Some(sealed_step(step)),
                },
            )
        } else {
            Some(SealView::TimedOracle { error: mismatch(label@), step: None })
        },
    }
}

/// What an official run seals when its timing fails a gate.
pub open spec fn seal_after_gating(evaluation: TimedEvaluation) -> Option<SealView> {
    match evaluation.failure {
        Some(reason) => Some(SealView::TimedBand { error: reason@ }),
        None => None,
    }
}

/// What an official run seals after correctness.
pub open spec fn seal_after_correctness(score: Number, outcome: CorrectnessOutcome) -> SealView {
    match outcome {
        CorrectnessOutcome::SpawnFailed { cause } => SealView::WithTiming {
            error: correctness_spawn_failed(cause@),
        },
        CorrectnessOutcome::ConformanceFailed { cause } => SealView::WithTiming { error: cause@ },
        CorrectnessOutcome::BarrierFailed { cause } => SealView::WithTiming { error: cause@ },
        CorrectnessOutcome::Judged { report } => if report.passed {
            SealView::Passed { score, checked_steps: report.checked_steps }
        } else {
            SealView::Incorrect {
                error: correctness_error(report),
                case: correctness_case(report),
                step: correctness_step(report),
                checked_steps: report.checked_steps,
            }
        },
    }
}

/// What an official run seals once its timing is measured.
pub open spec fn finished_seal(
    evaluation: TimedEvaluation,
    outcome: CorrectnessOutcome,
) -> SealView {
    match seal_after_gating(evaluation) {
        Some(seal) => seal,
        None => seal_after_correctness(evaluation.score, outcome),
    }
}

/// What an official run seals: the first phase that ends it decides.
pub open spec fn official_seal(
    golden: GoldenSummary,
    timed: TimedOutcome,
    evaluation: TimedEvaluation,
    outcome: CorrectnessOutcome,
) -> SealView {
    match seal_before_timing(golden) {
        Some(seal) => seal,
        None => match seal_after_timing(timed) {
            Some(seal) => seal,
            None => finished_seal(evaluation, outcome),
        },
    }
}

/// A seal that may not be there yet, by its texts.
pub open spec fn seal_view(seal: Option<OfficialSeal>) -> Option<SealView> {
    match seal {
        Some(s) => Some(s@),
        None => None,
    }
}

/// Before timing: seals a golden without an oracle as failed, and lets every other golden be
/// timed.
pub fn begin_official(golden: &GoldenSummary) -> (r: Option<OfficialSeal>)
    ensures
        seal_view(r) == seal_before_timing(*golden),
{
    if golden.has_benchmark {
        None
    } else {
        Some(OfficialSeal::Failed { error: say_oracle_missing() })
    }
}

/// After the timed phases: seals a mismatch or a failure, and lets a measured timing be gated.
pub fn after_timed(timed: TimedOutcome) -> (r: Option<OfficialSeal>)
    ensures
        seal_view(r) == seal_after_timing(timed),
{
    match timed {
        TimedOutcome::Measured => None,
        TimedOutcome::Failed { cause } => Some(OfficialSeal::Failed { error: cause }),
        TimedOutcome::Mismatch { label, step } => {
            if same_text(label.as_str(), DECODE_TOKEN_LABEL) {
                Some(
                    OfficialSeal::TimedOracle {
                        error: say_mismatch_at_step(label.as_str(), step),
                        step: Some(step as i64),
                    },
                )
            } else {
                Some(OfficialSeal::TimedOracle { error: say_mismatch(label.as_str()), step: None })
            }
        },
    }
}

/// After the gates on the timing: seals the first that failed, and lets a timing that passed them
/// go on to correctness.
pub fn after_gating(evaluation: &TimedEvaluation) -> (r: Option<OfficialSeal>)
    ensures
        seal_view(r) == seal_after_gating(*evaluation),
{
    match &evaluation.failure {
        Some(reason) => Some(OfficialSeal::TimedBand { error: reason.clone() }),
        None => None,
    }
}

/// After correctness: what the run seals.
pub fn after_correctness(score: Number, outcome: CorrectnessOutcome) -> (r: OfficialSeal)
    ensures
        r@ == seal_after_correctness(score, outcome),
{
    match outcome {
        CorrectnessOutcome::SpawnFailed { cause } => OfficialSeal::WithTiming {
            error: say_correctness_spawn_failed(cause.as_str()),
        },
        CorrectnessOutcome::ConformanceFailed { cause } => OfficialSeal::WithTiming {
            error: cause,
        },
        CorrectnessOutcome::BarrierFailed { cause } => OfficialSeal::WithTiming { error: cause },
        CorrectnessOutcome::Judged { report } => {
            if report.passed {
                OfficialSeal::Passed { score, checked_steps: report.checked_steps }
            } else {
                let (case, step, error) = official_correctness_failure(&report);
                OfficialSeal::Incorrect { error, case, step, checked_steps: report.checked_steps }
            }
        },
    }
}

/// What an official run seals once its timing is measured.
pub fn finish_official(evaluation: TimedEvaluation, outcome: CorrectnessOutcome) -> (r:
    OfficialSeal)
    ensures
        r@ == finished_seal(evaluation, outcome),
{
    match after_gating(&evaluation) {
        Some(seal) => seal,
        None => after_correctness(evaluation.score, outcome),
    }
}

/// What an official run seals, from what its phases came to. A phase that was not reached has no
/// say.
pub fn official_core(
    golden: &GoldenSummary,
    timed: TimedOutcome,
    evaluation: TimedEvaluation,
    outcome: CorrectnessOutcome,
) -> (r: OfficialSeal)
    ensures
        r@ == official_seal(*golden, timed, evaluation, outcome),
{
    match begin_official(golden) {
        Some(seal) => return seal,
        None => {},
    }
    match after_timed(timed) {
        Some(seal) => return seal,
        None => {},
    }
    finish_official(evaluation, outcome)
}

/// What a gates-only run seals.
pub open spec fn gates_seal(outcome: CorrectnessOutcome) -> GatesSealView {
    match outcome {
        CorrectnessOutcome::SpawnFailed { cause } => GatesSealView::Failed {
            error: correctness_spawn_failed(cause@),
            case: None,
            step: None,
            checked_steps: 0,
        },
        CorrectnessOutcome::ConformanceFailed { cause } => GatesSealView::Failed {
            error: cause@,
            case: None,
            step: None,
            checked_steps: 0,
        },
        CorrectnessOutcome::BarrierFailed { cause } => GatesSealView::Failed {
            error: cause@,
            case: None,
            step: None,
            checked_steps: 0,
        },
        CorrectnessOutcome::Judged { report } => if report.passed {
            GatesSealView::Passed { checked_steps: report.checked_steps }
        } else {
            GatesSealView::Failed {
                error: correctness_error(report),
                case: correctness_case(report),
                step: correctness_step(report),
                checked_steps: report.checked_steps,
            }
        },
    }
}

/// What a gates-only run seals: the verdict of its correctness phase, with no timing before it.
pub fn official_gates_only(outcome: CorrectnessOutcome) -> (r: GatesSeal)
    ensures
        r@ == gates_seal(outcome),
{
    match outcome {
        CorrectnessOutcome::SpawnFailed { cause } => GatesSeal::Failed {
            error: say_correctness_spawn_failed(cause.as_str()),
            case: None,
            step: None,
            checked_steps: 0,
        },
        CorrectnessOutcome::ConformanceFailed { cause } => GatesSeal::Failed {
            error: cause,
            case: None,
            step: None,
            checked_steps: 0,
        },
        CorrectnessOutcome::BarrierFailed { cause } => GatesSeal::Failed {
            error: cause,
            case: None,
            step: None,
            checked_steps: 0,
        },
        CorrectnessOutcome::Judged { report } => {
            if report.passed {
                GatesSeal::Passed { checked_steps: report.checked_steps }
            } else {
                let (case, step, error) = official_correctness_failure(&report);
                GatesSeal::Failed { error, case, step, checked_steps: report.checked_steps }
            }
        },
    }
}

/// Timing comes first: a run that its golden, its timed phases or the gates on its timing end is
/// sealed the same whatever correctness would have come to.
pub proof fn a_failed_timing_never_reaches_correctness(
    golden: GoldenSummary,
    timed: TimedOutcome,
    evaluation: TimedEvaluation,
    a: CorrectnessOutcome,
    b: CorrectnessOutcome,
)
    requires
        seal_before_timing(golden) is Some || seal_after_timing(timed) is Some
            || seal_after_gating(evaluation) is Some,
    ensures
        official_seal(golden, timed, evaluation, a) == official_seal(golden, timed, evaluation, b),
        !(official_seal(golden, timed, evaluation, a) is Passed),
{
}

/// A run passes exactly when its golden has an oracle, its timing was measured and passed every
/// gate, and its correctness was judged and passed; it then carries the score of its timing.
pub proof fn an_official_run_passes_every_phase(
    golden: GoldenSummary,
    timed: TimedOutcome,
    evaluation: TimedEvaluation,
    outcome: CorrectnessOutcome,
)
    ensures
        official_seal(golden, timed, evaluation, outcome) is Passed <==> {
            &&& golden.has_benchmark
            &&& timed is Measured
            &&& evaluation.failure is None
            &&& outcome matches CorrectnessOutcome::Judged { report } && report.passed
        },
        official_seal(golden, timed, evaluation, outcome) matches SealView::Passed {
            score,
            checked_steps,
        } ==> score == evaluation.score && (outcome matches CorrectnessOutcome::Judged { report }
            && checked_steps == report.checked_steps),
{
}

/// A gates-only run agrees with the correctness phase of a timed run: it passes exactly when that
/// phase lets the run pass, and otherwise fails with the same error.
pub proof fn gates_alone_judge_as_the_timed_run_does(score: Number, outcome: CorrectnessOutcome)
    ensures
        gates_seal(outcome) is Passed <==> seal_after_correctness(score, outcome) is Passed,
        gates_seal(outcome) matches GatesSealView::Failed { error, .. } ==> (
        seal_after_correctness(score, outcome) matches SealView::WithTiming { error: e } && e
            == error) || (seal_after_correctness(score, outcome) matches SealView::Incorrect {
            error: e,
            ..
        } && e == error),
{
}

/// The settings of the baselines are all or nothing: a pair that is given is two times, and it is
/// given exactly when both are set.
pub proof fn a_given_baseline_pair_is_two_times(
    prefill: Option<Seq<char>>,
    decode: Option<Seq<char>>,
    prefill_reading: Option<Number>,
    decode_reading: Option<Number>,
)
    requires
        baseline_refusal(prefill, decode, prefill_reading, decode_reading) is None,
    ensures
        prefill is Some <==> decode is Some,
        prefill is Some ==> {
            &&& prefill_reading matches Some(p) && positive(p.bits)
            &&& decode_reading matches Some(d) && positive(d.bits)
        },
{
}

/// What each correctness outcome is sealed as: a phase that broke down keeps its own cause, behind
/// the words that say a worker did not start where that is what happened; a report that passed
/// carries the score of the timing and the steps it checked; and a report that failed carries the
/// steps it checked and the case it names.
pub proof fn a_correctness_outcome_is_sealed_as_what_it_is(
    score: Number,
    outcome: CorrectnessOutcome,
)
    ensures
        outcome matches CorrectnessOutcome::ConformanceFailed { cause }
            ==> seal_after_correctness(score, outcome) == (SealView::WithTiming { error: cause@ })
            && (gates_seal(outcome) matches GatesSealView::Failed {
            error,
            case,
            step,
            checked_steps,
        } && error == cause@ && case is None && step is None && checked_steps == 0),
        outcome matches CorrectnessOutcome::BarrierFailed { cause } ==> seal_after_correctness(
            score,
            outcome,
        ) == (SealView::WithTiming { error: cause@ }) && (
        gates_seal(outcome) matches GatesSealView::Failed { error, case, step, checked_steps }
            && error == cause@ && case is None && step is None && checked_steps == 0),
        outcome matches CorrectnessOutcome::SpawnFailed { cause } ==> (seal_after_correctness(
            score,
            outcome,
        ) matches SealView::WithTiming { error } && error.len() > cause@.len() && error.subrange(
            error.len() - cause@.len(),
            error.len() as int,
        ) == cause@),
        outcome matches CorrectnessOutcome::Judged { report } ==> {
            &&& report.passed ==> seal_after_correctness(score, outcome) == (SealView::Passed {
                score,
                checked_steps: report.checked_steps,
            }) && gates_seal(outcome) == (GatesSealView::Passed {
                checked_steps: report.checked_steps,
            })
            &&& !report.passed ==> (seal_after_correctness(
                score,
                outcome,
            ) matches SealView::Incorrect { case, checked_steps, .. } && checked_steps
                == report.checked_steps && (case is Some <==> report.first_failure is Some) && (
            report.first_failure matches Some(f) ==> case == Some(f.case@)))
            &&& !report.passed ==> (gates_seal(outcome) matches GatesSealView::Failed {
                case,
                checked_steps,
                ..
            } && checked_steps == report.checked_steps && (case is Some
                <==> report.first_failure is Some) && (report.first_failure matches Some(f)
                ==> case == Some(f.case@)))
        },
{
    reveal_strlit("correctness worker spawn failed: ");
    match outcome {
        CorrectnessOutcome::SpawnFailed { cause } => {
            let error = correctness_spawn_failed(cause@);
            assert(error.subrange(error.len() - cause@.len(), error.len() as int) =~= cause@);
        },
        _ => {},
    }
}

/// How a failing report is told: by its base case, else by a failing anchor of that name, else as a
/// free run; a failing anchor is at step zero and every other failure at its own step.
pub proof fn a_failing_report_is_told_by_its_kind(report: CorrectnessReport, i: int)
    requires
        report.first_failure is Some,
    ensures
        report.first_failure->0.is_base_case ==> correctness_error(report)
            == "teacher-forced token mismatch"@,
        !report.first_failure->0.is_base_case && 0 <= i < report.anchors@.len()
            && report.anchors@[i].name@ == report.first_failure->0.case@
            && !report.anchors@[i].passed ==> correctness_error(report)
            == "anchor token mismatch"@ && correctness_step(report) == Some(0i64),
        (forall|k: int|
            0 <= k < report.anchors@.len() ==> (#[trigger] report.anchors@[k]).passed
                || report.anchors@[k].name@ != report.first_failure->0.case@)
            ==> correctness_step(report) == report.first_failure->0.step && (
        !report.first_failure->0.is_base_case ==> correctness_error(report)
            == "free-run token mismatch"@),
{
}

/// What a timed phase that ended a run is sealed as: its own cause, or the label of the token that
/// was not the expected one. Only a decode token has a step, and it is the one where it failed.
pub proof fn a_timed_failure_is_sealed_as_what_it_is(timed: TimedOutcome)
    ensures
        seal_after_timing(timed) is None <==> timed is Measured,
        timed matches TimedOutcome::Failed { cause } ==> seal_after_timing(timed) == Some(
            SealView::Failed { error: cause@ },
        ),
        timed matches TimedOutcome::Mismatch { label, step } ==> {
            &&& seal_after_timing(timed) matches Some(SealView::TimedOracle { error, step: at })
            &&& {
                let error = seal_after_timing(timed)->0->TimedOracle_error;
                let at = seal_after_timing(timed)->0->TimedOracle_step;
                &&& error.len() >= label@.len()
                &&& error.subrange(0, label@.len() as int) == label@
                &&& label@ == "benchmark decode token"@ ==> at == Some(step as i64)
                &&& label@ != "benchmark decode token"@ ==> at is None && error == label@
                    + " mismatch"@
            }
        },
{
    match timed {
        TimedOutcome::Mismatch { label, step } => {
            let error = seal_after_timing(timed)->0->TimedOracle_error;
            assert(error.subrange(0, label@.len() as int) =~= label@);
        },
        _ => {},
    }
}

/// A golden is timed exactly when it carries an oracle, and a timing goes on to correctness exactly
/// when it passed its gates; the reason why it did not is what is sealed.
pub proof fn a_timing_is_sealed_for_the_gate_it_misses(
    golden: GoldenSummary,
    evaluation: TimedEvaluation,
)
    ensures
        seal_before_timing(golden) is None <==> golden.has_benchmark,
        seal_after_gating(evaluation) is None <==> evaluation.failure is None,
        evaluation.failure matches Some(reason) ==> seal_after_gating(evaluation) == Some(
            SealView::TimedBand { error: reason@ },
        ),
{
}

/// A pair of baseline settings is refused exactly when one is missing or one is no time above zero.
pub proof fn baselines_are_refused_exactly_when_they_are_no_pair(
    prefill: Option<Seq<char>>,
    decode: Option<Seq<char>>,
    prefill_reading: Option<Number>,
    decode_reading: Option<Number>,
)
    ensures
        baseline_refusal(prefill, decode, prefill_reading, decode_reading) is None <==> {
            ||| prefill is None && decode is None
            ||| {
                &&& prefill is Some && decode is Some
                &&& prefill_reading matches Some(p) && positive(p.bits)
                &&& decode_reading matches Some(d) && positive(d.bits)
            }
        },
{
}

/// A report that failed is sealed with its own error and its own step, timed or not; one that names
/// no case is sealed as a failed gate, without a case and without a step.
pub proof fn a_failed_report_is_sealed_with_its_error(score: Number, report: CorrectnessReport)
    requires
        !report.passed,
    ensures
        seal_after_correctness(
            score,
            CorrectnessOutcome::Judged { report },
        ) matches SealView::Incorrect { error, step, .. } && error == correctness_error(report)
            && step == correctness_step(report),
        gates_seal(CorrectnessOutcome::Judged { report }) matches GatesSealView::Failed {
            error,
            step,
            ..
        } && error == correctness_error(report) && step == correctness_step(report),
        report.first_failure is None ==> correctness_error(report) == "correctness gate failed"@
            && correctness_step(report) is None && correctness_case(report) is None,
        report.first_failure matches Some(f) ==> correctness_case(report) == Some(f.case@),
{
}

/// The phases of an official run in their order: what the first phase that ends the run gives is
/// what is sealed, and a golden without an oracle is sealed as failed before anything is timed.
pub proof fn the_first_phase_that_ends_a_run_is_sealed(
    golden: GoldenSummary,
    timed: TimedOutcome,
    evaluation: TimedEvaluation,
    outcome: CorrectnessOutcome,
)
    ensures
        ({
            let r = official_seal(golden, timed, evaluation, outcome);
            &&& !golden.has_benchmark ==> r == (SealView::Failed { error: oracle_missing() })
            &&& golden.has_benchmark && !(timed is Measured) ==> Some(r) == seal_after_timing(
                timed,
            )
            &&& golden.has_benchmark && timed is Measured && evaluation.failure is Some ==> r
                == (SealView::TimedBand { error: evaluation.failure->0@ })
            &&& golden.has_benchmark && timed is Measured && evaluation.failure is None ==> r
                == seal_after_correctness(evaluation.score, outcome)
        }),
        finished_seal(evaluation, outcome) == if evaluation.failure is Some {
            SealView::TimedBand { error: evaluation.failure->0@ }
        } else {
            seal_after_correctness(evaluation.score, outcome)
        },
{
}

/// A pair of baseline settings that is refused is told by the first of these: one without the
/// other, a prefill time that is none, a decode time that is none.
pub proof fn a_refused_baseline_is_told_by_its_name(
    prefill: Option<Seq<char>>,
    decode: Option<Seq<char>>,
    prefill_reading: Option<Number>,
    decode_reading: Option<Number>,
)
    ensures
        ({
            let r = baseline_refusal(prefill, decode, prefill_reading, decode_reading);
            let both = prefill is Some && decode is Some;
            let timed = prefill_reading matches Some(p) && positive(p.bits);
            let decoded = decode_reading matches Some(d) && positive(d.bits);
            &&& (prefill is Some) != (decode is Some) ==> r == Some(baselines_half_set())
            &&& both && !timed ==> r == Some(
                baseline_invalid("MLXFAST_PAIRED_BASELINE_PREFILL_SECONDS_PER_TOKEN"@),
            )
            &&& both && timed && !decoded ==> r == Some(
                baseline_invalid("MLXFAST_PAIRED_BASELINE_DECODE_SECONDS_PER_TOKEN"@),
            )
        }),
{
}

/// A number is a time exactly when it is finite and above zero, and then it is that number.
pub proof fn a_time_is_a_positive_number(reading: Option<Number>)
    ensures
        positive_reading(reading) is Some <==> reading is Some && positive(reading->0.bits),
        positive_reading(reading) is Some ==> positive_reading(reading) == reading,
{
}

/// Seals are seen as they are.
pub proof fn seals_are_seen_as_they_are(seal: OfficialSeal, gates: GatesSeal)
    ensures
        seal matches OfficialSeal::Failed { error } ==> seal@ == (SealView::Failed {
            error: error@,
        }),
        seal matches OfficialSeal::TimedOracle { error, step } ==> seal@ == (
        SealView::TimedOracle { error: error@, step }),
        seal matches OfficialSeal::TimedBand { error } ==> seal@ == (SealView::TimedBand {
            error: error@,
        }),
        seal matches OfficialSeal::WithTiming { error } ==> seal@ == (SealView::WithTiming {
            error: error@,
        }),
        seal matches OfficialSeal::Passed { score, checked_steps } ==> seal@ == (
        SealView::Passed { score, checked_steps }),
        seal matches OfficialSeal::Incorrect { error, case, step, checked_steps } ==> (
        seal@ matches SealView::Incorrect { error: e, case: c, step: s, checked_steps: n } && e
            == error@ && (c is Some <==> case is Some) && (case matches Some(t) ==> c == Some(t@))
            && s == step && n == checked_steps),
        gates matches GatesSeal::Passed { checked_steps } ==> gates@ == (GatesSealView::Passed {
            checked_steps,
        }),
        gates matches GatesSeal::Failed { error, case, step, checked_steps } ==> (
        gates@ matches GatesSealView::Failed { error: e, case: c, step: s, checked_steps: n } && e
            == error@ && (c is Some <==> case is Some) && (case matches Some(t) ==> c == Some(t@))
            && s == step && n == checked_steps),
{
}

} // verus!
