//! The merge: which samples a run is scored on, and the score that is sealed from their verdict.
use crate::number::{above, at_least, finite, ge, gt, is_finite, Number, ZERO_BITS};
use crate::overlay::composite::{
    CompositeFigures, DECODE_GAIN_EXPONENT_BITS, DECODE_SPEEDUP_CEILING_BITS,
    DECODE_SPEEDUP_FLOOR_BITS, PREFILL_GAIN_EXPONENT_BITS, SEALED_MEDIAN_AGREEMENT_EPS_BITS,
};
use crate::overlay::gates::{
    cross_leg_refusal, gates_refusal, identity_refusal, resolve_seal_harness_identity,
    validate_gates, validate_harness_identity_cross_leg, validate_identity,
};
use crate::overlay::pool::{results_refusal, validate_results};
use crate::overlay::refusals::{
    ceiling_exceeded, floor_failed, median_not_finite, median_tampered, say_ceiling_exceeded,
    say_floor_failed, say_median_not_finite, say_median_tampered, seal_unresolved,
};
use crate::overlay::series::{results_shape, shape_of};
use crate::overlay::view::{
    wanted, HarnessIdentity, PairView, PerCohortView, PerPromptView, PoolExpectation,
    ResultsShape, ResultsView,
};
use crate::score::{ScoreMetrics, ScorePayload};
use vstd::prelude::*;

verus! {

/// The scoring mode that a merged score is sealed under.
pub const SCORING_MODE: &'static str = "qwen-native-mtp-paired-decode-only";

/// The aggregation of a single-stream score.
pub const AGGREGATION: &'static str = "median_of_per_prompt_raw_ratio_of_means";

/// The aggregation of a cohort score.
pub const AGGREGATION_COHORT_COMPOSITE: &'static str =
    "shared_window_composite_prefill_decode_gain";

/// One number of a sample set: given, or the quotient of two given numbers.
#[derive(Debug)]
pub enum Sample {
    Given(Number),
    Quotient { numerator: Number, denominator: Number },
}

/// Why a published figure does not pass.
#[derive(Debug)]
pub enum PairedDecodeFailure {
    Floor { median: Number, floor: Number },
    Ceiling { median: Number, ceiling: Number },
    /// A pair beyond the plausibility bound, or a median that is no number.
    Other { message: String },
}

/// The verdict on the pair ratios and the published samples of a run.
#[derive(Debug)]
pub struct PairedScore {
    pub passed: bool,
    pub score: Option<Number>,
    pub raw_median: Number,
    pub failure: Option<PairedDecodeFailure>,
}

/// What a cohort score carries about the cohort it scores.
#[derive(Debug)]
pub struct CohortSeal {
    pub scored_batch_size: u32,
    pub cohort_sha256: String,
    pub member_count: usize,
    pub prefill_gain: Number,
    pub decode_gain: Number,
    pub composite_score: Number,
    pub composite_speedup_floor: Number,
    pub composite_speedup_floor_met: bool,
    pub prefill_gain_exponent: Number,
    pub decode_gain_exponent: Number,
}

/// What the merge of two accepted inputs has to compute.
#[derive(Debug)]
pub struct OverlayPlan {
    pub shape: ResultsShape,
    /// The samples whose median must agree with the sealed one.
    pub agreement: Vec<Sample>,
    /// The pair ratios, each held to the plausibility bound.
    pub pair_ratios: Vec<Number>,
    /// The samples whose median is published.
    pub published: Vec<Sample>,
    pub cohort: Option<CohortSeal>,
}

/// The series identity that a merged score carries.
#[derive(Debug)]
pub struct MergedSeries {
    pub serial_leg_timed_mode: String,
    pub candidate_leg_timed_mode: String,
    pub homogeneous: bool,
    pub legs_comparable: bool,
}

/// A merged score with the discriminators that it is only meaningful with.
#[derive(Debug)]
pub struct MergedScore {
    pub payload: ScorePayload,
    pub scoring_mode: String,
    pub aggregation: String,
    pub decode_speedup_ceiling: Number,
    pub passed_decode_speedup_ceiling: bool,
    pub timed_mode: String,
    pub timed_series: MergedSeries,
    pub cohort: Option<CohortSeal>,
}

/// The outcome of a merge.
#[derive(Debug)]
pub struct OverlayOutcome {
    pub merged: MergedScore,
    pub passed: bool,
    /// The published figure of a score that passed.
    pub score: Option<Number>,
}

/// What the merge takes from the arithmetic on its samples.
#[derive(Debug)]
pub struct OverlayFigures {
    pub composite: CompositeFigures,
    /// The median of the agreement samples.
    pub recomputed_median: Number,
    /// `|recomputed_median - sealed median|`.
    pub median_gap: Number,
    /// The verdict on the pair ratios and the published samples.
    pub paired: PairedScore,
}

/// The ratio of means of one prompt.
pub open spec fn prompt_sample(p: PerPromptView) -> Sample {
    Sample::Quotient {
        numerator: p.serial_seconds_per_token_mean,
        denominator: p.mtp_seconds_per_token_mean,
    }
}

/// The ratios of means of a pool.
pub open spec fn prompt_samples(prompts: Seq<PerPromptView>) -> Seq<Sample> {
    Seq::new(prompts.len(), |i: int| prompt_sample(prompts[i]))
}

/// The ratios of the pairs.
pub open spec fn pair_samples(pairs: Seq<PairView>) -> Seq<Sample> {
    Seq::new(pairs.len(), |i: int| Sample::Given(pairs[i].raw_ratio))
}

/// The ratios of the pairs, as numbers.
pub open spec fn pair_numbers(pairs: Seq<PairView>) -> Seq<Number> {
    Seq::new(pairs.len(), |i: int| pairs[i].raw_ratio)
}

/// The samples whose median must agree with the sealed one: the per-prompt ratios of means of a
/// single-stream run, the pair ratios of a cohort run.
pub open spec fn agreement_of(results: &ResultsView, shape: ResultsShape) -> Seq<Sample> {
    match shape {
        ResultsShape::SingleStream => prompt_samples(results.per_prompt@),
        ResultsShape::Cohort { .. } => pair_samples(results.pairs@),
    }
}

/// The samples whose median is published: the per-prompt ratios of means of a single-stream run,
/// the one composite of a cohort run.
pub open spec fn published_of(results: &ResultsView, shape: ResultsShape) -> Seq<Sample> {
    match shape {
        ResultsShape::SingleStream => prompt_samples(results.per_prompt@),
        ResultsShape::Cohort { .. } => seq![
            Sample::Given(results.per_cohort@[0].composite->0.composite_score),
        ],
    }
}

/// `n` is the constant with the given bits and texts.
pub open spec fn is_constant(n: Number, bits: u64, display: Seq<char>, debug: Seq<char>) -> bool {
    n.bits == bits && n.display@ == display && n.debug@ == debug
}

/// `seal` says what was scored of the cohort `c`.
pub open spec fn seals_cohort(seal: CohortSeal, c: PerCohortView, batch_size: u32) -> bool {
    let composite = c.composite->0;
    &&& seal.scored_batch_size == batch_size
    &&& seal.cohort_sha256@ == c.cohort_sha256@
    &&& seal.member_count == c.members@.len()
    &&& seal.prefill_gain == composite.prefill_gain
    &&& seal.decode_gain == composite.decode_gain
    &&& seal.composite_score == composite.composite_score
    &&& seal.composite_speedup_floor == composite.composite_speedup_floor
    &&& seal.composite_speedup_floor_met == composite.composite_speedup_floor_met
    &&& is_constant(seal.prefill_gain_exponent, PREFILL_GAIN_EXPONENT_BITS, "0.25"@, "0.25"@)
    &&& is_constant(seal.decode_gain_exponent, DECODE_GAIN_EXPONENT_BITS, "0.75"@, "0.75"@)
}

/// The cohort block of a plan: absent on the single-stream shape.
pub open spec fn plans_cohort(
    cohort: Option<CohortSeal>,
    results: &ResultsView,
    shape: ResultsShape,
) -> bool {
    match shape {
        ResultsShape::SingleStream => cohort is None,
        ResultsShape::Cohort { batch_size } => cohort matches Some(seal) && seals_cohort(
            seal,
            results.per_cohort@[0],
            batch_size,
        ),
    }
}

/// `plan` is what the merge of an accepted run of `shape` has to compute.
pub open spec fn plans(plan: OverlayPlan, results: &ResultsView, shape: ResultsShape) -> bool {
    &&& plan.shape == shape
    &&& plan.agreement@ == agreement_of(results, shape)
    &&& plan.pair_ratios@ == pair_numbers(results.pairs@)
    &&& plan.published@ == published_of(results, shape)
    &&& plans_cohort(plan.cohort, results, shape)
}

/// What the overlay objects to in its two inputs.
pub open spec fn overlay_refusal(
    gates: &ScorePayload,
    results: &ResultsView,
    expected_track: Option<Seq<char>>,
    expected_series: Option<Seq<char>>,
    pool: PoolExpectation,
    seal_leg: &HarnessIdentity,
    figures: &CompositeFigures,
) -> Option<Seq<char>> {
    if gates_refusal(gates) is Some {
        gates_refusal(gates)
    } else if cross_leg_refusal(gates, seal_leg) is Some {
        cross_leg_refusal(gates, seal_leg)
    } else if results_refusal(results, expected_track, expected_series, pool, figures) is Some {
        results_refusal(results, expected_track, expected_series, pool, figures)
    } else {
        identity_refusal(gates, results)
    }
}

fn collect_prompt_samples(prompts: &Vec<PerPromptView>) -> (v: Vec<Sample>)
    ensures
        v@ == prompt_samples(prompts@),
{
    let mut v: Vec<Sample> = Vec::new();
    let mut i: usize = 0;
    while i < prompts.len()
        invariant
            i <= prompts.len(),
            v@.len() == i,
            forall|k: int| 0 <= k < i ==> #[trigger] v@[k] == prompt_sample(prompts@[k]),
        decreases prompts.len() - i,
    {
        let p = &prompts[i];
        v.push(
            Sample::Quotient {
                numerator: p.serial_seconds_per_token_mean.duplicate(),
                denominator: p.mtp_seconds_per_token_mean.duplicate(),
            },
        );
        i = i + 1;
    }
    assert(v@ =~= prompt_samples(prompts@));
    v
}

fn collect_pair_samples(pairs: &Vec<PairView>) -> (v: Vec<Sample>)
    ensures
        v@ == pair_samples(pairs@),
{
    let mut v: Vec<Sample> = Vec::new();
    let mut i: usize = 0;
    while i < pairs.len()
        invariant
            i <= pairs.len(),
            v@.len() == i,
            forall|k: int| 0 <= k < i ==> #[trigger] v@[k] == Sample::Given(pairs@[k].raw_ratio),
        decreases pairs.len() - i,
    {
        v.push(Sample::Given(pairs[i].raw_ratio.duplicate()));
        i = i + 1;
    }
    assert(v@ =~= pair_samples(pairs@));
    v
}

fn collect_pair_numbers(pairs: &Vec<PairView>) -> (v: Vec<Number>)
    ensures
        v@ == pair_numbers(pairs@),
{
    let mut v: Vec<Number> = Vec::new();
    let mut i: usize = 0;
    while i < pairs.len()
        invariant
            i <= pairs.len(),
            v@.len() == i,
            forall|k: int| 0 <= k < i ==> #[trigger] v@[k] == pairs@[k].raw_ratio,
        decreases pairs.len() - i,
    {
        v.push(pairs[i].raw_ratio.duplicate());
        i = i + 1;
    }
    assert(v@ =~= pair_numbers(pairs@));
    v
}

fn seal_cohort(c: &PerCohortView, batch_size: u32) -> (r: CohortSeal)
    requires
        c.composite is Some,
    ensures
        seals_cohort(r, *c, batch_size),
{
    let composite = c.composite.as_ref().unwrap();
    CohortSeal {
        scored_batch_size: batch_size,
        cohort_sha256: c.cohort_sha256.clone(),
        member_count: c.members.len(),
        prefill_gain: composite.prefill_gain.duplicate(),
        decode_gain: composite.decode_gain.duplicate(),
        composite_score: composite.composite_score.duplicate(),
        composite_speedup_floor: composite.composite_speedup_floor.duplicate(),
        composite_speedup_floor_met: composite.composite_speedup_floor_met,
        prefill_gain_exponent: Number::constant(PREFILL_GAIN_EXPONENT_BITS, "0.25", "0.25"),
        decode_gain_exponent: Number::constant(DECODE_GAIN_EXPONENT_BITS, "0.75", "0.75"),
    }
}

/// Accepts the two inputs of a merge and says what has to be computed of them. The gates are
/// checked first, then the harness at the seal, then the run, then that both are of one run.
pub fn prepare_overlay(
    gates: &ScorePayload,
    results: &ResultsView,
    expected_track: Option<&str>,
    expected_series: Option<&str>,
    pool: &PoolExpectation,
    seal_leg: &HarnessIdentity,
    figures: &CompositeFigures,
) -> (r: Result<OverlayPlan, String>)
    ensures
        match overlay_refusal(
            gates,
            results,
            wanted(expected_track),
            wanted(expected_series),
            *pool,
            seal_leg,
            figures,
        ) {
            Some(m) => r matches Err(e) && e@ == m,
            None => r matches Ok(plan) && plans(plan, results, shape_of(results)->0),
        },
        r matches Ok(plan) ==> plan.shape is SingleStream ==> {
            &&& plan.agreement@.len() == results.per_prompt@.len()
            &&& plan.published@.len() == results.per_prompt@.len()
            &&& forall|i: int|
                0 <= i < results.per_prompt@.len() ==> (#[trigger] plan.agreement@[i]
                    == (Sample::Quotient {
                    numerator: results.per_prompt@[i].serial_seconds_per_token_mean,
                    denominator: results.per_prompt@[i].mtp_seconds_per_token_mean,
                }))
            &&& forall|i: int|
                0 <= i < results.per_prompt@.len() ==> (#[trigger] plan.published@[i]
                    == (Sample::Quotient {
                    numerator: results.per_prompt@[i].serial_seconds_per_token_mean,
                    denominator: results.per_prompt@[i].mtp_seconds_per_token_mean,
                }))
        },
{
    match validate_gates(gates) {
        Err(e) => return Err(e),
        Ok(()) => {},
    }
    match validate_harness_identity_cross_leg(gates, seal_leg) {
        Err(e) => return Err(e),
        Ok(()) => {},
    }
    match validate_results(results, expected_track, expected_series, pool, figures) {
        Err(e) => return Err(e),
        Ok(()) => {},
    }
    match validate_identity(gates, results) {
        Err(e) => return Err(e),
        Ok(()) => {},
    }
    let shape = match results_shape(results) {
        Err(e) => return Err(e),
        Ok(shape) => shape,
    };
    let pair_ratios = collect_pair_numbers(&results.pairs);
    match shape {
        ResultsShape::SingleStream => {
            let agreement = collect_prompt_samples(&results.per_prompt);
            let published = collect_prompt_samples(&results.per_prompt);
            Ok(OverlayPlan { shape, agreement, pair_ratios, published, cohort: None })
        },
        ResultsShape::Cohort { batch_size } => {
            let agreement = collect_pair_samples(&results.pairs);
            let seal = seal_cohort(&results.per_cohort[0], batch_size);
            let mut published: Vec<Sample> = Vec::new();
            published.push(Sample::Given(seal.composite_score.duplicate()));
            assert(published@ =~= published_of(results, shape));
            Ok(OverlayPlan { shape, agreement, pair_ratios, published, cohort: Some(seal) })
        },
    }
}

/// The refusal of a run whose sealed median is not the one its samples give.
pub open spec fn median_refusal(results: &ResultsView, median: Number, gap: Number) -> Option<
    Seq<char>,
> {
    if !finite(median.bits) {
        Some(median_not_finite(median.display@))
    } else if ge(gap.bits, SEALED_MEDIAN_AGREEMENT_EPS_BITS) {
        Some(
            median_tampered(
                median.display@,
                results.aggregate.raw_decode_speedup_median.display@,
                gap.display@,
            ),
        )
    } else {
        None
    }
}

/// The error text of a published figure that does not pass.
pub open spec fn failure_text(failure: PairedDecodeFailure) -> Seq<char> {
    match failure {
        PairedDecodeFailure::Floor { median, floor } => floor_failed(
            median.display@,
            floor.display@,
        ),
        PairedDecodeFailure::Ceiling { median, ceiling } => ceiling_exceeded(
            median.display@,
            ceiling.display@,
        ),
        PairedDecodeFailure::Other { message } => message@,
    }
}

/// The error text of a published figure that does not pass.
pub fn overlay_error_message(failure: &PairedDecodeFailure) -> (r: String)
    ensures
        r@ == failure_text(*failure),
{
    match failure {
        PairedDecodeFailure::Floor { median, floor } => say_floor_failed(
            median.display.as_str(),
            floor.display.as_str(),
        ),
        PairedDecodeFailure::Ceiling { median, ceiling } => say_ceiling_exceeded(
            median.display.as_str(),
            ceiling.display.as_str(),
        ),
        PairedDecodeFailure::Other { message } => message.clone(),
    }
}

/// `out` is the larger of `n` and zero.
pub open spec fn raised_to_zero(out: Number, n: Number) -> bool {
    if gt(n.bits, ZERO_BITS) {
        out == n
    } else {
        out.is_zero()
    }
}

fn raise_to_zero(n: &Number) -> (r: Number)
    ensures
        raised_to_zero(r, *n),
{
    if above(n.bits, ZERO_BITS) {
        n.duplicate()
    } else {
        Number::zero()
    }
}

/// The error that a merged score carries: the failure of the published figure, or the error of
/// the gates where nothing failed.
pub open spec fn merged_error(gates: &ScorePayload, paired: PairedScore) -> Seq<char> {
    if gates.passed && paired.passed {
        gates.metrics.error@
    } else {
        match paired.failure {
            Some(f) => failure_text(f),
            None => gates.metrics.error@,
        }
    }
}

/// `m` is the metrics of the gates with the timing of the run laid over them. The decode floor is
/// the floor of the track; prefill is not scored there, so its floor is zero and passed; and the
/// result is no longer partial.
pub open spec fn merges_metrics(
    m: ScoreMetrics,
    gates: &ScorePayload,
    results: &ResultsView,
    paired: PairedScore,
) -> bool {
    let median = paired.raw_median;
    &&& m == (ScoreMetrics {
        partial_result: false,
        error: m.error,
        decode_seconds_per_token: results.aggregate.candidate_mtp_seconds_per_token_mean,
        baseline_decode_seconds_per_token: results.aggregate.baseline_serial_seconds_per_token_mean,
        decode_speedup: median,
        decode_speedup_floor: m.decode_speedup_floor,
        passed_decode_speedup_floor: finite(median.bits) && ge(
            median.bits,
            DECODE_SPEEDUP_FLOOR_BITS,
        ),
        prefill_speedup_floor: m.prefill_speedup_floor,
        passed_prefill_speedup_floor: true,
        benchmark_wall_seconds: m.benchmark_wall_seconds,
        peak_ram_gb: m.peak_ram_gb,
        ..gates.metrics
    })
    &&& m.error@ == merged_error(gates, paired)
    &&& is_constant(m.decode_speedup_floor, DECODE_SPEEDUP_FLOOR_BITS, "0.9"@, "0.9"@)
    &&& m.prefill_speedup_floor.is_zero()
    &&& raised_to_zero(m.benchmark_wall_seconds, gates.metrics.benchmark_wall_seconds)
    &&& raised_to_zero(m.peak_ram_gb, gates.metrics.peak_ram_gb)
}

/// The aggregation that a score of a given shape is labelled with.
pub open spec fn aggregation_of(shape: ResultsShape) -> Seq<char> {
    match shape {
        ResultsShape::SingleStream => AGGREGATION@,
        ResultsShape::Cohort { .. } => AGGREGATION_COHORT_COMPOSITE@,
    }
}

/// `out` is the merged score of a run of `shape` under the verdict `paired`: it passes exactly
/// when the gates and the verdict do, publishes the score of the verdict then, and carries a score
/// of zero otherwise.
pub open spec fn merges(
    out: OverlayOutcome,
    gates: &ScorePayload,
    results: &ResultsView,
    shape: ResultsShape,
    cohort: Option<CohortSeal>,
    paired: PairedScore,
) -> bool {
    let passed = gates.passed && paired.passed;
    let median = paired.raw_median;
    let merged = out.merged;
    &&& out.passed == passed
    &&& passed ==> out.score == paired.score
    &&& !passed ==> out.score is None
    &&& merged.payload.passed == passed
    &&& passed ==> merged.payload.score == paired.score
    &&& !passed ==> (merged.payload.score matches Some(z) && z.is_zero())
    &&& merges_metrics(merged.payload.metrics, gates, results, paired)
    &&& merged.scoring_mode@ == SCORING_MODE@
    &&& merged.aggregation@ == aggregation_of(shape)
    &&& is_constant(merged.decode_speedup_ceiling, DECODE_SPEEDUP_CEILING_BITS, "5"@, "5.0"@)
    &&& merged.passed_decode_speedup_ceiling == (finite(median.bits) && ge(
        DECODE_SPEEDUP_CEILING_BITS,
        median.bits,
    ))
    &&& merged.timed_mode@ == results.timed_mode@
    &&& merged.timed_series.serial_leg_timed_mode@ == results.timed_series.serial_leg_timed_mode@
    &&& merged.timed_series.candidate_leg_timed_mode@
        == results.timed_series.candidate_leg_timed_mode@
    &&& merged.timed_series.homogeneous == results.timed_series.homogeneous
    &&& merged.timed_series.legs_comparable == results.timed_series.legs_comparable
    &&& merged.cohort == cohort
}

fn merge_metrics(gates: &ScorePayload, results: &ResultsView, paired: &PairedScore) -> (m:
    ScoreMetrics)
    ensures
        merges_metrics(m, gates, results, *paired),
{
    let mut m = gates.metrics.duplicate();
    m.decode_seconds_per_token = results.aggregate.candidate_mtp_seconds_per_token_mean
        .duplicate();
    m.baseline_decode_seconds_per_token = results.aggregate.baseline_serial_seconds_per_token_mean
        .duplicate();
    m.decode_speedup = paired.raw_median.duplicate();
    m.decode_speedup_floor = Number::constant(DECODE_SPEEDUP_FLOOR_BITS, "0.9", "0.9");
    m.passed_decode_speedup_floor = is_finite(paired.raw_median.bits) && at_least(
        paired.raw_median.bits,
        DECODE_SPEEDUP_FLOOR_BITS,
    );
    m.prefill_speedup_floor = Number::zero();
    m.passed_prefill_speedup_floor = true;
    m.benchmark_wall_seconds = raise_to_zero(&gates.metrics.benchmark_wall_seconds);
    m.peak_ram_gb = raise_to_zero(&gates.metrics.peak_ram_gb);
    m.partial_result = false;
    if !(gates.passed && paired.passed) {
        match &paired.failure {
            Some(f) => {
                m.error = overlay_error_message(f);
            },
            None => {},
        }
    }
    m
}

/// Seals the merge of two accepted inputs. The sealed median of the run must agree with the one
/// recomputed from its samples; a figure that does not pass is authored as a score of zero with
/// its error, not withheld.
pub fn finish_overlay(
    gates: &ScorePayload,
    results: &ResultsView,
    plan: OverlayPlan,
    recomputed_median: &Number,
    median_gap: &Number,
    paired: &PairedScore,
) -> (r: Result<OverlayOutcome, String>)
    ensures
        match median_refusal(results, *recomputed_median, *median_gap) {
            Some(m) => r matches Err(e) && e@ == m,
            None => r matches Ok(out) && merges(
                out,
                gates,
                results,
                plan.shape,
                plan.cohort,
                *paired,
            ),
        },
{
    if !is_finite(recomputed_median.bits) {
        return Err(say_median_not_finite(recomputed_median.display.as_str()));
    }
    if at_least(median_gap.bits, SEALED_MEDIAN_AGREEMENT_EPS_BITS) {
        return Err(
            say_median_tampered(
                recomputed_median.display.as_str(),
                results.aggregate.raw_decode_speedup_median.display.as_str(),
                median_gap.display.as_str(),
            ),
        );
    }
    let passed = gates.passed && paired.passed;
    let metrics = merge_metrics(gates, results, paired);
    let (payload_score, score) = if passed {
        (
            crate::number::duplicate_option(&paired.score),
            crate::number::duplicate_option(&paired.score),
        )
    } else {
        (Some(Number::zero()), None)
    };
    let aggregation = match plan.shape {
        ResultsShape::SingleStream => AGGREGATION,
        ResultsShape::Cohort { .. } => AGGREGATION_COHORT_COMPOSITE,
    };
    let merged = MergedScore {
        payload: ScorePayload { score: payload_score, passed, metrics },
        scoring_mode: SCORING_MODE.to_owned(),
        aggregation: aggregation.to_owned(),
        decode_speedup_ceiling: Number::constant(DECODE_SPEEDUP_CEILING_BITS, "5", "5.0"),
        passed_decode_speedup_ceiling: is_finite(paired.raw_median.bits) && at_least(
            DECODE_SPEEDUP_CEILING_BITS,
            paired.raw_median.bits,
        ),
        timed_mode: results.timed_mode.clone(),
        timed_series: MergedSeries {
            serial_leg_timed_mode: results.timed_series.serial_leg_timed_mode.clone(),
            candidate_leg_timed_mode: results.timed_series.candidate_leg_timed_mode.clone(),
            homogeneous: results.timed_series.homogeneous,
            legs_comparable: results.timed_series.legs_comparable,
        },
        cohort: plan.cohort,
    };
    Ok(OverlayOutcome { merged, passed, score })
}

/// What a merge refuses with, whatever stage objects.
pub open spec fn merge_refusal(
    gates: &ScorePayload,
    results: &ResultsView,
    expected_track: Option<Seq<char>>,
    expected_series: Option<Seq<char>>,
    pool: PoolExpectation,
    seal_leg: &HarnessIdentity,
    figures: &OverlayFigures,
) -> Option<Seq<char>> {
    let inputs = overlay_refusal(
        gates,
        results,
        expected_track,
        expected_series,
        pool,
        seal_leg,
        &figures.composite,
    );
    if inputs is Some {
        inputs
    } else {
        median_refusal(results, figures.recomputed_median, figures.median_gap)
    }
}

/// `out` is the merged score of an accepted run.
pub open spec fn merged_as(
    out: OverlayOutcome,
    gates: &ScorePayload,
    results: &ResultsView,
    figures: &OverlayFigures,
) -> bool {
    let shape = shape_of(results)->0;
    &&& merges(out, gates, results, shape, out.merged.cohort, figures.paired)
    &&& plans_cohort(out.merged.cohort, results, shape)
}

/// The merge against a given harness identity.
pub fn merge_overlay_against_harness(
    gates: &ScorePayload,
    results: &ResultsView,
    expected_track: Option<&str>,
    expected_series: Option<&str>,
    pool: &PoolExpectation,
    seal_leg: &HarnessIdentity,
    figures: &OverlayFigures,
) -> (r: Result<OverlayOutcome, String>)
    ensures
        match merge_refusal(
            gates,
            results,
            wanted(expected_track),
            wanted(expected_series),
            *pool,
            seal_leg,
            figures,
        ) {
            Some(m) => r matches Err(e) && e@ == m,
            None => r matches Ok(out) && merged_as(out, gates, results, figures),
        },
{
    let plan = match prepare_overlay(
        gates,
        results,
        expected_track,
        expected_series,
        pool,
        seal_leg,
        &figures.composite,
    ) {
        Err(e) => return Err(e),
        Ok(plan) => plan,
    };
    finish_overlay(
        gates,
        results,
        plan,
        &figures.recomputed_median,
        &figures.median_gap,
        &figures.paired,
    )
}

/// The merge. The harness is identified at the seal, and a harness that could not be identified is
/// a refusal before anything else is looked at.
pub fn merge_overlay(
    gates: &ScorePayload,
    results: &ResultsView,
    expected_track: Option<&str>,
    expected_series: Option<&str>,
    pool: &PoolExpectation,
    resolved: Result<HarnessIdentity, String>,
    figures: &OverlayFigures,
) -> (r: Result<OverlayOutcome, String>)
    ensures
        match resolved {
            Err(cause) => r matches Err(e) && e@ == seal_unresolved(cause@),
            Ok(seal_leg) => match merge_refusal(
                gates,
                results,
                wanted(expected_track),
                wanted(expected_series),
                *pool,
                &seal_leg,
                figures,
            ) {
                Some(m) => r matches Err(e) && e@ == m,
                None => r matches Ok(out) && merged_as(out, gates, results, figures),
            },
        },
{
    let seal_leg = match resolve_seal_harness_identity(resolved) {
        Err(e) => return Err(e),
        Ok(seal_leg) => seal_leg,
    };
    merge_overlay_against_harness(
        gates,
        results,
        expected_track,
        expected_series,
        pool,
        &seal_leg,
        figures,
    )
}

} // verus!
