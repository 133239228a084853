use benchctl::number::Number;
use benchctl::overlay::composite::{
    validate_cohort_composite, CompositeFigures, DECODE_SPEEDUP_CEILING_BITS,
    DECODE_SPEEDUP_FLOOR_BITS,
};
use benchctl::overlay::gates::{
    digest_preview, is_well_formed_harness_hash, resolve_seal_harness_identity,
    seal_resolution_refusal, validate_gates, validate_harness_identity_cross_leg,
    HARNESS_DIGEST_PREVIEW_LEN,
};
use benchctl::overlay::members::{merged_members, Leaf, Member};
use benchctl::overlay::merge::{
    finish_overlay, merge_overlay, merge_overlay_against_harness, overlay_error_message,
    prepare_overlay, OverlayFigures, OverlayOutcome, PairedDecodeFailure, PairedScore, Sample,
    AGGREGATION, AGGREGATION_COHORT_COMPOSITE, SCORING_MODE,
};
use benchctl::overlay::pool::{distinct_count, validate_results};
use benchctl::overlay::series::{results_shape, validate_series};
use benchctl::overlay::view::{
    AggregateView, CohortMemberView, CompositeView, HarnessIdentity, PairView, PerCohortView,
    PerPromptView, PoolExpectation, ResultsShape, ResultsView, ScoredExponentsView,
    TimedSeriesView, SCORED_BATCH_SIZE_B8, TIMED_MODE_BATCHED_FREE_RUN_V1_2_B8,
    TIMED_MODE_FREE_RUN_V1_1, TIMED_MODE_TEACHER_FORCED_V1,
};
use benchctl::score::{ScoreMetrics, ScorePayload};
use benchctl::spec_config::{serial_control_regime_for, LegRegime};

const TEST_HASH: &str = "0f1e2d3c4b5a69788796a5b4c3d2e1f00f1e2d3c4b5a69788796a5b4c3d2e1f0";
const MIXED_SERIES_DESCRIPTOR: &str = "mixed:teacher_forced_v1+free_run_v1_1";
const FLOOR: f64 = 0.90;
const CEILING: f64 = 5.0;
const PAIR_BOUND: f64 = 8.0;
const PREFILL_EXPONENT: f64 = 0.25;
const DECODE_EXPONENT: f64 = 0.75;

fn num(x: f64) -> Number {
    Number {
        bits: x.to_bits(),
        display: x.to_string(),
        debug: format!("{x:?}"),
    }
}

fn val(n: &Number) -> f64 {
    f64::from_bits(n.bits)
}

fn empty_metrics() -> ScoreMetrics {
    ScoreMetrics {
        partial_result: false,
        passed_correctness: false,
        error: String::new(),
        harness_hash: String::new(),
        commit: String::new(),
        weights_hash: String::new(),
        golden_hash: String::new(),
        runtime: String::new(),
        case_count: 0,
        checked_steps: 0,
        first_failing_case: None,
        first_failing_step: None,
        expected_token: None,
        actual_token: None,
        decode_seconds_per_token: num(0.0),
        prefill_seconds_per_token: num(0.0),
        baseline_decode_seconds_per_token: num(0.0),
        baseline_prefill_seconds_per_token: num(0.0),
        decode_speedup: num(0.0),
        prefill_speedup: num(0.0),
        decode_speedup_floor: num(0.0),
        prefill_speedup_floor: num(0.0),
        passed_decode_speedup_floor: false,
        passed_prefill_speedup_floor: false,
        benchmark_wall_seconds: num(0.0),
        peak_ram_gb: num(0.0),
    }
}

fn passing_gates() -> ScorePayload {
    let mut m = empty_metrics();
    m.partial_result = true;
    m.passed_correctness = true;
    m.prefill_speedup_floor = num(0.95);
    m.passed_prefill_speedup_floor = false;
    m.decode_speedup_floor = num(0.95);
    m.passed_decode_speedup_floor = false;
    m.case_count = 12;
    m.checked_steps = 34;
    m.benchmark_wall_seconds = num(1.5);
    m.peak_ram_gb = num(20.25);
    m.commit = "deadbeef".to_string();
    m.weights_hash = "w-hash".to_string();
    m.harness_hash = TEST_HASH.to_string();
    ScorePayload {
        score: None,
        passed: true,
        metrics: m,
    }
}

fn median(samples: &[f64]) -> f64 {
    let mut sorted = samples.to_vec();
    sorted.sort_by(|a, b| a.partial_cmp(b).unwrap());
    let n = sorted.len();
    if n == 0 {
        return f64::NAN;
    }
    if n % 2 == 1 {
        sorted[n / 2]
    } else {
        (sorted[n / 2 - 1] + sorted[n / 2]) / 2.0
    }
}

fn score_paired(pairs: &[f64], published: &[f64]) -> PairedScore {
    let m = median(published);
    let failure = if let Some(p) = pairs.iter().find(|p| **p > PAIR_BOUND) {
        Some(PairedDecodeFailure::Other {
            message: format!("pair ratio {p} exceeds the per-pair plausibility bound {PAIR_BOUND}"),
        })
    } else if !m.is_finite() {
        Some(PairedDecodeFailure::Other {
            message: format!("median is not finite ({m})"),
        })
    } else if m < FLOOR {
        Some(PairedDecodeFailure::Floor {
            median: num(m),
            floor: num(FLOOR),
        })
    } else if m > CEILING {
        Some(PairedDecodeFailure::Ceiling {
            median: num(m),
            ceiling: num(CEILING),
        })
    } else {
        None
    };
    let passed = failure.is_none();
    PairedScore {
        passed,
        score: if passed { Some(num(m)) } else { None },
        raw_median: num(m),
        failure,
    }
}

fn composite_figures(r: &ResultsView) -> CompositeFigures {
    let recomputed = match r.per_cohort.first().and_then(|c| c.composite.as_ref()) {
        Some(c) => {
            val(&c.prefill_gain).powf(PREFILL_EXPONENT) * val(&c.decode_gain).powf(DECODE_EXPONENT)
        }
        None => f64::NAN,
    };
    let sealed = match r.per_cohort.first().and_then(|c| c.composite.as_ref()) {
        Some(c) => val(&c.composite_score),
        None => f64::NAN,
    };
    CompositeFigures {
        recomputed: num(recomputed),
        relative_gap: num((recomputed - sealed).abs() / recomputed),
    }
}

fn sample_values(samples: &[Sample]) -> Vec<f64> {
    samples
        .iter()
        .map(|s| match s {
            Sample::Given(n) => val(n),
            Sample::Quotient {
                numerator,
                denominator,
            } => val(numerator) / val(denominator),
        })
        .collect()
}

fn figures(r: &ResultsView) -> OverlayFigures {
    let pairs: Vec<f64> = r.pairs.iter().map(|p| val(&p.raw_ratio)).collect();
    let prompts: Vec<f64> = r
        .per_prompt
        .iter()
        .map(|p| val(&p.serial_seconds_per_token_mean) / val(&p.mtp_seconds_per_token_mean))
        .collect();
    let cohort = r.per_cohort.first().and_then(|c| c.composite.as_ref());
    let batched =
        r.timed_series.candidate_leg_timed_mode.trim() == TIMED_MODE_BATCHED_FREE_RUN_V1_2_B8;
    let recomputed = if batched {
        median(&pairs)
    } else {
        median(&prompts)
    };
    let published = match (batched, cohort) {
        (true, Some(c)) => vec![val(&c.composite_score)],
        (true, None) => Vec::new(),
        (false, _) => prompts,
    };
    let sealed = val(&r.aggregate.raw_decode_speedup_median);
    OverlayFigures {
        composite: composite_figures(r),
        recomputed_median: num(recomputed),
        median_gap: num((recomputed - sealed).abs()),
        paired: score_paired(&pairs, &published),
    }
}

fn test_identity() -> HarnessIdentity {
    HarnessIdentity {
        hash: TEST_HASH.to_string(),
    }
}

fn merge_matched(
    gates: &ScorePayload,
    results: &ResultsView,
    expected_track: Option<&str>,
    expected_series: Option<&str>,
    pool: &PoolExpectation,
) -> Result<OverlayOutcome, String> {
    merge_overlay_against_harness(
        gates,
        results,
        expected_track,
        expected_series,
        pool,
        &test_identity(),
        &figures(results),
    )
}

fn pooln(n: usize) -> PoolExpectation {
    PoolExpectation {
        pool_size: n,
        min_per_prompt: 1,
    }
}

fn pool1() -> PoolExpectation {
    pooln(1)
}

fn sha(i: usize) -> String {
    format!("{:064x}", i + 1)
}

fn per_prompt(i: usize, ratio: f64, accepted: usize) -> PerPromptView {
    PerPromptView {
        prompt_sha256: sha(i),
        parity_ok: true,
        accepted_pair_count: accepted,
        serial_seconds_per_token_mean: num(ratio),
        mtp_seconds_per_token_mean: num(1.0),
        raw_ratio_of_means: num(ratio),
        noop_reference_decode_speedup: num(1.0),
    }
}

fn series(serial: &str, candidate: &str, same: bool) -> TimedSeriesView {
    TimedSeriesView {
        serial_leg_timed_mode: serial.to_string(),
        candidate_leg_timed_mode: candidate.to_string(),
        homogeneous: same,
        legs_comparable: same,
    }
}

fn tf_series() -> TimedSeriesView {
    series(TIMED_MODE_TEACHER_FORCED_V1, TIMED_MODE_TEACHER_FORCED_V1, true)
}

fn free_run_series() -> TimedSeriesView {
    series(TIMED_MODE_FREE_RUN_V1_1, TIMED_MODE_FREE_RUN_V1_1, true)
}

fn mixed_series() -> TimedSeriesView {
    series(TIMED_MODE_TEACHER_FORCED_V1, TIMED_MODE_FREE_RUN_V1_1, false)
}

fn pair(raw_ratio: f64, serial: &str, candidate: &str) -> PairView {
    PairView {
        raw_ratio: num(raw_ratio),
        serial_timed_mode: serial.to_string(),
        candidate_timed_mode: candidate.to_string(),
    }
}

fn tf_pair(raw_ratio: f64) -> PairView {
    pair(raw_ratio, TIMED_MODE_TEACHER_FORCED_V1, TIMED_MODE_TEACHER_FORCED_V1)
}

fn free_run_pair(raw_ratio: f64) -> PairView {
    pair(raw_ratio, TIMED_MODE_FREE_RUN_V1_1, TIMED_MODE_FREE_RUN_V1_1)
}

fn mixed_pair(raw_ratio: f64) -> PairView {
    pair(raw_ratio, TIMED_MODE_TEACHER_FORCED_V1, TIMED_MODE_FREE_RUN_V1_1)
}

fn results_with(ratio: f64, pairs: Vec<f64>) -> ResultsView {
    let acc = pairs.len().max(1);
    let pair_min = pairs.iter().copied().fold(f64::INFINITY, f64::min);
    ResultsView {
        track_id: "qwen3.6-27b-mtp-v1".to_string(),
        timed_mode: TIMED_MODE_TEACHER_FORCED_V1.to_string(),
        timed_series: tf_series(),
        parity_all_ok: true,
        accepted_pair_count: acc,
        candidate_accepted: true,
        min_pairs: 1,
        per_prompt: vec![per_prompt(0, ratio, acc)],
        prompt_count: 1,
        pairs: pairs.into_iter().map(tf_pair).collect(),
        aggregate: AggregateView {
            baseline_serial_seconds_per_token_mean: num(0.038),
            candidate_mtp_seconds_per_token_mean: num(0.038 / ratio),
            mtp_decode_speedup_median: num(ratio),
            mtp_decode_speedup_min: num(if pair_min.is_finite() {
                pair_min
            } else {
                ratio
            }),
            raw_decode_speedup_median: num(ratio),
        },
        commit: "deadbeef".to_string(),
        weights_hash: "w-hash".to_string(),
        per_cohort: Vec::new(),
        scored_batch_size: None,
    }
}

fn pool_results(ratios: &[f64]) -> ResultsView {
    let n = ratios.len();
    let m = median(ratios);
    let mut sorted = ratios.to_vec();
    sorted.sort_by(|a, b| a.partial_cmp(b).unwrap());
    ResultsView {
        track_id: "qwen3.6-27b-mtp-v1".to_string(),
        timed_mode: TIMED_MODE_TEACHER_FORCED_V1.to_string(),
        timed_series: tf_series(),
        parity_all_ok: true,
        accepted_pair_count: n,
        candidate_accepted: true,
        min_pairs: 1,
        per_prompt: ratios
            .iter()
            .enumerate()
            .map(|(i, &r)| per_prompt(i, r, 1))
            .collect(),
        prompt_count: n,
        pairs: ratios.iter().map(|&r| tf_pair(r)).collect(),
        aggregate: AggregateView {
            baseline_serial_seconds_per_token_mean: num(0.057),
            candidate_mtp_seconds_per_token_mean: num(0.038),
            mtp_decode_speedup_median: num(m),
            mtp_decode_speedup_min: num(*sorted.first().unwrap()),
            raw_decode_speedup_median: num(m),
        },
        commit: "deadbeef".to_string(),
        weights_hash: "w-hash".to_string(),
        per_cohort: Vec::new(),
        scored_batch_size: None,
    }
}

fn free_run_results(ratio: f64, pairs: Vec<f64>) -> ResultsView {
    let mut r = results_with(ratio, pairs.clone());
    r.timed_mode = TIMED_MODE_FREE_RUN_V1_1.to_string();
    r.timed_series = free_run_series();
    r.pairs = pairs.into_iter().map(free_run_pair).collect();
    r
}

fn mixed_results(ratio: f64, pairs: Vec<f64>) -> ResultsView {
    let mut r = results_with(ratio, pairs.clone());
    r.timed_mode = MIXED_SERIES_DESCRIPTOR.to_string();
    r.timed_series = mixed_series();
    r.pairs = pairs.into_iter().map(mixed_pair).collect();
    r
}

fn composite_of(prefill_gain: f64, decode_gain: f64) -> CompositeView {
    let score = prefill_gain.powf(PREFILL_EXPONENT) * decode_gain.powf(DECODE_EXPONENT);
    CompositeView {
        prefill_gain: num(prefill_gain),
        decode_gain: num(decode_gain),
        composite_score: num(score),
        composite_speedup_floor: num(FLOOR),
        composite_speedup_floor_met: score >= FLOOR,
    }
}

fn cohort_results(prefill_gain: f64, decode_gain: f64, pair_ratios: &[f64]) -> ResultsView {
    let members: Vec<CohortMemberView> = (0..8)
        .map(|i| CohortMemberView {
            slot_index: i,
            prompt_sha256: sha(i),
        })
        .collect();
    let acc = pair_ratios.len();
    let m = median(pair_ratios);
    let mut sorted = pair_ratios.to_vec();
    sorted.sort_by(|a, b| a.partial_cmp(b).unwrap());
    let tag = TIMED_MODE_BATCHED_FREE_RUN_V1_2_B8;
    ResultsView {
        track_id: "gemma4-26b-a4b-mlx-v1".to_string(),
        timed_mode: tag.to_string(),
        timed_series: series(tag, tag, true),
        parity_all_ok: true,
        accepted_pair_count: acc,
        candidate_accepted: true,
        min_pairs: 1,
        per_prompt: Vec::new(),
        prompt_count: 8,
        pairs: pair_ratios.iter().map(|r| pair(*r, tag, tag)).collect(),
        aggregate: AggregateView {
            baseline_serial_seconds_per_token_mean: num(0.040),
            candidate_mtp_seconds_per_token_mean: num(0.020),
            mtp_decode_speedup_median: num(m),
            mtp_decode_speedup_min: num(*sorted.first().unwrap()),
            raw_decode_speedup_median: num(m),
        },
        commit: "deadbeef".to_string(),
        weights_hash: "w-hash".to_string(),
        per_cohort: vec![PerCohortView {
            cohort_sha256: sha(99),
            members,
            batch_size: SCORED_BATCH_SIZE_B8,
            parity_ok: true,
            accepted_pair_count: acc,
            serial_seconds_per_token_mean: num(0.040),
            candidate_seconds_per_token_mean: num(0.020),
            raw_ratio_of_means: num(2.0),
            composite_scored_exponents: Some(ScoredExponentsView {
                prefill_gain_exponent: num(PREFILL_EXPONENT),
                decode_gain_exponent: num(DECODE_EXPONENT),
            }),
            composite: Some(composite_of(prefill_gain, decode_gain)),
            composite_absent_reason: None,
        }],
        scored_batch_size: Some(SCORED_BATCH_SIZE_B8),
    }
}

fn identity_cohort() -> ResultsView {
    cohort_results(4.0, 2.0, &[2.0, 2.0])
}

fn score_of(out: &OverlayOutcome) -> f64 {
    val(out.score.as_ref().unwrap())
}

fn sealed_score(out: &OverlayOutcome) -> f64 {
    val(out.merged.payload.score.as_ref().unwrap())
}

#[test]
fn identity_merge_passes_and_clears_partial_result() {
    let out = merge_matched(
        &passing_gates(),
        &results_with(1.0, vec![1.0]),
        None,
        None,
        &pool1(),
    )
    .unwrap();
    assert!(out.passed);
    assert_eq!(score_of(&out), 1.0);
    let m = &out.merged;
    assert!(m.payload.passed);
    assert!((sealed_score(&out) - 1.0).abs() < 1e-12);
    assert!(!m.payload.metrics.partial_result);
    assert_eq!(m.scoring_mode, SCORING_MODE);
    assert_eq!(m.aggregation, AGGREGATION);
    assert_eq!(val(&m.payload.metrics.decode_speedup_floor), 0.90);
    assert_eq!(val(&m.decode_speedup_ceiling), 5.0);
    assert!(m.payload.metrics.passed_decode_speedup_floor);
    assert!(m.passed_decode_speedup_ceiling);
    assert!((val(&m.payload.metrics.baseline_decode_seconds_per_token) - 0.038).abs() < 1e-9);
}

#[test]
fn asymmetric_faster_candidate_scores_above_one_not_inverted() {
    let results = pool_results(&[1.5, 1.5, 1.5]);
    let out = merge_matched(&passing_gates(), &results, None, None, &pooln(3)).unwrap();
    assert!(
        out.passed,
        "a 1.5 median clears the 0.90 floor / 5.0 ceiling"
    );
    let score = score_of(&out);
    assert!(
        (score - 1.5).abs() < 1e-9,
        "score {score} must be ~1.5, not inverted"
    );
    assert!(score > 1.0, "a faster candidate scores > 1 (not inverted)");
    assert!((val(&out.merged.payload.metrics.decode_speedup) - 1.5).abs() < 1e-9);
}

#[test]
fn floor_fail_authors_score_zero_and_load_bearing_floor_prefix() {
    let out = merge_matched(
        &passing_gates(),
        &results_with(0.85, vec![0.85]),
        None,
        None,
        &pool1(),
    )
    .unwrap();
    assert!(!out.passed);
    assert!(
        out.score.is_none(),
        "OverlayOutcome carries no passing score"
    );
    assert_eq!(sealed_score(&out), 0.0, "score is 0, not null");
    assert!(!out.merged.payload.passed);
    let err = out.merged.payload.metrics.error.as_str();
    assert!(
        err.starts_with("performance floor failed ("),
        "floor error must carry the load-bearing `performance floor failed (` prefix: {err}"
    );
    assert!(
        err.contains("qwen-mtp raw serial-relative median"),
        "exact floor text: {err}"
    );
    assert!(err.contains("below floor"), "exact floor text: {err}");
    assert!(!out.merged.payload.metrics.passed_decode_speedup_floor);
    assert_eq!(
        out.merged.scoring_mode,
        "qwen-native-mtp-paired-decode-only"
    );
}

#[test]
fn ceiling_fail_authors_score_zero_and_nonattributable_ceiling_text() {
    let out = merge_matched(
        &passing_gates(),
        &results_with(6.0, vec![6.0]),
        None,
        None,
        &pool1(),
    )
    .unwrap();
    assert!(!out.passed);
    assert!(out.score.is_none());
    assert_eq!(sealed_score(&out), 0.0, "score is 0, not null");
    assert!(!out.merged.payload.passed);
    let err = out.merged.payload.metrics.error.as_str();
    assert!(
        err.starts_with("qwen-mtp plausibility ceiling exceeded"),
        "ceiling error must carry the exact non-attributable text: {err}"
    );
    assert!(err.contains("above ceiling"), "exact ceiling text: {err}");
    assert!(
        err.contains('5'),
        "ceiling error must name the 5.0 ceiling: {err}"
    );
}

#[test]
fn finding11_no_contradictory_prefill_floor_with_passed_true() {
    let out = merge_matched(
        &passing_gates(),
        &results_with(1.0, vec![1.0]),
        None,
        None,
        &pool1(),
    )
    .unwrap();
    assert!(out.merged.payload.passed);
    assert!(out.merged.payload.metrics.passed_prefill_speedup_floor);
    assert_eq!(val(&out.merged.payload.metrics.prefill_speedup_floor), 0.0);
    assert_eq!(out.merged.scoring_mode, SCORING_MODE);
}

#[test]
fn rejects_non_passing_gates_score() {
    let mut g = passing_gates();
    g.metrics.partial_result = false;
    assert!(merge_matched(&g, &results_with(1.0, vec![1.0]), None, None, &pool1()).is_err());
    let mut g = passing_gates();
    g.passed = false;
    assert!(merge_matched(&g, &results_with(1.0, vec![1.0]), None, None, &pool1()).is_err());
    let mut g = passing_gates();
    g.metrics.passed_correctness = false;
    assert!(merge_matched(&g, &results_with(1.0, vec![1.0]), None, None, &pool1()).is_err());
    let mut g = passing_gates();
    g.metrics.error = "gate boom".to_string();
    assert!(merge_matched(&g, &results_with(1.0, vec![1.0]), None, None, &pool1()).is_err());
}

#[test]
fn rejects_gates_score_with_empty_harness_hash() {
    let mut g = passing_gates();
    g.metrics.harness_hash = String::new();
    let err = merge_matched(&g, &results_with(1.0, vec![1.0]), None, None, &pool1()).unwrap_err();
    assert!(
        err.contains("empty metrics.harness_hash"),
        "empty harness_hash must be named: {err}"
    );
    assert!(
        merge_matched(
            &passing_gates(),
            &results_with(1.0, vec![1.0]),
            None,
            None,
            &pool1()
        )
        .is_ok(),
        "a well-formed harness_hash must still overlay"
    );
}

#[test]
fn rejects_gates_score_with_malformed_harness_hash() {
    let mut g = passing_gates();
    g.metrics.harness_hash = "abc123".to_string();
    let err = merge_matched(&g, &results_with(1.0, vec![1.0]), None, None, &pool1()).unwrap_err();
    assert!(
        err.contains("malformed metrics.harness_hash"),
        "short harness_hash must be named malformed: {err}"
    );
    let mut g = passing_gates();
    g.metrics.harness_hash = format!("{}z", "a".repeat(63));
    let err = merge_matched(&g, &results_with(1.0, vec![1.0]), None, None, &pool1()).unwrap_err();
    assert!(
        err.contains("malformed metrics.harness_hash"),
        "non-hex harness_hash must be named malformed: {err}"
    );
    let mut g = passing_gates();
    g.metrics.harness_hash = "A".repeat(64);
    assert!(
        merge_matched(&g, &results_with(1.0, vec![1.0]), None, None, &pool1()).is_err(),
        "uppercase hex is not the lowercase SHA256 shape and must be refused"
    );
    assert!(
        merge_matched(
            &passing_gates(),
            &results_with(1.0, vec![1.0]),
            None,
            None,
            &pool1()
        )
        .is_ok(),
        "a well-formed harness_hash must still overlay"
    );
}

#[test]
fn rejects_gates_score_that_already_carries_a_score() {
    let mut g = passing_gates();
    g.score = Some(num(1.23));
    let err = merge_matched(&g, &results_with(1.0, vec![1.0]), None, None, &pool1()).unwrap_err();
    assert!(
        err.contains("non-null score"),
        "must name the pre-set score: {err}"
    );
    assert!(err.contains("Some(1.23)"), "{err}");
}

#[test]
fn rejects_cross_run_identity_mismatch() {
    let mut r = results_with(1.0, vec![1.0]);
    r.commit = "feedface".to_string();
    let err = merge_matched(&passing_gates(), &r, None, None, &pool1()).unwrap_err();
    assert!(
        err.contains("commit mismatch"),
        "commit mismatch must be named: {err}"
    );

    let mut r = results_with(1.0, vec![1.0]);
    r.weights_hash = "other-w".to_string();
    let err = merge_matched(&passing_gates(), &r, None, None, &pool1()).unwrap_err();
    assert!(
        err.contains("weights_hash mismatch"),
        "weights mismatch must be named: {err}"
    );

    let mut r = results_with(1.0, vec![1.0]);
    r.commit = String::new();
    let err = merge_matched(&passing_gates(), &r, None, None, &pool1()).unwrap_err();
    assert!(
        err.contains("empty commit"),
        "empty identity must fail closed: {err}"
    );

    let mut g = passing_gates();
    g.metrics.commit = String::new();
    g.metrics.weights_hash = String::new();
    let mut r = results_with(1.0, vec![1.0]);
    r.commit = String::new();
    r.weights_hash = String::new();
    assert!(
        merge_matched(&g, &r, None, None, &pool1()).is_err(),
        "empty==empty identity must not fabricate a match"
    );
}

#[test]
fn rejects_unvalidated_results() {
    let mut r = results_with(1.0, vec![1.0]);
    r.parity_all_ok = false;
    assert!(merge_matched(&passing_gates(), &r, None, None, &pool1()).is_err());
    let mut r = results_with(1.0, vec![1.0]);
    r.accepted_pair_count = 0;
    assert!(merge_matched(&passing_gates(), &r, None, None, &pool1()).is_err());
    let mut r = results_with(1.0, vec![1.0]);
    r.per_prompt.clear();
    assert!(merge_matched(&passing_gates(), &r, None, None, &pool1()).is_err());
}

#[test]
fn die5_results_are_rejected_no_green_score() {
    let mut r = results_with(1.0, vec![1.0]);
    r.candidate_accepted = false;
    let err = merge_matched(&passing_gates(), &r, None, None, &pool1()).unwrap_err();
    assert!(
        err.contains("candidate_accepted"),
        "die-5 verdict must be named: {err}"
    );

    let mut r = results_with(1.0, vec![1.0, 1.0]);
    r.accepted_pair_count = 2;
    r.min_pairs = 3;
    r.candidate_accepted = true;
    let err = merge_matched(&passing_gates(), &r, None, None, &pool1()).unwrap_err();
    assert!(
        err.contains("min_pairs"),
        "the accepted < min_pairs die-5 must be named: {err}"
    );
}

#[test]
fn ranking_fields_survive_coarsening_bit_unchanged() {
    let out = merge_matched(
        &passing_gates(),
        &results_with(1.234_567_891_234, vec![1.234_567_891_234]),
        None,
        None,
        &pool1(),
    )
    .unwrap();
    assert_eq!(
        val(&out.merged.payload.metrics.decode_speedup),
        1.234_567_891_234
    );
    assert_eq!(sealed_score(&out), 1.234_567_891_234);
    assert_eq!(val(&out.merged.payload.metrics.decode_speedup_floor), 0.90);
    assert_eq!(val(&out.merged.decode_speedup_ceiling), 5.0);
}

#[test]
fn forged_no_pairs_results_is_rejected_exploit_repro() {
    let mut r = results_with(4.9, vec![4.9]);
    r.accepted_pair_count = 3;
    let err = merge_matched(&passing_gates(), &r, None, None, &pool1()).unwrap_err();
    assert!(
        err.contains("pairs.len"),
        "the length mismatch must be named: {err}"
    );

    let mut r = results_with(4.9, vec![4.9]);
    r.pairs.clear();
    let err = merge_matched(&passing_gates(), &r, None, None, &pool1()).unwrap_err();
    assert!(err.contains("pairs is empty"), "{err}");

    let mut r = results_with(4.9, vec![4.9]);
    r.aggregate.baseline_serial_seconds_per_token_mean = num(0.0);
    let err = merge_matched(&passing_gates(), &r, None, None, &pool1()).unwrap_err();
    assert!(
        err.contains("baseline_serial_seconds_per_token_mean (0) is not a finite value > 0"),
        "zero mean must be named: {err}"
    );
}

#[test]
fn rejects_track_id_mismatch_accepts_match() {
    let r = results_with(1.0, vec![1.0]);
    let err = merge_matched(
        &passing_gates(),
        &r,
        Some("qwen3.8-27b-mtp-v1"),
        None,
        &pool1(),
    )
    .unwrap_err();
    assert!(
        err.contains("track_id") && err.contains("expected track"),
        "mismatch named: {err}"
    );
    let out = merge_matched(
        &passing_gates(),
        &r,
        Some("qwen3.6-27b-mtp-v1"),
        None,
        &pool1(),
    )
    .unwrap();
    assert!(out.passed, "a matching track scores normally");
    let mut empty = results_with(1.0, vec![1.0]);
    empty.track_id = String::new();
    let err = merge_matched(&passing_gates(), &empty, None, None, &pool1()).unwrap_err();
    assert!(
        err.contains("track_id is empty"),
        "empty track_id refused: {err}"
    );
}

#[test]
fn r17_clean_eight_prompt_pool_passes() {
    let ratios = [1.0; 8];
    let out = merge_matched(
        &passing_gates(),
        &pool_results(&ratios),
        None,
        None,
        &pooln(8),
    )
    .unwrap();
    assert!(out.passed, "a clean 8-prompt pool scores");
    assert_eq!(score_of(&out), 1.0);
}

#[test]
fn r17_per_prompt_len_ne_pool_size_rejected() {
    let mut r = pool_results(&[1.0; 8]);
    r.per_prompt.truncate(3);
    r.prompt_count = 3;
    let err = merge_matched(&passing_gates(), &r, None, None, &pooln(8)).unwrap_err();
    assert!(
        err.contains("per_prompt.len") && err.contains("pool_size"),
        "len mismatch: {err}"
    );
}

#[test]
fn r17_prompt_count_ne_pool_size_rejected() {
    let mut r = pool_results(&[1.0; 8]);
    r.prompt_count = 7;
    let err = merge_matched(&passing_gates(), &r, None, None, &pooln(8)).unwrap_err();
    assert!(
        err.contains("prompt_count"),
        "prompt_count mismatch must be named: {err}"
    );
}

#[test]
fn r17_per_prompt_parity_false_rejected() {
    let mut r = pool_results(&[1.0; 8]);
    r.per_prompt[3].parity_ok = false;
    let err = merge_matched(&passing_gates(), &r, None, None, &pooln(8)).unwrap_err();
    assert!(
        err.contains("parity_ok"),
        "per-prompt parity failure must be named: {err}"
    );
}

#[test]
fn r17_duplicate_prompt_sha256_rejected() {
    let mut r = pool_results(&[1.0; 8]);
    let dup = r.per_prompt[0].prompt_sha256.clone();
    r.per_prompt[5].prompt_sha256 = dup;
    let err = merge_matched(&passing_gates(), &r, None, None, &pooln(8)).unwrap_err();
    assert!(
        err.contains("distinct"),
        "duplicate prompt sha must be named: {err}"
    );
    assert!(err.contains("unique 7 != pool_size 8"), "{err}");
}

#[test]
fn r17_nonpositive_noop_reference_rejected() {
    let mut r = pool_results(&[1.0; 8]);
    r.per_prompt[2].noop_reference_decode_speedup = num(0.0);
    let err = merge_matched(&passing_gates(), &r, None, None, &pooln(8)).unwrap_err();
    assert!(
        err.contains("noop_reference_decode_speedup"),
        "noop<=0 must be named: {err}"
    );
}

#[test]
fn r17_bad_prompt_sha256_hex_rejected() {
    let mut r = pool_results(&[1.0; 8]);
    r.per_prompt[1].prompt_sha256 = "NOTHEX".to_string();
    let err = merge_matched(&passing_gates(), &r, None, None, &pooln(8)).unwrap_err();
    assert!(
        err.contains("lowercase hex"),
        "bad sha256 must be named: {err}"
    );
    assert!(
        err.contains("per_prompt[1].prompt_sha256 (\"NOTHEX\")"),
        "{err}"
    );
}

#[test]
fn r17_run_total_min_pairs_floor_enforced() {
    let r = pool_results(&[1.0; 8]);
    let err = merge_matched(
        &passing_gates(),
        &r,
        None,
        None,
        &PoolExpectation {
            pool_size: 8,
            min_per_prompt: 2,
        },
    )
    .unwrap_err();
    assert!(
        err.contains("min_per_prompt") || err.contains("min_pairs"),
        "min-pairs floor must reject: {err}"
    );
    assert!(
        err.contains("(16 = pool_size 8 * min_per_prompt 2)"),
        "{err}"
    );
}

#[test]
fn r18_sealed_median_tamper_beyond_eps_rejected() {
    let mut r = pool_results(&[1.0; 8]);
    r.aggregate.raw_decode_speedup_median = num(1.0 + 1e-6);
    let err = merge_matched(&passing_gates(), &r, None, None, &pooln(8)).unwrap_err();
    assert!(
        err.contains("sealed-median agreement failed") && err.contains("tamper"),
        "sealed-median tamper must be named: {err}"
    );
    assert!(err.contains("(>= 1e-7)"), "{err}");
}

#[test]
fn r18_sealed_median_within_eps_passes() {
    let mut r = pool_results(&[1.0; 8]);
    r.aggregate.raw_decode_speedup_median = num(1.0 + 5e-8);
    let out = merge_matched(&passing_gates(), &r, None, None, &pooln(8)).unwrap();
    assert!(
        out.passed,
        "a sealed median within 1e-7 of the recompute passes"
    );
}

#[test]
fn r18_overlay_uses_recomputed_median_not_sealed_field() {
    let mut r = pool_results(&[1.5, 1.5, 1.5]);
    for p in &mut r.per_prompt {
        p.raw_ratio_of_means = num(4.0);
    }
    let out = merge_matched(&passing_gates(), &r, None, None, &pooln(3)).unwrap();
    let score = score_of(&out);
    assert!(
        (score - 1.5).abs() < 1e-12,
        "score must be the 1.5 recompute, got {score}"
    );
    assert!((val(&out.merged.payload.metrics.decode_speedup) - 1.5).abs() < 1e-12);
}

#[test]
fn r18_even_n_recompute_uses_mean_of_two_central() {
    let r = pool_results(&[1.0, 2.0, 3.0, 4.0]);
    let out = merge_matched(&passing_gates(), &r, None, None, &pooln(4)).unwrap();
    assert!(
        (score_of(&out) - 2.5).abs() < 1e-12,
        "even-n recompute median must be 2.5"
    );
}

#[test]
fn r20_scoring_mode_is_the_native_form() {
    assert_eq!(SCORING_MODE, "qwen-native-mtp-paired-decode-only");
}

#[test]
fn r20_passing_median_carries_native_scoring_mode() {
    let out = merge_matched(
        &passing_gates(),
        &results_with(1.0, vec![1.0]),
        None,
        None,
        &pool1(),
    )
    .unwrap();
    assert!(out.passed);
    assert_eq!(
        out.merged.scoring_mode,
        "qwen-native-mtp-paired-decode-only"
    );
    assert_eq!(sealed_score(&out), 1.0);
}

#[test]
fn r20_floor_fail_exact_artifact_shape() {
    let out = merge_matched(
        &passing_gates(),
        &results_with(0.85, vec![0.85]),
        None,
        None,
        &pool1(),
    )
    .unwrap();
    assert_eq!(sealed_score(&out), 0.0);
    assert!(!out.merged.payload.passed);
    assert!(!out.merged.payload.metrics.passed_decode_speedup_floor);
    let err = out.merged.payload.metrics.error.as_str();
    assert!(
        err.starts_with("performance floor failed ("),
        "load-bearing prefix: {err}"
    );
    assert_eq!(
        err,
        "performance floor failed (qwen-mtp raw serial-relative median 0.85 below floor 0.9)"
    );
}

#[test]
fn r20_ceiling_fail_exact_artifact_shape() {
    let out = merge_matched(
        &passing_gates(),
        &results_with(6.0, vec![6.0]),
        None,
        None,
        &pool1(),
    )
    .unwrap();
    assert_eq!(sealed_score(&out), 0.0);
    assert!(!out.merged.payload.passed);
    let err = out.merged.payload.metrics.error.as_str();
    assert!(
        err.starts_with("qwen-mtp plausibility ceiling exceeded"),
        "exact ceiling text: {err}"
    );
    assert_eq!(
        err,
        "qwen-mtp plausibility ceiling exceeded (median 6 above ceiling 5)"
    );
}

#[test]
fn fence_accepts_both_legal_shapes() {
    assert!(validate_series(&results_with(1.5, vec![1.5]), None).is_ok());
    assert!(validate_series(&free_run_results(1.5, vec![1.5]), None).is_ok());
    let out = merge_matched(
        &passing_gates(),
        &free_run_results(1.5, vec![1.5]),
        None,
        None,
        &pool1(),
    )
    .unwrap();
    assert!(out.passed);
    assert_eq!(out.merged.timed_mode, "free_run_v1_1");
    assert!(out.merged.timed_series.legs_comparable);
    assert_eq!(
        out.merged.timed_series.serial_leg_timed_mode,
        "free_run_v1_1"
    );
    assert_eq!(
        out.merged.timed_series.candidate_leg_timed_mode,
        "free_run_v1_1"
    );
}

#[test]
fn fence_refuses_a_cross_series_ratio_even_when_sealed_honestly() {
    let r = mixed_results(1.5, vec![1.5]);
    let err = validate_series(&r, None).unwrap_err();
    assert!(err.contains("NOT §5-comparable"), "{err}");
    assert!(err.contains("cross-series ratio"), "{err}");
    assert!(merge_matched(&passing_gates(), &r, None, None, &pool1()).is_err());
    assert_eq!(
        serial_control_regime_for(LegRegime::FreeRunV1_1),
        LegRegime::FreeRunV1_1
    );
}

#[test]
fn fence_refuses_pairs_from_two_series_pooled_into_one_file() {
    let mut r = mixed_results(1.5, vec![1.5, 1.5]);
    r.pairs[1] = tf_pair(1.5);
    let err = validate_series(&r, None).unwrap_err();
    assert!(
        err.contains("refusing to aggregate mismatched series") && err.contains("pairs[1]"),
        "{err}"
    );
    assert!(merge_matched(&passing_gates(), &r, None, None, &pool1()).is_err());
}

#[test]
fn fence_refuses_a_sealed_comparability_lie() {
    let mut r = mixed_results(1.5, vec![1.5]);
    r.timed_series.legs_comparable = true;
    let err = validate_series(&r, None).unwrap_err();
    assert!(err.contains("legs_comparable"), "{err}");

    let mut r = mixed_results(1.5, vec![1.5]);
    r.timed_series.homogeneous = true;
    let err = validate_series(&r, None).unwrap_err();
    assert!(err.contains("homogeneous"), "{err}");
}

#[test]
fn fence_refuses_a_top_level_label_that_hides_the_second_series() {
    let mut r = mixed_results(1.5, vec![1.5]);
    r.timed_mode = "free_run_v1_1".to_string();
    let err = validate_series(&r, None).unwrap_err();
    assert!(
        err.contains("NOT §5-comparable"),
        "a crossed file never reaches scoring: {err}"
    );

    let mut r = results_with(1.5, vec![1.5]);
    r.timed_mode = MIXED_SERIES_DESCRIPTOR.to_string();
    let err = validate_series(&r, None).unwrap_err();
    assert!(
        err.contains("timed_mode") && err.contains("mixed:"),
        "a homogeneous run must not claim MIXED: {err}"
    );

    let mut r = free_run_results(1.5, vec![1.5]);
    r.timed_mode = "teacher_forced_v1".to_string();
    let err = validate_series(&r, None).unwrap_err();
    assert!(
        err.contains("the top-level series label and the per-leg tags disagree"),
        "{err}"
    );
}

#[test]
fn fence_refuses_an_unknown_series_tag() {
    let mut r = results_with(1.5, vec![1.5]);
    r.timed_series.candidate_leg_timed_mode = "free_run_v2".to_string();
    r.pairs = vec![pair(1.5, TIMED_MODE_TEACHER_FORCED_V1, "free_run_v2")];
    let err = validate_series(&r, None).unwrap_err();
    assert!(err.contains("not a known timed series"), "{err}");
}

#[test]
fn fence_refuses_a_file_sealed_for_a_different_expected_series() {
    let tf = results_with(1.5, vec![1.5]);
    assert!(validate_series(&tf, Some("teacher_forced_v1")).is_ok());
    let err = validate_series(&tf, Some(MIXED_SERIES_DESCRIPTOR)).unwrap_err();
    assert!(err.contains("expected series"), "{err}");

    let fr = free_run_results(1.5, vec![1.5]);
    assert!(validate_series(&fr, Some("free_run_v1_1")).is_ok());
    let err = validate_series(&fr, Some("teacher_forced_v1")).unwrap_err();
    assert!(err.contains("expected series"), "{err}");

    let mixed = mixed_results(1.5, vec![1.5]);
    assert!(validate_series(&mixed, Some(MIXED_SERIES_DESCRIPTOR)).is_err());
    assert!(validate_series(&mixed, Some("teacher_forced_v1")).is_err());
}

#[test]
fn a_cohort_results_json_overlays_and_publishes_the_composite() {
    let r = identity_cohort();
    let expected = 2f64.powf(1.25);
    let out = merge_matched(&passing_gates(), &r, None, None, &pooln(8))
        .expect("a conformant cohort artifact must overlay");
    assert!(out.passed, "cohort merge must pass");
    let score = score_of(&out);
    assert!(
        (score - expected).abs() < 1e-12,
        "the published score must be the composite {expected}, got {score}"
    );
    let m = &out.merged;
    assert_eq!(sealed_score(&out), score);
    assert_eq!(val(&m.payload.metrics.decode_speedup), score);
    assert!(m.payload.passed);
    assert!(!m.payload.metrics.partial_result);
    assert_eq!(m.aggregation, AGGREGATION_COHORT_COMPOSITE);
    assert_ne!(m.aggregation, AGGREGATION);
    let cohort = m.cohort.as_ref().unwrap();
    assert_eq!(cohort.scored_batch_size, 8);
    assert_eq!(cohort.cohort_sha256, sha(99));
    assert_eq!(cohort.member_count, 8);
    assert_eq!(val(&cohort.prefill_gain), 4.0);
    assert_eq!(val(&cohort.decode_gain), 2.0);
    assert_eq!(m.timed_mode, TIMED_MODE_BATCHED_FREE_RUN_V1_2_B8);
    assert_eq!(val(&cohort.prefill_gain_exponent), 0.25);
    assert_eq!(val(&cohort.decode_gain_exponent), 0.75);
}

#[test]
fn a_batched_regime_at_another_width_is_still_refused() {
    for tag in ["batched_free_run_v1_2_b1", "batched_free_run_v1_2_b16"] {
        let mut r = identity_cohort();
        r.timed_mode = tag.to_string();
        r.timed_series.serial_leg_timed_mode = tag.to_string();
        r.timed_series.candidate_leg_timed_mode = tag.to_string();
        for p in r.pairs.iter_mut() {
            p.serial_timed_mode = tag.to_string();
            p.candidate_timed_mode = tag.to_string();
        }
        let err = merge_matched(&passing_gates(), &r, None, None, &pooln(8)).unwrap_err();
        assert!(
            err.contains("is not a known timed series"),
            "{tag} must still be refused as an unknown series: {err}"
        );
    }
}

#[test]
fn a_cohort_leg_crossed_with_another_width_is_refused() {
    let mut r = identity_cohort();
    r.timed_series.serial_leg_timed_mode = "batched_free_run_v1_2_b1".to_string();
    let err = merge_matched(&passing_gates(), &r, None, None, &pooln(8)).unwrap_err();
    assert!(err.contains("is not a known timed series"), "{err}");
}

#[test]
fn results_shape_refuses_a_tag_it_does_not_know() {
    for (tag, expected) in [
        (TIMED_MODE_TEACHER_FORCED_V1, ResultsShape::SingleStream),
        (TIMED_MODE_FREE_RUN_V1_1, ResultsShape::SingleStream),
        (
            TIMED_MODE_BATCHED_FREE_RUN_V1_2_B8,
            ResultsShape::Cohort {
                batch_size: SCORED_BATCH_SIZE_B8,
            },
        ),
    ] {
        let mut r = results_with(1.0, vec![1.0]);
        r.timed_series.candidate_leg_timed_mode = tag.to_string();
        assert_eq!(results_shape(&r).unwrap(), expected, "tag {tag}");
    }

    for tag in [
        "batched_free_run_v1_2_b16",
        "free_run_v2",
        "",
        "teacher_forced_v1_x",
    ] {
        let mut r = results_with(1.0, vec![1.0]);
        r.timed_series.candidate_leg_timed_mode = tag.to_string();
        let err = results_shape(&r).unwrap_err();
        assert!(
            err.contains("is not a known timed series"),
            "tag {tag:?} must be refused by name: {err}"
        );
    }
}

#[test]
fn the_unknown_series_refusal_names_every_accepted_tag() {
    let mut r = results_with(1.0, vec![1.0]);
    r.timed_series.candidate_leg_timed_mode = "free_run_v2".to_string();
    let err = validate_series(&r, None).unwrap_err();
    for tag in [
        TIMED_MODE_TEACHER_FORCED_V1,
        TIMED_MODE_FREE_RUN_V1_1,
        TIMED_MODE_BATCHED_FREE_RUN_V1_2_B8,
    ] {
        assert!(
            err.contains(tag),
            "the refusal must name the accepted tag {tag}: {err}"
        );
    }
}

#[test]
fn a_cohort_series_with_no_cohort_records_is_refused() {
    let mut r = identity_cohort();
    r.per_cohort.clear();
    let err = merge_matched(&passing_gates(), &r, None, None, &pooln(8)).unwrap_err();
    assert!(
        err.contains("per_cohort is empty"),
        "an empty per_cohort must be named: {err}"
    );
}

#[test]
fn a_shape_that_contradicts_its_own_series_tag_is_refused() {
    let mut cohort_with_per_prompt = identity_cohort();
    cohort_with_per_prompt.per_prompt = vec![per_prompt(0, 1.0, 1)];
    let err = merge_matched(
        &passing_gates(),
        &cohort_with_per_prompt,
        None,
        None,
        &pooln(8),
    )
    .unwrap_err();
    assert!(
        err.contains("per_prompt record(s) on a COHORT series"),
        "{err}"
    );

    let mut single_with_cohort = pool_results(&[1.0; 8]);
    single_with_cohort.per_cohort = identity_cohort().per_cohort;
    let err =
        merge_matched(&passing_gates(), &single_with_cohort, None, None, &pooln(8)).unwrap_err();
    assert!(
        err.contains("per_cohort record(s) on a SINGLE-STREAM series"),
        "{err}"
    );
}

#[test]
fn a_cohort_without_a_composite_is_refused() {
    let mut r = identity_cohort();
    r.per_cohort[0].composite = None;
    r.per_cohort[0].composite_absent_reason =
        Some("zero accepted pairs for the shared window".to_string());
    let err = merge_matched(&passing_gates(), &r, None, None, &pooln(8)).unwrap_err();
    assert!(err.contains("composite is absent"), "{err}");
    assert!(
        err.contains("zero accepted pairs for the shared window"),
        "the producer's own reason must be echoed: {err}"
    );

    let mut bare = identity_cohort();
    bare.per_cohort[0].composite = None;
    let err = merge_matched(&passing_gates(), &bare, None, None, &pooln(8)).unwrap_err();
    assert!(err.contains("composite is absent"), "{err}");
    assert!(err.contains("<none sealed>"), "{err}");
}

#[test]
fn a_cohort_sealing_both_a_composite_and_an_absent_reason_is_refused() {
    let mut r = identity_cohort();
    r.per_cohort[0].composite_absent_reason = Some("but here is a composite anyway".to_string());
    let err = merge_matched(&passing_gates(), &r, None, None, &pooln(8)).unwrap_err();
    assert!(
        err.contains("BOTH a composite and a composite_absent_reason"),
        "{err}"
    );
    assert!(
        err.contains("(Some(\"but here is a composite anyway\"))"),
        "{err}"
    );
}

#[test]
fn a_composite_incoherent_with_its_own_gains_is_refused() {
    let mut r = identity_cohort();
    let c = r.per_cohort[0].composite.as_mut().unwrap();
    let inflated = val(&c.composite_score) * 1.5;
    c.composite_score = num(inflated);
    c.composite_speedup_floor_met = inflated >= FLOOR;
    let err = merge_matched(&passing_gates(), &r, None, None, &pooln(8)).unwrap_err();
    assert!(err.contains("composite coherence failed"), "{err}");
}

#[test]
fn a_cohort_declaring_its_own_scoring_exponents_is_refused() {
    let mut r = identity_cohort();
    r.per_cohort[0].composite_scored_exponents = Some(ScoredExponentsView {
        prefill_gain_exponent: num(0.75),
        decode_gain_exponent: num(0.25),
    });
    let err = merge_matched(&passing_gates(), &r, None, None, &pooln(8)).unwrap_err();
    assert!(err.contains("RULED pair"), "{err}");

    let mut absent = identity_cohort();
    absent.per_cohort[0].composite_scored_exponents = None;
    let err = merge_matched(&passing_gates(), &absent, None, None, &pooln(8)).unwrap_err();
    assert!(
        err.contains("composite_scored_exponents is absent"),
        "{err}"
    );
}

#[test]
fn a_cohort_composite_below_the_floor_publishes_no_score() {
    let r = cohort_results(0.25, 0.25, &[2.0, 2.0]);
    let out = merge_matched(&passing_gates(), &r, None, None, &pooln(8))
        .expect("a floor failure is AUTHORED INTO the score, not an Err");
    assert!(!out.passed, "a sub-floor composite must not pass");
    assert!(
        out.score.is_none(),
        "a sub-floor composite publishes no score"
    );
    assert!(!out.merged.payload.passed);
    assert_eq!(sealed_score(&out), 0.0);
    let err = out.merged.payload.metrics.error.as_str();
    assert!(
        err.starts_with("performance floor failed ("),
        "the live floor prefix is load-bearing: {err}"
    );
    assert!(
        !out.merged.payload.metrics.passed_decode_speedup_floor,
        "the floor flag must agree with the verdict"
    );
}

#[test]
fn a_cohort_that_rewrites_its_own_floor_or_verdict_is_refused() {
    let mut lowered = identity_cohort();
    lowered.per_cohort[0]
        .composite
        .as_mut()
        .unwrap()
        .composite_speedup_floor = num(0.10);
    let err = merge_matched(&passing_gates(), &lowered, None, None, &pooln(8)).unwrap_err();
    assert!(err.contains("!= the track floor"), "{err}");

    let mut stamped = cohort_results(0.25, 0.25, &[2.0, 2.0]);
    stamped.per_cohort[0]
        .composite
        .as_mut()
        .unwrap()
        .composite_speedup_floor_met = true;
    let err = merge_matched(&passing_gates(), &stamped, None, None, &pooln(8)).unwrap_err();
    assert!(
        err.contains("disagrees with the recomputed verdict"),
        "{err}"
    );
}

#[test]
fn the_existing_refusals_all_still_fire_on_a_cohort_run() {
    let mut g = passing_gates();
    g.metrics.harness_hash = String::new();
    let err = merge_matched(&g, &identity_cohort(), None, None, &pooln(8)).unwrap_err();
    assert!(err.contains("empty metrics.harness_hash"), "{err}");

    let mut g = passing_gates();
    g.metrics.harness_hash = "not-a-digest".to_string();
    let err = merge_matched(&g, &identity_cohort(), None, None, &pooln(8)).unwrap_err();
    assert!(err.contains("malformed metrics.harness_hash"), "{err}");

    let mut r = identity_cohort();
    r.candidate_accepted = false;
    let err = merge_matched(&passing_gates(), &r, None, None, &pooln(8)).unwrap_err();
    assert!(err.contains("candidate_accepted != true"), "{err}");

    let r = cohort_results(4.0, 2.0, &[2.0, 99.0]);
    let out = merge_matched(&passing_gates(), &r, None, None, &pooln(8))
        .expect("a bound failure is authored into the score");
    assert!(!out.passed && out.score.is_none());
    assert!(
        out.merged
            .payload
            .metrics
            .error
            .contains("per-pair plausibility bound"),
        "{}",
        out.merged.payload.metrics.error
    );

    let mut r = identity_cohort();
    r.per_cohort[0].parity_ok = false;
    let err = merge_matched(&passing_gates(), &r, None, None, &pooln(8)).unwrap_err();
    assert!(err.contains("per_cohort[0].parity_ok != true"), "{err}");

    let mut r = identity_cohort();
    r.commit = "cafebabe".to_string();
    let err = merge_matched(&passing_gates(), &r, None, None, &pooln(8)).unwrap_err();
    assert!(err.contains("commit mismatch"), "{err}");
}

#[test]
fn a_cohort_whose_sealed_median_disagrees_with_its_pairs_is_refused() {
    let mut r = identity_cohort();
    r.aggregate.raw_decode_speedup_median = num(3.5);
    let err = merge_matched(&passing_gates(), &r, None, None, &pooln(8)).unwrap_err();
    assert!(err.contains("sealed-median agreement failed"), "{err}");
}

#[test]
fn cohort_member_identity_predicates_are_enforced() {
    let mut short = identity_cohort();
    short.per_cohort[0].members.truncate(3);
    let err = merge_matched(&passing_gates(), &short, None, None, &pooln(8)).unwrap_err();
    assert!(
        err.contains("members.len") && err.contains("pool_size"),
        "{err}"
    );

    let mut dup = identity_cohort();
    dup.per_cohort[0].members[7].prompt_sha256 = sha(0);
    let err = merge_matched(&passing_gates(), &dup, None, None, &pooln(8)).unwrap_err();
    assert!(err.contains("not all distinct"), "{err}");

    let mut bad_sha = identity_cohort();
    bad_sha.per_cohort[0].members[2].prompt_sha256 = "NOTHEX".to_string();
    let err = merge_matched(&passing_gates(), &bad_sha, None, None, &pooln(8)).unwrap_err();
    assert!(err.contains("is not 64 lowercase hex"), "{err}");

    let mut scrambled = identity_cohort();
    scrambled.per_cohort[0].members[4].slot_index = 6;
    let err = merge_matched(&passing_gates(), &scrambled, None, None, &pooln(8)).unwrap_err();
    assert!(err.contains("slot_index"), "{err}");
}

#[test]
fn a_cohort_whose_width_disagrees_with_its_series_tag_is_refused() {
    let mut r = identity_cohort();
    r.per_cohort[0].batch_size = 4;
    let err = merge_matched(&passing_gates(), &r, None, None, &pooln(8)).unwrap_err();
    assert!(err.contains("batch_size"), "{err}");

    let mut r = identity_cohort();
    r.scored_batch_size = Some(4);
    let err = merge_matched(&passing_gates(), &r, None, None, &pooln(8)).unwrap_err();
    assert!(err.contains("scored_batch_size"), "{err}");
}

#[test]
fn the_cohort_accepted_pair_floor_is_counted_per_cohort_not_per_prompt() {
    let pool = PoolExpectation {
        pool_size: 8,
        min_per_prompt: 2,
    };
    let ok = cohort_results(4.0, 2.0, &[2.0, 2.0]);
    assert_eq!(
        pool.min_pairs_for(ResultsShape::Cohort { batch_size: 8 }),
        2
    );
    assert_eq!(pool.min_pairs_for(ResultsShape::SingleStream), 16);
    merge_matched(&passing_gates(), &ok, None, None, &pool)
        .expect("two accepted cohort pairs clear a min-2 per-unit floor");

    let short = cohort_results(4.0, 2.0, &[2.0]);
    let err = merge_matched(&passing_gates(), &short, None, None, &pool).unwrap_err();
    assert!(err.contains("cohort min_pairs"), "{err}");
}

#[test]
fn cohort_means_must_be_positive() {
    for mutate in [
        |c: &mut PerCohortView| c.serial_seconds_per_token_mean = num(0.0),
        |c: &mut PerCohortView| c.candidate_seconds_per_token_mean = num(f64::NAN),
        |c: &mut PerCohortView| c.raw_ratio_of_means = num(-1.0),
    ] {
        let mut r = identity_cohort();
        mutate(&mut r.per_cohort[0]);
        let err = merge_matched(&passing_gates(), &r, None, None, &pooln(8)).unwrap_err();
        assert!(err.contains("is not > 0"), "{err}");
    }
}

fn other_well_formed_identity() -> HarnessIdentity {
    let hash = "b".repeat(64);
    assert_ne!(
        hash, TEST_HASH,
        "the mismatch fixture must differ from the matching leg"
    );
    assert!(is_well_formed_harness_hash(&hash));
    HarnessIdentity { hash }
}

#[test]
fn honest_run_matching_harness_legs_publishes_on_both_shapes() {
    let single = merge_matched(
        &passing_gates(),
        &results_with(1.0, vec![1.0]),
        None,
        None,
        &pool1(),
    )
    .expect("matching harness legs must publish on the single-stream shape");
    assert!(single.passed, "the honest single-stream run must pass");
    assert!(single.score.is_some(), "the honest run must carry a score");

    let cohort = merge_matched(&passing_gates(), &identity_cohort(), None, None, &pooln(8))
        .expect("matching harness legs must publish on the cohort shape");
    assert!(cohort.passed, "the honest cohort run must pass");
    assert!(cohort.score.is_some(), "the honest run must carry a score");
}

#[test]
fn differing_well_formed_harness_legs_are_refused_on_both_shapes() {
    let other = other_well_formed_identity();
    for (shape, results, pool) in [
        ("per_prompt", results_with(1.0, vec![1.0]), pool1()),
        ("per_cohort", identity_cohort(), pooln(8)),
    ] {
        let err = merge_overlay_against_harness(
            &passing_gates(),
            &results,
            None,
            None,
            &pool,
            &other,
            &figures(&results),
        )
        .expect_err("a seal under a DIFFERENT harness must be refused");
        assert!(
            err.contains("cross-leg harness-identity mismatch"),
            "{shape}: the refusal must be the cross-leg one: {err}"
        );
        assert!(
            err.contains(&TEST_HASH[..HARNESS_DIGEST_PREVIEW_LEN]),
            "{shape}: the refusal must name the GATES digest: {err}"
        );
        assert!(
            err.contains(&"b".repeat(HARNESS_DIGEST_PREVIEW_LEN)),
            "{shape}: the refusal must name the SEAL digest: {err}"
        );
        assert!(
            !err.contains(TEST_HASH),
            "{shape}: the refusal must TRUNCATE, not transcribe the identity: {err}"
        );
        assert!(
            err.contains("CHANGED BETWEEN PHASES"),
            "{shape}: the refusal must state the between-phase-mutation implication: {err}"
        );
        assert!(
            err.contains("Refusing to publish"),
            "{shape}: the refusal must be fatal in its own words: {err}"
        );
    }
}

#[test]
fn single_leg_wellformedness_still_refuses_first_with_its_own_message() {
    for (label, bad, want) in [
        ("empty", String::new(), "empty metrics.harness_hash"),
        (
            "malformed",
            "zz".repeat(32),
            "malformed metrics.harness_hash",
        ),
    ] {
        let mut g = passing_gates();
        g.metrics.harness_hash = bad;
        let r = results_with(1.0, vec![1.0]);
        let err = merge_overlay_against_harness(
            &g,
            &r,
            None,
            None,
            &pool1(),
            &other_well_formed_identity(),
            &figures(&r),
        )
        .expect_err("an ill-formed gates identity is still refused");
        assert!(err.contains(want), "{label}: {err}");
        assert!(
            !err.contains("cross-leg harness-identity mismatch"),
            "{label}: the cheap single-leg gate must refuse FIRST: {err}"
        );
    }
}

#[test]
fn seal_time_resolution_failure_refuses_and_names_the_missing_root() {
    let cause = "harnessHash root missing from disk: Package.swift".to_string();
    let refusal = seal_resolution_refusal(cause);
    assert!(
        refusal.contains("harnessHash root missing from disk"),
        "the seal refusal must carry the fail-closed cause verbatim: {refusal}"
    );
    assert!(
        refusal.contains("AT THE SEAL"),
        "the refusal must say WHERE it fired: {refusal}"
    );
    assert!(
        refusal.contains("refuses to publish"),
        "resolution failure must be a refusal, never a skip: {refusal}"
    );
    let r = results_with(1.0, vec![1.0]);
    let err = merge_overlay(
        &passing_gates(),
        &r,
        None,
        None,
        &pool1(),
        Err("harnessHash root missing from disk: Package.swift".to_string()),
        &figures(&r),
    )
    .unwrap_err();
    assert_eq!(err, refusal);
}

#[test]
fn digest_preview_truncates_to_twelve_and_never_panics() {
    assert_eq!(digest_preview(TEST_HASH).len(), 12);
    assert!(TEST_HASH.starts_with(digest_preview(TEST_HASH)));
    assert_eq!(digest_preview("abc"), "abc");
    assert_eq!(digest_preview(""), "");
}

#[test]
fn digest_preview_counts_characters() {
    assert_eq!(digest_preview("éééééééééééééé"), "éééééééééééé");
}

#[test]
fn merge_overlay_publishes_with_a_resolved_harness() {
    let r = results_with(1.25, vec![1.25]);
    let out = merge_overlay(
        &passing_gates(),
        &r,
        None,
        None,
        &pool1(),
        Ok(test_identity()),
        &figures(&r),
    )
    .unwrap();
    assert_eq!(score_of(&out), 1.25);
    assert_eq!(out.merged.payload.metrics.case_count, 12);
    assert_eq!(out.merged.payload.metrics.checked_steps, 34);
    assert_eq!(out.merged.payload.metrics.harness_hash, TEST_HASH);
    assert_eq!(val(&out.merged.payload.metrics.peak_ram_gb), 20.25);
    assert!(out.merged.cohort.is_none());
}

#[test]
fn prepare_overlay_names_the_samples_of_each_shape() {
    let single = pool_results(&[1.0, 2.0, 3.0, 4.0]);
    let plan = prepare_overlay(
        &passing_gates(),
        &single,
        None,
        None,
        &pooln(4),
        &test_identity(),
        &composite_figures(&single),
    )
    .unwrap();
    assert_eq!(plan.shape, ResultsShape::SingleStream);
    assert_eq!(sample_values(&plan.agreement), vec![1.0, 2.0, 3.0, 4.0]);
    assert_eq!(sample_values(&plan.published), vec![1.0, 2.0, 3.0, 4.0]);
    assert_eq!(plan.pair_ratios.len(), 4);
    assert!(plan.cohort.is_none());

    let cohort = cohort_results(4.0, 2.0, &[2.0, 3.0]);
    let plan = prepare_overlay(
        &passing_gates(),
        &cohort,
        None,
        None,
        &pooln(8),
        &test_identity(),
        &composite_figures(&cohort),
    )
    .unwrap();
    assert_eq!(sample_values(&plan.agreement), vec![2.0, 3.0]);
    assert_eq!(sample_values(&plan.published), vec![2f64.powf(1.25)]);
    let f = figures(&cohort);
    let out = finish_overlay(
        &passing_gates(),
        &cohort,
        plan,
        &f.recomputed_median,
        &f.median_gap,
        &f.paired,
    )
    .unwrap();
    assert_eq!(out.merged.cohort.unwrap().member_count, 8);
}

#[test]
fn a_median_that_is_no_number_is_refused() {
    let r = results_with(1.0, vec![1.0]);
    let mut f = figures(&r);
    f.recomputed_median = num(f64::NAN);
    let err = merge_overlay_against_harness(
        &passing_gates(),
        &r,
        None,
        None,
        &pool1(),
        &test_identity(),
        &f,
    )
    .unwrap_err();
    assert!(err.contains("is not finite (NaN); refusing to score"), "{err}");
}

#[test]
fn a_gates_diagnostic_below_zero_is_raised_to_zero() {
    let mut g = passing_gates();
    g.metrics.benchmark_wall_seconds = num(-3.0);
    g.metrics.peak_ram_gb = num(f64::NAN);
    let r = results_with(1.0, vec![1.0]);
    let out = merge_matched(&g, &r, None, None, &pool1()).unwrap();
    assert_eq!(val(&out.merged.payload.metrics.benchmark_wall_seconds), 0.0);
    assert_eq!(val(&out.merged.payload.metrics.peak_ram_gb), 0.0);
}

#[test]
fn overlay_error_messages_are_the_live_texts() {
    assert_eq!(
        overlay_error_message(&PairedDecodeFailure::Other {
            message: "anything".to_string()
        }),
        "anything"
    );
    assert_eq!(
        overlay_error_message(&PairedDecodeFailure::Floor {
            median: num(0.5),
            floor: num(0.9)
        }),
        "performance floor failed (qwen-mtp raw serial-relative median 0.5 below floor 0.9)"
    );
}

#[test]
fn every_gates_refusal_has_its_text() {
    let texts = [
        "passed != true",
        "partial_result != true",
        "non-empty metrics.error (\"bo\\\"om\")",
        "passed_correctness != true",
        "got length 6",
    ];
    let mut cases = Vec::new();
    let mut g = passing_gates();
    g.passed = false;
    cases.push(g);
    let mut g = passing_gates();
    g.metrics.partial_result = false;
    cases.push(g);
    let mut g = passing_gates();
    g.metrics.error = "bo\"om".to_string();
    cases.push(g);
    let mut g = passing_gates();
    g.metrics.passed_correctness = false;
    cases.push(g);
    let mut g = passing_gates();
    g.metrics.harness_hash = "abc123".to_string();
    cases.push(g);
    for (g, text) in cases.iter().zip(texts) {
        let err = validate_gates(g).unwrap_err();
        assert!(err.contains(text), "{text}: {err}");
    }
    assert!(validate_gates(&passing_gates()).is_ok());
}

#[test]
fn a_matching_leg_is_accepted_and_another_is_not() {
    let g = passing_gates();
    assert!(validate_harness_identity_cross_leg(&g, &test_identity()).is_ok());
    assert!(validate_harness_identity_cross_leg(&g, &other_well_formed_identity()).is_err());
    let resolved = resolve_seal_harness_identity(Ok(test_identity())).unwrap();
    assert_eq!(resolved.as_str(), TEST_HASH);
}

#[test]
fn every_per_prompt_quantity_must_be_positive() {
    for (label, mutate) in [
        (
            "per_prompt[0].serial_seconds_per_token_mean (-0.5) is not > 0",
            (|p: &mut PerPromptView| p.serial_seconds_per_token_mean = num(-0.5))
                as fn(&mut PerPromptView),
        ),
        ("per_prompt[0].mtp_seconds_per_token_mean (inf)", |p| {
            p.mtp_seconds_per_token_mean = num(f64::INFINITY)
        }),
        ("per_prompt[0].raw_ratio_of_means (0)", |p| {
            p.raw_ratio_of_means = num(-0.0);
            p.raw_ratio_of_means.display = "0".to_string();
        }),
        ("accepted_pair_count (0) < min_per_prompt (1)", |p| {
            p.accepted_pair_count = 0
        }),
    ] {
        let mut r = results_with(1.0, vec![1.0]);
        mutate(&mut r.per_prompt[0]);
        let err = validate_results(&r, None, None, &pool1(), &composite_figures(&r)).unwrap_err();
        assert!(err.contains(label), "{label}: {err}");
    }
}

#[test]
fn every_diagnostic_must_be_finite() {
    for (label, mutate) in [
        (
            "mtp_decode_speedup_median",
            (|a: &mut AggregateView| a.mtp_decode_speedup_median = num(f64::NAN))
                as fn(&mut AggregateView),
        ),
        ("mtp_decode_speedup_min", |a| {
            a.mtp_decode_speedup_min = num(f64::NEG_INFINITY)
        }),
        ("raw_decode_speedup_median", |a| {
            a.raw_decode_speedup_median = num(f64::INFINITY)
        }),
    ] {
        let mut r = results_with(1.0, vec![1.0]);
        mutate(&mut r.aggregate);
        let err = validate_results(&r, None, None, &pool1(), &composite_figures(&r)).unwrap_err();
        assert!(
            err.contains(label) && err.contains("is not a finite number"),
            "{label}: {err}"
        );
    }
    let mut r = results_with(1.0, vec![1.0]);
    r.aggregate.candidate_mtp_seconds_per_token_mean = num(-1.0);
    let err = validate_results(&r, None, None, &pool1(), &composite_figures(&r)).unwrap_err();
    assert!(err.contains("candidate_mtp_seconds_per_token_mean (-1)"), "{err}");
}

#[test]
fn cohort_refusals_name_what_is_wrong() {
    let mut two = identity_cohort();
    two.per_cohort.push(identity_cohort().per_cohort.remove(0));
    let err = merge_matched(&passing_gates(), &two, None, None, &pooln(8)).unwrap_err();
    assert!(err.contains("per_cohort.len (2) != 1"), "{err}");

    let mut r = identity_cohort();
    r.per_cohort[0].accepted_pair_count = 1;
    let err = merge_matched(&passing_gates(), &r, None, None, &pooln(8)).unwrap_err();
    assert!(err.contains("(1) != accepted_pair_count (2)"), "{err}");

    let mut r = identity_cohort();
    r.per_cohort[0].accepted_pair_count = 0;
    let err = merge_matched(&passing_gates(), &r, None, None, &pooln(8)).unwrap_err();
    assert!(err.contains("(0) < min_per_unit (1)"), "{err}");

    let mut r = identity_cohort();
    r.per_cohort[0].cohort_sha256 = "xyz".to_string();
    let err = merge_matched(&passing_gates(), &r, None, None, &pooln(8)).unwrap_err();
    assert!(err.contains("cohort_sha256 (\"xyz\")"), "{err}");
}

#[test]
fn composite_parts_are_checked_before_the_exponents() {
    let figures = CompositeFigures {
        recomputed: num(2f64.powf(1.25)),
        relative_gap: num(0.0),
    };
    for (label, mutate) in [
        (
            "composite.prefill_gain (0)",
            (|c: &mut CompositeView| c.prefill_gain = num(0.0)) as fn(&mut CompositeView),
        ),
        ("composite.decode_gain (NaN)", |c| c.decode_gain = num(f64::NAN)),
        ("composite.composite_score (-2)", |c| {
            c.composite_score = num(-2.0)
        }),
    ] {
        let mut r = identity_cohort();
        r.per_cohort[0].composite_scored_exponents = None;
        mutate(r.per_cohort[0].composite.as_mut().unwrap());
        let err = validate_cohort_composite(&r.per_cohort[0], &figures).unwrap_err();
        assert!(err.contains(label), "{label}: {err}");
    }
    let r = identity_cohort();
    assert!(validate_cohort_composite(&r.per_cohort[0], &figures).is_ok());
    let underivable = CompositeFigures {
        recomputed: num(f64::INFINITY),
        relative_gap: num(f64::NAN),
    };
    let err = validate_cohort_composite(&r.per_cohort[0], &underivable).unwrap_err();
    assert!(err.contains("is not a finite value > 0 (inf)"), "{err}");
}

#[test]
fn the_sealed_constants_are_the_tracks() {
    assert_eq!(f64::from_bits(DECODE_SPEEDUP_FLOOR_BITS), 0.90);
    assert_eq!(f64::from_bits(DECODE_SPEEDUP_CEILING_BITS), 5.0);
    assert_eq!(
        f64::from_bits(benchctl::overlay::composite::PREFILL_GAIN_EXPONENT_BITS),
        0.25
    );
    assert_eq!(
        f64::from_bits(benchctl::overlay::composite::DECODE_GAIN_EXPONENT_BITS),
        0.75
    );
    assert_eq!(
        f64::from_bits(benchctl::overlay::composite::COMPOSITE_COHERENCE_REL_EPS_BITS),
        1e-9
    );
    assert_eq!(
        f64::from_bits(benchctl::overlay::composite::SEALED_MEDIAN_AGREEMENT_EPS_BITS),
        1e-7
    );
}

#[test]
fn distinct_texts_are_counted_once() {
    let v: Vec<String> = ["a", "b", "a", "c", "b"].iter().map(|s| s.to_string()).collect();
    assert_eq!(distinct_count(&v), 3);
    assert_eq!(distinct_count(&Vec::new()), 0);
}

#[test]
fn a_pool_floor_saturates() {
    let pool = PoolExpectation {
        pool_size: usize::MAX,
        min_per_prompt: 2,
    };
    assert_eq!(pool.min_pairs_for(ResultsShape::SingleStream), usize::MAX);
    assert_eq!(pool.min_pairs_for(ResultsShape::Cohort { batch_size: 8 }), 2);
}

fn shown(leaf: &Leaf) -> String {
    match leaf {
        Leaf::Text { text } => format!("{text:?}"),
        Leaf::Flag { flag } => flag.to_string(),
        Leaf::Count { count } => count.to_string(),
        Leaf::Figure { figure } => figure.debug.clone(),
    }
}

fn document_lines(out: &OverlayOutcome) -> Vec<String> {
    let mut lines = Vec::new();
    for (name, member) in merged_members(&out.merged) {
        match member {
            Member::Value { value } => lines.push(format!("{name}={}", shown(&value))),
            Member::Block { block } => {
                for (inner, leaf) in block {
                    lines.push(format!("{name}.{inner}={}", shown(&leaf)));
                }
            }
        }
    }
    lines
}

#[test]
fn a_single_stream_score_adds_its_discriminators() {
    let r = results_with(1.5, vec![1.5]);
    let out = merge_matched(&passing_gates(), &r, None, None, &pool1()).unwrap();
    assert_eq!(
        document_lines(&out),
        vec![
            "scoring_mode=\"qwen-native-mtp-paired-decode-only\"",
            "aggregation=\"median_of_per_prompt_raw_ratio_of_means\"",
            "decode_speedup_ceiling=5.0",
            "passed_decode_speedup_ceiling=true",
            "timed_mode=\"teacher_forced_v1\"",
            "timed_series.serial_leg_timed_mode=\"teacher_forced_v1\"",
            "timed_series.candidate_leg_timed_mode=\"teacher_forced_v1\"",
            "timed_series.homogeneous=true",
            "timed_series.legs_comparable=true",
        ]
    );
}

#[test]
fn a_cohort_score_names_its_width_and_its_cohort() {
    let out = merge_matched(&passing_gates(), &identity_cohort(), None, None, &pooln(8)).unwrap();
    let lines = document_lines(&out);
    let composite = format!("{:?}", composite_of(4.0, 2.0).composite_score.debug);
    assert_eq!(lines[1], "aggregation=\"shared_window_composite_prefill_decode_gain\"");
    assert_eq!(
        lines[9..],
        vec![
            "scored_batch_size=8".to_string(),
            format!("cohort.cohort_sha256={:?}", sha(99)),
            "cohort.member_count=8".to_string(),
            "cohort.prefill_gain=4.0".to_string(),
            "cohort.decode_gain=2.0".to_string(),
            format!("cohort.composite_score={}", composite.trim_matches('"')),
            "cohort.composite_speedup_floor=0.9".to_string(),
            "cohort.composite_speedup_floor_met=true".to_string(),
            "cohort.prefill_gain_exponent=0.25".to_string(),
            "cohort.decode_gain_exponent=0.75".to_string(),
        ]
    );
}

#[test]
fn sealed_ratios_above_zero_decide_nothing() {
    let honest = pool_results(&[1.5, 1.5, 1.5]);
    let mut stamped = pool_results(&[1.5, 1.5, 1.5]);
    for (i, p) in stamped.per_prompt.iter_mut().enumerate() {
        p.raw_ratio_of_means = num(4.0 + i as f64);
    }
    let plan = |r: &ResultsView| {
        prepare_overlay(
            &passing_gates(),
            r,
            None,
            None,
            &pooln(3),
            &test_identity(),
            &composite_figures(r),
        )
        .unwrap()
    };
    assert_eq!(
        sample_values(&plan(&honest).published),
        sample_values(&plan(&stamped).published)
    );
    let a = merge_matched(&passing_gates(), &honest, None, None, &pooln(3)).unwrap();
    let b = merge_matched(&passing_gates(), &stamped, None, None, &pooln(3)).unwrap();
    assert_eq!(format!("{a:?}"), format!("{b:?}"));
}
