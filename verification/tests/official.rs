use benchctl::commit::{
    author_sealed_commit, commit_agrees_with_record, commit_identifier, dispatch_record,
    git_short_head, is_commit_sha_hex, is_dispatch_record_sha,
};
use benchctl::number::Number;
use benchctl::official::{
    benchmark_requires_runtime_worker, finish_official, official_core,
    official_correctness_failure, official_gates_only, official_resolved_baselines,
    paired_baseline_from_env, parse_finite_positive, AnchorVerdict, CorrectnessOutcome,
    CorrectnessReport, FirstFailure, GatesSeal, GoldenSummary, OfficialSeal, TimedEvaluation,
    TimedOutcome, DECODE_KEY, DECODE_TOKEN_LABEL, PREFILL_KEY,
};
use benchctl::overlay::gates::{is_well_formed_harness_hash, validate_gates};
use benchctl::payload::{gates_payload, needs_timing, official_gates_failed, official_payload};
use benchctl::score::{ScoreMetrics, ScorePayload};

const TEST_HASH: &str = "0f1e2d3c4b5a69788796a5b4c3d2e1f00f1e2d3c4b5a69788796a5b4c3d2e1f0";
const GOLDEN_HASH: &str = "4444444444444444444444444444444444444444444444444444444444444444";
const CORRECTNESS_STEPS: i64 = 64;
const BASELINE_PREFILL: f64 = 0.0011;
const BASELINE_DECODE: f64 = 0.0381;

fn num(x: f64) -> Number {
    Number {
        bits: x.to_bits(),
        display: x.to_string(),
        debug: format!("{x:?}"),
    }
}

fn val(n: &Number) -> f64 {
    f64::from_bits(n.bits)
}

/// The metrics that every payload of a run starts from.
fn base_metrics() -> ScoreMetrics {
    ScoreMetrics {
        partial_result: false,
        passed_correctness: false,
        error: String::new(),
        harness_hash: TEST_HASH.to_string(),
        commit: String::new(),
        weights_hash: "w-hash".to_string(),
        golden_hash: GOLDEN_HASH.to_string(),
        runtime: "rust".to_string(),
        case_count: 0,
        checked_steps: 0,
        first_failing_case: None,
        first_failing_step: None,
        expected_token: None,
        actual_token: None,
        decode_seconds_per_token: num(0.0),
        prefill_seconds_per_token: num(0.0),
        baseline_decode_seconds_per_token: num(0.0),
        baseline_prefill_seconds_per_token: num(0.0),
        decode_speedup: num(0.0),
        prefill_speedup: num(0.0),
        decode_speedup_floor: num(0.95),
        prefill_speedup_floor: num(0.95),
        passed_decode_speedup_floor: false,
        passed_prefill_speedup_floor: false,
        benchmark_wall_seconds: num(0.0),
        peak_ram_gb: num(0.0),
    }
}

/// The metrics of a run that was timed.
fn timed_metrics(prefill: f64, decode: f64) -> ScoreMetrics {
    let mut m = base_metrics();
    m.decode_seconds_per_token = num(decode);
    m.prefill_seconds_per_token = num(prefill);
    m.baseline_decode_seconds_per_token = num(BASELINE_DECODE);
    m.baseline_prefill_seconds_per_token = num(BASELINE_PREFILL);
    m.decode_speedup = num(BASELINE_DECODE / decode);
    m.prefill_speedup = num(BASELINE_PREFILL / prefill);
    m.passed_decode_speedup_floor = true;
    m.passed_prefill_speedup_floor = true;
    m.benchmark_wall_seconds = num(2.5);
    m.peak_ram_gb = num(20.25);
    m
}

fn golden(cases: i64) -> GoldenSummary {
    GoldenSummary {
        has_benchmark: true,
        baseline_prefill_seconds_per_token: None,
        baseline_decode_seconds_per_token: None,
        behavior_cases: None,
        total_case_count: cases,
    }
}

fn golden_with_baselines(prefill: f64, decode: f64) -> GoldenSummary {
    let mut g = golden(1);
    g.baseline_prefill_seconds_per_token = Some(num(prefill));
    g.baseline_decode_seconds_per_token = Some(num(decode));
    g
}

fn golden_without_oracle() -> GoldenSummary {
    let mut g = golden(1);
    g.has_benchmark = false;
    g
}

fn judged(
    passed: bool,
    checked_steps: i64,
    first_failure: Option<FirstFailure>,
    anchors: Vec<(&str, bool)>,
) -> CorrectnessOutcome {
    CorrectnessOutcome::Judged {
        report: CorrectnessReport {
            passed,
            checked_steps,
            first_failure,
            anchors: anchors
                .into_iter()
                .map(|(name, passed)| AnchorVerdict {
                    name: name.to_string(),
                    passed,
                })
                .collect(),
        },
    }
}

fn failing(case: &str, step: Option<i64>, is_base_case: bool) -> Option<FirstFailure> {
    Some(FirstFailure {
        case: case.to_string(),
        step,
        is_base_case,
    })
}

/// A run that agrees with its whole golden of one case.
fn conformant() -> CorrectnessOutcome {
    judged(true, CORRECTNESS_STEPS, None, Vec::new())
}

fn error_of(seal: &OfficialSeal) -> String {
    match seal {
        OfficialSeal::Failed { error }
        | OfficialSeal::TimedOracle { error, .. }
        | OfficialSeal::TimedBand { error }
        | OfficialSeal::WithTiming { error }
        | OfficialSeal::Incorrect { error, .. } => error.clone(),
        OfficialSeal::Passed { .. } => String::new(),
    }
}

fn in_band() -> TimedEvaluation {
    TimedEvaluation {
        failure: None,
        score: num(1.0),
    }
}

fn seal_with(
    seal: OfficialSeal,
    golden: &GoldenSummary,
    decode: f64,
    baselines: (f64, f64),
) -> ScorePayload {
    let error = error_of(&seal);
    let metrics = if needs_timing(&seal) {
        timed_metrics(BASELINE_PREFILL, decode)
    } else {
        base_metrics()
    };
    official_payload(
        seal,
        metrics,
        "deadbeef",
        error,
        golden.total_case_count,
        (num(baselines.0), num(baselines.1)),
        (num(baselines.0), num(baselines.1)),
    )
}

fn finish_with(golden: &GoldenSummary, outcome: CorrectnessOutcome) -> ScorePayload {
    let seal = finish_official(in_band(), outcome);
    seal_with(
        seal,
        golden,
        BASELINE_DECODE,
        (BASELINE_PREFILL, BASELINE_DECODE),
    )
}

fn run_official(
    golden: &GoldenSummary,
    timed: TimedOutcome,
    evaluation: TimedEvaluation,
) -> ScorePayload {
    let seal = official_core(golden, timed, evaluation, conformant());
    seal_with(
        seal,
        golden,
        BASELINE_DECODE,
        (BASELINE_PREFILL, BASELINE_DECODE),
    )
}

fn gates_only_with(golden: &GoldenSummary, outcome: CorrectnessOutcome) -> ScorePayload {
    let seal = official_gates_only(outcome);
    let error = match &seal {
        GatesSeal::Failed { error, .. } => error.clone(),
        GatesSeal::Passed { .. } => String::new(),
    };
    let baselines = official_resolved_baselines(
        golden,
        paired_baseline_from_env(None, None, None, None),
        &num(BASELINE_PREFILL),
        &num(BASELINE_DECODE),
    );
    gates_payload(
        seal,
        base_metrics(),
        "deadbeef",
        error,
        golden.total_case_count,
        baselines,
    )
}

fn slow_decode() -> TimedEvaluation {
    TimedEvaluation {
        failure: Some("performance floor failed: decode speedup 0.909 < 0.95".to_string()),
        score: num(0.909),
    }
}

#[test]
fn official_gates_only_conformant_is_partial_result_true_null_score() {
    let golden = golden(1);
    let payload = gates_only_with(&golden, conformant());
    assert!(payload.passed, "error={}", payload.metrics.error);
    assert!(
        payload.metrics.partial_result,
        "gates score must be partial"
    );
    assert!(payload.metrics.passed_correctness);
    assert!(payload.metrics.error.is_empty());
    assert!(payload.score.is_none(), "gates-only score must be null");
    assert_eq!(payload.metrics.commit, "deadbeef");
    assert_eq!(payload.metrics.runtime, "rust");
    assert_eq!(val(&payload.metrics.decode_seconds_per_token), 0.0);
    assert_eq!(val(&payload.metrics.prefill_seconds_per_token), 0.0);
    assert_eq!(val(&payload.metrics.decode_speedup), 0.0);
    assert_eq!(val(&payload.metrics.prefill_speedup), 0.0);
    assert_eq!(
        val(&payload.metrics.baseline_prefill_seconds_per_token),
        BASELINE_PREFILL
    );
    assert_eq!(
        val(&payload.metrics.baseline_decode_seconds_per_token),
        BASELINE_DECODE
    );
    assert_ne!(
        val(&payload.metrics.baseline_prefill_seconds_per_token),
        0.0
    );
    assert_ne!(val(&payload.metrics.baseline_decode_seconds_per_token), 0.0);
    assert_eq!(payload.metrics.case_count, golden.total_case_count);
    assert_eq!(payload.metrics.checked_steps, CORRECTNESS_STEPS);
}

#[test]
fn official_gates_only_seals_the_goldens_declared_baselines() {
    const DECLARED_PREFILL: f64 = 0.000123456;
    const DECLARED_DECODE: f64 = 0.00987654;
    assert_ne!(DECLARED_PREFILL, BASELINE_PREFILL);
    assert_ne!(DECLARED_DECODE, BASELINE_DECODE);
    let golden = golden_with_baselines(DECLARED_PREFILL, DECLARED_DECODE);

    let passing = gates_only_with(&golden, conformant());
    assert!(passing.passed, "error={}", passing.metrics.error);
    assert!(passing.metrics.partial_result);
    assert_eq!(
        val(&passing.metrics.baseline_prefill_seconds_per_token),
        DECLARED_PREFILL
    );
    assert_eq!(
        val(&passing.metrics.baseline_decode_seconds_per_token),
        DECLARED_DECODE
    );

    let failing = gates_only_with(
        &golden,
        CorrectnessOutcome::ConformanceFailed {
            cause: "boom".to_string(),
        },
    );
    assert!(!failing.passed);
    assert!(failing.metrics.partial_result);
    assert_eq!(
        val(&failing.metrics.baseline_prefill_seconds_per_token),
        DECLARED_PREFILL
    );
    assert_eq!(
        val(&failing.metrics.baseline_decode_seconds_per_token),
        DECLARED_DECODE
    );
    assert_eq!(failing.metrics.error, "boom");
}

#[test]
fn official_failed_seals_the_resolved_pair_on_both_branches_that_reach_it() {
    const RESOLVED_PREFILL: f64 = 0.000222222;
    const RESOLVED_DECODE: f64 = 0.00333333;
    const DECLARED_PREFILL: f64 = 0.000123456;
    const DECLARED_DECODE: f64 = 0.00987654;

    let no_oracle = golden_without_oracle();
    let seal = official_core(
        &no_oracle,
        TimedOutcome::Measured,
        in_band(),
        conformant(),
    );
    let a = seal_with(
        seal,
        &no_oracle,
        BASELINE_DECODE,
        (RESOLVED_PREFILL, RESOLVED_DECODE),
    );
    assert!(!a.passed);
    assert_eq!(
        a.metrics.error,
        "benchmark golden file must contain a benchmark oracle"
    );
    assert_eq!(
        val(&a.metrics.baseline_prefill_seconds_per_token),
        RESOLVED_PREFILL
    );
    assert_eq!(
        val(&a.metrics.baseline_decode_seconds_per_token),
        RESOLVED_DECODE
    );

    let with_oracle = golden_with_baselines(DECLARED_PREFILL, DECLARED_DECODE);
    let seal = official_core(
        &with_oracle,
        TimedOutcome::Failed {
            cause: "protocol violation: timed worker spawn failed".to_string(),
        },
        in_band(),
        conformant(),
    );
    let b = seal_with(
        seal,
        &with_oracle,
        BASELINE_DECODE,
        (RESOLVED_PREFILL, RESOLVED_DECODE),
    );
    assert!(!b.passed);
    assert!(
        b.metrics.error.contains("timed worker spawn failed"),
        "{:?}",
        b.metrics.error
    );
    assert_eq!(
        val(&b.metrics.baseline_prefill_seconds_per_token),
        RESOLVED_PREFILL
    );
    assert_eq!(
        val(&b.metrics.baseline_decode_seconds_per_token),
        RESOLVED_DECODE
    );
}

#[test]
fn official_gates_only_correctness_fail_is_failed_but_partial() {
    let payload = gates_only_with(
        &golden(1),
        judged(false, 1, failing("case-a", Some(0), true), Vec::new()),
    );
    assert!(!payload.passed);
    assert!(!payload.metrics.passed_correctness);
    assert!(payload.metrics.partial_result);
    assert!(payload.score.is_none());
    assert!(!payload.metrics.error.is_empty());
    assert_eq!(payload.metrics.error, "teacher-forced token mismatch");
}

#[test]
fn official_conformant_run_passes_with_score_and_commit() {
    let golden = golden(1);
    let payload = finish_with(&golden, conformant());
    assert!(payload.passed, "error={}", payload.metrics.error);
    assert!(payload.metrics.passed_correctness);
    let score = val(payload
        .score
        .as_ref()
        .expect("passing official run has a score"));
    assert!((score - 1.0).abs() < 1e-9, "score={score}");
    assert_eq!(payload.metrics.commit, "deadbeef");
    assert_eq!(payload.metrics.runtime, "rust");
    assert_eq!(payload.metrics.case_count, golden.total_case_count);
    assert_eq!(payload.metrics.checked_steps, CORRECTNESS_STEPS);
    assert_ne!(payload.metrics.checked_steps, golden.total_case_count);
}

#[test]
fn official_passing_checked_steps_is_real_per_case_sum() {
    let golden = golden(4);
    let payload = finish_with(
        &golden,
        judged(
            true,
            64 + 1 + 1 + 5,
            None,
            vec![("anc-1", true), ("anc-2", true)],
        ),
    );
    assert!(payload.passed, "error={}", payload.metrics.error);
    assert!(payload.metrics.passed_correctness);
    assert_eq!(payload.metrics.checked_steps, 71);
    assert_eq!(payload.metrics.case_count, 4);
}

#[test]
fn official_anchor_fail_partial_checked_steps_and_step_zero() {
    let payload = finish_with(
        &golden(4),
        judged(
            false,
            64 + 1,
            failing("anc-1", None, false),
            vec![("anc-1", false)],
        ),
    );
    assert!(!payload.passed);
    assert_eq!(payload.metrics.error, "anchor token mismatch");
    assert_eq!(payload.metrics.first_failing_case.as_deref(), Some("anc-1"));
    assert_eq!(payload.metrics.checked_steps, 65);
    assert_eq!(payload.metrics.first_failing_step, Some(0));
    assert_eq!(payload.metrics.expected_token, None);
    assert_eq!(payload.metrics.actual_token, None);
    assert_eq!(payload.metrics.case_count, 4);
    assert_eq!(payload.metrics.golden_hash, GOLDEN_HASH);
}

#[test]
fn official_free_run_fail_partial_checked_steps() {
    let payload = finish_with(
        &golden(4),
        judged(
            false,
            64 + 1 + 1 + 3,
            failing("fr-1", Some(2), false),
            vec![("anc-1", true), ("anc-2", true)],
        ),
    );
    assert!(!payload.passed);
    assert_eq!(payload.metrics.error, "free-run token mismatch");
    assert_eq!(payload.metrics.first_failing_case.as_deref(), Some("fr-1"));
    assert_eq!(payload.metrics.checked_steps, 69);
    assert_eq!(payload.metrics.first_failing_step, Some(2));
    assert_eq!(payload.metrics.expected_token, None);
    assert_eq!(payload.metrics.actual_token, None);
}

#[test]
fn official_primary_correctness_fail_nulls_tokens() {
    let payload = finish_with(
        &golden(1),
        judged(false, 1, failing("case-a", Some(0), true), Vec::new()),
    );
    assert!(!payload.passed);
    assert_eq!(payload.metrics.error, "teacher-forced token mismatch");
    assert_eq!(
        payload.metrics.first_failing_case.as_deref(),
        Some("case-a")
    );
    assert_eq!(payload.metrics.first_failing_step, Some(0));
    assert_eq!(payload.metrics.expected_token, None);
    assert_eq!(payload.metrics.actual_token, None);
    assert_eq!(payload.metrics.checked_steps, 1);
}

#[test]
fn official_timed_first_orchestration_reaches_band_gate() {
    let payload = run_official(
        &golden(1),
        TimedOutcome::Measured,
        TimedEvaluation {
            failure: Some("acceptance band failed: decode far below the baseline".to_string()),
            score: num(1000.0),
        },
    );
    assert!(!payload.passed);
    assert!(
        payload.metrics.error.starts_with("acceptance band failed:")
            || payload
                .metrics
                .error
                .starts_with("performance floor failed:"),
        "got: {}",
        payload.metrics.error
    );
}

#[test]
fn official_full_scope_evaluates_anchor_gate_unlike_local() {
    let payload = finish_with(
        &golden(2),
        judged(
            false,
            65,
            failing("bad-anchor", None, false),
            vec![("bad-anchor", false)],
        ),
    );
    assert!(!payload.passed);
    assert!(payload.score.is_none());
    assert!(!payload.metrics.passed_correctness);
    assert_eq!(payload.metrics.error, "anchor token mismatch");
    assert_eq!(
        payload.metrics.first_failing_case.as_deref(),
        Some("bad-anchor")
    );
    assert_eq!(payload.metrics.first_failing_step, Some(0));
    assert_eq!(payload.metrics.expected_token, None);
    assert_eq!(payload.metrics.actual_token, None);
    assert_eq!(payload.metrics.checked_steps, 65);
}

#[test]
fn corrupted_benchmark_oracle_fails_official() {
    let payload = run_official(
        &golden(1),
        TimedOutcome::Mismatch {
            label: DECODE_TOKEN_LABEL.to_string(),
            step: 3,
        },
        in_band(),
    );
    assert!(!payload.passed);
    assert!(payload.score.is_none());
    assert_eq!(
        payload.metrics.error,
        "benchmark decode token mismatch at step 3"
    );
    assert_eq!(
        payload.metrics.first_failing_case.as_deref(),
        Some("benchmark")
    );
    assert_eq!(payload.metrics.first_failing_step, Some(3));
    assert_eq!(payload.metrics.expected_token, None);
    assert_eq!(payload.metrics.actual_token, None);
    assert_eq!(payload.metrics.golden_hash, "");
    assert_eq!(payload.metrics.case_count, 0);
    assert_eq!(payload.metrics.checked_steps, 0);
    assert_eq!(
        val(&payload.metrics.baseline_decode_seconds_per_token),
        BASELINE_DECODE
    );
    assert_eq!(
        val(&payload.metrics.baseline_prefill_seconds_per_token),
        BASELINE_PREFILL
    );
    assert_eq!(val(&payload.metrics.decode_seconds_per_token), 0.0);
    assert_eq!(val(&payload.metrics.prefill_seconds_per_token), 0.0);
}

#[test]
fn corrupted_prefill_oracle_fails_official_no_step_suffix() {
    let payload = run_official(
        &golden(1),
        TimedOutcome::Mismatch {
            label: "benchmark prefill token".to_string(),
            step: 0,
        },
        in_band(),
    );
    assert!(!payload.passed);
    assert_eq!(payload.metrics.error, "benchmark prefill token mismatch");
    assert_eq!(
        payload.metrics.first_failing_case.as_deref(),
        Some("benchmark")
    );
    assert_eq!(payload.metrics.first_failing_step, None);
    assert_eq!(payload.metrics.expected_token, None);
    assert_eq!(payload.metrics.actual_token, None);
}

#[test]
fn corrupted_seed_oracle_fails_official_no_step_suffix() {
    let payload = run_official(
        &golden(1),
        TimedOutcome::Mismatch {
            label: "benchmark decode seed token".to_string(),
            step: 0,
        },
        in_band(),
    );
    assert!(!payload.passed);
    assert_eq!(
        payload.metrics.error,
        "benchmark decode seed token mismatch"
    );
    assert_eq!(payload.metrics.first_failing_step, None);
    assert_eq!(payload.metrics.expected_token, None);
    assert_eq!(payload.metrics.actual_token, None);
}

#[test]
fn benchmark_less_golden_fails_official() {
    let payload = run_official(&golden_without_oracle(), TimedOutcome::Measured, in_band());
    assert!(!payload.passed);
    assert_eq!(
        payload.metrics.error,
        "benchmark golden file must contain a benchmark oracle"
    );
}

#[test]
fn decode_speedup_below_floor_fails_official() {
    let golden = golden(1);
    let seal = finish_official(slow_decode(), conformant());
    let payload = seal_with(
        seal,
        &golden,
        BASELINE_DECODE * 1.10,
        (BASELINE_PREFILL, BASELINE_DECODE),
    );
    assert!(!payload.passed);
    assert!(payload.score.is_none());
    assert!(
        payload
            .metrics
            .error
            .starts_with("performance floor failed:")
            || payload.metrics.error.starts_with("acceptance band failed:"),
        "got: {}",
        payload.metrics.error
    );
    assert!(val(&payload.metrics.decode_seconds_per_token) > 0.0);
    assert!(!payload.metrics.passed_correctness, "correctness never ran");
}

#[test]
fn official_timed_band_failure_blanks_correctness_audit_fields_to_match_swift() {
    let golden = golden(1);
    assert!(golden.total_case_count > 0);
    let seal = finish_official(slow_decode(), conformant());
    let payload = seal_with(
        seal,
        &golden,
        BASELINE_DECODE * 1.10,
        (BASELINE_PREFILL, BASELINE_DECODE),
    );
    assert!(!payload.passed);
    assert!(payload.score.is_none());
    assert!(
        payload
            .metrics
            .error
            .starts_with("performance floor failed:")
            || payload.metrics.error.starts_with("acceptance band failed:"),
        "got: {}",
        payload.metrics.error
    );
    assert_eq!(payload.metrics.golden_hash, "");
    assert_eq!(payload.metrics.case_count, 0);
    assert_eq!(payload.metrics.checked_steps, 0);
    assert!(val(&payload.metrics.decode_seconds_per_token) > 0.0);
    assert!(val(&payload.metrics.prefill_seconds_per_token) > 0.0);
    assert!(!payload.metrics.passed_correctness);
}

#[test]
fn official_correctness_failure_still_populates_audit_fields_unchanged() {
    let golden = golden(2);
    let payload = finish_with(
        &golden,
        judged(
            false,
            65,
            failing("bad-anchor", None, false),
            vec![("bad-anchor", false)],
        ),
    );
    assert!(!payload.passed);
    assert_eq!(payload.metrics.error, "anchor token mismatch");
    assert_eq!(payload.metrics.golden_hash, GOLDEN_HASH);
    assert_eq!(payload.metrics.case_count, golden.total_case_count);
    assert!(payload.metrics.checked_steps > 0);
}

#[test]
fn behavior_gate_presence_requires_worker() {
    let mut with_behavior = golden(2);
    with_behavior.behavior_cases = Some(1);
    assert!(benchmark_requires_runtime_worker(&with_behavior));
    assert!(!benchmark_requires_runtime_worker(&golden(1)));
    let mut empty_gates = golden(1);
    empty_gates.behavior_cases = Some(0);
    assert!(!benchmark_requires_runtime_worker(&empty_gates));
}

fn baselines(
    prefill: Option<&str>,
    decode: Option<&str>,
) -> Result<Option<(Number, Number)>, String> {
    let read = |t: Option<&str>| t.and_then(|t| t.trim().parse::<f64>().ok()).map(num);
    paired_baseline_from_env(prefill, decode, read(prefill), read(decode))
}

#[test]
fn paired_baseline_env_fail_closed_semantics() {
    assert!(baselines(None, None).unwrap().is_none());
    assert!(baselines(Some("  "), Some("")).unwrap().is_none());
    let (p, d) = baselines(Some(" 0.01 "), Some("0.13")).unwrap().unwrap();
    assert_eq!((val(&p), val(&d)), (0.01, 0.13));
    let e = baselines(Some("0.01"), None).unwrap_err();
    assert!(e.contains("must be provided together"), "got: {e}");
    let e = baselines(None, Some("0.13")).unwrap_err();
    assert!(e.contains("must be provided together"), "got: {e}");
    assert!(baselines(Some("0"), Some("0.13")).is_err());
    assert!(baselines(Some("-1"), Some("0.13")).is_err());
    assert!(baselines(Some("inf"), Some("0.13")).is_err());
    assert!(baselines(Some("nan"), Some("0.13")).is_err());
    assert!(baselines(Some("0.01"), Some("cheese")).is_err());
}

#[test]
fn an_invalid_baseline_is_named_by_its_key() {
    let e = baselines(Some("0"), Some("0.13")).unwrap_err();
    assert!(e.contains(PREFILL_KEY), "{e}");
    let e = baselines(Some("0.01"), Some("cheese")).unwrap_err();
    assert!(e.contains(DECODE_KEY), "{e}");
}

#[test]
fn only_a_finite_number_above_zero_is_a_time() {
    assert_eq!(val(&parse_finite_positive(Some(num(0.25))).unwrap()), 0.25);
    for x in [0.0, -0.0, -1.0, f64::NAN, f64::INFINITY, f64::NEG_INFINITY] {
        assert!(parse_finite_positive(Some(num(x))).is_none(), "{x}");
    }
    assert!(parse_finite_positive(None).is_none());
    assert!(parse_finite_positive(Some(num(f64::MIN_POSITIVE / 4.0))).is_some());
}

#[test]
fn commit_identifier_prefers_valid_env_sha() {
    assert_eq!(commit_identifier(Some("  a1b2c3d  "), None), "a1b2c3d");
    assert_eq!(
        commit_identifier(Some("0123456789abcdef0123456789abcdef01234567"), None),
        "0123456789abcdef0123456789abcdef01234567"
    );
    assert!(is_commit_sha_hex("abcdef0"));
    assert!(!is_commit_sha_hex("abcde"));
    assert!(!is_commit_sha_hex("A1B2C3D"));
    assert!(!is_commit_sha_hex("g1b2c3d"));
    assert!(!is_commit_sha_hex(
        "0123456789abcdef0123456789abcdef012345678"
    ));
}

const DISPATCH_RECORD: &str = "0123456789abcdef0123456789abcdef01234567";
const FOREIGN_COMMIT: &str = "89abcdef0123456789abcdef0123456789abcdef";
const SCORING: bool = true;
const DEV: bool = false;

#[test]
fn author_at_seal_rejects_commit_that_disagrees_with_dispatch_record() {
    let refused = author_sealed_commit(Some(DISPATCH_RECORD), Some(FOREIGN_COMMIT), SCORING, None);
    let msg = refused.expect_err("a proposed commit that is not the dispatched sha must refuse");
    assert!(
        msg.contains("disagrees with the dispatched record"),
        "got: {msg}"
    );
    assert!(
        msg.contains(FOREIGN_COMMIT),
        "the refusal names the foreign commit: {msg}"
    );
    assert_eq!(
        author_sealed_commit(Some(DISPATCH_RECORD), Some(DISPATCH_RECORD), SCORING, None).unwrap(),
        DISPATCH_RECORD
    );
    assert_eq!(
        author_sealed_commit(
            Some(DISPATCH_RECORD),
            Some(&DISPATCH_RECORD[..7]),
            SCORING,
            None
        )
        .unwrap(),
        DISPATCH_RECORD,
        "a git-short-HEAD prefix of the SAME commit agrees"
    );
    assert!(
        author_sealed_commit(Some(DISPATCH_RECORD), Some("0123abc"), SCORING, None).is_err(),
        "a non-prefix hex proposal disagrees"
    );
}

#[test]
fn author_at_seal_scoring_refuses_when_dispatch_record_absent() {
    let refused = author_sealed_commit(None, Some("a1b2c3d"), SCORING, None);
    let msg = refused.expect_err("a scoring seal with no dispatch record must fail closed");
    assert!(msg.contains("scoring/ranked seal requires"), "got: {msg}");
    assert!(author_sealed_commit(None, None, SCORING, None).is_err());
}

#[test]
fn author_at_seal_authors_from_record_and_refuses_malformed_record() {
    assert_eq!(
        author_sealed_commit(Some(DISPATCH_RECORD), None, SCORING, None).unwrap(),
        DISPATCH_RECORD
    );
    assert_eq!(
        author_sealed_commit(Some(DISPATCH_RECORD), Some("   "), SCORING, None).unwrap(),
        DISPATCH_RECORD
    );
    assert!(author_sealed_commit(Some(""), None, SCORING, None).is_err());
    assert!(author_sealed_commit(Some("not-a-sha"), None, SCORING, None).is_err());
    let uppercase = "ABCDEF0123456789abcdef0123456789abcdef01";
    assert!(author_sealed_commit(Some(uppercase), None, SCORING, None).is_err());
    let short = &DISPATCH_RECORD[..39];
    assert!(author_sealed_commit(Some(short), None, SCORING, None).is_err());
}

#[test]
fn author_at_seal_dev_falls_back_when_no_dispatch_record() {
    assert_eq!(
        author_sealed_commit(None, Some("a1b2c3d"), DEV, None),
        Ok("a1b2c3d".to_string())
    );
}

#[test]
fn an_unbound_run_falls_back_on_the_head() {
    assert_eq!(
        author_sealed_commit(None, Some("not a commit"), DEV, Some("abc1234".to_string())),
        Ok("abc1234".to_string())
    );
    assert_eq!(
        author_sealed_commit(None, None, DEV, None),
        Ok(String::new())
    );
    assert_eq!(git_short_head(true, " abc1234\n").as_deref(), Some("abc1234"));
    assert_eq!(git_short_head(true, " \n"), None);
    assert_eq!(git_short_head(false, "abc1234"), None);
}

#[test]
fn a_proposal_that_is_no_commit_is_passed_over_under_a_record() {
    assert_eq!(
        author_sealed_commit(Some(DISPATCH_RECORD), Some("not-a-sha"), SCORING, None).unwrap(),
        DISPATCH_RECORD
    );
    assert!(is_dispatch_record_sha(DISPATCH_RECORD));
    assert!(!is_dispatch_record_sha("a1b2c3d"));
    assert!(commit_agrees_with_record(DISPATCH_RECORD, "0123456"));
    assert!(!commit_agrees_with_record(DISPATCH_RECORD, FOREIGN_COMMIT));
}

#[test]
fn a_dispatch_record_is_read_from_the_file_of_its_setting() {
    assert_eq!(dispatch_record(None, Ok("x".to_string())), Ok(None));
    assert_eq!(dispatch_record(Some("  "), Ok("x".to_string())), Ok(None));
    assert_eq!(
        dispatch_record(Some("/r"), Ok(format!("{DISPATCH_RECORD}\n"))),
        Ok(Some(DISPATCH_RECORD.to_string()))
    );
    let e = dispatch_record(Some("/r"), Err("no such file".to_string())).unwrap_err();
    assert!(e.contains("/r") && e.contains("no such file"), "{e}");
}

#[test]
fn official_gates_only_seals_the_resolved_harness_identity() {
    let payload = gates_only_with(&golden(1), conformant());
    assert_eq!(payload.metrics.harness_hash, TEST_HASH);
    assert!(!payload.metrics.harness_hash.is_empty());
    assert!(is_well_formed_harness_hash(&payload.metrics.harness_hash));
}

#[test]
fn a_benchd_gates_score_now_passes_the_overlays_harness_identity_gate() {
    let payload = gates_only_with(&golden(1), conformant());
    validate_gates(&payload).expect("a gates score must satisfy the overlay's gates predicates");

    let mut stubbed = gates_only_with(&golden(1), conformant());
    stubbed.metrics.harness_hash = String::new();
    let err =
        validate_gates(&stubbed).expect_err("an empty harness identity must still be refused");
    assert!(err.contains("empty metrics.harness_hash"), "{err}");
}

#[test]
fn official_failure_payloads_seal_the_harness_identity() {
    let failed = official_gates_failed(
        base_metrics(),
        "deadbeef",
        "boom".to_string(),
        1,
        None,
        None,
        0,
        (num(BASELINE_PREFILL), num(BASELINE_DECODE)),
    );
    assert_eq!(failed.metrics.harness_hash, TEST_HASH);
    assert!(!failed.passed);
}

#[test]
fn a_correctness_phase_that_breaks_down_keeps_the_timing() {
    let golden = golden(3);
    let payload = finish_with(
        &golden,
        CorrectnessOutcome::BarrierFailed {
            cause: "worker did not exit".to_string(),
        },
    );
    assert!(!payload.passed);
    assert_eq!(payload.metrics.error, "worker did not exit");
    assert_eq!(
        val(&payload.metrics.decode_seconds_per_token),
        BASELINE_DECODE
    );
    assert_eq!(payload.metrics.case_count, 3);
    assert_eq!(payload.metrics.checked_steps, 3);

    let payload = finish_with(
        &golden,
        CorrectnessOutcome::SpawnFailed {
            cause: "no binary".to_string(),
        },
    );
    assert!(
        payload.metrics.error.contains("no binary") && payload.metrics.error != "no binary",
        "{}",
        payload.metrics.error
    );
}

#[test]
fn a_failed_report_without_a_failing_case_is_a_failed_gate() {
    let report = CorrectnessReport {
        passed: false,
        checked_steps: 0,
        first_failure: None,
        anchors: Vec::new(),
    };
    let (case, step, error) = official_correctness_failure(&report);
    assert_eq!(case, None);
    assert_eq!(step, None);
    assert_eq!(error, "correctness gate failed");
}

#[test]
fn a_failed_timing_decides_whatever_correctness_would_say() {
    let golden = golden(1);
    let a = official_core(&golden, TimedOutcome::Measured, slow_decode(), conformant());
    let b = official_core(
        &golden,
        TimedOutcome::Measured,
        slow_decode(),
        judged(false, 1, failing("case-a", Some(0), true), Vec::new()),
    );
    assert_eq!(error_of(&a), error_of(&b));
    assert!(matches!(a, OfficialSeal::TimedBand { .. }));
    assert!(matches!(b, OfficialSeal::TimedBand { .. }));
}

#[test]
fn settings_win_over_the_golden_and_refused_settings_give_no_pair() {
    let golden = golden_with_baselines(0.5, 0.6);
    let r = official_resolved_baselines(
        &golden,
        Ok(Some((num(0.1), num(0.2)))),
        &num(0.8),
        &num(0.9),
    );
    assert_eq!((val(&r.0), val(&r.1)), (0.1, 0.2));
    let r = official_resolved_baselines(&golden, Err("half".to_string()), &num(0.8), &num(0.9));
    assert_eq!((val(&r.0), val(&r.1)), (0.5, 0.6));
    let mut half = golden_with_baselines(0.5, 0.6);
    half.baseline_decode_seconds_per_token = None;
    let r = official_resolved_baselines(&half, Ok(None), &num(0.8), &num(0.9));
    assert_eq!((val(&r.0), val(&r.1)), (0.5, 0.9));
    half.has_benchmark = false;
    let r = official_resolved_baselines(&half, Ok(None), &num(0.8), &num(0.9));
    assert_eq!((val(&r.0), val(&r.1)), (0.8, 0.9));
}
