//! What the operations of the library give, stated on their arguments and their results.
use crate::args::{only_their_names_stand_for_modes, words, GoldenIntegrityPin, Mode};
use crate::checks::{
    run_correctness, run_validate_golden, run_validate_weights, weights_cap, CorrectnessArgs,
    GateCheck, GoldenCheck, ValidateGoldenArgs, ValidateWeightsArgs, WeightsCap, WeightsCheck,
};
use crate::cli::{cool_gate_phase, refuse_args, report_failure, run_cool_gate_only, Report};
use crate::cli_texts::golden_accept;
use crate::commit::{
    author_sealed_commit, commit_agrees_with_record, commit_identifier, dispatch_record,
    git_short_head, is_commit_sha_hex, is_dispatch_record_sha,
};
use crate::integrity::{
    build_integrity_sidecar, build_measure_job_integrity, fresh_overlay_integrity,
    resolve_runner_identity, results_integrity_name, sidecar_name, FoundExecutable,
    IntegritySidecar, IterateSealInputs, MeasureJobIntegrity, MeasureJobSealInputs,
    OverlayIntegrity, RunnerIdentity,
};
use crate::iterate::{
    cool_gate_enabled, iterate_exit_status, iterate_route, run_baselines, IterateRoute,
    RunBaselines,
};
use crate::iterate_args::{parse_iterate_args, IterateArgs};
use crate::measure::{
    bootstrap_step, check_failure, check_head_dirs, check_prompt_pin, judge,
    measure_job_exit_status, next_step, resolve_calibration_env, scope_notice,
    should_author_bootstrap, uses_calibrated_ceiling, width_notice, worker_bin, BootstrapStep,
    CalibrationOutcome, Check, HeadDir, MeasureContext, MeasureJobFailure, MeasureJobVerdict,
    MeasureStep, ResolvedCalibration,
};
use crate::measure_args::{
    measure_scan, no_measure_flags, parse_measure_job_args, parsed_view, MeasureJobArgs,
    MeasureSettings,
};
use crate::measure_laws::{
    a_failed_check_says_why, a_flag_sets_its_own_value, a_run_is_made_of_its_flags,
    heads_are_accepted_when_all_are_there, holds_text,
};
use crate::number::{
    above, at_least, equal, finite, finite_doubles_compare_by_value, is_positive, positive, units,
    Number,
};
use crate::official::{
    benchmark_requires_runtime_worker, official_core, official_gates_only,
    official_resolved_baselines, paired_baseline_from_env, CorrectnessOutcome, GatesSeal,
    GoldenSummary, OfficialSeal, TimedEvaluation, TimedOutcome,
};
use crate::overlay::composite::CompositeFigures;
use crate::overlay::gates::{validate_gates, validate_harness_identity_cross_leg, validate_identity};
use crate::overlay::merge::{
    merge_overlay, prepare_overlay, OverlayFigures, OverlayOutcome, OverlayPlan, Sample,
};
use crate::overlay::view::{HarnessIdentity, PoolExpectation, ResultsView};
use crate::overlay_args::{parse_overlay_timing_args, OverlayTimingArgs};
use crate::paths::{a_path_under_a_directory_is_sealed_as_what_follows, relativize_for_seal};
use crate::payload::{
    gates_payload, official_failed, official_failed_timed_band, official_failed_timed_oracle,
    official_failed_with_timing, official_failed_with_timing_and_case, official_gates_failed,
    official_gates_passed, official_passed, official_payload,
};
use crate::pool_source::{resolve_pool_expectation, ContractFile};
use crate::run::{report_score, runner_engine};
use crate::score::{ScoreMetrics, ScorePayload};
use crate::spec_config::{
    a_spec_carries_the_block_of_its_mode_alone, candidate_regime_for_spec, leg_wire_spec,
    resolve_max_draft_depth_cap, run_timed_mode, serial_control_regime_for,
    validate_baseline_is_serial, validate_spec_capped, validate_spec_module_coherent, LegRegime,
    SpecConfig, WireSpec,
};
use crate::text::{numeral_read, trimmed, NumeralFault};
use crate::track::{
    attestation_cites, band_enforced, dflash_head_present, goldens_distinct, scoring_enabled,
};
use vstd::prelude::*;

verus! {

/// What preparing the merge of a single-stream run asks to be computed: for each prompt the
/// quotient of its serial mean by its candidate mean, both for the agreement with the sealed median
/// and for what is published.
pub proof fn preparing_a_merge_asks_for_the_ratios_of_means(
    gates: &ScorePayload,
    results: &ResultsView,
    expected_track: Option<&str>,
    expected_series: Option<&str>,
    pool: &PoolExpectation,
    seal_leg: &HarnessIdentity,
    figures: &CompositeFigures,
    plan: OverlayPlan,
    i: int,
)
    requires
        call_ensures(
            prepare_overlay,
            (gates, results, expected_track, expected_series, pool, seal_leg, figures),
            Ok::<OverlayPlan, String>(plan),
        ),
        plan.shape is SingleStream,
        0 <= i < results.per_prompt@.len(),
    ensures
        plan.agreement@.len() == results.per_prompt@.len(),
        plan.published@.len() == results.per_prompt@.len(),
        plan.agreement@[i] matches Sample::Quotient { numerator, denominator } && numerator
            == results.per_prompt@[i].serial_seconds_per_token_mean && denominator
            == results.per_prompt@[i].mtp_seconds_per_token_mean,
        plan.published@[i] matches Sample::Quotient { numerator, denominator } && numerator
            == results.per_prompt@[i].serial_seconds_per_token_mean && denominator
            == results.per_prompt@[i].mtp_seconds_per_token_mean,
{
}

/// Two runs that differ in the candidate mean, or in the serial mean, of a prompt are prepared with
/// different samples for it.
pub proof fn preparing_two_runs_tells_their_means_apart(
    gates: &ScorePayload,
    a: &ResultsView,
    b: &ResultsView,
    expected_track: Option<&str>,
    expected_series: Option<&str>,
    pool: &PoolExpectation,
    seal_leg: &HarnessIdentity,
    figures: &CompositeFigures,
    plan_a: OverlayPlan,
    plan_b: OverlayPlan,
    i: int,
)
    requires
        call_ensures(
            prepare_overlay,
            (gates, a, expected_track, expected_series, pool, seal_leg, figures),
            Ok::<OverlayPlan, String>(plan_a),
        ),
        call_ensures(
            prepare_overlay,
            (gates, b, expected_track, expected_series, pool, seal_leg, figures),
            Ok::<OverlayPlan, String>(plan_b),
        ),
        plan_a.shape is SingleStream && plan_b.shape is SingleStream,
        0 <= i < a.per_prompt@.len() && i < b.per_prompt@.len(),
        a.per_prompt@[i].mtp_seconds_per_token_mean != b.per_prompt@[i].mtp_seconds_per_token_mean
            || a.per_prompt@[i].serial_seconds_per_token_mean
            != b.per_prompt@[i].serial_seconds_per_token_mean,
    ensures
        plan_a.agreement@[i] != plan_b.agreement@[i],
        plan_a.published@[i] != plan_b.published@[i],
{
    preparing_a_merge_asks_for_the_ratios_of_means(
        gates,
        a,
        expected_track,
        expected_series,
        pool,
        seal_leg,
        figures,
        plan_a,
        i,
    );
    preparing_a_merge_asks_for_the_ratios_of_means(
        gates,
        b,
        expected_track,
        expected_series,
        pool,
        seal_leg,
        figures,
        plan_b,
        i,
    );
}

/// A merge publishes a score exactly when the gates and the figure pass, and publishes that of the
/// figure, over gates of the same harness, commit and weights; the decode times are those of the
/// run.
pub proof fn a_merge_publishes_the_figure_of_the_run(
    gates: &ScorePayload,
    results: &ResultsView,
    expected_track: Option<&str>,
    expected_series: Option<&str>,
    pool: &PoolExpectation,
    resolved: Result<HarnessIdentity, String>,
    figures: &OverlayFigures,
    out: OverlayOutcome,
)
    requires
        call_ensures(
            merge_overlay,
            (gates, results, expected_track, expected_series, pool, resolved, figures),
            Ok::<OverlayOutcome, String>(out),
        ),
    ensures
        resolved matches Ok(h) && h.hash@ == gates.metrics.harness_hash@,
        gates.metrics.commit@ == results.commit@,
        gates.metrics.weights_hash@ == results.weights_hash@,
        out.passed <==> gates.passed && figures.paired.passed,
        out.passed ==> out.score == figures.paired.score,
        !out.passed ==> out.score is None,
        out.merged.payload.passed == out.passed,
        out.merged.payload.metrics.decode_seconds_per_token
            == results.aggregate.candidate_mtp_seconds_per_token_mean,
        out.merged.payload.metrics.baseline_decode_seconds_per_token
            == results.aggregate.baseline_serial_seconds_per_token_mean,
        out.merged.payload.metrics.decode_speedup == figures.paired.raw_median,
        out.merged.payload.metrics.commit == gates.metrics.commit,
        !out.merged.payload.metrics.partial_result,
{
}

/// Without a harness at the seal nothing is merged.
pub proof fn a_merge_needs_a_harness(
    gates: &ScorePayload,
    results: &ResultsView,
    expected_track: Option<&str>,
    expected_series: Option<&str>,
    pool: &PoolExpectation,
    cause: String,
    figures: &OverlayFigures,
    r: Result<OverlayOutcome, String>,
)
    requires
        call_ensures(
            merge_overlay,
            (
                gates,
                results,
                expected_track,
                expected_series,
                pool,
                Err::<HarnessIdentity, String>(cause),
                figures,
            ),
            r,
        ),
    ensures
        r is Err,
{
}

/// The exit status of a failed check: six for the two checks of the calibration, one for what the
/// box could not read or resolve, eight for every prerequisite; and its message ends in its cause.
pub proof fn a_failed_check_exits_by_its_class(
    check: Check,
    path: &str,
    cause: String,
    f: MeasureJobFailure,
)
    requires
        call_ensures(check_failure, (check, path, cause), f),
    ensures
        f.exit == if check is ReadCalibration || check is Calibration {
            6int
        } else if check is ReadContract || check is ParseContract || check is LoadedUtil || check
            is CandidateEngine || check is BaselineEngine || check is WeightsDigest || check
            is CandidateDigest || check is BaselineDigest || check is TrackId || check
            is SerialSandbox || check is CandidateSandbox || check is Measure {
            1int
        } else {
            8int
        },
        f.message@.len() >= cause@.len(),
        f.message@.subrange(f.message@.len() - cause@.len(), f.message@.len() as int) == cause@,
{
    a_failed_check_says_why(check, path@, cause@);
}

/// The exit statuses of a paired run: zero where it is accepted or was only to be checked, five
/// where its candidate is rejected, six where its baseline drifted.
pub proof fn a_verdict_exits_by_its_class(verdict: MeasureJobVerdict, exit: u8)
    requires
        call_ensures(measure_job_exit_status, (verdict,), exit),
    ensures
        exit == 0 <==> verdict is Accepted || verdict is PreflightOk,
        exit == 5 <==> verdict is RejectedDie5,
        exit == 6 <==> verdict is CalibrationDrift,
{
}

/// Judging a measured run: its candidate decides, but for an accepted one out of its band; a run
/// without a calibration that asks for one fails with the status of the calibration.
pub proof fn judging_follows_the_candidate(
    bootstrap: bool,
    calibrated: bool,
    band_enforce: bool,
    candidate_accepted: bool,
    in_band: bool,
    r: Result<MeasureJobVerdict, MeasureJobFailure>,
)
    requires
        call_ensures(judge, (bootstrap, calibrated, band_enforce, candidate_accepted, in_band), r),
    ensures
        r is Err <==> !bootstrap && !calibrated && band_enforce,
        r matches Err(f) ==> f.exit == 6,
        r matches Ok(v) ==> {
            &&& v is RejectedDie5 <==> !candidate_accepted
            &&& v is CalibrationDrift <==> candidate_accepted && !bootstrap && calibrated
                && !in_band
            &&& v is Accepted <==> candidate_accepted && (bootstrap || !calibrated || in_band)
        },
{
}

/// What a paired run gets of its command line: the value behind a flag at the end of the line is
/// in the field of that flag.
pub proof fn a_flag_of_the_line_reaches_the_run(
    args: &Vec<String>,
    settings: &MeasureSettings,
    candidate_parsed: Result<SpecConfig, String>,
    baseline_parsed: Result<SpecConfig, String>,
    run: MeasureJobArgs,
    line: Seq<Seq<char>>,
    flag: Seq<char>,
    v: Seq<char>,
)
    requires
        call_ensures(
            parse_measure_job_args,
            (args, settings, candidate_parsed, baseline_parsed),
            Ok::<Option<MeasureJobArgs>, String>(Some(run)),
        ),
        words(args@) == line + seq![flag, v],
        measure_scan(line, 0, no_measure_flags()) matches Ok(Some(_)),
    ensures
        flag == "--candidate"@ ==> run.candidate@ == v,
        flag == "--baseline"@ ==> run.baseline@ == v,
        flag == "--weights"@ ==> run.weights@ == v,
        flag == "--golden"@ ==> run.goldens@.len() > 0 && run.goldens@.last()@ == v,
        flag == "--contract"@ ==> run.contract@ == v,
        flag == "--correctness-golden"@ ==> holds_text(run.correctness_golden, v),
        flag == "--tag"@ ==> run.tag@ == v,
        flag == "--out"@ ==> run.out@ == v,
        flag == "--prompt"@ ==> holds_text(run.prompt, v),
        flag == "--prompt-sha256"@ ==> holds_text(run.prompt_sha256, v),
        flag == "--target-id"@ ==> holds_text(run.target_id, v),
        flag == "--gates-producer"@ ==> run.gates_producer@ == v,
{
    if flag == "--candidate"@ || flag == "--baseline"@ || flag == "--weights"@ || flag
        == "--golden"@ || flag == "--contract"@ || flag == "--correctness-golden"@ || flag
        == "--tag"@ || flag == "--out"@ || flag == "--prompt"@ || flag == "--prompt-sha256"@
        || flag == "--target-id"@ || flag == "--gates-producer"@ {
        a_flag_sets_its_own_value(line, flag, v);
        a_run_is_made_of_its_flags(
            words(args@),
            *settings,
            parsed_view(candidate_parsed),
            parsed_view(baseline_parsed),
            run,
        );
    }
}

/// A prompt is accepted exactly when it hashes to the digest it is pinned to, and its refusal is a
/// prerequisite that is not met.
pub proof fn a_prompt_is_accepted_by_its_digest(
    path: &str,
    actual: &str,
    pinned: &str,
    r: Result<(), MeasureJobFailure>,
)
    requires
        call_ensures(check_prompt_pin, (path, actual, pinned), r),
    ensures
        r is Ok <==> actual@ == pinned@,
        r matches Err(f) ==> f.exit == 8,
{
}

/// A calibration that a run is held to is of its series and its track and gives the mean and the
/// bound of its file; a run that authors one, or that names none, has none.
pub proof fn a_calibration_is_of_its_run(
    bootstrap: bool,
    setting: Option<&str>,
    outcome: CalibrationOutcome,
    run_timed_mode: &str,
    run_track_id: &str,
    r: Result<Option<ResolvedCalibration>, MeasureJobFailure>,
)
    requires
        call_ensures(
            resolve_calibration_env,
            (bootstrap, setting, outcome, run_timed_mode, run_track_id),
            r,
        ),
    ensures
        bootstrap || setting is None || trimmed(setting->0@).len() == 0 ==> r == Ok::<
            Option<ResolvedCalibration>,
            MeasureJobFailure,
        >(None),
        r matches Ok(Some(c)) ==> {
            &&& !bootstrap
            &&& c.timed_mode@ == run_timed_mode@
            &&& c.track_id@ == run_track_id@
            &&& outcome matches CalibrationOutcome::Parsed { timed_mode, track_id, band: Ok(band) }
                && c.serial_mean == band.0 && c.band_high == band.1
        },
        r matches Err(f) ==> f.exit == 6,
        !bootstrap && setting is Some && trimmed(setting->0@).len() > 0 ==> {
            &&& r != Ok::<Option<ResolvedCalibration>, MeasureJobFailure>(None)
            &&& r is Ok <==> (outcome matches CalibrationOutcome::Parsed {
                timed_mode,
                track_id,
                band: Ok(_),
            } && timed_mode@ == run_timed_mode@ && track_id@ == run_track_id@)
        },
{
}

/// A leg is budgeted from its calibration exactly when there is one whose mean is a time.
pub proof fn a_ceiling_is_calibrated_by_a_time(calibration: &Option<ResolvedCalibration>, r: bool)
    requires
        call_ensures(uses_calibrated_ceiling, (calibration,), r),
    ensures
        r <==> *calibration is Some && positive((*calibration)->0.serial_mean.bits),
{
}

/// A width that is pinned is told exactly when the run does not measure a cohort, and a missing
/// manifest exactly when there is none.
pub proof fn what_is_not_measured_is_told(
    width: Option<u32>,
    batched: bool,
    mode: &str,
    modes: &str,
    notice: Option<String>,
    manifest: bool,
    baseline: &str,
    scope: Option<String>,
)
    requires
        call_ensures(width_notice, (width, batched, mode, modes), notice),
        call_ensures(scope_notice, (manifest, baseline), scope),
    ensures
        notice is Some <==> width is Some && !batched,
        scope is Some <==> !manifest,
{
}

/// The executable of a workspace is the setting as it is, unless that says nothing.
pub proof fn a_worker_is_the_one_that_is_set(setting: Option<&str>, r: String)
    requires
        call_ensures(worker_bin, (setting,), r),
    ensures
        setting is Some && trimmed(setting->0@).len() > 0 ==> r@ == setting->0@,
        setting is None || trimmed(setting->0@).len() == 0 ==> r@ == "mlxfast-runtime-worker"@,
{
}

/// A calibration is authored exactly when the run was accepted and in parity and both its target
/// and its place are named; it is authored for that target and at that place.
pub proof fn a_calibration_is_authored_by_a_sound_run(
    candidate_accepted: bool,
    parity_all_ok: bool,
    target_id: Option<&str>,
    setting: Option<&str>,
    sound: bool,
    step: BootstrapStep,
)
    requires
        call_ensures(should_author_bootstrap, (candidate_accepted, parity_all_ok), sound),
        call_ensures(bootstrap_step, (candidate_accepted, parity_all_ok, target_id, setting), step),
    ensures
        sound <==> candidate_accepted && parity_all_ok,
        step is Skipped <==> !sound,
        step is Author <==> sound && target_id is Some && setting is Some && trimmed(
            setting->0@,
        ).len() > 0,
        step matches BootstrapStep::Author { target, path } ==> target@ == target_id->0@ && path@
            == trimmed(setting->0@),
{
}

/// What the official payloads say of completeness: every one of them is as partial as the metrics
/// it is made of, whatever it seals.
pub proof fn official_payloads_stay_as_complete_as_their_run(
    metrics: ScoreMetrics,
    commit: &str,
    error: String,
    score: Number,
    case_count: i64,
    case: Option<String>,
    step: Option<i64>,
    checked_steps: i64,
    pair: (Number, Number),
    p: ScorePayload,
)
    requires
        call_ensures(official_passed, (metrics, commit, score, case_count, checked_steps), p)
            || call_ensures(official_failed, (metrics, commit, error, case_count, pair), p)
            || call_ensures(official_failed_timed_band, (metrics, commit, error), p)
            || call_ensures(official_failed_timed_oracle, (metrics, commit, error, step, pair), p)
            || call_ensures(official_failed_with_timing, (metrics, commit, error, case_count), p)
            || call_ensures(
            official_failed_with_timing_and_case,
            (metrics, commit, error, case_count, case, step, checked_steps),
            p,
        ),
    ensures
        p.metrics.partial_result == metrics.partial_result,
        p.metrics.commit@ == commit@,
        p.metrics.weights_hash == metrics.weights_hash,
        p.metrics.harness_hash == metrics.harness_hash,
        p.passed == p.metrics.passed_correctness,
        p.score is Some ==> p.passed,
{
}

/// A payload that passed carries its score, the steps that were checked and the cases of its
/// golden, and is complete where the run was.
pub proof fn a_passed_payload_carries_its_score(
    timed: ScoreMetrics,
    commit: &str,
    score: Number,
    case_count: i64,
    checked_steps: i64,
    p: ScorePayload,
)
    requires
        call_ensures(official_passed, (timed, commit, score, case_count, checked_steps), p),
    ensures
        p.passed && p.metrics.passed_correctness,
        p.score == Some(score),
        p.metrics.partial_result == timed.partial_result,
        p.metrics.case_count == case_count,
        p.metrics.checked_steps == checked_steps,
        p.metrics.error == timed.error,
        p.metrics.golden_hash == timed.golden_hash,
        p.metrics.decode_seconds_per_token == timed.decode_seconds_per_token,
        p.metrics.prefill_seconds_per_token == timed.prefill_seconds_per_token,
        p.metrics.decode_speedup == timed.decode_speedup,
        p.metrics.prefill_speedup == timed.prefill_speedup,
{
}

/// Only the payloads of the gates alone are made partial, and they are never scored.
pub proof fn gates_payloads_are_partial(
    base: ScoreMetrics,
    commit: &str,
    error: String,
    case_count: i64,
    case: Option<String>,
    step: Option<i64>,
    checked_steps: i64,
    pair: (Number, Number),
    passed: ScorePayload,
    failed: ScorePayload,
)
    requires
        call_ensures(official_gates_passed, (base, commit, case_count, checked_steps, pair), passed),
        call_ensures(
            official_gates_failed,
            (base, commit, error, case_count, case, step, checked_steps, pair),
            failed,
        ),
    ensures
        passed.metrics.partial_result && failed.metrics.partial_result,
        passed.score is None && failed.score is None,
        passed.passed && !failed.passed,
        failed.metrics.error == error,
        failed.metrics.first_failing_case == case,
        failed.metrics.first_failing_step == step,
        passed.metrics.baseline_prefill_seconds_per_token == pair.0,
        passed.metrics.baseline_decode_seconds_per_token == pair.1,
        failed.metrics.baseline_prefill_seconds_per_token == pair.0,
        failed.metrics.baseline_decode_seconds_per_token == pair.1,
{
}

/// What an official seal and a seal of the gates alone are made into: the first is as complete as
/// its run and scored exactly when it passed, the second is partial and never scored.
pub proof fn a_seal_is_made_into_its_payload(
    seal: OfficialSeal,
    gates: GatesSeal,
    metrics: ScoreMetrics,
    commit: &str,
    error: String,
    case_count: i64,
    baselines: (Number, Number),
    sealable: (Number, Number),
    p: ScorePayload,
    q: ScorePayload,
)
    requires
        call_ensures(
            official_payload,
            (seal, metrics, commit, error, case_count, baselines, sealable),
            p,
        ),
        call_ensures(gates_payload, (gates, metrics, commit, error, case_count, baselines), q),
    ensures
        p.metrics.partial_result == metrics.partial_result,
        p.score is Some <==> seal is Passed,
        p.passed <==> seal is Passed,
        q.metrics.partial_result,
        q.score is None,
        q.passed <==> gates is Passed,
{
}

/// Where the baselines of an official payload come from: both from the settings where they give a
/// pair; else each from the golden where it has a benchmark that declares it, and from the constant
/// where not.
pub proof fn official_baselines_fall_back_one_by_one(
    golden: &GoldenSummary,
    paired: Result<Option<(Number, Number)>, String>,
    prefill_constant: &Number,
    decode_constant: &Number,
    r: (Number, Number),
)
    requires
        call_ensures(
            official_resolved_baselines,
            (golden, paired, prefill_constant, decode_constant),
            r,
        ),
    ensures
        paired matches Ok(Some(pair)) ==> r == pair,
        !(paired matches Ok(Some(_))) ==> {
            let prefill = golden.baseline_prefill_seconds_per_token;
            let decode = golden.baseline_decode_seconds_per_token;
            &&& golden.has_benchmark && prefill is Some ==> r.0 == prefill->0
            &&& !golden.has_benchmark || prefill is None ==> r.0 == *prefill_constant
            &&& golden.has_benchmark && decode is Some ==> r.1 == decode->0
            &&& !golden.has_benchmark || decode is None ==> r.1 == *decode_constant
        },
{
}

/// The settings give a pair exactly when both say something and read as times, and it is the pair
/// of these times, prefill first.
pub proof fn baseline_settings_give_both_times(
    prefill_raw: Option<&str>,
    decode_raw: Option<&str>,
    prefill_reading: Option<Number>,
    decode_reading: Option<Number>,
    r: Result<Option<(Number, Number)>, String>,
)
    requires
        call_ensures(
            paired_baseline_from_env,
            (prefill_raw, decode_raw, prefill_reading, decode_reading),
            r,
        ),
    ensures
        ({
            let p = prefill_raw is Some && trimmed(prefill_raw->0@).len() > 0;
            let d = decode_raw is Some && trimmed(decode_raw->0@).len() > 0;
            let timed = prefill_reading is Some && positive(prefill_reading->0.bits)
                && decode_reading is Some && positive(decode_reading->0.bits);
            &&& !p && !d <==> r == Ok::<Option<(Number, Number)>, String>(None)
            &&& p && d && timed ==> r == Ok::<Option<(Number, Number)>, String>(
                Some((prefill_reading->0, decode_reading->0)),
            )
            &&& r is Err <==> p != d || p && d && !timed
        }),
{
}

/// A golden asks for a runtime worker exactly when its gates hold a behavior case.
pub proof fn behavior_cases_ask_for_a_worker(golden: &GoldenSummary, r: bool)
    requires
        call_ensures(benchmark_requires_runtime_worker, (golden,), r),
    ensures
        r <==> golden.behavior_cases is Some && golden.behavior_cases->0 >= 1,
{
}

/// The integrity record of a paired run holds each digest of the run under its own name.
pub proof fn a_measure_job_record_holds_the_digests_of_its_run(
    args: &MeasureJobArgs,
    run: MeasureJobSealInputs,
    cwd: Option<&str>,
    home: Option<&str>,
    seal: MeasureJobIntegrity,
)
    requires
        call_ensures(build_measure_job_integrity, (args, run, cwd, home), seal),
    ensures
        seal.results_sha256@ == run.results_sha256@,
        seal.candidate_workspace_sha256@ == run.candidate_workspace_sha256@,
        seal.baseline_workspace_sha256@ == run.baseline_workspace_sha256@,
        seal.golden_sha256@ == run.golden_sha256@,
        seal.contract_sha256@ == run.contract_sha256@,
        seal.weights_sha256@ == run.weights_sha256@,
        seal.weights_file_count == run.weights_file_count,
        seal.weights_byte_count == run.weights_byte_count,
        seal.gates_producer@ == args.gates_producer@,
{
}

/// The integrity record of an `iterate` run holds each digest of the run and of its runner under
/// its own name.
pub proof fn an_iterate_record_holds_the_digests_of_its_run(
    run: IterateSealInputs,
    runner: RunnerIdentity,
    cwd: Option<&str>,
    home: Option<&str>,
    seal: IntegritySidecar,
)
    requires
        call_ensures(build_integrity_sidecar, (run, runner, cwd, home), seal),
    ensures
        seal.score_sha256@ == run.score_sha256@,
        seal.weights_sha256@ == run.weights_sha256@,
        seal.weights_file_count == run.weights_file_count,
        seal.weights_byte_count == run.weights_byte_count,
        seal.golden_sha256@ == run.golden_sha256@,
        seal.golden_path@ == "[private]"@,
        seal.candidate_executable_sha256@ == runner.candidate_executable_sha256@,
        seal.candidate_executable_resolution@ == runner.candidate_executable_resolution@,
        seal.benchd_executable_sha256@ == runner.benchd_executable_sha256@,
{
}

/// A runner is identified by what was found: an engine without a digest is recorded as it was
/// given.
pub proof fn a_runner_is_identified_by_what_was_found(
    engine: &str,
    found: Option<FoundExecutable>,
    own: Option<FoundExecutable>,
    id: RunnerIdentity,
)
    requires
        call_ensures(resolve_runner_identity, (engine, found, own), id),
    ensures
        found is Some && found->0.sha256 is Some ==> id.candidate_executable@ == found->0.path@
            && id.candidate_executable_sha256@ == found->0.sha256->0@
            && id.candidate_executable_resolution@ == "canonical"@,
        found is None || found->0.sha256 is None ==> id.candidate_executable@ == engine@
            && id.candidate_executable_sha256@.len() == 0 && id.candidate_executable_resolution@
            == "unresolved"@,
        own is Some ==> id.benchd_executable@ == own->0.path@,
        own is Some && own->0.sha256 is Some ==> id.benchd_executable_sha256@
            == own->0.sha256->0@,
{
}

/// A fresh record of a merged score names the digest of the score; a digest file is named after its
/// file, and a record of results after their stem.
pub proof fn records_are_named_after_their_files(
    score_path: &str,
    score_sha256: &str,
    cwd: Option<&str>,
    home: Option<&str>,
    fresh: OverlayIntegrity,
    name: &str,
    sidecar: String,
    record: String,
)
    requires
        call_ensures(fresh_overlay_integrity, (score_path, score_sha256, cwd, home), fresh),
        call_ensures(sidecar_name, (name,), sidecar),
        call_ensures(results_integrity_name, (name,), record),
    ensures
        fresh.score_sha256@ == score_sha256@,
        sidecar@.len() == name@.len() + 7,
        sidecar@.subrange(0, name@.len() as int) == name@,
        record@.len() == name@.len() + 25,
        record@.subrange(20, 20int + name@.len()) == name@,
{
    reveal_strlit(".sha256");
    reveal_strlit("benchmark-integrity.");
    reveal_strlit(".json");
    assert(sidecar@.subrange(0, name@.len() as int) =~= name@);
    assert(record@.subrange(20, 20int + name@.len()) =~= name@);
}

/// What a track asks: an official run is scored where the track says so and nowhere else; goldens
/// are distinct when no two digests are the same; an attestation cites its pin in digest and size,
/// and there is none without the other; only `dflash` asks for the drafter; and the band is enforced
/// unless the setting is `0`.
pub proof fn a_track_asks_for_these_things(
    official: bool,
    enabled: Option<bool>,
    scored: bool,
    digests: &Vec<String>,
    distinct: bool,
    attested: Option<&GoldenIntegrityPin>,
    pinned: Option<&GoldenIntegrityPin>,
    cited: bool,
    mode: &str,
    named: bool,
    drafted: bool,
    setting: Option<&str>,
    enforced: bool,
)
    requires
        call_ensures(scoring_enabled, (official, enabled), scored),
        call_ensures(goldens_distinct, (digests,), distinct),
        call_ensures(attestation_cites, (attested, pinned), cited),
        call_ensures(dflash_head_present, (mode, named), drafted),
        call_ensures(band_enforced, (setting,), enforced),
    ensures
        scored <==> !official || enabled == Some(true),
        distinct <==> forall|i: int, j: int|
            0 <= i < j < digests@.len() ==> (#[trigger] digests@[i])@ != (#[trigger] digests@[j])@,
        cited ==> (attested is Some <==> pinned is Some),
        attested is Some && pinned is Some ==> (cited <==> attested->0.sha256@
            == pinned->0.sha256@ && attested->0.bytes == pinned->0.bytes),
        attested is None && pinned is None ==> cited,
        !drafted <==> mode@ == "dflash"@ && !named,
        !enforced <==> setting is Some && setting->0@ == "0"@,
{
    let ws = words(digests@);
    assert(forall|i: int| 0 <= i < digests@.len() ==> ws[i] == (#[trigger] digests@[i])@);
}

/// How the two legs of a run are decoded and labelled: the control in the regime of the candidate,
/// only a candidate that runs freely as it declares, and each regime under its own tag.
pub proof fn legs_are_decoded_in_one_regime(
    candidate: LegRegime,
    control: LegRegime,
    serial_control: bool,
    free_run: bool,
    wire: WireSpec,
    tag: &'static str,
)
    requires
        call_ensures(serial_control_regime_for, (candidate,), control),
        call_ensures(leg_wire_spec, (serial_control, free_run), wire),
        call_ensures(run_timed_mode, (candidate,), tag),
    ensures
        control == candidate,
        wire is Declared <==> !serial_control && free_run,
        candidate is TeacherForcedV1 ==> tag@ == "teacher_forced_v1"@,
        candidate is FreeRunV1_1 ==> tag@ == "free_run_v1_1"@,
{
}

/// How an `iterate` run is made and reported: a local run takes the constants and says whether
/// flags were given, an official one looks further; the cool gate is as asked for and otherwise that
/// of a local submission; the sandbox names the engine; and zero is the status of a run that passed
/// alone.
pub proof fn an_iterate_run_is_made_by_its_mode(
    mode: Mode,
    flags_given: bool,
    prefill: &Number,
    decode: &Number,
    baselines: RunBaselines,
    asked: Option<bool>,
    cooled: bool,
    given: &str,
    sandboxed: Option<&str>,
    engine: String,
    passed: bool,
    exit: u8,
)
    requires
        call_ensures(run_baselines, (mode, flags_given, prefill, decode), baselines),
        call_ensures(cool_gate_enabled, (asked, mode), cooled),
        call_ensures(runner_engine, (given, sandboxed), engine),
        call_ensures(iterate_exit_status, (passed,), exit),
    ensures
        baselines is ResolveFromOverrideOrGolden <==> mode is Official,
        !(mode is Official) ==> (baselines matches RunBaselines::Decided {
            prefill: p,
            decode: d,
            flags_ignored,
        } && p == *prefill && d == *decode && flags_ignored == flags_given),
        asked matches Some(b) ==> cooled == b,
        asked is None ==> (cooled <==> mode is LocalSubmit),
        sandboxed matches Some(e) ==> engine@ == e@,
        sandboxed is None ==> engine@ == given@,
        exit == 0 <==> passed,
        exit == 1 <==> !passed,
{
}

/// What a run that wrote a score exits with: zero exactly when it passed.
pub proof fn a_reported_run_exits_by_its_verdict(
    sub: &str,
    path: &str,
    passed: bool,
    score: &Option<Number>,
    r: (u8, String),
)
    requires
        call_ensures(report_score, (sub, path, passed, score), r),
    ensures
        r.0 == 0 <==> passed,
        r.0 == 1 <==> !passed,
{
}

/// Which commit a score is sealed under: the whole dispatched one, which an abbreviated proposal
/// may not contradict; without a record a scoring run is refused and no other run is.
pub proof fn a_score_is_sealed_under_the_dispatched_commit(
    record: Option<&str>,
    proposed: Option<&str>,
    scoring_mode: bool,
    head: Option<String>,
    r: Result<String, String>,
)
    requires
        call_ensures(author_sealed_commit, (record, proposed, scoring_mode, head), r),
    ensures
        record is None ==> (r is Err <==> scoring_mode),
        record matches Some(t) ==> (r matches Ok(c) ==> c@ == trimmed(t@) && c@.len() == 40),
        record is Some && trimmed(record->0@).len() != 40 ==> r is Err,
{
}

/// What a dispatched record is: none where no file is named, the trimmed contents of the file where
/// one is, and a refusal where that cannot be read. The head of a repository is the trimmed answer
/// of a command that succeeded, where that says something.
pub proof fn a_record_is_what_its_file_holds(
    setting: Option<&str>,
    contents: Result<String, String>,
    r: Result<Option<String>, String>,
    succeeded: bool,
    answer: &str,
    head: Option<String>,
)
    requires
        call_ensures(dispatch_record, (setting, contents), r),
        call_ensures(git_short_head, (succeeded, answer), head),
    ensures
        ({
            let named = setting is Some && trimmed(setting->0@).len() > 0;
            &&& !named ==> r == Ok::<Option<String>, String>(None)
            &&& named && contents is Err ==> r is Err
            &&& named && contents is Ok ==> (r matches Ok(Some(t)) && t@ == trimmed(
                contents->Ok_0@,
            ))
        }),
        head is Some <==> succeeded && trimmed(answer@).len() > 0,
        head matches Some(h) ==> h@ == trimmed(answer@),
{
}

/// How a subcommand ends early: a refused command line exits with two and shows the usage, any
/// other failure exits as it was told and shows none; the cool gate on its own exits with zero
/// exactly when the machine cooled, and is asked about the phase that is set, else the local one.
pub proof fn a_subcommand_ends_by_its_fault(
    sub: &str,
    exit: u8,
    cause: &str,
    refused: Report,
    failed: Report,
    outcome: Result<(), String>,
    cooled: Report,
    setting: Option<&str>,
    phase: String,
)
    requires
        call_ensures(refuse_args, (sub, cause), refused),
        call_ensures(report_failure, (sub, exit, cause), failed),
        call_ensures(run_cool_gate_only, (outcome,), cooled),
        call_ensures(cool_gate_phase, (setting,), phase),
    ensures
        refused.exit == 2 && refused.usage is Stderr && refused.stdout@.len() == 0,
        failed.exit == exit && failed.usage is Nowhere && failed.stdout@.len() == 0,
        refused.stderr@ == failed.stderr@,
        cooled.exit == if outcome is Ok { 0int } else { 1int },
        cooled.stdout@.len() == 0 && cooled.usage is Nowhere,
        outcome is Ok ==> cooled.stderr@.len() == 0,
        setting matches Some(p) ==> phase@ == p@,
        setting is None ==> phase@ == "local"@,
{
}

/// What a merge needs of its run: it kept parity, its candidate was accepted, it has as many pairs
/// as it says and no fewer than it owes, it is of the expected track and of the expected pool, and
/// the gates under it are a clean half.
pub proof fn a_merge_needs_a_sound_run(
    gates: &ScorePayload,
    results: &ResultsView,
    expected_track: Option<&str>,
    expected_series: Option<&str>,
    pool: &PoolExpectation,
    resolved: Result<HarnessIdentity, String>,
    figures: &OverlayFigures,
    out: OverlayOutcome,
)
    requires
        call_ensures(
            merge_overlay,
            (gates, results, expected_track, expected_series, pool, resolved, figures),
            Ok::<OverlayOutcome, String>(out),
        ),
    ensures
        gates.passed && gates.score is None && gates.metrics.partial_result,
        gates.metrics.error@.len() == 0 && gates.metrics.passed_correctness,
        results.parity_all_ok && results.candidate_accepted,
        results.accepted_pair_count >= 1 && results.accepted_pair_count >= results.min_pairs,
        results.pairs@.len() == results.accepted_pair_count,
        results.accepted_pair_count >= pool.min_per_prompt || results.per_prompt@.len() > 0,
        results.prompt_count == pool.pool_size,
        positive(results.aggregate.baseline_serial_seconds_per_token_mean.bits),
        positive(results.aggregate.candidate_mtp_seconds_per_token_mean.bits),
        expected_track is Some && trimmed(expected_track->0@).len() > 0 ==> trimmed(
            results.track_id@,
        ) == trimmed(expected_track->0@),
        expected_series is Some && trimmed(expected_series->0@).len() > 0 ==> trimmed(
            results.timed_mode@,
        ) == trimmed(expected_series->0@),
        results.timed_series.homogeneous && results.timed_series.legs_comparable,
        results.per_prompt@.len() > 0 <==> results.per_cohort@.len() == 0,
{
}

/// Which gates a merge accepts: a passing, unscored, partial, error-free and correct half that
/// names its harness by sixty-four characters.
pub proof fn gates_are_accepted_as_a_clean_half(gates: &ScorePayload, r: Result<(), String>)
    requires
        call_ensures(validate_gates, (gates,), r),
    ensures
        r is Ok <==> {
            &&& gates.passed
            &&& gates.score is None
            &&& gates.metrics.partial_result
            &&& gates.metrics.error@.len() == 0
            &&& gates.metrics.passed_correctness
            &&& gates.metrics.harness_hash@.len() == 64
            &&& forall|i: int|
                0 <= i < 64 ==> ('0' <= #[trigger] gates.metrics.harness_hash@[i]
                    && gates.metrics.harness_hash@[i] <= '9') || ('a'
                    <= gates.metrics.harness_hash@[i] && gates.metrics.harness_hash@[i] <= 'f')
        },
{
}

/// The harness at the seal must be that of the gates, and both inputs must name the same commit and
/// the same weights.
pub proof fn inputs_are_held_to_one_identity(
    gates: &ScorePayload,
    results: &ResultsView,
    seal_leg: &HarnessIdentity,
    legs: Result<(), String>,
    runs: Result<(), String>,
)
    requires
        call_ensures(validate_harness_identity_cross_leg, (gates, seal_leg), legs),
        call_ensures(validate_identity, (gates, results), runs),
    ensures
        legs is Ok <==> gates.metrics.harness_hash@ == seal_leg.hash@,
        runs is Ok <==> gates.metrics.commit@.len() > 0 && gates.metrics.commit@
            == results.commit@ && gates.metrics.weights_hash@.len() > 0
            && gates.metrics.weights_hash@ == results.weights_hash@,
{
}

/// How `validate-golden` exits: zero for a golden that loads with the oracle it needs, one for one
/// that is refused, two for a contract that cannot be used, three for what cannot be read.
pub proof fn validating_a_golden_exits_by_its_fault(
    args: &ValidateGoldenArgs,
    check: GoldenCheck,
    r: Report,
)
    requires
        call_ensures(run_validate_golden, (args, check), r),
    ensures
        check is ContractUnreadable || check is Unreadable ==> r.exit == 3,
        check is ContractUnusable ==> r.exit == 2,
        check is PinRejected || check is SchemaRejected ==> r.exit == 1,
        check matches GoldenCheck::Loaded { has_benchmark, .. } ==> r.exit == if args.gates_only
            || has_benchmark { 0int } else { 1int },
        r.stdout@.len() == 0 && r.usage is Nowhere,
        check matches GoldenCheck::Loaded { sha256, cases, gate_cases, has_provenance, .. }
            ==> r.exit == 0 && (args.contract is Some || !has_provenance) ==> r.stderr@
            == golden_accept(args.golden@, sha256@, cases as nat, gate_cases as nat),
{
}

/// How `correctness` exits: zero exactly for a verdict in favour of the engine, one otherwise; what
/// it prints is the document of that verdict.
pub proof fn the_correctness_gate_exits_by_its_verdict(
    args: &CorrectnessArgs,
    check: GateCheck,
    r: Report,
)
    requires
        call_ensures(run_correctness, (args, check), r),
    ensures
        r.exit == 0 <==> (check matches GateCheck::Judged { passed, .. } && passed),
        r.exit == 0 || r.exit == 1,
        check matches GateCheck::Judged { document, .. } ==> r.stdout@ == document@,
        !(check is Judged) ==> r.stdout@.len() == 0,
        r.usage is Nowhere,
{
}

/// How `validate-weights` exits: zero for an accepted directory, one for one that is refused, two
/// for a setting that is no cap, three for what cannot be read.
pub proof fn validating_weights_exits_by_its_fault(
    args: &ValidateWeightsArgs,
    check: WeightsCheck,
    r: Report,
)
    requires
        call_ensures(run_validate_weights, (args, check), r),
    ensures
        r.exit == 0 <==> check is Accepted,
        r.exit == 1 <==> check is Rejected,
        r.exit == 2 <==> check is CapInvalid,
        r.exit == 3 <==> check is Unreadable,
        r.stdout@.len() == 0 && r.usage is Nowhere,
{
}

/// The size cap of a weights directory: twenty-five binary gigabytes where nothing is said, none
/// for `0`, `none` and `unlimited`.
pub proof fn a_cap_is_read_from_its_setting(setting: Option<&str>, r: WeightsCap)
    requires
        call_ensures(weights_cap, (setting,), r),
    ensures
        ({
            let said = setting is Some && trimmed(setting->0@).len() > 0;
            let t = trimmed(setting->0@);
            &&& !said ==> (r matches WeightsCap::Bytes { bytes } && bytes == 25 * 1024 * 1024
                * 1024)
            &&& said ==> (r is Unlimited <==> t == "0"@ || t == "none"@ || t == "unlimited"@)
            &&& said ==> (r matches WeightsCap::Bytes { bytes } ==> bytes > 0 && numeral_read(
                t,
                u64::MAX as nat,
            ) == Ok::<nat, NumeralFault>(bytes as nat))
        }),
{
}

/// The path of an `iterate` run: the gates alone for an official run whose setting is `1`, the
/// constants for a local run, and for any other official run one pair: of the settings, else of the
/// flags, else of the golden.
pub proof fn an_iterate_run_takes_one_route(
    mode: Mode,
    skip_timed: Option<&str>,
    prefill_flag: &Option<Number>,
    decode_flag: &Option<Number>,
    settings: Result<Option<(Number, Number)>, String>,
    golden: &GoldenSummary,
    prefill_constant: &Number,
    decode_constant: &Number,
    r: Result<IterateRoute, String>,
)
    requires
        call_ensures(
            iterate_route,
            (
                mode,
                skip_timed,
                prefill_flag,
                decode_flag,
                settings,
                golden,
                prefill_constant,
                decode_constant,
            ),
            r,
        ),
    ensures
        ({
            let gates_alone = mode is Official && skip_timed is Some && skip_timed->0@ == "1"@;
            let timed = mode is Official && !gates_alone;
            let flags = *prefill_flag is Some && *decode_flag is Some;
            &&& (r matches Ok(IterateRoute::GatesOnly)) <==> gates_alone
            &&& !(mode is Official) ==> r == Ok::<IterateRoute, String>(
                IterateRoute::Local {
                    prefill: *prefill_constant,
                    decode: *decode_constant,
                    flags_ignored: flags,
                },
            )
            &&& timed && settings is Err ==> r is Err
            &&& timed ==> (settings matches Ok(Some(pair)) ==> r == Ok::<IterateRoute, String>(
                IterateRoute::Official { prefill: pair.0, decode: pair.1 },
            ))
            &&& timed && flags ==> (settings matches Ok(None) ==> r == Ok::<IterateRoute, String>(
                IterateRoute::Official {
                    prefill: (*prefill_flag)->0,
                    decode: (*decode_flag)->0,
                },
            ))
        }),
{
}

/// An official run passes exactly when its golden has an oracle, its timing was measured and passed
/// every gate, and its correctness was judged and passed; a run of the gates alone exactly when its
/// correctness was.
pub proof fn an_official_run_passes_by_every_phase(
    golden: &GoldenSummary,
    timed: TimedOutcome,
    evaluation: TimedEvaluation,
    outcome: CorrectnessOutcome,
    seal: OfficialSeal,
    gates: GatesSeal,
)
    requires
        call_ensures(official_core, (golden, timed, evaluation, outcome), seal),
        call_ensures(official_gates_only, (outcome,), gates),
    ensures
        gates is Passed <==> (outcome matches CorrectnessOutcome::Judged { report }
            && report.passed),
        seal is Passed <==> golden.has_benchmark && timed is Measured && evaluation.failure
            is None && gates is Passed,
        seal matches OfficialSeal::Passed { score, checked_steps } ==> score == evaluation.score && (
        outcome matches CorrectnessOutcome::Judged { report } && checked_steps
            == report.checked_steps),
        !golden.has_benchmark ==> seal is Failed,
{
}

/// The pool that a run is held to: its size from the setting where that says something, else from
/// the contract; its minimum from the setting, else one; and neither is zero.
pub proof fn a_pool_is_resolved_from_its_settings(
    size_setting: Option<&str>,
    min_setting: Option<&str>,
    contract: Option<ContractFile>,
    r: Result<PoolExpectation, String>,
)
    requires
        call_ensures(resolve_pool_expectation, (size_setting, min_setting, contract), r),
    ensures
        ({
            let sized = size_setting is Some && trimmed(size_setting->0@).len() > 0;
            let minned = min_setting is Some && trimmed(min_setting->0@).len() > 0;
            &&& r matches Ok(p) ==> {
                &&& p.pool_size >= 1 && p.min_per_prompt >= 1
                &&& sized ==> numeral_read(trimmed(size_setting->0@), usize::MAX as nat) == Ok::<
                    nat,
                    NumeralFault,
                >(p.pool_size as nat)
                &&& minned ==> numeral_read(trimmed(min_setting->0@), usize::MAX as nat) == Ok::<
                    nat,
                    NumeralFault,
                >(p.min_per_prompt as nat)
                &&& !minned ==> p.min_per_prompt == 1
            }
            &&& !sized && contract is None ==> r is Err
        }),
{
}

/// The spec of a leg: only a serial one is teacher-forced or a baseline; a coherent one carries the
/// block of its mode alone; a depth is within its cap; and only a local run sets that cap.
pub proof fn a_spec_is_held_to_its_mode(
    spec: &SpecConfig,
    cap: usize,
    regime: LegRegime,
    baseline: Result<(), String>,
    coherent: Result<(), String>,
    capped: Result<(), String>,
    local_dev: bool,
    setting: &Option<String>,
    in_force: usize,
)
    requires
        call_ensures(candidate_regime_for_spec, (spec,), regime),
        call_ensures(validate_baseline_is_serial, (spec,), baseline),
        call_ensures(validate_spec_module_coherent, (spec,), coherent),
        call_ensures(validate_spec_capped, (spec, cap), capped),
        call_ensures(resolve_max_draft_depth_cap, (local_dev, setting), in_force),
    ensures
        regime is TeacherForcedV1 <==> spec.mode@ == "serial"@,
        baseline is Ok <==> spec.mode@ == "serial"@,
        coherent is Ok <==> (spec.mtp_depth is Some <==> spec.mode@ == "mtp"@) && (spec.dflash
            <==> spec.mode@ == "dflash"@) && (spec.mtp_depth matches Some(d) ==> d >= 1),
        capped is Ok <==> (spec.mtp_depth matches Some(d) ==> d <= cap),
        !local_dev || *setting is None ==> in_force == 32,
{
    a_spec_carries_the_block_of_its_mode_alone(spec@);
}

/// The texts that a commit may be: seven to forty lowercase hexadecimal digits, a record all forty;
/// a proposal agrees with a record that starts with it; and a run identifies itself by a proposal
/// that is a commit before it asks for its head.
pub proof fn a_commit_is_told_by_its_text(
    s: &str,
    is_commit: bool,
    is_record: bool,
    record: &str,
    agrees: bool,
    head: Option<String>,
    id: String,
)
    requires
        call_ensures(is_commit_sha_hex, (s,), is_commit),
        call_ensures(is_dispatch_record_sha, (s,), is_record),
        call_ensures(commit_agrees_with_record, (record, s), agrees),
        call_ensures(commit_identifier, (Some(s), head), id),
    ensures
        ({
            let hex = forall|i: int|
                0 <= i < s@.len() ==> ('0' <= #[trigger] s@[i] && s@[i] <= '9') || ('a' <= s@[i]
                    && s@[i] <= 'f');
            &&& is_commit <==> 7 <= s@.len() <= 40 && hex
            &&& is_record <==> s@.len() == 40 && hex
        }),
        agrees <==> s@.len() <= record@.len() && record@.subrange(0, s@.len() as int) == s@,
        is_commit && trimmed(s@) == s@ ==> id@ == s@,
        trimmed(s@).len() < 7 && head is Some ==> id@ == head->0@,
{
}

/// Head directories are accepted exactly when each is one, and a missing one is a prerequisite that
/// is not met.
pub proof fn heads_are_held_to_be_there(dirs: &Vec<HeadDir>, r: Result<(), MeasureJobFailure>)
    requires
        call_ensures(check_head_dirs, (dirs,), r),
    ensures
        r is Ok <==> forall|i: int| 0 <= i < dirs@.len() ==> (#[trigger] dirs@[i]).is_dir,
        r matches Err(f) ==> f.exit == 8,
{
    heads_are_accepted_when_all_are_there(dirs@);
}

/// What follows the last check before the machine is used: a run that was only to be checked stops
/// there, and any other goes on only where its track lets it be scored.
pub proof fn a_checked_run_stops_before_it_measures(
    ctx: &MeasureContext,
    stop: MeasureStep,
    go: MeasureStep,
)
    requires
        call_ensures(next_step, (Check::PromptWindows, ctx), stop),
        call_ensures(next_step, (Check::ScoringEnabled, ctx), go),
    ensures
        stop is Stop <==> ctx.preflight_only,
        !ctx.preflight_only ==> stop == (MeasureStep::Do { check: Check::ScoringEnabled }),
        go is Do <==> ctx.scoring_enabled && ctx.heads && (ctx.band_enforce
            ==> ctx.calibration_bootstrap || ctx.calibrated),
        go is Do || go is Fail,
{
}

/// Comparing two finite doubles is comparing their exact values.
pub proof fn doubles_are_compared_by_value(
    a: u64,
    b: u64,
    same: bool,
    at_least_as: bool,
    more: bool,
    time: bool,
)
    requires
        finite(a) && finite(b),
        call_ensures(equal, (a, b), same),
        call_ensures(at_least, (a, b), at_least_as),
        call_ensures(above, (a, b), more),
        call_ensures(is_positive, (a,), time),
    ensures
        same <==> units(a) == units(b),
        at_least_as <==> units(a) >= units(b),
        more <==> units(a) > units(b),
        time <==> units(a) > 0,
{
    finite_doubles_compare_by_value(a, b);
}

/// What a merge gets of its command line: the value behind a flag at the end of the line is in the
/// field of that flag.
pub proof fn a_flag_of_the_line_reaches_the_merge(
    args: &Vec<String>,
    run: OverlayTimingArgs,
    line: Seq<Seq<char>>,
    flag: Seq<char>,
    v: Seq<char>,
)
    requires
        call_ensures(
            parse_overlay_timing_args,
            (args,),
            Ok::<Option<OverlayTimingArgs>, String>(Some(run)),
        ),
        words(args@) == line + seq![flag, v],
        crate::overlay_args::flags_given(line) is Some,
    ensures
        flag == "--gates-score"@ ==> run.gates_score@ == v,
        flag == "--results"@ ==> run.results@ == v,
        flag == "--score-path"@ ==> run.score_path@ == v,
        flag == "--integrity"@ ==> holds_text(run.integrity, v),
        flag == "--contract"@ ==> holds_text(run.contract, v),
{
    if flag == "--gates-score"@ || flag == "--results"@ || flag == "--score-path"@ || flag
        == "--integrity"@ || flag == "--contract"@ {
        crate::overlay_args::a_flag_sets_its_own_value(line, flag, v);
        crate::overlay_args::a_merge_is_asked_for_by_three_flags(words(args@), run);
    }
}

/// What an `iterate` run gets of its command line: the value behind a flag at the end of the line is
/// in the field of that flag.
pub proof fn a_flag_of_the_line_reaches_the_iteration(
    args: &Vec<String>,
    readings: &Vec<Option<Number>>,
    run: IterateArgs,
    line: Seq<Seq<char>>,
    line_readings: Seq<Option<Number>>,
    flag: Seq<char>,
    v: Seq<char>,
    of_flag: Option<Number>,
    of_value: Option<Number>,
)
    requires
        call_ensures(
            parse_iterate_args,
            (args, readings),
            Ok::<Option<IterateArgs>, String>(Some(run)),
        ),
        words(args@) == line + seq![flag, v],
        readings@ == line_readings + seq![of_flag, of_value],
        line_readings.len() == line.len(),
        crate::iterate_args::flags_given(line, line_readings) is Some,
    ensures
        flag == "--engine"@ ==> run.engine@ == v,
        flag == "--weights"@ ==> run.weights@ == v,
        flag == "--golden"@ ==> run.golden@ == v,
        flag == "--score-path"@ ==> run.score_path@ == v,
        flag == "--baseline-prefill-spt"@ ==> run.baseline_prefill_spt == of_value,
        flag == "--baseline-decode-spt"@ ==> run.baseline_decode_spt == of_value,
        flag == "--mode"@ ==> (v == "official"@ <==> run.mode is Official) && (v
            == "local-submit"@ <==> run.mode is LocalSubmit),
{
    if crate::iterate_args::asks_for_a_value(flag) {
        crate::iterate_args::a_flag_sets_its_own_value(
            line,
            line_readings,
            flag,
            v,
            of_flag,
            of_value,
        );
        crate::iterate_args::a_run_is_asked_for_by_its_flags(words(args@), readings@, run);
        only_their_names_stand_for_modes(v);
        reveal_strlit("local-iterate");
        reveal_strlit("local-submit");
        reveal_strlit("official");
        assert("local-iterate"@.len() != "local-submit"@.len());
        assert("local-iterate"@.len() != "official"@.len());
        assert("local-submit"@.len() != "official"@.len());
    }
}

/// A path under the working directory is sealed as what follows it, and a relative path as it is.
pub proof fn a_path_is_sealed_relative_to_its_run(
    path: &str,
    cwd: Option<&str>,
    home: Option<&str>,
    rest: Seq<char>,
    r: String,
)
    requires
        call_ensures(relativize_for_seal, (path, cwd, home), r),
    ensures
        path@.len() == 0 || path@[0] != '/' ==> r@ == path@,
        cwd is Some && cwd->0@.len() > 0 && cwd->0@[0] == '/' && path@ == cwd->0@ + "/"@ + rest
            && rest.len() > 0 && rest[0] != '/' && rest[0] != '.' && rest.last() != '/'
            && rest.last() != '.' ==> r@ == rest,
{
    if cwd is Some && cwd->0@.len() > 0 && cwd->0@[0] == '/' && rest.len() > 0 && rest[0] != '/'
        && rest[0] != '.' && rest.last() != '/' && rest.last() != '.' {
        a_path_under_a_directory_is_sealed_as_what_follows(cwd->0@, rest, cwd, home);
    }
}

} // verus!
