//! What the messages of the program say: each names what it is about, in a fixed order.
use crate::cli_texts::{
    cool_gate_failed, correctness_failed, correctness_missing, correctness_passed,
    engine_handshake, engine_spawn, golden_accept, golden_contract_io, golden_contract_unusable,
    golden_io, golden_no_oracle, golden_pin_reject, golden_schema_reject, golden_shape_only,
    harness_hash_failed, not_implemented, official_elsewhere, sub_failed, sub_missing,
    sub_needs_value, sub_unknown_flag, unknown_subcommand, weights_accept, weights_io,
    weights_reject,
};
use crate::measure_texts::{
    attestation_differs, band_drift, baseline_digest_failed, bootstrap_authored,
    bootstrap_skipped, bootstrap_unnamed, budget_exceeded, calibration_missing_after,
    calibration_missing_before, calibration_other_series, calibration_other_track,
    calibration_unreadable, candidate_digest_failed, correctness_pin_failed, create_failed,
    dflash_head_unset, gates_parse_failed, golden_reread_failed, golden_unloadable,
    golden_unloadable_at, golden_unreadable, golden_unrecognized, goldens_repeat,
    growth_exceeded, handshake_failed, harness_unresolved, head_dir_missing, head_dir_unset,
    integrity_not_object, integrity_seal_unprintable, integrity_unparsable,
    integrity_unprintable, integrity_unreadable, kinds_summary, local_baselines_notice,
    local_flags_ignored, manifest_unreadable, mode_not_admitted, preflight_ok,
    prompt_pin_mismatch, read_failed, reference_pin_failed, results_parse_failed,
    results_unprintable, run_weights_digest_failed, score_unprintable, scoring_disabled,
    single_stream_notice, spawn_failed, tape_unloadable, trusted_scope_notice,
    weights_digest_failed, write_failed, wrote_results, wrote_score,
};
use crate::official_texts::{
    baseline_invalid, baselines_half_set, correctness_spawn_failed, mismatch, mismatch_at_step,
    oracle_missing, proposal_disagrees, record_malformed, record_required, record_unreadable,
};
use crate::usage_texts::{
    baseline_env_set, baseline_flags_half_set, baseline_not_serial, contract_unparsable,
    contract_unreadable, contract_without_pool, cool_gate_conflict, cross_module, depth_over_cap,
    depth_renamed, depth_too_large, depth_zero, flag_needs_value, free_run_window,
    golden_pin_half_set, invalid_count, invalid_golden_bytes, invalid_mode, invalid_number,
    min_pairs_invalid, min_pairs_zero, missing_required, module_missing, no_cool_gate_conflict,
    no_weights, not_a_measure_flag, pool_empty, pool_size_invalid, pool_size_unknown,
    probe_unknown, producer_empty, producer_unreadable, prompt_trio_half_set, sha_malformed,
    spec_and_depth, target_below_min, target_malformed, unknown_flag, zero_min_pairs,
    zero_tokens,
};
use crate::text::{bool_text, debug_char_text, debug_text, decimal, group_says, says};
use vstd::prelude::*;

verus! {

/// How a subcommand words the command lines it refuses: each message says these things, one after
/// the other.
pub proof fn a_refused_command_line_is_told(
    sub: Seq<char>,
    name: Seq<char>,
    flag: Seq<char>,
    cause: Seq<char>,
)
    ensures
        says(
            sub_needs_value(sub, name),
            seq!["benchctl "@].push(sub).push(": "@).push(name).push(" requires a value"@),
        ),
        says(
            sub_unknown_flag(sub, flag),
            seq!["benchctl "@].push(sub).push(": unknown flag "@).push(debug_text(flag)),
        ),
        says(
            sub_missing(sub, name),
            seq!["benchctl "@].push(sub).push(": missing required "@).push(name),
        ),
        says(sub_failed(sub, cause), seq!["benchctl "@].push(sub).push(": "@).push(cause)),
        correctness_missing()
            == "benchctl correctness: --engine, --weights, and --golden are all required"@,
{
    broadcast use group_says;
}

/// How `validate-golden` words what it finds: each message says these things, one after the other.
pub proof fn a_golden_is_told(
    path: Seq<char>,
    cause: Seq<char>,
    sha256: Seq<char>,
    cases: nat,
    gate_cases: nat,
)
    ensures
        says(
            golden_contract_io(path, cause),
            seq!["benchctl validate-golden: IO ERROR reading contract "@].push(path).push(": "@)
                .push(cause),
        ),
        says(
            golden_contract_unusable(path, cause),
            seq!["benchctl validate-golden: contract "@].push(path).push(" is unusable: "@)
                .push(cause),
        ),
        says(
            golden_io(path, cause),
            seq!["benchctl validate-golden: IO ERROR reading "@].push(path).push(": "@)
                .push(cause),
        ),
        says(
            golden_pin_reject(path, cause),
            seq!["benchctl validate-golden: REJECT "@].push(path).push(" (integrity pin): "@)
                .push(cause),
        ),
        says(
            golden_schema_reject(path, cause),
            seq!["benchctl validate-golden: REJECT "@].push(path).push(" (schema): "@).push(cause),
        ),
        says(
            golden_no_oracle(path),
            seq!["benchctl validate-golden: REJECT "@].push(path)
                .push(" (schema): benchmark golden file must contain a benchmark oracle"@),
        ),
        says(
            golden_accept(path, sha256, cases, gate_cases),
            seq!["benchctl validate-golden: ACCEPT "@].push(path).push(" (sha256="@).push(sha256)
                .push(", cases="@).push(decimal(cases)).push(", gate_cases="@)
                .push(decimal(gate_cases)).push(")"@),
        ),
        says(
            golden_shape_only(path),
            seq!["benchctl validate-golden: no --contract given, so the model_provenance block of "@]
                .push(path).push(" was validated for SHAPE only; its values were not checked"@),
        ),
{
    broadcast use group_says;
}

/// How `correctness` and `validate-weights` word what they find: each message says these things,
/// one after the other.
pub proof fn an_engine_and_its_weights_are_told(
    engine: Seq<char>,
    cause: Seq<char>,
    case_count: Seq<char>,
    error: Seq<char>,
    path: Seq<char>,
    bytes: Seq<char>,
    files: Seq<char>,
    cap: Seq<char>,
)
    ensures
        says(
            engine_spawn(engine, cause),
            seq!["benchctl correctness: failed to spawn engine "@].push(debug_text(engine))
                .push(": "@).push(cause),
        ),
        says(
            engine_handshake(cause),
            seq!["benchctl correctness: engine hello handshake failed: "@].push(cause),
        ),
        says(
            correctness_passed(case_count),
            seq!["benchctl correctness: passed=true case_count="@].push(case_count),
        ),
        says(
            correctness_failed(case_count, error),
            seq!["benchctl correctness: passed=false case_count="@].push(case_count)
                .push(" error="@).push(debug_text(error)),
        ),
        says(
            weights_accept(path, bytes, files, cap),
            seq!["benchctl validate-weights: ACCEPT "@].push(path).push(" (bytes="@).push(bytes)
                .push(", files="@).push(files).push(", cap="@).push(cap).push(")"@),
        ),
        says(
            weights_reject(path, cause),
            seq!["benchctl validate-weights: REJECT "@].push(path).push(": "@).push(cause),
        ),
        says(
            weights_io(path, cause),
            seq!["benchctl validate-weights: IO ERROR reading "@].push(path).push(": "@)
                .push(cause),
        ),
{
    broadcast use group_says;
}

/// How the program words its own answers: each message says these things, one after the other.
pub proof fn the_program_answers(cause: Seq<char>, sub: Seq<char>)
    ensures
        says(
            harness_hash_failed(cause),
            seq!["benchctl harness-hash: "@].push(cause)
                .push("; run it with the working directory at the engine workspace root"@),
        ),
        says(cool_gate_failed(cause), seq!["benchctl --local-cool-gate-only: "@].push(cause)),
        official_elsewhere()
            == "benchctl official: run the official benchmark via `benchctl iterate --mode \
         official`"@,
        says(
            not_implemented(sub),
            seq!["benchctl "@].push(sub).push(": not implemented in this wave"@),
        ),
        says(
            unknown_subcommand(sub),
            seq!["benchctl: unknown subcommand "@].push(debug_text(sub)),
        ),
{
    broadcast use group_says;
}

/// How a flag that cannot be taken is worded: each message says these things, one after the other.
pub proof fn a_bad_flag_is_told(
    name: Seq<char>,
    flag: Seq<char>,
    value: Seq<char>,
    mode: Seq<char>,
    bytes: Seq<char>,
)
    ensures
        says(flag_needs_value(name), seq!["flag "@].push(name).push(" requires a value"@)),
        says(unknown_flag(flag), seq!["unknown flag "@].push(debug_text(flag))),
        says(missing_required(name), seq!["missing required "@].push(name)),
        says(
            invalid_number(name, value),
            seq!["invalid f64 for "@].push(name).push(": "@).push(debug_text(value)),
        ),
        says(
            invalid_count(name, value),
            seq!["invalid usize for "@].push(name).push(": "@).push(debug_text(value)),
        ),
        says(
            invalid_mode(mode),
            seq!["invalid --mode "@].push(debug_text(mode))
                .push(" (expected local-iterate, local-submit, or official)"@),
        ),
        cool_gate_conflict() == "--cool-gate conflicts with --no-cool-gate"@,
        no_cool_gate_conflict() == "--no-cool-gate conflicts with --cool-gate"@,
        baseline_flags_half_set()
            == "--baseline-prefill-spt and --baseline-decode-spt must be given together"@,
        says(
            invalid_golden_bytes(bytes),
            seq!["invalid u64 for --golden-bytes: "@].push(debug_text(bytes)),
        ),
        golden_pin_half_set() == "--golden-sha256 and --golden-bytes must be given together"@,
{
    broadcast use group_says;
}

/// How a paired run that cannot be made is worded: each message says these things, one after the
/// other.
pub proof fn a_bad_run_is_told(
    flag: Seq<char>,
    key: Seq<char>,
    depth: nat,
    cap: nat,
    tokens: nat,
    ruled: nat,
    target: nat,
    min: nat,
    raw: Seq<char>,
    bad: char,
    value: Seq<char>,
)
    ensures
        depth_renamed() == "--depth was renamed to --mtp-depth (candidate MTP depth, >= 2; serial \
         control is the depth-0 constant)"@,
        says(
            not_a_measure_flag(flag),
            seq![flag]
                .push(" is not a measure-job flag: the baseline is a WORKSPACE (--baseline <WS>) \
         now, not an engine/seconds-per-token override"@),
        ),
        says(
            baseline_env_set(key),
            seq![key]
                .push(" is set, but measure-job takes the baseline as a WORKSPACE (--baseline \
         <WS>); unset the paired-baseline env override (mutually exclusive)"@),
        ),
        no_weights()
            == "no weights directory: pass --weights <DIR>, or set the env QMTP_TARGET_DIR \
         (the draft's on-box weights source) — neither is set"@,
        spec_and_depth()
            == "--mtp-depth and --candidate-spec are mutually exclusive: --candidate-spec \
         is the explicit spec, and --mtp-depth is only the convenience that builds \
         the default one — pass exactly one (drop --mtp-depth, or fold the depth \
         into --candidate-spec)"@,
        says(
            depth_too_large(depth, cap),
            seq!["--mtp-depth "@].push(decimal(depth))
                .push(" does not fit a u32 (mtp.depth is a u32 module field); a plausible depth is \
         a small integer bounded by the "@)
                .push(decimal(cap)).push(" draft-depth cap"@),
        ),
        zero_tokens() == "--tokens must be > 0 (a zero decode window is invalid)"@,
        says(
            free_run_window(tokens, ruled),
            seq!["--tokens "@].push(decimal(tokens))
                .push(" is invalid for the v1.1 free-run series: PROTOCOL-v1.1 RULES N = "@)
                .push(decimal(ruled))
                .push(" (BENCHMARK_DECODE_STEPS). A speculating --candidate-spec/--mtp-depth \
         selects the free-run regime, whose window is fixed; drop --tokens, or pass \
         a serial --candidate-spec to measure the teacher-forced series at your own \
         window."@),
        ),
        zero_min_pairs() == "--min-pairs (per prompt) must be >= 1"@,
        says(
            target_below_min(target, min),
            seq!["--target-pairs ("@].push(decimal(target)).push(") must be >= --min-pairs ("@)
                .push(decimal(min)).push(") [per prompt]"@),
        ),
        prompt_trio_half_set()
            == "--prompt, --prompt-sha256 and --target-id are ALL-THREE-OR-NONE (an \
         explicit prompt must carry its pinned sha256 and target-id)"@,
        producer_empty()
            == "--gates-producer must not be empty (omit the flag to record 'undeclared')"@,
        says(
            producer_unreadable(raw, bad),
            seq!["--gates-producer "@].push(debug_text(raw)).push(" contains "@)
                .push(debug_char_text(bad))
                .push(": the value is sealed into an artifact, so whitespace and control \
         characters are refused"@),
        ),
        says(
            probe_unknown(value),
            seq!["--exactness-probe "@].push(debug_text(value))
                .push(" is not one of none|once|per-prompt|per-pair"@),
        ),
        says(
            sha_malformed(value),
            seq!["--prompt-sha256 "@].push(debug_text(value)).push(" is not 64 lowercase hex"@),
        ),
        says(
            target_malformed(value),
            seq!["--target-id "@].push(debug_text(value)).push(" does not match [A-Za-z0-9._-]+"@),
        ),
{
    broadcast use group_says;
}

/// How a pool that cannot be told is worded: each message says these things, one after the other.
pub proof fn a_missing_pool_is_told(value: Seq<char>, cause: Seq<char>, path: Seq<char>)
    ensures
        says(
            pool_size_invalid(value, cause),
            seq!["MLXFAST_QWEN_MTP_POOL_SIZE ("@].push(debug_text(value))
                .push(") is not a valid pool size: "@).push(cause),
        ),
        pool_size_unknown()
            == "pool_size unknown: set MLXFAST_QWEN_MTP_POOL_SIZE or pass --contract \
         <fixture> (fail-closed, no score)"@,
        says(
            contract_unreadable(path, cause),
            seq!["--contract read failed ("@].push(path).push("): "@).push(cause),
        ),
        says(contract_unparsable(cause), seq!["--contract parse failed: "@].push(cause)),
        contract_without_pool() == "--contract fixture has no `timed_prompt_pool` array"@,
        pool_empty() == "resolved pool_size is 0: the pool must have at least one prompt"@,
        says(
            min_pairs_invalid(value, cause),
            seq!["MLXFAST_QWEN_MTP_MIN_PAIRS_PER_PROMPT ("@].push(debug_text(value))
                .push(") is not a valid count: "@).push(cause),
        ),
        min_pairs_zero()
            == "MLXFAST_QWEN_MTP_MIN_PAIRS_PER_PROMPT is 0: at least 1 pair per prompt is required"@,
{
    broadcast use group_says;
}

/// How a spec that is refused is worded: each message says these things, one after the other.
pub proof fn a_bad_spec_is_told(mode: Seq<char>, key: Seq<char>, depth: nat, cap: nat)
    ensures
        says(
            baseline_not_serial(mode),
            seq!["--baseline-spec mode "@].push(debug_text(mode))
                .push(" is refused: the baseline is the serial denominator, so its spec must be \
         {\"mode\":\"serial\"}"@),
        ),
        says(
            cross_module(mode, key),
            seq!["spec mode "@].push(debug_text(mode)).push(" carries the cross-module key "@)
                .push(debug_text(key)).push(": a spec holds the block of its own mode only"@),
        ),
        says(
            module_missing(mode),
            seq!["spec mode "@].push(debug_text(mode)).push(" carries no "@)
                .push(debug_text(mode)).push(" block"@),
        ),
        depth_zero() == "mtp.depth 0 is the serial control: an mtp spec needs a depth >= 1"@,
        says(
            depth_over_cap(depth, cap),
            seq!["mtp.depth "@].push(decimal(depth)).push(" exceeds the "@).push(decimal(cap))
                .push(" draft-depth cap"@),
        ),
{
    broadcast use group_says;
}

/// How an input or an integrity record that cannot be read is worded: each message says these
/// things, one after the other.
pub proof fn a_bad_record_is_told(path: Seq<char>, cause: Seq<char>, flag: Seq<char>)
    ensures
        says(
            integrity_unreadable(path, cause),
            seq!["--integrity read failed ("@].push(path).push("): "@).push(cause),
        ),
        says(integrity_unparsable(cause), seq!["--integrity parse failed: "@].push(cause)),
        integrity_not_object() == "--integrity is not a JSON object"@,
        says(
            integrity_unprintable(cause),
            seq!["--integrity serialization failed: "@].push(cause),
        ),
        says(
            read_failed(flag, path, cause),
            seq![flag].push(" read failed ("@).push(path).push("): "@).push(cause),
        ),
        says(gates_parse_failed(cause), seq!["--gates-score parse failed: "@].push(cause)),
        says(results_parse_failed(cause), seq!["results.json parse failed: "@].push(cause)),
{
    broadcast use group_says;
}

/// How a prerequisite that is not met is worded: each message says these things, one after the
/// other.
pub proof fn a_failed_prerequisite_is_told(
    cause: Seq<char>,
    path: Seq<char>,
    actual: Seq<char>,
    pinned: Seq<char>,
    label: Seq<char>,
    dir: Seq<char>,
)
    ensures
        says(reference_pin_failed(cause), seq!["--contract reference-model pin: "@].push(cause)),
        says(
            correctness_pin_failed(cause),
            seq!["--contract correctness-golden pin: "@].push(cause),
        ),
        says(
            prompt_pin_mismatch(path, actual, pinned),
            seq!["--prompt file "@].push(path).push(" hashes to "@).push(actual)
                .push(", but --prompt-sha256 pins "@).push(pinned).push(" (die 8)"@),
        ),
        says(
            manifest_unreadable(path, cause),
            seq!["trusted-ref benchmark.json read failed ("@].push(path).push("): "@).push(cause),
        ),
        says(budget_exceeded(cause), seq!["editable-surface byte budget: "@].push(cause)),
        says(growth_exceeded(cause), seq!["editable-surface growth: "@].push(cause)),
        says(
            head_dir_missing(label, dir),
            seq![label].push(" does not exist or is not a directory: "@).push(dir)
                .push(" (die 8)"@),
        ),
        says(
            weights_digest_failed(path, cause),
            seq!["--weights digest failed ("@].push(path).push("): "@).push(cause),
        ),
        says(
            candidate_digest_failed(path, cause),
            seq!["candidate workspace digest failed ("@].push(path).push("): "@).push(cause),
        ),
        says(
            baseline_digest_failed(path, cause),
            seq!["baseline workspace digest failed ("@].push(path).push("): "@).push(cause),
        ),
{
    broadcast use group_says;
}

/// How a calibration that cannot be used is worded: each message says these things, one after the
/// other.
pub proof fn a_bad_calibration_is_told(
    path: Seq<char>,
    cause: Seq<char>,
    sealed: Seq<char>,
    run: Seq<char>,
    reason: Seq<char>,
)
    ensures
        says(
            calibration_unreadable(path, cause),
            seq!["BASELINE_CALIBRATION read failed ("@].push(path).push("): "@).push(cause),
        ),
        says(
            calibration_other_series(sealed, run),
            seq!["BASELINE_CALIBRATION timed_mode "@].push(debug_text(sealed))
                .push(" is NOT comparable with the series of this run ("@).push(debug_text(run))
                .push("): a band of one series never gates a run of another (die 6)"@),
        ),
        says(
            calibration_other_track(sealed, run),
            seq!["BASELINE_CALIBRATION track_id "@].push(debug_text(sealed))
                .push(" is not the track of this run ("@).push(debug_text(run))
                .push("): a band of one track never gates a run of another (die 6)"@),
        ),
        calibration_missing_before()
            == "no BASELINE_CALIBRATION but BASELINE_BAND_ENFORCE=1 (default) — cannot \
         validate the serial baseline; failing closed PRE-GPU (die 6) before opening \
         the timed window. Set BASELINE_BAND_ENFORCE=0 or pass \
         --calibration-bootstrap to author one."@,
        calibration_missing_after()
            == "no BASELINE_CALIBRATION but BASELINE_BAND_ENFORCE=1 (default) — cannot \
         validate the serial baseline; failing closed (die 6). Set \
         BASELINE_BAND_ENFORCE=0 or pass --calibration-bootstrap to author one."@,
        says(band_drift(reason), seq!["benchctl measure-job: "@].push(reason)),
{
    broadcast use group_says;
}

/// How a broken rule of the track is worded: each message says these things, one after the other.
pub proof fn a_broken_rule_of_the_track_is_told()
    ensures
        goldens_repeat()
            == "a --golden digest occurs twice: every golden of a run must be a different one \
         (die 8)"@,
        mode_not_admitted()
            == "the candidate mode is not admitted by this track: the admitted modes are the \
         --contract track fixture's allowed_modes where it declares a valid list, and \
         [serial, mtp] where it declares none (die 8)"@,
        attestation_differs()
            == "the --correctness-golden attestation does not cite the --contract track fixture's \
         hidden_correctness_golden pin (die 8)"@,
        scoring_disabled()
            == "official scoring is not enabled for this track: an official run needs a --contract \
         track fixture that declares official_scoring_enabled: true (die 8)"@,
        dflash_head_unset()
            == "QMTP_DFLASH_HEAD_DIR is unset: a candidate that declares mode dflash needs the \
         pinned drafter (die 8)"@,
        head_dir_unset() == "QMTP_HEAD_DIR is unset: the pinned native-MTP head is required for a \
         measure run (the serial leg loads it; the candidate leg defaults to it) — \
         die 8"@,
{
}

/// How a run that ends without a score is worded: each message says these things, one after the
/// other.
pub proof fn a_run_without_a_score_is_told(
    cause: Seq<char>,
    path: Seq<char>,
    tape: Seq<char>,
    tape_keys: Seq<char>,
    golden: Seq<char>,
    golden_keys: Seq<char>,
    engine: Seq<char>,
)
    ensures
        says(results_unprintable(cause), seq!["results.json serialization failed: "@].push(cause)),
        says(
            integrity_seal_unprintable(cause),
            seq!["integrity serialization failed: "@].push(cause),
        ),
        says(
            write_failed(path, cause),
            seq!["could not write "@].push(path).push(": "@).push(cause),
        ),
        says(
            create_failed(path, cause),
            seq!["could not create "@].push(path).push(": "@).push(cause),
        ),
        says(
            harness_unresolved(cause),
            seq!["harness identity could not be resolved for this workspace ("@].push(cause)
                .push("); benchctl iterate must run with its working directory at the engine \
         workspace root, and refuses the run rather than seal an empty or partial \
         metrics.harness_hash"@),
        ),
        says(
            run_weights_digest_failed(path, cause),
            seq!["weights digest failed ("@].push(path).push("): "@).push(cause),
        ),
        says(score_unprintable(cause), seq!["score serialization failed: "@].push(cause)),
        says(
            golden_reread_failed(cause),
            seq!["golden re-read for integrity failed: "@].push(cause),
        ),
        says(
            golden_unreadable(path, cause),
            seq!["golden read failed ("@].push(path).push("): "@).push(cause),
        ),
        says(golden_unloadable(cause), seq!["golden load failed: "@].push(cause)),
        says(
            tape_unloadable(path, cause),
            seq!["timed-prompt tape load failed ("@].push(path).push("): "@).push(cause),
        ),
        says(golden_unloadable_at(cause, path), seq![cause].push(" ("@).push(path).push(")"@)),
        says(
            golden_unrecognized(path, tape, tape_keys, golden, golden_keys),
            seq!["--golden "@].push(path).push(" matches NEITHER accepted shape: a "@).push(tape)
                .push(" needs "@).push(tape_keys).push(", a "@).push(golden).push(" needs "@)
                .push(golden_keys).push(" (the live timed_prompt_pool pins tapes)"@),
        ),
        says(
            spawn_failed(engine, cause),
            seq!["failed to spawn engine "@].push(debug_text(engine)).push(": "@).push(cause),
        ),
        says(handshake_failed(cause), seq!["engine hello handshake failed: "@].push(cause)),
{
    broadcast use group_says;
}

/// How a run words what it reports: each message says these things, one after the other.
pub proof fn a_run_reports(
    mode: Seq<char>,
    prefill: Seq<char>,
    decode: Seq<char>,
    sub: Seq<char>,
    path: Seq<char>,
    passed: bool,
    score: Seq<char>,
    pairs: nat,
    accepted: bool,
    count: nat,
    kinds: Seq<char>,
    candidate: Seq<char>,
    baseline: Seq<char>,
    tape: Seq<char>,
    tapes: nat,
    golden: Seq<char>,
    goldens: nat,
    target: Seq<char>,
    mean: Seq<char>,
    tokens: nat,
    parity: bool,
    width: nat,
    modes: Seq<char>,
)
    ensures
        says(
            local_baselines_notice(mode, prefill, decode),
            seq!["benchctl iterate: "@].push(mode).push(" baseline prefill_seconds_per_token="@)
                .push(prefill).push(" decode_seconds_per_token="@).push(decode)
                .push(" (official-runner constants; local speedups are directional)"@),
        ),
        says(
            local_flags_ignored(mode),
            seq!["benchctl iterate: --baseline-prefill-spt/--baseline-decode-spt are IGNORED on "@]
                .push(mode)
                .push(" (#127: local baselines come from the constants, as the reference's \
         localIterate does); the run scores against the constants above"@),
        ),
        says(
            wrote_score(sub, path, passed, score),
            seq!["benchctl "@].push(sub).push(": wrote "@).push(path).push(" (passed="@)
                .push(bool_text(passed)).push(", score="@).push(score).push(")"@),
        ),
        says(
            wrote_results(path, pairs, accepted),
            seq!["benchctl measure-job: wrote "@].push(path).push(" (accepted_pairs="@)
                .push(decimal(pairs)).push(", candidate_accepted="@).push(bool_text(accepted))
                .push(")"@),
        ),
        says(
            preflight_ok(count, kinds, candidate, baseline),
            seq!["benchctl measure-job: --preflight-only OK ("@].push(decimal(count))
                .push(" golden(s) ["@).push(kinds).push("], candidate="@).push(candidate)
                .push(", baseline="@).push(baseline)
                .push(") — pre-GPU checks passed, not measuring"@),
        ),
        says(
            kinds_summary(tape, tapes, golden, goldens),
            seq![tape].push("="@).push(decimal(tapes)).push(" "@).push(golden).push("="@)
                .push(decimal(goldens)),
        ),
        says(
            bootstrap_authored(target, path, mean, tokens),
            seq!["benchctl measure-job: --calibration-bootstrap authored targets["@].push(target)
                .push("] in "@).push(path).push(" (serial_mean="@).push(mean)
                .push(", decode_tokens="@).push(decimal(tokens)).push(")"@),
        ),
        bootstrap_unnamed()
            == "benchctl measure-job: --calibration-bootstrap needs both --target-id and a \
         BASELINE_CALIBRATION destination path to author; skipping the write."@,
        says(
            bootstrap_skipped(accepted, parity),
            seq!["benchctl measure-job: --calibration-bootstrap SKIPPED authoring — the run \
         was not fully accepted + parity-true (candidate_accepted="@]
                .push(bool_text(accepted)).push(", parity_all_ok="@).push(bool_text(parity))
                .push(")."@),
        ),
        says(
            trusted_scope_notice(path),
            seq!["NOTICE trusted-scope freeze: no benchmark.json under the trusted ref "@]
                .push(path)
                .push(" — not binding (editable surface declared elsewhere; the manifest is \
         operator-controlled, so this skip is correct-by-construction)"@),
        ),
        says(
            single_stream_notice(width, mode, modes),
            seq!["benchctl measure-job: --contract pins scored_batch_size Some("@]
                .push(decimal(width)).push("), but the candidate mode "@).push(debug_text(mode))
                .push(" is SINGLE-STREAM ONLY, so this run measures the single-stream series and \
         not the batched cohort. Admitted modes for this track: "@)
                .push(modes).push("."@),
        ),
{
    broadcast use group_says;
}

/// How an official run words what it refuses and what it seals: each message says these things, one
/// after the other.
pub proof fn an_official_run_is_told(
    record: Seq<char>,
    proposed: Seq<char>,
    path: Seq<char>,
    cause: Seq<char>,
    key: Seq<char>,
    label: Seq<char>,
    step: nat,
)
    ensures
        record_required()
            == "author-at-seal: a scoring/ranked seal requires the dispatched commit record \
         (candidate.sha via MLXFAST_CANDIDATE_SHA_FILE); none was present — refusing \
         to fall back to the box git identity on a scoring run (pass --local-dev for \
         the unbound local resolution)"@,
        says(
            record_malformed(record),
            seq!["author-at-seal: the dispatch record (candidate.sha) is "@]
                .push(debug_text(record))
                .push(", not a 40-character lowercase-hex commit sha; refusing to seal a score \
         against an unidentified dispatch"@),
        ),
        says(
            proposal_disagrees(proposed, record),
            seq!["author-at-seal: the proposed commit (MLXFAST_COMMIT_SHA) "@]
                .push(debug_text(proposed)).push(" disagrees with the dispatched record "@)
                .push(debug_text(record))
                .push("; refusing (the dispatch record is the sole authority for metrics.commit)"@),
        ),
        says(
            record_unreadable(path, cause),
            seq!["author-at-seal: MLXFAST_CANDIDATE_SHA_FILE="@].push(path)
                .push(" is unreadable ("@).push(cause)
                .push("); refusing to seal against an unidentified dispatch"@),
        ),
        baselines_half_set() == "MLXFAST_PAIRED_BASELINE_PREFILL_SECONDS_PER_TOKEN and \
         MLXFAST_PAIRED_BASELINE_DECODE_SECONDS_PER_TOKEN must be provided together"@,
        says(
            baseline_invalid(key),
            seq![key].push(" must be a finite positive seconds-per-token value"@),
        ),
        oracle_missing() == "benchmark golden file must contain a benchmark oracle"@,
        says(
            mismatch_at_step(label, step),
            seq![label].push(" mismatch at step "@).push(decimal(step)),
        ),
        says(mismatch(label), seq![label].push(" mismatch"@)),
        says(
            correctness_spawn_failed(cause),
            seq!["correctness worker spawn failed: "@].push(cause),
        ),
{
    broadcast use group_says;
}

} // verus!
