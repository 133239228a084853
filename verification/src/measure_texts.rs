//! The texts of the runs: their refusals, their notices and their reports.
use crate::text::{bool_text, bool_word, count_text, debug_text, decimal, quoted};
use vstd::prelude::*;

verus! {

/// An integrity anchor that could not be read.
pub open spec fn integrity_unreadable(path: Seq<char>, cause: Seq<char>) -> Seq<char> {
    "--integrity read failed ("@
        + path
        + "): "@
        + cause
}

pub fn say_integrity_unreadable(path: &str, cause: &str) -> (m: String)
    ensures
        m@ == integrity_unreadable(path@, cause@),
{
    let mut m = "--integrity read failed (".to_owned();
    m.append(path);
    m.append("): ");
    m.append(cause);
    m
}

/// An integrity anchor that is no document.
pub open spec fn integrity_unparsable(cause: Seq<char>) -> Seq<char> {
    "--integrity parse failed: "@
        + cause
}

pub fn say_integrity_unparsable(cause: &str) -> (m: String)
    ensures
        m@ == integrity_unparsable(cause@),
{
    let mut m = "--integrity parse failed: ".to_owned();
    m.append(cause);
    m
}

/// An integrity anchor that is no object.
pub open spec fn integrity_not_object() -> Seq<char> {
    "--integrity is not a JSON object"@
}

pub fn say_integrity_not_object() -> (m: String)
    ensures
        m@ == integrity_not_object(),
{
    "--integrity is not a JSON object".to_owned()
}

/// An integrity anchor that could not be written out.
pub open spec fn integrity_unprintable(cause: Seq<char>) -> Seq<char> {
    "--integrity serialization failed: "@
        + cause
}

pub fn say_integrity_unprintable(cause: &str) -> (m: String)
    ensures
        m@ == integrity_unprintable(cause@),
{
    let mut m = "--integrity serialization failed: ".to_owned();
    m.append(cause);
    m
}

/// A file that a flag names and that could not be read.
pub open spec fn read_failed(flag: Seq<char>, path: Seq<char>, cause: Seq<char>) -> Seq<char> {
    flag
        + " read failed ("@
        + path
        + "): "@
        + cause
}

pub fn say_read_failed(flag: &str, path: &str, cause: &str) -> (m: String)
    ensures
        m@ == read_failed(flag@, path@, cause@),
{
    let mut m = flag.to_owned();
    m.append(" read failed (");
    m.append(path);
    m.append("): ");
    m.append(cause);
    m
}

/// A gates score that is none.
pub open spec fn gates_parse_failed(cause: Seq<char>) -> Seq<char> {
    "--gates-score parse failed: "@
        + cause
}

pub fn say_gates_parse_failed(cause: &str) -> (m: String)
    ensures
        m@ == gates_parse_failed(cause@),
{
    let mut m = "--gates-score parse failed: ".to_owned();
    m.append(cause);
    m
}

/// Results that are none.
pub open spec fn results_parse_failed(cause: Seq<char>) -> Seq<char> {
    "results.json parse failed: "@
        + cause
}

pub fn say_results_parse_failed(cause: &str) -> (m: String)
    ensures
        m@ == results_parse_failed(cause@),
{
    let mut m = "results.json parse failed: ".to_owned();
    m.append(cause);
    m
}

/// A contract whose reference model is not usable.
pub open spec fn reference_pin_failed(cause: Seq<char>) -> Seq<char> {
    "--contract reference-model pin: "@
        + cause
}

pub fn say_reference_pin_failed(cause: &str) -> (m: String)
    ensures
        m@ == reference_pin_failed(cause@),
{
    let mut m = "--contract reference-model pin: ".to_owned();
    m.append(cause);
    m
}

/// A contract whose correctness golden is not usable.
pub open spec fn correctness_pin_failed(cause: Seq<char>) -> Seq<char> {
    "--contract correctness-golden pin: "@
        + cause
}

pub fn say_correctness_pin_failed(cause: &str) -> (m: String)
    ensures
        m@ == correctness_pin_failed(cause@),
{
    let mut m = "--contract correctness-golden pin: ".to_owned();
    m.append(cause);
    m
}

/// A prompt that is not the pinned one.
pub open spec fn prompt_pin_mismatch(path: Seq<char>, actual: Seq<char>, pinned: Seq<char>) -> Seq<char> {
    "--prompt file "@
        + path
        + " hashes to "@
        + actual
        + ", but --prompt-sha256 pins "@
        + pinned
        + " (die 8)"@
}

pub fn say_prompt_pin_mismatch(path: &str, actual: &str, pinned: &str) -> (m: String)
    ensures
        m@ == prompt_pin_mismatch(path@, actual@, pinned@),
{
    let mut m = "--prompt file ".to_owned();
    m.append(path);
    m.append(" hashes to ");
    m.append(actual);
    m.append(", but --prompt-sha256 pins ");
    m.append(pinned);
    m.append(" (die 8)");
    m
}

/// A trusted manifest that could not be read.
pub open spec fn manifest_unreadable(path: Seq<char>, cause: Seq<char>) -> Seq<char> {
    "trusted-ref benchmark.json read failed ("@
        + path
        + "): "@
        + cause
}

pub fn say_manifest_unreadable(path: &str, cause: &str) -> (m: String)
    ensures
        m@ == manifest_unreadable(path@, cause@),
{
    let mut m = "trusted-ref benchmark.json read failed (".to_owned();
    m.append(path);
    m.append("): ");
    m.append(cause);
    m
}

/// An editable surface beyond its budget.
pub open spec fn budget_exceeded(cause: Seq<char>) -> Seq<char> {
    "editable-surface byte budget: "@
        + cause
}

pub fn say_budget_exceeded(cause: &str) -> (m: String)
    ensures
        m@ == budget_exceeded(cause@),
{
    let mut m = "editable-surface byte budget: ".to_owned();
    m.append(cause);
    m
}

/// An editable surface that grew too much.
pub open spec fn growth_exceeded(cause: Seq<char>) -> Seq<char> {
    "editable-surface growth: "@
        + cause
}

pub fn say_growth_exceeded(cause: &str) -> (m: String)
    ensures
        m@ == growth_exceeded(cause@),
{
    let mut m = "editable-surface growth: ".to_owned();
    m.append(cause);
    m
}

/// A head directory that is none.
pub open spec fn head_dir_missing(label: Seq<char>, dir: Seq<char>) -> Seq<char> {
    label
        + " does not exist or is not a directory: "@
        + dir
        + " (die 8)"@
}

pub fn say_head_dir_missing(label: &str, dir: &str) -> (m: String)
    ensures
        m@ == head_dir_missing(label@, dir@),
{
    let mut m = label.to_owned();
    m.append(" does not exist or is not a directory: ");
    m.append(dir);
    m.append(" (die 8)");
    m
}

/// Weights that could not be digested.
pub open spec fn weights_digest_failed(path: Seq<char>, cause: Seq<char>) -> Seq<char> {
    "--weights digest failed ("@
        + path
        + "): "@
        + cause
}

pub fn say_weights_digest_failed(path: &str, cause: &str) -> (m: String)
    ensures
        m@ == weights_digest_failed(path@, cause@),
{
    let mut m = "--weights digest failed (".to_owned();
    m.append(path);
    m.append("): ");
    m.append(cause);
    m
}

/// A candidate workspace that could not be digested.
pub open spec fn candidate_digest_failed(path: Seq<char>, cause: Seq<char>) -> Seq<char> {
    "candidate workspace digest failed ("@
        + path
        + "): "@
        + cause
}

pub fn say_candidate_digest_failed(path: &str, cause: &str) -> (m: String)
    ensures
        m@ == candidate_digest_failed(path@, cause@),
{
    let mut m = "candidate workspace digest failed (".to_owned();
    m.append(path);
    m.append("): ");
    m.append(cause);
    m
}

/// A baseline workspace that could not be digested.
pub open spec fn baseline_digest_failed(path: Seq<char>, cause: Seq<char>) -> Seq<char> {
    "baseline workspace digest failed ("@
        + path
        + "): "@
        + cause
}

pub fn say_baseline_digest_failed(path: &str, cause: &str) -> (m: String)
    ensures
        m@ == baseline_digest_failed(path@, cause@),
{
    let mut m = "baseline workspace digest failed (".to_owned();
    m.append(path);
    m.append("): ");
    m.append(cause);
    m
}

/// A calibration that could not be read.
pub open spec fn calibration_unreadable(path: Seq<char>, cause: Seq<char>) -> Seq<char> {
    "BASELINE_CALIBRATION read failed ("@
        + path
        + "): "@
        + cause
}

pub fn say_calibration_unreadable(path: &str, cause: &str) -> (m: String)
    ensures
        m@ == calibration_unreadable(path@, cause@),
{
    let mut m = "BASELINE_CALIBRATION read failed (".to_owned();
    m.append(path);
    m.append("): ");
    m.append(cause);
    m
}

/// A calibration of another series.
pub open spec fn calibration_other_series(sealed: Seq<char>, run: Seq<char>) -> Seq<char> {
    "BASELINE_CALIBRATION timed_mode "@
        + debug_text(sealed)
        + " is NOT comparable with the series of this run ("@
        + debug_text(run)
        + "): a band of one series never gates a run of another (die 6)"@
}

pub fn say_calibration_other_series(sealed: &str, run: &str) -> (m: String)
    ensures
        m@ == calibration_other_series(sealed@, run@),
{
    let mut m = "BASELINE_CALIBRATION timed_mode ".to_owned();
    m.append(quoted(sealed).as_str());
    m.append(" is NOT comparable with the series of this run (");
    m.append(quoted(run).as_str());
    m.append("): a band of one series never gates a run of another (die 6)");
    m
}

/// A calibration of another track.
pub open spec fn calibration_other_track(sealed: Seq<char>, run: Seq<char>) -> Seq<char> {
    "BASELINE_CALIBRATION track_id "@
        + debug_text(sealed)
        + " is not the track of this run ("@
        + debug_text(run)
        + "): a band of one track never gates a run of another (die 6)"@
}

pub fn say_calibration_other_track(sealed: &str, run: &str) -> (m: String)
    ensures
        m@ == calibration_other_track(sealed@, run@),
{
    let mut m = "BASELINE_CALIBRATION track_id ".to_owned();
    m.append(quoted(sealed).as_str());
    m.append(" is not the track of this run (");
    m.append(quoted(run).as_str());
    m.append("): a band of one track never gates a run of another (die 6)");
    m
}

/// No calibration, before anything is measured.
pub open spec fn calibration_missing_before() -> Seq<char> {
    "no BASELINE_CALIBRATION but BASELINE_BAND_ENFORCE=1 (default) — cannot \
         validate the serial baseline; failing closed PRE-GPU (die 6) before opening \
         the timed window. Set BASELINE_BAND_ENFORCE=0 or pass \
         --calibration-bootstrap to author one."@
}

pub fn say_calibration_missing_before() -> (m: String)
    ensures
        m@ == calibration_missing_before(),
{
    "no BASELINE_CALIBRATION but BASELINE_BAND_ENFORCE=1 (default) — cannot \
         validate the serial baseline; failing closed PRE-GPU (die 6) before opening \
         the timed window. Set BASELINE_BAND_ENFORCE=0 or pass \
         --calibration-bootstrap to author one.".to_owned()
}

/// No calibration, after the run was measured.
pub open spec fn calibration_missing_after() -> Seq<char> {
    "no BASELINE_CALIBRATION but BASELINE_BAND_ENFORCE=1 (default) — cannot \
         validate the serial baseline; failing closed (die 6). Set \
         BASELINE_BAND_ENFORCE=0 or pass --calibration-bootstrap to author one."@
}

pub fn say_calibration_missing_after() -> (m: String)
    ensures
        m@ == calibration_missing_after(),
{
    "no BASELINE_CALIBRATION but BASELINE_BAND_ENFORCE=1 (default) — cannot \
         validate the serial baseline; failing closed (die 6). Set \
         BASELINE_BAND_ENFORCE=0 or pass --calibration-bootstrap to author one.".to_owned()
}

/// Two goldens of the same bytes.
pub open spec fn goldens_repeat() -> Seq<char> {
    "a --golden digest occurs twice: every golden of a run must be a different one \
         (die 8)"@
}

pub fn say_goldens_repeat() -> (m: String)
    ensures
        m@ == goldens_repeat(),
{
    "a --golden digest occurs twice: every golden of a run must be a different one \
         (die 8)".to_owned()
}

/// A candidate in a mode that the track does not admit.
pub open spec fn mode_not_admitted() -> Seq<char> {
    "the candidate mode is not admitted by this track: the admitted modes are the \
         --contract track fixture's allowed_modes where it declares a valid list, and \
         [serial, mtp] where it declares none (die 8)"@
}

pub fn say_mode_not_admitted() -> (m: String)
    ensures
        m@ == mode_not_admitted(),
{
    "the candidate mode is not admitted by this track: the admitted modes are the \
         --contract track fixture's allowed_modes where it declares a valid list, and \
         [serial, mtp] where it declares none (die 8)".to_owned()
}

/// A correctness golden that is not the pinned one.
pub open spec fn attestation_differs() -> Seq<char> {
    "the --correctness-golden attestation does not cite the --contract track fixture's \
         hidden_correctness_golden pin (die 8)"@
}

pub fn say_attestation_differs() -> (m: String)
    ensures
        m@ == attestation_differs(),
{
    "the --correctness-golden attestation does not cite the --contract track fixture's \
         hidden_correctness_golden pin (die 8)".to_owned()
}

/// An official run on a track that is not enabled.
pub open spec fn scoring_disabled() -> Seq<char> {
    "official scoring is not enabled for this track: an official run needs a --contract \
         track fixture that declares official_scoring_enabled: true (die 8)"@
}

pub fn say_scoring_disabled() -> (m: String)
    ensures
        m@ == scoring_disabled(),
{
    "official scoring is not enabled for this track: an official run needs a --contract \
         track fixture that declares official_scoring_enabled: true (die 8)".to_owned()
}

/// A candidate without the drafter it needs.
pub open spec fn dflash_head_unset() -> Seq<char> {
    "QMTP_DFLASH_HEAD_DIR is unset: a candidate that declares mode dflash needs the \
         pinned drafter (die 8)"@
}

pub fn say_dflash_head_unset() -> (m: String)
    ensures
        m@ == dflash_head_unset(),
{
    "QMTP_DFLASH_HEAD_DIR is unset: a candidate that declares mode dflash needs the \
         pinned drafter (die 8)".to_owned()
}

/// No head directory is named.
pub open spec fn head_dir_unset() -> Seq<char> {
    "QMTP_HEAD_DIR is unset: the pinned native-MTP head is required for a \
         measure run (the serial leg loads it; the candidate leg defaults to it) — \
         die 8"@
}

pub fn say_head_dir_unset() -> (m: String)
    ensures
        m@ == head_dir_unset(),
{
    "QMTP_HEAD_DIR is unset: the pinned native-MTP head is required for a \
         measure run (the serial leg loads it; the candidate leg defaults to it) — \
         die 8".to_owned()
}

/// Results that could not be written out.
pub open spec fn results_unprintable(cause: Seq<char>) -> Seq<char> {
    "results.json serialization failed: "@
        + cause
}

pub fn say_results_unprintable(cause: &str) -> (m: String)
    ensures
        m@ == results_unprintable(cause@),
{
    let mut m = "results.json serialization failed: ".to_owned();
    m.append(cause);
    m
}

/// An integrity seal that could not be written out.
pub open spec fn integrity_seal_unprintable(cause: Seq<char>) -> Seq<char> {
    "integrity serialization failed: "@
        + cause
}

pub fn say_integrity_seal_unprintable(cause: &str) -> (m: String)
    ensures
        m@ == integrity_seal_unprintable(cause@),
{
    let mut m = "integrity serialization failed: ".to_owned();
    m.append(cause);
    m
}

/// A file that could not be written.
pub open spec fn write_failed(path: Seq<char>, cause: Seq<char>) -> Seq<char> {
    "could not write "@
        + path
        + ": "@
        + cause
}

pub fn say_write_failed(path: &str, cause: &str) -> (m: String)
    ensures
        m@ == write_failed(path@, cause@),
{
    let mut m = "could not write ".to_owned();
    m.append(path);
    m.append(": ");
    m.append(cause);
    m
}

/// A directory that could not be made.
pub open spec fn create_failed(path: Seq<char>, cause: Seq<char>) -> Seq<char> {
    "could not create "@
        + path
        + ": "@
        + cause
}

pub fn say_create_failed(path: &str, cause: &str) -> (m: String)
    ensures
        m@ == create_failed(path@, cause@),
{
    let mut m = "could not create ".to_owned();
    m.append(path);
    m.append(": ");
    m.append(cause);
    m
}

/// The harness of a run could not be identified.
pub open spec fn harness_unresolved(cause: Seq<char>) -> Seq<char> {
    "harness identity could not be resolved for this workspace ("@
        + cause
        + "); benchctl iterate must run with its working directory at the engine \
         workspace root, and refuses the run rather than seal an empty or partial \
         metrics.harness_hash"@
}

pub fn say_harness_unresolved(cause: &str) -> (m: String)
    ensures
        m@ == harness_unresolved(cause@),
{
    let mut m = "harness identity could not be resolved for this workspace (".to_owned();
    m.append(cause);
    m.append("); benchctl iterate must run with its working directory at the engine \
         workspace root, and refuses the run rather than seal an empty or partial \
         metrics.harness_hash");
    m
}

/// The weights of a run could not be digested.
pub open spec fn run_weights_digest_failed(path: Seq<char>, cause: Seq<char>) -> Seq<char> {
    "weights digest failed ("@
        + path
        + "): "@
        + cause
}

pub fn say_run_weights_digest_failed(path: &str, cause: &str) -> (m: String)
    ensures
        m@ == run_weights_digest_failed(path@, cause@),
{
    let mut m = "weights digest failed (".to_owned();
    m.append(path);
    m.append("): ");
    m.append(cause);
    m
}

/// A score that could not be written out.
pub open spec fn score_unprintable(cause: Seq<char>) -> Seq<char> {
    "score serialization failed: "@
        + cause
}

pub fn say_score_unprintable(cause: &str) -> (m: String)
    ensures
        m@ == score_unprintable(cause@),
{
    let mut m = "score serialization failed: ".to_owned();
    m.append(cause);
    m
}

/// A golden that could not be read again.
pub open spec fn golden_reread_failed(cause: Seq<char>) -> Seq<char> {
    "golden re-read for integrity failed: "@
        + cause
}

pub fn say_golden_reread_failed(cause: &str) -> (m: String)
    ensures
        m@ == golden_reread_failed(cause@),
{
    let mut m = "golden re-read for integrity failed: ".to_owned();
    m.append(cause);
    m
}

/// A golden that could not be read.
pub open spec fn golden_unreadable(path: Seq<char>, cause: Seq<char>) -> Seq<char> {
    "golden read failed ("@
        + path
        + "): "@
        + cause
}

pub fn say_golden_unreadable(path: &str, cause: &str) -> (m: String)
    ensures
        m@ == golden_unreadable(path@, cause@),
{
    let mut m = "golden read failed (".to_owned();
    m.append(path);
    m.append("): ");
    m.append(cause);
    m
}

/// A golden that was not accepted.
pub open spec fn golden_unloadable(cause: Seq<char>) -> Seq<char> {
    "golden load failed: "@
        + cause
}

pub fn say_golden_unloadable(cause: &str) -> (m: String)
    ensures
        m@ == golden_unloadable(cause@),
{
    let mut m = "golden load failed: ".to_owned();
    m.append(cause);
    m
}

/// A tape that was not accepted.
pub open spec fn tape_unloadable(path: Seq<char>, cause: Seq<char>) -> Seq<char> {
    "timed-prompt tape load failed ("@
        + path
        + "): "@
        + cause
}

pub fn say_tape_unloadable(path: &str, cause: &str) -> (m: String)
    ensures
        m@ == tape_unloadable(path@, cause@),
{
    let mut m = "timed-prompt tape load failed (".to_owned();
    m.append(path);
    m.append("): ");
    m.append(cause);
    m
}

/// A golden that was not accepted, with its path.
pub open spec fn golden_unloadable_at(cause: Seq<char>, path: Seq<char>) -> Seq<char> {
    cause
        + " ("@
        + path
        + ")"@
}

pub fn say_golden_unloadable_at(cause: &str, path: &str) -> (m: String)
    ensures
        m@ == golden_unloadable_at(cause@, path@),
{
    let mut m = cause.to_owned();
    m.append(" (");
    m.append(path);
    m.append(")");
    m
}

/// A golden that is neither a tape nor a document.
pub open spec fn golden_unrecognized(path: Seq<char>, tape: Seq<char>, tape_keys: Seq<char>, golden: Seq<char>, golden_keys: Seq<char>) -> Seq<char> {
    "--golden "@
        + path
        + " matches NEITHER accepted shape: a "@
        + tape
        + " needs "@
        + tape_keys
        + ", a "@
        + golden
        + " needs "@
        + golden_keys
        + " (the live timed_prompt_pool pins tapes)"@
}

pub fn say_golden_unrecognized(path: &str, tape: &str, tape_keys: &str, golden: &str, golden_keys: &str) -> (m: String)
    ensures
        m@ == golden_unrecognized(path@, tape@, tape_keys@, golden@, golden_keys@),
{
    let mut m = "--golden ".to_owned();
    m.append(path);
    m.append(" matches NEITHER accepted shape: a ");
    m.append(tape);
    m.append(" needs ");
    m.append(tape_keys);
    m.append(", a ");
    m.append(golden);
    m.append(" needs ");
    m.append(golden_keys);
    m.append(" (the live timed_prompt_pool pins tapes)");
    m
}

/// The baselines of a local run.
pub open spec fn local_baselines_notice(mode: Seq<char>, prefill: Seq<char>, decode: Seq<char>) -> Seq<char> {
    "benchctl iterate: "@
        + mode
        + " baseline prefill_seconds_per_token="@
        + prefill
        + " decode_seconds_per_token="@
        + decode
        + " (official-runner constants; local speedups are directional)"@
}

pub fn say_local_baselines_notice(mode: &str, prefill: &str, decode: &str) -> (m: String)
    ensures
        m@ == local_baselines_notice(mode@, prefill@, decode@),
{
    let mut m = "benchctl iterate: ".to_owned();
    m.append(mode);
    m.append(" baseline prefill_seconds_per_token=");
    m.append(prefill);
    m.append(" decode_seconds_per_token=");
    m.append(decode);
    m.append(" (official-runner constants; local speedups are directional)");
    m
}

/// Baseline flags that a local run does not take.
pub open spec fn local_flags_ignored(mode: Seq<char>) -> Seq<char> {
    "benchctl iterate: --baseline-prefill-spt/--baseline-decode-spt are IGNORED on "@
        + mode
        + " (#127: local baselines come from the constants, as the reference's \
         localIterate does); the run scores against the constants above"@
}

pub fn say_local_flags_ignored(mode: &str) -> (m: String)
    ensures
        m@ == local_flags_ignored(mode@),
{
    let mut m = "benchctl iterate: --baseline-prefill-spt/--baseline-decode-spt are IGNORED on ".to_owned();
    m.append(mode);
    m.append(" (#127: local baselines come from the constants, as the reference's \
         localIterate does); the run scores against the constants above");
    m
}

/// A run wrote its score.
pub open spec fn wrote_score(sub: Seq<char>, path: Seq<char>, passed: bool, score: Seq<char>) -> Seq<char> {
    "benchctl "@
        + sub
        + ": wrote "@
        + path
        + " (passed="@
        + bool_text(passed)
        + ", score="@
        + score
        + ")"@
}

pub fn say_wrote_score(sub: &str, path: &str, passed: bool, score: &str) -> (m: String)
    ensures
        m@ == wrote_score(sub@, path@, passed, score@),
{
    let mut m = "benchctl ".to_owned();
    m.append(sub);
    m.append(": wrote ");
    m.append(path);
    m.append(" (passed=");
    m.append(bool_word(passed));
    m.append(", score=");
    m.append(score);
    m.append(")");
    m
}

/// A paired run wrote its results.
pub open spec fn wrote_results(path: Seq<char>, pairs: nat, accepted: bool) -> Seq<char> {
    "benchctl measure-job: wrote "@
        + path
        + " (accepted_pairs="@
        + decimal(pairs)
        + ", candidate_accepted="@
        + bool_text(accepted)
        + ")"@
}

pub fn say_wrote_results(path: &str, pairs: usize, accepted: bool) -> (m: String)
    ensures
        m@ == wrote_results(path@, pairs as nat, accepted),
{
    let mut m = "benchctl measure-job: wrote ".to_owned();
    m.append(path);
    m.append(" (accepted_pairs=");
    m.append(count_text(pairs).as_str());
    m.append(", candidate_accepted=");
    m.append(bool_word(accepted));
    m.append(")");
    m
}

/// The checks before a paired run passed.
pub open spec fn preflight_ok(count: nat, kinds: Seq<char>, candidate: Seq<char>, baseline: Seq<char>) -> Seq<char> {
    "benchctl measure-job: --preflight-only OK ("@
        + decimal(count)
        + " golden(s) ["@
        + kinds
        + "], candidate="@
        + candidate
        + ", baseline="@
        + baseline
        + ") — pre-GPU checks passed, not measuring"@
}

pub fn say_preflight_ok(count: usize, kinds: &str, candidate: &str, baseline: &str) -> (m: String)
    ensures
        m@ == preflight_ok(count as nat, kinds@, candidate@, baseline@),
{
    let mut m = "benchctl measure-job: --preflight-only OK (".to_owned();
    m.append(count_text(count).as_str());
    m.append(" golden(s) [");
    m.append(kinds);
    m.append("], candidate=");
    m.append(candidate);
    m.append(", baseline=");
    m.append(baseline);
    m.append(") — pre-GPU checks passed, not measuring");
    m
}

/// How many goldens of each kind there are.
pub open spec fn kinds_summary(tape: Seq<char>, tapes: nat, golden: Seq<char>, goldens: nat) -> Seq<char> {
    tape
        + "="@
        + decimal(tapes)
        + " "@
        + golden
        + "="@
        + decimal(goldens)
}

pub fn say_kinds_summary(tape: &str, tapes: usize, golden: &str, goldens: usize) -> (m: String)
    ensures
        m@ == kinds_summary(tape@, tapes as nat, golden@, goldens as nat),
{
    let mut m = tape.to_owned();
    m.append("=");
    m.append(count_text(tapes).as_str());
    m.append(" ");
    m.append(golden);
    m.append("=");
    m.append(count_text(goldens).as_str());
    m
}

/// A calibration was authored.
pub open spec fn bootstrap_authored(target: Seq<char>, path: Seq<char>, mean: Seq<char>, tokens: nat) -> Seq<char> {
    "benchctl measure-job: --calibration-bootstrap authored targets["@
        + target
        + "] in "@
        + path
        + " (serial_mean="@
        + mean
        + ", decode_tokens="@
        + decimal(tokens)
        + ")"@
}

pub fn say_bootstrap_authored(target: &str, path: &str, mean: &str, tokens: usize) -> (m: String)
    ensures
        m@ == bootstrap_authored(target@, path@, mean@, tokens as nat),
{
    let mut m = "benchctl measure-job: --calibration-bootstrap authored targets[".to_owned();
    m.append(target);
    m.append("] in ");
    m.append(path);
    m.append(" (serial_mean=");
    m.append(mean);
    m.append(", decode_tokens=");
    m.append(count_text(tokens).as_str());
    m.append(")");
    m
}

/// A calibration has no place to go.
pub open spec fn bootstrap_unnamed() -> Seq<char> {
    "benchctl measure-job: --calibration-bootstrap needs both --target-id and a \
         BASELINE_CALIBRATION destination path to author; skipping the write."@
}

pub fn say_bootstrap_unnamed() -> (m: String)
    ensures
        m@ == bootstrap_unnamed(),
{
    "benchctl measure-job: --calibration-bootstrap needs both --target-id and a \
         BASELINE_CALIBRATION destination path to author; skipping the write.".to_owned()
}

/// A calibration was not authored.
pub open spec fn bootstrap_skipped(accepted: bool, parity: bool) -> Seq<char> {
    "benchctl measure-job: --calibration-bootstrap SKIPPED authoring — the run \
         was not fully accepted + parity-true (candidate_accepted="@
        + bool_text(accepted)
        + ", parity_all_ok="@
        + bool_text(parity)
        + ")."@
}

pub fn say_bootstrap_skipped(accepted: bool, parity: bool) -> (m: String)
    ensures
        m@ == bootstrap_skipped(accepted, parity),
{
    let mut m = "benchctl measure-job: --calibration-bootstrap SKIPPED authoring — the run \
         was not fully accepted + parity-true (candidate_accepted=".to_owned();
    m.append(bool_word(accepted));
    m.append(", parity_all_ok=");
    m.append(bool_word(parity));
    m.append(").");
    m
}

/// A trusted ref without a manifest.
pub open spec fn trusted_scope_notice(path: Seq<char>) -> Seq<char> {
    "NOTICE trusted-scope freeze: no benchmark.json under the trusted ref "@
        + path
        + " — not binding (editable surface declared elsewhere; the manifest is \
         operator-controlled, so this skip is correct-by-construction)"@
}

pub fn say_trusted_scope_notice(path: &str) -> (m: String)
    ensures
        m@ == trusted_scope_notice(path@),
{
    let mut m = "NOTICE trusted-scope freeze: no benchmark.json under the trusted ref ".to_owned();
    m.append(path);
    m.append(" — not binding (editable surface declared elsewhere; the manifest is \
         operator-controlled, so this skip is correct-by-construction)");
    m
}

/// An engine that did not start.
pub open spec fn spawn_failed(engine: Seq<char>, cause: Seq<char>) -> Seq<char> {
    "failed to spawn engine "@
        + debug_text(engine)
        + ": "@
        + cause
}

pub fn say_spawn_failed(engine: &str, cause: &str) -> (m: String)
    ensures
        m@ == spawn_failed(engine@, cause@),
{
    let mut m = "failed to spawn engine ".to_owned();
    m.append(quoted(engine).as_str());
    m.append(": ");
    m.append(cause);
    m
}

/// An engine that did not answer.
pub open spec fn handshake_failed(cause: Seq<char>) -> Seq<char> {
    "engine hello handshake failed: "@
        + cause
}

pub fn say_handshake_failed(cause: &str) -> (m: String)
    ensures
        m@ == handshake_failed(cause@),
{
    let mut m = "engine hello handshake failed: ".to_owned();
    m.append(cause);
    m
}

/// A batched track that a single-stream candidate is measured on.
pub open spec fn single_stream_notice(width: nat, mode: Seq<char>, modes: Seq<char>) -> Seq<char> {
    "benchctl measure-job: --contract pins scored_batch_size Some("@
        + decimal(width)
        + "), but the candidate mode "@
        + debug_text(mode)
        + " is SINGLE-STREAM ONLY, so this run measures the single-stream series and \
         not the batched cohort. Admitted modes for this track: "@
        + modes
        + "."@
}

pub fn say_single_stream_notice(width: usize, mode: &str, modes: &str) -> (m: String)
    ensures
        m@ == single_stream_notice(width as nat, mode@, modes@),
{
    let mut m = "benchctl measure-job: --contract pins scored_batch_size Some(".to_owned();
    m.append(count_text(width).as_str());
    m.append("), but the candidate mode ");
    m.append(quoted(mode).as_str());
    m.append(" is SINGLE-STREAM ONLY, so this run measures the single-stream series and \
         not the batched cohort. Admitted modes for this track: ");
    m.append(modes);
    m.append(".");
    m
}

/// A serial mean out of its band.
pub open spec fn band_drift(reason: Seq<char>) -> Seq<char> {
    "benchctl measure-job: "@
        + reason
}

pub fn say_band_drift(reason: &str) -> (m: String)
    ensures
        m@ == band_drift(reason@),
{
    let mut m = "benchctl measure-job: ".to_owned();
    m.append(reason);
    m
}

} // verus!
