//! The texts with which the subcommands refuse their command lines and settings.
use crate::text::{count_text, debug_char_text, debug_text, decimal, quoted, quoted_char};
use vstd::prelude::*;

verus! {

/// A flag at the end of the command line.
pub open spec fn flag_needs_value(name: Seq<char>) -> Seq<char> {
    "flag "@
        + name
        + " requires a value"@
}

pub fn say_flag_needs_value(name: &str) -> (m: String)
    ensures
        m@ == flag_needs_value(name@),
{
    let mut m = "flag ".to_owned();
    m.append(name);
    m.append(" requires a value");
    m
}

/// A flag that the subcommand does not have.
pub open spec fn unknown_flag(flag: Seq<char>) -> Seq<char> {
    "unknown flag "@
        + debug_text(flag)
}

pub fn say_unknown_flag(flag: &str) -> (m: String)
    ensures
        m@ == unknown_flag(flag@),
{
    let mut m = "unknown flag ".to_owned();
    m.append(quoted(flag).as_str());
    m
}

/// A flag that was not given.
pub open spec fn missing_required(name: Seq<char>) -> Seq<char> {
    "missing required "@
        + name
}

pub fn say_missing_required(name: &str) -> (m: String)
    ensures
        m@ == missing_required(name@),
{
    let mut m = "missing required ".to_owned();
    m.append(name);
    m
}

/// A value that is no number.
pub open spec fn invalid_number(name: Seq<char>, value: Seq<char>) -> Seq<char> {
    "invalid f64 for "@
        + name
        + ": "@
        + debug_text(value)
}

pub fn say_invalid_number(name: &str, value: &str) -> (m: String)
    ensures
        m@ == invalid_number(name@, value@),
{
    let mut m = "invalid f64 for ".to_owned();
    m.append(name);
    m.append(": ");
    m.append(quoted(value).as_str());
    m
}

/// A value that is no count.
pub open spec fn invalid_count(name: Seq<char>, value: Seq<char>) -> Seq<char> {
    "invalid usize for "@
        + name
        + ": "@
        + debug_text(value)
}

pub fn say_invalid_count(name: &str, value: &str) -> (m: String)
    ensures
        m@ == invalid_count(name@, value@),
{
    let mut m = "invalid usize for ".to_owned();
    m.append(name);
    m.append(": ");
    m.append(quoted(value).as_str());
    m
}

/// A mode that is not known.
pub open spec fn invalid_mode(mode: Seq<char>) -> Seq<char> {
    "invalid --mode "@
        + debug_text(mode)
        + " (expected local-iterate, local-submit, or official)"@
}

pub fn say_invalid_mode(mode: &str) -> (m: String)
    ensures
        m@ == invalid_mode(mode@),
{
    let mut m = "invalid --mode ".to_owned();
    m.append(quoted(mode).as_str());
    m.append(" (expected local-iterate, local-submit, or official)");
    m
}

/// The cool gate is switched on after it was switched off.
pub open spec fn cool_gate_conflict() -> Seq<char> {
    "--cool-gate conflicts with --no-cool-gate"@
}

pub fn say_cool_gate_conflict() -> (m: String)
    ensures
        m@ == cool_gate_conflict(),
{
    "--cool-gate conflicts with --no-cool-gate".to_owned()
}

/// The cool gate is switched off after it was switched on.
pub open spec fn no_cool_gate_conflict() -> Seq<char> {
    "--no-cool-gate conflicts with --cool-gate"@
}

pub fn say_no_cool_gate_conflict() -> (m: String)
    ensures
        m@ == no_cool_gate_conflict(),
{
    "--no-cool-gate conflicts with --cool-gate".to_owned()
}

/// Only one of the two baseline flags is given.
pub open spec fn baseline_flags_half_set() -> Seq<char> {
    "--baseline-prefill-spt and --baseline-decode-spt must be given together"@
}

pub fn say_baseline_flags_half_set() -> (m: String)
    ensures
        m@ == baseline_flags_half_set(),
{
    "--baseline-prefill-spt and --baseline-decode-spt must be given together".to_owned()
}

/// A byte count that is none.
pub open spec fn invalid_golden_bytes(bytes: Seq<char>) -> Seq<char> {
    "invalid u64 for --golden-bytes: "@
        + debug_text(bytes)
}

pub fn say_invalid_golden_bytes(bytes: &str) -> (m: String)
    ensures
        m@ == invalid_golden_bytes(bytes@),
{
    let mut m = "invalid u64 for --golden-bytes: ".to_owned();
    m.append(quoted(bytes).as_str());
    m
}

/// Only one half of the golden pin is given.
pub open spec fn golden_pin_half_set() -> Seq<char> {
    "--golden-sha256 and --golden-bytes must be given together"@
}

pub fn say_golden_pin_half_set() -> (m: String)
    ensures
        m@ == golden_pin_half_set(),
{
    "--golden-sha256 and --golden-bytes must be given together".to_owned()
}

/// The former name of the depth flag.
pub open spec fn depth_renamed() -> Seq<char> {
    "--depth was renamed to --mtp-depth (candidate MTP depth, >= 2; serial \
         control is the depth-0 constant)"@
}

pub fn say_depth_renamed() -> (m: String)
    ensures
        m@ == depth_renamed(),
{
    "--depth was renamed to --mtp-depth (candidate MTP depth, >= 2; serial \
         control is the depth-0 constant)".to_owned()
}

/// A flag that stood for a baseline engine or time.
pub open spec fn not_a_measure_flag(flag: Seq<char>) -> Seq<char> {
    flag
        + " is not a measure-job flag: the baseline is a WORKSPACE (--baseline <WS>) \
         now, not an engine/seconds-per-token override"@
}

pub fn say_not_a_measure_flag(flag: &str) -> (m: String)
    ensures
        m@ == not_a_measure_flag(flag@),
{
    let mut m = flag.to_owned();
    m.append(" is not a measure-job flag: the baseline is a WORKSPACE (--baseline <WS>) \
         now, not an engine/seconds-per-token override");
    m
}

/// A baseline setting beside a baseline workspace.
pub open spec fn baseline_env_set(key: Seq<char>) -> Seq<char> {
    key
        + " is set, but measure-job takes the baseline as a WORKSPACE (--baseline \
         <WS>); unset the paired-baseline env override (mutually exclusive)"@
}

pub fn say_baseline_env_set(key: &str) -> (m: String)
    ensures
        m@ == baseline_env_set(key@),
{
    let mut m = key.to_owned();
    m.append(" is set, but measure-job takes the baseline as a WORKSPACE (--baseline \
         <WS>); unset the paired-baseline env override (mutually exclusive)");
    m
}

/// No weights directory is named.
pub open spec fn no_weights() -> Seq<char> {
    "no weights directory: pass --weights <DIR>, or set the env QMTP_TARGET_DIR \
         (the draft's on-box weights source) — neither is set"@
}

pub fn say_no_weights() -> (m: String)
    ensures
        m@ == no_weights(),
{
    "no weights directory: pass --weights <DIR>, or set the env QMTP_TARGET_DIR \
         (the draft's on-box weights source) — neither is set".to_owned()
}

/// A candidate spec beside a depth.
pub open spec fn spec_and_depth() -> Seq<char> {
    "--mtp-depth and --candidate-spec are mutually exclusive: --candidate-spec \
         is the explicit spec, and --mtp-depth is only the convenience that builds \
         the default one — pass exactly one (drop --mtp-depth, or fold the depth \
         into --candidate-spec)"@
}

pub fn say_spec_and_depth() -> (m: String)
    ensures
        m@ == spec_and_depth(),
{
    "--mtp-depth and --candidate-spec are mutually exclusive: --candidate-spec \
         is the explicit spec, and --mtp-depth is only the convenience that builds \
         the default one — pass exactly one (drop --mtp-depth, or fold the depth \
         into --candidate-spec)".to_owned()
}

/// A depth beyond the field that carries it.
pub open spec fn depth_too_large(depth: nat, cap: nat) -> Seq<char> {
    "--mtp-depth "@
        + decimal(depth)
        + " does not fit a u32 (mtp.depth is a u32 module field); a plausible depth is \
         a small integer bounded by the "@
        + decimal(cap)
        + " draft-depth cap"@
}

pub fn say_depth_too_large(depth: usize, cap: usize) -> (m: String)
    ensures
        m@ == depth_too_large(depth as nat, cap as nat),
{
    let mut m = "--mtp-depth ".to_owned();
    m.append(count_text(depth).as_str());
    m.append(" does not fit a u32 (mtp.depth is a u32 module field); a plausible depth is \
         a small integer bounded by the ");
    m.append(count_text(cap).as_str());
    m.append(" draft-depth cap");
    m
}

/// An empty decode window.
pub open spec fn zero_tokens() -> Seq<char> {
    "--tokens must be > 0 (a zero decode window is invalid)"@
}

pub fn say_zero_tokens() -> (m: String)
    ensures
        m@ == zero_tokens(),
{
    "--tokens must be > 0 (a zero decode window is invalid)".to_owned()
}

/// A decode window that the free-run series does not have.
pub open spec fn free_run_window(tokens: nat, ruled: nat) -> Seq<char> {
    "--tokens "@
        + decimal(tokens)
        + " is invalid for the v1.1 free-run series: PROTOCOL-v1.1 RULES N = "@
        + decimal(ruled)
        + " (BENCHMARK_DECODE_STEPS). A speculating --candidate-spec/--mtp-depth \
         selects the free-run regime, whose window is fixed; drop --tokens, or pass \
         a serial --candidate-spec to measure the teacher-forced series at your own \
         window."@
}

pub fn say_free_run_window(tokens: usize, ruled: usize) -> (m: String)
    ensures
        m@ == free_run_window(tokens as nat, ruled as nat),
{
    let mut m = "--tokens ".to_owned();
    m.append(count_text(tokens).as_str());
    m.append(" is invalid for the v1.1 free-run series: PROTOCOL-v1.1 RULES N = ");
    m.append(count_text(ruled).as_str());
    m.append(" (BENCHMARK_DECODE_STEPS). A speculating --candidate-spec/--mtp-depth \
         selects the free-run regime, whose window is fixed; drop --tokens, or pass \
         a serial --candidate-spec to measure the teacher-forced series at your own \
         window.");
    m
}

/// A pair minimum of zero.
pub open spec fn zero_min_pairs() -> Seq<char> {
    "--min-pairs (per prompt) must be >= 1"@
}

pub fn say_zero_min_pairs() -> (m: String)
    ensures
        m@ == zero_min_pairs(),
{
    "--min-pairs (per prompt) must be >= 1".to_owned()
}

/// A pair target below the minimum.
pub open spec fn target_below_min(target: nat, min: nat) -> Seq<char> {
    "--target-pairs ("@
        + decimal(target)
        + ") must be >= --min-pairs ("@
        + decimal(min)
        + ") [per prompt]"@
}

pub fn say_target_below_min(target: usize, min: usize) -> (m: String)
    ensures
        m@ == target_below_min(target as nat, min as nat),
{
    let mut m = "--target-pairs (".to_owned();
    m.append(count_text(target).as_str());
    m.append(") must be >= --min-pairs (");
    m.append(count_text(min).as_str());
    m.append(") [per prompt]");
    m
}

/// Only a part of the prompt trio is given.
pub open spec fn prompt_trio_half_set() -> Seq<char> {
    "--prompt, --prompt-sha256 and --target-id are ALL-THREE-OR-NONE (an \
         explicit prompt must carry its pinned sha256 and target-id)"@
}

pub fn say_prompt_trio_half_set() -> (m: String)
    ensures
        m@ == prompt_trio_half_set(),
{
    "--prompt, --prompt-sha256 and --target-id are ALL-THREE-OR-NONE (an \
         explicit prompt must carry its pinned sha256 and target-id)".to_owned()
}

/// An empty gates producer.
pub open spec fn producer_empty() -> Seq<char> {
    "--gates-producer must not be empty (omit the flag to record 'undeclared')"@
}

pub fn say_producer_empty() -> (m: String)
    ensures
        m@ == producer_empty(),
{
    "--gates-producer must not be empty (omit the flag to record 'undeclared')".to_owned()
}

/// A gates producer that could not be read back.
pub open spec fn producer_unreadable(raw: Seq<char>, bad: char) -> Seq<char> {
    "--gates-producer "@
        + debug_text(raw)
        + " contains "@
        + debug_char_text(bad)
        + ": the value is sealed into an artifact, so whitespace and control \
         characters are refused"@
}

pub fn say_producer_unreadable(raw: &str, bad: char) -> (m: String)
    ensures
        m@ == producer_unreadable(raw@, bad),
{
    let mut m = "--gates-producer ".to_owned();
    m.append(quoted(raw).as_str());
    m.append(" contains ");
    m.append(quoted_char(bad).as_str());
    m.append(": the value is sealed into an artifact, so whitespace and control \
         characters are refused");
    m
}

/// A pool size that is no count.
pub open spec fn pool_size_invalid(value: Seq<char>, cause: Seq<char>) -> Seq<char> {
    "MLXFAST_QWEN_MTP_POOL_SIZE ("@
        + debug_text(value)
        + ") is not a valid pool size: "@
        + cause
}

pub fn say_pool_size_invalid(value: &str, cause: &str) -> (m: String)
    ensures
        m@ == pool_size_invalid(value@, cause@),
{
    let mut m = "MLXFAST_QWEN_MTP_POOL_SIZE (".to_owned();
    m.append(quoted(value).as_str());
    m.append(") is not a valid pool size: ");
    m.append(cause);
    m
}

/// No pool size is named.
pub open spec fn pool_size_unknown() -> Seq<char> {
    "pool_size unknown: set MLXFAST_QWEN_MTP_POOL_SIZE or pass --contract \
         <fixture> (fail-closed, no score)"@
}

pub fn say_pool_size_unknown() -> (m: String)
    ensures
        m@ == pool_size_unknown(),
{
    "pool_size unknown: set MLXFAST_QWEN_MTP_POOL_SIZE or pass --contract \
         <fixture> (fail-closed, no score)".to_owned()
}

/// A contract that could not be read.
pub open spec fn contract_unreadable(path: Seq<char>, cause: Seq<char>) -> Seq<char> {
    "--contract read failed ("@
        + path
        + "): "@
        + cause
}

pub fn say_contract_unreadable(path: &str, cause: &str) -> (m: String)
    ensures
        m@ == contract_unreadable(path@, cause@),
{
    let mut m = "--contract read failed (".to_owned();
    m.append(path);
    m.append("): ");
    m.append(cause);
    m
}

/// A contract that is no document.
pub open spec fn contract_unparsable(cause: Seq<char>) -> Seq<char> {
    "--contract parse failed: "@
        + cause
}

pub fn say_contract_unparsable(cause: &str) -> (m: String)
    ensures
        m@ == contract_unparsable(cause@),
{
    let mut m = "--contract parse failed: ".to_owned();
    m.append(cause);
    m
}

/// A contract without a pool.
pub open spec fn contract_without_pool() -> Seq<char> {
    "--contract fixture has no `timed_prompt_pool` array"@
}

pub fn say_contract_without_pool() -> (m: String)
    ensures
        m@ == contract_without_pool(),
{
    "--contract fixture has no `timed_prompt_pool` array".to_owned()
}

/// An empty pool.
pub open spec fn pool_empty() -> Seq<char> {
    "resolved pool_size is 0: the pool must have at least one prompt"@
}

pub fn say_pool_empty() -> (m: String)
    ensures
        m@ == pool_empty(),
{
    "resolved pool_size is 0: the pool must have at least one prompt".to_owned()
}

/// A pair minimum that is no count.
pub open spec fn min_pairs_invalid(value: Seq<char>, cause: Seq<char>) -> Seq<char> {
    "MLXFAST_QWEN_MTP_MIN_PAIRS_PER_PROMPT ("@
        + debug_text(value)
        + ") is not a valid count: "@
        + cause
}

pub fn say_min_pairs_invalid(value: &str, cause: &str) -> (m: String)
    ensures
        m@ == min_pairs_invalid(value@, cause@),
{
    let mut m = "MLXFAST_QWEN_MTP_MIN_PAIRS_PER_PROMPT (".to_owned();
    m.append(quoted(value).as_str());
    m.append(") is not a valid count: ");
    m.append(cause);
    m
}

/// A pair minimum of zero.
pub open spec fn min_pairs_zero() -> Seq<char> {
    "MLXFAST_QWEN_MTP_MIN_PAIRS_PER_PROMPT is 0: at least 1 pair per prompt is required"@
}

pub fn say_min_pairs_zero() -> (m: String)
    ensures
        m@ == min_pairs_zero(),
{
    "MLXFAST_QWEN_MTP_MIN_PAIRS_PER_PROMPT is 0: at least 1 pair per prompt is required".to_owned()
}

/// An exactness probe that is not known.
pub open spec fn probe_unknown(value: Seq<char>) -> Seq<char> {
    "--exactness-probe "@
        + debug_text(value)
        + " is not one of none|once|per-prompt|per-pair"@
}

pub fn say_probe_unknown(value: &str) -> (m: String)
    ensures
        m@ == probe_unknown(value@),
{
    let mut m = "--exactness-probe ".to_owned();
    m.append(quoted(value).as_str());
    m.append(" is not one of none|once|per-prompt|per-pair");
    m
}

/// A pinned prompt digest that is none.
pub open spec fn sha_malformed(value: Seq<char>) -> Seq<char> {
    "--prompt-sha256 "@
        + debug_text(value)
        + " is not 64 lowercase hex"@
}

pub fn say_sha_malformed(value: &str) -> (m: String)
    ensures
        m@ == sha_malformed(value@),
{
    let mut m = "--prompt-sha256 ".to_owned();
    m.append(quoted(value).as_str());
    m.append(" is not 64 lowercase hex");
    m
}

/// A target id with a character that it may not have.
pub open spec fn target_malformed(value: Seq<char>) -> Seq<char> {
    "--target-id "@
        + debug_text(value)
        + " does not match [A-Za-z0-9._-]+"@
}

pub fn say_target_malformed(value: &str) -> (m: String)
    ensures
        m@ == target_malformed(value@),
{
    let mut m = "--target-id ".to_owned();
    m.append(quoted(value).as_str());
    m.append(" does not match [A-Za-z0-9._-]+");
    m
}

/// A baseline that is not the serial control.
pub open spec fn baseline_not_serial(mode: Seq<char>) -> Seq<char> {
    "--baseline-spec mode "@
        + debug_text(mode)
        + " is refused: the baseline is the serial denominator, so its spec must be \
         {\"mode\":\"serial\"}"@
}

pub fn say_baseline_not_serial(mode: &str) -> (m: String)
    ensures
        m@ == baseline_not_serial(mode@),
{
    let mut m = "--baseline-spec mode ".to_owned();
    m.append(quoted(mode).as_str());
    m.append(" is refused: the baseline is the serial denominator, so its spec must be \
         {\"mode\":\"serial\"}");
    m
}

/// A spec that carries the block of another mode.
pub open spec fn cross_module(mode: Seq<char>, key: Seq<char>) -> Seq<char> {
    "spec mode "@
        + debug_text(mode)
        + " carries the cross-module key "@
        + debug_text(key)
        + ": a spec holds the block of its own mode only"@
}

pub fn say_cross_module(mode: &str, key: &str) -> (m: String)
    ensures
        m@ == cross_module(mode@, key@),
{
    let mut m = "spec mode ".to_owned();
    m.append(quoted(mode).as_str());
    m.append(" carries the cross-module key ");
    m.append(quoted(key).as_str());
    m.append(": a spec holds the block of its own mode only");
    m
}

/// A spec without the block of its mode.
pub open spec fn module_missing(mode: Seq<char>) -> Seq<char> {
    "spec mode "@
        + debug_text(mode)
        + " carries no "@
        + debug_text(mode)
        + " block"@
}

pub fn say_module_missing(mode: &str) -> (m: String)
    ensures
        m@ == module_missing(mode@),
{
    let mut m = "spec mode ".to_owned();
    m.append(quoted(mode).as_str());
    m.append(" carries no ");
    m.append(quoted(mode).as_str());
    m.append(" block");
    m
}

/// A speculating spec that does not speculate.
pub open spec fn depth_zero() -> Seq<char> {
    "mtp.depth 0 is the serial control: an mtp spec needs a depth >= 1"@
}

pub fn say_depth_zero() -> (m: String)
    ensures
        m@ == depth_zero(),
{
    "mtp.depth 0 is the serial control: an mtp spec needs a depth >= 1".to_owned()
}

/// A depth beyond the cap.
pub open spec fn depth_over_cap(depth: nat, cap: nat) -> Seq<char> {
    "mtp.depth "@
        + decimal(depth)
        + " exceeds the "@
        + decimal(cap)
        + " draft-depth cap"@
}

pub fn say_depth_over_cap(depth: usize, cap: usize) -> (m: String)
    ensures
        m@ == depth_over_cap(depth as nat, cap as nat),
{
    let mut m = "mtp.depth ".to_owned();
    m.append(count_text(depth).as_str());
    m.append(" exceeds the ");
    m.append(count_text(cap).as_str());
    m.append(" draft-depth cap");
    m
}

} // verus!
