//! The texts with which the overlay refuses an input or authors a failed score.
use crate::text::{bool_text, bool_word, count_text, debug_text, decimal, quoted};
use vstd::prelude::*;

verus! {

/// A gates score whose verdict is not a pass.
pub open spec fn gates_not_passing() -> Seq<char> {
    "gates-score.json is not a passing gates score (passed != true)"@
}

pub fn say_gates_not_passing() -> (m: String)
    ensures
        m@ == gates_not_passing(),
{
    "gates-score.json is not a passing gates score (passed != true)".to_owned()
}

/// A gates score that already carries a score.
pub open spec fn gates_already_scored(score: Seq<char>) -> Seq<char> {
    "gates-score.json already carries a non-null score (Some("@
        + score
        + ")): the overlay computes the score; refusing to overlay onto an \
         already-scored artifact"@
}

pub fn say_gates_already_scored(score: &str) -> (m: String)
    ensures
        m@ == gates_already_scored(score@),
{
    let mut m = "gates-score.json already carries a non-null score (Some(".to_owned();
    m.append(score);
    m.append(")): the overlay computes the score; refusing to overlay onto an \
         already-scored artifact");
    m
}

/// A gates score that is not the partial half.
pub open spec fn gates_not_partial() -> Seq<char> {
    "gates-score.json partial_result != true: not a gates-only score awaiting \
         the timed overlay (a full score must not be overlaid again)"@
}

pub fn say_gates_not_partial() -> (m: String)
    ensures
        m@ == gates_not_partial(),
{
    "gates-score.json partial_result != true: not a gates-only score awaiting \
         the timed overlay (a full score must not be overlaid again)".to_owned()
}

/// A gates score that carries an error.
pub open spec fn gates_has_error(error: Seq<char>) -> Seq<char> {
    "gates-score.json carries a non-empty metrics.error ("@
        + debug_text(error)
        + "); refusing to overlay onto a failed gate"@
}

pub fn say_gates_has_error(error: &str) -> (m: String)
    ensures
        m@ == gates_has_error(error@),
{
    let mut m = "gates-score.json carries a non-empty metrics.error (".to_owned();
    m.append(quoted(error).as_str());
    m.append("); refusing to overlay onto a failed gate");
    m
}

/// A gates score that did not pass correctness.
pub open spec fn gates_incorrect() -> Seq<char> {
    "gates-score.json passed_correctness != true: refusing to overlay timing \
         onto a gate that did not pass correctness"@
}

pub fn say_gates_incorrect() -> (m: String)
    ensures
        m@ == gates_incorrect(),
{
    "gates-score.json passed_correctness != true: refusing to overlay timing \
         onto a gate that did not pass correctness".to_owned()
}

/// A gates score without a harness identity.
pub open spec fn gates_no_harness() -> Seq<char> {
    "gates-score.json carries an empty metrics.harness_hash: the gates/seam-1 \
         score must carry the producer harness identity (a 64-char lowercase-hex \
         SHA256); refusing to overlay a gate with no harness identity"@
}

pub fn say_gates_no_harness() -> (m: String)
    ensures
        m@ == gates_no_harness(),
{
    "gates-score.json carries an empty metrics.harness_hash: the gates/seam-1 \
         score must carry the producer harness identity (a 64-char lowercase-hex \
         SHA256); refusing to overlay a gate with no harness identity".to_owned()
}

/// A gates score whose harness identity is no digest. Only its length is named.
pub open spec fn gates_malformed_harness(length: nat) -> Seq<char> {
    "gates-score.json carries a malformed metrics.harness_hash (expected 64 \
         lowercase hex characters, got length "@
        + decimal(length)
        + "): refusing to overlay a gate whose harness identity is not a well-formed \
         SHA256 digest"@
}

pub fn say_gates_malformed_harness(length: usize) -> (m: String)
    ensures
        m@ == gates_malformed_harness(length as nat),
{
    let mut m = "gates-score.json carries a malformed metrics.harness_hash (expected 64 \
         lowercase hex characters, got length ".to_owned();
    m.append(count_text(length).as_str());
    m.append("): refusing to overlay a gate whose harness identity is not a well-formed \
         SHA256 digest");
    m
}

/// The gates leg and the seal leg name different harnesses.
pub open spec fn harness_legs_differ(gates_preview: Seq<char>, seal_preview: Seq<char>) -> Seq<char> {
    "overlay cross-leg harness-identity mismatch: the gates/seam-1 score was \
         sealed under harness "@
        + gates_preview
        + "… but the harness resolved AT THE SEAL is "@
        + seal_preview
        + "… — the harness tree CHANGED BETWEEN PHASES (the roster/harness content \
         check is pre-GPU, so a root mutated after that pass and before this seal is \
         invisible to it), or the two legs did not resolve the same workspace root. \
         Refusing to publish a score whose harness identity is not the one that was \
         gated."@
}

pub fn say_harness_legs_differ(gates_preview: &str, seal_preview: &str) -> (m: String)
    ensures
        m@ == harness_legs_differ(gates_preview@, seal_preview@),
{
    let mut m = "overlay cross-leg harness-identity mismatch: the gates/seam-1 score was \
         sealed under harness ".to_owned();
    m.append(gates_preview);
    m.append("… but the harness resolved AT THE SEAL is ");
    m.append(seal_preview);
    m.append("… — the harness tree CHANGED BETWEEN PHASES (the roster/harness content \
         check is pre-GPU, so a root mutated after that pass and before this seal is \
         invisible to it), or the two legs did not resolve the same workspace root. \
         Refusing to publish a score whose harness identity is not the one that was \
         gated.");
    m
}

/// The harness could not be identified at the seal.
pub open spec fn seal_unresolved(cause: Seq<char>) -> Seq<char> {
    "the harness identity could not be resolved AT THE SEAL ("@
        + cause
        + "); benchctl overlay-timing must run with its working directory at the SAME \
         engine workspace root the seam-1 gates producer resolved (the trusted \
         driver pins this), and refuses to publish a score it cannot cross-check the \
         harness identity of"@
}

pub fn say_seal_unresolved(cause: &str) -> (m: String)
    ensures
        m@ == seal_unresolved(cause@),
{
    let mut m = "the harness identity could not be resolved AT THE SEAL (".to_owned();
    m.append(cause);
    m.append("); benchctl overlay-timing must run with its working directory at the SAME \
         engine workspace root the seam-1 gates producer resolved (the trusted \
         driver pins this), and refuses to publish a score it cannot cross-check the \
         harness identity of");
    m
}

/// A series tag that names no measurement shape.
pub open spec fn unknown_shape(tag: Seq<char>, teacher_forced: Seq<char>, free_run: Seq<char>, batched: Seq<char>) -> Seq<char> {
    "results.json timed_series.candidate_leg_timed_mode ("@
        + debug_text(tag)
        + ") is not a known timed series ("@
        + debug_text(teacher_forced)
        + " | "@
        + debug_text(free_run)
        + " | "@
        + debug_text(batched)
        + "): the overlay cannot tell which measurement SHAPE the file carries, so it \
         refuses to pick one — a defaulted shape would aggregate an unknown regime \
         by the single-stream rule"@
}

pub fn say_unknown_shape(tag: &str, teacher_forced: &str, free_run: &str, batched: &str) -> (m: String)
    ensures
        m@ == unknown_shape(tag@, teacher_forced@, free_run@, batched@),
{
    let mut m = "results.json timed_series.candidate_leg_timed_mode (".to_owned();
    m.append(quoted(tag).as_str());
    m.append(") is not a known timed series (");
    m.append(quoted(teacher_forced).as_str());
    m.append(" | ");
    m.append(quoted(free_run).as_str());
    m.append(" | ");
    m.append(quoted(batched).as_str());
    m.append("): the overlay cannot tell which measurement SHAPE the file carries, so it \
         refuses to pick one — a defaulted shape would aggregate an unknown regime \
         by the single-stream rule");
    m
}

/// A leg whose series tag is not known.
pub open spec fn unknown_series(leg: Seq<char>, tag: Seq<char>, teacher_forced: Seq<char>, free_run: Seq<char>, batched: Seq<char>) -> Seq<char> {
    "results.json timed_series."@
        + leg
        + "_leg_timed_mode ("@
        + debug_text(tag)
        + ") is not a known timed series ("@
        + debug_text(teacher_forced)
        + " | "@
        + debug_text(free_run)
        + " | "@
        + debug_text(batched)
        + "): refusing to score a regime the overlay cannot reason about"@
}

pub fn say_unknown_series(leg: &str, tag: &str, teacher_forced: &str, free_run: &str, batched: &str) -> (m: String)
    ensures
        m@ == unknown_series(leg@, tag@, teacher_forced@, free_run@, batched@),
{
    let mut m = "results.json timed_series.".to_owned();
    m.append(leg);
    m.append("_leg_timed_mode (");
    m.append(quoted(tag).as_str());
    m.append(") is not a known timed series (");
    m.append(quoted(teacher_forced).as_str());
    m.append(" | ");
    m.append(quoted(free_run).as_str());
    m.append(" | ");
    m.append(quoted(batched).as_str());
    m.append("): refusing to score a regime the overlay cannot reason about");
    m
}

/// A pair whose serial leg is of another series.
pub open spec fn pair_serial_series(i: nat, mode: Seq<char>, tag: Seq<char>) -> Seq<char> {
    "results.json pairs["@
        + decimal(i)
        + "].serial_timed_mode ("@
        + debug_text(mode)
        + ") != timed_series.serial_leg_timed_mode ("@
        + debug_text(tag)
        + "): the sealed series does not describe this pair — refusing to aggregate \
         mismatched series"@
}

pub fn say_pair_serial_series(i: usize, mode: &str, tag: &str) -> (m: String)
    ensures
        m@ == pair_serial_series(i as nat, mode@, tag@),
{
    let mut m = "results.json pairs[".to_owned();
    m.append(count_text(i).as_str());
    m.append("].serial_timed_mode (");
    m.append(quoted(mode).as_str());
    m.append(") != timed_series.serial_leg_timed_mode (");
    m.append(quoted(tag).as_str());
    m.append("): the sealed series does not describe this pair — refusing to aggregate \
         mismatched series");
    m
}

/// A pair whose candidate leg is of another series.
pub open spec fn pair_candidate_series(i: nat, mode: Seq<char>, tag: Seq<char>) -> Seq<char> {
    "results.json pairs["@
        + decimal(i)
        + "].candidate_timed_mode ("@
        + debug_text(mode)
        + ") != timed_series.candidate_leg_timed_mode ("@
        + debug_text(tag)
        + "): the sealed series does not describe this pair — refusing to aggregate \
         mismatched series"@
}

pub fn say_pair_candidate_series(i: usize, mode: &str, tag: &str) -> (m: String)
    ensures
        m@ == pair_candidate_series(i as nat, mode@, tag@),
{
    let mut m = "results.json pairs[".to_owned();
    m.append(count_text(i).as_str());
    m.append("].candidate_timed_mode (");
    m.append(quoted(mode).as_str());
    m.append(") != timed_series.candidate_leg_timed_mode (");
    m.append(quoted(tag).as_str());
    m.append("): the sealed series does not describe this pair — refusing to aggregate \
         mismatched series");
    m
}

/// A sealed comparability verdict that the tags do not support.
pub open spec fn comparability_lie(sealed: bool, serial: Seq<char>, candidate: Seq<char>, comparable: bool) -> Seq<char> {
    "results.json timed_series.legs_comparable ("@
        + bool_text(sealed)
        + ") disagrees with the recomputed §5 comparability of "@
        + debug_text(serial)
        + " vs "@
        + debug_text(candidate)
        + " ("@
        + bool_text(comparable)
        + "): refusing a sealed comparability claim the rule does not support"@
}

pub fn say_comparability_lie(sealed: bool, serial: &str, candidate: &str, comparable: bool) -> (m: String)
    ensures
        m@ == comparability_lie(sealed, serial@, candidate@, comparable),
{
    let mut m = "results.json timed_series.legs_comparable (".to_owned();
    m.append(bool_word(sealed));
    m.append(") disagrees with the recomputed §5 comparability of ");
    m.append(quoted(serial).as_str());
    m.append(" vs ");
    m.append(quoted(candidate).as_str());
    m.append(" (");
    m.append(bool_word(comparable));
    m.append("): refusing a sealed comparability claim the rule does not support");
    m
}

/// A sealed homogeneity verdict that the tags do not support.
pub open spec fn homogeneity_lie(sealed: bool, serial: Seq<char>, candidate: Seq<char>) -> Seq<char> {
    "results.json timed_series.homogeneous ("@
        + bool_text(sealed)
        + ") disagrees with its own per-leg tags ("@
        + debug_text(serial)
        + " vs "@
        + debug_text(candidate)
        + ")"@
}

pub fn say_homogeneity_lie(sealed: bool, serial: &str, candidate: &str) -> (m: String)
    ensures
        m@ == homogeneity_lie(sealed, serial@, candidate@),
{
    let mut m = "results.json timed_series.homogeneous (".to_owned();
    m.append(bool_word(sealed));
    m.append(") disagrees with its own per-leg tags (");
    m.append(quoted(serial).as_str());
    m.append(" vs ");
    m.append(quoted(candidate).as_str());
    m.append(")");
    m
}

/// Legs of two different series.
pub open spec fn cross_series(serial: Seq<char>, candidate: Seq<char>) -> Seq<char> {
    "results.json legs are NOT §5-comparable (serial "@
        + debug_text(serial)
        + " vs candidate "@
        + debug_text(candidate)
        + "): every pair's raw_ratio divides two DIFFERENT measured quantities, so the \
         median is not a speedup — refusing to score a cross-series ratio. \
         PROTOCOL-v1.1 §5: a v1.1 score's baseline MUST be measured in v1.1 free-run \
         mode; reusing a v1 teacher-forced baseline (or vice versa) is a scoring \
         bug, not a conservative choice. Re-measure with the serial control in the \
         candidate's series."@
}

pub fn say_cross_series(serial: &str, candidate: &str) -> (m: String)
    ensures
        m@ == cross_series(serial@, candidate@),
{
    let mut m = "results.json legs are NOT §5-comparable (serial ".to_owned();
    m.append(quoted(serial).as_str());
    m.append(" vs candidate ");
    m.append(quoted(candidate).as_str());
    m.append("): every pair's raw_ratio divides two DIFFERENT measured quantities, so the \
         median is not a speedup — refusing to score a cross-series ratio. \
         PROTOCOL-v1.1 §5: a v1.1 score's baseline MUST be measured in v1.1 free-run \
         mode; reusing a v1 teacher-forced baseline (or vice versa) is a scoring \
         bug, not a conservative choice. Re-measure with the serial control in the \
         candidate's series.");
    m
}

/// A top-level series label that its own legs contradict.
pub open spec fn descriptor_mismatch(mode: Seq<char>, descriptor: Seq<char>) -> Seq<char> {
    "results.json timed_mode ("@
        + debug_text(mode)
        + ") != the descriptor its own timed_series implies ("@
        + debug_text(descriptor)
        + "): the top-level series label and the per-leg tags disagree"@
}

pub fn say_descriptor_mismatch(mode: &str, descriptor: &str) -> (m: String)
    ensures
        m@ == descriptor_mismatch(mode@, descriptor@),
{
    let mut m = "results.json timed_mode (".to_owned();
    m.append(quoted(mode).as_str());
    m.append(") != the descriptor its own timed_series implies (");
    m.append(quoted(descriptor).as_str());
    m.append("): the top-level series label and the per-leg tags disagree");
    m
}

/// A run of another series than the expected one.
pub open spec fn unexpected_series(mode: Seq<char>, expected: Seq<char>) -> Seq<char> {
    "results.json timed_mode ("@
        + debug_text(mode)
        + ") != expected series ("@
        + debug_text(expected)
        + "): §5 makes baselines, floors and bands PER-SERIES, so a run of one series \
         is never scored as another"@
}

pub fn say_unexpected_series(mode: &str, expected: &str) -> (m: String)
    ensures
        m@ == unexpected_series(mode@, expected@),
{
    let mut m = "results.json timed_mode (".to_owned();
    m.append(quoted(mode).as_str());
    m.append(") != expected series (");
    m.append(quoted(expected).as_str());
    m.append("): §5 makes baselines, floors and bands PER-SERIES, so a run of one series \
         is never scored as another");
    m
}

/// A run without a track.
pub open spec fn track_empty() -> Seq<char> {
    "results.json track_id is empty: the sealed track_id constant is required \
         (the ranked gate is .track_id == $track)"@
}

pub fn say_track_empty() -> (m: String)
    ensures
        m@ == track_empty(),
{
    "results.json track_id is empty: the sealed track_id constant is required \
         (the ranked gate is .track_id == $track)".to_owned()
}

/// A run of another track than the expected one.
pub open spec fn track_mismatch(track: Seq<char>, expected: Seq<char>) -> Seq<char> {
    "results.json track_id ("@
        + debug_text(track)
        + ") != expected track ("@
        + debug_text(expected)
        + "): refusing to overlay a run sealed for a different track"@
}

pub fn say_track_mismatch(track: &str, expected: &str) -> (m: String)
    ensures
        m@ == track_mismatch(track@, expected@),
{
    let mut m = "results.json track_id (".to_owned();
    m.append(quoted(track).as_str());
    m.append(") != expected track (");
    m.append(quoted(expected).as_str());
    m.append("): refusing to overlay a run sealed for a different track");
    m
}

/// A run with a parity failure.
pub open spec fn parity_failed() -> Seq<char> {
    "results.json parity_all_ok != true: the paired run had a parity failure"@
}

pub fn say_parity_failed() -> (m: String)
    ensures
        m@ == parity_failed(),
{
    "results.json parity_all_ok != true: the paired run had a parity failure".to_owned()
}

/// A run without accepted pairs.
pub open spec fn no_accepted_pairs(count: nat) -> Seq<char> {
    "results.json accepted_pair_count ("@
        + decimal(count)
        + ") < 1: no accepted pairs to score"@
}

pub fn say_no_accepted_pairs(count: usize) -> (m: String)
    ensures
        m@ == no_accepted_pairs(count as nat),
{
    let mut m = "results.json accepted_pair_count (".to_owned();
    m.append(count_text(count).as_str());
    m.append(") < 1: no accepted pairs to score");
    m
}

/// A run whose candidate was rejected.
pub open spec fn candidate_rejected() -> Seq<char> {
    "results.json candidate_accepted != true: the measure-job die-5'd (candidate \
         rejected); refusing to overlay a passing score onto a rejected run"@
}

pub fn say_candidate_rejected() -> (m: String)
    ensures
        m@ == candidate_rejected(),
{
    "results.json candidate_accepted != true: the measure-job die-5'd (candidate \
         rejected); refusing to overlay a passing score onto a rejected run".to_owned()
}

/// A run below its own pair minimum.
pub open spec fn below_min_pairs(count: nat, min_pairs: nat) -> Seq<char> {
    "results.json accepted_pair_count ("@
        + decimal(count)
        + ") < min_pairs ("@
        + decimal(min_pairs)
        + "): the run did not reach the required pair count (die 5)"@
}

pub fn say_below_min_pairs(count: usize, min_pairs: usize) -> (m: String)
    ensures
        m@ == below_min_pairs(count as nat, min_pairs as nat),
{
    let mut m = "results.json accepted_pair_count (".to_owned();
    m.append(count_text(count).as_str());
    m.append(") < min_pairs (");
    m.append(count_text(min_pairs).as_str());
    m.append("): the run did not reach the required pair count (die 5)");
    m
}

/// A single-stream run without per-prompt records.
pub open spec fn per_prompt_empty() -> Seq<char> {
    "results.json per_prompt is empty: nothing to aggregate the median over"@
}

pub fn say_per_prompt_empty() -> (m: String)
    ensures
        m@ == per_prompt_empty(),
{
    "results.json per_prompt is empty: nothing to aggregate the median over".to_owned()
}

/// Cohort records on a single-stream series.
pub open spec fn cohort_on_single_stream(count: nat, mode: Seq<char>) -> Seq<char> {
    "results.json seals "@
        + decimal(count)
        + " per_cohort record(s) on a SINGLE-STREAM series ("@
        + debug_text(mode)
        + "): the series tag and the body disagree about what was measured"@
}

pub fn say_cohort_on_single_stream(count: usize, mode: &str) -> (m: String)
    ensures
        m@ == cohort_on_single_stream(count as nat, mode@),
{
    let mut m = "results.json seals ".to_owned();
    m.append(count_text(count).as_str());
    m.append(" per_cohort record(s) on a SINGLE-STREAM series (");
    m.append(quoted(mode).as_str());
    m.append("): the series tag and the body disagree about what was measured");
    m
}

/// A cohort run without cohort records.
pub open spec fn per_cohort_empty(mode: Seq<char>) -> Seq<char> {
    "results.json per_cohort is empty on a COHORT series ("@
        + debug_text(mode)
        + "): a batched run's unit of measurement is the cohort, so there is nothing to score"@
}

pub fn say_per_cohort_empty(mode: &str) -> (m: String)
    ensures
        m@ == per_cohort_empty(mode@),
{
    let mut m = "results.json per_cohort is empty on a COHORT series (".to_owned();
    m.append(quoted(mode).as_str());
    m.append("): a batched run's unit of measurement is the cohort, so there is nothing to score");
    m
}

/// Per-prompt records on a cohort series.
pub open spec fn prompts_on_cohort(count: nat, mode: Seq<char>) -> Seq<char> {
    "results.json seals "@
        + decimal(count)
        + " per_prompt record(s) on a COHORT series ("@
        + debug_text(mode)
        + "): the pool prompts of a batched run are sealed as per_cohort[].members, so \
         a populated per_prompt means the series tag and the body disagree"@
}

pub fn say_prompts_on_cohort(count: usize, mode: &str) -> (m: String)
    ensures
        m@ == prompts_on_cohort(count as nat, mode@),
{
    let mut m = "results.json seals ".to_owned();
    m.append(count_text(count).as_str());
    m.append(" per_prompt record(s) on a COHORT series (");
    m.append(quoted(mode).as_str());
    m.append("): the pool prompts of a batched run are sealed as per_cohort[].members, so \
         a populated per_prompt means the series tag and the body disagree");
    m
}

/// A run without pair records.
pub open spec fn pairs_empty() -> Seq<char> {
    "results.json pairs is empty: no accepted per-pair records to score \
         (forged/empty seal)"@
}

pub fn say_pairs_empty() -> (m: String)
    ensures
        m@ == pairs_empty(),
{
    "results.json pairs is empty: no accepted per-pair records to score \
         (forged/empty seal)".to_owned()
}

/// A run whose pair records and pair count differ.
pub open spec fn pairs_miscounted(length: nat, count: nat) -> Seq<char> {
    "results.json pairs.len ("@
        + decimal(length)
        + ") != accepted_pair_count ("@
        + decimal(count)
        + "): inconsistent seal (the measure-job invariant is pairs.len == \
         accepted_pair_count)"@
}

pub fn say_pairs_miscounted(length: usize, count: usize) -> (m: String)
    ensures
        m@ == pairs_miscounted(length as nat, count as nat),
{
    let mut m = "results.json pairs.len (".to_owned();
    m.append(count_text(length).as_str());
    m.append(") != accepted_pair_count (");
    m.append(count_text(count).as_str());
    m.append("): inconsistent seal (the measure-job invariant is pairs.len == \
         accepted_pair_count)");
    m
}

/// A baseline mean that anchors nothing.
pub open spec fn baseline_mean_invalid(mean: Seq<char>) -> Seq<char> {
    "results.json aggregate.baseline_serial_seconds_per_token_mean ("@
        + mean
        + ") is not a finite value > 0: no valid baseline timing to anchor the ratio"@
}

pub fn say_baseline_mean_invalid(mean: &str) -> (m: String)
    ensures
        m@ == baseline_mean_invalid(mean@),
{
    let mut m = "results.json aggregate.baseline_serial_seconds_per_token_mean (".to_owned();
    m.append(mean);
    m.append(") is not a finite value > 0: no valid baseline timing to anchor the ratio");
    m
}

/// A candidate mean that anchors nothing.
pub open spec fn candidate_mean_invalid(mean: Seq<char>) -> Seq<char> {
    "results.json aggregate.candidate_mtp_seconds_per_token_mean ("@
        + mean
        + ") is not a finite value > 0: no valid candidate timing to anchor the ratio"@
}

pub fn say_candidate_mean_invalid(mean: &str) -> (m: String)
    ensures
        m@ == candidate_mean_invalid(mean@),
{
    let mut m = "results.json aggregate.candidate_mtp_seconds_per_token_mean (".to_owned();
    m.append(mean);
    m.append(") is not a finite value > 0: no valid candidate timing to anchor the ratio");
    m
}

/// A single-stream run below the floor of its pool.
pub open spec fn pool_floor_missed(count: nat, min_pairs: nat, pool_size: nat, min_per_prompt: nat) -> Seq<char> {
    "results.json accepted_pair_count ("@
        + decimal(count)
        + ") < pool min_pairs ("@
        + decimal(min_pairs)
        + " = pool_size "@
        + decimal(pool_size)
        + " * min_per_prompt "@
        + decimal(min_per_prompt)
        + "): the pool did not reach its accepted floor"@
}

pub fn say_pool_floor_missed(count: usize, min_pairs: usize, pool_size: usize, min_per_prompt: usize) -> (m: String)
    ensures
        m@ == pool_floor_missed(count as nat, min_pairs as nat, pool_size as nat, min_per_prompt as nat),
{
    let mut m = "results.json accepted_pair_count (".to_owned();
    m.append(count_text(count).as_str());
    m.append(") < pool min_pairs (");
    m.append(count_text(min_pairs).as_str());
    m.append(" = pool_size ");
    m.append(count_text(pool_size).as_str());
    m.append(" * min_per_prompt ");
    m.append(count_text(min_per_prompt).as_str());
    m.append("): the pool did not reach its accepted floor");
    m
}

/// A cohort run below the floor of its cohort.
pub open spec fn cohort_floor_missed(count: nat, min_pairs: nat, batch_size: nat, min_per_prompt: nat) -> Seq<char> {
    "results.json accepted_pair_count ("@
        + decimal(count)
        + ") < cohort min_pairs ("@
        + decimal(min_pairs)
        + " = one cohort of "@
        + decimal(batch_size)
        + " * min_per_unit "@
        + decimal(min_per_prompt)
        + "): the cohort did not reach its accepted floor"@
}

pub fn say_cohort_floor_missed(count: usize, min_pairs: usize, batch_size: usize, min_per_prompt: usize) -> (m: String)
    ensures
        m@ == cohort_floor_missed(count as nat, min_pairs as nat, batch_size as nat, min_per_prompt as nat),
{
    let mut m = "results.json accepted_pair_count (".to_owned();
    m.append(count_text(count).as_str());
    m.append(") < cohort min_pairs (");
    m.append(count_text(min_pairs).as_str());
    m.append(" = one cohort of ");
    m.append(count_text(batch_size).as_str());
    m.append(" * min_per_unit ");
    m.append(count_text(min_per_prompt).as_str());
    m.append("): the cohort did not reach its accepted floor");
    m
}

/// A diagnostic of the aggregate that is no number.
pub open spec fn diagnostic_not_finite(label: Seq<char>, value: Seq<char>) -> Seq<char> {
    "results.json aggregate."@
        + label
        + " ("@
        + value
        + ") is not a finite number"@
}

pub fn say_diagnostic_not_finite(label: &str, value: &str) -> (m: String)
    ensures
        m@ == diagnostic_not_finite(label@, value@),
{
    let mut m = "results.json aggregate.".to_owned();
    m.append(label);
    m.append(" (");
    m.append(value);
    m.append(") is not a finite number");
    m
}

/// A pool of the wrong size.
pub open spec fn pool_wrong_size(length: nat, pool_size: nat) -> Seq<char> {
    "results.json per_prompt.len ("@
        + decimal(length)
        + ") != pool_size ("@
        + decimal(pool_size)
        + "): the pool is the wrong size"@
}

pub fn say_pool_wrong_size(length: usize, pool_size: usize) -> (m: String)
    ensures
        m@ == pool_wrong_size(length as nat, pool_size as nat),
{
    let mut m = "results.json per_prompt.len (".to_owned();
    m.append(count_text(length).as_str());
    m.append(") != pool_size (");
    m.append(count_text(pool_size).as_str());
    m.append("): the pool is the wrong size");
    m
}

/// A batched run that does not seal exactly one cohort.
pub open spec fn not_one_cohort(length: nat) -> Seq<char> {
    "results.json per_cohort.len ("@
        + decimal(length)
        + ") != 1: a batched run times the WHOLE pool in one shared window, so it \
         seals exactly one cohort"@
}

pub fn say_not_one_cohort(length: usize) -> (m: String)
    ensures
        m@ == not_one_cohort(length as nat),
{
    let mut m = "results.json per_cohort.len (".to_owned();
    m.append(count_text(length).as_str());
    m.append(") != 1: a batched run times the WHOLE pool in one shared window, so it \
         seals exactly one cohort");
    m
}

/// A cohort that does not carry the pool.
pub open spec fn cohort_wrong_size(length: nat, pool_size: nat) -> Seq<char> {
    "results.json per_cohort[0].members.len ("@
        + decimal(length)
        + ") != pool_size ("@
        + decimal(pool_size)
        + "): the cohort does not carry the whole pool"@
}

pub fn say_cohort_wrong_size(length: usize, pool_size: usize) -> (m: String)
    ensures
        m@ == cohort_wrong_size(length as nat, pool_size as nat),
{
    let mut m = "results.json per_cohort[0].members.len (".to_owned();
    m.append(count_text(length).as_str());
    m.append(") != pool_size (");
    m.append(count_text(pool_size).as_str());
    m.append("): the cohort does not carry the whole pool");
    m
}

/// A sealed prompt count that is not the pool size.
pub open spec fn prompt_count_mismatch(count: nat, pool_size: nat) -> Seq<char> {
    "results.json prompt_count ("@
        + decimal(count)
        + ") != pool_size ("@
        + decimal(pool_size)
        + "): the sealed pool count disagrees with the expected pool"@
}

pub fn say_prompt_count_mismatch(count: usize, pool_size: usize) -> (m: String)
    ensures
        m@ == prompt_count_mismatch(count as nat, pool_size as nat),
{
    let mut m = "results.json prompt_count (".to_owned();
    m.append(count_text(count).as_str());
    m.append(") != pool_size (");
    m.append(count_text(pool_size).as_str());
    m.append("): the sealed pool count disagrees with the expected pool");
    m
}

/// A prompt identity that is no digest.
pub open spec fn prompt_sha_malformed(i: nat, sha: Seq<char>) -> Seq<char> {
    "results.json per_prompt["@
        + decimal(i)
        + "].prompt_sha256 ("@
        + debug_text(sha)
        + ") is not 64 lowercase hex"@
}

pub fn say_prompt_sha_malformed(i: usize, sha: &str) -> (m: String)
    ensures
        m@ == prompt_sha_malformed(i as nat, sha@),
{
    let mut m = "results.json per_prompt[".to_owned();
    m.append(count_text(i).as_str());
    m.append("].prompt_sha256 (");
    m.append(quoted(sha).as_str());
    m.append(") is not 64 lowercase hex");
    m
}

/// A prompt with a parity failure.
pub open spec fn prompt_parity_failed(i: nat) -> Seq<char> {
    "results.json per_prompt["@
        + decimal(i)
        + "].parity_ok != true: a prompt had a parity failure"@
}

pub fn say_prompt_parity_failed(i: usize) -> (m: String)
    ensures
        m@ == prompt_parity_failed(i as nat),
{
    let mut m = "results.json per_prompt[".to_owned();
    m.append(count_text(i).as_str());
    m.append("].parity_ok != true: a prompt had a parity failure");
    m
}

/// A prompt below its own pair minimum.
pub open spec fn prompt_below_floor(i: nat, count: nat, min_per_prompt: nat) -> Seq<char> {
    "results.json per_prompt["@
        + decimal(i)
        + "].accepted_pair_count ("@
        + decimal(count)
        + ") < min_per_prompt ("@
        + decimal(min_per_prompt)
        + ")"@
}

pub fn say_prompt_below_floor(i: usize, count: usize, min_per_prompt: usize) -> (m: String)
    ensures
        m@ == prompt_below_floor(i as nat, count as nat, min_per_prompt as nat),
{
    let mut m = "results.json per_prompt[".to_owned();
    m.append(count_text(i).as_str());
    m.append("].accepted_pair_count (");
    m.append(count_text(count).as_str());
    m.append(") < min_per_prompt (");
    m.append(count_text(min_per_prompt).as_str());
    m.append(")");
    m
}

/// A per-prompt quantity that is not above zero.
pub open spec fn prompt_mean_invalid(i: nat, label: Seq<char>, value: Seq<char>) -> Seq<char> {
    "results.json per_prompt["@
        + decimal(i)
        + "]."@
        + label
        + " ("@
        + value
        + ") is not > 0"@
}

pub fn say_prompt_mean_invalid(i: usize, label: &str, value: &str) -> (m: String)
    ensures
        m@ == prompt_mean_invalid(i as nat, label@, value@),
{
    let mut m = "results.json per_prompt[".to_owned();
    m.append(count_text(i).as_str());
    m.append("].");
    m.append(label);
    m.append(" (");
    m.append(value);
    m.append(") is not > 0");
    m
}

/// A no-op reference that is not above zero.
pub open spec fn prompt_noop_invalid(i: nat, value: Seq<char>) -> Seq<char> {
    "results.json per_prompt["@
        + decimal(i)
        + "].noop_reference_decode_speedup ("@
        + value
        + ") is not > 0 (exactly-one positive no-op reference required)"@
}

pub fn say_prompt_noop_invalid(i: usize, value: &str) -> (m: String)
    ensures
        m@ == prompt_noop_invalid(i as nat, value@),
{
    let mut m = "results.json per_prompt[".to_owned();
    m.append(count_text(i).as_str());
    m.append("].noop_reference_decode_speedup (");
    m.append(value);
    m.append(") is not > 0 (exactly-one positive no-op reference required)");
    m
}

/// A prompt that occurs twice in the pool.
pub open spec fn prompts_repeat(unique: nat, pool_size: nat) -> Seq<char> {
    "results.json per_prompt prompt_sha256 are not all distinct (unique "@
        + decimal(unique)
        + " != pool_size "@
        + decimal(pool_size)
        + "): a duplicated prompt in the pool"@
}

pub fn say_prompts_repeat(unique: usize, pool_size: usize) -> (m: String)
    ensures
        m@ == prompts_repeat(unique as nat, pool_size as nat),
{
    let mut m = "results.json per_prompt prompt_sha256 are not all distinct (unique ".to_owned();
    m.append(count_text(unique).as_str());
    m.append(" != pool_size ");
    m.append(count_text(pool_size).as_str());
    m.append("): a duplicated prompt in the pool");
    m
}

/// A cohort of another width than its series.
pub open spec fn cohort_width_mismatch(width: nat, batch_size: nat) -> Seq<char> {
    "results.json per_cohort[0].batch_size ("@
        + decimal(width)
        + ") != the width its series tag encodes ("@
        + decimal(batch_size)
        + "): the cohort record and the series disagree about how wide the run was"@
}

pub fn say_cohort_width_mismatch(width: usize, batch_size: usize) -> (m: String)
    ensures
        m@ == cohort_width_mismatch(width as nat, batch_size as nat),
{
    let mut m = "results.json per_cohort[0].batch_size (".to_owned();
    m.append(count_text(width).as_str());
    m.append(") != the width its series tag encodes (");
    m.append(count_text(batch_size).as_str());
    m.append("): the cohort record and the series disagree about how wide the run was");
    m
}

/// A sealed width that is not the width of the series.
pub open spec fn sealed_width_mismatch(width: nat, batch_size: nat) -> Seq<char> {
    "results.json scored_batch_size ("@
        + decimal(width)
        + ") != the width its series tag encodes ("@
        + decimal(batch_size)
        + "): the sealed width and the series disagree"@
}

pub fn say_sealed_width_mismatch(width: usize, batch_size: usize) -> (m: String)
    ensures
        m@ == sealed_width_mismatch(width as nat, batch_size as nat),
{
    let mut m = "results.json scored_batch_size (".to_owned();
    m.append(count_text(width).as_str());
    m.append(") != the width its series tag encodes (");
    m.append(count_text(batch_size).as_str());
    m.append("): the sealed width and the series disagree");
    m
}

/// A cohort with a parity failure.
pub open spec fn cohort_parity_failed() -> Seq<char> {
    "results.json per_cohort[0].parity_ok != true: the cohort had a parity failure"@
}

pub fn say_cohort_parity_failed() -> (m: String)
    ensures
        m@ == cohort_parity_failed(),
{
    "results.json per_cohort[0].parity_ok != true: the cohort had a parity failure".to_owned()
}

/// A cohort below its pair minimum.
pub open spec fn cohort_below_floor(count: nat, min_per_prompt: nat) -> Seq<char> {
    "results.json per_cohort[0].accepted_pair_count ("@
        + decimal(count)
        + ") < min_per_unit ("@
        + decimal(min_per_prompt)
        + ")"@
}

pub fn say_cohort_below_floor(count: usize, min_per_prompt: usize) -> (m: String)
    ensures
        m@ == cohort_below_floor(count as nat, min_per_prompt as nat),
{
    let mut m = "results.json per_cohort[0].accepted_pair_count (".to_owned();
    m.append(count_text(count).as_str());
    m.append(") < min_per_unit (");
    m.append(count_text(min_per_prompt).as_str());
    m.append(")");
    m
}

/// A cohort whose pair count is not the run total.
pub open spec fn cohort_pairs_mismatch(count: nat, total: nat) -> Seq<char> {
    "results.json per_cohort[0].accepted_pair_count ("@
        + decimal(count)
        + ") != accepted_pair_count ("@
        + decimal(total)
        + "): there is ONE cohort, so every accepted pair is this cohort's"@
}

pub fn say_cohort_pairs_mismatch(count: usize, total: usize) -> (m: String)
    ensures
        m@ == cohort_pairs_mismatch(count as nat, total as nat),
{
    let mut m = "results.json per_cohort[0].accepted_pair_count (".to_owned();
    m.append(count_text(count).as_str());
    m.append(") != accepted_pair_count (");
    m.append(count_text(total).as_str());
    m.append("): there is ONE cohort, so every accepted pair is this cohort's");
    m
}

/// A cohort identity that is no digest.
pub open spec fn cohort_sha_malformed(sha: Seq<char>) -> Seq<char> {
    "results.json per_cohort[0].cohort_sha256 ("@
        + debug_text(sha)
        + ") is not 64 lowercase hex"@
}

pub fn say_cohort_sha_malformed(sha: &str) -> (m: String)
    ensures
        m@ == cohort_sha_malformed(sha@),
{
    let mut m = "results.json per_cohort[0].cohort_sha256 (".to_owned();
    m.append(quoted(sha).as_str());
    m.append(") is not 64 lowercase hex");
    m
}

/// A cohort quantity that is not above zero.
pub open spec fn cohort_mean_invalid(label: Seq<char>, value: Seq<char>) -> Seq<char> {
    "results.json per_cohort[0]."@
        + label
        + " ("@
        + value
        + ") is not > 0"@
}

pub fn say_cohort_mean_invalid(label: &str, value: &str) -> (m: String)
    ensures
        m@ == cohort_mean_invalid(label@, value@),
{
    let mut m = "results.json per_cohort[0].".to_owned();
    m.append(label);
    m.append(" (");
    m.append(value);
    m.append(") is not > 0");
    m
}

/// A member identity that is no digest.
pub open spec fn member_sha_malformed(i: nat, sha: Seq<char>) -> Seq<char> {
    "results.json per_cohort[0].members["@
        + decimal(i)
        + "].prompt_sha256 ("@
        + debug_text(sha)
        + ") is not 64 lowercase hex"@
}

pub fn say_member_sha_malformed(i: usize, sha: &str) -> (m: String)
    ensures
        m@ == member_sha_malformed(i as nat, sha@),
{
    let mut m = "results.json per_cohort[0].members[".to_owned();
    m.append(count_text(i).as_str());
    m.append("].prompt_sha256 (");
    m.append(quoted(sha).as_str());
    m.append(") is not 64 lowercase hex");
    m
}

/// A member out of its slot.
pub open spec fn member_slot_mismatch(i: nat, slot: nat) -> Seq<char> {
    "results.json per_cohort[0].members["@
        + decimal(i)
        + "].slot_index ("@
        + decimal(slot)
        + ") != "@
        + decimal(i)
        + ": slot order is load-bearing on the batched path (attestation slot i IS \
         cohort member slot i)"@
}

pub fn say_member_slot_mismatch(i: usize, slot: usize) -> (m: String)
    ensures
        m@ == member_slot_mismatch(i as nat, slot as nat),
{
    let mut m = "results.json per_cohort[0].members[".to_owned();
    m.append(count_text(i).as_str());
    m.append("].slot_index (");
    m.append(count_text(slot).as_str());
    m.append(") != ");
    m.append(count_text(i).as_str());
    m.append(": slot order is load-bearing on the batched path (attestation slot i IS \
         cohort member slot i)");
    m
}

/// A prompt that occurs twice in the cohort.
pub open spec fn members_repeat(unique: nat, pool_size: nat) -> Seq<char> {
    "results.json per_cohort[0].members prompt_sha256 are not all distinct (unique "@
        + decimal(unique)
        + " != pool_size "@
        + decimal(pool_size)
        + "): a duplicated prompt in the cohort"@
}

pub fn say_members_repeat(unique: usize, pool_size: usize) -> (m: String)
    ensures
        m@ == members_repeat(unique as nat, pool_size as nat),
{
    let mut m = "results.json per_cohort[0].members prompt_sha256 are not all distinct (unique ".to_owned();
    m.append(count_text(unique).as_str());
    m.append(" != pool_size ");
    m.append(count_text(pool_size).as_str());
    m.append("): a duplicated prompt in the cohort");
    m
}

/// A cohort without a composite.
pub open spec fn composite_absent(reason: Seq<char>) -> Seq<char> {
    "results.json per_cohort[0].composite is absent (reason: "@
        + reason
        + "): the shared-window composite IS the published score of a batched run — \
         refusing to publish a cohort run that produced none"@
}

pub fn say_composite_absent(reason: &str) -> (m: String)
    ensures
        m@ == composite_absent(reason@),
{
    let mut m = "results.json per_cohort[0].composite is absent (reason: ".to_owned();
    m.append(reason);
    m.append("): the shared-window composite IS the published score of a batched run — \
         refusing to publish a cohort run that produced none");
    m
}

/// A cohort that seals a composite and the reason for its absence.
pub open spec fn composite_contradicted(reason: Seq<char>) -> Seq<char> {
    "results.json per_cohort[0] seals BOTH a composite and a \
         composite_absent_reason (Some("@
        + debug_text(reason)
        + ")): the producer's invariant is exactly one of the two, so this seal is incoherent"@
}

pub fn say_composite_contradicted(reason: &str) -> (m: String)
    ensures
        m@ == composite_contradicted(reason@),
{
    let mut m = "results.json per_cohort[0] seals BOTH a composite and a \
         composite_absent_reason (Some(".to_owned();
    m.append(quoted(reason).as_str());
    m.append(")): the producer's invariant is exactly one of the two, so this seal is incoherent");
    m
}

/// A part of the composite that is not above zero.
pub open spec fn composite_part_invalid(label: Seq<char>, value: Seq<char>) -> Seq<char> {
    "results.json per_cohort[0].composite."@
        + label
        + " ("@
        + value
        + ") is not a finite value > 0"@
}

pub fn say_composite_part_invalid(label: &str, value: &str) -> (m: String)
    ensures
        m@ == composite_part_invalid(label@, value@),
{
    let mut m = "results.json per_cohort[0].composite.".to_owned();
    m.append(label);
    m.append(" (");
    m.append(value);
    m.append(") is not a finite value > 0");
    m
}

/// A composite without its exponents.
pub open spec fn exponents_absent() -> Seq<char> {
    "results.json per_cohort[0].composite_scored_exponents is absent: the \
         exponents the composite was raised to must be sealed beside it"@
}

pub fn say_exponents_absent() -> (m: String)
    ensures
        m@ == exponents_absent(),
{
    "results.json per_cohort[0].composite_scored_exponents is absent: the \
         exponents the composite was raised to must be sealed beside it".to_owned()
}

/// Exponents other than the ruled pair.
pub open spec fn exponents_not_ruled(prefill: Seq<char>, decode: Seq<char>) -> Seq<char> {
    "results.json per_cohort[0].composite_scored_exponents ("@
        + prefill
        + ", "@
        + decode
        + ") != the RULED pair (0.25, 0.75): the scoring exponents are ruled \
         constants, not per-run data"@
}

pub fn say_exponents_not_ruled(prefill: &str, decode: &str) -> (m: String)
    ensures
        m@ == exponents_not_ruled(prefill@, decode@),
{
    let mut m = "results.json per_cohort[0].composite_scored_exponents (".to_owned();
    m.append(prefill);
    m.append(", ");
    m.append(decode);
    m.append(") != the RULED pair (0.25, 0.75): the scoring exponents are ruled \
         constants, not per-run data");
    m
}

/// Gains from which no composite follows.
pub open spec fn composite_not_derivable(recomputed: Seq<char>) -> Seq<char> {
    "overlay composite coherence: the composite recomputed from the sealed gains \
         is not a finite value > 0 ("@
        + recomputed
        + "); refusing to score"@
}

pub fn say_composite_not_derivable(recomputed: &str) -> (m: String)
    ensures
        m@ == composite_not_derivable(recomputed@),
{
    let mut m = "overlay composite coherence: the composite recomputed from the sealed gains \
         is not a finite value > 0 (".to_owned();
    m.append(recomputed);
    m.append("); refusing to score");
    m
}

/// A composite that its own gains contradict.
pub open spec fn composite_incoherent(recomputed: Seq<char>, sealed: Seq<char>, rel: Seq<char>) -> Seq<char> {
    "overlay composite coherence failed (tamper): the composite recomputed from \
         the sealed gains ("@
        + recomputed
        + ") disagrees with the sealed composite_score ("@
        + sealed
        + ") by a relative "@
        + rel
        + " (>= 1e-9); the cohort's gains and its published composite are inconsistent"@
}

pub fn say_composite_incoherent(recomputed: &str, sealed: &str, rel: &str) -> (m: String)
    ensures
        m@ == composite_incoherent(recomputed@, sealed@, rel@),
{
    let mut m = "overlay composite coherence failed (tamper): the composite recomputed from \
         the sealed gains (".to_owned();
    m.append(recomputed);
    m.append(") disagrees with the sealed composite_score (");
    m.append(sealed);
    m.append(") by a relative ");
    m.append(rel);
    m.append(" (>= 1e-9); the cohort's gains and its published composite are inconsistent");
    m
}

/// A sealed floor that is not the floor of the track.
pub open spec fn composite_floor_mismatch(floor: Seq<char>) -> Seq<char> {
    "results.json per_cohort[0].composite.composite_speedup_floor ("@
        + floor
        + ") != the track floor (0.9): the floor is a constant, not a per-run value"@
}

pub fn say_composite_floor_mismatch(floor: &str) -> (m: String)
    ensures
        m@ == composite_floor_mismatch(floor@),
{
    let mut m = "results.json per_cohort[0].composite.composite_speedup_floor (".to_owned();
    m.append(floor);
    m.append(") != the track floor (0.9): the floor is a constant, not a per-run value");
    m
}

/// A sealed floor verdict that the composite contradicts.
pub open spec fn composite_verdict_mismatch(sealed: bool, met: bool, score: Seq<char>) -> Seq<char> {
    "results.json per_cohort[0].composite.composite_speedup_floor_met ("@
        + bool_text(sealed)
        + ") disagrees with the recomputed verdict ("@
        + bool_text(met)
        + ") for composite_score "@
        + score
        + " against floor 0.9"@
}

pub fn say_composite_verdict_mismatch(sealed: bool, met: bool, score: &str) -> (m: String)
    ensures
        m@ == composite_verdict_mismatch(sealed, met, score@),
{
    let mut m = "results.json per_cohort[0].composite.composite_speedup_floor_met (".to_owned();
    m.append(bool_word(sealed));
    m.append(") disagrees with the recomputed verdict (");
    m.append(bool_word(met));
    m.append(") for composite_score ");
    m.append(score);
    m.append(" against floor 0.9");
    m
}

/// An input without a commit.
pub open spec fn commit_missing(gates: Seq<char>, results: Seq<char>) -> Seq<char> {
    "overlay identity cross-check: empty commit (gates="@
        + debug_text(gates)
        + ", results="@
        + debug_text(results)
        + "); the two seam inputs must both carry the run commit"@
}

pub fn say_commit_missing(gates: &str, results: &str) -> (m: String)
    ensures
        m@ == commit_missing(gates@, results@),
{
    let mut m = "overlay identity cross-check: empty commit (gates=".to_owned();
    m.append(quoted(gates).as_str());
    m.append(", results=");
    m.append(quoted(results).as_str());
    m.append("); the two seam inputs must both carry the run commit");
    m
}

/// Inputs of two commits.
pub open spec fn commit_differs(gates: Seq<char>, results: Seq<char>) -> Seq<char> {
    "overlay identity cross-check: commit mismatch (gates="@
        + debug_text(gates)
        + " != results="@
        + debug_text(results)
        + "); the two seam inputs are not from the same run"@
}

pub fn say_commit_differs(gates: &str, results: &str) -> (m: String)
    ensures
        m@ == commit_differs(gates@, results@),
{
    let mut m = "overlay identity cross-check: commit mismatch (gates=".to_owned();
    m.append(quoted(gates).as_str());
    m.append(" != results=");
    m.append(quoted(results).as_str());
    m.append("); the two seam inputs are not from the same run");
    m
}

/// An input without a weights identity.
pub open spec fn weights_missing(gates: Seq<char>, results: Seq<char>) -> Seq<char> {
    "overlay identity cross-check: empty weights_hash (gates="@
        + debug_text(gates)
        + ", results="@
        + debug_text(results)
        + "); the two seam inputs must both carry the weights identity"@
}

pub fn say_weights_missing(gates: &str, results: &str) -> (m: String)
    ensures
        m@ == weights_missing(gates@, results@),
{
    let mut m = "overlay identity cross-check: empty weights_hash (gates=".to_owned();
    m.append(quoted(gates).as_str());
    m.append(", results=");
    m.append(quoted(results).as_str());
    m.append("); the two seam inputs must both carry the weights identity");
    m
}

/// Inputs of two weights.
pub open spec fn weights_differ(gates: Seq<char>, results: Seq<char>) -> Seq<char> {
    "overlay identity cross-check: weights_hash mismatch (gates="@
        + debug_text(gates)
        + " != results="@
        + debug_text(results)
        + "); the two seam inputs are not from the same run"@
}

pub fn say_weights_differ(gates: &str, results: &str) -> (m: String)
    ensures
        m@ == weights_differ(gates@, results@),
{
    let mut m = "overlay identity cross-check: weights_hash mismatch (gates=".to_owned();
    m.append(quoted(gates).as_str());
    m.append(" != results=");
    m.append(quoted(results).as_str());
    m.append("); the two seam inputs are not from the same run");
    m
}

/// A recomputed median that is no number.
pub open spec fn median_not_finite(median: Seq<char>) -> Seq<char> {
    "overlay sealed-median agreement: the median recomputed from the run's own \
         per-unit means is not finite ("@
        + median
        + "); refusing to score"@
}

pub fn say_median_not_finite(median: &str) -> (m: String)
    ensures
        m@ == median_not_finite(median@),
{
    let mut m = "overlay sealed-median agreement: the median recomputed from the run's own \
         per-unit means is not finite (".to_owned();
    m.append(median);
    m.append("); refusing to score");
    m
}

/// A sealed median that the run contradicts.
pub open spec fn median_tampered(median: Seq<char>, sealed: Seq<char>, gap: Seq<char>) -> Seq<char> {
    "overlay sealed-median agreement failed (tamper): recomputed median "@
        + median
        + " disagrees with the sealed aggregate.raw_decode_speedup_median "@
        + sealed
        + " by "@
        + gap
        + " (>= 1e-7); the run's per-unit means and published median are inconsistent"@
}

pub fn say_median_tampered(median: &str, sealed: &str, gap: &str) -> (m: String)
    ensures
        m@ == median_tampered(median@, sealed@, gap@),
{
    let mut m = "overlay sealed-median agreement failed (tamper): recomputed median ".to_owned();
    m.append(median);
    m.append(" disagrees with the sealed aggregate.raw_decode_speedup_median ");
    m.append(sealed);
    m.append(" by ");
    m.append(gap);
    m.append(" (>= 1e-7); the run's per-unit means and published median are inconsistent");
    m
}

/// The published figure is below the floor.
pub open spec fn floor_failed(median: Seq<char>, floor: Seq<char>) -> Seq<char> {
    "performance floor failed (qwen-mtp raw serial-relative median "@
        + median
        + " below floor "@
        + floor
        + ")"@
}

pub fn say_floor_failed(median: &str, floor: &str) -> (m: String)
    ensures
        m@ == floor_failed(median@, floor@),
{
    let mut m = "performance floor failed (qwen-mtp raw serial-relative median ".to_owned();
    m.append(median);
    m.append(" below floor ");
    m.append(floor);
    m.append(")");
    m
}

/// The published figure is above the ceiling.
pub open spec fn ceiling_exceeded(median: Seq<char>, ceiling: Seq<char>) -> Seq<char> {
    "qwen-mtp plausibility ceiling exceeded (median "@
        + median
        + " above ceiling "@
        + ceiling
        + ")"@
}

pub fn say_ceiling_exceeded(median: &str, ceiling: &str) -> (m: String)
    ensures
        m@ == ceiling_exceeded(median@, ceiling@),
{
    let mut m = "qwen-mtp plausibility ceiling exceeded (median ".to_owned();
    m.append(median);
    m.append(" above ceiling ");
    m.append(ceiling);
    m.append(")");
    m
}

} // verus!
