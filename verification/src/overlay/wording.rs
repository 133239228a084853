//! What the refusals of a merge say: each names what it is about, in a fixed order.
use crate::overlay::refusals::{
    baseline_mean_invalid, below_min_pairs, candidate_mean_invalid, candidate_rejected,
    ceiling_exceeded, cohort_below_floor, cohort_floor_missed, cohort_mean_invalid,
    cohort_on_single_stream, cohort_pairs_mismatch, cohort_parity_failed, cohort_sha_malformed,
    cohort_width_mismatch, cohort_wrong_size, commit_differs, commit_missing, comparability_lie,
    composite_absent, composite_contradicted, composite_floor_mismatch, composite_incoherent,
    composite_not_derivable, composite_part_invalid, composite_verdict_mismatch, cross_series,
    descriptor_mismatch, diagnostic_not_finite, exponents_absent, exponents_not_ruled,
    floor_failed, gates_already_scored, gates_has_error, gates_incorrect,
    gates_malformed_harness, gates_no_harness, gates_not_partial, gates_not_passing,
    harness_legs_differ, homogeneity_lie, median_not_finite, median_tampered,
    member_sha_malformed, member_slot_mismatch, members_repeat, no_accepted_pairs,
    not_one_cohort, pair_candidate_series, pair_serial_series, pairs_empty, pairs_miscounted,
    parity_failed, per_cohort_empty, per_prompt_empty, pool_floor_missed, pool_wrong_size,
    prompt_below_floor, prompt_count_mismatch, prompt_mean_invalid, prompt_noop_invalid,
    prompt_parity_failed, prompt_sha_malformed, prompts_on_cohort, prompts_repeat,
    seal_unresolved, sealed_width_mismatch, track_empty, track_mismatch, unexpected_series,
    unknown_series, unknown_shape, weights_differ, weights_missing,
};
use crate::text::{bool_text, debug_text, decimal, group_says, says};
use vstd::prelude::*;

verus! {

/// How gates that cannot be merged are worded: each message says these things, one after the other.
pub proof fn bad_gates_are_told(
    score: Seq<char>,
    error: Seq<char>,
    length: nat,
    gates_preview: Seq<char>,
    seal_preview: Seq<char>,
    cause: Seq<char>,
)
    ensures
        gates_not_passing() == "gates-score.json is not a passing gates score (passed != true)"@,
        says(
            gates_already_scored(score),
            seq!["gates-score.json already carries a non-null score (Some("@].push(score)
                .push(")): the overlay computes the score; refusing to overlay onto an \
         already-scored artifact"@),
        ),
        gates_not_partial()
            == "gates-score.json partial_result != true: not a gates-only score awaiting \
         the timed overlay (a full score must not be overlaid again)"@,
        says(
            gates_has_error(error),
            seq!["gates-score.json carries a non-empty metrics.error ("@].push(debug_text(error))
                .push("); refusing to overlay onto a failed gate"@),
        ),
        gates_incorrect()
            == "gates-score.json passed_correctness != true: refusing to overlay timing \
         onto a gate that did not pass correctness"@,
        gates_no_harness()
            == "gates-score.json carries an empty metrics.harness_hash: the gates/seam-1 \
         score must carry the producer harness identity (a 64-char lowercase-hex \
         SHA256); refusing to overlay a gate with no harness identity"@,
        says(
            gates_malformed_harness(length),
            seq!["gates-score.json carries a malformed metrics.harness_hash (expected 64 \
         lowercase hex characters, got length "@]
                .push(decimal(length))
                .push("): refusing to overlay a gate whose harness identity is not a well-formed \
         SHA256 digest"@),
        ),
        says(
            harness_legs_differ(gates_preview, seal_preview),
            seq!["overlay cross-leg harness-identity mismatch: the gates/seam-1 score was \
         sealed under harness "@]
                .push(gates_preview).push("… but the harness resolved AT THE SEAL is "@)
                .push(seal_preview)
                .push("… — the harness tree CHANGED BETWEEN PHASES (the roster/harness content \
         check is pre-GPU, so a root mutated after that pass and before this seal is \
         invisible to it), or the two legs did not resolve the same workspace root. \
         Refusing to publish a score whose harness identity is not the one that was \
         gated."@),
        ),
        says(
            seal_unresolved(cause),
            seq!["the harness identity could not be resolved AT THE SEAL ("@].push(cause)
                .push("); benchctl overlay-timing must run with its working directory at the SAME \
         engine workspace root the seam-1 gates producer resolved (the trusted \
         driver pins this), and refuses to publish a score it cannot cross-check the \
         harness identity of"@),
        ),
{
    broadcast use group_says;
}

/// How a run of no one series is worded: each message says these things, one after the other.
pub proof fn a_bad_series_is_told(
    tag: Seq<char>,
    teacher_forced: Seq<char>,
    free_run: Seq<char>,
    batched: Seq<char>,
    leg: Seq<char>,
    i: nat,
    mode: Seq<char>,
    sealed: bool,
    serial: Seq<char>,
    candidate: Seq<char>,
    comparable: bool,
    descriptor: Seq<char>,
    expected: Seq<char>,
)
    ensures
        says(
            unknown_shape(tag, teacher_forced, free_run, batched),
            seq!["results.json timed_series.candidate_leg_timed_mode ("@].push(debug_text(tag))
                .push(") is not a known timed series ("@).push(debug_text(teacher_forced))
                .push(" | "@).push(debug_text(free_run)).push(" | "@).push(debug_text(batched))
                .push("): the overlay cannot tell which measurement SHAPE the file carries, so it \
         refuses to pick one — a defaulted shape would aggregate an unknown regime \
         by the single-stream rule"@),
        ),
        says(
            unknown_series(leg, tag, teacher_forced, free_run, batched),
            seq!["results.json timed_series."@].push(leg).push("_leg_timed_mode ("@)
                .push(debug_text(tag)).push(") is not a known timed series ("@)
                .push(debug_text(teacher_forced)).push(" | "@).push(debug_text(free_run))
                .push(" | "@).push(debug_text(batched))
                .push("): refusing to score a regime the overlay cannot reason about"@),
        ),
        says(
            pair_serial_series(i, mode, tag),
            seq!["results.json pairs["@].push(decimal(i)).push("].serial_timed_mode ("@)
                .push(debug_text(mode)).push(") != timed_series.serial_leg_timed_mode ("@)
                .push(debug_text(tag))
                .push("): the sealed series does not describe this pair — refusing to aggregate \
         mismatched series"@),
        ),
        says(
            pair_candidate_series(i, mode, tag),
            seq!["results.json pairs["@].push(decimal(i)).push("].candidate_timed_mode ("@)
                .push(debug_text(mode)).push(") != timed_series.candidate_leg_timed_mode ("@)
                .push(debug_text(tag))
                .push("): the sealed series does not describe this pair — refusing to aggregate \
         mismatched series"@),
        ),
        says(
            comparability_lie(sealed, serial, candidate, comparable),
            seq!["results.json timed_series.legs_comparable ("@].push(bool_text(sealed))
                .push(") disagrees with the recomputed §5 comparability of "@)
                .push(debug_text(serial)).push(" vs "@).push(debug_text(candidate)).push(" ("@)
                .push(bool_text(comparable))
                .push("): refusing a sealed comparability claim the rule does not support"@),
        ),
        says(
            homogeneity_lie(sealed, serial, candidate),
            seq!["results.json timed_series.homogeneous ("@].push(bool_text(sealed))
                .push(") disagrees with its own per-leg tags ("@).push(debug_text(serial))
                .push(" vs "@).push(debug_text(candidate)).push(")"@),
        ),
        says(
            cross_series(serial, candidate),
            seq!["results.json legs are NOT §5-comparable (serial "@].push(debug_text(serial))
                .push(" vs candidate "@).push(debug_text(candidate))
                .push("): every pair's raw_ratio divides two DIFFERENT measured quantities, so the \
         median is not a speedup — refusing to score a cross-series ratio. \
         PROTOCOL-v1.1 §5: a v1.1 score's baseline MUST be measured in v1.1 free-run \
         mode; reusing a v1 teacher-forced baseline (or vice versa) is a scoring \
         bug, not a conservative choice. Re-measure with the serial control in the \
         candidate's series."@),
        ),
        says(
            descriptor_mismatch(mode, descriptor),
            seq!["results.json timed_mode ("@].push(debug_text(mode))
                .push(") != the descriptor its own timed_series implies ("@)
                .push(debug_text(descriptor))
                .push("): the top-level series label and the per-leg tags disagree"@),
        ),
        says(
            unexpected_series(mode, expected),
            seq!["results.json timed_mode ("@].push(debug_text(mode))
                .push(") != expected series ("@).push(debug_text(expected))
                .push("): §5 makes baselines, floors and bands PER-SERIES, so a run of one series \
         is never scored as another"@),
        ),
{
    broadcast use group_says;
}

/// How a run with a verdict against it is worded: each message says these things, one after the
/// other.
pub proof fn a_bad_verdict_is_told(
    track: Seq<char>,
    expected: Seq<char>,
    count: nat,
    min_pairs: nat,
)
    ensures
        track_empty() == "results.json track_id is empty: the sealed track_id constant is required \
         (the ranked gate is .track_id == $track)"@,
        says(
            track_mismatch(track, expected),
            seq!["results.json track_id ("@].push(debug_text(track))
                .push(") != expected track ("@).push(debug_text(expected))
                .push("): refusing to overlay a run sealed for a different track"@),
        ),
        parity_failed()
            == "results.json parity_all_ok != true: the paired run had a parity failure"@,
        says(
            no_accepted_pairs(count),
            seq!["results.json accepted_pair_count ("@].push(decimal(count))
                .push(") < 1: no accepted pairs to score"@),
        ),
        candidate_rejected()
            == "results.json candidate_accepted != true: the measure-job die-5'd (candidate \
         rejected); refusing to overlay a passing score onto a rejected run"@,
        says(
            below_min_pairs(count, min_pairs),
            seq!["results.json accepted_pair_count ("@].push(decimal(count))
                .push(") < min_pairs ("@).push(decimal(min_pairs))
                .push("): the run did not reach the required pair count (die 5)"@),
        ),
{
    broadcast use group_says;
}

/// How a run with a body that is not that of its series is worded: each message says these things,
/// one after the other.
pub proof fn a_bad_body_is_told(
    count: nat,
    mode: Seq<char>,
    length: nat,
    mean: Seq<char>,
    min_pairs: nat,
    pool_size: nat,
    min_per_prompt: nat,
    batch_size: nat,
    label: Seq<char>,
    value: Seq<char>,
)
    ensures
        per_prompt_empty()
            == "results.json per_prompt is empty: nothing to aggregate the median over"@,
        says(
            cohort_on_single_stream(count, mode),
            seq!["results.json seals "@].push(decimal(count))
                .push(" per_cohort record(s) on a SINGLE-STREAM series ("@).push(debug_text(mode))
                .push("): the series tag and the body disagree about what was measured"@),
        ),
        says(
            per_cohort_empty(mode),
            seq!["results.json per_cohort is empty on a COHORT series ("@].push(debug_text(mode))
                .push("): a batched run's unit of measurement is the cohort, so there is nothing to score"@),
        ),
        says(
            prompts_on_cohort(count, mode),
            seq!["results.json seals "@].push(decimal(count))
                .push(" per_prompt record(s) on a COHORT series ("@).push(debug_text(mode))
                .push("): the pool prompts of a batched run are sealed as per_cohort[].members, so \
         a populated per_prompt means the series tag and the body disagree"@),
        ),
        pairs_empty() == "results.json pairs is empty: no accepted per-pair records to score \
         (forged/empty seal)"@,
        says(
            pairs_miscounted(length, count),
            seq!["results.json pairs.len ("@].push(decimal(length))
                .push(") != accepted_pair_count ("@).push(decimal(count))
                .push("): inconsistent seal (the measure-job invariant is pairs.len == \
         accepted_pair_count)"@),
        ),
        says(
            baseline_mean_invalid(mean),
            seq!["results.json aggregate.baseline_serial_seconds_per_token_mean ("@].push(mean)
                .push(") is not a finite value > 0: no valid baseline timing to anchor the ratio"@),
        ),
        says(
            candidate_mean_invalid(mean),
            seq!["results.json aggregate.candidate_mtp_seconds_per_token_mean ("@].push(mean)
                .push(") is not a finite value > 0: no valid candidate timing to anchor the ratio"@),
        ),
        says(
            pool_floor_missed(count, min_pairs, pool_size, min_per_prompt),
            seq!["results.json accepted_pair_count ("@].push(decimal(count))
                .push(") < pool min_pairs ("@).push(decimal(min_pairs)).push(" = pool_size "@)
                .push(decimal(pool_size)).push(" * min_per_prompt "@)
                .push(decimal(min_per_prompt))
                .push("): the pool did not reach its accepted floor"@),
        ),
        says(
            cohort_floor_missed(count, min_pairs, batch_size, min_per_prompt),
            seq!["results.json accepted_pair_count ("@].push(decimal(count))
                .push(") < cohort min_pairs ("@).push(decimal(min_pairs))
                .push(" = one cohort of "@).push(decimal(batch_size)).push(" * min_per_unit "@)
                .push(decimal(min_per_prompt))
                .push("): the cohort did not reach its accepted floor"@),
        ),
        says(
            diagnostic_not_finite(label, value),
            seq!["results.json aggregate."@].push(label).push(" ("@).push(value)
                .push(") is not a finite number"@),
        ),
        says(
            pool_wrong_size(length, pool_size),
            seq!["results.json per_prompt.len ("@].push(decimal(length)).push(") != pool_size ("@)
                .push(decimal(pool_size)).push("): the pool is the wrong size"@),
        ),
        says(
            not_one_cohort(length),
            seq!["results.json per_cohort.len ("@].push(decimal(length))
                .push(") != 1: a batched run times the WHOLE pool in one shared window, so it \
         seals exactly one cohort"@),
        ),
        says(
            cohort_wrong_size(length, pool_size),
            seq!["results.json per_cohort[0].members.len ("@].push(decimal(length))
                .push(") != pool_size ("@).push(decimal(pool_size))
                .push("): the cohort does not carry the whole pool"@),
        ),
        says(
            prompt_count_mismatch(count, pool_size),
            seq!["results.json prompt_count ("@].push(decimal(count)).push(") != pool_size ("@)
                .push(decimal(pool_size))
                .push("): the sealed pool count disagrees with the expected pool"@),
        ),
{
    broadcast use group_says;
}

/// How a prompt record that is refused is worded: each message says these things, one after the
/// other.
pub proof fn a_bad_prompt_is_told(
    i: nat,
    sha: Seq<char>,
    count: nat,
    min_per_prompt: nat,
    label: Seq<char>,
    value: Seq<char>,
    unique: nat,
    pool_size: nat,
)
    ensures
        says(
            prompt_sha_malformed(i, sha),
            seq!["results.json per_prompt["@].push(decimal(i)).push("].prompt_sha256 ("@)
                .push(debug_text(sha)).push(") is not 64 lowercase hex"@),
        ),
        says(
            prompt_parity_failed(i),
            seq!["results.json per_prompt["@].push(decimal(i))
                .push("].parity_ok != true: a prompt had a parity failure"@),
        ),
        says(
            prompt_below_floor(i, count, min_per_prompt),
            seq!["results.json per_prompt["@].push(decimal(i)).push("].accepted_pair_count ("@)
                .push(decimal(count)).push(") < min_per_prompt ("@).push(decimal(min_per_prompt))
                .push(")"@),
        ),
        says(
            prompt_mean_invalid(i, label, value),
            seq!["results.json per_prompt["@].push(decimal(i)).push("]."@).push(label).push(" ("@)
                .push(value).push(") is not > 0"@),
        ),
        says(
            prompt_noop_invalid(i, value),
            seq!["results.json per_prompt["@].push(decimal(i))
                .push("].noop_reference_decode_speedup ("@).push(value)
                .push(") is not > 0 (exactly-one positive no-op reference required)"@),
        ),
        says(
            prompts_repeat(unique, pool_size),
            seq!["results.json per_prompt prompt_sha256 are not all distinct (unique "@]
                .push(decimal(unique)).push(" != pool_size "@).push(decimal(pool_size))
                .push("): a duplicated prompt in the pool"@),
        ),
{
    broadcast use group_says;
}

/// How a cohort that is refused is worded: each message says these things, one after the other.
pub proof fn a_bad_cohort_is_told(
    width: nat,
    batch_size: nat,
    count: nat,
    min_per_prompt: nat,
    total: nat,
    sha: Seq<char>,
    label: Seq<char>,
    value: Seq<char>,
    i: nat,
    slot: nat,
    unique: nat,
    pool_size: nat,
)
    ensures
        says(
            cohort_width_mismatch(width, batch_size),
            seq!["results.json per_cohort[0].batch_size ("@].push(decimal(width))
                .push(") != the width its series tag encodes ("@).push(decimal(batch_size))
                .push("): the cohort record and the series disagree about how wide the run was"@),
        ),
        says(
            sealed_width_mismatch(width, batch_size),
            seq!["results.json scored_batch_size ("@].push(decimal(width))
                .push(") != the width its series tag encodes ("@).push(decimal(batch_size))
                .push("): the sealed width and the series disagree"@),
        ),
        cohort_parity_failed()
            == "results.json per_cohort[0].parity_ok != true: the cohort had a parity failure"@,
        says(
            cohort_below_floor(count, min_per_prompt),
            seq!["results.json per_cohort[0].accepted_pair_count ("@].push(decimal(count))
                .push(") < min_per_unit ("@).push(decimal(min_per_prompt)).push(")"@),
        ),
        says(
            cohort_pairs_mismatch(count, total),
            seq!["results.json per_cohort[0].accepted_pair_count ("@].push(decimal(count))
                .push(") != accepted_pair_count ("@).push(decimal(total))
                .push("): there is ONE cohort, so every accepted pair is this cohort's"@),
        ),
        says(
            cohort_sha_malformed(sha),
            seq!["results.json per_cohort[0].cohort_sha256 ("@].push(debug_text(sha))
                .push(") is not 64 lowercase hex"@),
        ),
        says(
            cohort_mean_invalid(label, value),
            seq!["results.json per_cohort[0]."@].push(label).push(" ("@).push(value)
                .push(") is not > 0"@),
        ),
        says(
            member_sha_malformed(i, sha),
            seq!["results.json per_cohort[0].members["@].push(decimal(i))
                .push("].prompt_sha256 ("@).push(debug_text(sha))
                .push(") is not 64 lowercase hex"@),
        ),
        says(
            member_slot_mismatch(i, slot),
            seq!["results.json per_cohort[0].members["@].push(decimal(i)).push("].slot_index ("@)
                .push(decimal(slot)).push(") != "@).push(decimal(i))
                .push(": slot order is load-bearing on the batched path (attestation slot i IS \
         cohort member slot i)"@),
        ),
        says(
            members_repeat(unique, pool_size),
            seq!["results.json per_cohort[0].members prompt_sha256 are not all distinct (unique "@]
                .push(decimal(unique)).push(" != pool_size "@).push(decimal(pool_size))
                .push("): a duplicated prompt in the cohort"@),
        ),
{
    broadcast use group_says;
}

/// How a composite that is refused is worded: each message says these things, one after the other.
pub proof fn a_bad_composite_is_told(
    reason: Seq<char>,
    label: Seq<char>,
    value: Seq<char>,
    prefill: Seq<char>,
    decode: Seq<char>,
    recomputed: Seq<char>,
    sealed_text: Seq<char>,
    rel: Seq<char>,
    floor: Seq<char>,
    sealed_flag: bool,
    met: bool,
    score: Seq<char>,
)
    ensures
        says(
            composite_absent(reason),
            seq!["results.json per_cohort[0].composite is absent (reason: "@].push(reason)
                .push("): the shared-window composite IS the published score of a batched run — \
         refusing to publish a cohort run that produced none"@),
        ),
        says(
            composite_contradicted(reason),
            seq!["results.json per_cohort[0] seals BOTH a composite and a \
         composite_absent_reason (Some("@]
                .push(debug_text(reason))
                .push(")): the producer's invariant is exactly one of the two, so this seal is incoherent"@),
        ),
        says(
            composite_part_invalid(label, value),
            seq!["results.json per_cohort[0].composite."@].push(label).push(" ("@).push(value)
                .push(") is not a finite value > 0"@),
        ),
        exponents_absent()
            == "results.json per_cohort[0].composite_scored_exponents is absent: the \
         exponents the composite was raised to must be sealed beside it"@,
        says(
            exponents_not_ruled(prefill, decode),
            seq!["results.json per_cohort[0].composite_scored_exponents ("@].push(prefill)
                .push(", "@).push(decode)
                .push(") != the RULED pair (0.25, 0.75): the scoring exponents are ruled \
         constants, not per-run data"@),
        ),
        says(
            composite_not_derivable(recomputed),
            seq!["overlay composite coherence: the composite recomputed from the sealed gains \
         is not a finite value > 0 ("@]
                .push(recomputed).push("); refusing to score"@),
        ),
        says(
            composite_incoherent(recomputed, sealed_text, rel),
            seq!["overlay composite coherence failed (tamper): the composite recomputed from \
         the sealed gains ("@]
                .push(recomputed).push(") disagrees with the sealed composite_score ("@)
                .push(sealed_text).push(") by a relative "@).push(rel)
                .push(" (>= 1e-9); the cohort's gains and its published composite are inconsistent"@),
        ),
        says(
            composite_floor_mismatch(floor),
            seq!["results.json per_cohort[0].composite.composite_speedup_floor ("@].push(floor)
                .push(") != the track floor (0.9): the floor is a constant, not a per-run value"@),
        ),
        says(
            composite_verdict_mismatch(sealed_flag, met, score),
            seq!["results.json per_cohort[0].composite.composite_speedup_floor_met ("@]
                .push(bool_text(sealed_flag)).push(") disagrees with the recomputed verdict ("@)
                .push(bool_text(met)).push(") for composite_score "@).push(score)
                .push(" against floor 0.9"@),
        ),
{
    broadcast use group_says;
}

/// How two inputs of different runs, a median that is not believed and a figure that does not pass
/// are worded: each message says these things, one after the other.
pub proof fn a_bad_merge_is_told(
    gates: Seq<char>,
    results: Seq<char>,
    median: Seq<char>,
    sealed: Seq<char>,
    gap: Seq<char>,
    floor: Seq<char>,
    ceiling: Seq<char>,
)
    ensures
        says(
            commit_missing(gates, results),
            seq!["overlay identity cross-check: empty commit (gates="@].push(debug_text(gates))
                .push(", results="@).push(debug_text(results))
                .push("); the two seam inputs must both carry the run commit"@),
        ),
        says(
            commit_differs(gates, results),
            seq!["overlay identity cross-check: commit mismatch (gates="@].push(debug_text(gates))
                .push(" != results="@).push(debug_text(results))
                .push("); the two seam inputs are not from the same run"@),
        ),
        says(
            weights_missing(gates, results),
            seq!["overlay identity cross-check: empty weights_hash (gates="@]
                .push(debug_text(gates)).push(", results="@).push(debug_text(results))
                .push("); the two seam inputs must both carry the weights identity"@),
        ),
        says(
            weights_differ(gates, results),
            seq!["overlay identity cross-check: weights_hash mismatch (gates="@]
                .push(debug_text(gates)).push(" != results="@).push(debug_text(results))
                .push("); the two seam inputs are not from the same run"@),
        ),
        says(
            median_not_finite(median),
            seq!["overlay sealed-median agreement: the median recomputed from the run's own \
         per-unit means is not finite ("@]
                .push(median).push("); refusing to score"@),
        ),
        says(
            median_tampered(median, sealed, gap),
            seq!["overlay sealed-median agreement failed (tamper): recomputed median "@]
                .push(median)
                .push(" disagrees with the sealed aggregate.raw_decode_speedup_median "@)
                .push(sealed).push(" by "@).push(gap)
                .push(" (>= 1e-7); the run's per-unit means and published median are inconsistent"@),
        ),
        says(
            floor_failed(median, floor),
            seq!["performance floor failed (qwen-mtp raw serial-relative median "@].push(median)
                .push(" below floor "@).push(floor).push(")"@),
        ),
        says(
            ceiling_exceeded(median, ceiling),
            seq!["qwen-mtp plausibility ceiling exceeded (median "@].push(median)
                .push(" above ceiling "@).push(ceiling).push(")"@),
        ),
{
    broadcast use group_says;
}

} // verus!
