//! What each input of a merge is refused with: the first objection, in the words that name it.
use crate::number::{eq, finite, ge, positive, Number};
use crate::overlay::composite::{composite_refusal, CompositeFigures};
use crate::overlay::gates::{
    byte_length, cross_leg_refusal, gates_refusal, identity_refusal, is_sha256_hex, preview,
};
use crate::overlay::merge::median_refusal;
use crate::overlay::pool::{
    body_refusal, cohort_record_refusal, diagnostic_refusal, floor_refusal, member_refusal,
    member_shas, members_refusal, pairs_refusal, prompt_refusal, prompt_shas, prompts_refusal,
    records_refusal, results_refusal, size_refusal, verdict_refusal,
};
use crate::overlay::refusals::{
    baseline_mean_invalid, below_min_pairs, candidate_mean_invalid, candidate_rejected,
    cohort_below_floor, cohort_floor_missed, cohort_mean_invalid, cohort_on_single_stream,
    cohort_pairs_mismatch, cohort_parity_failed, cohort_sha_malformed, cohort_width_mismatch,
    cohort_wrong_size, commit_differs, commit_missing, comparability_lie, composite_absent,
    composite_contradicted, composite_floor_mismatch, composite_incoherent,
    composite_not_derivable, composite_part_invalid, composite_verdict_mismatch, cross_series,
    descriptor_mismatch, diagnostic_not_finite, exponents_absent, exponents_not_ruled,
    gates_already_scored, gates_has_error, gates_incorrect, gates_malformed_harness,
    gates_no_harness, gates_not_partial, gates_not_passing, harness_legs_differ, homogeneity_lie,
    median_not_finite, median_tampered, member_sha_malformed, member_slot_mismatch,
    members_repeat, no_accepted_pairs, not_one_cohort, pair_candidate_series, pair_serial_series,
    pairs_empty, pairs_miscounted, parity_failed, per_cohort_empty, per_prompt_empty,
    pool_floor_missed, pool_wrong_size, prompt_below_floor, prompt_count_mismatch,
    prompt_mean_invalid, prompt_noop_invalid, prompt_parity_failed, prompt_sha_malformed,
    prompts_on_cohort, prompts_repeat, sealed_width_mismatch, track_empty, track_mismatch,
    unexpected_series, unknown_series, unknown_shape, weights_differ, weights_missing,
};
use crate::overlay::series::{label_refusal, pair_refusal, series_refusal, shape_of, shape_refusal};
use crate::overlay::view::{
    AggregateView, CohortMemberView, HarnessIdentity, PairView, PerCohortView, PerPromptView,
    PoolExpectation, ResultsShape, ResultsView,
};
use crate::score::ScorePayload;
use crate::text::trimmed;
use vstd::prelude::*;

verus! {

/// What a gates score is refused for, in this order: it does not pass, it is scored already, it is
/// whole already, it carries an error, it is incorrect, it names no harness, or names it badly.
pub proof fn gates_are_refused_for_the_first_fault(gates: &ScorePayload)
    ensures
        ({
            let r = gates_refusal(gates);
            let f0 = !gates.passed;
            let f1 = gates.score is Some;
            let f2 = !gates.metrics.partial_result;
            let f3 = gates.metrics.error@.len() > 0;
            let f4 = !gates.metrics.passed_correctness;
            let f5 = gates.metrics.harness_hash@.len() == 0;
            let f6 = !is_sha256_hex(gates.metrics.harness_hash@);
            &&& f0 ==> r == Some(gates_not_passing())
            &&& !f0 && f1 ==> r == Some(gates_already_scored(gates.score->0.debug@))
            &&& !f0 && !f1 && f2 ==> r == Some(gates_not_partial())
            &&& !f0 && !f1 && !f2 && f3 ==> r == Some(gates_has_error(gates.metrics.error@))
            &&& !f0 && !f1 && !f2 && !f3 && f4 ==> r == Some(gates_incorrect())
            &&& !f0 && !f1 && !f2 && !f3 && !f4 && f5 ==> r == Some(gates_no_harness())
            &&& !f0 && !f1 && !f2 && !f3 && !f4 && !f5 && f6 ==> r == Some(gates_malformed_harness(byte_length(gates.metrics.harness_hash@)))
            &&& r is None <==> !f0 && !f1 && !f2 && !f3 && !f4 && !f5 && !f6
        }),
{
}

/// A harness that changed between the gates and the seal is told by the first twelve characters of
/// both digests.
pub proof fn a_changed_harness_is_told_by_both_digests(gates: &ScorePayload, seal_leg: &HarnessIdentity)
    ensures
        ({
            let r = cross_leg_refusal(gates, seal_leg);
            let f0 = gates.metrics.harness_hash@ != seal_leg.hash@;
            &&& f0 ==> r == Some(harness_legs_differ(preview(gates.metrics.harness_hash@), preview(seal_leg.hash@)))
            &&& r is None <==> !f0
        }),
{
}

/// What two inputs are refused for as of different runs, in this order: a commit is missing, the
/// commits differ, weights are missing, the weights differ.
pub proof fn different_runs_are_told_by_the_first_difference(gates: &ScorePayload, results: &ResultsView)
    ensures
        ({
            let r = identity_refusal(gates, results);
            let f0 = gates.metrics.commit@.len() == 0 || results.commit@.len() == 0;
            let f1 = gates.metrics.commit@ != results.commit@;
            let f2 = gates.metrics.weights_hash@.len() == 0 || results.weights_hash@.len() == 0;
            let f3 = gates.metrics.weights_hash@ != results.weights_hash@;
            &&& f0 ==> r == Some(commit_missing(gates.metrics.commit@, results.commit@))
            &&& !f0 && f1 ==> r == Some(commit_differs(gates.metrics.commit@, results.commit@))
            &&& !f0 && !f1 && f2 ==> r == Some(weights_missing(gates.metrics.weights_hash@, results.weights_hash@))
            &&& !f0 && !f1 && !f2 && f3 ==> r == Some(weights_differ(gates.metrics.weights_hash@, results.weights_hash@))
            &&& r is None <==> !f0 && !f1 && !f2 && !f3
        }),
{
}

/// What a run is refused for by its verdicts, in this order: no track, another track, a parity
/// failure, no accepted pair, a rejected candidate, too few pairs.
pub proof fn verdicts_are_refused_for_the_first_fault(results: &ResultsView, expected_track: Option<Seq<char>>)
    ensures
        ({
            let r = verdict_refusal(results, expected_track);
            let f0 = trimmed(results.track_id@).len() == 0;
            let f1 = expected_track is Some && trimmed(results.track_id@) != expected_track->0;
            let f2 = !results.parity_all_ok;
            let f3 = results.accepted_pair_count == 0;
            let f4 = !results.candidate_accepted;
            let f5 = results.accepted_pair_count < results.min_pairs;
            &&& f0 ==> r == Some(track_empty())
            &&& !f0 && f1 ==> r == Some(track_mismatch(trimmed(results.track_id@), expected_track->0))
            &&& !f0 && !f1 && f2 ==> r == Some(parity_failed())
            &&& !f0 && !f1 && !f2 && f3 ==> r == Some(no_accepted_pairs(0))
            &&& !f0 && !f1 && !f2 && !f3 && f4 ==> r == Some(candidate_rejected())
            &&& !f0 && !f1 && !f2 && !f3 && !f4 && f5 ==> r == Some(below_min_pairs(results.accepted_pair_count as nat, results.min_pairs as nat))
            &&& r is None <==> !f0 && !f1 && !f2 && !f3 && !f4 && !f5
        }),
{
}

/// What a single-stream body is refused for: no prompt records, or any cohort.
pub proof fn a_single_stream_body_is_refused_for_the_first_fault(results: &ResultsView)
    ensures
        ({
            let r = body_refusal(results, ResultsShape::SingleStream);
            let f0 = results.per_prompt@.len() == 0;
            let f1 = results.per_cohort@.len() > 0;
            &&& f0 ==> r == Some(per_prompt_empty())
            &&& !f0 && f1 ==> r == Some(cohort_on_single_stream(results.per_cohort@.len(), results.timed_mode@))
            &&& r is None <==> !f0 && !f1
        }),
{
}

/// What a cohort body is refused for: no cohort, or any prompt records.
pub proof fn a_cohort_body_is_refused_for_the_first_fault(results: &ResultsView, batch_size: u32)
    ensures
        ({
            let r = body_refusal(results, ResultsShape::Cohort { batch_size });
            let f0 = results.per_cohort@.len() == 0;
            let f1 = results.per_prompt@.len() > 0;
            &&& f0 ==> r == Some(per_cohort_empty(results.timed_mode@))
            &&& !f0 && f1 ==> r == Some(prompts_on_cohort(results.per_prompt@.len(), results.timed_mode@))
            &&& r is None <==> !f0 && !f1
        }),
{
}

/// What the pairs of a run are refused for, in this order: there are none, they are not as many as
/// accepted, and the two means of the aggregate are not above zero.
pub proof fn pairs_are_refused_for_the_first_fault(results: &ResultsView)
    ensures
        ({
            let r = pairs_refusal(results);
            let f0 = results.pairs@.len() == 0;
            let f1 = results.pairs@.len() != results.accepted_pair_count;
            let f2 = !positive(results.aggregate.baseline_serial_seconds_per_token_mean.bits);
            let f3 = !positive(results.aggregate.candidate_mtp_seconds_per_token_mean.bits);
            &&& f0 ==> r == Some(pairs_empty())
            &&& !f0 && f1 ==> r == Some(pairs_miscounted(results.pairs@.len(), results.accepted_pair_count as nat))
            &&& !f0 && !f1 && f2 ==> r == Some(baseline_mean_invalid(results.aggregate.baseline_serial_seconds_per_token_mean.display@))
            &&& !f0 && !f1 && !f2 && f3 ==> r == Some(candidate_mean_invalid(results.aggregate.candidate_mtp_seconds_per_token_mean.display@))
            &&& r is None <==> !f0 && !f1 && !f2 && !f3
        }),
{
}

/// What the diagnostics of a run are refused for: the first of them that is no number.
pub proof fn diagnostics_are_refused_for_the_first_fault(agg: AggregateView)
    ensures
        ({
            let r = diagnostic_refusal(agg);
            let f0 = !finite(agg.mtp_decode_speedup_median.bits);
            let f1 = !finite(agg.mtp_decode_speedup_min.bits);
            let f2 = !finite(agg.raw_decode_speedup_median.bits);
            &&& f0 ==> r == Some(diagnostic_not_finite("mtp_decode_speedup_median"@, agg.mtp_decode_speedup_median.display@))
            &&& !f0 && f1 ==> r == Some(diagnostic_not_finite("mtp_decode_speedup_min"@, agg.mtp_decode_speedup_min.display@))
            &&& !f0 && !f1 && f2 ==> r == Some(diagnostic_not_finite("raw_decode_speedup_median"@, agg.raw_decode_speedup_median.display@))
            &&& r is None <==> !f0 && !f1 && !f2
        }),
{
}

/// What the size of a single-stream pool is refused for: its records, or the count it declares.
pub proof fn a_single_stream_size_is_refused_for_the_first_fault(results: &ResultsView, pool: PoolExpectation)
    ensures
        ({
            let r = size_refusal(results, ResultsShape::SingleStream, pool);
            let f0 = results.per_prompt@.len() != pool.pool_size;
            let f1 = results.prompt_count != pool.pool_size;
            &&& f0 ==> r == Some(pool_wrong_size(results.per_prompt@.len(), pool.pool_size as nat))
            &&& !f0 && f1 ==> r == Some(prompt_count_mismatch(results.prompt_count as nat, pool.pool_size as nat))
            &&& r is None <==> !f0 && !f1
        }),
{
}

/// What the size of a cohort is refused for: more than one cohort, its members, or the count it
/// declares.
pub proof fn a_cohort_size_is_refused_for_the_first_fault(results: &ResultsView, batch_size: u32, pool: PoolExpectation)
    ensures
        ({
            let r = size_refusal(results, ResultsShape::Cohort { batch_size }, pool);
            let f0 = results.per_cohort@.len() != 1;
            let f1 = results.per_cohort@[0].members@.len() != pool.pool_size;
            let f2 = results.prompt_count != pool.pool_size;
            &&& f0 ==> r == Some(not_one_cohort(results.per_cohort@.len()))
            &&& !f0 && f1 ==> r == Some(cohort_wrong_size(results.per_cohort@[0].members@.len(), pool.pool_size as nat))
            &&& !f0 && !f1 && f2 ==> r == Some(prompt_count_mismatch(results.prompt_count as nat, pool.pool_size as nat))
            &&& r is None <==> !f0 && !f1 && !f2
        }),
{
}

/// What one prompt record is refused for, in this order: its digest, its parity, its pairs, and the
/// first of its figures that is not above zero.
pub proof fn a_prompt_is_refused_for_the_first_fault(p: PerPromptView, i: nat, min: nat)
    ensures
        ({
            let r = prompt_refusal(p, i, min);
            let f0 = !is_sha256_hex(p.prompt_sha256@);
            let f1 = !p.parity_ok;
            let f2 = p.accepted_pair_count < min;
            let f3 = !positive(p.serial_seconds_per_token_mean.bits);
            let f4 = !positive(p.mtp_seconds_per_token_mean.bits);
            let f5 = !positive(p.raw_ratio_of_means.bits);
            let f6 = !positive(p.noop_reference_decode_speedup.bits);
            &&& f0 ==> r == Some(prompt_sha_malformed(i, p.prompt_sha256@))
            &&& !f0 && f1 ==> r == Some(prompt_parity_failed(i))
            &&& !f0 && !f1 && f2 ==> r == Some(prompt_below_floor(i, p.accepted_pair_count as nat, min))
            &&& !f0 && !f1 && !f2 && f3 ==> r == Some(prompt_mean_invalid(i, "serial_seconds_per_token_mean"@, p.serial_seconds_per_token_mean.display@))
            &&& !f0 && !f1 && !f2 && !f3 && f4 ==> r == Some(prompt_mean_invalid(i, "mtp_seconds_per_token_mean"@, p.mtp_seconds_per_token_mean.display@))
            &&& !f0 && !f1 && !f2 && !f3 && !f4 && f5 ==> r == Some(prompt_mean_invalid(i, "raw_ratio_of_means"@, p.raw_ratio_of_means.display@))
            &&& !f0 && !f1 && !f2 && !f3 && !f4 && !f5 && f6 ==> r == Some(prompt_noop_invalid(i, p.noop_reference_decode_speedup.display@))
            &&& r is None <==> !f0 && !f1 && !f2 && !f3 && !f4 && !f5 && !f6
        }),
{
}

/// What one member of a cohort is refused for: its digest, or a slot that is not its own.
pub proof fn a_member_is_refused_for_the_first_fault(m: CohortMemberView, i: nat)
    ensures
        ({
            let r = member_refusal(m, i);
            let f0 = !is_sha256_hex(m.prompt_sha256@);
            let f1 = m.slot_index != i;
            &&& f0 ==> r == Some(member_sha_malformed(i, m.prompt_sha256@))
            &&& !f0 && f1 ==> r == Some(member_slot_mismatch(i, m.slot_index as nat))
            &&& r is None <==> !f0 && !f1
        }),
{
}

/// What the record of a cohort is refused for, in this order: its width, the width of the run, its
/// parity, its pairs against the floor and against the run, its digest, and the first of its figures
/// that is not above zero.
pub proof fn a_cohort_is_refused_for_the_first_fault(c: PerCohortView, results: &ResultsView, pool: PoolExpectation, batch_size: u32)
    ensures
        ({
            let r = cohort_record_refusal(c, results, pool, batch_size);
            let f0 = c.batch_size != batch_size;
            let f1 = results.scored_batch_size is Some && results.scored_batch_size->0 != batch_size;
            let f2 = !c.parity_ok;
            let f3 = c.accepted_pair_count < pool.min_per_prompt;
            let f4 = c.accepted_pair_count != results.accepted_pair_count;
            let f5 = !is_sha256_hex(c.cohort_sha256@);
            let f6 = !positive(c.serial_seconds_per_token_mean.bits);
            let f7 = !positive(c.candidate_seconds_per_token_mean.bits);
            let f8 = !positive(c.raw_ratio_of_means.bits);
            &&& f0 ==> r == Some(cohort_width_mismatch(c.batch_size as nat, batch_size as nat))
            &&& !f0 && f1 ==> r == Some(sealed_width_mismatch(results.scored_batch_size->0 as nat, batch_size as nat))
            &&& !f0 && !f1 && f2 ==> r == Some(cohort_parity_failed())
            &&& !f0 && !f1 && !f2 && f3 ==> r == Some(cohort_below_floor(c.accepted_pair_count as nat, pool.min_per_prompt as nat))
            &&& !f0 && !f1 && !f2 && !f3 && f4 ==> r == Some(cohort_pairs_mismatch(c.accepted_pair_count as nat, results.accepted_pair_count as nat))
            &&& !f0 && !f1 && !f2 && !f3 && !f4 && f5 ==> r == Some(cohort_sha_malformed(c.cohort_sha256@))
            &&& !f0 && !f1 && !f2 && !f3 && !f4 && !f5 && f6 ==> r == Some(cohort_mean_invalid("serial_seconds_per_token_mean"@, c.serial_seconds_per_token_mean.display@))
            &&& !f0 && !f1 && !f2 && !f3 && !f4 && !f5 && !f6 && f7 ==> r == Some(cohort_mean_invalid("candidate_seconds_per_token_mean"@, c.candidate_seconds_per_token_mean.display@))
            &&& !f0 && !f1 && !f2 && !f3 && !f4 && !f5 && !f6 && !f7 && f8 ==> r == Some(cohort_mean_invalid("raw_ratio_of_means"@, c.raw_ratio_of_means.display@))
            &&& r is None <==> !f0 && !f1 && !f2 && !f3 && !f4 && !f5 && !f6 && !f7 && !f8
        }),
{
}

/// What the composite of a cohort is refused for, in this order: it is missing, it is excused as
/// missing, a part is not above zero, its exponents are missing or not the ruled ones, it cannot be
/// recomputed or disagrees with what is recomputed, its floor is another, its verdict is wrong.
pub proof fn a_composite_is_refused_for_the_first_fault(c: &PerCohortView, figures: &CompositeFigures)
    ensures
        ({
            let r = composite_refusal(c, figures);
            let m = c.composite->0;
            let e = c.composite_scored_exponents->0;
            let met = ge(m.composite_score.bits, 0x3fec_cccc_cccc_cccd);
            let f0 = c.composite is None;
            let f1 = c.composite_absent_reason is Some;
            let f2 = !positive(m.prefill_gain.bits);
            let f3 = !positive(m.decode_gain.bits);
            let f4 = !positive(m.composite_score.bits);
            let f5 = c.composite_scored_exponents is None;
            let f6 = !eq(e.prefill_gain_exponent.bits, 0x3fd0_0000_0000_0000) || !eq(e.decode_gain_exponent.bits, 0x3fe8_0000_0000_0000);
            let f7 = !positive(figures.recomputed.bits);
            let f8 = ge(figures.relative_gap.bits, 0x3e11_2e0b_e826_d695);
            let f9 = !eq(m.composite_speedup_floor.bits, 0x3fec_cccc_cccc_cccd);
            let f10 = m.composite_speedup_floor_met != met;
            &&& f0 ==> r == Some(composite_absent(match c.composite_absent_reason { Some(t) => t@, None => "<none sealed>"@ }))
            &&& !f0 && f1 ==> r == Some(composite_contradicted(c.composite_absent_reason->0@))
            &&& !f0 && !f1 && f2 ==> r == Some(composite_part_invalid("prefill_gain"@, m.prefill_gain.display@))
            &&& !f0 && !f1 && !f2 && f3 ==> r == Some(composite_part_invalid("decode_gain"@, m.decode_gain.display@))
            &&& !f0 && !f1 && !f2 && !f3 && f4 ==> r == Some(composite_part_invalid("composite_score"@, m.composite_score.display@))
            &&& !f0 && !f1 && !f2 && !f3 && !f4 && f5 ==> r == Some(exponents_absent())
            &&& !f0 && !f1 && !f2 && !f3 && !f4 && !f5 && f6 ==> r == Some(exponents_not_ruled(e.prefill_gain_exponent.display@, e.decode_gain_exponent.display@))
            &&& !f0 && !f1 && !f2 && !f3 && !f4 && !f5 && !f6 && f7 ==> r == Some(composite_not_derivable(figures.recomputed.display@))
            &&& !f0 && !f1 && !f2 && !f3 && !f4 && !f5 && !f6 && !f7 && f8 ==> r == Some(composite_incoherent(figures.recomputed.display@, m.composite_score.display@, figures.relative_gap.display@))
            &&& !f0 && !f1 && !f2 && !f3 && !f4 && !f5 && !f6 && !f7 && !f8 && f9 ==> r == Some(composite_floor_mismatch(m.composite_speedup_floor.display@))
            &&& !f0 && !f1 && !f2 && !f3 && !f4 && !f5 && !f6 && !f7 && !f8 && !f9 && f10 ==> r == Some(composite_verdict_mismatch(m.composite_speedup_floor_met, met, m.composite_score.display@))
            &&& r is None <==> !f0 && !f1 && !f2 && !f3 && !f4 && !f5 && !f6 && !f7 && !f8 && !f9 && !f10
        }),
{
}

/// What the labels of a run are refused for, in this order: what is sealed about its legs does not
/// follow from their tags, the legs are of two series, the run is labelled as another series, or
/// another series is expected.
pub proof fn labels_are_refused_for_the_first_fault(results: &ResultsView, expected: Option<Seq<char>>)
    ensures
        ({
            let r = label_refusal(results, expected);
            let serial = trimmed(results.timed_series.serial_leg_timed_mode@);
            let candidate = trimmed(results.timed_series.candidate_leg_timed_mode@);
            let f0 = results.timed_series.legs_comparable != (serial == candidate);
            let f1 = results.timed_series.homogeneous != (serial == candidate);
            let f2 = serial != candidate;
            let f3 = trimmed(results.timed_mode@) != serial;
            let f4 = expected is Some && trimmed(results.timed_mode@) != expected->0;
            &&& f0 ==> r == Some(comparability_lie(results.timed_series.legs_comparable, serial, candidate, serial == candidate))
            &&& !f0 && f1 ==> r == Some(homogeneity_lie(results.timed_series.homogeneous, serial, candidate))
            &&& !f0 && !f1 && f2 ==> r == Some(cross_series(serial, candidate))
            &&& !f0 && !f1 && !f2 && f3 ==> r == Some(descriptor_mismatch(results.timed_mode@, serial))
            &&& !f0 && !f1 && !f2 && !f3 && f4 ==> r == Some(unexpected_series(results.timed_mode@, expected->0))
            &&& r is None <==> !f0 && !f1 && !f2 && !f3 && !f4
        }),
{
}

/// What a recomputed median is refused for: it is no number, or it is too far from the sealed one.
pub proof fn a_median_is_refused_for_the_first_fault(results: &ResultsView, median: Number, gap: Number)
    ensures
        ({
            let r = median_refusal(results, median, gap);
            let f0 = !finite(median.bits);
            let f1 = ge(gap.bits, 0x3e7a_d7f2_9abc_af48);
            &&& f0 ==> r == Some(median_not_finite(median.display@))
            &&& !f0 && f1 ==> r == Some(median_tampered(median.display@, results.aggregate.raw_decode_speedup_median.display@, gap.display@))
            &&& r is None <==> !f0 && !f1
        }),
{
}

/// A run below its pair floor is told how many pairs it has and how many it owes.
pub proof fn a_missed_floor_is_told_by_both_counts(
    results: &ResultsView,
    batch_size: u32,
    pool: PoolExpectation,
)
    ensures
        ({
            let count = results.accepted_pair_count as nat;
            let owed = pool.pair_floor(ResultsShape::SingleStream);
            let min = pool.min_per_prompt as nat;
            &&& floor_refusal(results, ResultsShape::SingleStream, pool) == if count < owed {
                Some(pool_floor_missed(count, owed, pool.pool_size as nat, min))
            } else {
                None
            }
            &&& floor_refusal(results, ResultsShape::Cohort { batch_size }, pool) == if count < min {
                Some(cohort_floor_missed(count, min, batch_size as nat, min))
            } else {
                None
            }
        }),
{
}

/// A run is looked at from its series to its verdicts, its body, its pairs, its floor, its
/// diagnostics, its size and last its records: what an earlier look objects to is what it is
/// refused with.
pub proof fn a_run_is_refused_by_the_first_objection(
    results: &ResultsView,
    expected_track: Option<Seq<char>>,
    expected_series: Option<Seq<char>>,
    pool: PoolExpectation,
    figures: &CompositeFigures,
)
    requires
        shape_of(results) is Some,
    ensures
        ({
            let shape = shape_of(results)->0;
            let looks = seq![
                series_refusal(results, expected_series),
                verdict_refusal(results, expected_track),
                body_refusal(results, shape),
                pairs_refusal(results),
                floor_refusal(results, shape, pool),
                diagnostic_refusal(results.aggregate),
                size_refusal(results, shape, pool),
                records_refusal(results, shape, pool, figures),
            ];
            let r = results_refusal(results, expected_track, expected_series, pool, figures);
            &&& r is None <==> forall|k: int| 0 <= k < 8 ==> #[trigger] looks[k] is None
            &&& forall|k: int|
                0 <= k < 8 && #[trigger] looks[k] is Some && (forall|j: int|
                    0 <= j < k ==> #[trigger] looks[j] is None) ==> r == looks[k]
        }),
{
    let shape = shape_of(results)->0;
    let looks = seq![
        series_refusal(results, expected_series),
        verdict_refusal(results, expected_track),
        body_refusal(results, shape),
        pairs_refusal(results),
        floor_refusal(results, shape, pool),
        diagnostic_refusal(results.aggregate),
        size_refusal(results, shape, pool),
        records_refusal(results, shape, pool, figures),
    ];
    let r = results_refusal(results, expected_track, expected_series, pool, figures);
    assert(looks[0] is None || looks[0] is Some);
    assert(looks[1] is None || looks[1] is Some);
    assert(looks[2] is None || looks[2] is Some);
    assert(looks[3] is None || looks[3] is Some);
    assert(looks[4] is None || looks[4] is Some);
    assert(looks[5] is None || looks[5] is Some);
    assert(looks[6] is None || looks[6] is Some);
    assert(looks[7] is None || looks[7] is Some);
    assert forall|k: int|
        0 <= k < 8 && #[trigger] looks[k] is Some && (forall|j: int|
            0 <= j < k ==> #[trigger] looks[j] is None) implies r == looks[k] by {
        assert(k == 0 || k == 1 || k == 2 || k == 3 || k == 4 || k == 5 || k == 6 || k == 7);
    }
    if r is None {
        assert forall|k: int| 0 <= k < 8 implies #[trigger] looks[k] is None by {
            assert(k == 0 || k == 1 || k == 2 || k == 3 || k == 4 || k == 5 || k == 6 || k == 7);
        }
    }
}

/// The records of a pool: every prompt is looked at before the pool is looked at for a prompt that
/// is there twice; and of a cohort the record comes first, then its members, then a member that is
/// there twice, and its composite last.
pub proof fn records_are_refused_by_the_first_objection(
    results: &ResultsView,
    pool: PoolExpectation,
    batch_size: u32,
    figures: &CompositeFigures,
)
    ensures
        ({
            let of_prompts = prompts_refusal(
                results.per_prompt@,
                0,
                pool.min_per_prompt as nat,
            );
            let unique = prompt_shas(results.per_prompt@).to_set().len();
            let r = records_refusal(results, ResultsShape::SingleStream, pool, figures);
            &&& of_prompts is Some ==> r == of_prompts
            &&& of_prompts is None && unique != pool.pool_size ==> r == Some(
                prompts_repeat(unique, pool.pool_size as nat),
            )
            &&& of_prompts is None && unique == pool.pool_size ==> r is None
        }),
        ({
            let c = results.per_cohort@[0];
            let of_record = cohort_record_refusal(c, results, pool, batch_size);
            let of_members = members_refusal(c.members@, 0);
            let unique = member_shas(c.members@).to_set().len();
            let r = records_refusal(
                results,
                ResultsShape::Cohort { batch_size },
                pool,
                figures,
            );
            &&& of_record is Some ==> r == of_record
            &&& of_record is None && of_members is Some ==> r == of_members
            &&& of_record is None && of_members is None && unique != pool.pool_size ==> r == Some(
                members_repeat(unique, pool.pool_size as nat),
            )
            &&& of_record is None && of_members is None && unique == pool.pool_size ==> r
                == composite_refusal(&c, figures)
        }),
{
}

/// The prompts of a pool are looked at in their order: the first one that is objected to is the one
/// that is named, under its own number.
pub proof fn the_first_bad_prompt_is_named(prompts: Seq<PerPromptView>, from: int, k: int, min: nat)
    requires
        0 <= from <= k < prompts.len(),
        prompt_refusal(prompts[k], k as nat, min) is Some,
        forall|j: int| from <= j < k ==> prompt_refusal(#[trigger] prompts[j], j as nat, min) is None,
    ensures
        prompts_refusal(prompts, from, min) == prompt_refusal(prompts[k], k as nat, min),
    decreases k - from,
{
    if from < k {
        assert(prompt_refusal(prompts[from], from as nat, min) is None);
        the_first_bad_prompt_is_named(prompts, from + 1, k, min);
    }
}

/// The members of a cohort are looked at in their order: the first one that is objected to is the
/// one that is named, under its own number.
pub proof fn the_first_bad_member_is_named(members: Seq<CohortMemberView>, from: int, k: int)
    requires
        0 <= from <= k < members.len(),
        member_refusal(members[k], k as nat) is Some,
        forall|j: int| from <= j < k ==> member_refusal(#[trigger] members[j], j as nat) is None,
    ensures
        members_refusal(members, from) == member_refusal(members[k], k as nat),
    decreases k - from,
{
    if from < k {
        assert(member_refusal(members[from], from as nat) is None);
        the_first_bad_member_is_named(members, from + 1, k);
    }
}

/// The pairs of a run are looked at in their order: the first one that is not of the series of the
/// legs is named under its own number, by its serial leg first.
pub proof fn the_first_stray_pair_is_named(
    pairs: Seq<PairView>,
    from: int,
    k: int,
    serial: Seq<char>,
    candidate: Seq<char>,
)
    requires
        0 <= from <= k < pairs.len(),
        forall|j: int|
            from <= j < k ==> trimmed(#[trigger] pairs[j].serial_timed_mode@) == serial && trimmed(
                pairs[j].candidate_timed_mode@,
            ) == candidate,
    ensures
        trimmed(pairs[k].serial_timed_mode@) != serial ==> pair_refusal(
            pairs,
            from,
            serial,
            candidate,
        ) == Some(pair_serial_series(k as nat, pairs[k].serial_timed_mode@, serial)),
        trimmed(pairs[k].serial_timed_mode@) == serial && trimmed(pairs[k].candidate_timed_mode@)
            != candidate ==> pair_refusal(pairs, from, serial, candidate) == Some(
            pair_candidate_series(k as nat, pairs[k].candidate_timed_mode@, candidate),
        ),
    decreases k - from,
{
    if from < k {
        assert(trimmed(pairs[from].serial_timed_mode@) == serial);
        the_first_stray_pair_is_named(pairs, from + 1, k, serial, candidate);
    }
}

/// The fence looks at the tags of the legs first, the serial one before the candidate, then at the
/// pairs, and last at the labels.
pub proof fn the_fence_refuses_by_the_first_objection(
    results: &ResultsView,
    expected: Option<Seq<char>>,
)
    ensures
        ({
            let serial = trimmed(results.timed_series.serial_leg_timed_mode@);
            let candidate = trimmed(results.timed_series.candidate_leg_timed_mode@);
            let of_pairs = pair_refusal(results.pairs@, 0, serial, candidate);
            let known = |tag: Seq<char>|
                tag == "teacher_forced_v1"@ || tag == "free_run_v1_1"@ || tag
                    == "batched_free_run_v1_2_b8"@;
            let stray = |leg: Seq<char>, tag: Seq<char>|
                unknown_series(
                    leg,
                    tag,
                    "teacher_forced_v1"@,
                    "free_run_v1_1"@,
                    "batched_free_run_v1_2_b8"@,
                );
            let r = series_refusal(results, expected);
            &&& !known(serial) ==> r == Some(stray("serial"@, serial))
            &&& known(serial) && !known(candidate) ==> r == Some(stray("candidate"@, candidate))
            &&& known(serial) && known(candidate) && of_pairs is Some ==> r == of_pairs
            &&& known(serial) && known(candidate) && of_pairs is None ==> r == label_refusal(
                results,
                expected,
            )
        }),
        shape_refusal(results) == unknown_shape(
            trimmed(results.timed_series.candidate_leg_timed_mode@),
            "teacher_forced_v1"@,
            "free_run_v1_1"@,
            "batched_free_run_v1_2_b8"@,
        ),
{
}

/// A digest is quoted by its first twelve characters, or whole where it is shorter.
pub proof fn a_digest_is_quoted_by_twelve_characters(digest: Seq<char>)
    ensures
        digest.len() <= 12 ==> preview(digest) == digest,
        digest.len() > 12 ==> preview(digest) == digest.subrange(0, 12),
{
}

} // verus!
