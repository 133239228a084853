//! What holds of every merge.
use crate::number::{eq, finite, ge, gt, positive, Number};
use crate::overlay::composite::{
    composite_refusal, CompositeFigures, COMPOSITE_COHERENCE_REL_EPS_BITS,
    DECODE_SPEEDUP_FLOOR_BITS,
};
use crate::overlay::gates::{
    cross_leg_refusal, gates_refusal, identity_refusal, is_sha256_hex, preview,
    HARNESS_DIGEST_PREVIEW_LEN,
};
use crate::overlay::merge::{
    agreement_of, median_refusal, merge_refusal, merged_as, merges, overlay_refusal, pair_numbers,
    plans, plans_cohort, prompt_samples, published_of, CohortSeal, OverlayFigures, OverlayOutcome,
    OverlayPlan, PairedDecodeFailure, PairedScore, Sample,
};
use crate::overlay::pool::{
    member_refusal, member_shas, members_refusal, prompt_refusal, prompt_shas, prompts_refusal,
    results_refusal,
};
use crate::overlay::series::{
    candidate_tag, known_tag, pair_refusal, series_refusal, serial_tag, shape_of, shape_of_tag,
};
use crate::overlay::view::{
    CohortMemberView, HarnessIdentity, PairView, PerCohortView, PerPromptView, PoolExpectation, ResultsShape,
    ResultsView, SCORED_BATCH_SIZE_B8, TIMED_MODE_BATCHED_FREE_RUN_V1_2_B8,
    TIMED_MODE_FREE_RUN_V1_1, TIMED_MODE_TEACHER_FORCED_V1,
};
use crate::score::ScorePayload;
use crate::text::{has_prefix, trimmed};
use vstd::prelude::*;

verus! {

/// The gates are accepted exactly when they are a passing, unscored, partial, error-free and
/// correct half that names a harness by a well-formed digest.
pub proof fn accepted_gates_are_a_clean_half(gates: &ScorePayload)
    ensures
        gates_refusal(gates) is None <==> {
            &&& gates.passed
            &&& gates.score is None
            &&& gates.metrics.partial_result
            &&& gates.metrics.error@.len() == 0
            &&& gates.metrics.passed_correctness
            &&& is_sha256_hex(gates.metrics.harness_hash@)
        },
{
}

/// The three known tags stand for their shapes, and no other tag stands for any.
pub proof fn known_tags_have_one_shape(tag: Seq<char>)
    ensures
        shape_of_tag(TIMED_MODE_TEACHER_FORCED_V1@) == Some(ResultsShape::SingleStream),
        shape_of_tag(TIMED_MODE_FREE_RUN_V1_1@) == Some(ResultsShape::SingleStream),
        shape_of_tag(TIMED_MODE_BATCHED_FREE_RUN_V1_2_B8@) == Some(
            ResultsShape::Cohort { batch_size: SCORED_BATCH_SIZE_B8 },
        ),
        shape_of_tag(tag) is Some ==> tag == TIMED_MODE_TEACHER_FORCED_V1@ || tag
            == TIMED_MODE_FREE_RUN_V1_1@ || tag == TIMED_MODE_BATCHED_FREE_RUN_V1_2_B8@,
{
    reveal_strlit("teacher_forced_v1");
    reveal_strlit("free_run_v1_1");
    reveal_strlit("batched_free_run_v1_2_b8");
    assert(TIMED_MODE_TEACHER_FORCED_V1@.len() != TIMED_MODE_BATCHED_FREE_RUN_V1_2_B8@.len());
    assert(TIMED_MODE_FREE_RUN_V1_1@.len() != TIMED_MODE_BATCHED_FREE_RUN_V1_2_B8@.len());
}

/// A cohort run never owes more pairs than a single-stream run of the same pool.
pub proof fn cohort_floor_is_at_most_the_pool_floor(pool: PoolExpectation, batch_size: u32)
    requires
        pool.pool_size >= 1,
    ensures
        pool.pair_floor(ResultsShape::Cohort { batch_size }) <= pool.pair_floor(
            ResultsShape::SingleStream,
        ),
{
    assert(pool.pool_size * pool.min_per_prompt >= pool.min_per_prompt) by (nonlinear_arith)
        requires
            pool.pool_size >= 1,
            pool.min_per_prompt >= 0,
    ;
}

/// A preview is a prefix of the digest of at most the quoted length.
pub proof fn preview_is_a_short_prefix(digest: Seq<char>)
    ensures
        preview(digest).len() <= HARNESS_DIGEST_PREVIEW_LEN,
        has_prefix(digest, preview(digest)),
{
    assert(digest.subrange(0, preview(digest).len() as int) =~= preview(digest));
}

proof fn lemma_pairs_of_one_series(
    pairs: Seq<PairView>,
    from: int,
    i: int,
    serial: Seq<char>,
    candidate: Seq<char>,
)
    requires
        0 <= from <= i < pairs.len(),
        pair_refusal(pairs, from, serial, candidate) is None,
    ensures
        trimmed(pairs[i].serial_timed_mode@) == serial,
        trimmed(pairs[i].candidate_timed_mode@) == candidate,
    decreases i - from,
{
    if from < i {
        lemma_pairs_of_one_series(pairs, from + 1, i, serial, candidate);
    }
}

/// An accepted run is of one known series: its two legs, its label and the legs of each of its
/// pairs carry the same tag, and so does the series that was expected, if one was.
pub proof fn an_accepted_run_is_of_one_series(
    results: &ResultsView,
    expected_series: Option<Seq<char>>,
)
    requires
        series_refusal(results, expected_series) is None,
    ensures
        known_tag(serial_tag(results)),
        candidate_tag(results) == serial_tag(results),
        trimmed(results.timed_mode@) == serial_tag(results),
        results.timed_series.homogeneous,
        results.timed_series.legs_comparable,
        expected_series matches Some(e) ==> serial_tag(results) == e,
        forall|i: int|
            0 <= i < results.pairs@.len() ==> {
                &&& trimmed(#[trigger] results.pairs@[i].serial_timed_mode@) == serial_tag(results)
                &&& trimmed(results.pairs@[i].candidate_timed_mode@) == serial_tag(results)
            },
{
    assert forall|i: int| 0 <= i < results.pairs@.len() implies {
        &&& trimmed(#[trigger] results.pairs@[i].serial_timed_mode@) == serial_tag(results)
        &&& trimmed(results.pairs@[i].candidate_timed_mode@) == serial_tag(results)
    } by {
        lemma_pairs_of_one_series(
            results.pairs@,
            0,
            i,
            serial_tag(results),
            candidate_tag(results),
        );
    }
}

/// Legs of two different series are refused, however they are labelled.
pub proof fn a_cross_series_run_is_refused(
    results: &ResultsView,
    expected_series: Option<Seq<char>>,
)
    requires
        serial_tag(results) != candidate_tag(results),
    ensures
        series_refusal(results, expected_series) is Some,
{
}

/// A run whose candidate was rejected, or that missed its own pair minimum, is never merged.
pub proof fn a_rejected_run_is_never_merged(
    gates: &ScorePayload,
    results: &ResultsView,
    expected_track: Option<Seq<char>>,
    expected_series: Option<Seq<char>>,
    pool: PoolExpectation,
    seal_leg: &HarnessIdentity,
    figures: &OverlayFigures,
)
    requires
        !results.candidate_accepted || results.accepted_pair_count < results.min_pairs
            || !results.parity_all_ok,
    ensures
        merge_refusal(
            gates,
            results,
            expected_track,
            expected_series,
            pool,
            seal_leg,
            figures,
        ) is Some,
{
}

/// A harness that is not the one the gates were sealed under is never published, whatever the
/// shape of the run.
pub proof fn a_changed_harness_is_never_published(
    gates: &ScorePayload,
    results: &ResultsView,
    expected_track: Option<Seq<char>>,
    expected_series: Option<Seq<char>>,
    pool: PoolExpectation,
    seal_leg: &HarnessIdentity,
    figures: &OverlayFigures,
)
    requires
        gates.metrics.harness_hash@ != seal_leg.hash@,
    ensures
        merge_refusal(
            gates,
            results,
            expected_track,
            expected_series,
            pool,
            seal_leg,
            figures,
        ) is Some,
{
}

/// What is merged is of one run and of the expected track: both inputs name the same commit and
/// the same weights, and the track is named.
pub proof fn merged_inputs_are_of_one_run(
    gates: &ScorePayload,
    results: &ResultsView,
    expected_track: Option<Seq<char>>,
    expected_series: Option<Seq<char>>,
    pool: PoolExpectation,
    seal_leg: &HarnessIdentity,
    figures: &CompositeFigures,
)
    requires
        overlay_refusal(
            gates,
            results,
            expected_track,
            expected_series,
            pool,
            seal_leg,
            figures,
        ) is None,
    ensures
        gates.metrics.commit@ == results.commit@,
        results.commit@.len() > 0,
        gates.metrics.weights_hash@ == results.weights_hash@,
        results.weights_hash@.len() > 0,
        gates.metrics.harness_hash@ == seal_leg.hash@,
        trimmed(results.track_id@).len() > 0,
        expected_track matches Some(t) ==> trimmed(results.track_id@) == t,
{
}

/// An accepted run reached every pair minimum it owed, and its pair records are as many as it
/// says.
pub proof fn an_accepted_run_reached_its_floors(
    results: &ResultsView,
    expected_track: Option<Seq<char>>,
    expected_series: Option<Seq<char>>,
    pool: PoolExpectation,
    figures: &CompositeFigures,
)
    requires
        results_refusal(results, expected_track, expected_series, pool, figures) is None,
    ensures
        shape_of(results) is Some,
        results.accepted_pair_count >= pool.pair_floor(shape_of(results)->0),
        results.accepted_pair_count >= results.min_pairs,
        results.accepted_pair_count >= 1,
        results.pairs@.len() == results.accepted_pair_count,
        positive(results.aggregate.baseline_serial_seconds_per_token_mean.bits),
        positive(results.aggregate.candidate_mtp_seconds_per_token_mean.bits),
        finite(results.aggregate.raw_decode_speedup_median.bits),
        results.prompt_count == pool.pool_size,
{
}

/// The body of an accepted run is of its shape and of no other.
pub proof fn an_accepted_body_has_one_shape(
    results: &ResultsView,
    expected_track: Option<Seq<char>>,
    expected_series: Option<Seq<char>>,
    pool: PoolExpectation,
    figures: &CompositeFigures,
)
    requires
        results_refusal(results, expected_track, expected_series, pool, figures) is None,
    ensures
        shape_of(results)->0 is SingleStream <==> results.per_prompt@.len() > 0,
        shape_of(results)->0 is Cohort <==> results.per_cohort@.len() == 1,
        results.per_prompt@.len() == 0 || results.per_cohort@.len() == 0,
{
}

proof fn lemma_prompts_accepted(prompts: Seq<PerPromptView>, from: int, i: int, min: nat)
    requires
        0 <= from <= i < prompts.len(),
        prompts_refusal(prompts, from, min) is None,
    ensures
        prompt_refusal(prompts[i], i as nat, min) is None,
    decreases i - from,
{
    if from < i {
        lemma_prompts_accepted(prompts, from + 1, i, min);
    }
}

proof fn lemma_members_accepted(members: Seq<CohortMemberView>, from: int, i: int)
    requires
        0 <= from <= i < members.len(),
        members_refusal(members, from) is None,
    ensures
        member_refusal(members[i], i as nat) is None,
    decreases i - from,
{
    if from < i {
        lemma_members_accepted(members, from + 1, i);
    }
}

/// The pool of an accepted single-stream run is complete: it has the expected size, no prompt
/// occurs twice, and every record is well formed, in parity, above its pair minimum and above
/// zero in its quantities.
pub proof fn an_accepted_pool_is_complete(
    results: &ResultsView,
    expected_track: Option<Seq<char>>,
    expected_series: Option<Seq<char>>,
    pool: PoolExpectation,
    figures: &CompositeFigures,
)
    requires
        results_refusal(results, expected_track, expected_series, pool, figures) is None,
        shape_of(results) == Some(ResultsShape::SingleStream),
    ensures
        results.per_prompt@.len() == pool.pool_size,
        forall|i: int, j: int|
            0 <= i < j < results.per_prompt@.len()
                ==> (#[trigger] results.per_prompt@[i].prompt_sha256@)
                != #[trigger] results.per_prompt@[j].prompt_sha256@,
        forall|i: int|
            0 <= i < results.per_prompt@.len() ==> {
                let p = #[trigger] results.per_prompt@[i];
                &&& is_sha256_hex(p.prompt_sha256@)
                &&& p.parity_ok
                &&& p.accepted_pair_count >= pool.min_per_prompt
                &&& positive(p.serial_seconds_per_token_mean.bits)
                &&& positive(p.mtp_seconds_per_token_mean.bits)
                &&& positive(p.raw_ratio_of_means.bits)
                &&& positive(p.noop_reference_decode_speedup.bits)
            },
{
    let prompts = results.per_prompt@;
    let shas = prompt_shas(prompts);
    shas.lemma_no_dup_set_cardinality();
    assert(shas.len() == prompts.len());
    assert forall|i: int, j: int| 0 <= i < j < prompts.len() implies (#[trigger]
    prompts[i].prompt_sha256@) != #[trigger] prompts[j].prompt_sha256@ by {
        assert(shas[i] != shas[j]);
    }
    assert forall|i: int| 0 <= i < prompts.len() implies {
        let p = #[trigger] prompts[i];
        &&& is_sha256_hex(p.prompt_sha256@)
        &&& p.parity_ok
        &&& p.accepted_pair_count >= pool.min_per_prompt
        &&& positive(p.serial_seconds_per_token_mean.bits)
        &&& positive(p.mtp_seconds_per_token_mean.bits)
        &&& positive(p.raw_ratio_of_means.bits)
        &&& positive(p.noop_reference_decode_speedup.bits)
    } by {
        lemma_prompts_accepted(prompts, 0, i, pool.min_per_prompt as nat);
    }
}

/// The cohort of an accepted batched run is complete: its members are the pool, each in its slot
/// and none twice; its width is that of its series; every accepted pair is its own; and it carries
/// a coherent composite whose sealed floor verdict is the true one.
pub proof fn an_accepted_cohort_is_complete(
    results: &ResultsView,
    expected_track: Option<Seq<char>>,
    expected_series: Option<Seq<char>>,
    pool: PoolExpectation,
    figures: &CompositeFigures,
)
    requires
        results_refusal(results, expected_track, expected_series, pool, figures) is None,
        shape_of(results)->0 is Cohort,
    ensures
        ({
            let c = results.per_cohort@[0];
            let members = c.members@;
            &&& members.len() == pool.pool_size
            &&& c.batch_size == SCORED_BATCH_SIZE_B8
            &&& c.parity_ok
            &&& c.accepted_pair_count == results.accepted_pair_count
            &&& c.composite is Some
            &&& c.composite_absent_reason is None
            &&& positive(c.composite->0.composite_score.bits)
            &&& !ge(figures.relative_gap.bits, COMPOSITE_COHERENCE_REL_EPS_BITS)
            &&& c.composite->0.composite_speedup_floor_met == ge(
                c.composite->0.composite_score.bits,
                DECODE_SPEEDUP_FLOOR_BITS,
            )
            &&& forall|i: int, j: int|
                0 <= i < j < members.len() ==> (#[trigger] members[i].prompt_sha256@)
                    != #[trigger] members[j].prompt_sha256@
            &&& forall|i: int|
                0 <= i < members.len() ==> (#[trigger] members[i]).slot_index == i
                    && is_sha256_hex(members[i].prompt_sha256@)
        }),
{
    let c = results.per_cohort@[0];
    let members = c.members@;
    let shas = member_shas(members);
    shas.lemma_no_dup_set_cardinality();
    assert(shas.len() == members.len());
    assert(composite_refusal(&c, figures) is None);
    assert forall|i: int, j: int| 0 <= i < j < members.len() implies (#[trigger]
    members[i].prompt_sha256@) != #[trigger] members[j].prompt_sha256@ by {
        assert(shas[i] != shas[j]);
    }
    assert forall|i: int| 0 <= i < members.len() implies (#[trigger] members[i]).slot_index == i
        && is_sha256_hex(members[i].prompt_sha256@) by {
        lemma_members_accepted(members, 0, i);
    }
}

/// A figure that does not pass publishes nothing: the merged score is zero and failed, and the
/// outcome carries no score. A figure that passes is published as it is.
pub proof fn only_a_passing_figure_is_published(
    out: OverlayOutcome,
    gates: &ScorePayload,
    results: &ResultsView,
    shape: ResultsShape,
    cohort: Option<CohortSeal>,
    paired: PairedScore,
)
    requires
        merges(out, gates, results, shape, cohort, paired),
    ensures
        out.passed == out.merged.payload.passed,
        out.passed ==> gates.passed && paired.passed,
        !paired.passed ==> !out.passed && out.score is None && (
        out.merged.payload.score matches Some(z) && z.is_zero()),
        out.passed ==> out.score == paired.score && out.merged.payload.score == paired.score,
{
}

/// A merged score is never partial, never contradicts itself on the prefill floor, and keeps the
/// identities and the correctness surface of its gates.
pub proof fn a_merged_score_keeps_the_gates_surface(
    out: OverlayOutcome,
    gates: &ScorePayload,
    results: &ResultsView,
    figures: &OverlayFigures,
)
    requires
        merged_as(out, gates, results, figures),
    ensures
        !out.merged.payload.metrics.partial_result,
        out.merged.payload.metrics.passed_prefill_speedup_floor,
        out.merged.payload.metrics.commit == gates.metrics.commit,
        out.merged.payload.metrics.weights_hash == gates.metrics.weights_hash,
        out.merged.payload.metrics.golden_hash == gates.metrics.golden_hash,
        out.merged.payload.metrics.harness_hash == gates.metrics.harness_hash,
        out.merged.payload.metrics.case_count == gates.metrics.case_count,
        out.merged.payload.metrics.checked_steps == gates.metrics.checked_steps,
        out.merged.payload.metrics.passed_correctness == gates.metrics.passed_correctness,
        out.merged.payload.metrics.decode_speedup == figures.paired.raw_median,
        out.merged.cohort is Some <==> shape_of(results)->0 is Cohort,
{
}

/// `a` and `b` differ at most in the ratios that their prompt records are sealed with.
pub open spec fn differ_in_sealed_ratios(a: ResultsView, b: ResultsView) -> bool {
    &&& a == (ResultsView { per_prompt: a.per_prompt, ..b })
    &&& a.per_prompt@.len() == b.per_prompt@.len()
    &&& forall|i: int|
        0 <= i < a.per_prompt@.len() ==> #[trigger] a.per_prompt@[i] == (PerPromptView {
            raw_ratio_of_means: a.per_prompt@[i].raw_ratio_of_means,
            ..b.per_prompt@[i]
        })
}

/// Every ratio that the prompt records of a run are sealed with is above zero.
pub open spec fn sealed_ratios_are_positive(results: ResultsView) -> bool {
    forall|i: int|
        0 <= i < results.per_prompt@.len() ==> positive(
            (#[trigger] results.per_prompt@[i]).raw_ratio_of_means.bits,
        )
}

proof fn lemma_prompts_refused_alike(a: ResultsView, b: ResultsView, i: int, min: nat)
    requires
        differ_in_sealed_ratios(a, b),
        sealed_ratios_are_positive(a),
        sealed_ratios_are_positive(b),
        0 <= i <= a.per_prompt@.len(),
    ensures
        prompts_refusal(a.per_prompt@, i, min) == prompts_refusal(b.per_prompt@, i, min),
    decreases a.per_prompt@.len() - i,
{
    if i < a.per_prompt@.len() {
        assert(a.per_prompt@[i].prompt_sha256 == b.per_prompt@[i].prompt_sha256);
        assert(positive(b.per_prompt@[i].raw_ratio_of_means.bits));
        lemma_prompts_refused_alike(a, b, i + 1, min);
    }
}

/// The ratio that a prompt record is sealed with has no say in a merge, as long as it is one above
/// zero: two runs that differ only there are refused alike, give the same samples, and merge into
/// the same scores. What is scored is recomputed from the means.
pub proof fn sealed_ratios_have_no_say(
    gates: &ScorePayload,
    a: &ResultsView,
    b: &ResultsView,
    expected_track: Option<Seq<char>>,
    expected_series: Option<Seq<char>>,
    pool: PoolExpectation,
    seal_leg: &HarnessIdentity,
    figures: &OverlayFigures,
    shape: ResultsShape,
    out: OverlayOutcome,
)
    requires
        differ_in_sealed_ratios(*a, *b),
        sealed_ratios_are_positive(*a),
        sealed_ratios_are_positive(*b),
    ensures
        merge_refusal(
            gates,
            a,
            expected_track,
            expected_series,
            pool,
            seal_leg,
            figures,
        ) == merge_refusal(
            gates,
            b,
            expected_track,
            expected_series,
            pool,
            seal_leg,
            figures,
        ),
        agreement_of(a, shape) == agreement_of(b, shape),
        published_of(a, shape) == published_of(b, shape),
        pair_numbers(a.pairs@) == pair_numbers(b.pairs@),
        merged_as(out, gates, a, figures) == merged_as(out, gates, b, figures),
{
    let (p, q) = (a.per_prompt@, b.per_prompt@);
    lemma_prompts_refused_alike(*a, *b, 0, pool.min_per_prompt as nat);
    assert forall|i: int| 0 <= i < p.len() implies #[trigger] prompt_shas(p)[i] == prompt_shas(
        q,
    )[i] by {
        assert(p[i].prompt_sha256 == q[i].prompt_sha256);
    }
    assert(prompt_shas(p) =~= prompt_shas(q));
    assert forall|i: int| 0 <= i < p.len() implies #[trigger] prompt_samples(p)[i]
        == prompt_samples(q)[i] by {
        assert(p[i].serial_seconds_per_token_mean == q[i].serial_seconds_per_token_mean);
    }
    assert(prompt_samples(p) =~= prompt_samples(q));
}

/// What is recomputed of an accepted single-stream run: the sample of each prompt is the quotient
/// of its serial mean by its candidate mean, for the agreement with the sealed median and for what
/// is published alike. What is recomputed of a cohort run: its pair ratios for the agreement, and
/// its one composite for what is published.
pub proof fn a_plan_asks_for_the_ratios_of_the_run(plan: OverlayPlan, results: &ResultsView)
    requires
        shape_of(results) is Some,
        plans(plan, results, shape_of(results)->0),
    ensures
        plan.shape is SingleStream ==> {
            &&& plan.agreement@.len() == results.per_prompt@.len()
            &&& plan.published@.len() == results.per_prompt@.len()
            &&& plan.cohort is None
            &&& forall|i: int|
                0 <= i < results.per_prompt@.len() ==> {
                    let p = results.per_prompt@[i];
                    &&& #[trigger] plan.agreement@[i] matches Sample::Quotient {
                        numerator,
                        denominator,
                    } && numerator == p.serial_seconds_per_token_mean && denominator
                        == p.mtp_seconds_per_token_mean
                }
            &&& forall|i: int|
                0 <= i < results.per_prompt@.len() ==> {
                    let p = results.per_prompt@[i];
                    &&& #[trigger] plan.published@[i] matches Sample::Quotient {
                        numerator,
                        denominator,
                    } && numerator == p.serial_seconds_per_token_mean && denominator
                        == p.mtp_seconds_per_token_mean
                }
        },
        plan.shape is Cohort ==> {
            &&& plan.agreement@.len() == results.pairs@.len()
            &&& forall|i: int|
                0 <= i < results.pairs@.len() ==> (#[trigger] plan.agreement@[i]) == Sample::Given(
                    results.pairs@[i].raw_ratio,
                )
            &&& plan.published@.len() == 1
            &&& plan.published@[0] == Sample::Given(
                results.per_cohort@[0].composite->0.composite_score,
            )
        },
        plan.pair_ratios@.len() == results.pairs@.len(),
        forall|i: int|
            0 <= i < results.pairs@.len() ==> (#[trigger] plan.pair_ratios@[i])
                == results.pairs@[i].raw_ratio,
        plan.shape is SingleStream <==> candidate_tag(results) == "teacher_forced_v1"@
            || candidate_tag(results) == "free_run_v1_1"@,
{
    reveal_strlit("teacher_forced_v1");
    reveal_strlit("free_run_v1_1");
    reveal_strlit("batched_free_run_v1_2_b8");
    assert("batched_free_run_v1_2_b8"@.len() != "free_run_v1_1"@.len());
    assert("batched_free_run_v1_2_b8"@.len() != "teacher_forced_v1"@.len());
}

/// The samples of a run follow its means: two single-stream runs with a prompt whose means differ
/// give different samples for it.
pub proof fn different_means_give_different_samples(
    plan_a: OverlayPlan,
    plan_b: OverlayPlan,
    a: &ResultsView,
    b: &ResultsView,
    i: int,
)
    requires
        plans(plan_a, a, ResultsShape::SingleStream),
        plans(plan_b, b, ResultsShape::SingleStream),
        0 <= i < a.per_prompt@.len(),
        i < b.per_prompt@.len(),
        a.per_prompt@[i].mtp_seconds_per_token_mean != b.per_prompt@[i].mtp_seconds_per_token_mean
            || a.per_prompt@[i].serial_seconds_per_token_mean
            != b.per_prompt@[i].serial_seconds_per_token_mean,
    ensures
        plan_a.agreement@[i] != plan_b.agreement@[i],
        plan_a.published@[i] != plan_b.published@[i],
{
}

/// What a cohort score says of its cohort: its width, its digest, its members, its gains and its
/// composite are those of the record, and its exponents are a quarter and three quarters.
pub proof fn a_cohort_seal_is_the_record_of_its_cohort(
    cohort: Option<CohortSeal>,
    results: &ResultsView,
    batch_size: u32,
)
    requires
        plans_cohort(cohort, results, ResultsShape::Cohort { batch_size }),
    ensures
        cohort is Some,
        ({
            let s = cohort->0;
            let c = results.per_cohort@[0];
            &&& s.scored_batch_size == batch_size
            &&& s.cohort_sha256@ == c.cohort_sha256@
            &&& s.member_count == c.members@.len()
            &&& s.prefill_gain == c.composite->0.prefill_gain
            &&& s.decode_gain == c.composite->0.decode_gain
            &&& s.composite_score == c.composite->0.composite_score
            &&& s.composite_speedup_floor == c.composite->0.composite_speedup_floor
            &&& s.composite_speedup_floor_met == c.composite->0.composite_speedup_floor_met
            &&& s.prefill_gain_exponent.bits == 0x3fd0_0000_0000_0000
            &&& s.decode_gain_exponent.bits == 0x3fe8_0000_0000_0000
        }),
{
}

/// The whole of a merged score: the timing of the run over the gates. The decode times are those of
/// the aggregate, the speedup is the published figure, the floors and verdicts are those of the
/// track, the diagnostics of the gates are kept unless they are below zero, and every other figure
/// of the gates is kept as it is. It is labelled by its regime and its shape.
pub proof fn a_merged_score_is_the_timing_over_the_gates(
    out: OverlayOutcome,
    gates: &ScorePayload,
    results: &ResultsView,
    figures: &OverlayFigures,
)
    requires
        merged_as(out, gates, results, figures),
        shape_of(results) is Some,
    ensures
        ({
            let m = out.merged.payload.metrics;
            let g = gates.metrics;
            let median = figures.paired.raw_median;
            &&& m.decode_seconds_per_token == results.aggregate.candidate_mtp_seconds_per_token_mean
            &&& m.baseline_decode_seconds_per_token
                == results.aggregate.baseline_serial_seconds_per_token_mean
            &&& m.decode_speedup == median
            &&& m.decode_speedup_floor.bits == 0x3fec_cccc_cccc_cccd
            &&& m.passed_decode_speedup_floor <==> finite(median.bits) && ge(
                median.bits,
                0x3fec_cccc_cccc_cccd,
            )
            &&& m.prefill_speedup_floor.bits == 0
            &&& m.passed_prefill_speedup_floor
            &&& !m.partial_result
            &&& m.benchmark_wall_seconds == g.benchmark_wall_seconds
                || m.benchmark_wall_seconds.bits == 0 && !gt(g.benchmark_wall_seconds.bits, 0)
            &&& m.peak_ram_gb == g.peak_ram_gb || m.peak_ram_gb.bits == 0 && !gt(
                g.peak_ram_gb.bits,
                0,
            )
            &&& gt(g.benchmark_wall_seconds.bits, 0) ==> m.benchmark_wall_seconds
                == g.benchmark_wall_seconds
            &&& gt(g.peak_ram_gb.bits, 0) ==> m.peak_ram_gb == g.peak_ram_gb
            &&& !gt(g.benchmark_wall_seconds.bits, 0) ==> m.benchmark_wall_seconds.bits == 0
            &&& !gt(g.peak_ram_gb.bits, 0) ==> m.peak_ram_gb.bits == 0
            &&& m.prefill_seconds_per_token == g.prefill_seconds_per_token
            &&& m.baseline_prefill_seconds_per_token == g.baseline_prefill_seconds_per_token
            &&& m.prefill_speedup == g.prefill_speedup
            &&& m.passed_correctness == g.passed_correctness
            &&& m.harness_hash == g.harness_hash
            &&& m.commit == g.commit
            &&& m.weights_hash == g.weights_hash
            &&& m.golden_hash == g.golden_hash
            &&& m.runtime == g.runtime
            &&& m.case_count == g.case_count
            &&& m.checked_steps == g.checked_steps
            &&& m.first_failing_case == g.first_failing_case
            &&& m.first_failing_step == g.first_failing_step
            &&& m.expected_token == g.expected_token
            &&& m.actual_token == g.actual_token
        }),
        out.merged.scoring_mode@ == "qwen-native-mtp-paired-decode-only"@,
        shape_of(results)->0 is SingleStream ==> out.merged.aggregation@
            == "median_of_per_prompt_raw_ratio_of_means"@ && out.merged.cohort is None,
        shape_of(results)->0 is Cohort ==> out.merged.aggregation@
            == "shared_window_composite_prefill_decode_gain"@ && out.merged.cohort is Some,
        out.merged.decode_speedup_ceiling.bits == 0x4014_0000_0000_0000,
        out.merged.passed_decode_speedup_ceiling <==> finite(figures.paired.raw_median.bits) && ge(
            0x4014_0000_0000_0000,
            figures.paired.raw_median.bits,
        ),
        out.merged.timed_mode@ == results.timed_mode@,
        out.merged.timed_series.serial_leg_timed_mode@
            == results.timed_series.serial_leg_timed_mode@,
        out.merged.timed_series.candidate_leg_timed_mode@
            == results.timed_series.candidate_leg_timed_mode@,
        out.merged.timed_series.homogeneous == results.timed_series.homogeneous,
        out.merged.timed_series.legs_comparable == results.timed_series.legs_comparable,
        out.passed <==> gates.passed && figures.paired.passed,
        out.merged.payload.passed == out.passed,
        out.passed ==> out.score == figures.paired.score && out.merged.payload.score
            == figures.paired.score && out.merged.payload.metrics.error@ == gates.metrics.error@,
        !out.passed ==> out.score is None && (out.merged.payload.score matches Some(z) && z.bits
            == 0),
{
}

/// The error of a score that did not pass is the failure of its figure: a floor that was missed and
/// a ceiling that was exceeded say both figures, and any other failure speaks for itself.
pub proof fn a_failed_score_says_why(
    out: OverlayOutcome,
    gates: &ScorePayload,
    results: &ResultsView,
    figures: &OverlayFigures,
)
    requires
        merged_as(out, gates, results, figures),
        !out.passed,
    ensures
        figures.paired.failure is None ==> out.merged.payload.metrics.error@
            == gates.metrics.error@,
        figures.paired.failure matches Some(PairedDecodeFailure::Other { message })
            ==> out.merged.payload.metrics.error@ == message@,
        figures.paired.failure matches Some(PairedDecodeFailure::Floor { median, floor })
            ==> out.merged.payload.metrics.error@
            == "performance floor failed (qwen-mtp raw serial-relative median "@ + median.display@
            + " below floor "@ + floor.display@ + ")"@,
        figures.paired.failure matches Some(PairedDecodeFailure::Ceiling { median, ceiling })
            ==> out.merged.payload.metrics.error@
            == "qwen-mtp plausibility ceiling exceeded (median "@ + median.display@
            + " above ceiling "@ + ceiling.display@ + ")"@,
{
}

/// The sealed median is believed exactly when the one recomputed from the samples is a number and
/// less than the tolerance of one in ten million away from it.
pub proof fn a_sealed_median_is_believed_when_it_agrees(
    results: &ResultsView,
    median: Number,
    gap: Number,
)
    ensures
        median_refusal(results, median, gap) is None <==> finite(median.bits) && !ge(
            gap.bits,
            0x3e7a_d7f2_9abc_af48,
        ),
{
}

/// The two inputs are of one run exactly when both name a commit and weights, and the same ones.
pub proof fn inputs_are_of_one_run_when_they_name_the_same(
    gates: &ScorePayload,
    results: &ResultsView,
)
    ensures
        identity_refusal(gates, results) is None <==> {
            &&& gates.metrics.commit@.len() > 0
            &&& gates.metrics.commit@ == results.commit@
            &&& gates.metrics.weights_hash@.len() > 0
            &&& gates.metrics.weights_hash@ == results.weights_hash@
        },
{
}

/// A digest is sixty-four characters, each a decimal digit or one of the letters `a` to `f`.
pub proof fn a_digest_is_sixty_four_hex_characters(s: Seq<char>)
    ensures
        is_sha256_hex(s) <==> s.len() == 64 && forall|i: int|
            0 <= i < 64 ==> ('0' <= #[trigger] s[i] && s[i] <= '9') || ('a' <= s[i] && s[i]
                <= 'f'),
{
}

/// The pair floor: a single-stream run owes the minimum for each prompt of its pool, as far as that
/// can be counted, and a cohort run owes it once.
pub proof fn the_pair_floor_is_owed_per_unit(pool: PoolExpectation, batch_size: u32)
    ensures
        pool.pair_floor(ResultsShape::Cohort { batch_size }) == pool.min_per_prompt,
        pool.pool_size * pool.min_per_prompt <= usize::MAX ==> pool.pair_floor(
            ResultsShape::SingleStream,
        ) == pool.pool_size * pool.min_per_prompt,
        pool.pool_size * pool.min_per_prompt > usize::MAX ==> pool.pair_floor(
            ResultsShape::SingleStream,
        ) == usize::MAX,
{
}

proof fn lemma_pairs_of_the_legs(
    pairs: Seq<PairView>,
    from: int,
    serial: Seq<char>,
    candidate: Seq<char>,
)
    requires
        0 <= from <= pairs.len(),
    ensures
        pair_refusal(pairs, from, serial, candidate) is None <==> forall|i: int|
            from <= i < pairs.len() ==> trimmed(#[trigger] pairs[i].serial_timed_mode@) == serial
                && trimmed(pairs[i].candidate_timed_mode@) == candidate,
    decreases pairs.len() - from,
{
    if from < pairs.len() {
        lemma_pairs_of_the_legs(pairs, from + 1, serial, candidate);
        assert(pairs[from].serial_timed_mode@ == pairs[from].serial_timed_mode@);
    }
}

/// A run passes the series fence exactly when its two legs are of one of the three series, every
/// pair and the label of the run are of that series, the verdicts sealed about the legs say so, and
/// the expected series, where there is one, is that series.
pub proof fn the_fence_lets_one_series_through(
    results: &ResultsView,
    expected_series: Option<Seq<char>>,
)
    ensures
        series_refusal(results, expected_series) is None <==> {
            let tag = trimmed(results.timed_series.serial_leg_timed_mode@);
            &&& tag == "teacher_forced_v1"@ || tag == "free_run_v1_1"@ || tag
                == "batched_free_run_v1_2_b8"@
            &&& trimmed(results.timed_series.candidate_leg_timed_mode@) == tag
            &&& trimmed(results.timed_mode@) == tag
            &&& results.timed_series.homogeneous
            &&& results.timed_series.legs_comparable
            &&& expected_series matches Some(e) ==> e == tag
            &&& forall|i: int|
                0 <= i < results.pairs@.len() ==> trimmed(
                    #[trigger] results.pairs@[i].serial_timed_mode@,
                ) == tag && trimmed(results.pairs@[i].candidate_timed_mode@) == tag
        },
{
    lemma_pairs_of_the_legs(
        results.pairs@,
        0,
        serial_tag(results),
        candidate_tag(results),
    );
}

/// A cohort composite is accepted exactly when it is there without an excuse, its parts are above
/// zero, it was raised to a quarter and three quarters, what its gains give is above zero and less
/// than one in a billion away from it, its floor is the floor of the track, and its verdict is
/// whether it reaches that floor.
pub proof fn a_composite_is_accepted_when_it_is_coherent(
    c: &PerCohortView,
    figures: &CompositeFigures,
)
    ensures
        composite_refusal(c, figures) is None <==> {
            &&& c.composite_absent_reason is None
            &&& c.composite matches Some(m) && c.composite_scored_exponents matches Some(e) && {
                &&& positive(m.prefill_gain.bits)
                &&& positive(m.decode_gain.bits)
                &&& positive(m.composite_score.bits)
                &&& eq(e.prefill_gain_exponent.bits, 0x3fd0_0000_0000_0000)
                &&& eq(e.decode_gain_exponent.bits, 0x3fe8_0000_0000_0000)
                &&& positive(figures.recomputed.bits)
                &&& !ge(figures.relative_gap.bits, 0x3e11_2e0b_e826_d695)
                &&& eq(m.composite_speedup_floor.bits, 0x3fec_cccc_cccc_cccd)
                &&& m.composite_speedup_floor_met == ge(
                    m.composite_score.bits,
                    0x3fec_cccc_cccc_cccd,
                )
            }
        },
{
}

proof fn lemma_prompts_from(prompts: Seq<PerPromptView>, from: int, min: nat)
    requires
        0 <= from <= prompts.len(),
    ensures
        prompts_refusal(prompts, from, min) is None <==> forall|i: int|
            from <= i < prompts.len() ==> {
                let p = #[trigger] prompts[i];
                &&& is_sha256_hex(p.prompt_sha256@)
                &&& p.parity_ok
                &&& p.accepted_pair_count >= min
                &&& positive(p.serial_seconds_per_token_mean.bits)
                &&& positive(p.mtp_seconds_per_token_mean.bits)
                &&& positive(p.raw_ratio_of_means.bits)
                &&& positive(p.noop_reference_decode_speedup.bits)
            },
    decreases prompts.len() - from,
{
    if from < prompts.len() {
        lemma_prompts_from(prompts, from + 1, min);
        assert(prompts[from] == prompts[from]);
    }
}

proof fn lemma_members_from(members: Seq<CohortMemberView>, from: int)
    requires
        0 <= from <= members.len(),
    ensures
        members_refusal(members, from) is None <==> forall|i: int|
            from <= i < members.len() ==> (#[trigger] members[i]).slot_index == i && is_sha256_hex(
                members[i].prompt_sha256@,
            ),
    decreases members.len() - from,
{
    if from < members.len() {
        lemma_members_from(members, from + 1);
        assert(members[from] == members[from]);
    }
}

/// What every accepted run is, whatever its shape.
pub open spec fn is_sound_run(
    results: &ResultsView,
    expected_track: Option<Seq<char>>,
    expected_series: Option<Seq<char>>,
    pool: PoolExpectation,
) -> bool {
    &&& series_refusal(results, expected_series) is None
    &&& trimmed(results.track_id@).len() > 0
    &&& expected_track matches Some(t) ==> trimmed(results.track_id@) == t
    &&& results.parity_all_ok
    &&& results.candidate_accepted
    &&& results.accepted_pair_count >= 1
    &&& results.accepted_pair_count >= results.min_pairs
    &&& results.pairs@.len() == results.accepted_pair_count
    &&& positive(results.aggregate.baseline_serial_seconds_per_token_mean.bits)
    &&& positive(results.aggregate.candidate_mtp_seconds_per_token_mean.bits)
    &&& finite(results.aggregate.mtp_decode_speedup_median.bits)
    &&& finite(results.aggregate.mtp_decode_speedup_min.bits)
    &&& finite(results.aggregate.raw_decode_speedup_median.bits)
    &&& results.prompt_count == pool.pool_size
}

proof fn lemma_none_twice(shas: Seq<Seq<char>>)
    ensures
        shas.no_duplicates() <==> forall|i: int, j: int|
            0 <= i < j < shas.len() ==> #[trigger] shas[i] != #[trigger] shas[j],
{
}

/// A single-stream run is accepted exactly when it is sound, holds no cohort, owes no more pairs
/// than it has, and its records are the pool: as many as expected, no prompt twice, each well
/// formed, in parity, at its minimum and above zero in its quantities.
pub proof fn a_single_stream_run_is_accepted_when_its_pool_is_whole(
    results: &ResultsView,
    expected_track: Option<Seq<char>>,
    expected_series: Option<Seq<char>>,
    pool: PoolExpectation,
    figures: &CompositeFigures,
)
    requires
        shape_of(results) == Some(ResultsShape::SingleStream),
    ensures
        results_refusal(results, expected_track, expected_series, pool, figures) is None <==> {
            let prompts = results.per_prompt@;
            &&& is_sound_run(results, expected_track, expected_series, pool)
            &&& results.per_cohort@.len() == 0
            &&& prompts.len() > 0
            &&& prompts.len() == pool.pool_size
            &&& results.accepted_pair_count >= pool.pair_floor(ResultsShape::SingleStream)
            &&& forall|i: int, j: int|
                0 <= i < j < prompts.len() ==> (#[trigger] prompts[i]).prompt_sha256@ != (
                #[trigger] prompts[j]).prompt_sha256@
            &&& forall|i: int|
                0 <= i < prompts.len() ==> {
                    let p = #[trigger] prompts[i];
                    &&& is_sha256_hex(p.prompt_sha256@)
                    &&& p.parity_ok
                    &&& p.accepted_pair_count >= pool.min_per_prompt
                    &&& positive(p.serial_seconds_per_token_mean.bits)
                    &&& positive(p.mtp_seconds_per_token_mean.bits)
                    &&& positive(p.raw_ratio_of_means.bits)
                    &&& positive(p.noop_reference_decode_speedup.bits)
                }
        },
{
    let prompts = results.per_prompt@;
    let shas = prompt_shas(prompts);
    lemma_prompts_from(prompts, 0, pool.min_per_prompt as nat);
    lemma_none_twice(shas);
    assert(forall|i: int| 0 <= i < prompts.len() ==> shas[i] == (#[trigger] prompts[i]).prompt_sha256@);
    if shas.no_duplicates() {
        shas.unique_seq_to_set();
    }
    if shas.to_set().len() == shas.len() {
        shas.lemma_no_dup_set_cardinality();
    }
}

/// A cohort run is accepted exactly when it is sound, holds no prompt records and one cohort of the
/// scored width, owes no more pairs than it has, and its cohort is the pool: its members in their
/// slots and none twice, in parity, with every accepted pair of the run, above zero in its means,
/// and with a coherent composite.
pub proof fn a_cohort_run_is_accepted_when_its_cohort_is_whole(
    results: &ResultsView,
    expected_track: Option<Seq<char>>,
    expected_series: Option<Seq<char>>,
    pool: PoolExpectation,
    figures: &CompositeFigures,
)
    requires
        shape_of(results) matches Some(ResultsShape::Cohort { .. }),
    ensures
        results_refusal(results, expected_track, expected_series, pool, figures) is None <==> {
            &&& is_sound_run(results, expected_track, expected_series, pool)
            &&& results.per_prompt@.len() == 0
            &&& results.per_cohort@.len() == 1
            &&& results.accepted_pair_count >= pool.min_per_prompt
            &&& results.scored_batch_size matches Some(w) ==> w == 8
            &&& {
                let c = results.per_cohort@[0];
                &&& c.batch_size == 8
                &&& c.parity_ok
                &&& c.accepted_pair_count == results.accepted_pair_count
                &&& is_sha256_hex(c.cohort_sha256@)
                &&& positive(c.serial_seconds_per_token_mean.bits)
                &&& positive(c.candidate_seconds_per_token_mean.bits)
                &&& positive(c.raw_ratio_of_means.bits)
                &&& c.members@.len() == pool.pool_size
                &&& forall|i: int, j: int|
                    0 <= i < j < c.members@.len() ==> (#[trigger] c.members@[i]).prompt_sha256@
                        != (#[trigger] c.members@[j]).prompt_sha256@
                &&& forall|i: int|
                    0 <= i < c.members@.len() ==> (#[trigger] c.members@[i]).slot_index == i
                        && is_sha256_hex(c.members@[i].prompt_sha256@)
                &&& composite_refusal(&c, figures) is None
            }
        },
{
    let c = results.per_cohort@[0];
    let shas = member_shas(c.members@);
    lemma_members_from(c.members@, 0);
    lemma_none_twice(shas);
    assert(forall|i: int|
        0 <= i < c.members@.len() ==> shas[i] == (#[trigger] c.members@[i]).prompt_sha256@);
    if shas.no_duplicates() {
        shas.unique_seq_to_set();
    }
    if shas.to_set().len() == shas.len() {
        shas.lemma_no_dup_set_cardinality();
    }
}

/// The gates are looked at first, then the harness at the seal, then the run, then that both are of
/// one run, and the sealed median last: what an earlier look objects to is what a merge is refused
/// with, whatever a later one would say.
pub proof fn a_merge_is_refused_by_the_first_objection(
    gates: &ScorePayload,
    results: &ResultsView,
    expected_track: Option<Seq<char>>,
    expected_series: Option<Seq<char>>,
    pool: PoolExpectation,
    seal_leg: &HarnessIdentity,
    figures: &OverlayFigures,
)
    ensures
        ({
            let r = merge_refusal(
                gates,
                results,
                expected_track,
                expected_series,
                pool,
                seal_leg,
                figures,
            );
            let of_gates = gates_refusal(gates);
            let of_leg = cross_leg_refusal(gates, seal_leg);
            let of_run = results_refusal(
                results,
                expected_track,
                expected_series,
                pool,
                &figures.composite,
            );
            let of_both = identity_refusal(gates, results);
            let of_median = median_refusal(
                results,
                figures.recomputed_median,
                figures.median_gap,
            );
            &&& of_gates is Some ==> r == of_gates
            &&& of_gates is None && of_leg is Some ==> r == of_leg
            &&& of_gates is None && of_leg is None && of_run is Some ==> r == of_run
            &&& of_gates is None && of_leg is None && of_run is None && of_both is Some ==> r
                == of_both
            &&& of_gates is None && of_leg is None && of_run is None && of_both is None ==> r
                == of_median
        }),
        cross_leg_refusal(gates, seal_leg) is None <==> gates.metrics.harness_hash@
            == seal_leg.hash@,
{
}

} // verus!
