//! What the overlay asks of a `results.json`: its verdicts, its shape and its pool.
use crate::number::{finite, is_finite, is_positive, positive};
use crate::overlay::composite::{composite_refusal, validate_cohort_composite, CompositeFigures};
use crate::overlay::gates::{is_sha256_hex, is_well_formed_harness_hash};
use crate::overlay::refusals::{
    baseline_mean_invalid, below_min_pairs, candidate_mean_invalid, candidate_rejected,
    cohort_below_floor, cohort_floor_missed, cohort_mean_invalid, cohort_on_single_stream,
    cohort_pairs_mismatch, cohort_parity_failed, cohort_sha_malformed, cohort_width_mismatch,
    cohort_wrong_size, diagnostic_not_finite, member_sha_malformed, member_slot_mismatch,
    members_repeat, no_accepted_pairs, not_one_cohort, pairs_empty, pairs_miscounted,
    parity_failed, per_cohort_empty, per_prompt_empty, pool_floor_missed, pool_wrong_size,
    prompt_below_floor, prompt_count_mismatch, prompt_mean_invalid, prompt_noop_invalid,
    prompt_parity_failed, prompt_sha_malformed, prompts_on_cohort, prompts_repeat,
    say_baseline_mean_invalid, say_below_min_pairs, say_candidate_mean_invalid,
    say_candidate_rejected, say_cohort_below_floor, say_cohort_floor_missed,
    say_cohort_mean_invalid, say_cohort_on_single_stream, say_cohort_pairs_mismatch,
    say_cohort_parity_failed, say_cohort_sha_malformed, say_cohort_width_mismatch,
    say_cohort_wrong_size, say_diagnostic_not_finite, say_member_sha_malformed,
    say_member_slot_mismatch, say_members_repeat, say_no_accepted_pairs, say_not_one_cohort,
    say_pairs_empty, say_pairs_miscounted, say_parity_failed, say_per_cohort_empty,
    say_per_prompt_empty, say_pool_floor_missed, say_pool_wrong_size, say_prompt_below_floor,
    say_prompt_count_mismatch, say_prompt_mean_invalid, say_prompt_noop_invalid,
    say_prompt_parity_failed, say_prompt_sha_malformed, say_prompts_on_cohort,
    say_prompts_repeat, say_sealed_width_mismatch, say_track_empty, say_track_mismatch,
    sealed_width_mismatch, track_empty, track_mismatch,
};
use crate::overlay::series::{results_shape, series_refusal, shape_of, validate_series};
use crate::overlay::view::{
    answers, want, wanted, AggregateView, CohortMemberView, PerCohortView, PerPromptView,
    PoolExpectation, ResultsShape, ResultsView,
};
use crate::text::{same_text, trim, trimmed};
use vstd::prelude::*;

verus! {

/// The texts of a list of strings.
pub open spec fn texts(v: Seq<String>) -> Seq<Seq<char>> {
    v.map_values(|s: String| s@)
}

proof fn lemma_set_of_push(s: Seq<Seq<char>>, x: Seq<char>)
    ensures
        s.push(x).to_set() == s.to_set().insert(x),
{
    let grown = s.push(x);
    assert forall|y: Seq<char>| #[trigger]
        grown.to_set().contains(y) <==> s.to_set().insert(x).contains(y) by {
        if grown.contains(y) {
            let i = choose|i: int| 0 <= i < grown.len() && grown[i] == y;
            if i < s.len() {
                assert(s[i] == y);
            }
        }
        if s.contains(y) {
            let i = choose|i: int| 0 <= i < s.len() && s[i] == y;
            assert(grown[i] == y);
        }
        if y == x {
            assert(grown[s.len() as int] == y);
        }
    }
    assert(grown.to_set() =~= s.to_set().insert(x));
}

/// How many different texts a list holds.
pub fn distinct_count(v: &Vec<String>) -> (r: usize)
    ensures
        r == texts(v@).to_set().len(),
{
    let mut i: usize = 0;
    let mut count: usize = 0;
    let ghost all = texts(v@);
    assert(all.take(0).to_set() =~= Set::<Seq<char>>::empty());
    while i < v.len()
        invariant
            i <= v.len(),
            all == texts(v@),
            count <= i,
            all.take(i as int).to_set().finite(),
            count == all.take(i as int).to_set().len(),
        decreases v.len() - i,
    {
        let mut j: usize = 0;
        let mut seen = false;
        while j < i && !seen
            invariant
                j <= i,
                i < v.len(),
                all == texts(v@),
                seen ==> all.take(i as int).contains(all[i as int]),
                !seen ==> forall|k: int| 0 <= k < j ==> all[k] != all[i as int],
            decreases i - j,
        {
            if same_text(v[j].as_str(), v[i].as_str()) {
                assert(all.take(i as int)[j as int] == all[i as int]);
                seen = true;
            }
            j = j + 1;
        }
        proof {
            let before = all.take(i as int);
            let x = all[i as int];
            assert(all.take(i + 1) == before.push(x));
            lemma_set_of_push(before, x);
            if seen {
                assert(before.to_set().insert(x) =~= before.to_set());
            } else {
                assert(!before.contains(x)) by {
                    if before.contains(x) {
                        let k = choose|k: int| 0 <= k < before.len() && before[k] == x;
                        assert(all[k] == x);
                    }
                }
            }
        }
        if !seen {
            count = count + 1;
        }
        i = i + 1;
    }
    assert(all.take(v.len() as int) == all);
    count
}

/// The prompt identities of a single-stream pool.
pub open spec fn prompt_shas(prompts: Seq<PerPromptView>) -> Seq<Seq<char>> {
    prompts.map_values(|p: PerPromptView| p.prompt_sha256@)
}

/// The prompt identities of a cohort.
pub open spec fn member_shas(members: Seq<CohortMemberView>) -> Seq<Seq<char>> {
    members.map_values(|m: CohortMemberView| m.prompt_sha256@)
}

/// What the overlay objects to in one record of a single-stream pool.
pub open spec fn prompt_refusal(p: PerPromptView, i: nat, min_per_prompt: nat) -> Option<
    Seq<char>,
> {
    if !is_sha256_hex(p.prompt_sha256@) {
        Some(prompt_sha_malformed(i, p.prompt_sha256@))
    } else if !p.parity_ok {
        Some(prompt_parity_failed(i))
    } else if p.accepted_pair_count < min_per_prompt {
        Some(prompt_below_floor(i, p.accepted_pair_count as nat, min_per_prompt))
    } else if !positive(p.serial_seconds_per_token_mean.bits) {
        Some(
            prompt_mean_invalid(
                i,
                "serial_seconds_per_token_mean"@,
                p.serial_seconds_per_token_mean.display@,
            ),
        )
    } else if !positive(p.mtp_seconds_per_token_mean.bits) {
        Some(
            prompt_mean_invalid(
                i,
                "mtp_seconds_per_token_mean"@,
                p.mtp_seconds_per_token_mean.display@,
            ),
        )
    } else if !positive(p.raw_ratio_of_means.bits) {
        Some(prompt_mean_invalid(i, "raw_ratio_of_means"@, p.raw_ratio_of_means.display@))
    } else if !positive(p.noop_reference_decode_speedup.bits) {
        Some(prompt_noop_invalid(i, p.noop_reference_decode_speedup.display@))
    } else {
        None
    }
}

/// The refusal of the first record from `i` on that is objected to.
pub open spec fn prompts_refusal(prompts: Seq<PerPromptView>, i: int, min_per_prompt: nat) -> Option<
    Seq<char>,
>
    decreases prompts.len() - i,
{
    if i < 0 || i >= prompts.len() {
        None
    } else if prompt_refusal(prompts[i], i as nat, min_per_prompt) is Some {
        prompt_refusal(prompts[i], i as nat, min_per_prompt)
    } else {
        prompts_refusal(prompts, i + 1, min_per_prompt)
    }
}

/// What the overlay objects to in the records of a single-stream pool.
pub open spec fn single_stream_pool_refusal(results: &ResultsView, pool: PoolExpectation) -> Option<
    Seq<char>,
> {
    let prompts = results.per_prompt@;
    let unique = prompt_shas(prompts).to_set().len();
    if prompts_refusal(prompts, 0, pool.min_per_prompt as nat) is Some {
        prompts_refusal(prompts, 0, pool.min_per_prompt as nat)
    } else if unique != pool.pool_size {
        Some(prompts_repeat(unique, pool.pool_size as nat))
    } else {
        None
    }
}

fn check_prompt(p: &PerPromptView, i: usize, min_per_prompt: usize) -> (r: Result<(), String>)
    ensures
        answers(r, prompt_refusal(*p, i as nat, min_per_prompt as nat)),
{
    if !is_well_formed_harness_hash(p.prompt_sha256.as_str()) {
        return Err(say_prompt_sha_malformed(i, p.prompt_sha256.as_str()));
    }
    if !p.parity_ok {
        return Err(say_prompt_parity_failed(i));
    }
    if p.accepted_pair_count < min_per_prompt {
        return Err(say_prompt_below_floor(i, p.accepted_pair_count, min_per_prompt));
    }
    if !is_positive(p.serial_seconds_per_token_mean.bits) {
        return Err(
            say_prompt_mean_invalid(
                i,
                "serial_seconds_per_token_mean",
                p.serial_seconds_per_token_mean.display.as_str(),
            ),
        );
    }
    if !is_positive(p.mtp_seconds_per_token_mean.bits) {
        return Err(
            say_prompt_mean_invalid(
                i,
                "mtp_seconds_per_token_mean",
                p.mtp_seconds_per_token_mean.display.as_str(),
            ),
        );
    }
    if !is_positive(p.raw_ratio_of_means.bits) {
        return Err(
            say_prompt_mean_invalid(
                i,
                "raw_ratio_of_means",
                p.raw_ratio_of_means.display.as_str(),
            ),
        );
    }
    if !is_positive(p.noop_reference_decode_speedup.bits) {
        return Err(
            say_prompt_noop_invalid(i, p.noop_reference_decode_speedup.display.as_str()),
        );
    }
    Ok(())
}

fn check_prompts(prompts: &Vec<PerPromptView>, min_per_prompt: usize) -> (r: Result<(), String>)
    ensures
        answers(r, prompts_refusal(prompts@, 0, min_per_prompt as nat)),
{
    let mut i: usize = 0;
    while i < prompts.len()
        invariant
            i <= prompts.len(),
            prompts_refusal(prompts@, 0, min_per_prompt as nat) == prompts_refusal(
                prompts@,
                i as int,
                min_per_prompt as nat,
            ),
        decreases prompts.len() - i,
    {
        match check_prompt(&prompts[i], i, min_per_prompt) {
            Err(e) => return Err(e),
            Ok(()) => {},
        }
        i = i + 1;
    }
    Ok(())
}

fn prompt_identities(prompts: &Vec<PerPromptView>) -> (v: Vec<String>)
    ensures
        texts(v@) == prompt_shas(prompts@),
{
    let mut v: Vec<String> = Vec::new();
    let mut i: usize = 0;
    while i < prompts.len()
        invariant
            i <= prompts.len(),
            v@.len() == i,
            forall|k: int| 0 <= k < i ==> (#[trigger] v@[k])@ == prompts@[k].prompt_sha256@,
        decreases prompts.len() - i,
    {
        v.push(prompts[i].prompt_sha256.clone());
        i = i + 1;
    }
    assert(texts(v@) =~= prompt_shas(prompts@));
    v
}

/// Accepts the records of a single-stream pool: each is well formed, in parity, above its pair
/// minimum and above zero in its quantities, and no prompt occurs twice.
pub fn validate_single_stream_pool(results: &ResultsView, pool: &PoolExpectation) -> (r: Result<
    (),
    String,
>)
    ensures
        answers(r, single_stream_pool_refusal(results, *pool)),
{
    match check_prompts(&results.per_prompt, pool.min_per_prompt) {
        Err(e) => return Err(e),
        Ok(()) => {},
    }
    let shas = prompt_identities(&results.per_prompt);
    let unique: usize = distinct_count(&shas);
    if unique != pool.pool_size {
        return Err(say_prompts_repeat(unique, pool.pool_size));
    }
    Ok(())
}

/// What the overlay objects to in one member of a cohort.
pub open spec fn member_refusal(m: CohortMemberView, i: nat) -> Option<Seq<char>> {
    if !is_sha256_hex(m.prompt_sha256@) {
        Some(member_sha_malformed(i, m.prompt_sha256@))
    } else if m.slot_index != i {
        Some(member_slot_mismatch(i, m.slot_index as nat))
    } else {
        None
    }
}

/// The refusal of the first member from `i` on that is objected to.
pub open spec fn members_refusal(members: Seq<CohortMemberView>, i: int) -> Option<Seq<char>>
    decreases members.len() - i,
{
    if i < 0 || i >= members.len() {
        None
    } else if member_refusal(members[i], i as nat) is Some {
        member_refusal(members[i], i as nat)
    } else {
        members_refusal(members, i + 1)
    }
}

/// What the overlay objects to in the record of a cohort itself.
pub open spec fn cohort_record_refusal(
    c: PerCohortView,
    results: &ResultsView,
    pool: PoolExpectation,
    batch_size: u32,
) -> Option<Seq<char>> {
    if c.batch_size != batch_size {
        Some(cohort_width_mismatch(c.batch_size as nat, batch_size as nat))
    } else if results.scored_batch_size is Some && results.scored_batch_size->0 != batch_size {
        Some(sealed_width_mismatch(results.scored_batch_size->0 as nat, batch_size as nat))
    } else if !c.parity_ok {
        Some(cohort_parity_failed())
    } else if c.accepted_pair_count < pool.min_per_prompt {
        Some(cohort_below_floor(c.accepted_pair_count as nat, pool.min_per_prompt as nat))
    } else if c.accepted_pair_count != results.accepted_pair_count {
        Some(
            cohort_pairs_mismatch(
                c.accepted_pair_count as nat,
                results.accepted_pair_count as nat,
            ),
        )
    } else if !is_sha256_hex(c.cohort_sha256@) {
        Some(cohort_sha_malformed(c.cohort_sha256@))
    } else if !positive(c.serial_seconds_per_token_mean.bits) {
        Some(
            cohort_mean_invalid(
                "serial_seconds_per_token_mean"@,
                c.serial_seconds_per_token_mean.display@,
            ),
        )
    } else if !positive(c.candidate_seconds_per_token_mean.bits) {
        Some(
            cohort_mean_invalid(
                "candidate_seconds_per_token_mean"@,
                c.candidate_seconds_per_token_mean.display@,
            ),
        )
    } else if !positive(c.raw_ratio_of_means.bits) {
        Some(cohort_mean_invalid("raw_ratio_of_means"@, c.raw_ratio_of_means.display@))
    } else {
        None
    }
}

/// What the overlay objects to in a cohort.
pub open spec fn cohort_pool_refusal(
    results: &ResultsView,
    pool: PoolExpectation,
    batch_size: u32,
    figures: &CompositeFigures,
) -> Option<Seq<char>> {
    let c = results.per_cohort@[0];
    let unique = member_shas(c.members@).to_set().len();
    if cohort_record_refusal(c, results, pool, batch_size) is Some {
        cohort_record_refusal(c, results, pool, batch_size)
    } else if members_refusal(c.members@, 0) is Some {
        members_refusal(c.members@, 0)
    } else if unique != pool.pool_size {
        Some(members_repeat(unique, pool.pool_size as nat))
    } else {
        composite_refusal(&c, figures)
    }
}

fn check_cohort_record(
    c: &PerCohortView,
    results: &ResultsView,
    pool: &PoolExpectation,
    batch_size: u32,
) -> (r: Result<(), String>)
    ensures
        answers(r, cohort_record_refusal(*c, results, *pool, batch_size)),
{
    if c.batch_size != batch_size {
        return Err(say_cohort_width_mismatch(c.batch_size as usize, batch_size as usize));
    }
    match results.scored_batch_size {
        Some(width) => {
            if width != batch_size {
                return Err(say_sealed_width_mismatch(width as usize, batch_size as usize));
            }
        },
        None => {},
    }
    if !c.parity_ok {
        return Err(say_cohort_parity_failed());
    }
    if c.accepted_pair_count < pool.min_per_prompt {
        return Err(say_cohort_below_floor(c.accepted_pair_count, pool.min_per_prompt));
    }
    if c.accepted_pair_count != results.accepted_pair_count {
        return Err(say_cohort_pairs_mismatch(c.accepted_pair_count, results.accepted_pair_count));
    }
    if !is_well_formed_harness_hash(c.cohort_sha256.as_str()) {
        return Err(say_cohort_sha_malformed(c.cohort_sha256.as_str()));
    }
    if !is_positive(c.serial_seconds_per_token_mean.bits) {
        return Err(
            say_cohort_mean_invalid(
                "serial_seconds_per_token_mean",
                c.serial_seconds_per_token_mean.display.as_str(),
            ),
        );
    }
    if !is_positive(c.candidate_seconds_per_token_mean.bits) {
        return Err(
            say_cohort_mean_invalid(
                "candidate_seconds_per_token_mean",
                c.candidate_seconds_per_token_mean.display.as_str(),
            ),
        );
    }
    if !is_positive(c.raw_ratio_of_means.bits) {
        return Err(
            say_cohort_mean_invalid("raw_ratio_of_means", c.raw_ratio_of_means.display.as_str()),
        );
    }
    Ok(())
}

fn check_members(members: &Vec<CohortMemberView>) -> (r: Result<(), String>)
    ensures
        answers(r, members_refusal(members@, 0)),
{
    let mut i: usize = 0;
    while i < members.len()
        invariant
            i <= members.len(),
            members_refusal(members@, 0) == members_refusal(members@, i as int),
        decreases members.len() - i,
    {
        let m = &members[i];
        if !is_well_formed_harness_hash(m.prompt_sha256.as_str()) {
            return Err(say_member_sha_malformed(i, m.prompt_sha256.as_str()));
        }
        if m.slot_index != i {
            return Err(say_member_slot_mismatch(i, m.slot_index));
        }
        i = i + 1;
    }
    Ok(())
}

fn member_identities(members: &Vec<CohortMemberView>) -> (v: Vec<String>)
    ensures
        texts(v@) == member_shas(members@),
{
    let mut v: Vec<String> = Vec::new();
    let mut i: usize = 0;
    while i < members.len()
        invariant
            i <= members.len(),
            v@.len() == i,
            forall|k: int| 0 <= k < i ==> (#[trigger] v@[k])@ == members@[k].prompt_sha256@,
        decreases members.len() - i,
    {
        v.push(members[i].prompt_sha256.clone());
        i = i + 1;
    }
    assert(texts(v@) =~= member_shas(members@));
    v
}

/// Accepts the one cohort of a batched run: its width is that of the series, it is in parity, its
/// pairs are those of the run, its quantities are above zero, its members are well formed, in
/// their slots and all different, and its composite is coherent.
pub fn validate_cohort_pool(
    results: &ResultsView,
    pool: &PoolExpectation,
    batch_size: u32,
    figures: &CompositeFigures,
) -> (r: Result<(), String>)
    requires
        results.per_cohort@.len() > 0,
    ensures
        answers(r, cohort_pool_refusal(results, *pool, batch_size, figures)),
{
    let c = &results.per_cohort[0];
    match check_cohort_record(c, results, pool, batch_size) {
        Err(e) => return Err(e),
        Ok(()) => {},
    }
    match check_members(&c.members) {
        Err(e) => return Err(e),
        Ok(()) => {},
    }
    let shas = member_identities(&c.members);
    let unique: usize = distinct_count(&shas);
    if unique != pool.pool_size {
        return Err(say_members_repeat(unique, pool.pool_size));
    }
    validate_cohort_composite(c, figures)
}

/// What the overlay objects to in the verdicts of a run.
pub open spec fn verdict_refusal(results: &ResultsView, expected_track: Option<Seq<char>>) -> Option<
    Seq<char>,
> {
    let track = trimmed(results.track_id@);
    if track.len() == 0 {
        Some(track_empty())
    } else if expected_track is Some && track != expected_track->0 {
        Some(track_mismatch(track, expected_track->0))
    } else if !results.parity_all_ok {
        Some(parity_failed())
    } else if results.accepted_pair_count < 1 {
        Some(no_accepted_pairs(results.accepted_pair_count as nat))
    } else if !results.candidate_accepted {
        Some(candidate_rejected())
    } else if results.accepted_pair_count < results.min_pairs {
        Some(below_min_pairs(results.accepted_pair_count as nat, results.min_pairs as nat))
    } else {
        None
    }
}

/// What the overlay objects to in a body that its series contradicts.
pub open spec fn body_refusal(results: &ResultsView, shape: ResultsShape) -> Option<Seq<char>> {
    let prompts = results.per_prompt@.len();
    let cohorts = results.per_cohort@.len();
    match shape {
        ResultsShape::SingleStream => if prompts == 0 {
            Some(per_prompt_empty())
        } else if cohorts != 0 {
            Some(cohort_on_single_stream(cohorts, results.timed_mode@))
        } else {
            None
        },
        ResultsShape::Cohort { .. } => if cohorts == 0 {
            Some(per_cohort_empty(results.timed_mode@))
        } else if prompts != 0 {
            Some(prompts_on_cohort(prompts, results.timed_mode@))
        } else {
            None
        },
    }
}

/// What the overlay objects to in the pair records and the means of a run.
pub open spec fn pairs_refusal(results: &ResultsView) -> Option<Seq<char>> {
    let agg = results.aggregate;
    if results.pairs@.len() == 0 {
        Some(pairs_empty())
    } else if results.pairs@.len() != results.accepted_pair_count {
        Some(pairs_miscounted(results.pairs@.len(), results.accepted_pair_count as nat))
    } else if !positive(agg.baseline_serial_seconds_per_token_mean.bits) {
        Some(baseline_mean_invalid(agg.baseline_serial_seconds_per_token_mean.display@))
    } else if !positive(agg.candidate_mtp_seconds_per_token_mean.bits) {
        Some(candidate_mean_invalid(agg.candidate_mtp_seconds_per_token_mean.display@))
    } else {
        None
    }
}

/// What the overlay objects to in the diagnostics of the aggregate.
pub open spec fn diagnostic_refusal(agg: AggregateView) -> Option<Seq<char>> {
    if !finite(agg.mtp_decode_speedup_median.bits) {
        Some(
            diagnostic_not_finite(
                "mtp_decode_speedup_median"@,
                agg.mtp_decode_speedup_median.display@,
            ),
        )
    } else if !finite(agg.mtp_decode_speedup_min.bits) {
        Some(
            diagnostic_not_finite("mtp_decode_speedup_min"@, agg.mtp_decode_speedup_min.display@),
        )
    } else if !finite(agg.raw_decode_speedup_median.bits) {
        Some(
            diagnostic_not_finite(
                "raw_decode_speedup_median"@,
                agg.raw_decode_speedup_median.display@,
            ),
        )
    } else {
        None
    }
}

/// What the overlay objects to in the size of the pool of a run.
pub open spec fn size_refusal(
    results: &ResultsView,
    shape: ResultsShape,
    pool: PoolExpectation,
) -> Option<Seq<char>> {
    let size = pool.pool_size as nat;
    match shape {
        ResultsShape::SingleStream => if results.per_prompt@.len() != size {
            Some(pool_wrong_size(results.per_prompt@.len(), size))
        } else if results.prompt_count != size {
            Some(prompt_count_mismatch(results.prompt_count as nat, size))
        } else {
            None
        },
        ResultsShape::Cohort { .. } => if results.per_cohort@.len() != 1 {
            Some(not_one_cohort(results.per_cohort@.len()))
        } else if results.per_cohort@[0].members@.len() != size {
            Some(cohort_wrong_size(results.per_cohort@[0].members@.len(), size))
        } else if results.prompt_count != size {
            Some(prompt_count_mismatch(results.prompt_count as nat, size))
        } else {
            None
        },
    }
}

/// The refusal of a run below the pair floor of its pool.
pub open spec fn floor_refusal(
    results: &ResultsView,
    shape: ResultsShape,
    pool: PoolExpectation,
) -> Option<Seq<char>> {
    let count = results.accepted_pair_count as nat;
    let owed = pool.pair_floor(shape);
    if count >= owed {
        None
    } else {
        match shape {
            ResultsShape::SingleStream => Some(
                pool_floor_missed(
                    count,
                    owed,
                    pool.pool_size as nat,
                    pool.min_per_prompt as nat,
                ),
            ),
            ResultsShape::Cohort { batch_size } => Some(
                cohort_floor_missed(count, owed, batch_size as nat, pool.min_per_prompt as nat),
            ),
        }
    }
}

/// What the overlay objects to in the records of the pool of a run.
pub open spec fn records_refusal(
    results: &ResultsView,
    shape: ResultsShape,
    pool: PoolExpectation,
    figures: &CompositeFigures,
) -> Option<Seq<char>> {
    match shape {
        ResultsShape::SingleStream => single_stream_pool_refusal(results, pool),
        ResultsShape::Cohort { batch_size } => cohort_pool_refusal(
            results,
            pool,
            batch_size,
            figures,
        ),
    }
}

/// What the overlay objects to in a run of a given shape, once its verdicts hold.
pub open spec fn shaped_refusal(
    results: &ResultsView,
    shape: ResultsShape,
    pool: PoolExpectation,
    figures: &CompositeFigures,
) -> Option<Seq<char>> {
    if body_refusal(results, shape) is Some {
        body_refusal(results, shape)
    } else if pairs_refusal(results) is Some {
        pairs_refusal(results)
    } else if floor_refusal(results, shape, pool) is Some {
        floor_refusal(results, shape, pool)
    } else if diagnostic_refusal(results.aggregate) is Some {
        diagnostic_refusal(results.aggregate)
    } else if size_refusal(results, shape, pool) is Some {
        size_refusal(results, shape, pool)
    } else {
        records_refusal(results, shape, pool, figures)
    }
}

/// What the overlay objects to in a `results.json`. The fence leaves only runs whose shape is
/// known.
pub open spec fn results_refusal(
    results: &ResultsView,
    expected_track: Option<Seq<char>>,
    expected_series: Option<Seq<char>>,
    pool: PoolExpectation,
    figures: &CompositeFigures,
) -> Option<Seq<char>> {
    if series_refusal(results, expected_series) is Some {
        series_refusal(results, expected_series)
    } else if verdict_refusal(results, expected_track) is Some {
        verdict_refusal(results, expected_track)
    } else {
        shaped_refusal(results, shape_of(results)->0, pool, figures)
    }
}

fn check_verdicts(results: &ResultsView, expected_track: Option<&str>) -> (r: Result<(), String>)
    ensures
        answers(r, verdict_refusal(results, wanted(expected_track))),
{
    let track = trim(results.track_id.as_str());
    if track.as_str().is_empty() {
        return Err(say_track_empty());
    }
    match want(expected_track) {
        Some(expected) => {
            if !same_text(track.as_str(), expected.as_str()) {
                return Err(say_track_mismatch(track.as_str(), expected.as_str()));
            }
        },
        None => {},
    }
    if !results.parity_all_ok {
        return Err(say_parity_failed());
    }
    if results.accepted_pair_count < 1 {
        return Err(say_no_accepted_pairs(results.accepted_pair_count));
    }
    if !results.candidate_accepted {
        return Err(say_candidate_rejected());
    }
    if results.accepted_pair_count < results.min_pairs {
        return Err(say_below_min_pairs(results.accepted_pair_count, results.min_pairs));
    }
    Ok(())
}

fn check_body(results: &ResultsView, shape: ResultsShape) -> (r: Result<(), String>)
    ensures
        answers(r, body_refusal(results, shape)),
{
    let prompts: usize = results.per_prompt.len();
    let cohorts: usize = results.per_cohort.len();
    match shape {
        ResultsShape::SingleStream => {
            if prompts == 0 {
                return Err(say_per_prompt_empty());
            }
            if cohorts != 0 {
                return Err(say_cohort_on_single_stream(cohorts, results.timed_mode.as_str()));
            }
        },
        ResultsShape::Cohort { .. } => {
            if cohorts == 0 {
                return Err(say_per_cohort_empty(results.timed_mode.as_str()));
            }
            if prompts != 0 {
                return Err(say_prompts_on_cohort(prompts, results.timed_mode.as_str()));
            }
        },
    }
    Ok(())
}

fn check_pair_records(results: &ResultsView) -> (r: Result<(), String>)
    ensures
        answers(r, pairs_refusal(results)),
{
    let n: usize = results.pairs.len();
    if n == 0 {
        return Err(say_pairs_empty());
    }
    if n != results.accepted_pair_count {
        return Err(say_pairs_miscounted(n, results.accepted_pair_count));
    }
    let base = &results.aggregate.baseline_serial_seconds_per_token_mean;
    if !is_positive(base.bits) {
        return Err(say_baseline_mean_invalid(base.display.as_str()));
    }
    let cand = &results.aggregate.candidate_mtp_seconds_per_token_mean;
    if !is_positive(cand.bits) {
        return Err(say_candidate_mean_invalid(cand.display.as_str()));
    }
    Ok(())
}

fn check_diagnostics(agg: &AggregateView) -> (r: Result<(), String>)
    ensures
        answers(r, diagnostic_refusal(*agg)),
{
    if !is_finite(agg.mtp_decode_speedup_median.bits) {
        return Err(
            say_diagnostic_not_finite(
                "mtp_decode_speedup_median",
                agg.mtp_decode_speedup_median.display.as_str(),
            ),
        );
    }
    if !is_finite(agg.mtp_decode_speedup_min.bits) {
        return Err(
            say_diagnostic_not_finite(
                "mtp_decode_speedup_min",
                agg.mtp_decode_speedup_min.display.as_str(),
            ),
        );
    }
    if !is_finite(agg.raw_decode_speedup_median.bits) {
        return Err(
            say_diagnostic_not_finite(
                "raw_decode_speedup_median",
                agg.raw_decode_speedup_median.display.as_str(),
            ),
        );
    }
    Ok(())
}

fn check_floor(results: &ResultsView, shape: ResultsShape, pool: &PoolExpectation) -> (r: Result<
    (),
    String,
>)
    ensures
        answers(r, floor_refusal(results, shape, *pool)),
{
    let owed: usize = pool.min_pairs_for(shape);
    let count: usize = results.accepted_pair_count;
    if count >= owed {
        return Ok(());
    }
    match shape {
        ResultsShape::SingleStream => Err(
            say_pool_floor_missed(count, owed, pool.pool_size, pool.min_per_prompt),
        ),
        ResultsShape::Cohort { batch_size } => Err(
            say_cohort_floor_missed(count, owed, batch_size as usize, pool.min_per_prompt),
        ),
    }
}

fn check_size(results: &ResultsView, shape: ResultsShape, pool: &PoolExpectation) -> (r: Result<
    (),
    String,
>)
    ensures
        answers(r, size_refusal(results, shape, *pool)),
{
    match shape {
        ResultsShape::SingleStream => {
            let n: usize = results.per_prompt.len();
            if n != pool.pool_size {
                return Err(say_pool_wrong_size(n, pool.pool_size));
            }
        },
        ResultsShape::Cohort { .. } => {
            let cohorts: usize = results.per_cohort.len();
            if cohorts != 1 {
                return Err(say_not_one_cohort(cohorts));
            }
            let n: usize = results.per_cohort[0].members.len();
            if n != pool.pool_size {
                return Err(say_cohort_wrong_size(n, pool.pool_size));
            }
        },
    }
    if results.prompt_count != pool.pool_size {
        return Err(say_prompt_count_mismatch(results.prompt_count, pool.pool_size));
    }
    Ok(())
}

/// Accepts a `results.json`: one known series, the expected track, verdicts that let it be scored,
/// a body of the shape its series stands for, and a pool that is complete and well formed.
/// `figures` is what the gains of the first cohort recompute to; a single-stream run has none to
/// consult.
pub fn validate_results(
    results: &ResultsView,
    expected_track: Option<&str>,
    expected_series: Option<&str>,
    pool: &PoolExpectation,
    figures: &CompositeFigures,
) -> (r: Result<(), String>)
    ensures
        answers(
            r,
            results_refusal(
                results,
                wanted(expected_track),
                wanted(expected_series),
                *pool,
                figures,
            ),
        ),
{
    match validate_series(results, expected_series) {
        Err(e) => return Err(e),
        Ok(()) => {},
    }
    match check_verdicts(results, expected_track) {
        Err(e) => return Err(e),
        Ok(()) => {},
    }
    let shape = match results_shape(results) {
        Err(e) => return Err(e),
        Ok(shape) => shape,
    };
    match check_body(results, shape) {
        Err(e) => return Err(e),
        Ok(()) => {},
    }
    match check_pair_records(results) {
        Err(e) => return Err(e),
        Ok(()) => {},
    }
    match check_floor(results, shape, pool) {
        Err(e) => return Err(e),
        Ok(()) => {},
    }
    match check_diagnostics(&results.aggregate) {
        Err(e) => return Err(e),
        Ok(()) => {},
    }
    match check_size(results, shape, pool) {
        Err(e) => return Err(e),
        Ok(()) => {},
    }
    match shape {
        ResultsShape::SingleStream => validate_single_stream_pool(results, pool),
        ResultsShape::Cohort { batch_size } => validate_cohort_pool(
            results,
            pool,
            batch_size,
            figures,
        ),
    }
}

} // verus!
