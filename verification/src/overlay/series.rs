//! The series fence: the two legs of a run, its pairs and its labels must be of one known series.
use crate::overlay::refusals::{
    comparability_lie, cross_series, descriptor_mismatch, homogeneity_lie, pair_candidate_series,
    pair_serial_series, say_comparability_lie, say_cross_series, say_descriptor_mismatch,
    say_homogeneity_lie, say_pair_candidate_series, say_pair_serial_series,
    say_unexpected_series, say_unknown_series, say_unknown_shape, unexpected_series,
    unknown_series, unknown_shape,
};
use crate::overlay::view::{
    answers, want, wanted, PairView, PoolExpectation, ResultsShape, ResultsView,
    SCORED_BATCH_SIZE_B8, TIMED_MODE_BATCHED_FREE_RUN_V1_2_B8, TIMED_MODE_FREE_RUN_V1_1,
    TIMED_MODE_TEACHER_FORCED_V1,
};
use crate::text::{same_text, trim, trimmed};
use vstd::prelude::*;

verus! {

/// The shape that a series tag stands for, if the tag is known.
pub open spec fn shape_of_tag(tag: Seq<char>) -> Option<ResultsShape> {
    if tag == TIMED_MODE_BATCHED_FREE_RUN_V1_2_B8@ {
        Some(ResultsShape::Cohort { batch_size: SCORED_BATCH_SIZE_B8 })
    } else if tag == TIMED_MODE_TEACHER_FORCED_V1@ || tag == TIMED_MODE_FREE_RUN_V1_1@ {
        Some(ResultsShape::SingleStream)
    } else {
        None
    }
}

/// The tag of the serial leg.
pub open spec fn serial_tag(results: &ResultsView) -> Seq<char> {
    trimmed(results.timed_series.serial_leg_timed_mode@)
}

/// The tag of the candidate leg.
pub open spec fn candidate_tag(results: &ResultsView) -> Seq<char> {
    trimmed(results.timed_series.candidate_leg_timed_mode@)
}

/// The shape of a run, read off the tag of its candidate leg.
pub open spec fn shape_of(results: &ResultsView) -> Option<ResultsShape> {
    shape_of_tag(candidate_tag(results))
}

/// The refusal of a run whose shape cannot be told.
pub open spec fn shape_refusal(results: &ResultsView) -> Seq<char> {
    unknown_shape(
        candidate_tag(results),
        TIMED_MODE_TEACHER_FORCED_V1@,
        TIMED_MODE_FREE_RUN_V1_1@,
        TIMED_MODE_BATCHED_FREE_RUN_V1_2_B8@,
    )
}

/// The shape of a run, read off the tag of its candidate leg. A tag that is not known is refused:
/// no shape is a default.
pub fn results_shape(results: &ResultsView) -> (r: Result<ResultsShape, String>)
    ensures
        match shape_of(results) {
            Some(shape) => r == Ok::<ResultsShape, String>(shape),
            None => r matches Err(e) && e@ == shape_refusal(results),
        },
{
    let tag = trim(results.timed_series.candidate_leg_timed_mode.as_str());
    if same_text(tag.as_str(), TIMED_MODE_BATCHED_FREE_RUN_V1_2_B8) {
        Ok(ResultsShape::Cohort { batch_size: SCORED_BATCH_SIZE_B8 })
    } else if same_text(tag.as_str(), TIMED_MODE_TEACHER_FORCED_V1) || same_text(
        tag.as_str(),
        TIMED_MODE_FREE_RUN_V1_1,
    ) {
        Ok(ResultsShape::SingleStream)
    } else {
        Err(
            say_unknown_shape(
                tag.as_str(),
                TIMED_MODE_TEACHER_FORCED_V1,
                TIMED_MODE_FREE_RUN_V1_1,
                TIMED_MODE_BATCHED_FREE_RUN_V1_2_B8,
            ),
        )
    }
}

impl PoolExpectation {
    /// The least number of accepted pairs that a run of `shape` owes.
    pub open spec fn pair_floor(self, shape: ResultsShape) -> nat {
        match shape {
            ResultsShape::SingleStream => if self.pool_size * self.min_per_prompt > usize::MAX {
                usize::MAX as nat
            } else {
                (self.pool_size * self.min_per_prompt) as nat
            },
            ResultsShape::Cohort { .. } => self.min_per_prompt as nat,
        }
    }

    /// The least number of accepted pairs that a run of `shape` owes. Each pool prompt of a
    /// single-stream run is a unit of its own, so the run owes the product (capped at the largest
    /// count); a cohort run measures the whole pool in each pair, so it owes the minimum once.
    pub fn min_pairs_for(&self, shape: ResultsShape) -> (r: usize)
        ensures
            r == self.pair_floor(shape),
    {
        match shape {
            ResultsShape::SingleStream => match self.pool_size.checked_mul(self.min_per_prompt) {
                Some(n) => n,
                None => usize::MAX,
            },
            ResultsShape::Cohort { .. } => self.min_per_prompt,
        }
    }
}

/// A tag that the overlay can reason about.
pub open spec fn known_tag(tag: Seq<char>) -> bool {
    shape_of_tag(tag) is Some
}

fn is_known_tag(tag: &str) -> (r: bool)
    ensures
        r == known_tag(tag@),
{
    same_text(tag, TIMED_MODE_TEACHER_FORCED_V1) || same_text(tag, TIMED_MODE_FREE_RUN_V1_1)
        || same_text(tag, TIMED_MODE_BATCHED_FREE_RUN_V1_2_B8)
}

/// The refusal of the first pair from `i` on that is not of the series of the legs.
pub open spec fn pair_refusal(
    pairs: Seq<PairView>,
    i: int,
    serial: Seq<char>,
    candidate: Seq<char>,
) -> Option<Seq<char>>
    decreases pairs.len() - i,
{
    if i < 0 || i >= pairs.len() {
        None
    } else if trimmed(pairs[i].serial_timed_mode@) != serial {
        Some(pair_serial_series(i as nat, pairs[i].serial_timed_mode@, serial))
    } else if trimmed(pairs[i].candidate_timed_mode@) != candidate {
        Some(pair_candidate_series(i as nat, pairs[i].candidate_timed_mode@, candidate))
    } else {
        pair_refusal(pairs, i + 1, serial, candidate)
    }
}

/// The refusal of a leg whose tag is not known.
pub open spec fn leg_refusal(leg: Seq<char>, tag: Seq<char>) -> Seq<char> {
    unknown_series(
        leg,
        tag,
        TIMED_MODE_TEACHER_FORCED_V1@,
        TIMED_MODE_FREE_RUN_V1_1@,
        TIMED_MODE_BATCHED_FREE_RUN_V1_2_B8@,
    )
}

/// What the fence objects to in the labels of a run, once its tags are known and its pairs agree
/// with them. Two legs are comparable exactly when their tags are the same.
pub open spec fn label_refusal(results: &ResultsView, expected: Option<Seq<char>>) -> Option<
    Seq<char>,
> {
    let serial = serial_tag(results);
    let candidate = candidate_tag(results);
    let comparable = serial == candidate;
    let series = results.timed_series;
    if series.legs_comparable != comparable {
        Some(comparability_lie(series.legs_comparable, serial, candidate, comparable))
    } else if series.homogeneous != comparable {
        Some(homogeneity_lie(series.homogeneous, serial, candidate))
    } else if !comparable {
        Some(cross_series(serial, candidate))
    } else if trimmed(results.timed_mode@) != serial {
        Some(descriptor_mismatch(results.timed_mode@, serial))
    } else {
        match expected {
            Some(e) => if trimmed(results.timed_mode@) != e {
                Some(unexpected_series(results.timed_mode@, e))
            } else {
                None
            },
            None => None,
        }
    }
}

/// What the fence objects to in a run.
pub open spec fn series_refusal(results: &ResultsView, expected: Option<Seq<char>>) -> Option<
    Seq<char>,
> {
    let serial = serial_tag(results);
    let candidate = candidate_tag(results);
    if !known_tag(serial) {
        Some(leg_refusal("serial"@, serial))
    } else if !known_tag(candidate) {
        Some(leg_refusal("candidate"@, candidate))
    } else if pair_refusal(results.pairs@, 0, serial, candidate) is Some {
        pair_refusal(results.pairs@, 0, serial, candidate)
    } else {
        label_refusal(results, expected)
    }
}

fn check_pairs(pairs: &Vec<PairView>, serial: &str, candidate: &str) -> (r: Result<(), String>)
    ensures
        answers(r, pair_refusal(pairs@, 0, serial@, candidate@)),
{
    let mut i: usize = 0;
    while i < pairs.len()
        invariant
            i <= pairs.len(),
            pair_refusal(pairs@, 0, serial@, candidate@) == pair_refusal(
                pairs@,
                i as int,
                serial@,
                candidate@,
            ),
        decreases pairs.len() - i,
    {
        let p = &pairs[i];
        if !same_text(trim(p.serial_timed_mode.as_str()).as_str(), serial) {
            return Err(say_pair_serial_series(i, p.serial_timed_mode.as_str(), serial));
        }
        if !same_text(trim(p.candidate_timed_mode.as_str()).as_str(), candidate) {
            return Err(say_pair_candidate_series(i, p.candidate_timed_mode.as_str(), candidate));
        }
        i = i + 1;
    }
    Ok(())
}

/// The series fence. A run is refused when a leg is of an unknown series, when a pair is not of
/// the series of the legs, when a verdict sealed about the legs is not the one their tags give,
/// when the legs are of two series, when the label of the run is not the tag of its legs, and,
/// where a series is expected, when the run is of another one.
pub fn validate_series(results: &ResultsView, expected_series: Option<&str>) -> (r: Result<
    (),
    String,
>)
    ensures
        answers(r, series_refusal(results, wanted(expected_series))),
{
    let serial = trim(results.timed_series.serial_leg_timed_mode.as_str());
    let candidate = trim(results.timed_series.candidate_leg_timed_mode.as_str());
    if !is_known_tag(serial.as_str()) {
        return Err(
            say_unknown_series(
                "serial",
                serial.as_str(),
                TIMED_MODE_TEACHER_FORCED_V1,
                TIMED_MODE_FREE_RUN_V1_1,
                TIMED_MODE_BATCHED_FREE_RUN_V1_2_B8,
            ),
        );
    }
    if !is_known_tag(candidate.as_str()) {
        return Err(
            say_unknown_series(
                "candidate",
                candidate.as_str(),
                TIMED_MODE_TEACHER_FORCED_V1,
                TIMED_MODE_FREE_RUN_V1_1,
                TIMED_MODE_BATCHED_FREE_RUN_V1_2_B8,
            ),
        );
    }
    match check_pairs(&results.pairs, serial.as_str(), candidate.as_str()) {
        Err(e) => return Err(e),
        Ok(()) => {},
    }
    let comparable = same_text(serial.as_str(), candidate.as_str());
    let series = &results.timed_series;
    if series.legs_comparable != comparable {
        return Err(
            say_comparability_lie(
                series.legs_comparable,
                serial.as_str(),
                candidate.as_str(),
                comparable,
            ),
        );
    }
    if series.homogeneous != comparable {
        return Err(say_homogeneity_lie(series.homogeneous, serial.as_str(), candidate.as_str()));
    }
    if !comparable {
        return Err(say_cross_series(serial.as_str(), candidate.as_str()));
    }
    let mode = trim(results.timed_mode.as_str());
    if !same_text(mode.as_str(), serial.as_str()) {
        return Err(say_descriptor_mismatch(results.timed_mode.as_str(), serial.as_str()));
    }
    match want(expected_series) {
        Some(expected) => {
            if !same_text(mode.as_str(), expected.as_str()) {
                return Err(
                    say_unexpected_series(results.timed_mode.as_str(), expected.as_str()),
                );
            }
        },
        None => {},
    }
    Ok(())
}

} // verus!
