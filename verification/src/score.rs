//! The score payload: a verdict, an optional score and the metrics sealed beside them.
use crate::number::Number;
use vstd::prelude::*;

verus! {

/// The metrics of a run.
#[derive(Debug)]
pub struct ScoreMetrics {
    /// The payload is the gates half of a score and awaits its timing.
    pub partial_result: bool,
    pub passed_correctness: bool,
    pub error: String,
    pub harness_hash: String,
    pub commit: String,
    pub weights_hash: String,
    pub golden_hash: String,
    pub runtime: String,
    pub case_count: i64,
    pub checked_steps: i64,
    pub first_failing_case: Option<String>,
    pub first_failing_step: Option<i64>,
    pub expected_token: Option<i64>,
    pub actual_token: Option<i64>,
    pub decode_seconds_per_token: Number,
    pub prefill_seconds_per_token: Number,
    pub baseline_decode_seconds_per_token: Number,
    pub baseline_prefill_seconds_per_token: Number,
    pub decode_speedup: Number,
    pub prefill_speedup: Number,
    pub decode_speedup_floor: Number,
    pub prefill_speedup_floor: Number,
    pub passed_decode_speedup_floor: bool,
    pub passed_prefill_speedup_floor: bool,
    pub benchmark_wall_seconds: Number,
    pub peak_ram_gb: Number,
}

/// A sealed score: `score` is absent on every payload that did not earn one.
#[derive(Debug)]
pub struct ScorePayload {
    pub score: Option<Number>,
    pub passed: bool,
    pub metrics: ScoreMetrics,
}

/// Another copy of an optional text.
pub fn duplicate_text(t: &Option<String>) -> (r: Option<String>)
    ensures
        r == *t,
{
    match t {
        Some(s) => Some(s.clone()),
        None => None,
    }
}

impl ScoreMetrics {
    /// Another copy of the metrics.
    pub fn duplicate(&self) -> (r: ScoreMetrics)
        ensures
            r == *self,
    {
        ScoreMetrics {
            partial_result: self.partial_result,
            passed_correctness: self.passed_correctness,
            error: self.error.clone(),
            harness_hash: self.harness_hash.clone(),
            commit: self.commit.clone(),
            weights_hash: self.weights_hash.clone(),
            golden_hash: self.golden_hash.clone(),
            runtime: self.runtime.clone(),
            case_count: self.case_count,
            checked_steps: self.checked_steps,
            first_failing_case: duplicate_text(&self.first_failing_case),
            first_failing_step: self.first_failing_step,
            expected_token: self.expected_token,
            actual_token: self.actual_token,
            decode_seconds_per_token: self.decode_seconds_per_token.duplicate(),
            prefill_seconds_per_token: self.prefill_seconds_per_token.duplicate(),
            baseline_decode_seconds_per_token: self.baseline_decode_seconds_per_token.duplicate(),
            baseline_prefill_seconds_per_token: self.baseline_prefill_seconds_per_token
                .duplicate(),
            decode_speedup: self.decode_speedup.duplicate(),
            prefill_speedup: self.prefill_speedup.duplicate(),
            decode_speedup_floor: self.decode_speedup_floor.duplicate(),
            prefill_speedup_floor: self.prefill_speedup_floor.duplicate(),
            passed_decode_speedup_floor: self.passed_decode_speedup_floor,
            passed_prefill_speedup_floor: self.passed_prefill_speedup_floor,
            benchmark_wall_seconds: self.benchmark_wall_seconds.duplicate(),
            peak_ram_gb: self.peak_ram_gb.duplicate(),
        }
    }
}

} // verus!
