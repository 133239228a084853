//! The two inputs of the overlay: what it reads of a `results.json`, and the identity of the
//! harness that is resolved when a score is sealed.
use crate::number::Number;
use crate::text::{is_white, trim, trimmed, trimming_cuts_white_space_off_the_ends};
use vstd::prelude::*;

verus! {

/// The series whose legs are forced along a reference tape.
pub const TIMED_MODE_TEACHER_FORCED_V1: &'static str = "teacher_forced_v1";

/// The series whose legs decode freely, one stream at a time.
pub const TIMED_MODE_FREE_RUN_V1_1: &'static str = "free_run_v1_1";

/// The series whose legs decode freely, eight streams in one shared window.
pub const TIMED_MODE_BATCHED_FREE_RUN_V1_2_B8: &'static str = "batched_free_run_v1_2_b8";

/// The one cohort width that is scored.
pub const SCORED_BATCH_SIZE_B8: u32 = 8;

/// Which measurement shape a `results.json` carries. The two shapes seal different pool records.
#[derive(Debug, Clone, Copy, PartialEq, Eq, Structural)]
pub enum ResultsShape {
    /// One timed stream per pool prompt.
    SingleStream,
    /// One cohort of concurrent streams that share a single timed window.
    Cohort { batch_size: u32 },
}

/// The pool that a `results.json` is held to.
#[derive(Debug, Clone, Copy)]
pub struct PoolExpectation {
    pub pool_size: usize,
    /// The least number of accepted pairs per measured unit: per pool prompt on the single-stream
    /// shape, per cohort on the cohort shape.
    pub min_per_prompt: usize,
}

/// What the overlay reads of a `results.json`.
#[derive(Debug)]
pub struct ResultsView {
    pub track_id: String,
    /// The series of the run as a whole.
    pub timed_mode: String,
    /// The series of its legs.
    pub timed_series: TimedSeriesView,
    pub parity_all_ok: bool,
    pub accepted_pair_count: usize,
    /// The run reached its pair minimum and kept its candidate.
    pub candidate_accepted: bool,
    pub min_pairs: usize,
    pub per_prompt: Vec<PerPromptView>,
    pub prompt_count: usize,
    pub pairs: Vec<PairView>,
    pub aggregate: AggregateView,
    pub commit: String,
    pub weights_hash: String,
    pub per_cohort: Vec<PerCohortView>,
    pub scored_batch_size: Option<u32>,
}

/// One cohort's record.
#[derive(Debug)]
pub struct PerCohortView {
    pub cohort_sha256: String,
    /// The pool prompts in slot order.
    pub members: Vec<CohortMemberView>,
    pub batch_size: u32,
    pub parity_ok: bool,
    pub accepted_pair_count: usize,
    pub serial_seconds_per_token_mean: Number,
    pub candidate_seconds_per_token_mean: Number,
    pub raw_ratio_of_means: Number,
    pub composite_scored_exponents: Option<ScoredExponentsView>,
    /// The published score of a cohort run.
    pub composite: Option<CompositeView>,
    pub composite_absent_reason: Option<String>,
}

/// One pool prompt's slot in a cohort.
#[derive(Debug)]
pub struct CohortMemberView {
    pub slot_index: usize,
    pub prompt_sha256: String,
}

/// The exponents that a composite was raised to.
#[derive(Debug)]
pub struct ScoredExponentsView {
    pub prefill_gain_exponent: Number,
    pub decode_gain_exponent: Number,
}

/// A shared-window composite.
#[derive(Debug)]
pub struct CompositeView {
    pub prefill_gain: Number,
    pub decode_gain: Number,
    pub composite_score: Number,
    pub composite_speedup_floor: Number,
    pub composite_speedup_floor_met: bool,
}

/// The aggregate of a run.
#[derive(Debug)]
pub struct AggregateView {
    pub baseline_serial_seconds_per_token_mean: Number,
    pub candidate_mtp_seconds_per_token_mean: Number,
    /// A per-pair diagnostic, not the published figure.
    pub mtp_decode_speedup_median: Number,
    pub mtp_decode_speedup_min: Number,
    /// The sealed median, which is recomputed before anything is published.
    pub raw_decode_speedup_median: Number,
}

/// One pool prompt's record on the single-stream shape.
#[derive(Debug)]
pub struct PerPromptView {
    pub prompt_sha256: String,
    pub parity_ok: bool,
    pub accepted_pair_count: usize,
    pub serial_seconds_per_token_mean: Number,
    pub mtp_seconds_per_token_mean: Number,
    pub raw_ratio_of_means: Number,
    pub noop_reference_decode_speedup: Number,
}

/// One accepted pair.
#[derive(Debug)]
pub struct PairView {
    pub raw_ratio: Number,
    pub serial_timed_mode: String,
    pub candidate_timed_mode: String,
}

/// The series of the two legs of a run, with the verdicts sealed about them.
#[derive(Debug)]
pub struct TimedSeriesView {
    pub serial_leg_timed_mode: String,
    pub candidate_leg_timed_mode: String,
    pub homogeneous: bool,
    pub legs_comparable: bool,
}

/// The digest that identifies a harness workspace.
#[derive(Debug)]
pub struct HarnessIdentity {
    pub hash: String,
}

impl HarnessIdentity {
    /// The digest.
    pub fn as_str(&self) -> (r: &str)
        ensures
            r@ == self.hash@,
    {
        self.hash.as_str()
    }
}

/// What a check answers: nothing to object, or the refusal with its text.
pub open spec fn answers(r: Result<(), String>, refusal: Option<Seq<char>>) -> bool {
    match refusal {
        None => r is Ok,
        Some(m) => r matches Err(e) && e@ == m,
    }
}

/// What an optional setting asks for: its trimmed text, unless that is empty.
pub open spec fn wanted(setting: Option<&str>) -> Option<Seq<char>> {
    match setting {
        Some(s) => if trimmed(s@).len() > 0 {
            Some(trimmed(s@))
        } else {
            None
        },
        None => None,
    }
}

/// The trimmed text of a setting, unless that is empty.
pub fn want(setting: Option<&str>) -> (r: Option<String>)
    ensures
        match wanted(setting) {
            None => r is None,
            Some(t) => r matches Some(s) && s@ == t,
        },
{
    match setting {
        Some(s) => {
            let t = trim(s);
            if t.as_str().is_empty() {
                None
            } else {
                Some(t)
            }
        },
        None => None,
    }
}

/// A check passes exactly when there is nothing to refuse, and says the refusal otherwise.
pub proof fn a_check_says_its_refusal(r: Result<(), String>, refusal: Option<Seq<char>>)
    requires
        answers(r, refusal),
    ensures
        r is Ok <==> refusal is None,
        r matches Err(e) ==> refusal == Some(e@),
{
}

/// A setting asks for something exactly when it is there and more than white space, and it asks for
/// its trimmed text.
pub proof fn a_setting_asks_for_its_trimmed_text(setting: Option<&str>)
    ensures
        wanted(setting) is Some <==> setting is Some && exists|i: int|
            0 <= i < setting->0@.len() && !is_white(#[trigger] setting->0@[i]),
        wanted(setting) matches Some(t) ==> t == trimmed(setting->0@),
{
    if setting is Some {
        let s = setting->0@;
        trimming_cuts_white_space_off_the_ends(s);
        let (a, b) = choose|a: int, b: int|
            0 <= a <= b <= s.len() && trimmed(s) == #[trigger] s.subrange(a, b) && (forall|i: int|
                0 <= i < a || b <= i < s.len() ==> is_white(#[trigger] s[i]));
        if trimmed(s).len() > 0 {
            assert(trimmed(s)[0] == s[a]);
        }
    }
}

} // verus!
