//! A paired run: the order of its checks, what each failure exits with, and its verdict.
use crate::measure_texts::{
    attestation_differs, baseline_digest_failed, budget_exceeded, calibration_missing_after,
    calibration_missing_before, calibration_other_series, calibration_other_track,
    calibration_unreadable, candidate_digest_failed, correctness_pin_failed, dflash_head_unset,
    golden_unloadable, golden_unloadable_at, golden_unreadable, golden_unrecognized,
    goldens_repeat, growth_exceeded, head_dir_missing, head_dir_unset, kinds_summary,
    manifest_unreadable, mode_not_admitted, prompt_pin_mismatch, read_failed,
    reference_pin_failed, say_attestation_differs, say_baseline_digest_failed,
    say_budget_exceeded, say_calibration_missing_after, say_calibration_missing_before,
    say_calibration_other_series, say_calibration_other_track, say_calibration_unreadable,
    say_candidate_digest_failed, say_correctness_pin_failed, say_dflash_head_unset,
    say_golden_unloadable, say_golden_unloadable_at, say_golden_unreadable,
    say_golden_unrecognized, say_goldens_repeat, say_growth_exceeded, say_head_dir_missing,
    say_head_dir_unset, say_kinds_summary, say_manifest_unreadable, say_mode_not_admitted,
    say_prompt_pin_mismatch, say_read_failed, say_reference_pin_failed, say_scoring_disabled,
    say_single_stream_notice, say_tape_unloadable, say_trusted_scope_notice,
    say_weights_digest_failed, scoring_disabled, single_stream_notice, tape_unloadable,
    trusted_scope_notice, weights_digest_failed,
};
use crate::number::{is_positive, positive, Number};
use crate::overlay::view::{want, wanted};
use crate::text::{same_text, trim};
use vstd::prelude::*;

verus! {

/// How a run fails: with an exit status and a reason.
#[derive(Debug)]
pub struct MeasureJobFailure {
    pub exit: u8,
    pub message: String,
}

impl MeasureJobFailure {
    /// A prerequisite of the run does not hold.
    pub fn die8(message: String) -> (r: MeasureJobFailure)
        ensures
            r.exit == 8,
            r.message == message,
    {
        MeasureJobFailure { exit: 8, message }
    }

    /// The calibration of the run is not usable.
    pub fn die6(message: String) -> (r: MeasureJobFailure)
        ensures
            r.exit == 6,
            r.message == message,
    {
        MeasureJobFailure { exit: 6, message }
    }
}

impl From<String> for MeasureJobFailure {
    fn from(message: String) -> (r: MeasureJobFailure) {
        MeasureJobFailure { exit: 1, message }
    }
}

impl vstd::std_specs::convert::FromSpecImpl<String> for MeasureJobFailure {
    open spec fn obeys_from_spec() -> bool {
        true
    }

    open spec fn from_spec(message: String) -> MeasureJobFailure {
        MeasureJobFailure { exit: 1, message }
    }
}

/// What a run came to.
#[derive(Debug, Clone, Copy, PartialEq, Eq, Structural)]
pub enum MeasureJobVerdict {
    Accepted,
    PreflightOk,
    RejectedDie5,
    CalibrationDrift,
}

/// The exit status of a verdict.
pub open spec fn verdict_status(verdict: MeasureJobVerdict) -> u8 {
    match verdict {
        MeasureJobVerdict::Accepted => 0,
        MeasureJobVerdict::PreflightOk => 0,
        MeasureJobVerdict::RejectedDie5 => 5,
        MeasureJobVerdict::CalibrationDrift => 6,
    }
}

/// The exit status of a verdict.
pub fn measure_job_exit_status(verdict: MeasureJobVerdict) -> (r: u8)
    ensures
        r == verdict_status(verdict),
{
    match verdict {
        MeasureJobVerdict::Accepted => 0,
        MeasureJobVerdict::PreflightOk => 0,
        MeasureJobVerdict::RejectedDie5 => 5,
        MeasureJobVerdict::CalibrationDrift => 6,
    }
}

/// The checks and the work of a paired run, in the order they are made.
#[derive(Debug, Clone, Copy, PartialEq, Eq, Structural)]
pub enum Check {
    ReadContract,
    ReferencePin,
    LoadGoldens,
    GoldenDigests,
    ReadPrompt,
    PromptPin,
    ParseContract,
    AllowedModes,
    GoldensPinned,
    PoolCoverage,
    EffectiveRegime,
    ScoredExponents,
    CohortMembership,
    CorrectnessPin,
    ReadCorrectnessGolden,
    Attestation,
    EngineWire,
    LoadedUtil,
    CandidateEngine,
    BaselineEngine,
    CandidateMetallib,
    BaselineMetallib,
    ReadManifest,
    TrustedScope,
    ByteBudget,
    Growth,
    Divergence,
    HeadDirs,
    WeightsDigest,
    CandidateDigest,
    BaselineDigest,
    DispatchRecord,
    SealCommit,
    TrackId,
    ReadCalibration,
    Calibration,
    RegimeCoherent,
    GatesOracle,
    PromptWindows,
    ScoringEnabled,
    DflashHead,
    SerialSandbox,
    CandidateSandbox,
    SpawnArgv,
    Measure,
}

/// What a run knows by the time it asks what comes next.
#[derive(Debug, Clone, Copy)]
pub struct MeasureContext {
    /// A prompt and its pinned digest are given.
    pub prompt_pinned: bool,
    /// The run measures a batched cohort.
    pub batched: bool,
    /// A correctness golden is given.
    pub correctness_golden: bool,
    /// The trusted reference holds a manifest.
    pub manifest: bool,
    /// A calibration is to be read.
    pub calibration_named: bool,
    pub preflight_only: bool,
    pub calibration_bootstrap: bool,
    /// A run without a calibration is refused.
    pub band_enforce: bool,
    /// A calibration was resolved.
    pub calibrated: bool,
    /// The head directories are named.
    pub heads: bool,
    /// No golden is given twice.
    pub goldens_distinct: bool,
    /// The track admits the mode of the candidate.
    pub mode_admitted: bool,
    /// The correctness golden is the pinned one.
    pub attested: bool,
    /// The run may be scored on its track.
    pub scoring_enabled: bool,
    /// The drafter that the candidate needs is named.
    pub dflash_head: bool,
}

/// What a run does next.
#[derive(Debug)]
pub enum MeasureStep {
    Do { check: Check },
    Stop { verdict: MeasureJobVerdict },
    Fail { failure: MeasureJobFailure },
    /// The run is measured: its results are sealed and judged.
    Judge,
}

/// A [`MeasureStep`] by its texts.
pub enum StepView {
    Do { check: Check },
    Stop { verdict: MeasureJobVerdict },
    Fail { exit: u8, message: Seq<char> },
    Judge,
}

impl View for MeasureStep {
    type V = StepView;

    open spec fn view(&self) -> StepView {
        match *self {
            MeasureStep::Do { check } => StepView::Do { check },
            MeasureStep::Stop { verdict } => StepView::Stop { verdict },
            MeasureStep::Fail { failure } => StepView::Fail {
                exit: failure.exit,
                message: failure.message@,
            },
            MeasureStep::Judge => StepView::Judge,
        }
    }
}

/// The place of a check in the order.
pub open spec fn rank(check: Check) -> nat {
    match check {
        Check::ReadContract => 0,
        Check::ReferencePin => 1,
        Check::LoadGoldens => 2,
        Check::GoldenDigests => 3,
        Check::ReadPrompt => 4,
        Check::PromptPin => 5,
        Check::ParseContract => 6,
        Check::AllowedModes => 7,
        Check::GoldensPinned => 8,
        Check::PoolCoverage => 9,
        Check::EffectiveRegime => 10,
        Check::ScoredExponents => 11,
        Check::CohortMembership => 12,
        Check::CorrectnessPin => 13,
        Check::ReadCorrectnessGolden => 14,
        Check::Attestation => 15,
        Check::EngineWire => 16,
        Check::LoadedUtil => 17,
        Check::CandidateEngine => 18,
        Check::BaselineEngine => 19,
        Check::CandidateMetallib => 20,
        Check::BaselineMetallib => 21,
        Check::ReadManifest => 22,
        Check::TrustedScope => 23,
        Check::ByteBudget => 24,
        Check::Growth => 25,
        Check::Divergence => 26,
        Check::HeadDirs => 27,
        Check::WeightsDigest => 28,
        Check::CandidateDigest => 29,
        Check::BaselineDigest => 30,
        Check::DispatchRecord => 31,
        Check::SealCommit => 32,
        Check::TrackId => 33,
        Check::ReadCalibration => 34,
        Check::Calibration => 35,
        Check::RegimeCoherent => 36,
        Check::GatesOracle => 37,
        Check::PromptWindows => 38,
        Check::ScoringEnabled => 39,
        Check::DflashHead => 40,
        Check::SerialSandbox => 41,
        Check::CandidateSandbox => 42,
        Check::SpawnArgv => 43,
        Check::Measure => 44,
    }
}

/// A check that a run makes under what it knows: most are made always.
pub open spec fn applies(check: Check, ctx: MeasureContext) -> bool {
    match check {
        Check::ReadPrompt | Check::PromptPin => ctx.prompt_pinned,
        Check::ScoredExponents | Check::CohortMembership => ctx.batched,
        Check::ReadCorrectnessGolden => ctx.correctness_golden,
        Check::ReadManifest | Check::TrustedScope | Check::ByteBudget | Check::Growth
        | Check::Divergence => ctx.manifest,
        Check::ReadCalibration | Check::Calibration => ctx.calibration_named,
        _ => true,
    }
}

/// What comes after a check that passed. A run fails where its goldens repeat, where the track does
/// not admit its mode, where its correctness golden is not the pinned one, and where it lacks the
/// drafter it needs. After the last check before the machine is used a run that was only to be
/// checked stops; from there on a run fails that its track does not let be scored, or that lacks a
/// calibration it needs, or the heads.
pub open spec fn following(check: Check, ctx: MeasureContext) -> StepView {
    match check {
        Check::ReadContract => StepView::Do { check: Check::ReferencePin },
        Check::ReferencePin => StepView::Do { check: Check::LoadGoldens },
        Check::LoadGoldens => StepView::Do { check: Check::GoldenDigests },
        Check::GoldenDigests => if !ctx.goldens_distinct {
            StepView::Fail { exit: 8, message: goldens_repeat() }
        } else if ctx.prompt_pinned {
            StepView::Do { check: Check::ReadPrompt }
        } else {
            StepView::Do { check: Check::ParseContract }
        },
        Check::ReadPrompt => StepView::Do { check: Check::PromptPin },
        Check::PromptPin => StepView::Do { check: Check::ParseContract },
        Check::ParseContract => StepView::Do { check: Check::AllowedModes },
        Check::AllowedModes => if ctx.mode_admitted {
            StepView::Do { check: Check::GoldensPinned }
        } else {
            StepView::Fail { exit: 8, message: mode_not_admitted() }
        },
        Check::GoldensPinned => StepView::Do { check: Check::PoolCoverage },
        Check::PoolCoverage => StepView::Do { check: Check::EffectiveRegime },
        Check::EffectiveRegime => if ctx.batched {
            StepView::Do { check: Check::ScoredExponents }
        } else {
            StepView::Do { check: Check::CorrectnessPin }
        },
        Check::ScoredExponents => StepView::Do { check: Check::CohortMembership },
        Check::CohortMembership => StepView::Do { check: Check::CorrectnessPin },
        Check::CorrectnessPin => if ctx.correctness_golden {
            StepView::Do { check: Check::ReadCorrectnessGolden }
        } else {
            StepView::Do { check: Check::Attestation }
        },
        Check::ReadCorrectnessGolden => StepView::Do { check: Check::Attestation },
        Check::Attestation => if ctx.attested {
            StepView::Do { check: Check::EngineWire }
        } else {
            StepView::Fail { exit: 8, message: attestation_differs() }
        },
        Check::EngineWire => StepView::Do { check: Check::LoadedUtil },
        Check::LoadedUtil => StepView::Do { check: Check::CandidateEngine },
        Check::CandidateEngine => StepView::Do { check: Check::BaselineEngine },
        Check::BaselineEngine => StepView::Do { check: Check::CandidateMetallib },
        Check::CandidateMetallib => StepView::Do { check: Check::BaselineMetallib },
        Check::BaselineMetallib => if ctx.manifest {
            StepView::Do { check: Check::ReadManifest }
        } else {
            StepView::Do { check: Check::HeadDirs }
        },
        Check::ReadManifest => StepView::Do { check: Check::TrustedScope },
        Check::TrustedScope => StepView::Do { check: Check::ByteBudget },
        Check::ByteBudget => StepView::Do { check: Check::Growth },
        Check::Growth => StepView::Do { check: Check::Divergence },
        Check::Divergence => StepView::Do { check: Check::HeadDirs },
        Check::HeadDirs => StepView::Do { check: Check::WeightsDigest },
        Check::WeightsDigest => StepView::Do { check: Check::CandidateDigest },
        Check::CandidateDigest => StepView::Do { check: Check::BaselineDigest },
        Check::BaselineDigest => StepView::Do { check: Check::DispatchRecord },
        Check::DispatchRecord => StepView::Do { check: Check::SealCommit },
        Check::SealCommit => StepView::Do { check: Check::TrackId },
        Check::TrackId => if ctx.calibration_named {
            StepView::Do { check: Check::ReadCalibration }
        } else {
            StepView::Do { check: Check::RegimeCoherent }
        },
        Check::ReadCalibration => StepView::Do { check: Check::Calibration },
        Check::Calibration => StepView::Do { check: Check::RegimeCoherent },
        Check::RegimeCoherent => StepView::Do { check: Check::GatesOracle },
        Check::GatesOracle => StepView::Do { check: Check::PromptWindows },
        Check::PromptWindows => if ctx.preflight_only {
            StepView::Stop { verdict: MeasureJobVerdict::PreflightOk }
        } else {
            StepView::Do { check: Check::ScoringEnabled }
        },
        Check::ScoringEnabled => if !ctx.scoring_enabled {
            StepView::Fail { exit: 8, message: scoring_disabled() }
        } else if ctx.band_enforce && !ctx.calibration_bootstrap && !ctx.calibrated {
            StepView::Fail { exit: 6, message: calibration_missing_before() }
        } else if !ctx.heads {
            StepView::Fail { exit: 8, message: head_dir_unset() }
        } else {
            StepView::Do { check: Check::DflashHead }
        },
        Check::DflashHead => if ctx.dflash_head {
            StepView::Do { check: Check::SerialSandbox }
        } else {
            StepView::Fail { exit: 8, message: dflash_head_unset() }
        },
        Check::SerialSandbox => StepView::Do { check: Check::CandidateSandbox },
        Check::CandidateSandbox => StepView::Do { check: Check::SpawnArgv },
        Check::SpawnArgv => StepView::Do { check: Check::Measure },
        Check::Measure => StepView::Judge,
    }
}

fn prerequisite(message: String) -> (r: MeasureStep)
    ensures
        r@ == (StepView::Fail { exit: 8, message: message@ }),
{
    MeasureStep::Fail { failure: MeasureJobFailure::die8(message) }
}

/// What comes after a check that passed.
pub fn next_step(check: Check, ctx: &MeasureContext) -> (r: MeasureStep)
    ensures
        r@ == following(check, *ctx),
{
    let next = match check {
        Check::ReadContract => Check::ReferencePin,
        Check::ReferencePin => Check::LoadGoldens,
        Check::LoadGoldens => Check::GoldenDigests,
        Check::GoldenDigests => if !ctx.goldens_distinct {
            return prerequisite(say_goldens_repeat());
        } else if ctx.prompt_pinned {
            Check::ReadPrompt
        } else {
            Check::ParseContract
        },
        Check::ReadPrompt => Check::PromptPin,
        Check::PromptPin => Check::ParseContract,
        Check::ParseContract => Check::AllowedModes,
        Check::AllowedModes => if ctx.mode_admitted {
            Check::GoldensPinned
        } else {
            return prerequisite(say_mode_not_admitted());
        },
        Check::GoldensPinned => Check::PoolCoverage,
        Check::PoolCoverage => Check::EffectiveRegime,
        Check::EffectiveRegime => if ctx.batched {
            Check::ScoredExponents
        } else {
            Check::CorrectnessPin
        },
        Check::ScoredExponents => Check::CohortMembership,
        Check::CohortMembership => Check::CorrectnessPin,
        Check::CorrectnessPin => if ctx.correctness_golden {
            Check::ReadCorrectnessGolden
        } else {
            Check::Attestation
        },
        Check::ReadCorrectnessGolden => Check::Attestation,
        Check::Attestation => if ctx.attested {
            Check::EngineWire
        } else {
            return prerequisite(say_attestation_differs());
        },
        Check::EngineWire => Check::LoadedUtil,
        Check::LoadedUtil => Check::CandidateEngine,
        Check::CandidateEngine => Check::BaselineEngine,
        Check::BaselineEngine => Check::CandidateMetallib,
        Check::CandidateMetallib => Check::BaselineMetallib,
        Check::BaselineMetallib => if ctx.manifest {
            Check::ReadManifest
        } else {
            Check::HeadDirs
        },
        Check::ReadManifest => Check::TrustedScope,
        Check::TrustedScope => Check::ByteBudget,
        Check::ByteBudget => Check::Growth,
        Check::Growth => Check::Divergence,
        Check::Divergence => Check::HeadDirs,
        Check::HeadDirs => Check::WeightsDigest,
        Check::WeightsDigest => Check::CandidateDigest,
        Check::CandidateDigest => Check::BaselineDigest,
        Check::BaselineDigest => Check::DispatchRecord,
        Check::DispatchRecord => Check::SealCommit,
        Check::SealCommit => Check::TrackId,
        Check::TrackId => if ctx.calibration_named {
            Check::ReadCalibration
        } else {
            Check::RegimeCoherent
        },
        Check::ReadCalibration => Check::Calibration,
        Check::Calibration => Check::RegimeCoherent,
        Check::RegimeCoherent => Check::GatesOracle,
        Check::GatesOracle => Check::PromptWindows,
        Check::PromptWindows => if ctx.preflight_only {
            return MeasureStep::Stop { verdict: MeasureJobVerdict::PreflightOk };
        } else {
            Check::ScoringEnabled
        },
        Check::ScoringEnabled => if !ctx.scoring_enabled {
            return prerequisite(say_scoring_disabled());
        } else if ctx.band_enforce && !ctx.calibration_bootstrap && !ctx.calibrated {
            return MeasureStep::Fail {
                failure: MeasureJobFailure::die6(say_calibration_missing_before()),
            };
        } else if !ctx.heads {
            return prerequisite(say_head_dir_unset());
        } else {
            Check::DflashHead
        },
        Check::DflashHead => if ctx.dflash_head {
            Check::SerialSandbox
        } else {
            return prerequisite(say_dflash_head_unset());
        },
        Check::SerialSandbox => Check::CandidateSandbox,
        Check::CandidateSandbox => Check::SpawnArgv,
        Check::SpawnArgv => Check::Measure,
        Check::Measure => return MeasureStep::Judge,
    };
    MeasureStep::Do { check: next }
}

/// The exit status of a check that failed: the calibration is its own class, what is read or
/// resolved on the box exits plainly, and everything else is a prerequisite.
pub open spec fn exit_of(check: Check) -> u8 {
    match check {
        Check::ReadCalibration | Check::Calibration => 6,
        Check::ReadContract | Check::ParseContract | Check::LoadedUtil | Check::CandidateEngine
        | Check::BaselineEngine | Check::WeightsDigest | Check::CandidateDigest
        | Check::BaselineDigest | Check::TrackId | Check::SerialSandbox
        | Check::CandidateSandbox | Check::Measure => 1,
        _ => 8,
    }
}

/// The text of a check that failed. `path` is the file or directory that the check is about.
pub open spec fn text_of_failure(check: Check, path: Seq<char>, cause: Seq<char>) -> Seq<char> {
    match check {
        Check::ReadContract => read_failed("--contract"@, path, cause),
        Check::ReferencePin => reference_pin_failed(cause),
        Check::ReadPrompt => read_failed("--prompt"@, path, cause),
        Check::CorrectnessPin => correctness_pin_failed(cause),
        Check::ReadCorrectnessGolden => read_failed("--correctness-golden"@, path, cause),
        Check::ReadManifest => manifest_unreadable(path, cause),
        Check::ByteBudget => budget_exceeded(cause),
        Check::Growth => growth_exceeded(cause),
        Check::WeightsDigest => weights_digest_failed(path, cause),
        Check::CandidateDigest => candidate_digest_failed(path, cause),
        Check::BaselineDigest => baseline_digest_failed(path, cause),
        Check::ReadCalibration => calibration_unreadable(path, cause),
        _ => cause,
    }
}

fn exit_status_of(check: Check) -> (r: u8)
    ensures
        r == exit_of(check),
{
    match check {
        Check::ReadCalibration | Check::Calibration => 6,
        Check::ReadContract | Check::ParseContract | Check::LoadedUtil | Check::CandidateEngine
        | Check::BaselineEngine | Check::WeightsDigest | Check::CandidateDigest
        | Check::BaselineDigest | Check::TrackId | Check::SerialSandbox
        | Check::CandidateSandbox | Check::Measure => 1,
        _ => 8,
    }
}

/// What a run fails with when one of its checks does.
pub fn check_failure(check: Check, path: &str, cause: String) -> (r: MeasureJobFailure)
    ensures
        r.exit == exit_of(check),
        r.message@ == text_of_failure(check, path@, cause@),
        r.exit == 6 <==> (check is ReadCalibration || check is Calibration),
        r.exit == 1 <==> (check is ReadContract || check is ParseContract || check is LoadedUtil
            || check is CandidateEngine || check is BaselineEngine || check is WeightsDigest
            || check is CandidateDigest || check is BaselineDigest || check is TrackId || check
            is SerialSandbox || check is CandidateSandbox || check is Measure),
        r.exit == 1 || r.exit == 6 || r.exit == 8,
{
    let message = match check {
        Check::ReadContract => say_read_failed("--contract", path, cause.as_str()),
        Check::ReferencePin => say_reference_pin_failed(cause.as_str()),
        Check::ReadPrompt => say_read_failed("--prompt", path, cause.as_str()),
        Check::CorrectnessPin => say_correctness_pin_failed(cause.as_str()),
        Check::ReadCorrectnessGolden => say_read_failed(
            "--correctness-golden",
            path,
            cause.as_str(),
        ),
        Check::ReadManifest => say_manifest_unreadable(path, cause.as_str()),
        Check::ByteBudget => say_budget_exceeded(cause.as_str()),
        Check::Growth => say_growth_exceeded(cause.as_str()),
        Check::WeightsDigest => say_weights_digest_failed(path, cause.as_str()),
        Check::CandidateDigest => say_candidate_digest_failed(path, cause.as_str()),
        Check::BaselineDigest => say_baseline_digest_failed(path, cause.as_str()),
        Check::ReadCalibration => say_calibration_unreadable(path, cause.as_str()),
        _ => cause,
    };
    MeasureJobFailure { exit: exit_status_of(check), message }
}

/// The order is one: what comes after a check comes later in it, so no check is made twice.
pub proof fn checks_are_made_in_order(check: Check, ctx: MeasureContext)
    ensures
        following(check, ctx) matches StepView::Do { check: next } ==> rank(next) > rank(check),
{
}

/// No check that applies is passed over: everything between a check and what comes after it is
/// something that this run does not make.
pub proof fn no_check_is_passed_over(check: Check, other: Check, ctx: MeasureContext)
    ensures
        following(check, ctx) matches StepView::Do { check: next } ==> (rank(check) < rank(other)
            < rank(next) ==> !applies(other, ctx)),
        following(check, ctx) matches StepView::Do { check: next } ==> applies(check, ctx)
            ==> applies(next, ctx),
{
}

/// The checks that a run makes from a given one on when each of them passes.
pub open spec fn path_from(check: Check, ctx: MeasureContext) -> Seq<Check>
    decreases 44 - rank(check),
{
    match following(check, ctx) {
        StepView::Do { check: next } => if rank(next) > rank(check) {
            seq![check] + path_from(next, ctx)
        } else {
            seq![check]
        },
        _ => seq![check],
    }
}

proof fn lemma_rank_names_the_check(a: Check, b: Check)
    requires
        rank(a) == rank(b),
    ensures
        a == b,
{
}

proof fn lemma_path_holds_every_check(check: Check, other: Check, ctx: MeasureContext)
    requires
        path_from(check, ctx).contains(Check::Measure),
        applies(other, ctx),
        rank(check) <= rank(other),
    ensures
        path_from(check, ctx).contains(other),
    decreases 44 - rank(check),
{
    let path = path_from(check, ctx);
    assert(path[0] == check);
    if rank(other) == rank(check) {
        lemma_rank_names_the_check(other, check);
    } else {
        match following(check, ctx) {
            StepView::Do { check: next } => {
                let rest = path_from(next, ctx);
                assert(path == seq![check] + rest);
                assert(rest.contains(Check::Measure)) by {
                    let i = choose|i: int| 0 <= i < path.len() && path[i] == Check::Measure;
                    assert(i > 0);
                    assert(rest[i - 1] == Check::Measure);
                }
                no_check_is_passed_over(check, other, ctx);
                lemma_path_holds_every_check(next, other, ctx);
                let j = choose|j: int| 0 <= j < rest.len() && rest[j] == other;
                assert(path[j + 1] == other);
            },
            _ => {
                let i = choose|i: int| 0 <= i < path.len() && path[i] == Check::Measure;
                assert(i == 0);
            },
        }
    }
}

/// A run that is measured has passed every check that applies to it.
pub proof fn a_measured_run_passed_every_check(other: Check, ctx: MeasureContext)
    requires
        path_from(Check::ReadContract, ctx).contains(Check::Measure),
        applies(other, ctx),
    ensures
        path_from(Check::ReadContract, ctx).contains(other),
{
    lemma_path_holds_every_check(Check::ReadContract, other, ctx);
}

/// A run that is only checked stops before the track is asked for its score, and a run that is to
/// be measured is always asked.
pub proof fn a_preflight_never_measures(check: Check, ctx: MeasureContext)
    requires
        ctx.preflight_only,
        rank(check) <= rank(Check::PromptWindows),
    ensures
        following(check, ctx) matches StepView::Do { check: next } ==> rank(next) <= rank(
            Check::PromptWindows,
        ),
        check == Check::PromptWindows ==> following(check, ctx) == (StepView::Stop {
            verdict: MeasureJobVerdict::PreflightOk,
        }),
{
}

proof fn lemma_path_stops(check: Check, stop: Check, ctx: MeasureContext)
    requires
        following(stop, ctx) is Fail || following(stop, ctx) is Stop,
        applies(stop, ctx),
        rank(check) <= rank(stop),
    ensures
        !path_from(check, ctx).contains(Check::Measure),
    decreases 44 - rank(check),
{
    let path = path_from(check, ctx);
    if rank(check) == rank(stop) {
        lemma_rank_names_the_check(check, stop);
        assert(path == seq![check]);
    } else {
        match following(check, ctx) {
            StepView::Do { check: next } => {
                checks_are_made_in_order(check, ctx);
                no_check_is_passed_over(check, stop, ctx);
                lemma_path_stops(next, stop, ctx);
                let rest = path_from(next, ctx);
                assert(path == seq![check] + rest);
                if path.contains(Check::Measure) {
                    let i = choose|i: int| 0 <= i < path.len() && path[i] == Check::Measure;
                    assert(i > 0);
                    assert(rest[i - 1] == Check::Measure);
                }
            },
            _ => {
                assert(path == seq![check]);
            },
        }
    }
}

/// A run that is measured keeps the rules of its track: it may be scored there, the track admits
/// its mode, no golden is given twice, its correctness golden is the pinned one, and the heads and
/// the drafter it needs are named.
pub proof fn a_measured_run_keeps_the_rules_of_its_track(ctx: MeasureContext)
    requires
        path_from(Check::ReadContract, ctx).contains(Check::Measure),
    ensures
        ctx.scoring_enabled,
        ctx.mode_admitted,
        ctx.goldens_distinct,
        ctx.attested,
        ctx.heads,
        ctx.dflash_head,
        !ctx.preflight_only,
        ctx.band_enforce ==> ctx.calibration_bootstrap || ctx.calibrated,
{
    let first = Check::ReadContract;
    if !ctx.goldens_distinct {
        lemma_path_stops(first, Check::GoldenDigests, ctx);
    }
    if !ctx.mode_admitted {
        lemma_path_stops(first, Check::AllowedModes, ctx);
    }
    if !ctx.attested {
        lemma_path_stops(first, Check::Attestation, ctx);
    }
    if !ctx.scoring_enabled || !ctx.heads || (ctx.band_enforce && !ctx.calibration_bootstrap
        && !ctx.calibrated) {
        lemma_path_stops(first, Check::ScoringEnabled, ctx);
    }
    if !ctx.dflash_head {
        lemma_path_stops(first, Check::DflashHead, ctx);
    }
    if ctx.preflight_only {
        lemma_path_stops(first, Check::PromptWindows, ctx);
    }
}

/// Nothing is measured without a calibration that has to be there, nor without the heads.
pub proof fn an_uncalibrated_run_is_never_measured(ctx: MeasureContext)
    requires
        !ctx.heads || (ctx.band_enforce && !ctx.calibration_bootstrap && !ctx.calibrated),
    ensures
        following(Check::ScoringEnabled, ctx) is Fail,
{
}

/// A prompt must hash to the digest it is pinned to.
pub fn check_prompt_pin(path: &str, actual: &str, pinned: &str) -> (r: Result<
    (),
    MeasureJobFailure,
>)
    ensures
        match r {
            Ok(()) => actual@ == pinned@,
            Err(f) => actual@ != pinned@ && f.exit == 8 && f.message@ == prompt_pin_mismatch(
                path@,
                actual@,
                pinned@,
            ),
        },
{
    if same_text(actual, pinned) {
        Ok(())
    } else {
        Err(MeasureJobFailure::die8(say_prompt_pin_mismatch(path, actual, pinned)))
    }
}

/// A head directory by the setting that names it.
#[derive(Debug)]
pub struct HeadDir {
    pub label: String,
    pub dir: String,
    pub is_dir: bool,
}

/// The first head directory from `i` on that is none.
pub open spec fn missing_head(dirs: Seq<HeadDir>, i: int) -> Option<Seq<char>>
    decreases dirs.len() - i,
{
    if i < 0 || i >= dirs.len() {
        None
    } else if !dirs[i].is_dir {
        Some(head_dir_missing(dirs[i].label@, dirs[i].dir@))
    } else {
        missing_head(dirs, i + 1)
    }
}

/// Every head directory that is named must be one.
pub fn check_head_dirs(dirs: &Vec<HeadDir>) -> (r: Result<(), MeasureJobFailure>)
    ensures
        match missing_head(dirs@, 0) {
            None => r is Ok,
            Some(m) => r matches Err(f) && f.exit == 8 && f.message@ == m,
        },
{
    let mut i: usize = 0;
    while i < dirs.len()
        invariant
            i <= dirs.len(),
            missing_head(dirs@, 0) == missing_head(dirs@, i as int),
        decreases dirs.len() - i,
    {
        let d = &dirs[i];
        if !d.is_dir {
            return Err(
                MeasureJobFailure::die8(say_head_dir_missing(d.label.as_str(), d.dir.as_str())),
            );
        }
        i = i + 1;
    }
    Ok(())
}

/// The calibration of a run.
#[derive(Debug)]
pub struct ResolvedCalibration {
    pub timed_mode: String,
    pub track_id: String,
    pub serial_mean: Number,
    pub band_high: Number,
}

/// What looking for a calibration came to.
#[derive(Debug)]
pub enum CalibrationOutcome {
    Unreadable { cause: String },
    Unparsable { cause: String },
    /// The series and the track of the file, and the band it gives for the target of the run.
    Parsed { timed_mode: String, track_id: String, band: Result<(Number, Number), String> },
}

/// The calibration file that a run reads: none when it is about to author one.
pub open spec fn calibration_path(bootstrap: bool, setting: Option<&str>) -> Option<Seq<char>> {
    if bootstrap {
        None
    } else {
        wanted(setting)
    }
}

/// The calibration file that a run reads.
pub fn calibration_to_read(bootstrap: bool, setting: Option<&str>) -> (r: Option<String>)
    ensures
        match calibration_path(bootstrap, setting) {
            None => r is None,
            Some(p) => r matches Some(s) && s@ == p,
        },
{
    if bootstrap {
        None
    } else {
        want(setting)
    }
}

/// What ends a run at its calibration: a file that cannot be read or parsed, that is of another
/// series or of another track, or that has no band for the target.
pub open spec fn calibration_refusal(
    path: Seq<char>,
    outcome: CalibrationOutcome,
    run_timed_mode: Seq<char>,
    run_track_id: Seq<char>,
) -> Option<Seq<char>> {
    match outcome {
        CalibrationOutcome::Unreadable { cause } => Some(calibration_unreadable(path, cause@)),
        CalibrationOutcome::Unparsable { cause } => Some(cause@),
        CalibrationOutcome::Parsed { timed_mode, track_id, band } => if timed_mode@
            != run_timed_mode {
            Some(calibration_other_series(timed_mode@, run_timed_mode))
        } else if track_id@ != run_track_id {
            Some(calibration_other_track(track_id@, run_track_id))
        } else {
            match band {
                Ok(_) => None,
                Err(cause) => Some(cause@),
            }
        },
    }
}

/// `r` is the calibration that `outcome` gives.
pub open spec fn gives_calibration(
    r: Result<Option<ResolvedCalibration>, MeasureJobFailure>,
    outcome: CalibrationOutcome,
) -> bool {
    &&& outcome matches CalibrationOutcome::Parsed { timed_mode, track_id, band: Ok(band) }
    &&& r matches Ok(Some(c))
    &&& c == (ResolvedCalibration {
        timed_mode,
        track_id,
        serial_mean: band.0,
        band_high: band.1,
    })
}

/// The calibration of a run. A run that authors one reads none, a run without a setting has none,
/// and a file that is refused ends the run. The series is looked at first, then the track, and only
/// then the band.
pub fn resolve_calibration_env(
    bootstrap: bool,
    setting: Option<&str>,
    outcome: CalibrationOutcome,
    run_timed_mode: &str,
    run_track_id: &str,
) -> (r: Result<Option<ResolvedCalibration>, MeasureJobFailure>)
    ensures
        match calibration_path(bootstrap, setting) {
            None => r == Ok::<Option<ResolvedCalibration>, MeasureJobFailure>(None),
            Some(path) => match calibration_refusal(
                path,
                outcome,
                run_timed_mode@,
                run_track_id@,
            ) {
                Some(m) => r matches Err(f) && f.exit == 6 && f.message@ == m,
                None => gives_calibration(r, outcome),
            },
        },
{
    let path = match calibration_to_read(bootstrap, setting) {
        None => return Ok(None),
        Some(path) => path,
    };
    match outcome {
        CalibrationOutcome::Unreadable { cause } => Err(
            check_failure(Check::ReadCalibration, path.as_str(), cause),
        ),
        CalibrationOutcome::Unparsable { cause } => Err(MeasureJobFailure::die6(cause)),
        CalibrationOutcome::Parsed { timed_mode, track_id, band } => {
            if !same_text(timed_mode.as_str(), run_timed_mode) {
                return Err(
                    MeasureJobFailure::die6(
                        say_calibration_other_series(timed_mode.as_str(), run_timed_mode),
                    ),
                );
            }
            if !same_text(track_id.as_str(), run_track_id) {
                return Err(
                    MeasureJobFailure::die6(
                        say_calibration_other_track(track_id.as_str(), run_track_id),
                    ),
                );
            }
            match band {
                Err(cause) => Err(MeasureJobFailure::die6(cause)),
                Ok((serial_mean, band_high)) => Ok(
                    Some(ResolvedCalibration { timed_mode, track_id, serial_mean, band_high }),
                ),
            }
        },
    }
}

/// A run is only ever held to a calibration of its own series and of its own track.
pub proof fn a_calibration_is_of_the_series_and_the_track_of_the_run(
    path: Seq<char>,
    outcome: CalibrationOutcome,
    run_timed_mode: Seq<char>,
    run_track_id: Seq<char>,
    r: Result<Option<ResolvedCalibration>, MeasureJobFailure>,
)
    requires
        calibration_refusal(path, outcome, run_timed_mode, run_track_id) is None,
        gives_calibration(r, outcome),
    ensures
        r matches Ok(Some(c)) && c.timed_mode@ == run_timed_mode && c.track_id@ == run_track_id,
{
}

/// Whether the timeout of a leg is budgeted from the calibration: its mean is a time.
pub fn uses_calibrated_ceiling(calibration: &Option<ResolvedCalibration>) -> (r: bool)
    ensures
        r == (*calibration matches Some(c) && positive(c.serial_mean.bits)),
{
    match calibration {
        Some(c) => is_positive(c.serial_mean.bits),
        None => false,
    }
}

/// What is said of a pinned cohort width that a run does not measure.
pub fn width_notice(width: Option<u32>, batched: bool, mode: &str, modes: &str) -> (r: Option<
    String,
>)
    ensures
        match width {
            Some(w) => if batched {
                r is None
            } else {
                r matches Some(t) && t@ == single_stream_notice(w as nat, mode@, modes@)
            },
            None => r is None,
        },
{
    match width {
        Some(w) => if batched {
            None
        } else {
            Some(say_single_stream_notice(w as usize, mode, modes))
        },
        None => None,
    }
}

/// What is said of a trusted reference without a manifest.
pub fn scope_notice(manifest: bool, baseline: &str) -> (r: Option<String>)
    ensures
        if manifest {
            r is None
        } else {
            r matches Some(t) && t@ == trusted_scope_notice(baseline@)
        },
{
    if manifest {
        None
    } else {
        Some(say_trusted_scope_notice(baseline))
    }
}

/// The executable of a workspace when none is set.
pub const DEFAULT_MEASURE_WORKER_BIN: &'static str = "mlxfast-runtime-worker";

/// The executable that is looked for in a workspace: the setting as it is where it says something.
pub fn worker_bin(setting: Option<&str>) -> (r: String)
    ensures
        r@ == (if wanted(setting) is Some {
            setting->0@
        } else {
            DEFAULT_MEASURE_WORKER_BIN@
        }),
{
    match setting {
        Some(s) => {
            if !trim(s).as_str().is_empty() {
                return s.to_owned();
            }
        },
        None => {},
    }
    DEFAULT_MEASURE_WORKER_BIN.to_owned()
}

/// What a run that is to author a calibration does.
#[derive(Debug)]
pub enum BootstrapStep {
    Author { target: String, path: String },
    /// There is no target or no place to write to.
    Unnamed,
    /// The run is not one to calibrate on.
    Skipped,
}

/// Whether a run is one to calibrate on: it was accepted and in parity.
pub fn should_author_bootstrap(candidate_accepted: bool, parity_all_ok: bool) -> (r: bool)
    ensures
        r == (candidate_accepted && parity_all_ok),
{
    candidate_accepted && parity_all_ok
}

/// What a run that is to author a calibration does.
pub fn bootstrap_step(
    candidate_accepted: bool,
    parity_all_ok: bool,
    target_id: Option<&str>,
    setting: Option<&str>,
) -> (r: BootstrapStep)
    ensures
        if !(candidate_accepted && parity_all_ok) {
            r is Skipped
        } else {
            match (target_id, wanted(setting)) {
                (Some(t), Some(p)) => r matches BootstrapStep::Author { target, path } && target@
                    == t@ && path@ == p,
                _ => r is Unnamed,
            }
        },
{
    if !should_author_bootstrap(candidate_accepted, parity_all_ok) {
        return BootstrapStep::Skipped;
    }
    match (target_id, want(setting)) {
        (Some(t), Some(path)) => BootstrapStep::Author { target: t.to_owned(), path },
        _ => BootstrapStep::Unnamed,
    }
}

/// What a measured run came to. `in_band` says whether the serial mean is within the band of the
/// calibration. A candidate that was rejected is rejected whatever the band says.
pub open spec fn judged(
    bootstrap: bool,
    calibrated: bool,
    band_enforce: bool,
    candidate_accepted: bool,
    in_band: bool,
) -> Option<MeasureJobVerdict> {
    let verdict = if candidate_accepted {
        MeasureJobVerdict::Accepted
    } else {
        MeasureJobVerdict::RejectedDie5
    };
    if bootstrap {
        Some(verdict)
    } else if !calibrated {
        if band_enforce {
            None
        } else {
            Some(verdict)
        }
    } else if candidate_accepted && !in_band {
        Some(MeasureJobVerdict::CalibrationDrift)
    } else {
        Some(verdict)
    }
}

/// What a measured run came to.
pub fn judge(
    bootstrap: bool,
    calibrated: bool,
    band_enforce: bool,
    candidate_accepted: bool,
    in_band: bool,
) -> (r: Result<MeasureJobVerdict, MeasureJobFailure>)
    ensures
        match judged(bootstrap, calibrated, band_enforce, candidate_accepted, in_band) {
            Some(v) => r == Ok::<MeasureJobVerdict, MeasureJobFailure>(v),
            None => r matches Err(f) && f.exit == 6 && f.message@ == calibration_missing_after(),
        },
{
    let verdict = if candidate_accepted {
        MeasureJobVerdict::Accepted
    } else {
        MeasureJobVerdict::RejectedDie5
    };
    if bootstrap {
        return Ok(verdict);
    }
    if !calibrated {
        if band_enforce {
            return Err(MeasureJobFailure::die6(say_calibration_missing_after()));
        }
        return Ok(verdict);
    }
    if candidate_accepted && !in_band {
        return Ok(MeasureJobVerdict::CalibrationDrift);
    }
    Ok(verdict)
}

/// A run that measured exits with success exactly when its candidate was accepted and nothing is
/// wrong with its calibration.
pub proof fn only_an_accepted_run_succeeds(
    bootstrap: bool,
    calibrated: bool,
    band_enforce: bool,
    candidate_accepted: bool,
    in_band: bool,
)
    ensures
        ({
            let v = judged(bootstrap, calibrated, band_enforce, candidate_accepted, in_band);
            v is Some && verdict_status(v->0) == 0 <==> {
                &&& candidate_accepted
                &&& bootstrap || (if calibrated {
                    in_band
                } else {
                    !band_enforce
                })
            }
        }),
        !candidate_accepted && judged(
            bootstrap,
            calibrated,
            band_enforce,
            candidate_accepted,
            in_band,
        ) is Some ==> verdict_status(
            judged(bootstrap, calibrated, band_enforce, candidate_accepted, in_band)->0,
        ) == 5,
{
}

/// How many goldens up to `n` are of a kind.
pub open spec fn count_of_kind(kinds: Seq<String>, kind: Seq<char>, n: int) -> nat
    decreases n,
{
    if n <= 0 {
        0
    } else {
        count_of_kind(kinds, kind, n - 1) + (if kinds[n - 1]@ == kind {
            1nat
        } else {
            0nat
        })
    }
}

/// How many of the goldens are tapes and how many are not.
pub fn golden_kind_summary(kinds: &Vec<String>, tape: &str, golden: &str) -> (r: String)
    ensures
        r@ == kinds_summary(
            tape@,
            count_of_kind(kinds@, tape@, kinds@.len() as int),
            golden@,
            (kinds@.len() - count_of_kind(kinds@, tape@, kinds@.len() as int)) as nat,
        ),
{
    let mut tapes: usize = 0;
    let mut i: usize = 0;
    while i < kinds.len()
        invariant
            i <= kinds.len(),
            tapes <= i,
            tapes == count_of_kind(kinds@, tape@, i as int),
        decreases kinds.len() - i,
    {
        if same_text(kinds[i].as_str(), tape) {
            tapes = tapes + 1;
        }
        i = i + 1;
    }
    say_kinds_summary(tape, tapes, golden, kinds.len() - tapes)
}

/// What loading a timed prompt came to when it was not accepted.
#[derive(Debug)]
pub enum PromptRejection {
    Unreadable { cause: String },
    TapeRejected { cause: String },
    DocumentRejected { cause: String },
    /// Neither of the two shapes; the keys that each asks for.
    Unrecognized { tape: String, tape_keys: String, golden: String, golden_keys: String },
}

/// The text of a timed prompt that was not accepted.
pub open spec fn prompt_rejection_text(path: Seq<char>, rejection: PromptRejection) -> Seq<char> {
    match rejection {
        PromptRejection::Unreadable { cause } => golden_unreadable(path, cause@),
        PromptRejection::TapeRejected { cause } => tape_unloadable(path, cause@),
        PromptRejection::DocumentRejected { cause } => golden_unloadable_at(
            golden_unloadable(cause@),
            path,
        ),
        PromptRejection::Unrecognized { tape, tape_keys, golden, golden_keys } =>
        golden_unrecognized(path, tape@, tape_keys@, golden@, golden_keys@),
    }
}

/// The text of a timed prompt that was not accepted.
pub fn load_timed_prompt_refusal(path: &str, rejection: PromptRejection) -> (r: String)
    ensures
        r@ == prompt_rejection_text(path@, rejection),
{
    match rejection {
        PromptRejection::Unreadable { cause } => say_golden_unreadable(path, cause.as_str()),
        PromptRejection::TapeRejected { cause } => say_tape_unloadable(path, cause.as_str()),
        PromptRejection::DocumentRejected { cause } => {
            let m = say_golden_unloadable(cause.as_str());
            say_golden_unloadable_at(m.as_str(), path)
        },
        PromptRejection::Unrecognized { tape, tape_keys, golden, golden_keys } =>
        say_golden_unrecognized(
            path,
            tape.as_str(),
            tape_keys.as_str(),
            golden.as_str(),
            golden_keys.as_str(),
        ),
    }
}

} // verus!
