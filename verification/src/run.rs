//! The runs of `iterate` and `overlay-timing`: the order of their work, what each failure says, and
//! what they report.
use crate::args::Mode;
use crate::iterate::iterate_exit_status;
use crate::measure_texts::{
    create_failed, gates_parse_failed, golden_reread_failed, golden_unloadable,
    golden_unreadable, handshake_failed, harness_unresolved, integrity_seal_unprintable,
    integrity_unreadable, read_failed, results_parse_failed, results_unprintable,
    run_weights_digest_failed, say_create_failed, say_gates_parse_failed,
    say_golden_reread_failed, say_golden_unloadable, say_golden_unreadable, say_handshake_failed,
    say_harness_unresolved, say_integrity_seal_unprintable, say_integrity_unreadable,
    say_read_failed, say_results_parse_failed, say_results_unprintable,
    say_run_weights_digest_failed, say_score_unprintable, say_spawn_failed, say_write_failed,
    say_wrote_score, score_unprintable, spawn_failed, write_failed, wrote_score,
};
use crate::number::Number;
use vstd::prelude::*;

verus! {

/// The work of an `iterate` run, in the order it is done.
#[derive(Debug, Clone, Copy, PartialEq, Eq, Structural)]
pub enum RunStage {
    /// The harness of the workspace is identified.
    Harness,
    /// The golden is read, held to its pin and loaded.
    Golden,
    /// The sandbox of an official run is resolved.
    Sandbox,
    /// The weights are digested.
    Weights,
    /// The engine is run and its payload made.
    Run,
    /// The score is written, with its digest.
    WriteScore,
    /// The golden is digested for the record.
    RereadGolden,
    /// The integrity record is written.
    WriteIntegrity,
}

/// What comes after a stage of an `iterate` run: only an official run is sandboxed.
pub open spec fn stage_after(stage: RunStage, mode: Mode) -> Option<RunStage> {
    match stage {
        RunStage::Harness => Some(RunStage::Golden),
        RunStage::Golden => if mode is Official {
            Some(RunStage::Sandbox)
        } else {
            Some(RunStage::Weights)
        },
        RunStage::Sandbox => Some(RunStage::Weights),
        RunStage::Weights => Some(RunStage::Run),
        RunStage::Run => Some(RunStage::WriteScore),
        RunStage::WriteScore => Some(RunStage::RereadGolden),
        RunStage::RereadGolden => Some(RunStage::WriteIntegrity),
        RunStage::WriteIntegrity => None,
    }
}

/// What comes after a stage of an `iterate` run.
pub fn next_stage(stage: RunStage, mode: Mode) -> (r: Option<RunStage>)
    ensures
        r == stage_after(stage, mode),
{
    match stage {
        RunStage::Harness => Some(RunStage::Golden),
        RunStage::Golden => if mode == Mode::Official {
            Some(RunStage::Sandbox)
        } else {
            Some(RunStage::Weights)
        },
        RunStage::Sandbox => Some(RunStage::Weights),
        RunStage::Weights => Some(RunStage::Run),
        RunStage::Run => Some(RunStage::WriteScore),
        RunStage::WriteScore => Some(RunStage::RereadGolden),
        RunStage::RereadGolden => Some(RunStage::WriteIntegrity),
        RunStage::WriteIntegrity => None,
    }
}

/// Why a run ends without a score.
#[derive(Debug)]
pub enum RunFault {
    HarnessUnresolved { cause: String },
    GoldenUnreadable { path: String, cause: String },
    GoldenUnloadable { cause: String },
    WeightsUndigested { path: String, cause: String },
    EngineSpawn { engine: String, cause: String },
    EngineHandshake { cause: String },
    ScoreUnprintable { cause: String },
    ResultsUnprintable { cause: String },
    IntegrityUnprintable { cause: String },
    GoldenReread { cause: String },
    GatesUnreadable { path: String, cause: String },
    GatesUnparsable { cause: String },
    ResultsUnreadable { path: String, cause: String },
    ResultsUnparsable { cause: String },
    IntegrityUnreadable { path: String, cause: String },
    Uncreatable { path: String, cause: String },
    Unwritable { path: String, cause: String },
    /// Refused in words of its own: a sandbox, a baseline setting, a merge.
    Refused { cause: String },
}

/// What a run that ends without a score says.
pub open spec fn fault_message(fault: RunFault) -> Seq<char> {
    match fault {
        RunFault::HarnessUnresolved { cause } => harness_unresolved(cause@),
        RunFault::GoldenUnreadable { path, cause } => golden_unreadable(path@, cause@),
        RunFault::GoldenUnloadable { cause } => golden_unloadable(cause@),
        RunFault::WeightsUndigested { path, cause } => run_weights_digest_failed(path@, cause@),
        RunFault::EngineSpawn { engine, cause } => spawn_failed(engine@, cause@),
        RunFault::EngineHandshake { cause } => handshake_failed(cause@),
        RunFault::ScoreUnprintable { cause } => score_unprintable(cause@),
        RunFault::ResultsUnprintable { cause } => results_unprintable(cause@),
        RunFault::IntegrityUnprintable { cause } => integrity_seal_unprintable(cause@),
        RunFault::GoldenReread { cause } => golden_reread_failed(cause@),
        RunFault::GatesUnreadable { path, cause } => read_failed("--gates-score"@, path@, cause@),
        RunFault::GatesUnparsable { cause } => gates_parse_failed(cause@),
        RunFault::ResultsUnreadable { path, cause } => read_failed("--results"@, path@, cause@),
        RunFault::ResultsUnparsable { cause } => results_parse_failed(cause@),
        RunFault::IntegrityUnreadable { path, cause } => integrity_unreadable(path@, cause@),
        RunFault::Uncreatable { path, cause } => create_failed(path@, cause@),
        RunFault::Unwritable { path, cause } => write_failed(path@, cause@),
        RunFault::Refused { cause } => cause@,
    }
}

/// What a run that ends without a score says.
pub fn fault_text(fault: RunFault) -> (r: String)
    ensures
        r@ == fault_message(fault),
{
    match fault {
        RunFault::HarnessUnresolved { cause } => say_harness_unresolved(cause.as_str()),
        RunFault::GoldenUnreadable { path, cause } => say_golden_unreadable(
            path.as_str(),
            cause.as_str(),
        ),
        RunFault::GoldenUnloadable { cause } => say_golden_unloadable(cause.as_str()),
        RunFault::WeightsUndigested { path, cause } => say_run_weights_digest_failed(
            path.as_str(),
            cause.as_str(),
        ),
        RunFault::EngineSpawn { engine, cause } => say_spawn_failed(
            engine.as_str(),
            cause.as_str(),
        ),
        RunFault::EngineHandshake { cause } => say_handshake_failed(cause.as_str()),
        RunFault::ScoreUnprintable { cause } => say_score_unprintable(cause.as_str()),
        RunFault::ResultsUnprintable { cause } => say_results_unprintable(cause.as_str()),
        RunFault::IntegrityUnprintable { cause } => say_integrity_seal_unprintable(
            cause.as_str(),
        ),
        RunFault::GoldenReread { cause } => say_golden_reread_failed(cause.as_str()),
        RunFault::GatesUnreadable { path, cause } => say_read_failed(
            "--gates-score",
            path.as_str(),
            cause.as_str(),
        ),
        RunFault::GatesUnparsable { cause } => say_gates_parse_failed(cause.as_str()),
        RunFault::ResultsUnreadable { path, cause } => say_read_failed(
            "--results",
            path.as_str(),
            cause.as_str(),
        ),
        RunFault::ResultsUnparsable { cause } => say_results_parse_failed(cause.as_str()),
        RunFault::IntegrityUnreadable { path, cause } => say_integrity_unreadable(
            path.as_str(),
            cause.as_str(),
        ),
        RunFault::Uncreatable { path, cause } => say_create_failed(path.as_str(), cause.as_str()),
        RunFault::Unwritable { path, cause } => say_write_failed(path.as_str(), cause.as_str()),
        RunFault::Refused { cause } => cause,
    }
}

/// The text of an optional score.
pub open spec fn score_text(score: Option<Number>) -> Seq<char> {
    match score {
        Some(n) => n.display@,
        None => "null"@,
    }
}

/// What a run that wrote a score reports, with its exit status: zero exactly when it passed.
pub fn report_score(sub: &str, path: &str, passed: bool, score: &Option<Number>) -> (r: (
    u8,
    String,
))
    ensures
        r.0 == (if passed {
            0u8
        } else {
            1u8
        }),
        r.1@ == wrote_score(sub@, path@, passed, score_text(*score)),
{
    let text = match score {
        Some(n) => n.display.as_str(),
        None => "null",
    };
    (iterate_exit_status(passed), say_wrote_score(sub, path, passed, text))
}

/// The executable behind a run: the one that the sandbox names on an official run, the given one
/// otherwise.
pub fn runner_engine(given: &str, sandboxed: Option<&str>) -> (r: String)
    ensures
        r@ == (match sandboxed {
            Some(e) => e@,
            None => given@,
        }),
{
    match sandboxed {
        Some(e) => e.to_owned(),
        None => given.to_owned(),
    }
}

/// The place of a stage in the order.
pub open spec fn stage_rank(stage: RunStage) -> nat {
    match stage {
        RunStage::Harness => 0,
        RunStage::Golden => 1,
        RunStage::Sandbox => 2,
        RunStage::Weights => 3,
        RunStage::Run => 4,
        RunStage::WriteScore => 5,
        RunStage::RereadGolden => 6,
        RunStage::WriteIntegrity => 7,
    }
}

/// The order of a run is one: the harness comes first, nothing is done twice, and only the sandbox
/// of a run that is not official is passed over.
pub proof fn stages_are_done_in_order(stage: RunStage, other: RunStage, mode: Mode)
    ensures
        stage_after(stage, mode) matches Some(next) ==> {
            &&& stage_rank(next) > stage_rank(stage)
            &&& (stage_rank(stage) < stage_rank(other) < stage_rank(next) ==> other
                == RunStage::Sandbox && !(mode is Official))
        },
        stage_after(stage, mode) is None <==> stage == RunStage::WriteIntegrity,
{
}

/// The path of a run: an official one is sandboxed between its golden and its weights, and a local
/// one goes straight from one to the other. The score is written before the golden is digested
/// again, and the record of the run comes last.
pub proof fn a_run_has_one_path(mode: Mode)
    ensures
        stage_after(RunStage::Harness, mode) == Some(RunStage::Golden),
        mode is Official ==> stage_after(RunStage::Golden, mode) == Some(RunStage::Sandbox),
        !(mode is Official) ==> stage_after(RunStage::Golden, mode) == Some(RunStage::Weights),
        stage_after(RunStage::Sandbox, mode) == Some(RunStage::Weights),
        stage_after(RunStage::Weights, mode) == Some(RunStage::Run),
        stage_after(RunStage::Run, mode) == Some(RunStage::WriteScore),
        stage_after(RunStage::WriteScore, mode) == Some(RunStage::RereadGolden),
        stage_after(RunStage::RereadGolden, mode) == Some(RunStage::WriteIntegrity),
        stage_after(RunStage::WriteIntegrity, mode) is None,
{
}

/// A score is reported as it prints, and a missing one as `null`.
pub proof fn a_score_is_reported_as_it_prints(score: Option<Number>)
    ensures
        score matches Some(n) ==> score_text(score) == n.display@,
        score is None ==> score_text(score) == "null"@,
{
}

/// A run that ends without a score says so in the words of its fault, with the path and the cause
/// of it.
pub proof fn a_fault_is_told_by_its_path_and_its_cause(fault: RunFault)
    ensures
        fault matches RunFault::HarnessUnresolved { cause } ==> fault_message(fault)
            == harness_unresolved(cause@),
        fault matches RunFault::GoldenUnreadable { path, cause } ==> fault_message(fault)
            == golden_unreadable(path@, cause@),
        fault matches RunFault::GoldenUnloadable { cause } ==> fault_message(fault)
            == golden_unloadable(cause@),
        fault matches RunFault::WeightsUndigested { path, cause } ==> fault_message(fault)
            == run_weights_digest_failed(path@, cause@),
        fault matches RunFault::EngineSpawn { engine, cause } ==> fault_message(fault)
            == spawn_failed(engine@, cause@),
        fault matches RunFault::EngineHandshake { cause } ==> fault_message(fault)
            == handshake_failed(cause@),
        fault matches RunFault::ScoreUnprintable { cause } ==> fault_message(fault)
            == score_unprintable(cause@),
        fault matches RunFault::ResultsUnprintable { cause } ==> fault_message(fault)
            == results_unprintable(cause@),
        fault matches RunFault::IntegrityUnprintable { cause } ==> fault_message(fault)
            == integrity_seal_unprintable(cause@),
        fault matches RunFault::GoldenReread { cause } ==> fault_message(fault)
            == golden_reread_failed(cause@),
        fault matches RunFault::GatesUnreadable { path, cause } ==> fault_message(fault)
            == read_failed("--gates-score"@, path@, cause@),
        fault matches RunFault::GatesUnparsable { cause } ==> fault_message(fault)
            == gates_parse_failed(cause@),
        fault matches RunFault::ResultsUnreadable { path, cause } ==> fault_message(fault)
            == read_failed("--results"@, path@, cause@),
        fault matches RunFault::ResultsUnparsable { cause } ==> fault_message(fault)
            == results_parse_failed(cause@),
        fault matches RunFault::IntegrityUnreadable { path, cause } ==> fault_message(fault)
            == integrity_unreadable(path@, cause@),
        fault matches RunFault::Uncreatable { path, cause } ==> fault_message(fault)
            == create_failed(path@, cause@),
        fault matches RunFault::Unwritable { path, cause } ==> fault_message(fault)
            == write_failed(path@, cause@),
        fault matches RunFault::Refused { cause } ==> fault_message(fault) == cause@,
{
}

} // verus!
