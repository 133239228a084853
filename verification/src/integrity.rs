//! The integrity records that are sealed beside a score or beside the results of a paired run.
use crate::args::Mode;
use crate::json::{json_pretty, json_read, pretty, read_object, set_text, JsonItem};
use crate::measure_args::MeasureJobArgs;
use crate::measure_texts::{
    integrity_not_object, integrity_unparsable, integrity_unprintable, say_integrity_not_object,
    say_integrity_unparsable, say_integrity_unprintable,
};
use crate::paths::{
    a_sealed_path_carries_no_home, has_home_head, relativize_for_seal, sealed_path,
};
use crate::text::{trim, trimmed};
use vstd::prelude::*;

verus! {

/// The integrity record of a paired run.
#[derive(Debug)]
pub struct MeasureJobIntegrity {
    pub results_path: String,
    pub results_sha256: String,
    pub candidate_workspace: String,
    pub baseline_workspace: String,
    pub candidate_executable: String,
    pub baseline_executable: String,
    pub candidate_workspace_sha256: String,
    pub baseline_workspace_sha256: String,
    pub golden_sha256: String,
    pub contract_sha256: String,
    pub weights_dir: String,
    pub weights_sha256: String,
    pub weights_file_count: i64,
    pub weights_byte_count: i64,
    /// Who made the gates that the run is scored against, as its driver declared it.
    pub gates_producer: String,
}

/// What a paired run measured or digested for its record.
#[derive(Debug)]
pub struct MeasureJobSealInputs {
    pub results_path: String,
    pub results_sha256: String,
    pub candidate_executable: String,
    pub baseline_executable: String,
    pub candidate_workspace_sha256: String,
    pub baseline_workspace_sha256: String,
    pub golden_sha256: String,
    pub contract_sha256: String,
    pub weights_sha256: String,
    pub weights_file_count: i64,
    pub weights_byte_count: i64,
}

/// `seal` is the record of a paired run: its paths are sealed ones, its digests and counts are
/// those of the run, and its gates producer is the declared one.
pub open spec fn seals_measure_job(
    seal: MeasureJobIntegrity,
    args: MeasureJobArgs,
    run: MeasureJobSealInputs,
    cwd: Option<&str>,
    home: Option<&str>,
) -> bool {
    &&& seal.results_path@ == sealed_path(run.results_path@, cwd, home)
    &&& seal.candidate_workspace@ == sealed_path(args.candidate@, cwd, home)
    &&& seal.baseline_workspace@ == sealed_path(args.baseline@, cwd, home)
    &&& seal.candidate_executable@ == sealed_path(run.candidate_executable@, cwd, home)
    &&& seal.baseline_executable@ == sealed_path(run.baseline_executable@, cwd, home)
    &&& seal.weights_dir@ == sealed_path(args.weights@, cwd, home)
    &&& seal.gates_producer@ == args.gates_producer@
    &&& seal.results_sha256 == run.results_sha256
    &&& seal.candidate_workspace_sha256 == run.candidate_workspace_sha256
    &&& seal.baseline_workspace_sha256 == run.baseline_workspace_sha256
    &&& seal.golden_sha256 == run.golden_sha256
    &&& seal.contract_sha256 == run.contract_sha256
    &&& seal.weights_sha256 == run.weights_sha256
    &&& seal.weights_file_count == run.weights_file_count
    &&& seal.weights_byte_count == run.weights_byte_count
}

/// The integrity record of a paired run.
pub fn build_measure_job_integrity(
    args: &MeasureJobArgs,
    run: MeasureJobSealInputs,
    cwd: Option<&str>,
    home: Option<&str>,
) -> (seal: MeasureJobIntegrity)
    ensures
        seals_measure_job(seal, *args, run, cwd, home),
        seal.results_sha256@ == run.results_sha256@,
        seal.candidate_workspace_sha256@ == run.candidate_workspace_sha256@,
        seal.baseline_workspace_sha256@ == run.baseline_workspace_sha256@,
        seal.golden_sha256@ == run.golden_sha256@,
        seal.contract_sha256@ == run.contract_sha256@,
        seal.weights_sha256@ == run.weights_sha256@,
{
    MeasureJobIntegrity {
        results_path: relativize_for_seal(run.results_path.as_str(), cwd, home),
        results_sha256: run.results_sha256,
        candidate_workspace: relativize_for_seal(args.candidate.as_str(), cwd, home),
        baseline_workspace: relativize_for_seal(args.baseline.as_str(), cwd, home),
        candidate_executable: relativize_for_seal(run.candidate_executable.as_str(), cwd, home),
        baseline_executable: relativize_for_seal(run.baseline_executable.as_str(), cwd, home),
        candidate_workspace_sha256: run.candidate_workspace_sha256,
        baseline_workspace_sha256: run.baseline_workspace_sha256,
        golden_sha256: run.golden_sha256,
        contract_sha256: run.contract_sha256,
        weights_dir: relativize_for_seal(args.weights.as_str(), cwd, home),
        weights_sha256: run.weights_sha256,
        weights_file_count: run.weights_file_count,
        weights_byte_count: run.weights_byte_count,
        gates_producer: args.gates_producer.clone(),
    }
}

/// The resolution of an engine whose path was resolved and whose bytes were read.
pub const ENGINE_RESOLUTION_CANONICAL: &'static str = "canonical";

/// The resolution of an engine that is recorded as it was given.
pub const ENGINE_RESOLUTION_UNRESOLVED: &'static str = "unresolved";

/// An executable that was found: its canonical path, and the digest of its bytes where they could
/// be read.
#[derive(Debug)]
pub struct FoundExecutable {
    pub path: String,
    pub sha256: Option<String>,
}

/// The executables behind a run.
#[derive(Debug)]
pub struct RunnerIdentity {
    pub candidate_executable: String,
    pub candidate_executable_sha256: String,
    pub candidate_executable_resolution: String,
    pub benchd_executable: String,
    pub benchd_executable_sha256: String,
}

/// The engine was found and read.
pub open spec fn is_canonical(found: Option<FoundExecutable>) -> bool {
    found matches Some(f) && f.sha256 is Some
}

/// `id` names the executables behind a run. An engine that was not both found and read is recorded
/// as it was given, without a digest, and is said to be unresolved.
pub open spec fn identifies_runner(
    id: RunnerIdentity,
    engine: Seq<char>,
    found: Option<FoundExecutable>,
    own: Option<FoundExecutable>,
) -> bool {
    &&& if is_canonical(found) {
        &&& id.candidate_executable@ == found->0.path@
        &&& id.candidate_executable_sha256@ == found->0.sha256->0@
        &&& id.candidate_executable_resolution@ == ENGINE_RESOLUTION_CANONICAL@
    } else {
        &&& id.candidate_executable@ == engine
        &&& id.candidate_executable_sha256@.len() == 0
        &&& id.candidate_executable_resolution@ == ENGINE_RESOLUTION_UNRESOLVED@
    }
    &&& match own {
        Some(f) => {
            &&& id.benchd_executable@ == f.path@
            &&& match f.sha256 {
                Some(sha) => id.benchd_executable_sha256@ == sha@,
                None => id.benchd_executable_sha256@.len() == 0,
            }
        },
        None => id.benchd_executable@.len() == 0 && id.benchd_executable_sha256@.len() == 0,
    }
}

/// The executables behind a run, from what looking for them gave. It never fails: what could not be
/// resolved is recorded as such.
pub fn resolve_runner_identity(
    engine: &str,
    found: Option<FoundExecutable>,
    own: Option<FoundExecutable>,
) -> (id: RunnerIdentity)
    ensures
        identifies_runner(id, engine@, found, own),
{
    let (candidate_executable, candidate_executable_sha256, resolution) = match found {
        Some(f) => match f.sha256 {
            Some(sha) => (f.path, sha, ENGINE_RESOLUTION_CANONICAL),
            None => (engine.to_owned(), String::new(), ENGINE_RESOLUTION_UNRESOLVED),
        },
        None => (engine.to_owned(), String::new(), ENGINE_RESOLUTION_UNRESOLVED),
    };
    let (benchd_executable, benchd_executable_sha256) = match own {
        Some(f) => match f.sha256 {
            Some(sha) => (f.path, sha),
            None => (f.path, String::new()),
        },
        None => (String::new(), String::new()),
    };
    RunnerIdentity {
        candidate_executable,
        candidate_executable_sha256,
        candidate_executable_resolution: resolution.to_owned(),
        benchd_executable,
        benchd_executable_sha256,
    }
}

/// The integrity record of an `iterate` run.
#[derive(Debug)]
pub struct IntegritySidecar {
    pub score_path: String,
    pub score_sha256: String,
    pub weights_path: String,
    pub weights_sha256: String,
    pub weights_file_count: i64,
    pub weights_byte_count: i64,
    pub golden_path: String,
    pub golden_sha256: String,
    pub transform_source_sha256: String,
    pub candidate_executable: String,
    pub candidate_executable_sha256: String,
    /// Empty: an `iterate` run has one engine.
    pub baseline_executable: String,
    pub baseline_executable_sha256: String,
    pub candidate_executable_resolution: String,
    pub benchd_executable: String,
    pub benchd_executable_sha256: String,
    /// Empty: an `iterate` run has no workspace.
    pub candidate_workspace_sha256: String,
}

/// What an `iterate` run digested for its record.
#[derive(Debug)]
pub struct IterateSealInputs {
    pub score_path: String,
    pub score_sha256: String,
    pub weights_path: String,
    pub weights_sha256: String,
    pub weights_file_count: i64,
    pub weights_byte_count: i64,
    pub golden_sha256: String,
    /// The contents of the file that names the source of the weights, where there is one.
    pub transform_source: Option<String>,
}

/// `seal` is the record of an `iterate` run. The path of the golden is private.
pub open spec fn seals_iterate(
    seal: IntegritySidecar,
    run: IterateSealInputs,
    runner: RunnerIdentity,
    cwd: Option<&str>,
    home: Option<&str>,
) -> bool {
    &&& seal.score_path@ == sealed_path(run.score_path@, cwd, home)
    &&& seal.score_sha256 == run.score_sha256
    &&& seal.weights_path@ == sealed_path(run.weights_path@, cwd, home)
    &&& seal.weights_sha256 == run.weights_sha256
    &&& seal.weights_file_count == run.weights_file_count
    &&& seal.weights_byte_count == run.weights_byte_count
    &&& seal.golden_path@ == "[private]"@
    &&& seal.golden_sha256 == run.golden_sha256
    &&& seal.transform_source_sha256@ == (match run.transform_source {
        Some(t) => trimmed(t@),
        None => Seq::empty(),
    })
    &&& seal.candidate_executable@ == sealed_path(runner.candidate_executable@, cwd, home)
    &&& seal.candidate_executable_sha256 == runner.candidate_executable_sha256
    &&& seal.baseline_executable@.len() == 0
    &&& seal.baseline_executable_sha256@.len() == 0
    &&& seal.candidate_executable_resolution == runner.candidate_executable_resolution
    &&& seal.benchd_executable@ == sealed_path(runner.benchd_executable@, cwd, home)
    &&& seal.benchd_executable_sha256 == runner.benchd_executable_sha256
    &&& seal.candidate_workspace_sha256@.len() == 0
}

/// The integrity record of an `iterate` run.
pub fn build_integrity_sidecar(
    run: IterateSealInputs,
    runner: RunnerIdentity,
    cwd: Option<&str>,
    home: Option<&str>,
) -> (seal: IntegritySidecar)
    ensures
        seals_iterate(seal, run, runner, cwd, home),
        seal.score_sha256@ == run.score_sha256@,
        seal.weights_sha256@ == run.weights_sha256@,
        seal.golden_sha256@ == run.golden_sha256@,
        seal.candidate_executable_sha256@ == runner.candidate_executable_sha256@,
        seal.benchd_executable_sha256@ == runner.benchd_executable_sha256@,
{
    let transform_source_sha256 = match &run.transform_source {
        Some(t) => trim(t.as_str()),
        None => String::new(),
    };
    IntegritySidecar {
        score_path: relativize_for_seal(run.score_path.as_str(), cwd, home),
        score_sha256: run.score_sha256,
        weights_path: relativize_for_seal(run.weights_path.as_str(), cwd, home),
        weights_sha256: run.weights_sha256,
        weights_file_count: run.weights_file_count,
        weights_byte_count: run.weights_byte_count,
        golden_path: "[private]".to_owned(),
        golden_sha256: run.golden_sha256,
        transform_source_sha256,
        candidate_executable: relativize_for_seal(
            runner.candidate_executable.as_str(),
            cwd,
            home,
        ),
        candidate_executable_sha256: runner.candidate_executable_sha256,
        baseline_executable: String::new(),
        baseline_executable_sha256: String::new(),
        candidate_executable_resolution: runner.candidate_executable_resolution,
        benchd_executable: relativize_for_seal(runner.benchd_executable.as_str(), cwd, home),
        benchd_executable_sha256: runner.benchd_executable_sha256,
        candidate_workspace_sha256: String::new(),
    }
}

/// The name of the integrity record of a mode.
pub open spec fn integrity_name_of(mode: Mode) -> Seq<char> {
    match mode {
        Mode::LocalIterate => "benchmark-integrity.local-iterate.json"@,
        _ => "benchmark-integrity.json"@,
    }
}

/// The name of the integrity record of a mode.
pub fn integrity_name(mode: Mode) -> (r: &'static str)
    ensures
        r@ == integrity_name_of(mode),
{
    match mode {
        Mode::LocalIterate => "benchmark-integrity.local-iterate.json",
        _ => "benchmark-integrity.json",
    }
}

/// The line that a digest file holds: the digest, two spaces and the name it is checked under.
pub open spec fn digest_line(digest: Seq<char>, name: Seq<char>) -> Seq<char> {
    digest + "  "@ + name + "\n"@
}

/// The body of a digest file.
pub fn sidecar_body(digest: &str, name: &str) -> (r: String)
    ensures
        r@ == digest_line(digest@, name@),
{
    let mut r = digest.to_owned();
    r.append("  ");
    r.append(name);
    r.append("\n");
    r
}

/// The name of the digest file of a file.
pub fn sidecar_name(name: &str) -> (r: String)
    ensures
        r@ == name@ + ".sha256"@,
{
    let mut r = name.to_owned();
    r.append(".sha256");
    r
}

/// The name of the integrity record of results by their stem.
pub fn results_integrity_name(stem: &str) -> (r: String)
    ensures
        r@ == "benchmark-integrity."@ + stem@ + ".json"@,
{
    let mut r = "benchmark-integrity.".to_owned();
    r.append(stem);
    r.append(".json");
    r
}

/// A fresh integrity record of a merged score.
#[derive(Debug)]
pub struct OverlayIntegrity {
    pub score_path: String,
    pub score_sha256: String,
}

/// The fresh integrity record of a merged score.
pub fn fresh_overlay_integrity(
    score_path: &str,
    score_sha256: &str,
    cwd: Option<&str>,
    home: Option<&str>,
) -> (r: OverlayIntegrity)
    ensures
        r.score_path@ == sealed_path(score_path@, cwd, home),
        r.score_sha256@ == score_sha256@,
{
    OverlayIntegrity {
        score_path: relativize_for_seal(score_path, cwd, home),
        score_sha256: score_sha256.to_owned(),
    }
}

/// The members of an integrity record after a merged score is anchored in it: the digest and the
/// path of the score are set, and the rest of the record is kept.
pub open spec fn anchored(
    members: Map<Seq<char>, JsonItem>,
    score_path: Seq<char>,
    score_sha256: Seq<char>,
) -> Map<Seq<char>, JsonItem> {
    members.insert("score_sha256"@, JsonItem::Text { text: score_sha256 }).insert(
        "score_path"@,
        JsonItem::Text { text: score_path },
    )
}

/// What writing an integrity record out comes to: its document with a line end, or the refusal.
pub open spec fn anchor_text(printed: Result<Seq<char>, Seq<char>>) -> Result<
    Seq<char>,
    Seq<char>,
> {
    match printed {
        Ok(text) => Ok(text + "\n"@),
        Err(cause) => Err(integrity_unprintable(cause)),
    }
}

/// `r` is the text that `t` describes, or its refusal.
pub open spec fn gives_text(r: Result<String, String>, t: Result<Seq<char>, Seq<char>>) -> bool {
    match t {
        Ok(text) => r matches Ok(s) && s@ == text,
        Err(m) => r matches Err(e) && e@ == m,
    }
}

/// A result by its texts.
pub open spec fn texts_of(r: Result<String, String>) -> Result<Seq<char>, Seq<char>> {
    match r {
        Ok(s) => Ok(s@),
        Err(e) => Err(e@),
    }
}

/// What writing an integrity record out comes to.
pub fn finish_anchor(printed: Result<String, String>) -> (r: Result<String, String>)
    ensures
        gives_text(r, anchor_text(texts_of(printed))),
{
    match printed {
        Ok(text) => {
            let mut text = text;
            text.append("\n");
            Ok(text)
        },
        Err(cause) => Err(say_integrity_unprintable(cause.as_str())),
    }
}

/// What anchoring a merged score in an existing integrity record comes to. `read` is what the
/// record reads as.
pub open spec fn reanchored(
    read: Result<Option<Map<Seq<char>, JsonItem>>, Seq<char>>,
    score_path: Seq<char>,
    score_sha256: Seq<char>,
) -> Result<Seq<char>, Seq<char>> {
    match read {
        Err(cause) => Err(integrity_unparsable(cause)),
        Ok(None) => Err(integrity_not_object()),
        Ok(Some(members)) => anchor_text(json_pretty(anchored(members, score_path, score_sha256))),
    }
}

/// Anchors a merged score in an existing integrity record: the digest and the sealed path of the
/// score are set, and the rest of the record is kept.
pub fn reanchor_overlay_integrity(
    existing: &Vec<u8>,
    score_path: &str,
    score_sha256: &str,
    cwd: Option<&str>,
    home: Option<&str>,
) -> (r: Result<String, String>)
    ensures
        gives_text(
            r,
            reanchored(
                json_read(existing@),
                sealed_path(score_path@, cwd, home),
                score_sha256@,
            ),
        ),
{
    let sealed = relativize_for_seal(score_path, cwd, home);
    match read_object(existing) {
        Err(cause) => Err(say_integrity_unparsable(cause.as_str())),
        Ok(None) => Err(say_integrity_not_object()),
        Ok(Some(object)) => {
            let mut object = object;
            set_text(&mut object, "score_sha256", score_sha256);
            set_text(&mut object, "score_path", sealed.as_str());
            finish_anchor(pretty(&object))
        },
    }
}

/// An anchored record names the score and its digest, and says everything else as before.
pub proof fn an_anchored_record_keeps_the_rest(
    members: Map<Seq<char>, JsonItem>,
    score_path: Seq<char>,
    score_sha256: Seq<char>,
    key: Seq<char>,
)
    ensures
        ({
            let after = anchored(members, score_path, score_sha256);
            &&& after.contains_key("score_sha256"@)
            &&& after["score_sha256"@] == (JsonItem::Text { text: score_sha256 })
            &&& after.contains_key("score_path"@)
            &&& after["score_path"@] == (JsonItem::Text { text: score_path })
            &&& key != "score_sha256"@ && key != "score_path"@ ==> {
                &&& after.contains_key(key) <==> members.contains_key(key)
                &&& members.contains_key(key) ==> after[key] == members[key]
            }
        }),
{
    reveal_strlit("score_sha256");
    reveal_strlit("score_path");
    assert("score_sha256"@.len() != "score_path"@.len());
}

/// Anchoring a score twice is anchoring it once, and the last score that is anchored is the one
/// that the record names.
pub proof fn the_last_anchor_stays(
    members: Map<Seq<char>, JsonItem>,
    first_path: Seq<char>,
    first_sha256: Seq<char>,
    score_path: Seq<char>,
    score_sha256: Seq<char>,
)
    ensures
        anchored(anchored(members, first_path, first_sha256), score_path, score_sha256)
            == anchored(members, score_path, score_sha256),
{
    reveal_strlit("score_sha256");
    reveal_strlit("score_path");
    assert("score_sha256"@.len() != "score_path"@.len());
    assert(anchored(anchored(members, first_path, first_sha256), score_path, score_sha256)
        =~= anchored(members, score_path, score_sha256));
}

/// No path that is sealed in the record of a paired run starts with the head of a home.
pub proof fn a_measure_job_seal_carries_no_home(
    seal: MeasureJobIntegrity,
    args: MeasureJobArgs,
    run: MeasureJobSealInputs,
    cwd: Option<&str>,
    home: Option<&str>,
)
    requires
        seals_measure_job(seal, args, run, cwd, home),
    ensures
        !has_home_head(seal.results_path@),
        !has_home_head(seal.candidate_workspace@),
        !has_home_head(seal.baseline_workspace@),
        !has_home_head(seal.candidate_executable@),
        !has_home_head(seal.baseline_executable@),
        !has_home_head(seal.weights_dir@),
{
    a_sealed_path_carries_no_home(run.results_path@, cwd, home);
    a_sealed_path_carries_no_home(args.candidate@, cwd, home);
    a_sealed_path_carries_no_home(args.baseline@, cwd, home);
    a_sealed_path_carries_no_home(run.candidate_executable@, cwd, home);
    a_sealed_path_carries_no_home(run.baseline_executable@, cwd, home);
    a_sealed_path_carries_no_home(args.weights@, cwd, home);
}

/// No path that is sealed in the record of an `iterate` run starts with the head of a home.
pub proof fn an_iterate_seal_carries_no_home(
    seal: IntegritySidecar,
    run: IterateSealInputs,
    runner: RunnerIdentity,
    cwd: Option<&str>,
    home: Option<&str>,
)
    requires
        seals_iterate(seal, run, runner, cwd, home),
    ensures
        !has_home_head(seal.score_path@),
        !has_home_head(seal.weights_path@),
        !has_home_head(seal.candidate_executable@),
        !has_home_head(seal.benchd_executable@),
{
    a_sealed_path_carries_no_home(run.score_path@, cwd, home);
    a_sealed_path_carries_no_home(run.weights_path@, cwd, home);
    a_sealed_path_carries_no_home(runner.candidate_executable@, cwd, home);
    a_sealed_path_carries_no_home(runner.benchd_executable@, cwd, home);
}

/// An engine digest is empty exactly when the engine is said to be unresolved, as long as a digest
/// that was read is not empty.
pub proof fn an_empty_engine_digest_is_never_ambiguous(
    id: RunnerIdentity,
    engine: Seq<char>,
    found: Option<FoundExecutable>,
    own: Option<FoundExecutable>,
)
    requires
        identifies_runner(id, engine, found, own),
        is_canonical(found) ==> found->0.sha256->0@.len() > 0,
    ensures
        id.candidate_executable_sha256@.len() == 0 <==> id.candidate_executable_resolution@
            == ENGINE_RESOLUTION_UNRESOLVED@,
{
    reveal_strlit("canonical");
    reveal_strlit("unresolved");
    assert(ENGINE_RESOLUTION_CANONICAL@.len() != ENGINE_RESOLUTION_UNRESOLVED@.len());
}

/// The record of a paired run carries every digest and every count of the run under its own name,
/// and each path of the run and of its arguments under its own name.
pub proof fn a_measure_job_record_keeps_each_thing_under_its_name(
    seal: MeasureJobIntegrity,
    args: MeasureJobArgs,
    run: MeasureJobSealInputs,
    cwd: Option<&str>,
    home: Option<&str>,
)
    requires
        seals_measure_job(seal, args, run, cwd, home),
    ensures
        seal.results_sha256@ == run.results_sha256@,
        seal.candidate_workspace_sha256@ == run.candidate_workspace_sha256@,
        seal.baseline_workspace_sha256@ == run.baseline_workspace_sha256@,
        seal.golden_sha256@ == run.golden_sha256@,
        seal.contract_sha256@ == run.contract_sha256@,
        seal.weights_sha256@ == run.weights_sha256@,
        seal.weights_file_count == run.weights_file_count,
        seal.weights_byte_count == run.weights_byte_count,
        seal.gates_producer@ == args.gates_producer@,
        seal.results_path@ == sealed_path(run.results_path@, cwd, home),
        seal.candidate_executable@ == sealed_path(run.candidate_executable@, cwd, home),
        seal.baseline_executable@ == sealed_path(run.baseline_executable@, cwd, home),
        seal.candidate_workspace@ == sealed_path(args.candidate@, cwd, home),
        seal.baseline_workspace@ == sealed_path(args.baseline@, cwd, home),
        seal.weights_dir@ == sealed_path(args.weights@, cwd, home),
{
}

/// Records tell runs apart: two paired runs whose digests differ anywhere have records that differ
/// there.
pub proof fn measure_job_records_tell_runs_apart(
    a: MeasureJobIntegrity,
    b: MeasureJobIntegrity,
    args: MeasureJobArgs,
    run_a: MeasureJobSealInputs,
    run_b: MeasureJobSealInputs,
    cwd: Option<&str>,
    home: Option<&str>,
)
    requires
        seals_measure_job(a, args, run_a, cwd, home),
        seals_measure_job(b, args, run_b, cwd, home),
    ensures
        run_a.results_sha256@ != run_b.results_sha256@ ==> a.results_sha256@ != b.results_sha256@,
        run_a.candidate_workspace_sha256@ != run_b.candidate_workspace_sha256@
            ==> a.candidate_workspace_sha256@ != b.candidate_workspace_sha256@,
        run_a.baseline_workspace_sha256@ != run_b.baseline_workspace_sha256@
            ==> a.baseline_workspace_sha256@ != b.baseline_workspace_sha256@,
        run_a.golden_sha256@ != run_b.golden_sha256@ ==> a.golden_sha256@ != b.golden_sha256@,
        run_a.contract_sha256@ != run_b.contract_sha256@ ==> a.contract_sha256@
            != b.contract_sha256@,
        run_a.weights_sha256@ != run_b.weights_sha256@ ==> a.weights_sha256@ != b.weights_sha256@,
{
}

/// The record of an `iterate` run carries every digest and every count under its own name, and the
/// executables of its runner. It never says where the golden is, and it has neither a baseline
/// engine nor a workspace.
pub proof fn an_iterate_record_keeps_each_thing_under_its_name(
    seal: IntegritySidecar,
    run: IterateSealInputs,
    runner: RunnerIdentity,
    cwd: Option<&str>,
    home: Option<&str>,
)
    requires
        seals_iterate(seal, run, runner, cwd, home),
    ensures
        seal.score_sha256@ == run.score_sha256@,
        seal.weights_sha256@ == run.weights_sha256@,
        seal.weights_file_count == run.weights_file_count,
        seal.weights_byte_count == run.weights_byte_count,
        seal.golden_sha256@ == run.golden_sha256@,
        seal.golden_path@ == "[private]"@,
        run.transform_source matches Some(t) ==> seal.transform_source_sha256@ == trimmed(t@),
        run.transform_source is None ==> seal.transform_source_sha256@.len() == 0,
        seal.score_path@ == sealed_path(run.score_path@, cwd, home),
        seal.weights_path@ == sealed_path(run.weights_path@, cwd, home),
        seal.candidate_executable@ == sealed_path(runner.candidate_executable@, cwd, home),
        seal.candidate_executable_sha256@ == runner.candidate_executable_sha256@,
        seal.candidate_executable_resolution@ == runner.candidate_executable_resolution@,
        seal.benchd_executable@ == sealed_path(runner.benchd_executable@, cwd, home),
        seal.benchd_executable_sha256@ == runner.benchd_executable_sha256@,
        seal.baseline_executable@.len() == 0,
        seal.baseline_executable_sha256@.len() == 0,
        seal.candidate_workspace_sha256@.len() == 0,
{
}

/// An engine that was found and read is named by where it was found and by its digest; any other
/// engine is named as it was given, without one. The program itself is named by where it was found,
/// with its digest where it could be read.
pub proof fn a_runner_is_named_by_what_was_found(
    id: RunnerIdentity,
    engine: Seq<char>,
    found: Option<FoundExecutable>,
    own: Option<FoundExecutable>,
)
    requires
        identifies_runner(id, engine, found, own),
    ensures
        found matches Some(f) ==> (f.sha256 matches Some(sha) ==> {
            &&& id.candidate_executable@ == f.path@
            &&& id.candidate_executable_sha256@ == sha@
            &&& id.candidate_executable_resolution@ == "canonical"@
        }),
        found is None || found->0.sha256 is None ==> {
            &&& id.candidate_executable@ == engine
            &&& id.candidate_executable_sha256@.len() == 0
            &&& id.candidate_executable_resolution@ == "unresolved"@
        },
        own matches Some(f) ==> id.benchd_executable@ == f.path@ && (match f.sha256 {
            Some(sha) => id.benchd_executable_sha256@ == sha@,
            None => id.benchd_executable_sha256@.len() == 0,
        }),
        own is None ==> id.benchd_executable@.len() == 0 && id.benchd_executable_sha256@.len()
            == 0,
{
}

/// Only a local iteration has an integrity record of its own name, and the two names differ, so
/// that neither record overwrites the other.
pub proof fn a_local_iteration_has_its_own_record(mode: Mode)
    ensures
        integrity_name_of(mode) == "benchmark-integrity.local-iterate.json"@ <==> mode
            is LocalIterate,
        integrity_name_of(mode) == "benchmark-integrity.json"@ <==> !(mode is LocalIterate),
{
    reveal_strlit("benchmark-integrity.local-iterate.json");
    reveal_strlit("benchmark-integrity.json");
    assert("benchmark-integrity.local-iterate.json"@.len() != "benchmark-integrity.json"@.len());
}

/// A digest file can be read back: the digest comes first, the name it is checked under comes after
/// two spaces, and a line end closes it.
pub proof fn a_digest_line_reads_back(digest: Seq<char>, name: Seq<char>)
    ensures
        ({
            let line = digest_line(digest, name);
            let n = digest.len() as int;
            &&& line.len() == digest.len() + name.len() + 3
            &&& line.subrange(0, n) == digest
            &&& line[n] == ' ' && line[n + 1] == ' '
            &&& line.subrange(n + 2, n + 2 + name.len()) == name
            &&& line[line.len() - 1] == '\n'
        }),
{
    reveal_strlit("  ");
    reveal_strlit("\n");
    let line = digest_line(digest, name);
    let n = digest.len() as int;
    assert(line.subrange(0, n) =~= digest);
    assert(line.subrange(n + 2, n + 2 + name.len()) =~= name);
}

/// What re-anchoring a record comes to: a record that does not read as an object is refused, and
/// one that does is written out with a line end, or refused where it cannot be.
pub proof fn a_record_is_anchored_exactly_when_it_is_an_object(
    read: Result<Option<Map<Seq<char>, JsonItem>>, Seq<char>>,
    score_path: Seq<char>,
    score_sha256: Seq<char>,
)
    ensures
        !(read matches Ok(Some(_))) ==> reanchored(read, score_path, score_sha256) is Err,
        read matches Ok(Some(members)) ==> {
            let printed = json_pretty(
                members.insert("score_sha256"@, JsonItem::Text { text: score_sha256 }).insert(
                    "score_path"@,
                    JsonItem::Text { text: score_path },
                ),
            );
            let r = reanchored(read, score_path, score_sha256);
            &&& r is Ok <==> printed is Ok
            &&& r is Ok ==> r->Ok_0.len() == printed->Ok_0.len() + 1 && r->Ok_0.drop_last()
                == printed->Ok_0 && r->Ok_0.last() == '\n'
        },
{
    reveal_strlit("\n");
    match read {
        Ok(Some(members)) => {
            let printed = json_pretty(anchored(members, score_path, score_sha256));
            let r = reanchored(read, score_path, score_sha256);
            if r is Ok {
                assert(r->Ok_0.drop_last() =~= printed->Ok_0);
            }
        },
        _ => {},
    }
}

/// A text is given exactly when there is one, and its refusal otherwise.
pub proof fn a_text_is_given_as_it_is(
    r: Result<String, String>,
    t: Result<Seq<char>, Seq<char>>,
)
    ensures
        gives_text(r, t) <==> texts_of(r) == t,
        r matches Ok(s) ==> texts_of(r) == Ok::<Seq<char>, Seq<char>>(s@),
        r matches Err(e) ==> texts_of(r) == Err::<Seq<char>, Seq<char>>(e@),
{
}

/// A record that cannot be anchored is told by its fault, with the cause.
pub proof fn a_record_that_is_refused_is_told_by_its_fault(
    read: Result<Option<Map<Seq<char>, JsonItem>>, Seq<char>>,
    printed: Result<Seq<char>, Seq<char>>,
    score_path: Seq<char>,
    score_sha256: Seq<char>,
)
    ensures
        read matches Err(cause) ==> reanchored(read, score_path, score_sha256) == Err::<
            Seq<char>,
            Seq<char>,
        >(integrity_unparsable(cause)),
        read == Ok::<Option<Map<Seq<char>, JsonItem>>, Seq<char>>(None) ==> reanchored(
            read,
            score_path,
            score_sha256,
        ) == Err::<Seq<char>, Seq<char>>(integrity_not_object()),
        printed matches Err(cause) ==> anchor_text(printed) == Err::<Seq<char>, Seq<char>>(
            integrity_unprintable(cause),
        ),
{
}

} // verus!
