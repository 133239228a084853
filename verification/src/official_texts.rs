//! The texts of the official run: its refusals and the errors that its payloads carry.
use crate::text::{count_text, debug_text, decimal, quoted};
use vstd::prelude::*;

verus! {

/// A scoring seal without a dispatched commit record.
pub open spec fn record_required() -> Seq<char> {
    "author-at-seal: a scoring/ranked seal requires the dispatched commit record \
         (candidate.sha via MLXFAST_CANDIDATE_SHA_FILE); none was present — refusing \
         to fall back to the box git identity on a scoring run (pass --local-dev for \
         the unbound local resolution)"@
}

pub fn say_record_required() -> (m: String)
    ensures
        m@ == record_required(),
{
    "author-at-seal: a scoring/ranked seal requires the dispatched commit record \
         (candidate.sha via MLXFAST_CANDIDATE_SHA_FILE); none was present — refusing \
         to fall back to the box git identity on a scoring run (pass --local-dev for \
         the unbound local resolution)".to_owned()
}

/// A dispatched record that is no commit.
pub open spec fn record_malformed(record: Seq<char>) -> Seq<char> {
    "author-at-seal: the dispatch record (candidate.sha) is "@
        + debug_text(record)
        + ", not a 40-character lowercase-hex commit sha; refusing to seal a score \
         against an unidentified dispatch"@
}

pub fn say_record_malformed(record: &str) -> (m: String)
    ensures
        m@ == record_malformed(record@),
{
    let mut m = "author-at-seal: the dispatch record (candidate.sha) is ".to_owned();
    m.append(quoted(record).as_str());
    m.append(", not a 40-character lowercase-hex commit sha; refusing to seal a score \
         against an unidentified dispatch");
    m
}

/// A proposed commit that is not the dispatched one.
pub open spec fn proposal_disagrees(proposed: Seq<char>, record: Seq<char>) -> Seq<char> {
    "author-at-seal: the proposed commit (MLXFAST_COMMIT_SHA) "@
        + debug_text(proposed)
        + " disagrees with the dispatched record "@
        + debug_text(record)
        + "; refusing (the dispatch record is the sole authority for metrics.commit)"@
}

pub fn say_proposal_disagrees(proposed: &str, record: &str) -> (m: String)
    ensures
        m@ == proposal_disagrees(proposed@, record@),
{
    let mut m = "author-at-seal: the proposed commit (MLXFAST_COMMIT_SHA) ".to_owned();
    m.append(quoted(proposed).as_str());
    m.append(" disagrees with the dispatched record ");
    m.append(quoted(record).as_str());
    m.append("; refusing (the dispatch record is the sole authority for metrics.commit)");
    m
}

/// A dispatched record that could not be read.
pub open spec fn record_unreadable(path: Seq<char>, cause: Seq<char>) -> Seq<char> {
    "author-at-seal: MLXFAST_CANDIDATE_SHA_FILE="@
        + path
        + " is unreadable ("@
        + cause
        + "); refusing to seal against an unidentified dispatch"@
}

pub fn say_record_unreadable(path: &str, cause: &str) -> (m: String)
    ensures
        m@ == record_unreadable(path@, cause@),
{
    let mut m = "author-at-seal: MLXFAST_CANDIDATE_SHA_FILE=".to_owned();
    m.append(path);
    m.append(" is unreadable (");
    m.append(cause);
    m.append("); refusing to seal against an unidentified dispatch");
    m
}

/// Only one of the two baselines is given.
pub open spec fn baselines_half_set() -> Seq<char> {
    "MLXFAST_PAIRED_BASELINE_PREFILL_SECONDS_PER_TOKEN and \
         MLXFAST_PAIRED_BASELINE_DECODE_SECONDS_PER_TOKEN must be provided together"@
}

pub fn say_baselines_half_set() -> (m: String)
    ensures
        m@ == baselines_half_set(),
{
    "MLXFAST_PAIRED_BASELINE_PREFILL_SECONDS_PER_TOKEN and \
         MLXFAST_PAIRED_BASELINE_DECODE_SECONDS_PER_TOKEN must be provided together".to_owned()
}

/// A baseline that is no time.
pub open spec fn baseline_invalid(key: Seq<char>) -> Seq<char> {
    key
        + " must be a finite positive seconds-per-token value"@
}

pub fn say_baseline_invalid(key: &str) -> (m: String)
    ensures
        m@ == baseline_invalid(key@),
{
    let mut m = key.to_owned();
    m.append(" must be a finite positive seconds-per-token value");
    m
}

/// A golden without the oracle that an official run times.
pub open spec fn oracle_missing() -> Seq<char> {
    "benchmark golden file must contain a benchmark oracle"@
}

pub fn say_oracle_missing() -> (m: String)
    ensures
        m@ == oracle_missing(),
{
    "benchmark golden file must contain a benchmark oracle".to_owned()
}

/// A decode token that is not the expected one.
pub open spec fn mismatch_at_step(label: Seq<char>, step: nat) -> Seq<char> {
    label
        + " mismatch at step "@
        + decimal(step)
}

pub fn say_mismatch_at_step(label: &str, step: usize) -> (m: String)
    ensures
        m@ == mismatch_at_step(label@, step as nat),
{
    let mut m = label.to_owned();
    m.append(" mismatch at step ");
    m.append(count_text(step).as_str());
    m
}

/// A prefill or seed token that is not the expected one.
pub open spec fn mismatch(label: Seq<char>) -> Seq<char> {
    label
        + " mismatch"@
}

pub fn say_mismatch(label: &str) -> (m: String)
    ensures
        m@ == mismatch(label@),
{
    let mut m = label.to_owned();
    m.append(" mismatch");
    m
}

/// The correctness worker did not start.
pub open spec fn correctness_spawn_failed(cause: Seq<char>) -> Seq<char> {
    "correctness worker spawn failed: "@
        + cause
}

pub fn say_correctness_spawn_failed(cause: &str) -> (m: String)
    ensures
        m@ == correctness_spawn_failed(cause@),
{
    let mut m = "correctness worker spawn failed: ".to_owned();
    m.append(cause);
    m
}

} // verus!
