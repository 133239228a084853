//! The texts that the program reports with.
use crate::text::{count_text, debug_text, decimal, quoted};
use vstd::prelude::*;

verus! {

/// A flag at the end of a command line.
pub open spec fn sub_needs_value(sub: Seq<char>, name: Seq<char>) -> Seq<char> {
    "benchctl "@
        + sub
        + ": "@
        + name
        + " requires a value"@
}

pub fn say_sub_needs_value(sub: &str, name: &str) -> (m: String)
    ensures
        m@ == sub_needs_value(sub@, name@),
{
    let mut m = "benchctl ".to_owned();
    m.append(sub);
    m.append(": ");
    m.append(name);
    m.append(" requires a value");
    m
}

/// A flag that the subcommand does not have.
pub open spec fn sub_unknown_flag(sub: Seq<char>, flag: Seq<char>) -> Seq<char> {
    "benchctl "@
        + sub
        + ": unknown flag "@
        + debug_text(flag)
}

pub fn say_sub_unknown_flag(sub: &str, flag: &str) -> (m: String)
    ensures
        m@ == sub_unknown_flag(sub@, flag@),
{
    let mut m = "benchctl ".to_owned();
    m.append(sub);
    m.append(": unknown flag ");
    m.append(quoted(flag).as_str());
    m
}

/// A flag that was not given.
pub open spec fn sub_missing(sub: Seq<char>, name: Seq<char>) -> Seq<char> {
    "benchctl "@
        + sub
        + ": missing required "@
        + name
}

pub fn say_sub_missing(sub: &str, name: &str) -> (m: String)
    ensures
        m@ == sub_missing(sub@, name@),
{
    let mut m = "benchctl ".to_owned();
    m.append(sub);
    m.append(": missing required ");
    m.append(name);
    m
}

/// A subcommand that ended early.
pub open spec fn sub_failed(sub: Seq<char>, cause: Seq<char>) -> Seq<char> {
    "benchctl "@
        + sub
        + ": "@
        + cause
}

pub fn say_sub_failed(sub: &str, cause: &str) -> (m: String)
    ensures
        m@ == sub_failed(sub@, cause@),
{
    let mut m = "benchctl ".to_owned();
    m.append(sub);
    m.append(": ");
    m.append(cause);
    m
}

/// A flag of the correctness gate that was not given.
pub open spec fn correctness_missing() -> Seq<char> {
    "benchctl correctness: --engine, --weights, and --golden are all required"@
}

pub fn say_correctness_missing() -> (m: String)
    ensures
        m@ == correctness_missing(),
{
    "benchctl correctness: --engine, --weights, and --golden are all required".to_owned()
}

/// A contract that could not be read.
pub open spec fn golden_contract_io(path: Seq<char>, cause: Seq<char>) -> Seq<char> {
    "benchctl validate-golden: IO ERROR reading contract "@
        + path
        + ": "@
        + cause
}

pub fn say_golden_contract_io(path: &str, cause: &str) -> (m: String)
    ensures
        m@ == golden_contract_io(path@, cause@),
{
    let mut m = "benchctl validate-golden: IO ERROR reading contract ".to_owned();
    m.append(path);
    m.append(": ");
    m.append(cause);
    m
}

/// A contract that is not usable.
pub open spec fn golden_contract_unusable(path: Seq<char>, cause: Seq<char>) -> Seq<char> {
    "benchctl validate-golden: contract "@
        + path
        + " is unusable: "@
        + cause
}

pub fn say_golden_contract_unusable(path: &str, cause: &str) -> (m: String)
    ensures
        m@ == golden_contract_unusable(path@, cause@),
{
    let mut m = "benchctl validate-golden: contract ".to_owned();
    m.append(path);
    m.append(" is unusable: ");
    m.append(cause);
    m
}

/// A golden that could not be read.
pub open spec fn golden_io(path: Seq<char>, cause: Seq<char>) -> Seq<char> {
    "benchctl validate-golden: IO ERROR reading "@
        + path
        + ": "@
        + cause
}

pub fn say_golden_io(path: &str, cause: &str) -> (m: String)
    ensures
        m@ == golden_io(path@, cause@),
{
    let mut m = "benchctl validate-golden: IO ERROR reading ".to_owned();
    m.append(path);
    m.append(": ");
    m.append(cause);
    m
}

/// A golden that is not the pinned one.
pub open spec fn golden_pin_reject(path: Seq<char>, cause: Seq<char>) -> Seq<char> {
    "benchctl validate-golden: REJECT "@
        + path
        + " (integrity pin): "@
        + cause
}

pub fn say_golden_pin_reject(path: &str, cause: &str) -> (m: String)
    ensures
        m@ == golden_pin_reject(path@, cause@),
{
    let mut m = "benchctl validate-golden: REJECT ".to_owned();
    m.append(path);
    m.append(" (integrity pin): ");
    m.append(cause);
    m
}

/// A golden that was not accepted.
pub open spec fn golden_schema_reject(path: Seq<char>, cause: Seq<char>) -> Seq<char> {
    "benchctl validate-golden: REJECT "@
        + path
        + " (schema): "@
        + cause
}

pub fn say_golden_schema_reject(path: &str, cause: &str) -> (m: String)
    ensures
        m@ == golden_schema_reject(path@, cause@),
{
    let mut m = "benchctl validate-golden: REJECT ".to_owned();
    m.append(path);
    m.append(" (schema): ");
    m.append(cause);
    m
}

/// A golden without an oracle.
pub open spec fn golden_no_oracle(path: Seq<char>) -> Seq<char> {
    "benchctl validate-golden: REJECT "@
        + path
        + " (schema): benchmark golden file must contain a benchmark oracle"@
}

pub fn say_golden_no_oracle(path: &str) -> (m: String)
    ensures
        m@ == golden_no_oracle(path@),
{
    let mut m = "benchctl validate-golden: REJECT ".to_owned();
    m.append(path);
    m.append(" (schema): benchmark golden file must contain a benchmark oracle");
    m
}

/// A golden that was accepted.
pub open spec fn golden_accept(path: Seq<char>, sha256: Seq<char>, cases: nat, gate_cases: nat) -> Seq<char> {
    "benchctl validate-golden: ACCEPT "@
        + path
        + " (sha256="@
        + sha256
        + ", cases="@
        + decimal(cases)
        + ", gate_cases="@
        + decimal(gate_cases)
        + ")"@
}

pub fn say_golden_accept(path: &str, sha256: &str, cases: usize, gate_cases: usize) -> (m: String)
    ensures
        m@ == golden_accept(path@, sha256@, cases as nat, gate_cases as nat),
{
    let mut m = "benchctl validate-golden: ACCEPT ".to_owned();
    m.append(path);
    m.append(" (sha256=");
    m.append(sha256);
    m.append(", cases=");
    m.append(count_text(cases).as_str());
    m.append(", gate_cases=");
    m.append(count_text(gate_cases).as_str());
    m.append(")");
    m
}

/// A golden whose model was not checked against a contract.
pub open spec fn golden_shape_only(path: Seq<char>) -> Seq<char> {
    "benchctl validate-golden: no --contract given, so the model_provenance block of "@
        + path
        + " was validated for SHAPE only; its values were not checked"@
}

pub fn say_golden_shape_only(path: &str) -> (m: String)
    ensures
        m@ == golden_shape_only(path@),
{
    let mut m = "benchctl validate-golden: no --contract given, so the model_provenance block of "
        .to_owned();
    m.append(path);
    m.append(" was validated for SHAPE only; its values were not checked");
    m
}

/// An engine that did not start.
pub open spec fn engine_spawn(engine: Seq<char>, cause: Seq<char>) -> Seq<char> {
    "benchctl correctness: failed to spawn engine "@
        + debug_text(engine)
        + ": "@
        + cause
}

pub fn say_engine_spawn(engine: &str, cause: &str) -> (m: String)
    ensures
        m@ == engine_spawn(engine@, cause@),
{
    let mut m = "benchctl correctness: failed to spawn engine ".to_owned();
    m.append(quoted(engine).as_str());
    m.append(": ");
    m.append(cause);
    m
}

/// An engine that did not answer.
pub open spec fn engine_handshake(cause: Seq<char>) -> Seq<char> {
    "benchctl correctness: engine hello handshake failed: "@
        + cause
}

pub fn say_engine_handshake(cause: &str) -> (m: String)
    ensures
        m@ == engine_handshake(cause@),
{
    let mut m = "benchctl correctness: engine hello handshake failed: ".to_owned();
    m.append(cause);
    m
}

/// The correctness gate passed.
pub open spec fn correctness_passed(case_count: Seq<char>) -> Seq<char> {
    "benchctl correctness: passed=true case_count="@
        + case_count
}

pub fn say_correctness_passed(case_count: &str) -> (m: String)
    ensures
        m@ == correctness_passed(case_count@),
{
    let mut m = "benchctl correctness: passed=true case_count=".to_owned();
    m.append(case_count);
    m
}

/// The correctness gate failed.
pub open spec fn correctness_failed(case_count: Seq<char>, error: Seq<char>) -> Seq<char> {
    "benchctl correctness: passed=false case_count="@
        + case_count
        + " error="@
        + debug_text(error)
}

pub fn say_correctness_failed(case_count: &str, error: &str) -> (m: String)
    ensures
        m@ == correctness_failed(case_count@, error@),
{
    let mut m = "benchctl correctness: passed=false case_count=".to_owned();
    m.append(case_count);
    m.append(" error=");
    m.append(quoted(error).as_str());
    m
}

/// Weights that were accepted.
pub open spec fn weights_accept(path: Seq<char>, bytes: Seq<char>, files: Seq<char>, cap: Seq<char>) -> Seq<char> {
    "benchctl validate-weights: ACCEPT "@
        + path
        + " (bytes="@
        + bytes
        + ", files="@
        + files
        + ", cap="@
        + cap
        + ")"@
}

pub fn say_weights_accept(path: &str, bytes: &str, files: &str, cap: &str) -> (m: String)
    ensures
        m@ == weights_accept(path@, bytes@, files@, cap@),
{
    let mut m = "benchctl validate-weights: ACCEPT ".to_owned();
    m.append(path);
    m.append(" (bytes=");
    m.append(bytes);
    m.append(", files=");
    m.append(files);
    m.append(", cap=");
    m.append(cap);
    m.append(")");
    m
}

/// Weights that were not accepted.
pub open spec fn weights_reject(path: Seq<char>, cause: Seq<char>) -> Seq<char> {
    "benchctl validate-weights: REJECT "@
        + path
        + ": "@
        + cause
}

pub fn say_weights_reject(path: &str, cause: &str) -> (m: String)
    ensures
        m@ == weights_reject(path@, cause@),
{
    let mut m = "benchctl validate-weights: REJECT ".to_owned();
    m.append(path);
    m.append(": ");
    m.append(cause);
    m
}

/// Weights that could not be read.
pub open spec fn weights_io(path: Seq<char>, cause: Seq<char>) -> Seq<char> {
    "benchctl validate-weights: IO ERROR reading "@
        + path
        + ": "@
        + cause
}

pub fn say_weights_io(path: &str, cause: &str) -> (m: String)
    ensures
        m@ == weights_io(path@, cause@),
{
    let mut m = "benchctl validate-weights: IO ERROR reading ".to_owned();
    m.append(path);
    m.append(": ");
    m.append(cause);
    m
}

/// The harness could not be identified.
pub open spec fn harness_hash_failed(cause: Seq<char>) -> Seq<char> {
    "benchctl harness-hash: "@
        + cause
        + "; run it with the working directory at the engine workspace root"@
}

pub fn say_harness_hash_failed(cause: &str) -> (m: String)
    ensures
        m@ == harness_hash_failed(cause@),
{
    let mut m = "benchctl harness-hash: ".to_owned();
    m.append(cause);
    m.append("; run it with the working directory at the engine workspace root");
    m
}

/// The cool gate failed.
pub open spec fn cool_gate_failed(cause: Seq<char>) -> Seq<char> {
    "benchctl --local-cool-gate-only: "@
        + cause
}

pub fn say_cool_gate_failed(cause: &str) -> (m: String)
    ensures
        m@ == cool_gate_failed(cause@),
{
    let mut m = "benchctl --local-cool-gate-only: ".to_owned();
    m.append(cause);
    m
}

/// Where the official run is.
pub open spec fn official_elsewhere() -> Seq<char> {
    "benchctl official: run the official benchmark via `benchctl iterate --mode \
         official`"@
}

pub fn say_official_elsewhere() -> (m: String)
    ensures
        m@ == official_elsewhere(),
{
    "benchctl official: run the official benchmark via `benchctl iterate --mode \
         official`".to_owned()
}

/// A subcommand that is not there yet.
pub open spec fn not_implemented(sub: Seq<char>) -> Seq<char> {
    "benchctl "@
        + sub
        + ": not implemented in this wave"@
}

pub fn say_not_implemented(sub: &str) -> (m: String)
    ensures
        m@ == not_implemented(sub@),
{
    let mut m = "benchctl ".to_owned();
    m.append(sub);
    m.append(": not implemented in this wave");
    m
}

/// A subcommand that does not exist.
pub open spec fn unknown_subcommand(sub: Seq<char>) -> Seq<char> {
    "benchctl: unknown subcommand "@
        + debug_text(sub)
}

pub fn say_unknown_subcommand(sub: &str) -> (m: String)
    ensures
        m@ == unknown_subcommand(sub@),
{
    let mut m = "benchctl: unknown subcommand ".to_owned();
    m.append(quoted(sub).as_str());
    m
}

} // verus!
