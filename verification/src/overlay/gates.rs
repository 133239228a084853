//! What the overlay asks of the gates score, of the harness at the seal, and of the identities
//! that the two inputs share.
use crate::overlay::refusals::{
    commit_differs, commit_missing, gates_already_scored, gates_has_error, gates_incorrect,
    gates_malformed_harness, gates_no_harness, gates_not_partial, gates_not_passing,
    harness_legs_differ, say_commit_differs, say_commit_missing, say_gates_already_scored,
    say_gates_has_error, say_gates_incorrect, say_gates_malformed_harness, say_gates_no_harness,
    say_gates_not_partial, say_gates_not_passing, say_harness_legs_differ, say_seal_unresolved,
    say_weights_differ, say_weights_missing, seal_unresolved, weights_differ, weights_missing,
};
use crate::overlay::view::{answers, HarnessIdentity, ResultsView};
use crate::score::ScorePayload;
use crate::text::{all_lower_hex, is_lower_hex, same_text};
use vstd::prelude::*;
use vstd::utf8::encode_utf8;

verus! {

/// A SHA-256 digest in lowercase hexadecimal.
pub open spec fn is_sha256_hex(s: Seq<char>) -> bool {
    s.len() == 64 && is_lower_hex(s)
}

/// Whether the text is a SHA-256 digest in lowercase hexadecimal.
pub fn is_well_formed_harness_hash(s: &str) -> (r: bool)
    ensures
        r == is_sha256_hex(s@),
{
    s.unicode_len() == 64 && all_lower_hex(s)
}

/// The length of a text in bytes.
pub open spec fn byte_length(s: Seq<char>) -> nat {
    (encode_utf8(s).len() as usize) as nat
}

/// What the overlay objects to in a gates score.
pub open spec fn gates_refusal(gates: &ScorePayload) -> Option<Seq<char>> {
    if !gates.passed {
        Some(gates_not_passing())
    } else if gates.score is Some {
        Some(gates_already_scored(gates.score->0.debug@))
    } else if !gates.metrics.partial_result {
        Some(gates_not_partial())
    } else if gates.metrics.error@.len() > 0 {
        Some(gates_has_error(gates.metrics.error@))
    } else if !gates.metrics.passed_correctness {
        Some(gates_incorrect())
    } else if gates.metrics.harness_hash@.len() == 0 {
        Some(gates_no_harness())
    } else if !is_sha256_hex(gates.metrics.harness_hash@) {
        Some(gates_malformed_harness(byte_length(gates.metrics.harness_hash@)))
    } else {
        None
    }
}

/// Accepts the gates half of a score: it passed, it carries no score yet, it is marked partial,
/// it carries no error, it passed correctness, and it names a harness by a well-formed digest.
pub fn validate_gates(gates: &ScorePayload) -> (r: Result<(), String>)
    ensures
        answers(r, gates_refusal(gates)),
{
    if !gates.passed {
        return Err(say_gates_not_passing());
    }
    match &gates.score {
        Some(score) => return Err(say_gates_already_scored(score.debug.as_str())),
        None => {},
    }
    if !gates.metrics.partial_result {
        return Err(say_gates_not_partial());
    }
    if !gates.metrics.error.as_str().is_empty() {
        return Err(say_gates_has_error(gates.metrics.error.as_str()));
    }
    if !gates.metrics.passed_correctness {
        return Err(say_gates_incorrect());
    }
    let hash = gates.metrics.harness_hash.as_str();
    if hash.is_empty() {
        return Err(say_gates_no_harness());
    }
    if !is_well_formed_harness_hash(hash) {
        return Err(say_gates_malformed_harness(hash.len()));
    }
    Ok(())
}

/// How many leading characters of a harness digest a refusal quotes.
pub const HARNESS_DIGEST_PREVIEW_LEN: usize = 12;

/// The leading characters of a digest that a refusal quotes.
pub open spec fn preview(digest: Seq<char>) -> Seq<char> {
    if digest.len() <= HARNESS_DIGEST_PREVIEW_LEN {
        digest
    } else {
        digest.subrange(0, HARNESS_DIGEST_PREVIEW_LEN as int)
    }
}

/// The leading characters of a digest that a refusal quotes: all of it when it is short.
pub fn digest_preview(digest: &str) -> (r: &str)
    ensures
        r@ == preview(digest@),
{
    if digest.unicode_len() <= HARNESS_DIGEST_PREVIEW_LEN {
        digest
    } else {
        digest.substring_char(0, HARNESS_DIGEST_PREVIEW_LEN)
    }
}

/// What the seal objects to in the harness of the gates.
pub open spec fn cross_leg_refusal(gates: &ScorePayload, seal_leg: &HarnessIdentity) -> Option<
    Seq<char>,
> {
    if gates.metrics.harness_hash@ == seal_leg.hash@ {
        None
    } else {
        Some(harness_legs_differ(preview(gates.metrics.harness_hash@), preview(seal_leg.hash@)))
    }
}

/// The harness that the gates were sealed under must be the one resolved at the seal: a harness
/// that changed between the two phases is refused.
pub fn validate_harness_identity_cross_leg(
    gates: &ScorePayload,
    seal_leg: &HarnessIdentity,
) -> (r: Result<(), String>)
    ensures
        answers(r, cross_leg_refusal(gates, seal_leg)),
{
    if same_text(gates.metrics.harness_hash.as_str(), seal_leg.as_str()) {
        return Ok(());
    }
    Err(
        say_harness_legs_differ(
            digest_preview(gates.metrics.harness_hash.as_str()),
            digest_preview(seal_leg.as_str()),
        ),
    )
}

/// The refusal of a seal whose harness could not be identified.
pub fn seal_resolution_refusal(cause: String) -> (r: String)
    ensures
        r@ == seal_unresolved(cause@),
{
    say_seal_unresolved(cause.as_str())
}

/// The harness identity at the seal, from what resolving it gave: a failure is a refusal, never
/// a seal without the check.
pub fn resolve_seal_harness_identity(resolved: Result<HarnessIdentity, String>) -> (r: Result<
    HarnessIdentity,
    String,
>)
    ensures
        match resolved {
            Ok(identity) => r == Ok::<HarnessIdentity, String>(identity),
            Err(cause) => r matches Err(e) && e@ == seal_unresolved(cause@),
        },
{
    match resolved {
        Ok(identity) => Ok(identity),
        Err(cause) => Err(seal_resolution_refusal(cause)),
    }
}

/// What the overlay objects to in the identities of its two inputs.
pub open spec fn identity_refusal(gates: &ScorePayload, results: &ResultsView) -> Option<
    Seq<char>,
> {
    let commit = gates.metrics.commit@;
    let weights = gates.metrics.weights_hash@;
    if commit.len() == 0 || results.commit@.len() == 0 {
        Some(commit_missing(commit, results.commit@))
    } else if commit != results.commit@ {
        Some(commit_differs(commit, results.commit@))
    } else if weights.len() == 0 || results.weights_hash@.len() == 0 {
        Some(weights_missing(weights, results.weights_hash@))
    } else if weights != results.weights_hash@ {
        Some(weights_differ(weights, results.weights_hash@))
    } else {
        None
    }
}

/// The two inputs must be of one run: both name the same commit and the same weights.
pub fn validate_identity(gates: &ScorePayload, results: &ResultsView) -> (r: Result<(), String>)
    ensures
        answers(r, identity_refusal(gates, results)),
{
    let commit = gates.metrics.commit.as_str();
    let weights = gates.metrics.weights_hash.as_str();
    if commit.is_empty() || results.commit.as_str().is_empty() {
        return Err(say_commit_missing(commit, results.commit.as_str()));
    }
    if !same_text(commit, results.commit.as_str()) {
        return Err(say_commit_differs(commit, results.commit.as_str()));
    }
    if weights.is_empty() || results.weights_hash.as_str().is_empty() {
        return Err(say_weights_missing(weights, results.weights_hash.as_str()));
    }
    if !same_text(weights, results.weights_hash.as_str()) {
        return Err(say_weights_differ(weights, results.weights_hash.as_str()));
    }
    Ok(())
}

} // verus!
