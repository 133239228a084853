//! Which commit a score is sealed under.
use crate::official_texts::{
    proposal_disagrees, record_malformed, record_required, record_unreadable,
    say_proposal_disagrees, say_record_malformed, say_record_required, say_record_unreadable,
};
use crate::overlay::view::{want, wanted};
use crate::text::{all_lower_hex, has_prefix, is_lower_hex, same_text, starts_with, trim, trimmed};
use vstd::prelude::*;

verus! {

/// A commit in lowercase hexadecimal, whole or abbreviated.
pub open spec fn is_commit_text(s: Seq<char>) -> bool {
    7 <= s.len() <= 40 && is_lower_hex(s)
}

/// A whole commit in lowercase hexadecimal.
pub open spec fn is_record_text(s: Seq<char>) -> bool {
    s.len() == 40 && is_lower_hex(s)
}

/// Whether the text is a commit of seven to forty lowercase hexadecimal digits.
pub fn is_commit_sha_hex(s: &str) -> (r: bool)
    ensures
        r == is_commit_text(s@),
{
    let n: usize = s.unicode_len();
    7 <= n && n <= 40 && all_lower_hex(s)
}

/// Whether the text is a whole commit of forty lowercase hexadecimal digits.
pub fn is_dispatch_record_sha(s: &str) -> (r: bool)
    ensures
        r == is_record_text(s@),
{
    s.unicode_len() == 40 && all_lower_hex(s)
}

/// Whether a proposed commit is the recorded one, whole or abbreviated.
pub fn commit_agrees_with_record(record: &str, proposed: &str) -> (r: bool)
    ensures
        r == has_prefix(record@, proposed@),
{
    starts_with(record, proposed)
}

/// The commit that a run identifies itself by: the proposed one where it is a commit, the head of
/// the repository otherwise, and nothing where there is no head either.
pub open spec fn identified_commit(proposed: Option<&str>, head: Option<String>) -> Seq<char> {
    if proposed is Some && is_commit_text(trimmed(proposed->0@)) {
        trimmed(proposed->0@)
    } else {
        match head {
            Some(h) => h@,
            None => Seq::empty(),
        }
    }
}

/// The commit that a run identifies itself by. `head` is the abbreviated head of the repository
/// that the run is made in.
pub fn commit_identifier(commit_sha_env: Option<&str>, head: Option<String>) -> (r: String)
    ensures
        r@ == identified_commit(commit_sha_env, head),
{
    match commit_sha_env {
        Some(v) => {
            let t = trim(v);
            if is_commit_sha_hex(t.as_str()) {
                return t;
            }
        },
        None => {},
    }
    match head {
        Some(h) => h,
        None => String::new(),
    }
}

/// The abbreviated head of a repository, from what asking for it gave: the trimmed answer of a
/// command that succeeded, unless that is empty.
pub fn git_short_head(succeeded: bool, answer: &str) -> (r: Option<String>)
    ensures
        match r {
            Some(h) => succeeded && h@ == trimmed(answer@) && h@.len() > 0,
            None => !succeeded || trimmed(answer@).len() == 0,
        },
{
    if succeeded {
        want(Some(answer))
    } else {
        None
    }
}

/// The refusal of a commit that is dispatched under a record.
pub open spec fn record_refusal(record: Seq<char>, proposed: Option<Seq<char>>) -> Option<
    Seq<char>,
> {
    if !is_record_text(record) {
        Some(record_malformed(record))
    } else if proposed is Some && is_commit_text(proposed->0) && !has_prefix(
        record,
        proposed->0,
    ) {
        Some(proposal_disagrees(proposed->0, record))
    } else {
        None
    }
}

/// The commit that a score is sealed under, or the refusal to seal it. A dispatched record is the
/// sole authority: it must be a whole commit, and a proposal that is a commit must abbreviate it.
/// Without a record a scoring run is refused, and any other run identifies itself.
pub fn author_sealed_commit(
    dispatch_record: Option<&str>,
    proposed: Option<&str>,
    scoring_mode: bool,
    head: Option<String>,
) -> (r: Result<String, String>)
    ensures
        match dispatch_record {
            None => if scoring_mode {
                r matches Err(e) && e@ == record_required()
            } else {
                r matches Ok(c) && c@ == identified_commit(proposed, head)
            },
            Some(record) => match record_refusal(trimmed(record@), wanted(proposed)) {
                Some(m) => r matches Err(e) && e@ == m,
                None => r matches Ok(c) && c@ == trimmed(record@),
            },
        },
{
    let record = match dispatch_record {
        Some(record) => trim(record),
        None => {
            if scoring_mode {
                return Err(say_record_required());
            }
            return Ok(commit_identifier(proposed, head));
        },
    };
    if !is_dispatch_record_sha(record.as_str()) {
        return Err(say_record_malformed(record.as_str()));
    }
    match want(proposed) {
        Some(p) => {
            if is_commit_sha_hex(p.as_str()) && !commit_agrees_with_record(
                record.as_str(),
                p.as_str(),
            ) {
                return Err(say_proposal_disagrees(p.as_str(), record.as_str()));
            }
        },
        None => {},
    }
    Ok(record)
}

/// The dispatched record, from the setting that names its file and from what reading that file
/// gave: no setting is no record, and a file that cannot be read is a refusal.
pub fn dispatch_record(
    setting: Option<&str>,
    contents: Result<String, String>,
) -> (r: Result<Option<String>, String>)
    ensures
        match (wanted(setting), contents) {
            (None, _) => r == Ok::<Option<String>, String>(None),
            (Some(_), Ok(text)) => r matches Ok(Some(t)) && t@ == trimmed(text@),
            (Some(_), Err(cause)) => r matches Err(e) && e@ == record_unreadable(
                setting->0@,
                cause@,
            ),
        },
{
    let path = match setting {
        Some(p) => p,
        None => return Ok(None),
    };
    if trim(path).as_str().is_empty() {
        return Ok(None);
    }
    match contents {
        Ok(text) => Ok(Some(trim(text.as_str()))),
        Err(cause) => Err(say_record_unreadable(path, cause.as_str())),
    }
}

/// A scoring run that is sealed is sealed under the whole commit that was dispatched, never under
/// one that the run or its repository chose.
pub proof fn a_scoring_seal_is_the_dispatched_commit(
    record: Seq<char>,
    proposed: Option<Seq<char>>,
)
    requires
        record_refusal(record, proposed) is None,
    ensures
        is_record_text(record),
        is_commit_text(record),
        proposed matches Some(p) ==> is_commit_text(p) ==> has_prefix(record, p),
{
}

/// A commit abbreviates itself, and an abbreviation of the record is never a disagreement.
pub proof fn an_abbreviation_agrees(record: Seq<char>, n: int)
    requires
        is_record_text(record),
        0 <= n <= record.len(),
    ensures
        record_refusal(record, Some(record.subrange(0, n))) is None,
        record_refusal(record, Some(record)) is None,
{
    let p = record.subrange(0, n);
    assert(record.subrange(0, p.len() as int) =~= p);
    assert(record.subrange(0, record.len() as int) =~= record);
}

/// What a run identifies itself by is a commit, or what its repository says, or nothing.
pub proof fn an_identifier_is_proposed_or_the_head(proposed: Option<&str>, head: Option<String>)
    ensures
        ({
            let c = identified_commit(proposed, head);
            ||| is_commit_text(c)
            ||| (head matches Some(h) && c == h@)
            ||| c.len() == 0
        }),
{
}

/// A commit is seven to forty characters and a record exactly forty, each a decimal digit or one of
/// the letters `a` to `f`.
pub proof fn commits_are_lowercase_hex(s: Seq<char>)
    ensures
        is_commit_text(s) <==> 7 <= s.len() <= 40 && forall|i: int|
            0 <= i < s.len() ==> ('0' <= #[trigger] s[i] && s[i] <= '9') || ('a' <= s[i] && s[i]
                <= 'f'),
        is_record_text(s) <==> s.len() == 40 && forall|i: int|
            0 <= i < s.len() ==> ('0' <= #[trigger] s[i] && s[i] <= '9') || ('a' <= s[i] && s[i]
                <= 'f'),
{
}

/// A record is accepted exactly when it is a whole commit and the proposal, where it is a commit at
/// all, agrees with it character by character.
pub proof fn a_record_is_accepted_when_the_proposal_agrees(
    record: Seq<char>,
    proposed: Option<Seq<char>>,
)
    ensures
        record_refusal(record, proposed) is None <==> is_record_text(record) && (proposed matches
            Some(p) ==> is_commit_text(p) ==> forall|i: int|
            0 <= i < p.len() ==> #[trigger] p[i] == record[i]),
{
    match proposed {
        Some(p) => {
            if is_record_text(record) && is_commit_text(p) {
                let head = record.subrange(0, p.len() as int);
                if forall|i: int| 0 <= i < p.len() ==> #[trigger] p[i] == record[i] {
                    assert(head =~= p);
                }
                if head == p {
                    assert forall|i: int| 0 <= i < p.len() implies #[trigger] p[i]
                        == record[i] by {
                        assert(head[i] == record[i]);
                    }
                }
            }
        },
        None => {},
    }
}

/// A run identifies itself by the proposal where that is a commit once it is trimmed, and by the
/// head of its repository only where it is not.
pub proof fn a_proposed_commit_comes_before_the_head(
    proposed: Option<&str>,
    head: Option<String>,
)
    ensures
        proposed is Some && is_commit_text(trimmed(proposed->0@)) ==> identified_commit(
            proposed,
            head,
        ) == trimmed(proposed->0@),
        proposed is None || !is_commit_text(trimmed(proposed->0@)) ==> {
            &&& head is Some ==> identified_commit(proposed, head) == head->0@
            &&& head is None ==> identified_commit(proposed, head).len() == 0
        },
{
}

/// A record that is no whole commit is told by itself, and a proposal that disagrees by both.
pub proof fn a_refused_record_is_told(record: Seq<char>, proposed: Option<Seq<char>>)
    ensures
        !is_record_text(record) ==> record_refusal(record, proposed) == Some(
            record_malformed(record),
        ),
        is_record_text(record) && record_refusal(record, proposed) is Some ==> record_refusal(
            record,
            proposed,
        ) == Some(proposal_disagrees(proposed->0, record)),
{
}

} // verus!
