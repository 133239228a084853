//! The command line of `overlay-timing`.
use crate::args::{asks_help, is_help, opt_text, words};
use crate::text::same_text;
use crate::usage_texts::{
    flag_needs_value, missing_required, say_flag_needs_value, say_missing_required,
    say_unknown_flag, unknown_flag,
};
use vstd::prelude::*;

verus! {

/// What an `overlay-timing` command line asks for.
#[derive(Debug)]
pub struct OverlayTimingArgs {
    pub gates_score: String,
    pub results: String,
    pub score_path: String,
    pub integrity: Option<String>,
    pub contract: Option<String>,
}

/// [`OverlayTimingArgs`] by its texts.
pub struct OverlayArgsView {
    pub gates_score: Seq<char>,
    pub results: Seq<char>,
    pub score_path: Seq<char>,
    pub integrity: Option<Seq<char>>,
    pub contract: Option<Seq<char>>,
}

impl View for OverlayTimingArgs {
    type V = OverlayArgsView;

    open spec fn view(&self) -> OverlayArgsView {
        OverlayArgsView {
            gates_score: self.gates_score@,
            results: self.results@,
            score_path: self.score_path@,
            integrity: opt_text(self.integrity),
            contract: opt_text(self.contract),
        }
    }
}

/// The flags read so far.
struct Flags {
    gates_score: Option<String>,
    results: Option<String>,
    score_path: Option<String>,
    integrity: Option<String>,
    contract: Option<String>,
}

/// The flags of a command line: each holds the last value it was given.
pub struct OverlayFlags {
    pub gates_score: Option<Seq<char>>,
    pub results: Option<Seq<char>>,
    pub score_path: Option<Seq<char>>,
    pub integrity: Option<Seq<char>>,
    pub contract: Option<Seq<char>>,
}

impl View for Flags {
    type V = OverlayFlags;

    closed spec fn view(&self) -> OverlayFlags {
        OverlayFlags {
            gates_score: opt_text(self.gates_score),
            results: opt_text(self.results),
            score_path: opt_text(self.score_path),
            integrity: opt_text(self.integrity),
            contract: opt_text(self.contract),
        }
    }
}

/// A flag of the subcommand. Each takes a value.
pub open spec fn is_overlay_flag(a: Seq<char>) -> bool {
    ||| a == "--gates-score"@
    ||| a == "--results"@
    ||| a == "--score-path"@
    ||| a == "--integrity"@
    ||| a == "--contract"@
}

/// The flags after one more.
pub open spec fn with_overlay_flag(f: OverlayFlags, a: Seq<char>, v: Seq<char>) -> OverlayFlags {
    if a == "--gates-score"@ {
        OverlayFlags { gates_score: Some(v), ..f }
    } else if a == "--results"@ {
        OverlayFlags { results: Some(v), ..f }
    } else if a == "--score-path"@ {
        OverlayFlags { score_path: Some(v), ..f }
    } else if a == "--integrity"@ {
        OverlayFlags { integrity: Some(v), ..f }
    } else {
        OverlayFlags { contract: Some(v), ..f }
    }
}

/// The flags of the command line from its word `i` on: none when help is asked for before anything
/// is refused.
pub open spec fn overlay_scan(args: Seq<Seq<char>>, i: int, f: OverlayFlags) -> Result<
    Option<OverlayFlags>,
    Seq<char>,
>
    decreases args.len() - i,
{
    if i >= args.len() {
        Ok(Some(f))
    } else if is_help(args[i]) {
        Ok(None)
    } else if is_overlay_flag(args[i]) {
        if i + 1 >= args.len() {
            Err(flag_needs_value(args[i]))
        } else {
            overlay_scan(args, i + 2, with_overlay_flag(f, args[i], args[i + 1]))
        }
    } else {
        Err(unknown_flag(args[i]))
    }
}

/// What a command line asks for.
pub open spec fn overlay_request(args: Seq<Seq<char>>) -> Result<
    Option<OverlayArgsView>,
    Seq<char>,
> {
    let start = OverlayFlags {
        gates_score: None,
        results: None,
        score_path: None,
        integrity: None,
        contract: None,
    };
    match overlay_scan(args, 0, start) {
        Err(m) => Err(m),
        Ok(None) => Ok(None),
        Ok(Some(f)) => if f.gates_score is None {
            Err(missing_required("--gates-score"@))
        } else if f.results is None {
            Err(missing_required("--results"@))
        } else if f.score_path is None {
            Err(missing_required("--score-path"@))
        } else {
            Ok(
                Some(
                    OverlayArgsView {
                        gates_score: f.gates_score->0,
                        results: f.results->0,
                        score_path: f.score_path->0,
                        integrity: f.integrity,
                        contract: f.contract,
                    },
                ),
            )
        },
    }
}

fn overlay_flag(a: &str) -> (r: bool)
    ensures
        r == is_overlay_flag(a@),
{
    same_text(a, "--gates-score") || same_text(a, "--results") || same_text(a, "--score-path")
        || same_text(a, "--integrity") || same_text(a, "--contract")
}

fn set_flag(f: Flags, a: &str, v: &str) -> (r: Flags)
    ensures
        r@ == with_overlay_flag(f@, a@, v@),
{
    let mut g = f;
    let v = v.to_owned();
    if same_text(a, "--gates-score") {
        g.gates_score = Some(v);
    } else if same_text(a, "--results") {
        g.results = Some(v);
    } else if same_text(a, "--score-path") {
        g.score_path = Some(v);
    } else if same_text(a, "--integrity") {
        g.integrity = Some(v);
    } else {
        g.contract = Some(v);
    }
    g
}

/// Reads an `overlay-timing` command line. Nothing is returned when help is asked for.
pub fn parse_overlay_timing_args(args: &Vec<String>) -> (r: Result<
    Option<OverlayTimingArgs>,
    String,
>)
    ensures
        match overlay_request(words(args@)) {
            Ok(None) => r == Ok::<Option<OverlayTimingArgs>, String>(None),
            Ok(Some(a)) => r matches Ok(Some(x)) && x@ == a,
            Err(m) => r matches Err(e) && e@ == m,
        },
{
    let mut f = Flags {
        gates_score: None,
        results: None,
        score_path: None,
        integrity: None,
        contract: None,
    };
    let ghost ws = words(args@);
    let ghost start = f@;
    let mut i: usize = 0;
    while i < args.len()
        invariant
            ws == words(args@),
            i <= args.len(),
            overlay_scan(ws, 0, start) == overlay_scan(ws, i as int, f@),
            start == (OverlayFlags {
                gates_score: None,
                results: None,
                score_path: None,
                integrity: None,
                contract: None,
            }),
        decreases args.len() - i,
    {
        let a = args[i].as_str();
        assert(a@ == ws[i as int]);
        if asks_help(a) {
            return Ok(None);
        }
        if !overlay_flag(a) {
            return Err(say_unknown_flag(a));
        }
        if i + 1 >= args.len() {
            return Err(say_flag_needs_value(a));
        }
        let v = args[i + 1].as_str();
        assert(v@ == ws[i + 1]);
        f = set_flag(f, a, v);
        i = i + 2;
    }
    let gates_score = match f.gates_score {
        Some(v) => v,
        None => return Err(say_missing_required("--gates-score")),
    };
    let results = match f.results {
        Some(v) => v,
        None => return Err(say_missing_required("--results")),
    };
    let score_path = match f.score_path {
        Some(v) => v,
        None => return Err(say_missing_required("--score-path")),
    };
    Ok(
        Some(
            OverlayTimingArgs {
                gates_score,
                results,
                score_path,
                integrity: f.integrity,
                contract: f.contract,
            },
        ),
    )
}

/// What tells the words of a command line apart.
proof fn lemma_flag_names()
    ensures
        "--gates-score"@.len() == 13,
        "--results"@.len() == 9,
        "--score-path"@.len() == 12,
        "--integrity"@.len() == 11,
        "--contract"@.len() == 10,
        "--help"@.len() == 6,
        "-h"@.len() == 2,
{
    reveal_strlit("--gates-score");
    reveal_strlit("--results");
    reveal_strlit("--score-path");
    reveal_strlit("--integrity");
    reveal_strlit("--contract");
    reveal_strlit("--help");
    reveal_strlit("-h");
}

proof fn lemma_scan_goes_on(
    line: Seq<Seq<char>>,
    more: Seq<Seq<char>>,
    i: int,
    f: OverlayFlags,
)
    requires
        0 <= i <= line.len(),
        overlay_scan(line, i, f) matches Ok(Some(_)),
    ensures
        overlay_scan(line + more, i, f) == overlay_scan(
            line + more,
            line.len() as int,
            overlay_scan(line, i, f)->Ok_0->0,
        ),
    decreases line.len() - i,
{
    let whole = line + more;
    if i < line.len() {
        assert(whole[i] == line[i]);
        assert(whole[i + 1] == line[i + 1]);
        lemma_scan_goes_on(line, more, i + 2, with_overlay_flag(f, line[i], line[i + 1]));
    }
}

/// The flags of a command line that is read to its end.
pub open spec fn flags_given(line: Seq<Seq<char>>) -> Option<OverlayFlags> {
    match overlay_scan(
        line,
        0,
        OverlayFlags {
            gates_score: None,
            results: None,
            score_path: None,
            integrity: None,
            contract: None,
        },
    ) {
        Ok(Some(f)) => Some(f),
        _ => None,
    }
}

/// An empty command line gives no flag. Each of the five flags, with a value at the end of a
/// command line that is read, sets its own and leaves the others.
pub proof fn a_flag_sets_its_own_value(line: Seq<Seq<char>>, flag: Seq<char>, v: Seq<char>)
    requires
        flags_given(line) is Some,
        flag == "--gates-score"@ || flag == "--results"@ || flag == "--score-path"@ || flag
            == "--integrity"@ || flag == "--contract"@,
    ensures
        flags_given(Seq::empty()) matches Some(n) && n.gates_score is None && n.results is None
            && n.score_path is None && n.integrity is None && n.contract is None,
        flags_given(line + seq![flag, v]) is Some,
        ({
            let f = flags_given(line)->0;
            let g = flags_given(line + seq![flag, v])->0;
            &&& g.gates_score == if flag == "--gates-score"@ { Some(v) } else { f.gates_score }
            &&& g.results == if flag == "--results"@ { Some(v) } else { f.results }
            &&& g.score_path == if flag == "--score-path"@ { Some(v) } else { f.score_path }
            &&& g.integrity == if flag == "--integrity"@ { Some(v) } else { f.integrity }
            &&& g.contract == if flag == "--contract"@ { Some(v) } else { f.contract }
        }),
{
    lemma_flag_names();
    let start = OverlayFlags {
        gates_score: None,
        results: None,
        score_path: None,
        integrity: None,
        contract: None,
    };
    let more = seq![flag, v];
    let whole = line + more;
    lemma_scan_goes_on(line, more, 0, start);
    let n = line.len() as int;
    assert(whole[n] == flag);
    assert(whole[n + 1] == v);
    let g = with_overlay_flag(flags_given(line)->0, flag, v);
    assert(overlay_scan(whole, n + 2, g) == Ok::<Option<OverlayFlags>, Seq<char>>(Some(g)));
    assert(overlay_scan(Seq::empty(), 0, start) == Ok::<Option<OverlayFlags>, Seq<char>>(
        Some(start),
    ));
}

/// A command line asks for a merge exactly when it is read to its end and names the gates, the
/// results and the score; what it asks for is what its flags hold, each under its own name.
pub proof fn a_merge_is_asked_for_by_three_flags(line: Seq<Seq<char>>, run: OverlayTimingArgs)
    ensures
        (overlay_request(line) matches Ok(Some(_))) <==> (flags_given(line) matches Some(f)
            && f.gates_score is Some && f.results is Some && f.score_path is Some),
        overlay_request(line) == Ok::<Option<OverlayArgsView>, Seq<char>>(Some(run@)) ==> {
            let f = flags_given(line)->0;
            &&& f.gates_score == Some(run.gates_score@)
            &&& f.results == Some(run.results@)
            &&& f.score_path == Some(run.score_path@)
            &&& f.integrity is Some <==> run.integrity is Some
            &&& run.integrity matches Some(t) ==> f.integrity == Some(t@)
            &&& f.contract is Some <==> run.contract is Some
            &&& run.contract matches Some(t) ==> f.contract == Some(t@)
        },
{
}

/// A command line that is read so far answers help when it is asked for next, and is refused when
/// its next word is no flag or a flag without a value, whatever would follow that word.
pub proof fn a_word_that_is_no_flag_ends_the_line(
    line: Seq<Seq<char>>,
    word: Seq<char>,
    rest: Seq<Seq<char>>,
)
    requires
        flags_given(line) is Some,
    ensures
        word == "-h"@ || word == "--help"@ ==> overlay_request(line + (seq![word] + rest)) == Ok::<
            Option<OverlayArgsView>,
            Seq<char>,
        >(None),
        word != "-h"@ && word != "--help"@ && word != "--gates-score"@ && word != "--results"@
            && word != "--score-path"@ && word != "--integrity"@ && word != "--contract"@
            ==> overlay_request(line + (seq![word] + rest)) is Err,
        word != "-h"@ && word != "--help"@ ==> overlay_request(line + seq![word]) is Err,
{
    lemma_flag_names();
    let start = OverlayFlags {
        gates_score: None,
        results: None,
        score_path: None,
        integrity: None,
        contract: None,
    };
    lemma_scan_goes_on(line, seq![word] + rest, 0, start);
    lemma_scan_goes_on(line, seq![word], 0, start);
    assert((line + (seq![word] + rest))[line.len() as int] == word);
    assert((line + seq![word])[line.len() as int] == word);
}

/// A command line that asks for no merge is told by the first flag that is missing; a word that is
/// no flag and a flag without a value are named.
pub proof fn what_is_missing_is_named(line: Seq<Seq<char>>, word: Seq<char>)
    requires
        flags_given(line) is Some,
    ensures
        ({
            let f = flags_given(line)->0;
            let r = overlay_request(line);
            let alone = overlay_request(line + seq![word]);
            &&& f.gates_score is None ==> r == Err::<Option<OverlayArgsView>, Seq<char>>(
                missing_required("--gates-score"@),
            )
            &&& f.gates_score is Some && f.results is None ==> r == Err::<
                Option<OverlayArgsView>,
                Seq<char>,
            >(missing_required("--results"@))
            &&& f.gates_score is Some && f.results is Some && f.score_path is None ==> r == Err::<
                Option<OverlayArgsView>,
                Seq<char>,
            >(missing_required("--score-path"@))
            &&& word == "--gates-score"@ || word == "--results"@ || word == "--score-path"@ || word
                == "--integrity"@ || word == "--contract"@ ==> alone == Err::<
                Option<OverlayArgsView>,
                Seq<char>,
            >(flag_needs_value(word))
            &&& word != "-h"@ && word != "--help"@ && word != "--gates-score"@ && word
                != "--results"@ && word != "--score-path"@ && word != "--integrity"@ && word
                != "--contract"@ ==> alone == Err::<Option<OverlayArgsView>, Seq<char>>(
                unknown_flag(word),
            )
        }),
{
    lemma_flag_names();
    let start = OverlayFlags {
        gates_score: None,
        results: None,
        score_path: None,
        integrity: None,
        contract: None,
    };
    lemma_scan_goes_on(line, seq![word], 0, start);
    assert((line + seq![word])[line.len() as int] == word);
}

} // verus!
