//! The command line of `iterate`.
use crate::args::{
    asks_help, is_help, mode_named, only_their_names_stand_for_modes, opt_text, parse_golden_pin,
    pin_of, pin_view, words, GoldenIntegrityPin, Mode, PinView,
};
use crate::number::Number;
use crate::text::same_text;
use crate::usage_texts::{
    baseline_flags_half_set, cool_gate_conflict, flag_needs_value, invalid_mode, invalid_number,
    missing_required, no_cool_gate_conflict, say_baseline_flags_half_set, say_cool_gate_conflict,
    say_flag_needs_value, say_invalid_mode, say_invalid_number, say_missing_required,
    say_no_cool_gate_conflict, say_unknown_flag, unknown_flag,
};
use vstd::prelude::*;

verus! {

/// What an `iterate` command line asks for.
#[derive(Debug)]
pub struct IterateArgs {
    pub engine: String,
    pub weights: String,
    pub golden: String,
    pub golden_pin: Option<GoldenIntegrityPin>,
    pub baseline_prefill_spt: Option<Number>,
    pub baseline_decode_spt: Option<Number>,
    pub mode: Mode,
    pub score_path: String,
    /// Forces the cool gate on or off; the mode decides where nothing is said.
    pub cool_gate: Option<bool>,
    /// Also evaluates the gates that a local run leaves out.
    pub strict: bool,
}

/// [`IterateArgs`] by its texts.
pub struct IterateArgsView {
    pub engine: Seq<char>,
    pub weights: Seq<char>,
    pub golden: Seq<char>,
    pub golden_pin: Option<PinView>,
    pub baseline_prefill_spt: Option<Number>,
    pub baseline_decode_spt: Option<Number>,
    pub mode: Mode,
    pub score_path: Seq<char>,
    pub cool_gate: Option<bool>,
    pub strict: bool,
}

impl View for IterateArgs {
    type V = IterateArgsView;

    open spec fn view(&self) -> IterateArgsView {
        IterateArgsView {
            engine: self.engine@,
            weights: self.weights@,
            golden: self.golden@,
            golden_pin: pin_view(self.golden_pin),
            baseline_prefill_spt: self.baseline_prefill_spt,
            baseline_decode_spt: self.baseline_decode_spt,
            mode: self.mode,
            score_path: self.score_path@,
            cool_gate: self.cool_gate,
            strict: self.strict,
        }
    }
}

/// The flags read so far.
struct Flags {
    engine: Option<String>,
    weights: Option<String>,
    golden: Option<String>,
    prefill: Option<Number>,
    decode: Option<Number>,
    mode: Mode,
    score_path: Option<String>,
    sha256: Option<String>,
    bytes: Option<String>,
    cool_gate: Option<bool>,
    strict: bool,
}

/// The flags of a command line: each holds the last value it was given.
pub struct IterateFlags {
    pub engine: Option<Seq<char>>,
    pub weights: Option<Seq<char>>,
    pub golden: Option<Seq<char>>,
    pub prefill: Option<Number>,
    pub decode: Option<Number>,
    pub mode: Mode,
    pub score_path: Option<Seq<char>>,
    pub sha256: Option<Seq<char>>,
    pub bytes: Option<Seq<char>>,
    pub cool_gate: Option<bool>,
    pub strict: bool,
}

impl View for Flags {
    type V = IterateFlags;

    closed spec fn view(&self) -> IterateFlags {
        IterateFlags {
            engine: opt_text(self.engine),
            weights: opt_text(self.weights),
            golden: opt_text(self.golden),
            prefill: self.prefill,
            decode: self.decode,
            mode: self.mode,
            score_path: opt_text(self.score_path),
            sha256: opt_text(self.sha256),
            bytes: opt_text(self.bytes),
            cool_gate: self.cool_gate,
            strict: self.strict,
        }
    }
}

/// A command line without flags.
pub open spec fn no_iterate_flags() -> IterateFlags {
    IterateFlags {
        engine: None,
        weights: None,
        golden: None,
        prefill: None,
        decode: None,
        mode: Mode::LocalIterate,
        score_path: None,
        sha256: None,
        bytes: None,
        cool_gate: None,
        strict: false,
    }
}

/// A flag that takes a value.
pub open spec fn takes_value(a: Seq<char>) -> bool {
    ||| a == "--engine"@
    ||| a == "--weights"@
    ||| a == "--golden"@
    ||| a == "--baseline-prefill-spt"@
    ||| a == "--baseline-decode-spt"@
    ||| a == "--mode"@
    ||| a == "--score-path"@
    ||| a == "--golden-sha256"@
    ||| a == "--golden-bytes"@
}

/// The flags after one that takes a value. `reading` is the number that the value reads as.
pub open spec fn with_value(
    f: IterateFlags,
    a: Seq<char>,
    v: Seq<char>,
    reading: Option<Number>,
) -> Result<IterateFlags, Seq<char>> {
    if a == "--engine"@ {
        Ok(IterateFlags { engine: Some(v), ..f })
    } else if a == "--weights"@ {
        Ok(IterateFlags { weights: Some(v), ..f })
    } else if a == "--golden"@ {
        Ok(IterateFlags { golden: Some(v), ..f })
    } else if a == "--baseline-prefill-spt"@ {
        match reading {
            Some(_) => Ok(IterateFlags { prefill: reading, ..f }),
            None => Err(invalid_number("--baseline-prefill-spt"@, v)),
        }
    } else if a == "--baseline-decode-spt"@ {
        match reading {
            Some(_) => Ok(IterateFlags { decode: reading, ..f }),
            None => Err(invalid_number("--baseline-decode-spt"@, v)),
        }
    } else if a == "--mode"@ {
        match mode_named(v) {
            Some(mode) => Ok(IterateFlags { mode, ..f }),
            None => Err(invalid_mode(v)),
        }
    } else if a == "--score-path"@ {
        Ok(IterateFlags { score_path: Some(v), ..f })
    } else if a == "--golden-sha256"@ {
        Ok(IterateFlags { sha256: Some(v), ..f })
    } else {
        Ok(IterateFlags { bytes: Some(v), ..f })
    }
}

/// The flags after one that takes no value.
pub open spec fn with_switch(f: IterateFlags, a: Seq<char>) -> Result<IterateFlags, Seq<char>> {
    if a == "--cool-gate"@ {
        if f.cool_gate == Some(false) {
            Err(cool_gate_conflict())
        } else {
            Ok(IterateFlags { cool_gate: Some(true), ..f })
        }
    } else if a == "--no-cool-gate"@ {
        if f.cool_gate == Some(true) {
            Err(no_cool_gate_conflict())
        } else {
            Ok(IterateFlags { cool_gate: Some(false), ..f })
        }
    } else if a == "--strict"@ {
        Ok(IterateFlags { strict: true, ..f })
    } else {
        Err(unknown_flag(a))
    }
}

/// The flags of the command line from its word `i` on: none when help is asked for before anything
/// is refused.
pub open spec fn scan(
    args: Seq<Seq<char>>,
    readings: Seq<Option<Number>>,
    i: int,
    f: IterateFlags,
) -> Result<Option<IterateFlags>, Seq<char>>
    decreases args.len() - i,
{
    if i >= args.len() {
        Ok(Some(f))
    } else if is_help(args[i]) {
        Ok(None)
    } else if takes_value(args[i]) {
        if i + 1 >= args.len() {
            Err(flag_needs_value(args[i]))
        } else {
            match with_value(f, args[i], args[i + 1], readings[i + 1]) {
                Ok(g) => scan(args, readings, i + 2, g),
                Err(m) => Err(m),
            }
        }
    } else {
        match with_switch(f, args[i]) {
            Ok(g) => scan(args, readings, i + 1, g),
            Err(m) => Err(m),
        }
    }
}

/// The score path of a mode when none is given.
pub open spec fn default_score_path(mode: Mode) -> Seq<char> {
    match mode {
        Mode::LocalIterate => "score.local-iterate.json"@,
        _ => "score.json"@,
    }
}

/// What the flags of a whole command line ask for.
pub open spec fn resolve(f: IterateFlags) -> Result<IterateArgsView, Seq<char>> {
    if f.prefill is Some != f.decode is Some {
        Err(baseline_flags_half_set())
    } else if f.engine is None {
        Err(missing_required("--engine"@))
    } else if f.weights is None {
        Err(missing_required("--weights"@))
    } else if f.golden is None {
        Err(missing_required("--golden"@))
    } else {
        match pin_of(f.sha256, f.bytes) {
            Err(m) => Err(m),
            Ok(pin) => Ok(
                IterateArgsView {
                    engine: f.engine->0,
                    weights: f.weights->0,
                    golden: f.golden->0,
                    golden_pin: pin,
                    baseline_prefill_spt: f.prefill,
                    baseline_decode_spt: f.decode,
                    mode: f.mode,
                    score_path: match f.score_path {
                        Some(p) => p,
                        None => default_score_path(f.mode),
                    },
                    cool_gate: f.cool_gate,
                    strict: f.strict,
                },
            ),
        }
    }
}

/// What a command line asks for.
pub open spec fn iterate_request(args: Seq<Seq<char>>, readings: Seq<Option<Number>>) -> Result<
    Option<IterateArgsView>,
    Seq<char>,
> {
    match scan(args, readings, 0, no_iterate_flags()) {
        Err(m) => Err(m),
        Ok(None) => Ok(None),
        Ok(Some(f)) => match resolve(f) {
            Err(m) => Err(m),
            Ok(a) => Ok(Some(a)),
        },
    }
}

fn value_flag(a: &str) -> (r: bool)
    ensures
        r == takes_value(a@),
{
    same_text(a, "--engine") || same_text(a, "--weights") || same_text(a, "--golden")
        || same_text(a, "--baseline-prefill-spt") || same_text(a, "--baseline-decode-spt")
        || same_text(a, "--mode") || same_text(a, "--score-path") || same_text(
        a,
        "--golden-sha256",
    ) || same_text(a, "--golden-bytes")
}

fn set_value(f: Flags, a: &str, v: &str, reading: &Option<Number>) -> (r: Result<Flags, String>)
    ensures
        match with_value(f@, a@, v@, *reading) {
            Ok(g) => r matches Ok(x) && x@ == g,
            Err(m) => r matches Err(e) && e@ == m,
        },
{
    let mut g = f;
    if same_text(a, "--engine") {
        g.engine = Some(v.to_owned());
    } else if same_text(a, "--weights") {
        g.weights = Some(v.to_owned());
    } else if same_text(a, "--golden") {
        g.golden = Some(v.to_owned());
    } else if same_text(a, "--baseline-prefill-spt") {
        match reading {
            Some(n) => {
                g.prefill = Some(n.duplicate());
            },
            None => return Err(say_invalid_number("--baseline-prefill-spt", v)),
        }
    } else if same_text(a, "--baseline-decode-spt") {
        match reading {
            Some(n) => {
                g.decode = Some(n.duplicate());
            },
            None => return Err(say_invalid_number("--baseline-decode-spt", v)),
        }
    } else if same_text(a, "--mode") {
        match Mode::parse(v) {
            Some(mode) => {
                g.mode = mode;
            },
            None => return Err(say_invalid_mode(v)),
        }
    } else if same_text(a, "--score-path") {
        g.score_path = Some(v.to_owned());
    } else if same_text(a, "--golden-sha256") {
        g.sha256 = Some(v.to_owned());
    } else {
        g.bytes = Some(v.to_owned());
    }
    Ok(g)
}

fn set_switch(f: Flags, a: &str) -> (r: Result<Flags, String>)
    ensures
        match with_switch(f@, a@) {
            Ok(g) => r matches Ok(x) && x@ == g,
            Err(m) => r matches Err(e) && e@ == m,
        },
{
    let mut g = f;
    if same_text(a, "--cool-gate") {
        match g.cool_gate {
            Some(false) => return Err(say_cool_gate_conflict()),
            _ => {},
        }
        g.cool_gate = Some(true);
    } else if same_text(a, "--no-cool-gate") {
        match g.cool_gate {
            Some(true) => return Err(say_no_cool_gate_conflict()),
            _ => {},
        }
        g.cool_gate = Some(false);
    } else if same_text(a, "--strict") {
        g.strict = true;
    } else {
        return Err(say_unknown_flag(a));
    }
    Ok(g)
}

fn resolve_flags(f: Flags) -> (r: Result<IterateArgs, String>)
    ensures
        match resolve(f@) {
            Ok(a) => r matches Ok(x) && x@ == a,
            Err(m) => r matches Err(e) && e@ == m,
        },
{
    if f.prefill.is_some() != f.decode.is_some() {
        return Err(say_baseline_flags_half_set());
    }
    let engine = match f.engine {
        Some(v) => v,
        None => return Err(say_missing_required("--engine")),
    };
    let weights = match f.weights {
        Some(v) => v,
        None => return Err(say_missing_required("--weights")),
    };
    let golden = match f.golden {
        Some(v) => v,
        None => return Err(say_missing_required("--golden")),
    };
    let golden_pin = match parse_golden_pin(f.sha256, f.bytes) {
        Ok(pin) => pin,
        Err(e) => return Err(e),
    };
    let score_path = match f.score_path {
        Some(v) => v,
        None => match f.mode {
            Mode::LocalIterate => "score.local-iterate.json".to_owned(),
            _ => "score.json".to_owned(),
        },
    };
    Ok(
        IterateArgs {
            engine,
            weights,
            golden,
            golden_pin,
            baseline_prefill_spt: f.prefill,
            baseline_decode_spt: f.decode,
            mode: f.mode,
            score_path,
            cool_gate: f.cool_gate,
            strict: f.strict,
        },
    )
}

/// Reads an `iterate` command line. Nothing is returned when help is asked for. `readings` holds,
/// for each word, the number it reads as.
pub fn parse_iterate_args(args: &Vec<String>, readings: &Vec<Option<Number>>) -> (r: Result<
    Option<IterateArgs>,
    String,
>)
    requires
        readings@.len() == args@.len(),
    ensures
        match iterate_request(words(args@), readings@) {
            Ok(None) => r == Ok::<Option<IterateArgs>, String>(None),
            Ok(Some(a)) => r matches Ok(Some(x)) && x@ == a,
            Err(m) => r matches Err(e) && e@ == m,
        },
{
    let mut f = Flags {
        engine: None,
        weights: None,
        golden: None,
        prefill: None,
        decode: None,
        mode: Mode::LocalIterate,
        score_path: None,
        sha256: None,
        bytes: None,
        cool_gate: None,
        strict: false,
    };
    let ghost ws = words(args@);
    let mut i: usize = 0;
    while i < args.len()
        invariant
            ws == words(args@),
            readings@.len() == args@.len(),
            i <= args.len(),
            scan(ws, readings@, 0, no_iterate_flags()) == scan(ws, readings@, i as int, f@),
        decreases args.len() - i,
    {
        let a = args[i].as_str();
        assert(a@ == ws[i as int]);
        if asks_help(a) {
            return Ok(None);
        }
        if value_flag(a) {
            if i + 1 >= args.len() {
                return Err(say_flag_needs_value(a));
            }
            let v = args[i + 1].as_str();
            assert(v@ == ws[i + 1]);
            f = match set_value(f, a, v, &readings[i + 1]) {
                Ok(g) => g,
                Err(e) => return Err(e),
            };
            i = i + 2;
        } else {
            f = match set_switch(f, a) {
                Ok(g) => g,
                Err(e) => return Err(e),
            };
            i = i + 1;
        }
    }
    match resolve_flags(f) {
        Ok(a) => Ok(Some(a)),
        Err(e) => Err(e),
    }
}

/// The baseline flags of an accepted command line are given together or not at all.
pub proof fn accepted_baseline_flags_are_a_pair(
    args: Seq<Seq<char>>,
    readings: Seq<Option<Number>>,
)
    requires
        iterate_request(args, readings) matches Ok(Some(_)),
    ensures
        ({
            let a = iterate_request(args, readings)->Ok_0->0;
            a.baseline_prefill_spt is Some <==> a.baseline_decode_spt is Some
        }),
{
}

/// The cool gate is never asked for in both ways: what was asked for stays as it is up to the end
/// of a command line that is accepted.
pub proof fn a_cool_gate_choice_is_kept(
    args: Seq<Seq<char>>,
    readings: Seq<Option<Number>>,
    i: int,
    f: IterateFlags,
)
    requires
        f.cool_gate is Some,
        scan(args, readings, i, f) matches Ok(Some(_)),
    ensures
        scan(args, readings, i, f)->Ok_0->0.cool_gate == f.cool_gate,
    decreases args.len() - i,
{
    if i < args.len() && !is_help(args[i]) {
        if takes_value(args[i]) {
            if i + 1 < args.len() {
                match with_value(f, args[i], args[i + 1], readings[i + 1]) {
                    Ok(g) => a_cool_gate_choice_is_kept(args, readings, i + 2, g),
                    Err(_) => {},
                }
            }
        } else {
            match with_switch(f, args[i]) {
                Ok(g) => a_cool_gate_choice_is_kept(args, readings, i + 1, g),
                Err(_) => {},
            }
        }
    }
}

/// What tells the words of a command line apart.
proof fn lemma_flag_names()
    ensures
        "--engine"@.len() == 8,
        "--weights"@.len() == 9,
        "--golden"@.len() == 8,
        "--baseline-prefill-spt"@.len() == 22,
        "--baseline-decode-spt"@.len() == 21,
        "--mode"@.len() == 6,
        "--score-path"@.len() == 12,
        "--golden-sha256"@.len() == 15,
        "--golden-bytes"@.len() == 14,
        "--cool-gate"@.len() == 11,
        "--no-cool-gate"@.len() == 14,
        "--strict"@.len() == 8,
        "--help"@.len() == 6,
        "-h"@.len() == 2,
        "--engine"@ != "--golden"@,
        "--engine"@ != "--strict"@,
        "--golden"@ != "--strict"@,
        "--mode"@ != "--help"@,
        "--golden-bytes"@ != "--no-cool-gate"@,
{
    reveal_strlit("--engine");
    reveal_strlit("--weights");
    reveal_strlit("--golden");
    reveal_strlit("--baseline-prefill-spt");
    reveal_strlit("--baseline-decode-spt");
    reveal_strlit("--mode");
    reveal_strlit("--score-path");
    reveal_strlit("--golden-sha256");
    reveal_strlit("--golden-bytes");
    reveal_strlit("--cool-gate");
    reveal_strlit("--no-cool-gate");
    reveal_strlit("--strict");
    reveal_strlit("--help");
    reveal_strlit("-h");
    assert("--engine"@[2] != "--golden"@[2]);
    assert("--engine"@[2] != "--strict"@[2]);
    assert("--golden"@[2] != "--strict"@[2]);
    assert("--mode"@[2] != "--help"@[2]);
    assert("--golden-bytes"@[2] != "--no-cool-gate"@[2]);
}

proof fn lemma_scan_goes_on(
    line: Seq<Seq<char>>,
    readings: Seq<Option<Number>>,
    more: Seq<Seq<char>>,
    more_readings: Seq<Option<Number>>,
    i: int,
    f: IterateFlags,
)
    requires
        0 <= i <= line.len(),
        readings.len() == line.len(),
        scan(line, readings, i, f) matches Ok(Some(_)),
    ensures
        scan(line + more, readings + more_readings, i, f) == scan(
            line + more,
            readings + more_readings,
            line.len() as int,
            scan(line, readings, i, f)->Ok_0->0,
        ),
    decreases line.len() - i,
{
    let whole = line + more;
    let read = readings + more_readings;
    if i < line.len() {
        assert(whole[i] == line[i]);
        if takes_value(line[i]) {
            assert(whole[i + 1] == line[i + 1]);
            assert(read[i + 1] == readings[i + 1]);
            match with_value(f, line[i], line[i + 1], readings[i + 1]) {
                Ok(g) => lemma_scan_goes_on(line, readings, more, more_readings, i + 2, g),
                Err(_) => {},
            }
        } else {
            match with_switch(f, line[i]) {
                Ok(g) => lemma_scan_goes_on(line, readings, more, more_readings, i + 1, g),
                Err(_) => {},
            }
        }
    }
}

/// The flags of a command line that is read to its end.
pub open spec fn flags_given(line: Seq<Seq<char>>, readings: Seq<Option<Number>>) -> Option<
    IterateFlags,
> {
    match scan(
        line,
        readings,
        0,
        IterateFlags {
            engine: None,
            weights: None,
            golden: None,
            prefill: None,
            decode: None,
            mode: Mode::LocalIterate,
            score_path: None,
            sha256: None,
            bytes: None,
            cool_gate: None,
            strict: false,
        },
    ) {
        Ok(Some(f)) => Some(f),
        _ => None,
    }
}

/// A word that a value follows.
pub open spec fn asks_for_a_value(flag: Seq<char>) -> bool {
    flag == "--engine"@ || flag == "--weights"@ || flag == "--golden"@ || flag
        == "--baseline-prefill-spt"@ || flag == "--baseline-decode-spt"@ || flag == "--mode"@
        || flag == "--score-path"@ || flag == "--golden-sha256"@ || flag == "--golden-bytes"@
}

/// An empty command line asks for a local iteration and for nothing else. Each flag, with a value
/// at the end of a command line that is read, sets its own and leaves the others; a baseline needs
/// a number and a mode needs a name of one.
pub proof fn a_flag_sets_its_own_value(
    line: Seq<Seq<char>>,
    readings: Seq<Option<Number>>,
    flag: Seq<char>,
    v: Seq<char>,
    of_flag: Option<Number>,
    of_value: Option<Number>,
)
    requires
        readings.len() == line.len(),
        flags_given(line, readings) is Some,
        asks_for_a_value(flag),
    ensures
        flags_given(Seq::empty(), Seq::empty()) matches Some(n) && n.engine is None && n.weights
            is None && n.golden is None && n.prefill is None && n.decode is None && n.mode
            is LocalIterate && n.score_path is None && n.sha256 is None && n.bytes is None
            && n.cool_gate is None && !n.strict,
        ({
            let f = flags_given(line, readings)->0;
            let r = flags_given(line + seq![flag, v], readings + seq![of_flag, of_value]);
            let baseline = flag == "--baseline-prefill-spt"@ || flag == "--baseline-decode-spt"@;
            let mode = flag == "--mode"@;
            &&& r is Some <==> (baseline ==> of_value is Some) && (mode ==> v == "local-iterate"@
                || v == "local-submit"@ || v == "official"@)
            &&& r matches Some(g) ==> {
                &&& g.engine == if flag == "--engine"@ { Some(v) } else { f.engine }
                &&& g.weights == if flag == "--weights"@ { Some(v) } else { f.weights }
                &&& g.golden == if flag == "--golden"@ { Some(v) } else { f.golden }
                &&& g.score_path == if flag == "--score-path"@ { Some(v) } else { f.score_path }
                &&& g.sha256 == if flag == "--golden-sha256"@ { Some(v) } else { f.sha256 }
                &&& g.bytes == if flag == "--golden-bytes"@ { Some(v) } else { f.bytes }
                &&& g.prefill == if flag == "--baseline-prefill-spt"@ { of_value } else {
                    f.prefill
                }
                &&& g.decode == if flag == "--baseline-decode-spt"@ { of_value } else { f.decode }
                &&& !mode ==> g.mode == f.mode
                &&& mode && v == "local-iterate"@ ==> g.mode is LocalIterate
                &&& mode && v == "local-submit"@ ==> g.mode is LocalSubmit
                &&& mode && v == "official"@ ==> g.mode is Official
                &&& g.cool_gate == f.cool_gate
                &&& g.strict == f.strict
            }
        }),
{
    lemma_flag_names();
    only_their_names_stand_for_modes(v);
    let start = no_iterate_flags();
    let more = seq![flag, v];
    let whole = line + more;
    let read = readings + seq![of_flag, of_value];
    lemma_scan_goes_on(line, readings, more, seq![of_flag, of_value], 0, start);
    let n = line.len() as int;
    assert(whole[n] == flag);
    assert(whole[n + 1] == v);
    assert(read[n + 1] == of_value);
    match with_value(flags_given(line, readings)->0, flag, v, of_value) {
        Ok(g) => {
            assert(scan(whole, read, n + 2, g) == Ok::<Option<IterateFlags>, Seq<char>>(Some(g)));
        },
        Err(_) => {},
    }
    assert(scan(Seq::empty(), Seq::empty(), 0, start) == Ok::<Option<IterateFlags>, Seq<char>>(
        Some(start),
    ));
}

/// A word without a value at the end of a command line that is read: help is answered, the strict
/// switch is set, the cool gate is forced on or off unless the other was asked for, and every other
/// word is refused. A switch leaves everything else.
pub proof fn a_word_alone_is_a_switch_or_ends_the_line(
    line: Seq<Seq<char>>,
    readings: Seq<Option<Number>>,
    word: Seq<char>,
    of_word: Option<Number>,
)
    requires
        readings.len() == line.len(),
        flags_given(line, readings) is Some,
    ensures
        ({
            let f = flags_given(line, readings)->0;
            let whole = line + seq![word];
            let read = readings + seq![of_word];
            let r = flags_given(whole, read);
            &&& word == "-h"@ || word == "--help"@ ==> iterate_request(whole, read) == Ok::<
                Option<IterateArgsView>,
                Seq<char>,
            >(None)
            &&& word == "--strict"@ ==> r == Some(IterateFlags { strict: true, ..f })
            &&& word == "--cool-gate"@ ==> (if f.cool_gate == Some(false) {
                iterate_request(whole, read) is Err
            } else {
                r == Some(IterateFlags { cool_gate: Some(true), ..f })
            })
            &&& word == "--no-cool-gate"@ ==> (if f.cool_gate == Some(true) {
                iterate_request(whole, read) is Err
            } else {
                r == Some(IterateFlags { cool_gate: Some(false), ..f })
            })
            &&& word != "-h"@ && word != "--help"@ && word != "--strict"@ && word
                != "--cool-gate"@ && word != "--no-cool-gate"@ ==> iterate_request(whole, read)
                is Err
        }),
{
    lemma_flag_names();
    let start = no_iterate_flags();
    let more = seq![word];
    let whole = line + more;
    let read = readings + seq![of_word];
    lemma_scan_goes_on(line, readings, more, seq![of_word], 0, start);
    let n = line.len() as int;
    assert(whole[n] == word);
    if !takes_value(word) && !is_help(word) {
        match with_switch(flags_given(line, readings)->0, word) {
            Ok(g) => {
                assert(scan(whole, read, n + 1, g) == Ok::<Option<IterateFlags>, Seq<char>>(
                    Some(g),
                ));
            },
            Err(_) => {},
        }
    }
}

/// A command line asks for a run exactly when it is read to its end, names an engine, weights and a
/// golden, gives both baselines or neither, and pins the golden wholly or not at all; what it asks
/// for is what its flags hold, each under its own name, and the score of a local iteration goes to
/// its own file where nothing is said.
pub proof fn a_run_is_asked_for_by_its_flags(
    line: Seq<Seq<char>>,
    readings: Seq<Option<Number>>,
    run: IterateArgs,
)
    ensures
        (iterate_request(line, readings) matches Ok(Some(_))) <==> (flags_given(
            line,
            readings,
        ) matches Some(f) && f.engine is Some && f.weights is Some && f.golden is Some && (
        f.prefill is Some <==> f.decode is Some) && pin_of(f.sha256, f.bytes) is Ok),
        iterate_request(line, readings) == Ok::<Option<IterateArgsView>, Seq<char>>(Some(run@))
            ==> {
            let f = flags_given(line, readings)->0;
            &&& f.engine == Some(run.engine@)
            &&& f.weights == Some(run.weights@)
            &&& f.golden == Some(run.golden@)
            &&& pin_of(f.sha256, f.bytes) == Ok::<Option<PinView>, Seq<char>>(
                pin_view(run.golden_pin),
            )
            &&& f.prefill == run.baseline_prefill_spt
            &&& f.decode == run.baseline_decode_spt
            &&& f.mode == run.mode
            &&& f.score_path matches Some(p) ==> run.score_path@ == p
            &&& f.score_path is None && run.mode is LocalIterate ==> run.score_path@
                == "score.local-iterate.json"@
            &&& f.score_path is None && !(run.mode is LocalIterate) ==> run.score_path@
                == "score.json"@
            &&& f.cool_gate == run.cool_gate
            &&& f.strict == run.strict
        },
{
}

/// Flags that ask for no run are told by the first of these: one baseline without the other, no
/// engine, no weights, no golden, a golden that is pinned in part.
pub proof fn what_is_missing_is_named(f: IterateFlags)
    ensures
        ({
            let r = resolve(f);
            let f0 = (f.prefill is Some) != (f.decode is Some);
            let f1 = f.engine is None;
            let f2 = f.weights is None;
            let f3 = f.golden is None;
            let f4 = pin_of(f.sha256, f.bytes) is Err;
            &&& f0 ==> r == Err::<IterateArgsView, Seq<char>>(baseline_flags_half_set())
            &&& !f0 && f1 ==> r == Err::<IterateArgsView, Seq<char>>(missing_required("--engine"@))
            &&& !f0 && !f1 && f2 ==> r == Err::<IterateArgsView, Seq<char>>(missing_required("--weights"@))
            &&& !f0 && !f1 && !f2 && f3 ==> r == Err::<IterateArgsView, Seq<char>>(missing_required("--golden"@))
            &&& !f0 && !f1 && !f2 && !f3 && f4 ==> r == Err::<IterateArgsView, Seq<char>>(pin_of(f.sha256, f.bytes)->Err_0)
            &&& r is Ok <==> !f0 && !f1 && !f2 && !f3 && !f4
        }),
{
}

/// A flag whose value cannot be taken is told with its value, a cool gate that is asked for both
/// ways by the flag that came second, and a flag without a value or a word that is no flag by
/// itself.
pub proof fn a_bad_word_is_named(
    line: Seq<Seq<char>>,
    readings: Seq<Option<Number>>,
    word: Seq<char>,
    of_word: Option<Number>,
    v: Seq<char>,
)
    requires
        readings.len() == line.len(),
        flags_given(line, readings) is Some,
    ensures
        ({
            let f = flags_given(line, readings)->0;
            let alone = iterate_request(line + seq![word], readings + seq![of_word]);
            let with = iterate_request(line + seq![word, v], readings + seq![of_word, None]);
            &&& asks_for_a_value(word) ==> alone == Err::<Option<IterateArgsView>, Seq<char>>(
                flag_needs_value(word),
            )
            &&& word == "--cool-gate"@ && f.cool_gate == Some(false) ==> alone == Err::<
                Option<IterateArgsView>,
                Seq<char>,
            >(cool_gate_conflict())
            &&& word == "--no-cool-gate"@ && f.cool_gate == Some(true) ==> alone == Err::<
                Option<IterateArgsView>,
                Seq<char>,
            >(no_cool_gate_conflict())
            &&& !asks_for_a_value(word) && word != "-h"@ && word != "--help"@ && word
                != "--strict"@ && word != "--cool-gate"@ && word != "--no-cool-gate"@ ==> alone
                == Err::<Option<IterateArgsView>, Seq<char>>(unknown_flag(word))
            &&& word == "--baseline-prefill-spt"@ || word == "--baseline-decode-spt"@ ==> with
                == Err::<Option<IterateArgsView>, Seq<char>>(invalid_number(word, v))
            &&& word == "--mode"@ && v != "local-iterate"@ && v != "local-submit"@ && v
                != "official"@ ==> with == Err::<Option<IterateArgsView>, Seq<char>>(
                invalid_mode(v),
            )
        }),
{
    lemma_flag_names();
    only_their_names_stand_for_modes(v);
    let start = no_iterate_flags();
    let n = line.len() as int;
    lemma_scan_goes_on(line, readings, seq![word], seq![of_word], 0, start);
    assert((line + seq![word])[n] == word);
    lemma_scan_goes_on(line, readings, seq![word, v], seq![of_word, None], 0, start);
    assert((line + seq![word, v])[n] == word);
    assert((line + seq![word, v])[n + 1] == v);
    assert((readings + seq![of_word, None])[n + 1] is None);
}

} // verus!
