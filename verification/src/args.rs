//! What the command lines of the subcommands share.
use crate::text::{a_numeral_is_within_its_bound, numeral_read, read_unsigned, same_text};
use crate::usage_texts::{
    golden_pin_half_set, invalid_golden_bytes, say_golden_pin_half_set, say_invalid_golden_bytes,
};
use vstd::prelude::*;

verus! {

/// The arguments of a command line.
pub open spec fn words(args: Seq<String>) -> Seq<Seq<char>> {
    args.map_values(|s: String| s@)
}

/// An optional text.
pub open spec fn opt_text(t: Option<String>) -> Option<Seq<char>> {
    match t {
        Some(s) => Some(s@),
        None => None,
    }
}

/// A flag that asks for help.
pub open spec fn is_help(a: Seq<char>) -> bool {
    a == "-h"@ || a == "--help"@
}

pub fn asks_help(a: &str) -> (r: bool)
    ensures
        r == is_help(a@),
{
    same_text(a, "-h") || same_text(a, "--help")
}

/// How a run is made.
#[derive(Debug, Clone, Copy, PartialEq, Eq, Structural)]
pub enum Mode {
    LocalIterate,
    LocalSubmit,
    Official,
}

/// The mode that a name stands for.
pub open spec fn mode_named(s: Seq<char>) -> Option<Mode> {
    if s == "local-iterate"@ {
        Some(Mode::LocalIterate)
    } else if s == "local-submit"@ {
        Some(Mode::LocalSubmit)
    } else if s == "official"@ {
        Some(Mode::Official)
    } else {
        None
    }
}

impl Mode {
    /// The mode that a name stands for.
    pub fn parse(s: &str) -> (r: Option<Mode>)
        ensures
            r == mode_named(s@),
    {
        if same_text(s, "local-iterate") {
            Some(Mode::LocalIterate)
        } else if same_text(s, "local-submit") {
            Some(Mode::LocalSubmit)
        } else if same_text(s, "official") {
            Some(Mode::Official)
        } else {
            None
        }
    }

    pub open spec fn name(self) -> Seq<char> {
        match self {
            Mode::LocalIterate => "local-iterate"@,
            Mode::LocalSubmit => "local-submit"@,
            Mode::Official => "official"@,
        }
    }

    /// The name of the mode.
    pub fn mode_name(&self) -> (r: &'static str)
        ensures
            r@ == self.name(),
    {
        match self {
            Mode::LocalIterate => "local-iterate",
            Mode::LocalSubmit => "local-submit",
            Mode::Official => "official",
        }
    }

    /// Whether a run of the mode waits for the machine to cool when nothing is said about it.
    pub fn cool_gate_on_by_default(&self) -> (r: bool)
        ensures
            r == (*self is LocalSubmit),
    {
        match self {
            Mode::LocalSubmit => true,
            _ => false,
        }
    }

    /// Whether a run of the mode is local.
    pub fn is_local_checked_timing(&self) -> (r: bool)
        ensures
            r == !(*self is Official),
    {
        match self {
            Mode::Official => false,
            _ => true,
        }
    }
}

/// A name stands for one mode, and each mode has a name.
pub proof fn mode_names_read_back(mode: Mode)
    ensures
        mode_named(mode.name()) == Some(mode),
{
    reveal_strlit("local-iterate");
    reveal_strlit("local-submit");
    reveal_strlit("official");
    assert("local-iterate"@.len() != "local-submit"@.len());
    assert("local-iterate"@.len() != "official"@.len());
    assert("local-submit"@.len() != "official"@.len());
}

/// The digest and the size that a golden is pinned to.
#[derive(Debug)]
pub struct GoldenIntegrityPin {
    pub sha256: String,
    pub bytes: u64,
}

/// A pin by its texts.
pub struct PinView {
    pub sha256: Seq<char>,
    pub bytes: u64,
}

impl View for GoldenIntegrityPin {
    type V = PinView;

    open spec fn view(&self) -> PinView {
        PinView { sha256: self.sha256@, bytes: self.bytes }
    }
}

/// An optional pin by its texts.
pub open spec fn pin_view(pin: Option<GoldenIntegrityPin>) -> Option<PinView> {
    match pin {
        Some(p) => Some(p@),
        None => None,
    }
}

/// The pin that two flags give: none when neither is there, and a refusal when one is there alone
/// or the size is no byte count.
pub open spec fn pin_of(sha256: Option<Seq<char>>, bytes: Option<Seq<char>>) -> Result<
    Option<PinView>,
    Seq<char>,
> {
    match (sha256, bytes) {
        (None, None) => Ok(None),
        (Some(sha256), Some(bytes)) => match numeral_read(bytes, u64::MAX as nat) {
            Ok(n) => Ok(Some(PinView { sha256, bytes: n as u64 })),
            Err(_) => Err(invalid_golden_bytes(bytes)),
        },
        _ => Err(golden_pin_half_set()),
    }
}

/// The pin that two flags give.
pub fn parse_golden_pin(sha256: Option<String>, bytes: Option<String>) -> (r: Result<
    Option<GoldenIntegrityPin>,
    String,
>)
    ensures
        match pin_of(opt_text(sha256), opt_text(bytes)) {
            Ok(pin) => r matches Ok(p) && pin_view(p) == pin,
            Err(m) => r matches Err(e) && e@ == m,
        },
{
    match (sha256, bytes) {
        (None, None) => Ok(None),
        (Some(sha256), Some(bytes)) => match read_unsigned(bytes.as_str(), u64::MAX) {
            Ok(n) => Ok(Some(GoldenIntegrityPin { sha256, bytes: n })),
            Err(_) => Err(say_invalid_golden_bytes(bytes.as_str())),
        },
        _ => Err(say_golden_pin_half_set()),
    }
}

/// Exactly three names stand for a mode, each for its own.
pub proof fn only_their_names_stand_for_modes(s: Seq<char>)
    ensures
        mode_named(s) == Some(Mode::LocalIterate) <==> s == "local-iterate"@,
        mode_named(s) == Some(Mode::LocalSubmit) <==> s == "local-submit"@,
        mode_named(s) == Some(Mode::Official) <==> s == "official"@,
{
    reveal_strlit("local-iterate");
    reveal_strlit("local-submit");
    reveal_strlit("official");
    assert("local-iterate"@.len() != "local-submit"@.len());
    assert("local-iterate"@.len() != "official"@.len());
    assert("local-submit"@.len() != "official"@.len());
}

/// Help is asked for by `-h` and by `--help`, and by nothing else.
pub proof fn help_has_two_names(a: Seq<char>)
    ensures
        is_help(a) <==> a == "-h"@ || a == "--help"@,
{
}

/// Two flags pin a golden together: there is a pin exactly when both are given and the size is a
/// byte count, it is of that digest and that size, and there is none without a refusal only when
/// neither is given.
pub proof fn a_pin_needs_both_of_its_flags(sha256: Option<Seq<char>>, bytes: Option<Seq<char>>)
    ensures
        pin_of(sha256, bytes) == Ok::<Option<PinView>, Seq<char>>(None) <==> sha256 is None
            && bytes is None,
        (pin_of(sha256, bytes) matches Ok(Some(_))) <==> sha256 is Some && bytes is Some
            && numeral_read(bytes->0, 0xffff_ffff_ffff_ffff) is Ok,
        pin_of(sha256, bytes) matches Ok(Some(p)) ==> p.sha256 == sha256->0 && p.bytes
            == numeral_read(bytes->0, 0xffff_ffff_ffff_ffff)->Ok_0,
{
    if bytes is Some {
        a_numeral_is_within_its_bound(bytes->0, u64::MAX as nat);
    }
}

/// A pin is seen as it is.
pub proof fn a_pin_is_seen_as_it_is(pin: Option<GoldenIntegrityPin>)
    ensures
        pin is Some <==> pin_view(pin) is Some,
        pin matches Some(p) ==> pin_view(pin)->0.sha256 == p.sha256@ && pin_view(pin)->0.bytes
            == p.bytes,
{
}

/// A pin that is set in part and a size that is no byte count are told apart.
pub proof fn a_bad_pin_is_told_by_its_fault(sha256: Option<Seq<char>>, bytes: Option<Seq<char>>)
    ensures
        (sha256 is Some) != (bytes is Some) ==> pin_of(sha256, bytes) == Err::<
            Option<PinView>,
            Seq<char>,
        >(golden_pin_half_set()),
        sha256 is Some && bytes is Some && numeral_read(bytes->0, 0xffff_ffff_ffff_ffff) is Err
            ==> pin_of(sha256, bytes) == Err::<Option<PinView>, Seq<char>>(
            invalid_golden_bytes(bytes->0),
        ),
{
}

/// The words of a command line are its arguments in their order, and an optional text is the text
/// that is there.
pub proof fn words_are_the_arguments(args: Seq<String>, i: int, t: Option<String>)
    requires
        0 <= i < args.len(),
    ensures
        words(args).len() == args.len(),
        words(args)[i] == args[i]@,
        t is Some <==> opt_text(t) is Some,
        t matches Some(s) ==> opt_text(t) == Some(s@),
{
}

} // verus!
