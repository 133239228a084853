//! What a track asks of a paired run: whether it may be scored, which modes it admits, and what the
//! goldens, the drafter and the calibration of the run have to be.
use crate::args::{words, GoldenIntegrityPin};
use crate::overlay::pool::{distinct_count, texts};
use crate::text::same_text;
use vstd::prelude::*;

verus! {

/// Whether a run may be scored. An official run needs a track that declares itself enabled: one
/// that says nothing is not.
pub fn scoring_enabled(official: bool, enabled: Option<bool>) -> (r: bool)
    ensures
        r == (!official || enabled == Some(true)),
{
    if !official {
        return true;
    }
    match enabled {
        Some(b) => b,
        None => false,
    }
}

/// A mode that a track may admit.
pub open spec fn is_known_mode(mode: Seq<char>) -> bool {
    mode == "serial"@ || mode == "mtp"@ || mode == "dflash"@
}

/// A list of modes that a track may declare: it admits the serial control, repeats nothing and
/// names known modes only.
pub open spec fn is_mode_list(modes: Seq<Seq<char>>) -> bool {
    &&& modes.contains("serial"@)
    &&& modes.no_duplicates()
    &&& forall|i: int| 0 <= i < modes.len() ==> is_known_mode(#[trigger] modes[i])
}

/// A mode that a track admits: one of the list it declares, or `serial` or `mtp` where it declares
/// none. A list that a track may not declare admits nothing.
pub open spec fn admits(declared: Option<Seq<Seq<char>>>, mode: Seq<char>) -> bool {
    match declared {
        None => mode == "serial"@ || mode == "mtp"@,
        Some(modes) => is_mode_list(modes) && modes.contains(mode),
    }
}

/// The list that a track declares, by its texts.
pub open spec fn declared_modes(declared: Option<&Vec<String>>) -> Option<Seq<Seq<char>>> {
    match declared {
        Some(list) => Some(words(list@)),
        None => None,
    }
}

fn lists(list: &Vec<String>, text: &str) -> (r: bool)
    ensures
        r == words(list@).contains(text@),
{
    let ghost ws = words(list@);
    let mut i: usize = 0;
    while i < list.len()
        invariant
            ws == words(list@),
            i <= list.len(),
            forall|k: int| 0 <= k < i ==> #[trigger] ws[k] != text@,
        decreases list.len() - i,
    {
        if same_text(list[i].as_str(), text) {
            assert(ws[i as int] == text@);
            return true;
        }
        i = i + 1;
    }
    false
}

fn all_known(list: &Vec<String>) -> (r: bool)
    ensures
        r == (forall|i: int|
            0 <= i < words(list@).len() ==> is_known_mode(#[trigger] words(list@)[i])),
{
    let ghost ws = words(list@);
    let mut i: usize = 0;
    while i < list.len()
        invariant
            ws == words(list@),
            i <= list.len(),
            forall|k: int| 0 <= k < i ==> is_known_mode(#[trigger] ws[k]),
        decreases list.len() - i,
    {
        let mode = list[i].as_str();
        assert(ws[i as int] == mode@);
        if !(same_text(mode, "serial") || same_text(mode, "mtp") || same_text(mode, "dflash")) {
            return false;
        }
        i = i + 1;
    }
    true
}

/// Whether no two texts of a list are the same.
pub fn all_distinct(list: &Vec<String>) -> (r: bool)
    ensures
        r == words(list@).no_duplicates(),
{
    proof {
        let ws = words(list@);
        assert(texts(list@) =~= ws);
        if ws.no_duplicates() {
            ws.unique_seq_to_set();
        }
        if ws.to_set().len() == ws.len() {
            ws.lemma_no_dup_set_cardinality();
        }
    }
    distinct_count(list) == list.len()
}

/// Whether a track admits the mode of a candidate.
pub fn mode_admitted(declared: Option<&Vec<String>>, candidate: &str) -> (r: bool)
    ensures
        r == admits(declared_modes(declared), candidate@),
{
    match declared {
        None => same_text(candidate, "serial") || same_text(candidate, "mtp"),
        Some(list) => lists(list, "serial") && all_distinct(list) && all_known(list) && lists(
            list,
            candidate,
        ),
    }
}

/// Whether the goldens of a run are all different, by their digests.
pub fn goldens_distinct(digests: &Vec<String>) -> (r: bool)
    ensures
        r == words(digests@).no_duplicates(),
{
    all_distinct(digests)
}

/// Whether the attested correctness golden is the pinned one: a track that pins one asks for it,
/// and a track that pins none admits none.
pub fn attestation_cites(
    attested: Option<&GoldenIntegrityPin>,
    pinned: Option<&GoldenIntegrityPin>,
) -> (r: bool)
    ensures
        r == (match (attested, pinned) {
            (None, None) => true,
            (Some(a), Some(p)) => a.sha256@ == p.sha256@ && a.bytes == p.bytes,
            _ => false,
        }),
{
    match (attested, pinned) {
        (None, None) => true,
        (Some(a), Some(p)) => same_text(a.sha256.as_str(), p.sha256.as_str()) && a.bytes == p.bytes,
        _ => false,
    }
}

/// Whether the drafter that a candidate needs is there: only one that declares `dflash` needs it.
pub fn dflash_head_present(mode: &str, named: bool) -> (r: bool)
    ensures
        r == (mode@ == "dflash"@ ==> named),
{
    named || !same_text(mode, "dflash")
}

/// Whether a run without a calibration is refused: unless the setting is `0`.
pub fn band_enforced(setting: Option<&str>) -> (r: bool)
    ensures
        r == !(setting matches Some(s) && s@ == "0"@),
{
    match setting {
        Some(s) => !same_text(s, "0"),
        None => true,
    }
}

/// A track that declares no modes admits no more than the two that need no declaration, and any
/// other mode is admitted only where it is declared.
pub proof fn a_mode_is_admitted_where_it_is_declared(
    declared: Option<Seq<Seq<char>>>,
    mode: Seq<char>,
)
    requires
        admits(declared, mode),
    ensures
        is_known_mode(mode),
        mode == "dflash"@ ==> (declared matches Some(modes) && modes.contains(mode)),
{
    reveal_strlit("serial");
    reveal_strlit("mtp");
    reveal_strlit("dflash");
    assert("dflash"@.len() != "mtp"@.len());
    assert("dflash"@[0] != "serial"@[0]);
    match declared {
        Some(modes) => {
            let i = choose|i: int| 0 <= i < modes.len() && modes[i] == mode;
            assert(is_known_mode(modes[i]));
        },
        None => {},
    }
}

/// Wherever a mode is admitted the serial control is admitted too.
pub proof fn the_serial_control_is_always_admitted(
    declared: Option<Seq<Seq<char>>>,
    mode: Seq<char>,
)
    requires
        admits(declared, mode),
    ensures
        admits(declared, "serial"@),
{
}

/// Which modes a track admits: the serial one and the `mtp` one where it declares none; and where
/// it declares a list, the modes of that list, as long as the list holds the serial one, holds none
/// twice, and holds only modes that are known.
pub proof fn a_track_admits_what_it_declares(
    declared: Option<Seq<Seq<char>>>,
    mode: Seq<char>,
)
    ensures
        declared is None ==> (admits(declared, mode) <==> mode == "serial"@ || mode == "mtp"@),
        declared matches Some(modes) ==> (admits(declared, mode) <==> {
            &&& exists|i: int| 0 <= i < modes.len() && #[trigger] modes[i] == "serial"@
            &&& exists|i: int| 0 <= i < modes.len() && #[trigger] modes[i] == mode
            &&& forall|i: int, j: int|
                0 <= i < j < modes.len() ==> #[trigger] modes[i] != #[trigger] modes[j]
            &&& forall|i: int|
                0 <= i < modes.len() ==> #[trigger] modes[i] == "serial"@ || modes[i] == "mtp"@
                    || modes[i] == "dflash"@
        }),
{
}

/// The list of a track is seen as it is.
pub proof fn a_mode_list_is_seen_as_it_is(declared: Option<&Vec<String>>)
    ensures
        declared is None <==> declared_modes(declared) is None,
        declared matches Some(list) ==> declared_modes(declared)->0.len() == list@.len()
            && forall|i: int|
            0 <= i < list@.len() ==> declared_modes(declared)->0[i] == (#[trigger] list@[i])@,
{
}

} // verus!
