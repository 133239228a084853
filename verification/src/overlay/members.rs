//! The members that a merged score adds to its document.
use crate::number::Number;
use crate::overlay::merge::{CohortSeal, MergedScore, MergedSeries};
use vstd::prelude::*;

verus! {

/// A value in a document.
#[derive(Debug)]
pub enum Leaf {
    Text { text: String },
    Flag { flag: bool },
    Count { count: usize },
    Figure { figure: Number },
}

/// A member of a document: a value, or a block of named values.
#[derive(Debug)]
pub enum Member {
    Value { value: Leaf },
    Block { block: Vec<(String, Leaf)> },
}

/// A [`Leaf`] by its text.
pub enum LeafView {
    Text { text: Seq<char> },
    Flag { flag: bool },
    Count { count: nat },
    Figure { figure: Number },
}

/// A [`Member`] by its texts.
pub enum MemberView {
    Value { value: LeafView },
    Block { block: Seq<(Seq<char>, LeafView)> },
}

impl View for Leaf {
    type V = LeafView;

    open spec fn view(&self) -> LeafView {
        match *self {
            Leaf::Text { text } => LeafView::Text { text: text@ },
            Leaf::Flag { flag } => LeafView::Flag { flag },
            Leaf::Count { count } => LeafView::Count { count: count as nat },
            Leaf::Figure { figure } => LeafView::Figure { figure },
        }
    }
}

/// Named values by their texts.
pub open spec fn block_view(block: Seq<(String, Leaf)>) -> Seq<(Seq<char>, LeafView)> {
    block.map_values(|e: (String, Leaf)| (e.0@, e.1@))
}

impl View for Member {
    type V = MemberView;

    open spec fn view(&self) -> MemberView {
        match *self {
            Member::Value { value } => MemberView::Value { value: value@ },
            Member::Block { block } => MemberView::Block { block: block_view(block@) },
        }
    }
}

/// Named members by their texts.
pub open spec fn members_view(members: Seq<(String, Member)>) -> Seq<(Seq<char>, MemberView)> {
    members.map_values(|e: (String, Member)| (e.0@, e.1@))
}

/// A named text.
pub open spec fn text_leaf(name: Seq<char>, text: Seq<char>) -> (Seq<char>, LeafView) {
    (name, LeafView::Text { text })
}

/// A named flag.
pub open spec fn flag_leaf(name: Seq<char>, flag: bool) -> (Seq<char>, LeafView) {
    (name, LeafView::Flag { flag })
}

/// A named figure.
pub open spec fn figure_leaf(name: Seq<char>, figure: Number) -> (Seq<char>, LeafView) {
    (name, LeafView::Figure { figure })
}

/// A named value as a member.
pub open spec fn value_member(leaf: (Seq<char>, LeafView)) -> (Seq<char>, MemberView) {
    (leaf.0, MemberView::Value { value: leaf.1 })
}

/// The block of the timed series.
pub open spec fn series_block(s: MergedSeries) -> Seq<(Seq<char>, LeafView)> {
    seq![
        text_leaf("serial_leg_timed_mode"@, s.serial_leg_timed_mode@),
        text_leaf("candidate_leg_timed_mode"@, s.candidate_leg_timed_mode@),
        flag_leaf("homogeneous"@, s.homogeneous),
        flag_leaf("legs_comparable"@, s.legs_comparable),
    ]
}

/// The block of the cohort.
pub open spec fn cohort_block(c: CohortSeal) -> Seq<(Seq<char>, LeafView)> {
    seq![
        text_leaf("cohort_sha256"@, c.cohort_sha256@),
        ("member_count"@, LeafView::Count { count: c.member_count as nat }),
        figure_leaf("prefill_gain"@, c.prefill_gain),
        figure_leaf("decode_gain"@, c.decode_gain),
        figure_leaf("composite_score"@, c.composite_score),
        figure_leaf("composite_speedup_floor"@, c.composite_speedup_floor),
        flag_leaf("composite_speedup_floor_met"@, c.composite_speedup_floor_met),
        figure_leaf("prefill_gain_exponent"@, c.prefill_gain_exponent),
        figure_leaf("decode_gain_exponent"@, c.decode_gain_exponent),
    ]
}

/// The members that every merged score adds to its document.
pub open spec fn common_members(m: MergedScore) -> Seq<(Seq<char>, MemberView)> {
    seq![
        value_member(text_leaf("scoring_mode"@, m.scoring_mode@)),
        value_member(text_leaf("aggregation"@, m.aggregation@)),
        value_member(figure_leaf("decode_speedup_ceiling"@, m.decode_speedup_ceiling)),
        value_member(flag_leaf("passed_decode_speedup_ceiling"@, m.passed_decode_speedup_ceiling)),
        value_member(text_leaf("timed_mode"@, m.timed_mode@)),
        ("timed_series"@, MemberView::Block { block: series_block(m.timed_series) }),
    ]
}

/// The members that a cohort score adds besides.
pub open spec fn cohort_members(c: CohortSeal) -> Seq<(Seq<char>, MemberView)> {
    seq![
        (
            "scored_batch_size"@,
            MemberView::Value { value: LeafView::Count { count: c.scored_batch_size as nat } },
        ),
        ("cohort"@, MemberView::Block { block: cohort_block(c) }),
    ]
}

/// The members that a merged score adds to its document, in their order. Only a cohort score names
/// its width and its cohort.
pub open spec fn document_members(m: MergedScore) -> Seq<(Seq<char>, MemberView)> {
    match m.cohort {
        Some(c) => common_members(m) + cohort_members(c),
        None => common_members(m),
    }
}

fn name_text(name: &str, text: &str) -> (r: (String, Leaf))
    ensures
        (r.0@, r.1@) == text_leaf(name@, text@),
{
    (name.to_owned(), Leaf::Text { text: text.to_owned() })
}

fn name_flag(name: &str, flag: bool) -> (r: (String, Leaf))
    ensures
        (r.0@, r.1@) == flag_leaf(name@, flag),
{
    (name.to_owned(), Leaf::Flag { flag })
}

fn name_figure(name: &str, figure: &Number) -> (r: (String, Leaf))
    ensures
        (r.0@, r.1@) == figure_leaf(name@, *figure),
{
    (name.to_owned(), Leaf::Figure { figure: figure.duplicate() })
}

fn name_count(name: &str, count: usize) -> (r: (String, Leaf))
    ensures
        (r.0@, r.1@) == (name@, LeafView::Count { count: count as nat }),
{
    (name.to_owned(), Leaf::Count { count })
}

fn as_member(leaf: (String, Leaf)) -> (r: (String, Member))
    ensures
        (r.0@, r.1@) == value_member((leaf.0@, leaf.1@)),
{
    (leaf.0, Member::Value { value: leaf.1 })
}

fn series_leaves(s: &MergedSeries) -> (r: Vec<(String, Leaf)>)
    ensures
        block_view(r@) == series_block(*s),
{
    let r = vec![
        name_text("serial_leg_timed_mode", s.serial_leg_timed_mode.as_str()),
        name_text("candidate_leg_timed_mode", s.candidate_leg_timed_mode.as_str()),
        name_flag("homogeneous", s.homogeneous),
        name_flag("legs_comparable", s.legs_comparable),
    ];
    assert(block_view(r@) =~= series_block(*s));
    r
}

fn cohort_leaves(c: &CohortSeal) -> (r: Vec<(String, Leaf)>)
    ensures
        block_view(r@) == cohort_block(*c),
{
    let r = vec![
        name_text("cohort_sha256", c.cohort_sha256.as_str()),
        name_count("member_count", c.member_count),
        name_figure("prefill_gain", &c.prefill_gain),
        name_figure("decode_gain", &c.decode_gain),
        name_figure("composite_score", &c.composite_score),
        name_figure("composite_speedup_floor", &c.composite_speedup_floor),
        name_flag("composite_speedup_floor_met", c.composite_speedup_floor_met),
        name_figure("prefill_gain_exponent", &c.prefill_gain_exponent),
        name_figure("decode_gain_exponent", &c.decode_gain_exponent),
    ];
    assert(block_view(r@) =~= cohort_block(*c));
    r
}

/// The members that a merged score adds to its document, in their order.
pub fn merged_members(m: &MergedScore) -> (r: Vec<(String, Member)>)
    ensures
        members_view(r@) == document_members(*m),
{
    let mut r = vec![
        as_member(name_text("scoring_mode", m.scoring_mode.as_str())),
        as_member(name_text("aggregation", m.aggregation.as_str())),
        as_member(name_figure("decode_speedup_ceiling", &m.decode_speedup_ceiling)),
        as_member(name_flag("passed_decode_speedup_ceiling", m.passed_decode_speedup_ceiling)),
        as_member(name_text("timed_mode", m.timed_mode.as_str())),
        ("timed_series".to_owned(), Member::Block { block: series_leaves(&m.timed_series) }),
    ];
    assert(members_view(r@) =~= common_members(*m));
    match &m.cohort {
        Some(c) => {
            r.push(as_member(name_count("scored_batch_size", c.scored_batch_size as usize)));
            r.push(("cohort".to_owned(), Member::Block { block: cohort_leaves(c) }));
            assert(members_view(r@) =~= common_members(*m) + cohort_members(*c));
        },
        None => {},
    }
    r
}

/// The lengths of the member names, and what tells those of one length apart.
proof fn lemma_names_differ()
    ensures
        "scoring_mode"@.len() == 12,
        "aggregation"@.len() == 11,
        "decode_speedup_ceiling"@.len() == 22,
        "passed_decode_speedup_ceiling"@.len() == 29,
        "timed_mode"@.len() == 10,
        "timed_series"@.len() == 12,
        "scored_batch_size"@.len() == 17,
        "cohort"@.len() == 6,
        "score"@.len() == 5,
        "passed"@.len() == 6,
        "metrics"@.len() == 7,
        "scoring_mode"@ != "timed_series"@,
        "cohort"@ != "passed"@,
{
    reveal_strlit("scoring_mode");
    reveal_strlit("aggregation");
    reveal_strlit("decode_speedup_ceiling");
    reveal_strlit("passed_decode_speedup_ceiling");
    reveal_strlit("timed_mode");
    reveal_strlit("timed_series");
    reveal_strlit("scored_batch_size");
    reveal_strlit("cohort");
    reveal_strlit("score");
    reveal_strlit("passed");
    reveal_strlit("metrics");
    assert("scoring_mode"@[0] != "timed_series"@[0]);
    assert("cohort"@[0] != "passed"@[0]);
}

/// The name of each member.
proof fn lemma_member_names(m: MergedScore)
    ensures
        ({
            let names = document_members(m);
            &&& names.len() == (if m.cohort is Some {
                8nat
            } else {
                6nat
            })
            &&& names[0].0 == "scoring_mode"@
            &&& names[1].0 == "aggregation"@
            &&& names[2].0 == "decode_speedup_ceiling"@
            &&& names[3].0 == "passed_decode_speedup_ceiling"@
            &&& names[4].0 == "timed_mode"@
            &&& names[5].0 == "timed_series"@
            &&& m.cohort is Some ==> names[6].0 == "scored_batch_size"@ && names[7].0 == "cohort"@
        }),
{
}

/// No member of a merged score hides another, nor the score, the verdict or the metrics that its
/// document has already.
pub proof fn merged_members_hide_nothing(m: MergedScore, i: int, j: int)
    requires
        0 <= i < document_members(m).len(),
        0 <= j < document_members(m).len(),
        i != j,
    ensures
        document_members(m)[i].0 != document_members(m)[j].0,
        document_members(m)[i].0 != "score"@,
        document_members(m)[i].0 != "passed"@,
        document_members(m)[i].0 != "metrics"@,
{
    lemma_names_differ();
    lemma_member_names(m);
    assert(i == 0 || i == 1 || i == 2 || i == 3 || i == 4 || i == 5 || i == 6 || i == 7);
    assert(j == 0 || j == 1 || j == 2 || j == 3 || j == 4 || j == 5 || j == 6 || j == 7);
}

/// A score names a width and a cohort exactly when it is one of a cohort.
pub proof fn only_a_cohort_score_names_a_cohort(m: MergedScore, i: int)
    requires
        0 <= i < document_members(m).len(),
    ensures
        m.cohort is Some ==> document_members(m)[6].0 == "scored_batch_size"@
            && document_members(m)[7].0 == "cohort"@,
        m.cohort is None ==> document_members(m)[i].0 != "scored_batch_size"@
            && document_members(m)[i].0 != "cohort"@,
{
    lemma_names_differ();
    lemma_member_names(m);
    if m.cohort is None {
        assert(i == 0 || i == 1 || i == 2 || i == 3 || i == 4 || i == 5);
    }
}

/// Each member that a merged score adds holds the field it is named after, and the members come in
/// one order: the six of every score first, then the two of a cohort score.
pub proof fn a_member_holds_what_it_is_named_after(m: MergedScore)
    ensures
        ({
            let d = document_members(m);
            &&& d.len() == if m.cohort is Some { 8int } else { 6int }
            &&& d[0] == (
                "scoring_mode"@,
                MemberView::Value { value: LeafView::Text { text: m.scoring_mode@ } },
            )
            &&& d[1] == (
                "aggregation"@,
                MemberView::Value { value: LeafView::Text { text: m.aggregation@ } },
            )
            &&& d[2] == (
                "decode_speedup_ceiling"@,
                MemberView::Value { value: LeafView::Figure { figure: m.decode_speedup_ceiling } },
            )
            &&& d[3] == (
                "passed_decode_speedup_ceiling"@,
                MemberView::Value {
                    value: LeafView::Flag { flag: m.passed_decode_speedup_ceiling },
                },
            )
            &&& d[4] == (
                "timed_mode"@,
                MemberView::Value { value: LeafView::Text { text: m.timed_mode@ } },
            )
            &&& d[5].0 == "timed_series"@ && d[5].1 is Block
            &&& m.cohort matches Some(c) ==> {
                &&& d[6] == (
                    "scored_batch_size"@,
                    MemberView::Value {
                        value: LeafView::Count { count: c.scored_batch_size as nat },
                    },
                )
                &&& d[7].0 == "cohort"@ && d[7].1 is Block
            }
        }),
{
}

/// The block of the timed series holds the four things that are sealed about the legs, each under
/// its own name.
pub proof fn a_series_block_holds_what_is_sealed_of_the_legs(m: MergedScore)
    ensures
        document_members(m)[5].1 matches MemberView::Block { block } && {
            &&& block.len() == 4
            &&& block[0] == (
                "serial_leg_timed_mode"@,
                LeafView::Text { text: m.timed_series.serial_leg_timed_mode@ },
            )
            &&& block[1] == (
                "candidate_leg_timed_mode"@,
                LeafView::Text { text: m.timed_series.candidate_leg_timed_mode@ },
            )
            &&& block[2] == (
                "homogeneous"@,
                LeafView::Flag { flag: m.timed_series.homogeneous },
            )
            &&& block[3] == (
                "legs_comparable"@,
                LeafView::Flag { flag: m.timed_series.legs_comparable },
            )
        },
{
}

/// The block of the cohort holds the nine things that are sealed about it, each under its own name.
pub proof fn a_cohort_block_holds_what_is_sealed_of_the_cohort(m: MergedScore, c: CohortSeal)
    requires
        m.cohort == Some(c),
    ensures
        document_members(m)[7].1 matches MemberView::Block { block } && {
            &&& block.len() == 9
            &&& block[0] == ("cohort_sha256"@, LeafView::Text { text: c.cohort_sha256@ })
            &&& block[1] == ("member_count"@, LeafView::Count { count: c.member_count as nat })
            &&& block[2] == ("prefill_gain"@, LeafView::Figure { figure: c.prefill_gain })
            &&& block[3] == ("decode_gain"@, LeafView::Figure { figure: c.decode_gain })
            &&& block[4] == ("composite_score"@, LeafView::Figure { figure: c.composite_score })
            &&& block[5] == (
                "composite_speedup_floor"@,
                LeafView::Figure { figure: c.composite_speedup_floor },
            )
            &&& block[6] == (
                "composite_speedup_floor_met"@,
                LeafView::Flag { flag: c.composite_speedup_floor_met },
            )
            &&& block[7] == (
                "prefill_gain_exponent"@,
                LeafView::Figure { figure: c.prefill_gain_exponent },
            )
            &&& block[8] == (
                "decode_gain_exponent"@,
                LeafView::Figure { figure: c.decode_gain_exponent },
            )
        },
{
}

/// Values and members are seen as they are.
pub proof fn members_are_seen_as_they_are(
    leaf: Leaf,
    member: Member,
    members: Seq<(String, Member)>,
    i: int,
)
    requires
        0 <= i < members.len(),
    ensures
        leaf matches Leaf::Text { text } ==> leaf@ == (LeafView::Text { text: text@ }),
        leaf matches Leaf::Flag { flag } ==> leaf@ == (LeafView::Flag { flag }),
        leaf matches Leaf::Count { count } ==> leaf@ == (LeafView::Count { count: count as nat }),
        leaf matches Leaf::Figure { figure } ==> leaf@ == (LeafView::Figure { figure }),
        member matches Member::Value { value } ==> member@ == (MemberView::Value { value: value@ }),
        member matches Member::Block { block } ==> (member@ matches MemberView::Block { block: b }
            && b.len() == block@.len() && forall|k: int|
            0 <= k < b.len() ==> #[trigger] b[k] == (block@[k].0@, block@[k].1@)),
        members_view(members).len() == members.len(),
        members_view(members)[i] == (members[i].0@, members[i].1@),
{
}

} // verus!
