//! The speculative specs that the two legs of a paired run declare.
use crate::args::opt_text;
use crate::overlay::view::{
    answers, TIMED_MODE_FREE_RUN_V1_1, TIMED_MODE_TEACHER_FORCED_V1,
};
use crate::text::{numeral_read, read_count, same_text, trim, trimmed};
use crate::usage_texts::{
    baseline_not_serial, cross_module, depth_over_cap, depth_zero, module_missing, probe_unknown,
    say_baseline_not_serial, say_cross_module, say_depth_over_cap, say_depth_zero,
    say_module_missing, say_probe_unknown,
};
use vstd::prelude::*;

verus! {

/// What a leg declares: a mode, and the blocks of the modes that have one.
#[derive(Debug)]
pub struct SpecConfig {
    pub mode: String,
    /// The depth of the `mtp` block.
    pub mtp_depth: Option<u32>,
    /// There is a `dflash` block.
    pub dflash: bool,
}

/// A spec by its texts.
pub struct SpecView {
    pub mode: Seq<char>,
    pub mtp_depth: Option<u32>,
    pub dflash: bool,
}

impl View for SpecConfig {
    type V = SpecView;

    open spec fn view(&self) -> SpecView {
        SpecView { mode: self.mode@, mtp_depth: self.mtp_depth, dflash: self.dflash }
    }
}

/// The serial spec.
pub open spec fn serial_spec() -> SpecView {
    SpecView { mode: "serial"@, mtp_depth: None, dflash: false }
}

/// The `mtp` spec of a depth.
pub open spec fn mtp_spec(depth: u32) -> SpecView {
    SpecView { mode: "mtp"@, mtp_depth: Some(depth), dflash: false }
}

impl SpecConfig {
    /// The serial spec.
    pub fn serial() -> (r: SpecConfig)
        ensures
            r@ == serial_spec(),
    {
        SpecConfig { mode: "serial".to_owned(), mtp_depth: None, dflash: false }
    }

    /// The `mtp` spec of a depth.
    pub fn mtp(depth: u32) -> (r: SpecConfig)
        ensures
            r@ == mtp_spec(depth),
    {
        SpecConfig { mode: "mtp".to_owned(), mtp_depth: Some(depth), dflash: false }
    }
}

/// The regime that a leg is timed in.
#[derive(Debug, Clone, Copy, PartialEq, Eq, Structural)]
pub enum LegRegime {
    TeacherForcedV1,
    FreeRunV1_1,
}

impl LegRegime {
    /// Whether the leg decodes freely.
    pub fn is_free_run(&self) -> (r: bool)
        ensures
            r == (*self is FreeRunV1_1),
    {
        match self {
            LegRegime::FreeRunV1_1 => true,
            LegRegime::TeacherForcedV1 => false,
        }
    }
}

/// The regime of a candidate: teacher forcing cannot execute speculation, so every candidate but a
/// serial one runs freely.
pub open spec fn regime_of(spec: SpecView) -> LegRegime {
    if spec.mode == "serial"@ {
        LegRegime::TeacherForcedV1
    } else {
        LegRegime::FreeRunV1_1
    }
}

/// The regime of a candidate.
pub fn candidate_regime_for_spec(spec: &SpecConfig) -> (r: LegRegime)
    ensures
        r == regime_of(spec@),
{
    if same_text(spec.mode.as_str(), "serial") {
        LegRegime::TeacherForcedV1
    } else {
        LegRegime::FreeRunV1_1
    }
}

/// The regime of the serial control: that of the candidate, so that the two legs of a run measure
/// the same quantity.
pub fn serial_control_regime_for(candidate: LegRegime) -> (r: LegRegime)
    ensures
        r == candidate,
{
    candidate
}

/// The spec that a leg asks its worker for.
#[derive(Debug, Clone, Copy, PartialEq, Eq, Structural)]
pub enum WireSpec {
    /// What the candidate declares, as it is.
    Declared,
    Serial,
}

/// The spec that a leg asks its worker for: a candidate that decodes freely asks for what it
/// declares, and every other leg for a serial decode.
pub fn leg_wire_spec(serial_control: bool, free_run: bool) -> (r: WireSpec)
    ensures
        r == (if !serial_control && free_run {
            WireSpec::Declared
        } else {
            WireSpec::Serial
        }),
{
    if !serial_control && free_run {
        WireSpec::Declared
    } else {
        WireSpec::Serial
    }
}

/// The series tag of a regime.
pub fn run_timed_mode(regime: LegRegime) -> (r: &'static str)
    ensures
        r@ == (match regime {
            LegRegime::TeacherForcedV1 => TIMED_MODE_TEACHER_FORCED_V1@,
            LegRegime::FreeRunV1_1 => TIMED_MODE_FREE_RUN_V1_1@,
        }),
{
    match regime {
        LegRegime::TeacherForcedV1 => TIMED_MODE_TEACHER_FORCED_V1,
        LegRegime::FreeRunV1_1 => TIMED_MODE_FREE_RUN_V1_1,
    }
}

/// The refusal of a baseline that is not the serial control.
pub open spec fn baseline_spec_refusal(spec: SpecView) -> Option<Seq<char>> {
    if spec.mode == "serial"@ {
        None
    } else {
        Some(baseline_not_serial(spec.mode))
    }
}

/// The baseline is the serial denominator: any other mode is refused.
pub fn validate_baseline_is_serial(spec: &SpecConfig) -> (r: Result<(), String>)
    ensures
        answers(r, baseline_spec_refusal(spec@)),
{
    if same_text(spec.mode.as_str(), "serial") {
        Ok(())
    } else {
        Err(say_baseline_not_serial(spec.mode.as_str()))
    }
}

/// The refusal of a spec whose blocks are not those of its mode.
pub open spec fn module_refusal(spec: SpecView) -> Option<Seq<char>> {
    if spec.mode == "mtp"@ {
        if spec.dflash {
            Some(cross_module(spec.mode, "dflash"@))
        } else if spec.mtp_depth is None {
            Some(module_missing(spec.mode))
        } else if spec.mtp_depth->0 == 0 {
            Some(depth_zero())
        } else {
            None
        }
    } else if spec.mtp_depth is Some {
        Some(cross_module(spec.mode, "mtp"@))
    } else if spec.mode == "dflash"@ {
        if spec.dflash {
            None
        } else {
            Some(module_missing(spec.mode))
        }
    } else if spec.dflash {
        Some(cross_module(spec.mode, "dflash"@))
    } else {
        None
    }
}

/// A spec carries the block of its own mode and no other, and an `mtp` block speculates.
pub fn validate_spec_module_coherent(spec: &SpecConfig) -> (r: Result<(), String>)
    ensures
        answers(r, module_refusal(spec@)),
{
    let mode = spec.mode.as_str();
    if same_text(mode, "mtp") {
        if spec.dflash {
            return Err(say_cross_module(mode, "dflash"));
        }
        match spec.mtp_depth {
            None => return Err(say_module_missing(mode)),
            Some(depth) => {
                if depth == 0 {
                    return Err(say_depth_zero());
                }
            },
        }
        return Ok(());
    }
    if spec.mtp_depth.is_some() {
        return Err(say_cross_module(mode, "mtp"));
    }
    if same_text(mode, "dflash") {
        if spec.dflash {
            return Ok(());
        }
        return Err(say_module_missing(mode));
    }
    if spec.dflash {
        return Err(say_cross_module(mode, "dflash"));
    }
    Ok(())
}

/// The refusal of a spec beyond the depth cap.
pub open spec fn cap_refusal(spec: SpecView, cap: nat) -> Option<Seq<char>> {
    match spec.mtp_depth {
        Some(depth) => if depth > cap {
            Some(depth_over_cap(depth as nat, cap))
        } else {
            None
        },
        None => None,
    }
}

/// The depth of a spec is within the cap.
pub fn validate_spec_capped(spec: &SpecConfig, cap: usize) -> (r: Result<(), String>)
    ensures
        answers(r, cap_refusal(spec@, cap as nat)),
{
    match spec.mtp_depth {
        Some(depth) => {
            if depth as usize > cap {
                return Err(say_depth_over_cap(depth as usize, cap));
            }
        },
        None => {},
    }
    Ok(())
}

/// The depth cap of every run that is not a local one.
pub const DEFAULT_MAX_DRAFT_DEPTH_CAP: usize = 32;

/// The depth cap of a run: a local run may set its own, any other keeps the constant.
pub open spec fn depth_cap(local_dev: bool, setting: Option<Seq<char>>) -> nat {
    if !local_dev || setting is None {
        DEFAULT_MAX_DRAFT_DEPTH_CAP as nat
    } else {
        match numeral_read(trimmed(setting->0), usize::MAX as nat) {
            Ok(n) => n,
            Err(_) => DEFAULT_MAX_DRAFT_DEPTH_CAP as nat,
        }
    }
}

/// The depth cap of a run.
pub fn resolve_max_draft_depth_cap(local_dev: bool, setting: &Option<String>) -> (r: usize)
    ensures
        r == depth_cap(local_dev, opt_text(*setting)),
{
    if !local_dev {
        return DEFAULT_MAX_DRAFT_DEPTH_CAP;
    }
    match setting {
        Some(s) => match read_count(trim(s.as_str()).as_str()) {
            Ok(n) => n,
            Err(_) => DEFAULT_MAX_DRAFT_DEPTH_CAP,
        },
        None => DEFAULT_MAX_DRAFT_DEPTH_CAP,
    }
}

/// When the exactness of a run is probed.
#[derive(Debug, Clone, Copy, PartialEq, Eq, Structural)]
pub enum ExactnessProbe {
    Never,
    Once,
    PerPrompt,
    PerPair,
}

/// The probe that a name stands for.
pub open spec fn probe_named(s: Seq<char>) -> Option<ExactnessProbe> {
    if s == "none"@ {
        Some(ExactnessProbe::Never)
    } else if s == "once"@ {
        Some(ExactnessProbe::Once)
    } else if s == "per-prompt"@ {
        Some(ExactnessProbe::PerPrompt)
    } else if s == "per-pair"@ {
        Some(ExactnessProbe::PerPair)
    } else {
        None
    }
}

impl ExactnessProbe {
    /// The probe that a name stands for.
    pub fn parse(s: &str) -> (r: Result<ExactnessProbe, String>)
        ensures
            match probe_named(s@) {
                Some(p) => r == Ok::<ExactnessProbe, String>(p),
                None => r matches Err(e) && e@ == probe_unknown(s@),
            },
    {
        if same_text(s, "none") {
            Ok(ExactnessProbe::Never)
        } else if same_text(s, "once") {
            Ok(ExactnessProbe::Once)
        } else if same_text(s, "per-prompt") {
            Ok(ExactnessProbe::PerPrompt)
        } else if same_text(s, "per-pair") {
            Ok(ExactnessProbe::PerPair)
        } else {
            Err(say_probe_unknown(s))
        }
    }
}

/// A spec that is accepted for a candidate within the constant cap either does not speculate by
/// depth or does so between one and the cap.
pub proof fn an_accepted_spec_is_capped(spec: SpecView, setting: Option<Seq<char>>)
    requires
        module_refusal(spec) is None,
        cap_refusal(spec, depth_cap(false, setting)) is None,
    ensures
        spec.mtp_depth matches Some(d) ==> 1 <= d <= DEFAULT_MAX_DRAFT_DEPTH_CAP && spec.mode
            == "mtp"@,
{
}

/// A spec that is accepted for the baseline is the serial one.
pub proof fn an_accepted_baseline_is_serial(spec: SpecView)
    requires
        baseline_spec_refusal(spec) is None,
        module_refusal(spec) is None,
    ensures
        spec == serial_spec(),
        regime_of(spec) is TeacherForcedV1,
{
    reveal_strlit("serial");
    reveal_strlit("mtp");
    reveal_strlit("dflash");
    assert("serial"@.len() != "mtp"@.len());
    assert("serial"@[0] != "dflash"@[0]);
}

/// The default specs are accepted: the serial one for the baseline, and the `mtp` one of each
/// depth between one and the cap for the candidate.
pub proof fn default_specs_are_accepted(depth: u32, cap: nat)
    requires
        1 <= depth <= cap,
    ensures
        baseline_spec_refusal(serial_spec()) is None,
        module_refusal(serial_spec()) is None,
        cap_refusal(serial_spec(), cap) is None,
        module_refusal(mtp_spec(depth)) is None,
        cap_refusal(mtp_spec(depth), cap) is None,
        regime_of(mtp_spec(depth)) is FreeRunV1_1,
{
    reveal_strlit("serial");
    reveal_strlit("mtp");
    reveal_strlit("dflash");
    assert("serial"@.len() != "mtp"@.len());
    assert("serial"@[0] != "dflash"@[0]);
}

/// A candidate is timed with teacher forcing exactly when its mode is `serial`, and so is its
/// control; the only accepted baseline is a serial one.
pub proof fn only_a_serial_spec_is_teacher_forced(spec: SpecView)
    ensures
        regime_of(spec) == LegRegime::TeacherForcedV1 <==> spec.mode == "serial"@,
        regime_of(spec) == LegRegime::FreeRunV1_1 <==> spec.mode != "serial"@,
        baseline_spec_refusal(spec) is None <==> spec.mode == "serial"@,
{
}

/// A spec is coherent exactly when an `mtp` block with a depth above zero is there in the mode
/// `mtp` alone, and a `dflash` block in the mode `dflash` alone.
pub proof fn a_spec_carries_the_block_of_its_mode_alone(spec: SpecView)
    ensures
        module_refusal(spec) is None <==> {
            &&& spec.mtp_depth is Some <==> spec.mode == "mtp"@
            &&& spec.dflash <==> spec.mode == "dflash"@
            &&& spec.mtp_depth matches Some(d) ==> d >= 1
        },
{
    reveal_strlit("mtp");
    reveal_strlit("dflash");
    assert("mtp"@.len() != "dflash"@.len());
}

/// A spec is within a cap exactly when it has no depth or one that is not above it.
pub proof fn a_depth_is_refused_exactly_above_the_cap(spec: SpecView, cap: nat)
    ensures
        cap_refusal(spec, cap) is Some <==> spec.mtp_depth is Some && spec.mtp_depth->0 > cap,
{
}

/// Only a local run sets its own cap, and only by a number; every other cap is thirty-two.
pub proof fn only_a_local_run_sets_its_cap(local_dev: bool, setting: Option<Seq<char>>)
    ensures
        !local_dev || setting is None ==> depth_cap(local_dev, setting) == 32,
        local_dev && setting is Some && numeral_read(trimmed(setting->0), usize::MAX as nat) is Err
            ==> depth_cap(local_dev, setting) == 32,
        local_dev && setting is Some ==> (numeral_read(
            trimmed(setting->0),
            usize::MAX as nat,
        ) matches Ok(n) ==> depth_cap(local_dev, setting) == n),
{
}

/// Exactly four names stand for a probe, each for its own.
pub proof fn only_their_names_stand_for_probes(s: Seq<char>)
    ensures
        probe_named(s) == Some(ExactnessProbe::Never) <==> s == "none"@,
        probe_named(s) == Some(ExactnessProbe::Once) <==> s == "once"@,
        probe_named(s) == Some(ExactnessProbe::PerPrompt) <==> s == "per-prompt"@,
        probe_named(s) == Some(ExactnessProbe::PerPair) <==> s == "per-pair"@,
{
    reveal_strlit("none");
    reveal_strlit("once");
    reveal_strlit("per-prompt");
    reveal_strlit("per-pair");
    assert("none"@[0] != "once"@[0]);
    assert("none"@.len() == 4 && "once"@.len() == 4);
    assert("per-prompt"@.len() == 10 && "per-pair"@.len() == 8);
}

/// A spec is seen as it is declared; the two specs that runs start from are a serial one without a
/// block and an `mtp` one with its depth.
pub proof fn specs_are_seen_as_they_are_declared(spec: SpecConfig, depth: u32)
    ensures
        spec@.mode == spec.mode@,
        spec@.mtp_depth == spec.mtp_depth,
        spec@.dflash == spec.dflash,
        serial_spec().mode == "serial"@ && serial_spec().mtp_depth is None
            && !serial_spec().dflash,
        mtp_spec(depth).mode == "mtp"@ && mtp_spec(depth).mtp_depth == Some(depth) && !mtp_spec(
            depth,
        ).dflash,
{
}

/// An incoherent spec is told by the first of these: a block of another mode, the block of its own
/// mode missing, or a depth of zero.
pub proof fn an_incoherent_spec_is_told_by_the_first_fault(spec: SpecView)
    ensures
        ({
            let r = module_refusal(spec);
            let f0 = spec.mtp_depth is Some && spec.mode != "mtp"@;
            let f1 = spec.dflash && spec.mode != "dflash"@;
            let f2 = spec.mode == "mtp"@ && spec.mtp_depth is None || spec.mode == "dflash"@ && !spec.dflash;
            let f3 = spec.mtp_depth is Some && spec.mtp_depth->0 == 0;
            &&& f0 ==> r == Some(cross_module(spec.mode, "mtp"@))
            &&& !f0 && f1 ==> r == Some(cross_module(spec.mode, "dflash"@))
            &&& !f0 && !f1 && f2 ==> r == Some(module_missing(spec.mode))
            &&& !f0 && !f1 && !f2 && f3 ==> r == Some(depth_zero())
            &&& r is None <==> !f0 && !f1 && !f2 && !f3
        }),
{
    reveal_strlit("mtp");
    reveal_strlit("dflash");
    assert("mtp"@.len() != "dflash"@.len());
}

/// A depth beyond the cap is told with the cap, and a baseline that is not serial by its mode.
pub proof fn a_refused_spec_is_told_by_what_it_declares(spec: SpecView, cap: nat)
    ensures
        spec.mtp_depth matches Some(d) ==> d > cap ==> cap_refusal(spec, cap) == Some(
            depth_over_cap(d as nat, cap),
        ),
        spec.mode != "serial"@ ==> baseline_spec_refusal(spec) == Some(
            baseline_not_serial(spec.mode),
        ),
{
}

} // verus!
