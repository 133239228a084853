//! How an `iterate` run is made: where its baselines come from and which path it takes.
use crate::args::Mode;
use crate::number::Number;
use crate::official::GoldenSummary;
use crate::text::same_text;
use vstd::prelude::*;

verus! {

/// Where the baselines of a run come from.
#[derive(Debug)]
pub enum RunBaselines {
    /// A local run: the constants of the track, whatever anything else says.
    Decided { prefill: Number, decode: Number, flags_ignored: bool },
    /// An official run: the override, or else the golden.
    ResolveFromOverrideOrGolden,
}

/// Where the baselines of a run come from. The golden has no say on a local run, and neither have
/// the flags: that they were given is only reported.
pub fn run_baselines(
    mode: Mode,
    flags_given: bool,
    prefill_constant: &Number,
    decode_constant: &Number,
) -> (r: RunBaselines)
    ensures
        r == (if mode is Official {
            RunBaselines::ResolveFromOverrideOrGolden
        } else {
            RunBaselines::Decided {
                prefill: *prefill_constant,
                decode: *decode_constant,
                flags_ignored: flags_given,
            }
        }),
{
    if mode.is_local_checked_timing() {
        RunBaselines::Decided {
            prefill: prefill_constant.duplicate(),
            decode: decode_constant.duplicate(),
            flags_ignored: flags_given,
        }
    } else {
        RunBaselines::ResolveFromOverrideOrGolden
    }
}

/// The pair that a golden declares: both of its baselines, or nothing.
pub open spec fn declared_pair(golden: GoldenSummary) -> Option<(Number, Number)> {
    match (
        golden.has_benchmark,
        golden.baseline_prefill_seconds_per_token,
        golden.baseline_decode_seconds_per_token,
    ) {
        (true, Some(p), Some(d)) => Some((p, d)),
        _ => None,
    }
}

/// The baselines of an official run: the override, or else the pair that the golden declares.
pub open spec fn paired_baselines(
    flag_override: Option<(Number, Number)>,
    golden: GoldenSummary,
) -> Option<(Number, Number)> {
    match flag_override {
        Some(pair) => Some(pair),
        None => declared_pair(golden),
    }
}

/// The baselines of an official run. There is no constant to fall back on.
pub fn resolve_paired_baselines(
    flag_override: Option<(Number, Number)>,
    golden: &GoldenSummary,
) -> (r: Option<(Number, Number)>)
    ensures
        r == paired_baselines(flag_override, *golden),
{
    match flag_override {
        Some(pair) => return Some(pair),
        None => {},
    }
    if !golden.has_benchmark {
        return None;
    }
    match (
        &golden.baseline_prefill_seconds_per_token,
        &golden.baseline_decode_seconds_per_token,
    ) {
        (Some(p), Some(d)) => Some((p.duplicate(), d.duplicate())),
        _ => None,
    }
}

/// A setting that asks for the gates alone.
pub open spec fn asks_gates_only(setting: Option<&str>) -> bool {
    setting matches Some(s) && s@ == "1"@
}

/// Whether a setting asks for the gates alone: only `1` does.
pub fn official_gates_only_from_env(setting: Option<&str>) -> (r: bool)
    ensures
        r == asks_gates_only(setting),
{
    match setting {
        Some(s) => same_text(s, "1"),
        None => false,
    }
}

/// The path that a run takes.
#[derive(Debug)]
pub enum IterateRoute {
    /// An official run of the gates alone.
    GatesOnly,
    Local { prefill: Number, decode: Number, flags_ignored: bool },
    /// An official run without baselines.
    BaselinesMissing,
    Official { prefill: Number, decode: Number },
}

/// The pair of the flags: both, or nothing.
pub open spec fn flag_pair(prefill: Option<Number>, decode: Option<Number>) -> Option<
    (Number, Number),
> {
    match (prefill, decode) {
        (Some(p), Some(d)) => Some((p, d)),
        _ => None,
    }
}

/// The path that a run takes, or the refusal of its baseline settings. An official run of the gates
/// alone needs no baselines; a local run takes the constants; any other run takes the pair of the
/// settings, else that of the flags, else that of the golden.
pub open spec fn route_of(
    mode: Mode,
    skip_timed: Option<&str>,
    prefill_flag: Option<Number>,
    decode_flag: Option<Number>,
    settings: Result<Option<(Number, Number)>, String>,
    golden: GoldenSummary,
    prefill_constant: Number,
    decode_constant: Number,
) -> Result<IterateRoute, String> {
    if mode is Official && asks_gates_only(skip_timed) {
        Ok(IterateRoute::GatesOnly)
    } else if !(mode is Official) {
        Ok(
            IterateRoute::Local {
                prefill: prefill_constant,
                decode: decode_constant,
                flags_ignored: flag_pair(prefill_flag, decode_flag) is Some,
            },
        )
    } else {
        match settings {
            Err(e) => Err(e),
            Ok(pair) => {
                let chosen = match pair {
                    Some(p) => Some(p),
                    None => flag_pair(prefill_flag, decode_flag),
                };
                match paired_baselines(chosen, golden) {
                    Some(b) => Ok(IterateRoute::Official { prefill: b.0, decode: b.1 }),
                    None => Ok(IterateRoute::BaselinesMissing),
                }
            },
        }
    }
}

/// The path that a run takes.
pub fn iterate_route(
    mode: Mode,
    skip_timed: Option<&str>,
    prefill_flag: &Option<Number>,
    decode_flag: &Option<Number>,
    settings: Result<Option<(Number, Number)>, String>,
    golden: &GoldenSummary,
    prefill_constant: &Number,
    decode_constant: &Number,
) -> (r: Result<IterateRoute, String>)
    ensures
        r == route_of(
            mode,
            skip_timed,
            *prefill_flag,
            *decode_flag,
            settings,
            *golden,
            *prefill_constant,
            *decode_constant,
        ),
{
    let official = !mode.is_local_checked_timing();
    if official && official_gates_only_from_env(skip_timed) {
        return Ok(IterateRoute::GatesOnly);
    }
    let flags_given = prefill_flag.is_some() && decode_flag.is_some();
    match run_baselines(mode, flags_given, prefill_constant, decode_constant) {
        RunBaselines::Decided { prefill, decode, flags_ignored } => {
            return Ok(IterateRoute::Local { prefill, decode, flags_ignored });
        },
        RunBaselines::ResolveFromOverrideOrGolden => {},
    }
    let pair = match settings {
        Err(e) => return Err(e),
        Ok(pair) => pair,
    };
    let chosen = match pair {
        Some(p) => Some(p),
        None => match (prefill_flag, decode_flag) {
            (Some(p), Some(d)) => Some((p.duplicate(), d.duplicate())),
            _ => None,
        },
    };
    match resolve_paired_baselines(chosen, golden) {
        Some(b) => Ok(IterateRoute::Official { prefill: b.0, decode: b.1 }),
        None => Ok(IterateRoute::BaselinesMissing),
    }
}

/// Whether a run waits for the machine to cool: what was asked for, or what its mode does.
pub fn cool_gate_enabled(asked: Option<bool>, mode: Mode) -> (r: bool)
    ensures
        r == (match asked {
            Some(b) => b,
            None => mode is LocalSubmit,
        }),
{
    match asked {
        Some(b) => b,
        None => mode.cool_gate_on_by_default(),
    }
}

/// The exit status of a run: zero exactly when it passed.
pub fn iterate_exit_status(passed: bool) -> (r: u8)
    ensures
        r == (if passed {
            0u8
        } else {
            1u8
        }),
{
    if passed {
        0
    } else {
        1
    }
}

/// On a local run neither the golden, nor the baseline settings, nor the baseline flags decide the
/// baselines.
pub proof fn local_baselines_are_the_constants(
    mode: Mode,
    skip_timed: Option<&str>,
    prefill_flag: Option<Number>,
    decode_flag: Option<Number>,
    settings: Result<Option<(Number, Number)>, String>,
    golden: GoldenSummary,
    prefill_constant: Number,
    decode_constant: Number,
)
    requires
        !(mode is Official),
    ensures
        route_of(
            mode,
            skip_timed,
            prefill_flag,
            decode_flag,
            settings,
            golden,
            prefill_constant,
            decode_constant,
        ) matches Ok(IterateRoute::Local { prefill, decode, .. }) && prefill == prefill_constant
            && decode == decode_constant,
{
}

/// An official run never falls back on the constants: its path is the same whatever they are.
pub proof fn official_baselines_are_never_the_constants(
    skip_timed: Option<&str>,
    prefill_flag: Option<Number>,
    decode_flag: Option<Number>,
    settings: Result<Option<(Number, Number)>, String>,
    golden: GoldenSummary,
    a: (Number, Number),
    b: (Number, Number),
)
    ensures
        route_of(
            Mode::Official,
            skip_timed,
            prefill_flag,
            decode_flag,
            settings,
            golden,
            a.0,
            a.1,
        ) == route_of(
            Mode::Official,
            skip_timed,
            prefill_flag,
            decode_flag,
            settings,
            golden,
            b.0,
            b.1,
        ),
{
}

/// The settings win over the flags, and the flags over the golden.
pub proof fn official_baselines_have_one_order(
    pair: (Number, Number),
    prefill_flag: Option<Number>,
    decode_flag: Option<Number>,
    golden: GoldenSummary,
    constants: (Number, Number),
)
    ensures
        route_of(
            Mode::Official,
            None,
            prefill_flag,
            decode_flag,
            Ok(Some(pair)),
            golden,
            constants.0,
            constants.1,
        ) == Ok::<IterateRoute, String>(
            IterateRoute::Official { prefill: pair.0, decode: pair.1 },
        ),
        flag_pair(prefill_flag, decode_flag) matches Some(f) ==> route_of(
            Mode::Official,
            None,
            prefill_flag,
            decode_flag,
            Ok(None),
            golden,
            constants.0,
            constants.1,
        ) == Ok::<IterateRoute, String>(IterateRoute::Official { prefill: f.0, decode: f.1 }),
{
}

/// Which path a run takes. The gates alone are run exactly when the run is official and the setting
/// is `1`. A local run says that its flags are ignored exactly when both were given. An official
/// run takes both baselines from one place: the settings, else the flags where both are there, else
/// the golden where it declares both; where no place gives both they are missing.
pub proof fn a_route_is_decided_by_one_source(
    mode: Mode,
    skip_timed: Option<&str>,
    prefill_flag: Option<Number>,
    decode_flag: Option<Number>,
    settings: Result<Option<(Number, Number)>, String>,
    golden: GoldenSummary,
    prefill_constant: Number,
    decode_constant: Number,
)
    ensures
        ({
            let r = route_of(
                mode,
                skip_timed,
                prefill_flag,
                decode_flag,
                settings,
                golden,
                prefill_constant,
                decode_constant,
            );
            let gates_alone = mode == Mode::Official && skip_timed is Some && skip_timed->0@
                == "1"@;
            let timed = mode == Mode::Official && !gates_alone;
            let flags = prefill_flag is Some && decode_flag is Some;
            let declared = golden.has_benchmark && golden.baseline_prefill_seconds_per_token
                is Some && golden.baseline_decode_seconds_per_token is Some;
            &&& (r matches Ok(IterateRoute::GatesOnly)) <==> gates_alone
            &&& (r matches Ok(IterateRoute::Local { .. })) <==> mode != Mode::Official
            &&& mode != Mode::Official ==> r == Ok::<IterateRoute, String>(
                IterateRoute::Local {
                    prefill: prefill_constant,
                    decode: decode_constant,
                    flags_ignored: flags,
                },
            )
            &&& timed && settings is Err ==> r == Err::<IterateRoute, String>(settings->Err_0)
            &&& timed && settings is Ok ==> r is Ok
            &&& timed && settings is Ok && settings->Ok_0 is Some ==> r->Ok_0
                == ({
                let (prefill, decode) = settings->Ok_0->0;
                IterateRoute::Official { prefill, decode }
            })
            &&& timed && settings is Ok && settings->Ok_0 is None && flags ==> r->Ok_0
                == (IterateRoute::Official { prefill: prefill_flag->0, decode: decode_flag->0 })
            &&& timed && settings is Ok && settings->Ok_0 is None && !flags && declared
                ==> r->Ok_0 == (IterateRoute::Official {
                prefill: golden.baseline_prefill_seconds_per_token->0,
                decode: golden.baseline_decode_seconds_per_token->0,
            })
            &&& (r matches Ok(IterateRoute::BaselinesMissing)) <==> timed && settings is Ok
                && settings->Ok_0 is None && !flags && !declared
        }),
{
}

/// The baselines of an official run are both of the override, or both of a golden that has a
/// benchmark and declares both, and otherwise there are none.
pub proof fn baselines_come_in_pairs(
    flag_override: Option<(Number, Number)>,
    golden: GoldenSummary,
)
    ensures
        flag_override is Some ==> paired_baselines(flag_override, golden) == flag_override,
        flag_override is None ==> {
            let r = paired_baselines(flag_override, golden);
            &&& r is Some <==> golden.has_benchmark && golden.baseline_prefill_seconds_per_token
                is Some && golden.baseline_decode_seconds_per_token is Some
            &&& r matches Some(pair) ==> Some(pair.0) == golden.baseline_prefill_seconds_per_token
                && Some(pair.1) == golden.baseline_decode_seconds_per_token
        },
{
}

/// Only the text `1` asks for the gates alone.
pub proof fn only_one_asks_for_the_gates_alone(setting: Option<&str>)
    ensures
        asks_gates_only(setting) <==> setting is Some && setting->0@.len() == 1 && setting->0@[0]
            == '1',
{
    reveal_strlit("1");
    if setting is Some && setting->0@.len() == 1 && setting->0@[0] == '1' {
        assert(setting->0@ =~= "1"@);
    }
}

} // verus!
