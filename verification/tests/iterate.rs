use benchctl::args::{asks_help, parse_golden_pin, Mode};
use benchctl::iterate::{
    cool_gate_enabled, iterate_exit_status, iterate_route, official_gates_only_from_env,
    resolve_paired_baselines, run_baselines, IterateRoute, RunBaselines,
};
use benchctl::iterate_args::{parse_iterate_args, IterateArgs};
use benchctl::number::Number;
use benchctl::official::GoldenSummary;
use benchctl::overlay_args::{parse_overlay_timing_args, OverlayTimingArgs};

fn num(x: f64) -> Number {
    Number {
        bits: x.to_bits(),
        display: x.to_string(),
        debug: format!("{x:?}"),
    }
}

fn val(n: &Number) -> f64 {
    f64::from_bits(n.bits)
}

fn words(list: &[&str]) -> Vec<String> {
    list.iter().map(|s| s.to_string()).collect()
}

/// Parses with the numbers that the arguments read as.
fn parse(list: &[&str]) -> Result<Option<IterateArgs>, String> {
    let args = words(list);
    let readings = args
        .iter()
        .map(|a| a.parse::<f64>().ok().map(num))
        .collect();
    parse_iterate_args(&args, &readings)
}

fn parsed(list: &[&str]) -> IterateArgs {
    parse(list).unwrap().unwrap()
}

const BASE: [&str; 6] = ["--engine", "e", "--weights", "w", "--golden", "g"];

fn with(extra: &[&'static str]) -> Vec<&'static str> {
    let mut v = BASE.to_vec();
    v.extend(extra);
    v
}

fn golden(pair: Option<(f64, f64)>) -> GoldenSummary {
    GoldenSummary {
        has_benchmark: true,
        baseline_prefill_seconds_per_token: pair.map(|p| num(p.0)),
        baseline_decode_seconds_per_token: pair.map(|p| num(p.1)),
        behavior_cases: None,
        total_case_count: 1,
    }
}

fn floats(pair: Option<(Number, Number)>) -> Option<(f64, f64)> {
    pair.map(|(p, d)| (val(&p), val(&d)))
}

#[test]
fn resolve_paired_baselines_requires_golden_or_flags() {
    let with = golden(Some((0.01, 0.1)));
    let without = golden(None);
    assert_eq!(
        floats(resolve_paired_baselines(None, &with)),
        Some((0.01, 0.1))
    );
    assert_eq!(floats(resolve_paired_baselines(None, &without)), None);
    assert_eq!(
        floats(resolve_paired_baselines(
            Some((num(0.02), num(0.2))),
            &without
        )),
        Some((0.02, 0.2))
    );
}

#[test]
fn half_a_declared_pair_is_no_pair() {
    let mut half = golden(Some((0.01, 0.1)));
    half.baseline_decode_seconds_per_token = None;
    assert!(resolve_paired_baselines(None, &half).is_none());
    let mut no_oracle = golden(Some((0.01, 0.1)));
    no_oracle.has_benchmark = false;
    assert!(resolve_paired_baselines(None, &no_oracle).is_none());
}

#[test]
fn half_set_baseline_flags_are_a_usage_error() {
    assert!(parse(&with(&["--baseline-prefill-spt", "0.01"])).is_err());
    assert!(parse(&with(&["--baseline-decode-spt", "0.1"])).is_err());
    assert!(parse(&with(&[
        "--baseline-prefill-spt",
        "0.01",
        "--baseline-decode-spt",
        "0.1"
    ]))
    .unwrap()
    .is_some());
    assert!(parse(&with(&[])).unwrap().is_some());
}

#[test]
fn run_baselines_ignores_the_goldens_pair_on_the_local_legs() {
    let (stale_prefill, stale_decode) = (0.00085, 0.0275);
    let (want_prefill, want_decode) = (0.0011, 0.0381);
    let golden = golden(Some((stale_prefill, stale_decode)));
    assert_eq!(
        floats(resolve_paired_baselines(None, &golden)),
        Some((stale_prefill, stale_decode))
    );
    for mode in [Mode::LocalIterate, Mode::LocalSubmit] {
        for flags in [None, Some((0.5_f64, 0.6_f64))] {
            let route = iterate_route(
                mode,
                None,
                &flags.map(|f| num(f.0)),
                &flags.map(|f| num(f.1)),
                Ok(None),
                &golden,
                &num(want_prefill),
                &num(want_decode),
            )
            .unwrap();
            match route {
                IterateRoute::Local {
                    prefill,
                    decode,
                    flags_ignored,
                } => {
                    assert_eq!((val(&prefill), val(&decode)), (want_prefill, want_decode));
                    assert_eq!(flags_ignored, flags.is_some());
                }
                other => panic!("{} took another path: {other:?}", mode.mode_name()),
            }
            match run_baselines(mode, flags.is_some(), &num(want_prefill), &num(want_decode)) {
                RunBaselines::Decided {
                    prefill,
                    decode,
                    flags_ignored,
                } => {
                    assert_eq!((val(&prefill), val(&decode)), (want_prefill, want_decode));
                    assert_ne!(val(&prefill), stale_prefill);
                    assert_ne!(val(&decode), stale_decode);
                    assert_eq!(flags_ignored, flags.is_some());
                }
                other => panic!("{} must not defer, got {other:?}", mode.mode_name()),
            }
        }
    }
    assert!(matches!(
        run_baselines(
            Mode::Official,
            false,
            &num(want_prefill),
            &num(want_decode)
        ),
        RunBaselines::ResolveFromOverrideOrGolden
    ));
}

fn official_route(
    skip_timed: Option<&str>,
    flags: Option<(f64, f64)>,
    settings: Result<Option<(Number, Number)>, String>,
    golden: &GoldenSummary,
) -> Result<IterateRoute, String> {
    iterate_route(
        Mode::Official,
        skip_timed,
        &flags.map(|f| num(f.0)),
        &flags.map(|f| num(f.1)),
        settings,
        golden,
        &num(9.0),
        &num(9.5),
    )
}

#[test]
fn official_baselines_come_from_settings_then_flags_then_golden() {
    let declaring = golden(Some((0.3, 0.33)));
    let pair = |r: Result<IterateRoute, String>| match r.unwrap() {
        IterateRoute::Official { prefill, decode } => (val(&prefill), val(&decode)),
        other => panic!("{other:?}"),
    };
    let settings = Ok(Some((num(0.1), num(0.11))));
    assert_eq!(
        pair(official_route(None, Some((0.2, 0.22)), settings, &declaring)),
        (0.1, 0.11)
    );
    assert_eq!(
        pair(official_route(None, Some((0.2, 0.22)), Ok(None), &declaring)),
        (0.2, 0.22)
    );
    assert_eq!(
        pair(official_route(None, None, Ok(None), &declaring)),
        (0.3, 0.33)
    );
    assert!(matches!(
        official_route(None, None, Ok(None), &golden(None)).unwrap(),
        IterateRoute::BaselinesMissing
    ));
    assert_eq!(
        official_route(None, None, Err("half set".to_string()), &declaring).unwrap_err(),
        "half set"
    );
}

#[test]
fn only_the_exact_setting_asks_for_the_gates_alone() {
    assert!(official_gates_only_from_env(Some("1")));
    assert!(!official_gates_only_from_env(Some("true")));
    assert!(!official_gates_only_from_env(Some(" 1")));
    assert!(!official_gates_only_from_env(None));
    let g = golden(None);
    assert!(matches!(
        official_route(Some("1"), None, Err("unused".to_string()), &g).unwrap(),
        IterateRoute::GatesOnly
    ));
    assert!(matches!(
        iterate_route(
            Mode::LocalSubmit,
            Some("1"),
            &None,
            &None,
            Err("unused".to_string()),
            &g,
            &num(9.0),
            &num(9.5)
        )
        .unwrap(),
        IterateRoute::Local { .. }
    ));
}

#[test]
fn cool_gate_flag_defaults_off_and_opts_in() {
    assert_eq!(parsed(&with(&[])).cool_gate, None);
    assert_eq!(parsed(&with(&["--cool-gate"])).cool_gate, Some(true));
    assert_eq!(parsed(&with(&["--no-cool-gate"])).cool_gate, Some(false));
    assert!(parse(&with(&["--cool-gate", "--no-cool-gate"])).is_err());
    assert!(parse(&with(&["--no-cool-gate", "--cool-gate"])).is_err());
    assert!(!Mode::LocalIterate.cool_gate_on_by_default());
    assert!(!Mode::Official.cool_gate_on_by_default());
    assert!(Mode::LocalSubmit.cool_gate_on_by_default());
}

#[test]
fn an_asked_cool_gate_wins_over_the_mode() {
    assert!(cool_gate_enabled(Some(true), Mode::LocalIterate));
    assert!(!cool_gate_enabled(Some(false), Mode::LocalSubmit));
    assert!(cool_gate_enabled(None, Mode::LocalSubmit));
    assert!(!cool_gate_enabled(None, Mode::Official));
}

#[test]
fn local_submit_defaults_to_plain_score_json_and_integrity() {
    let ok = parsed(&with(&["--mode", "local-submit"]));
    assert_eq!(ok.mode, Mode::LocalSubmit);
    assert_eq!(ok.score_path, "score.json");
    let iter = parsed(&with(&[]));
    assert_eq!(iter.score_path, "score.local-iterate.json");
}

#[test]
fn strict_flag_defaults_off_and_opts_in() {
    assert!(!parsed(&with(&[])).strict);
    assert!(parsed(&with(&["--strict"])).strict);
}

#[test]
fn parse_requires_engine_weights_golden() {
    assert!(parse(&["--engine", "e"]).is_err());
    let ok = parsed(&with(&[]));
    assert_eq!(ok.engine, "e");
    assert_eq!(ok.weights, "w");
    assert_eq!(ok.golden, "g");
    assert_eq!(ok.mode, Mode::LocalIterate);
    assert_eq!(ok.score_path, "score.local-iterate.json");
}

#[test]
fn parse_help_returns_none() {
    assert!(parse(&["--help"]).unwrap().is_none());
    assert!(parse(&["-h"]).unwrap().is_none());
    assert!(asks_help("--help") && asks_help("-h") && !asks_help("help"));
}

#[test]
fn parse_mode_and_baselines() {
    let ok = parsed(&with(&[
        "--mode",
        "official",
        "--baseline-prefill-spt",
        "0.01",
        "--baseline-decode-spt",
        "0.13",
        "--score-path",
        "out/score.json",
    ]));
    assert_eq!(ok.mode, Mode::Official);
    assert_eq!(val(&ok.baseline_prefill_spt.unwrap()), 0.01);
    assert_eq!(val(&ok.baseline_decode_spt.unwrap()), 0.13);
    assert_eq!(ok.score_path, "out/score.json");
}

#[test]
fn golden_pin_requires_both_or_neither() {
    let text = |s: &str| Some(s.to_string());
    assert!(parse_golden_pin(None, None).unwrap().is_none());
    let pin = parse_golden_pin(text("abc"), text("10")).unwrap().unwrap();
    assert_eq!(pin.bytes, 10);
    assert!(parse_golden_pin(text("abc"), None).is_err());
    assert!(parse_golden_pin(None, text("10")).is_err());
    assert!(parse_golden_pin(text("abc"), text("nan")).is_err());
}

#[test]
fn iterate_parses_golden_pin_flags() {
    let ok = parsed(&with(&[
        "--golden-sha256",
        "deadbeef",
        "--golden-bytes",
        "42",
    ]));
    let pin = ok.golden_pin.unwrap();
    assert_eq!(pin.sha256, "deadbeef");
    assert_eq!(pin.bytes, 42);
}

#[test]
fn parse_rejects_bad_mode_and_unknown_flag() {
    assert!(parse(&with(&["--mode", "turbo"])).is_err());
    assert!(parse(&["--bogus"]).is_err());
}

#[test]
fn iterate_exit_status_maps_pass_to_zero_and_fail_to_nonzero() {
    assert_eq!(iterate_exit_status(true), 0, "passing run exits 0");
    assert_eq!(
        iterate_exit_status(false),
        1,
        "failing/rejected run exits nonzero"
    );
    assert_ne!(
        iterate_exit_status(false),
        0,
        "a non-pass must never map to success"
    );
}

#[test]
fn refusals_name_the_argument() {
    let e = parse(&["--bogus"]).unwrap_err();
    assert!(e.contains("--bogus"), "{e}");
    let e = parse(&["--engine"]).unwrap_err();
    assert!(e.contains("--engine"), "{e}");
    let e = parse(&with(&["--mode", "turbo"])).unwrap_err();
    assert!(e.contains("turbo"), "{e}");
    let e = parse(&with(&["--baseline-decode-spt", "cheese"])).unwrap_err();
    assert!(e.contains("--baseline-decode-spt"), "{e}");
    let e = parse(&with(&["--golden-sha256", "deadbeef"])).unwrap_err();
    assert!(e.contains("--golden-bytes"), "{e}");
}

#[test]
fn mode_names_are_read_back() {
    for mode in [Mode::LocalIterate, Mode::LocalSubmit, Mode::Official] {
        assert_eq!(Mode::parse(mode.mode_name()), Some(mode));
    }
    assert_eq!(Mode::parse("Official"), None);
    assert!(Mode::LocalSubmit.is_local_checked_timing());
    assert!(!Mode::Official.is_local_checked_timing());
}

fn overlay(list: &[&str]) -> Result<Option<OverlayTimingArgs>, String> {
    parse_overlay_timing_args(&words(list))
}

#[test]
fn overlay_timing_asks_for_both_halves_and_a_place() {
    let a = overlay(&[
        "--gates-score",
        "g.json",
        "--results",
        "r.json",
        "--score-path",
        "s.json",
        "--integrity",
        "i.json",
        "--contract",
        "c.json",
    ])
    .unwrap()
    .unwrap();
    assert_eq!(a.gates_score, "g.json");
    assert_eq!(a.results, "r.json");
    assert_eq!(a.score_path, "s.json");
    assert_eq!(a.integrity.as_deref(), Some("i.json"));
    assert_eq!(a.contract.as_deref(), Some("c.json"));
    let bare = overlay(&[
        "--gates-score",
        "g.json",
        "--results",
        "r.json",
        "--score-path",
        "s.json",
    ])
    .unwrap()
    .unwrap();
    assert_eq!(bare.integrity, None);
    assert_eq!(bare.contract, None);
    assert!(overlay(&["--gates-score", "g.json"]).is_err());
    assert!(overlay(&["--results"]).is_err());
    assert!(overlay(&["--nope"]).is_err());
    assert!(overlay(&["--results", "r", "--help"]).unwrap().is_none());
}
