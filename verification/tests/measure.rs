use benchctl::args::GoldenIntegrityPin;
use benchctl::measure::{
    bootstrap_step, calibration_to_read, check_failure, check_head_dirs, check_prompt_pin,
    golden_kind_summary, judge, load_timed_prompt_refusal, measure_job_exit_status, next_step,
    resolve_calibration_env, scope_notice, should_author_bootstrap, uses_calibrated_ceiling,
    width_notice, worker_bin,
    BootstrapStep, CalibrationOutcome, Check, HeadDir, MeasureContext, MeasureJobFailure,
    MeasureJobVerdict, MeasureStep, PromptRejection, ResolvedCalibration,
};
use benchctl::measure_args::{
    parse_measure_job_args, read_measure_flags, validate_gates_producer, MeasureJobArgs,
    MeasureSettings, DEFAULT_MTP_DEPTH, DEFAULT_TOKENS, FREE_RUN_DECODE_TOKENS,
    GATES_PRODUCER_UNDECLARED, SPEC_SOURCE_MTP_DEPTH_DEFAULT, SPEC_SOURCE_MTP_DEPTH_FLAG,
};
use benchctl::number::Number;
use benchctl::overlay::view::TIMED_MODE_TEACHER_FORCED_V1;
use benchctl::spec_config::{
    candidate_regime_for_spec, leg_wire_spec, resolve_max_draft_depth_cap, run_timed_mode,
    serial_control_regime_for, validate_baseline_is_serial, validate_spec_capped,
    validate_spec_module_coherent, ExactnessProbe, LegRegime, SpecConfig, WireSpec,
    DEFAULT_MAX_DRAFT_DEPTH_CAP,
};
use benchctl::track::{
    all_distinct, attestation_cites, band_enforced, dflash_head_present, goldens_distinct,
    mode_admitted, scoring_enabled,
};

fn num(x: f64) -> Number {
    Number {
        bits: x.to_bits(),
        display: x.to_string(),
        debug: format!("{x:?}"),
    }
}

fn words(list: &[&str]) -> Vec<String> {
    list.iter().map(|s| s.to_string()).collect()
}

fn no_settings() -> MeasureSettings {
    MeasureSettings {
        prefill_baseline: None,
        decode_baseline: None,
        target_dir: None,
        max_draft_depth: None,
    }
}

/// Reads the document of a spec.
fn read_spec(text: &str) -> Result<SpecConfig, String> {
    let v: serde_json::Value = serde_json::from_str(text).map_err(|e| e.to_string())?;
    let mode = v
        .get("mode")
        .and_then(|m| m.as_str())
        .ok_or_else(|| "missing field `mode`".to_string())?;
    Ok(SpecConfig {
        mode: mode.to_string(),
        mtp_depth: v
            .get("mtp")
            .and_then(|m| m.get("depth"))
            .and_then(|d| d.as_u64())
            .map(|d| d as u32),
        dflash: v.get("dflash").is_some(),
    })
}

fn after(args: &[String], flag: &str) -> Result<SpecConfig, String> {
    match args.iter().rposition(|a| a == flag) {
        Some(i) if i + 1 < args.len() => read_spec(&args[i + 1]),
        _ => Err("no document".to_string()),
    }
}

fn parse_with(
    args: &[String],
    settings: &MeasureSettings,
) -> Result<Option<MeasureJobArgs>, String> {
    let args = args.to_vec();
    let candidate = after(&args, "--candidate-spec");
    let baseline = after(&args, "--baseline-spec");
    parse_measure_job_args(&args, settings, candidate, baseline)
}

fn parse(args: &[String]) -> Result<Option<MeasureJobArgs>, String> {
    parse_with(args, &no_settings())
}

fn parsed(args: &[String]) -> MeasureJobArgs {
    parse(args).unwrap().unwrap()
}

fn full() -> Vec<String> {
    words(&[
        "--candidate",
        "cand",
        "--baseline",
        "base",
        "--weights",
        "w",
        "--golden",
        "g",
        "--contract",
        "c",
        "--tokens",
        "128",
        "--mtp-depth",
        "2",
        "--min-pairs",
        "3",
        "--target-pairs",
        "4",
        "--tag",
        "trk",
        "--out",
        "o",
    ])
}

fn base() -> Vec<String> {
    words(&[
        "--candidate",
        "cand",
        "--baseline",
        "base",
        "--weights",
        "w",
        "--golden",
        "g",
        "--contract",
        "c",
        "--min-pairs",
        "3",
        "--target-pairs",
        "4",
        "--tag",
        "trk",
        "--out",
        "o",
    ])
}

fn plus(extra: &[&str]) -> Vec<String> {
    let mut v = base();
    v.extend(words(extra));
    v
}

fn same_spec(a: &SpecConfig, b: &SpecConfig) -> bool {
    a.mode == b.mode && a.mtp_depth == b.mtp_depth && a.dflash == b.dflash
}

#[test]
fn measure_job_integrity_seals_the_declared_gates_producer() {
    let base = full();
    let defaulted = parsed(&base);
    assert_eq!(defaulted.gates_producer, GATES_PRODUCER_UNDECLARED);
    assert!(!defaulted.gates_producer.is_empty());
    for producer in ["benchmark-sh", "facade", "direct-swift"] {
        let mut argv = base.clone();
        argv.extend(words(&["--gates-producer", producer]));
        assert_eq!(parsed(&argv).gates_producer, producer);
    }
    let mut unknown = base.clone();
    unknown.extend(words(&["--gates-producer", "some-future-producer"]));
    assert_eq!(parsed(&unknown).gates_producer, "some-future-producer");
    for bad in [
        "",
        "bench mark-sh",
        "facade\n",
        "facade\u{1b}[31m",
        "\tfacade",
    ] {
        let mut argv = base.clone();
        argv.extend(words(&["--gates-producer", bad]));
        assert!(
            parse(&argv).is_err(),
            "a sealable producer must reject {bad:?}"
        );
    }
}

#[test]
fn a_refused_producer_is_quoted() {
    assert_eq!(validate_gates_producer("facade").unwrap(), "facade");
    let e = validate_gates_producer("fa\u{1b}cade").unwrap_err();
    assert!(e.contains("\"fa\\u{1b}cade\""), "{e}");
    assert!(e.contains("'\\u{1b}'"), "{e}");
    let e = validate_gates_producer("a b").unwrap_err();
    assert!(e.contains("\"a b\"") && e.contains("' '"), "{e}");
}

#[test]
fn measure_job_parse_requires_all_workspace_flags_and_rejects_baseline_overrides() {
    let full = full();
    let ok = parsed(&full);
    assert_eq!(ok.tokens, 128);
    assert_eq!(ok.mtp_depth, 2);
    assert_eq!(ok.candidate_spec_source, SPEC_SOURCE_MTP_DEPTH_FLAG);
    let no_flag: Vec<String> = full
        .iter()
        .enumerate()
        .filter(|(i, _)| full[*i] != "--mtp-depth" && (*i == 0 || full[*i - 1] != "--mtp-depth"))
        .map(|(_, s)| s.clone())
        .collect();
    let defaulted = parsed(&no_flag);
    assert_eq!(defaulted.mtp_depth, DEFAULT_MTP_DEPTH);
    assert_eq!(
        defaulted.candidate_spec_source, SPEC_SOURCE_MTP_DEPTH_DEFAULT,
        "the no-flag path seals the DEFAULT source, not the flag source"
    );
    assert_eq!(ok.goldens, vec!["g".to_string()]);
    assert_eq!(ok.min_pairs, 3);
    assert_eq!(ok.target_pairs, 4);
    assert_eq!(ok.tag, "trk");
    assert_eq!(ok.weights, "w");
    let mut with_baseline = full.clone();
    with_baseline.extend(words(&["--baseline-decode-spt", "0.1"]));
    assert!(parse(&with_baseline).is_err());
    let mut with_engine = full.clone();
    with_engine.extend(words(&["--engine", "x"]));
    assert!(parse(&with_engine).is_err());
    assert!(parse(&full[..2]).is_err());
    let mut bad_target = full.clone();
    for k in 0..bad_target.len() {
        if bad_target[k] == "--target-pairs" {
            bad_target[k + 1] = "1".to_string();
        }
    }
    assert!(parse(&bad_target).is_err());
    let mut zero_tokens = full.clone();
    for k in 0..zero_tokens.len() {
        if zero_tokens[k] == "--tokens" {
            zero_tokens[k + 1] = "0".to_string();
        }
    }
    match parse(&zero_tokens) {
        Err(e) => assert!(
            e.contains("--tokens must be > 0"),
            "zero decode window rejected: {e}"
        ),
        Ok(_) => panic!("--tokens 0 must be rejected at parse"),
    }
}

const WEIGHTS_ENV_VAR: &str = "QMTP_TARGET_DIR";

#[test]
fn measure_job_weights_optional_derives_from_env_else_fails_closed() {
    let mut with_weights = full();
    for k in 0..with_weights.len() {
        if with_weights[k] == "--weights" {
            with_weights[k + 1] = "override-dir".to_string();
        }
    }
    let no_weights: Vec<String> = with_weights
        .iter()
        .filter(|&s| s != "--weights" && s != "override-dir")
        .cloned()
        .collect();
    match parse(&no_weights) {
        Err(e) => {
            assert!(e.contains("--weights"), "message names --weights: {e}");
            assert!(
                e.contains(WEIGHTS_ENV_VAR),
                "message names the env var: {e}"
            );
        }
        Ok(_) => panic!("neither --weights nor {WEIGHTS_ENV_VAR} set must fail closed"),
    }
    let mut settings = no_settings();
    settings.target_dir = Some("/on-box/derived-weights".to_string());
    let derived = parse_with(&no_weights, &settings).unwrap().unwrap();
    assert_eq!(derived.weights, "/on-box/derived-weights");
    let overridden = parse_with(&with_weights, &settings).unwrap().unwrap();
    assert_eq!(overridden.weights, "override-dir");
}

#[test]
fn a_set_paired_baseline_is_refused() {
    let mut settings = no_settings();
    settings.decode_baseline = Some("0.1".to_string());
    assert!(parse_with(&full(), &settings).is_err());
    let mut settings = no_settings();
    settings.prefill_baseline = Some("0.1".to_string());
    assert!(parse_with(&full(), &settings).is_err());
}

#[test]
fn h6_calibration_bootstrap_skips_the_pre_read_of_a_missing_file() {
    let missing = "/nowhere/benchctl-cal-missing.json";
    let outcome = || CalibrationOutcome::Unreadable {
        cause: "No such file or directory (os error 2)".to_string(),
    };
    let boot = resolve_calibration_env(
        true,
        Some(missing),
        outcome(),
        TIMED_MODE_TEACHER_FORCED_V1,
        "t1",
    )
    .unwrap();
    assert!(
        boot.is_none(),
        "bootstrap mode skips the pre-read; missing file → None"
    );
    assert_eq!(calibration_to_read(true, Some(missing)), None);
    assert_eq!(
        calibration_to_read(false, Some(missing)).as_deref(),
        Some(missing)
    );
    let strict = resolve_calibration_env(
        false,
        Some(missing),
        outcome(),
        TIMED_MODE_TEACHER_FORCED_V1,
        "t1",
    );
    let e = strict.expect_err("non-bootstrap missing calibration must die-6");
    assert_eq!(
        e.exit, 6,
        "missing calibration read is die-6 outside bootstrap"
    );
    assert!(e.message.contains(missing), "{}", e.message);
}

#[test]
fn h105_c5_calibration_pre_read_die6s_a_cross_series_or_cross_track_file() {
    let file = |timed_mode: &str, track: &str| CalibrationOutcome::Parsed {
        timed_mode: timed_mode.to_string(),
        track_id: track.to_string(),
        band: Ok((num(0.038), num(0.0418))),
    };
    let path = Some("/cal.json");
    let run_track = "qwen3.8-27b-mtp-v1";
    let tf = run_timed_mode(LegRegime::TeacherForcedV1);

    let e = resolve_calibration_env(false, path, file("native_mtp_v1", run_track), tf, run_track)
        .expect_err("a native-regime calibration must not band this run");
    assert_eq!(e.exit, 6, "cross-series calibration is die-6");
    assert!(e.message.contains("NOT comparable"), "{}", e.message);

    let e = resolve_calibration_env(false, path, file(tf, "qwen3.6-27b-mtp-v1"), tf, run_track)
        .expect_err("another track's calibration must not band this run");
    assert_eq!(e.exit, 6, "cross-track calibration is die-6");

    let resolved = resolve_calibration_env(false, path, file(tf, run_track), tf, run_track)
        .expect("a same-series, same-track calibration must resolve")
        .expect("a present file resolves to a band");
    assert_eq!(resolved.timed_mode, tf);
    assert_eq!(resolved.track_id, run_track);
    assert_eq!(f64::from_bits(resolved.serial_mean.bits), 0.038);

    let free_run = run_timed_mode(LegRegime::FreeRunV1_1);
    let e = resolve_calibration_env(false, path, file(tf, run_track), free_run, run_track)
        .expect_err("a teacher-forced band must not gate a free-run-series run");
    assert_eq!(e.exit, 6);
    assert!(e.message.contains("free_run_v1_1"), "{}", e.message);

    let resolved =
        resolve_calibration_env(false, path, file(free_run, run_track), free_run, run_track)
            .expect("a free-run-series calibration bands a free-run-series run")
            .expect("a present file resolves to a band");
    assert_eq!(resolved.timed_mode, free_run);
    let e = resolve_calibration_env(false, path, file(free_run, run_track), tf, run_track)
        .expect_err("a free-run band must not gate a teacher-forced run");
    assert_eq!(e.exit, 6);
}

#[test]
fn a_calibration_without_the_target_ends_the_run() {
    let e = resolve_calibration_env(
        false,
        Some("/cal.json"),
        CalibrationOutcome::Parsed {
            timed_mode: "s".to_string(),
            track_id: "t".to_string(),
            band: Err("no such target".to_string()),
        },
        "s",
        "t",
    )
    .unwrap_err();
    assert_eq!((e.exit, e.message.as_str()), (6, "no such target"));
    let e = resolve_calibration_env(
        false,
        Some("/cal.json"),
        CalibrationOutcome::Unparsable {
            cause: "not a calibration".to_string(),
        },
        "s",
        "t",
    )
    .unwrap_err();
    assert_eq!((e.exit, e.message.as_str()), (6, "not a calibration"));
}

#[test]
fn measure_job_exit_status_maps_accept_to_zero_and_reject_to_die5() {
    assert_eq!(
        measure_job_exit_status(MeasureJobVerdict::Accepted),
        0,
        "accepted candidate exits 0"
    );
    assert_eq!(
        measure_job_exit_status(MeasureJobVerdict::RejectedDie5),
        5,
        "die 5 exits 5"
    );
    assert_ne!(
        measure_job_exit_status(MeasureJobVerdict::RejectedDie5),
        1,
        "die 5 ≠ exit-1 error path"
    );
    assert_ne!(
        measure_job_exit_status(MeasureJobVerdict::RejectedDie5),
        2,
        "die 5 ≠ exit-2 usage/parse path"
    );
    assert_ne!(
        measure_job_exit_status(MeasureJobVerdict::Accepted),
        measure_job_exit_status(MeasureJobVerdict::RejectedDie5)
    );
    assert_eq!(
        measure_job_exit_status(MeasureJobVerdict::PreflightOk),
        0,
        "preflight-only exits 0"
    );
    assert_eq!(
        measure_job_exit_status(MeasureJobVerdict::CalibrationDrift),
        6,
        "calibration drift exits 6"
    );
    assert_ne!(
        measure_job_exit_status(MeasureJobVerdict::CalibrationDrift),
        5,
        "die 6 ≠ die 5"
    );
}

#[test]
fn measure_job_r13_flag_surface_parses_and_validates() {
    let d = parsed(&base());
    assert_eq!(d.mtp_depth, DEFAULT_MTP_DEPTH, "default --mtp-depth is 2");
    assert_eq!(d.candidate_regime, LegRegime::FreeRunV1_1);
    assert_eq!(d.tokens, FREE_RUN_DECODE_TOKENS);
    let tf = parsed(&plus(&["--candidate-spec", r#"{"mode":"serial"}"#]));
    assert_eq!(tf.candidate_regime, LegRegime::TeacherForcedV1);
    assert_eq!(tf.tokens, DEFAULT_TOKENS);
    let err = parse(&plus(&["--tokens", "512"])).unwrap_err();
    assert!(
        err.contains("free-run series") && err.contains("128"),
        "explicit free-run re-window is refused: {err}"
    );
    assert_eq!(d.exactness_probe, ExactnessProbe::Once);
    assert!(!d.preflight_only && !d.calibration_bootstrap);
    assert!(d.prompt.is_none() && d.prompt_sha256.is_none() && d.target_id.is_none());

    let err = parse(&plus(&["--depth", "2"])).unwrap_err();
    assert!(
        err.contains("--mtp-depth"),
        "renamed-flag error names the new flag: {err}"
    );

    assert!(same_spec(&d.candidate_spec, &SpecConfig::mtp(2)));
    assert!(same_spec(&d.baseline_spec, &SpecConfig::serial()));
    assert_eq!(d.candidate_spec_source, "mtp-depth-default");
    assert_eq!(d.baseline_spec_source, "serial-default");

    let ld = parsed(&plus(&["--mtp-depth", "1"]));
    assert!(same_spec(&ld.candidate_spec, &SpecConfig::mtp(1)));
    assert!(
        parse(&plus(&["--mtp-depth", "33"])).is_err(),
        "mtp.depth 33 exceeds the readonly 32 cap"
    );

    let o = parsed(&plus(&[
        "--candidate-spec",
        r#"{"mode":"mtp","mtp":{"depth":6}}"#,
        "--baseline-spec",
        r#"{"mode":"serial"}"#,
    ]));
    assert!(same_spec(&o.candidate_spec, &SpecConfig::mtp(6)));
    assert_eq!(o.candidate_spec_source, "cli-override");
    assert_eq!(o.baseline_spec_source, "cli-override");
    let d = parse(&plus(&[
        "--candidate-spec",
        r#"{"mode":"dflash","dflash":{}}"#,
    ]))
    .expect("a well-formed dflash spec parses; the track fence is contract-driven")
    .unwrap();
    assert_eq!(d.candidate_spec.mode, "dflash");
    let e = parse(&plus(&[
        "--candidate-spec",
        r#"{"mode":"dflash","dflash":{},"mtp":{"depth":2}}"#,
    ]))
    .unwrap_err();
    assert!(e.contains("cross-module key"), "{e}");

    let e = parse(&plus(&[
        "--baseline-spec",
        r#"{"mode":"mtp","mtp":{"depth":2}}"#,
    ]))
    .unwrap_err();
    assert!(
        e.contains("must be {\"mode\":\"serial\"}"),
        "non-serial baseline rejected: {e}"
    );

    let e = parse(&plus(&[
        "--mtp-depth",
        "4",
        "--candidate-spec",
        r#"{"mode":"mtp","mtp":{"depth":6}}"#,
    ]))
    .unwrap_err();
    assert!(
        e.contains("mutually exclusive"),
        "--mtp-depth + --candidate-spec conflict: {e}"
    );

    assert!(
        parse(&plus(&[
            "--candidate-spec",
            r#"{"mode":"mtp","mtp":{"depth":0}}"#
        ]))
        .is_err(),
        "mtp(0) candidate rejects"
    );
    assert!(
        parse(&plus(&[
            "--candidate-spec",
            r#"{"mode":"mtp","mtp":{"depth":2},"dflash":{}}"#
        ]))
        .is_err(),
        "cross-module candidate spec rejects"
    );

    let m = parsed(&plus(&["--golden", "g2"]));
    assert_eq!(m.goldens, words(&["g", "g2"]));
    let al = parsed(&words(&[
        "--candidate",
        "cand",
        "--baseline",
        "base",
        "--weights",
        "w",
        "--golden",
        "g",
        "--contract",
        "c",
        "--min-pairs-per-prompt",
        "2",
        "--pairs-per-prompt",
        "5",
        "--tag",
        "trk",
        "--out",
        "o",
    ]));
    assert_eq!(
        (al.min_pairs, al.target_pairs),
        (2, 5),
        "per-prompt aliases set the budgets"
    );

    assert!(
        parse(&plus(&["--prompt", "p.txt"])).is_err(),
        "prompt alone is rejected"
    );
    let sha = "a".repeat(64);
    let t = parsed(&plus(&[
        "--prompt",
        "p.txt",
        "--prompt-sha256",
        &sha,
        "--target-id",
        "qwen3.8-27b-mtp-v1",
    ]));
    assert_eq!(t.target_id.as_deref(), Some("qwen3.8-27b-mtp-v1"));
    assert!(parse(&plus(&[
        "--prompt",
        "p.txt",
        "--prompt-sha256",
        "XYZ",
        "--target-id",
        "ok"
    ]))
    .is_err());

    assert_eq!(
        parsed(&plus(&["--exactness-probe", "per-pair"])).exactness_probe,
        ExactnessProbe::PerPair
    );
    assert!(parse(&plus(&["--exactness-probe", "hourly"])).is_err());

    let b = parsed(&plus(&["--preflight-only", "--calibration-bootstrap"]));
    assert!(b.preflight_only && b.calibration_bootstrap);
}

#[test]
fn a_spec_that_does_not_parse_is_refused_with_its_cause() {
    let e = parse(&plus(&["--candidate-spec", "{"])).unwrap_err();
    assert_eq!(e, read_spec("{").unwrap_err());
    let e = parse(&plus(&["--baseline-spec", "{}"])).unwrap_err();
    assert_eq!(e, "missing field `mode`");
}

#[test]
fn help_ends_the_parse() {
    assert!(parse(&words(&["--candidate", "c", "--help"]))
        .unwrap()
        .is_none());
    assert!(read_measure_flags(&words(&["-h"])).unwrap().is_none());
}

#[test]
fn a_count_must_be_a_count() {
    for bad in ["", "x", "-1", "1.5", "99999999999999999999999"] {
        assert!(parse(&plus(&["--tokens", bad])).is_err(), "{bad:?}");
    }
    let e = parse(&plus(&["--min-pairs", "x"])).unwrap_err();
    assert!(e.contains("--min-pairs"), "{e}");
    let e = parse(&plus(&["--target-pairs"])).unwrap_err();
    assert!(e.contains("--target-pairs"), "{e}");
}

#[test]
fn only_a_local_run_moves_the_depth_cap() {
    let set = |s: &str| Some(s.to_string());
    assert_eq!(DEFAULT_MAX_DRAFT_DEPTH_CAP, 32);
    assert_eq!(resolve_max_draft_depth_cap(false, &set("64")), 32);
    assert_eq!(resolve_max_draft_depth_cap(true, &set("64")), 64);
    assert_eq!(resolve_max_draft_depth_cap(true, &None), 32);
    let mut settings = no_settings();
    settings.max_draft_depth = set("64");
    assert!(parse_with(&plus(&["--mtp-depth", "33"]), &settings).is_err());
    let local = parse_with(&plus(&["--mtp-depth", "33", "--local-dev"]), &settings)
        .unwrap()
        .unwrap();
    assert!(local.local_dev);
    assert_eq!(local.candidate_spec.mtp_depth, Some(33));
}

#[test]
fn specs_are_checked_on_their_own() {
    assert!(validate_baseline_is_serial(&SpecConfig::serial()).is_ok());
    assert!(validate_baseline_is_serial(&SpecConfig::mtp(1)).is_err());
    assert!(validate_spec_module_coherent(&SpecConfig::serial()).is_ok());
    assert!(validate_spec_module_coherent(&SpecConfig::mtp(3)).is_ok());
    assert!(validate_spec_module_coherent(&SpecConfig::mtp(0)).is_err());
    assert!(validate_spec_capped(&SpecConfig::mtp(32), 32).is_ok());
    assert!(validate_spec_capped(&SpecConfig::mtp(33), 32).is_err());
    assert_eq!(
        candidate_regime_for_spec(&SpecConfig::serial()),
        LegRegime::TeacherForcedV1
    );
    assert_eq!(
        candidate_regime_for_spec(&SpecConfig::mtp(2)),
        LegRegime::FreeRunV1_1
    );
    assert_eq!(
        serial_control_regime_for(LegRegime::TeacherForcedV1),
        LegRegime::TeacherForcedV1
    );
    assert!(LegRegime::FreeRunV1_1.is_free_run() && !LegRegime::TeacherForcedV1.is_free_run());
}

fn context() -> MeasureContext {
    MeasureContext {
        prompt_pinned: false,
        batched: false,
        correctness_golden: false,
        manifest: false,
        calibration_named: false,
        preflight_only: false,
        calibration_bootstrap: false,
        band_enforce: false,
        calibrated: false,
        heads: true,
        goldens_distinct: true,
        mode_admitted: true,
        attested: true,
        scoring_enabled: true,
        dflash_head: true,
    }
}

/// The checks that a run makes, and what ends it.
fn walk(ctx: &MeasureContext) -> (Vec<Check>, MeasureStep) {
    let mut seen = vec![Check::ReadContract];
    let mut at = Check::ReadContract;
    loop {
        match next_step(at, ctx) {
            MeasureStep::Do { check } => {
                seen.push(check);
                at = check;
            }
            end => return (seen, end),
        }
    }
}

#[test]
fn a_run_makes_the_checks_that_apply_to_it() {
    let (seen, end) = walk(&context());
    assert!(matches!(end, MeasureStep::Judge));
    assert_eq!(*seen.last().unwrap(), Check::Measure);
    assert!(!seen.contains(&Check::PromptPin));
    assert!(!seen.contains(&Check::CohortMembership));
    assert!(!seen.contains(&Check::ReadManifest));

    let mut ctx = context();
    ctx.prompt_pinned = true;
    ctx.batched = true;
    ctx.manifest = true;
    ctx.calibration_named = true;
    let (seen, _) = walk(&ctx);
    for check in [
        Check::ReadPrompt,
        Check::PromptPin,
        Check::CohortMembership,
        Check::ReadManifest,
        Check::ReadCalibration,
    ] {
        assert!(seen.contains(&check), "{check:?}");
    }
}

#[test]
fn a_preflight_stops_before_it_measures() {
    let mut ctx = context();
    ctx.preflight_only = true;
    let (seen, end) = walk(&ctx);
    assert!(!seen.contains(&Check::Measure));
    assert!(matches!(
        end,
        MeasureStep::Stop {
            verdict: MeasureJobVerdict::PreflightOk
        }
    ));
}

#[test]
fn an_uncalibrated_run_ends_before_it_measures() {
    let mut ctx = context();
    ctx.band_enforce = true;
    let (seen, end) = walk(&ctx);
    assert!(!seen.contains(&Check::Measure));
    assert!(matches!(end, MeasureStep::Fail { .. }));
    ctx.calibration_bootstrap = true;
    let (seen, _) = walk(&ctx);
    assert!(seen.contains(&Check::Measure));
}

#[test]
fn failures_carry_the_exit_of_their_check() {
    let f = check_failure(Check::AllowedModes, "", "not here".to_string());
    assert_eq!((f.exit, f.message.as_str()), (8, "not here"));
    let f = check_failure(Check::Calibration, "", "drift".to_string());
    assert_eq!(f.exit, 6);
    let f = check_failure(Check::ReadContract, "/c.json", "gone".to_string());
    assert!(f.message.contains("/c.json") && f.message.contains("gone"));
    let f = MeasureJobFailure::from("plain".to_string());
    assert_eq!((f.exit, f.message.as_str()), (1, "plain"));
    assert_eq!(MeasureJobFailure::die8("x".to_string()).exit, 8);
    assert_eq!(MeasureJobFailure::die6("x".to_string()).exit, 6);
}

#[test]
fn a_prompt_must_hash_to_its_pin() {
    assert!(check_prompt_pin("p", "abc", "abc").is_ok());
    let e = check_prompt_pin("p.txt", "abc", "abd").unwrap_err();
    assert_eq!(e.exit, 8);
    assert!(e.message.contains("p.txt") && e.message.contains("abc") && e.message.contains("abd"));
}

#[test]
fn a_missing_head_directory_is_named() {
    let dir = |label: &str, is_dir: bool| HeadDir {
        label: label.to_string(),
        dir: "/heads".to_string(),
        is_dir,
    };
    assert!(check_head_dirs(&vec![dir("A", true), dir("B", true)]).is_ok());
    let e = check_head_dirs(&vec![dir("A", true), dir("B", false)]).unwrap_err();
    assert_eq!(e.exit, 8);
    assert!(e.message.contains('B') && e.message.contains("/heads"));
}

#[test]
fn the_band_only_judges_an_accepted_run() {
    let v = |b, c, e, a, i| judge(b, c, e, a, i).unwrap();
    assert_eq!(
        v(false, true, true, true, true),
        MeasureJobVerdict::Accepted
    );
    assert_eq!(
        v(false, true, true, true, false),
        MeasureJobVerdict::CalibrationDrift
    );
    assert_eq!(
        v(false, true, true, false, false),
        MeasureJobVerdict::RejectedDie5
    );
    assert_eq!(
        v(true, false, true, true, false),
        MeasureJobVerdict::Accepted
    );
    assert_eq!(judge(false, false, true, true, true).unwrap_err().exit, 6);
}

#[test]
fn a_bootstrap_is_authored_from_a_sound_run_with_a_place() {
    assert!(should_author_bootstrap(true, true));
    assert!(!should_author_bootstrap(true, false));
    match bootstrap_step(true, true, Some("t1"), Some(" /cal.json ")) {
        BootstrapStep::Author { target, path } => {
            assert_eq!((target.as_str(), path.as_str()), ("t1", "/cal.json"))
        }
        other => panic!("{other:?}"),
    }
    assert!(matches!(
        bootstrap_step(true, true, None, Some("/cal.json")),
        BootstrapStep::Unnamed
    ));
    assert!(matches!(
        bootstrap_step(false, true, Some("t1"), Some("/cal.json")),
        BootstrapStep::Skipped
    ));
}

#[test]
fn a_ceiling_needs_a_mean_that_is_a_time() {
    let c = |mean: f64| {
        Some(ResolvedCalibration {
            timed_mode: "s".to_string(),
            track_id: "t".to_string(),
            serial_mean: num(mean),
            band_high: num(1.0),
        })
    };
    assert!(uses_calibrated_ceiling(&c(0.038)));
    assert!(!uses_calibrated_ceiling(&c(0.0)));
    assert!(!uses_calibrated_ceiling(&c(f64::NAN)));
    assert!(!uses_calibrated_ceiling(&None));
}

#[test]
fn a_worker_is_named_by_its_setting() {
    assert_eq!(worker_bin(Some("other-worker")), "other-worker");
    assert_eq!(worker_bin(Some("  ")), "mlxfast-runtime-worker");
    assert_eq!(worker_bin(None), "mlxfast-runtime-worker");
}

#[test]
fn goldens_are_counted_by_kind() {
    let kinds = words(&["tape", "golden", "tape"]);
    let s = golden_kind_summary(&kinds, "tape", "golden");
    assert!(s.contains('2') && s.contains('1'), "{s}");
    assert!(s.contains("tape") && s.contains("golden"), "{s}");
}

#[test]
fn a_refused_prompt_is_named_by_its_path() {
    for rejection in [
        PromptRejection::Unreadable {
            cause: "gone".to_string(),
        },
        PromptRejection::TapeRejected {
            cause: "short".to_string(),
        },
        PromptRejection::DocumentRejected {
            cause: "odd".to_string(),
        },
        PromptRejection::Unrecognized {
            tape: "tape".to_string(),
            tape_keys: "a, b".to_string(),
            golden: "golden".to_string(),
            golden_keys: "c, d".to_string(),
        },
    ] {
        let text = load_timed_prompt_refusal("/p.json", rejection);
        assert!(text.contains("/p.json"), "{text}");
    }
}

#[test]
fn only_a_free_candidate_asks_for_its_own_spec() {
    assert_eq!(leg_wire_spec(false, true), WireSpec::Declared);
    for (serial_control, free_run) in [(true, true), (true, false), (false, false)] {
        assert_eq!(leg_wire_spec(serial_control, free_run), WireSpec::Serial);
    }
}

#[test]
fn a_check_that_does_not_bind_is_said_out_loud() {
    let line = width_notice(Some(8), false, "dflash", "[\"serial\", \"dflash\"]").unwrap();
    assert!(line.contains("scored_batch_size Some(8)"), "{line}");
    assert!(line.contains("\"dflash\" is SINGLE-STREAM ONLY"), "{line}");
    assert!(line.ends_with("Admitted modes for this track: [\"serial\", \"dflash\"]."));
    assert!(width_notice(Some(8), true, "mtp", "[]").is_none());
    assert!(width_notice(None, false, "mtp", "[]").is_none());
    assert!(scope_notice(true, "/base").is_none());
    assert!(scope_notice(false, "/base").unwrap().contains("/base"));
}

#[test]
fn only_an_enabled_track_is_scored_officially() {
    assert!(scoring_enabled(true, Some(true)));
    assert!(!scoring_enabled(true, Some(false)));
    assert!(!scoring_enabled(true, None));
    for enabled in [Some(true), Some(false), None] {
        assert!(scoring_enabled(false, enabled));
    }
}

#[test]
fn a_track_admits_the_modes_it_declares() {
    assert!(mode_admitted(None, "serial") && mode_admitted(None, "mtp"));
    assert!(!mode_admitted(None, "dflash") && !mode_admitted(None, ""));
    let wide = words(&["serial", "mtp", "dflash"]);
    for mode in ["serial", "mtp", "dflash"] {
        assert!(mode_admitted(Some(&wide), mode), "{mode}");
    }
    assert!(!mode_admitted(Some(&wide), "dspark"));
    let narrow = words(&["serial"]);
    assert!(mode_admitted(Some(&narrow), "serial") && !mode_admitted(Some(&narrow), "mtp"));
    for bad in [
        words(&[]),
        words(&["mtp"]),
        words(&["serial", "mtp", "mtp"]),
        words(&["serial", "mtp", "dspark"]),
    ] {
        assert!(!mode_admitted(Some(&bad), "mtp"), "{bad:?}");
        assert!(!mode_admitted(Some(&bad), "serial"), "{bad:?}");
    }
}

#[test]
fn goldens_are_told_apart_by_their_digests() {
    assert!(goldens_distinct(&words(&["a", "b", "c"])) && goldens_distinct(&words(&[])));
    assert!(!goldens_distinct(&words(&["a", "b", "a"])));
    assert!(all_distinct(&words(&["a", "A"])));
}

#[test]
fn an_attested_golden_cites_the_pin() {
    let pin = |sha256: &str, bytes| GoldenIntegrityPin {
        sha256: sha256.to_string(),
        bytes,
    };
    assert!(attestation_cites(None, None));
    assert!(attestation_cites(Some(&pin("a", 1)), Some(&pin("a", 1))));
    assert!(!attestation_cites(Some(&pin("a", 1)), Some(&pin("a", 2))));
    assert!(!attestation_cites(Some(&pin("b", 1)), Some(&pin("a", 1))));
    assert!(!attestation_cites(None, Some(&pin("a", 1))));
    assert!(!attestation_cites(Some(&pin("a", 1)), None));
}

#[test]
fn the_band_and_the_drafter_have_their_settings() {
    assert!(band_enforced(None) && band_enforced(Some("")) && band_enforced(Some("1")));
    assert!(!band_enforced(Some("0")));
    assert!(dflash_head_present("mtp", false) && dflash_head_present("dflash", true));
    assert!(!dflash_head_present("dflash", false));
}

#[test]
fn a_run_that_breaks_a_rule_of_its_track_is_never_measured() {
    for (stop, break_rule) in [
        (
            Check::GoldenDigests,
            (|c: &mut MeasureContext| c.goldens_distinct = false) as fn(&mut MeasureContext),
        ),
        (Check::AllowedModes, |c| c.mode_admitted = false),
        (Check::Attestation, |c| c.attested = false),
        (Check::ScoringEnabled, |c| c.scoring_enabled = false),
        (Check::DflashHead, |c| c.dflash_head = false),
    ] {
        let mut ctx = context();
        break_rule(&mut ctx);
        let (seen, end) = walk(&ctx);
        assert_eq!(*seen.last().unwrap(), stop);
        match end {
            MeasureStep::Fail { failure } => assert_eq!(failure.exit, 8, "{}", failure.message),
            other => panic!("{other:?}"),
        }
    }
    let mut ctx = context();
    ctx.scoring_enabled = false;
    ctx.preflight_only = true;
    assert!(matches!(walk(&ctx).1, MeasureStep::Stop { .. }));
}
