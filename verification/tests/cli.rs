use benchctl::args::Mode;
use benchctl::checks::{
    names_its_model, parse_correctness_args, parse_validate_golden_args, parse_validate_weights_args,
    run_correctness, run_validate_golden, run_validate_weights, weights_cap, GateCheck,
    GoldenCheck, WeightsCap, WeightsCheck, DEFAULT_WEIGHTS_CAP,
};
use benchctl::cli::{
    cool_gate_phase, dispatch, refuse_args, report_failure, run_cool_gate_only, run_harness_hash,
    Dispatch, Report, Subcommand, UsagePlace,
};
use benchctl::number::Number;
use benchctl::run::{fault_text, next_stage, report_score, runner_engine, RunFault, RunStage};

fn words(list: &[&str]) -> Vec<String> {
    list.iter().map(|s| s.to_string()).collect()
}

fn answer(first: Option<&str>) -> Report {
    match dispatch(first) {
        Dispatch::Answer { report } => report,
        Dispatch::Run { sub } => panic!("{sub:?}"),
    }
}

#[test]
fn the_first_word_names_the_subcommand() {
    for (word, want) in [
        ("iterate", Subcommand::Iterate),
        ("correctness", Subcommand::Correctness),
        ("validate-golden", Subcommand::ValidateGolden),
        ("validate-weights", Subcommand::ValidateWeights),
        ("parity-diff", Subcommand::ParityDiff),
        ("prefill-decompose", Subcommand::PrefillDecompose),
        ("measure-job", Subcommand::MeasureJob),
        ("overlay-timing", Subcommand::OverlayTiming),
        ("harness-hash", Subcommand::HarnessHash),
        ("--local-cool-gate-only", Subcommand::CoolGateOnly),
    ] {
        match dispatch(Some(word)) {
            Dispatch::Run { sub } => assert_eq!(sub, want),
            Dispatch::Answer { report } => panic!("{word}: {report:?}"),
        }
    }
}

#[test]
fn other_words_are_answered_at_once() {
    for word in ["-h", "--help", "help"] {
        let r = answer(Some(word));
        assert_eq!((r.exit, r.usage), (0, UsagePlace::Stdout));
    }
    let r = answer(None);
    assert_eq!((r.exit, r.usage), (2, UsagePlace::Stderr));
    assert!(r.stderr.is_empty());
    let r = answer(Some("bogus"));
    assert_eq!((r.exit, r.usage), (2, UsagePlace::Stderr));
    assert!(r.stderr.contains("\"bogus\""), "{}", r.stderr);
    for word in ["official", "transform", "submit"] {
        let r = answer(Some(word));
        assert_eq!((r.exit, r.usage), (2, UsagePlace::Nowhere));
        assert!(!r.stderr.is_empty());
    }
}

#[test]
fn refused_arguments_show_the_usage() {
    let r = refuse_args("iterate", "unknown flag");
    assert_eq!(r.stderr, "benchctl iterate: unknown flag");
    assert_eq!((r.exit, r.usage), (2, UsagePlace::Stderr));
    let r = report_failure("measure-job", 8, "no scope");
    assert_eq!(r.stderr, "benchctl measure-job: no scope");
    assert_eq!((r.exit, r.usage), (8, UsagePlace::Nowhere));
}

#[test]
fn a_harness_hash_is_printed_alone() {
    let r = run_harness_hash(Ok("abc".to_string()));
    assert_eq!((r.exit, r.stdout.as_str(), r.stderr.as_str()), (0, "abc", ""));
    let r = run_harness_hash(Err("root missing".to_string()));
    assert_eq!(r.exit, 1);
    assert!(r.stdout.is_empty() && r.stderr.contains("root missing"));
}

#[test]
fn the_cool_gate_answers_with_its_exit_status() {
    assert_eq!(cool_gate_phase(None), "local");
    assert_eq!(cool_gate_phase(Some("seam-2")), "seam-2");
    assert_eq!(run_cool_gate_only(Ok(())).exit, 0);
    let r = run_cool_gate_only(Err("too hot".to_string()));
    assert_eq!(r.exit, 1);
    assert!(r.stderr.contains("too hot"), "{}", r.stderr);
}

#[test]
fn validate_golden_reads_its_flags() {
    let a = parse_validate_golden_args(&words(&[
        "--golden",
        "g.json",
        "--golden-sha256",
        "abc",
        "--golden-bytes",
        "10",
        "--contract",
        "c.json",
        "--gates-only",
    ]))
    .unwrap();
    assert_eq!(a.golden, "g.json");
    assert_eq!(a.contract.as_deref(), Some("c.json"));
    assert!(a.gates_only);
    assert_eq!(a.pin.unwrap().bytes, 10);

    let r = parse_validate_golden_args(&words(&["--contract", "c"])).unwrap_err();
    assert_eq!(
        r.stderr,
        "benchctl validate-golden: missing required --golden"
    );
    assert_eq!(r.exit, 2);
    let r = parse_validate_golden_args(&words(&["--golden"])).unwrap_err();
    assert_eq!(
        r.stderr,
        "benchctl validate-golden: --golden requires a value"
    );
    let r = parse_validate_golden_args(&words(&["--nope"])).unwrap_err();
    assert!(r.stderr.contains("\"--nope\""), "{}", r.stderr);
    let r = parse_validate_golden_args(&words(&["--golden", "g", "--golden-bytes", "1"]))
        .unwrap_err();
    assert_eq!(r.exit, 2);
}

#[test]
fn a_golden_is_accepted_only_when_it_loads_with_its_oracle() {
    let args = |extra: &[&str]| {
        let mut v = words(&["--golden", "g.json"]);
        v.extend(words(extra));
        parse_validate_golden_args(&v).unwrap()
    };
    let loaded = |has_benchmark| GoldenCheck::Loaded {
        has_benchmark,
        has_provenance: false,
        sha256: "abc".to_string(),
        cases: 3,
        gate_cases: 2,
    };
    let r = run_validate_golden(&args(&[]), loaded(true));
    assert_eq!(r.exit, 0);
    assert_eq!(
        r.stderr,
        "benchctl validate-golden: ACCEPT g.json (sha256=abc, cases=3, gate_cases=2)"
    );
    assert_eq!(run_validate_golden(&args(&[]), loaded(false)).exit, 1);
    assert_eq!(
        run_validate_golden(&args(&["--gates-only"]), loaded(false)).exit,
        0
    );
    let text = |s: &str| s.to_string();
    for (check, exit) in [
        (
            GoldenCheck::ContractUnreadable {
                path: text("c"),
                cause: text("x"),
            },
            3,
        ),
        (
            GoldenCheck::ContractUnusable {
                path: text("c"),
                cause: text("x"),
            },
            2,
        ),
        (GoldenCheck::Unreadable { cause: text("x") }, 3),
        (GoldenCheck::PinRejected { cause: text("x") }, 1),
        (GoldenCheck::SchemaRejected { cause: text("x") }, 1),
    ] {
        assert_eq!(run_validate_golden(&args(&[]), check).exit, exit);
    }
}

#[test]
fn a_model_that_was_not_checked_is_said_to_be_unchecked() {
    let loaded = |has_provenance| GoldenCheck::Loaded {
        has_benchmark: true,
        has_provenance,
        sha256: "abc".to_string(),
        cases: 3,
        gate_cases: 2,
    };
    let accept = "benchctl validate-golden: ACCEPT g.json (sha256=abc, cases=3, gate_cases=2)";
    let bare = parse_validate_golden_args(&words(&["--golden", "g.json"])).unwrap();
    let held =
        parse_validate_golden_args(&words(&["--golden", "g.json", "--contract", "c"])).unwrap();
    let r = run_validate_golden(&bare, loaded(true));
    assert_eq!(r.exit, 0);
    assert!(r.stderr.starts_with(&format!("{accept}\n")), "{}", r.stderr);
    assert!(r.stderr.contains("SHAPE only"), "{}", r.stderr);
    assert_eq!(run_validate_golden(&bare, loaded(false)).stderr, accept);
    assert_eq!(run_validate_golden(&held, loaded(true)).stderr, accept);
    assert!(names_its_model(
        &br#"{"version":1,"model_provenance":{"id":"m"}}"#.to_vec()
    ));
    assert!(!names_its_model(&br#"{"version":1}"#.to_vec()));
    assert!(!names_its_model(&br#"["model_provenance"]"#.to_vec()));
    assert!(!names_its_model(&b"{".to_vec()));
}

#[test]
fn correctness_needs_an_engine_weights_and_a_golden() {
    let r = parse_correctness_args(&words(&["--engine", "e"])).unwrap_err();
    assert_eq!((r.exit, r.usage), (2, UsagePlace::Stderr));
    let a = parse_correctness_args(&words(&[
        "--engine", "e", "--weights", "w", "--golden", "g",
    ]))
    .unwrap();
    assert!(a.pin.is_none());
    let text = |s: &str| s.to_string();
    let r = run_correctness(
        &a,
        GateCheck::Judged {
            passed: true,
            case_count: 12,
            error: String::new(),
            document: text("{}"),
        },
    );
    assert_eq!((r.exit, r.stdout.as_str()), (0, "{}"));
    assert!(r.stderr.contains("12"), "{}", r.stderr);
    let r = run_correctness(
        &a,
        GateCheck::Judged {
            passed: false,
            case_count: 12,
            error: text("token mismatch"),
            document: text("{}"),
        },
    );
    assert_eq!(r.exit, 1);
    assert!(r.stderr.contains("token mismatch"), "{}", r.stderr);
    let r = run_correctness(&a, GateCheck::SpawnFailed { cause: text("gone") });
    assert!(r.stderr.contains("\"e\"") && r.stderr.contains("gone"));
    assert_eq!(
        run_correctness(&a, GateCheck::HandshakeFailed { cause: text("x") }).exit,
        1
    );
    let r = run_correctness(&a, GateCheck::GoldenRejected { cause: text("odd") });
    assert_eq!(r.stderr, "benchctl correctness: odd");
}

#[test]
fn weights_are_answered_with_their_size_and_cap() {
    let a = parse_validate_weights_args(&words(&["--weights", "w"])).unwrap();
    let r = run_validate_weights(
        &a,
        WeightsCheck::Accepted {
            bytes: 1024,
            files: 3,
            cap: None,
        },
    );
    assert_eq!(r.exit, 0);
    assert!(r.stderr.contains("1024") && r.stderr.contains("unlimited"), "{}", r.stderr);
    let r = run_validate_weights(
        &a,
        WeightsCheck::Rejected {
            cause: "too big".to_string(),
        },
    );
    assert_eq!(r.exit, 1);
    let r = run_validate_weights(
        &a,
        WeightsCheck::Unreadable {
            cause: "Permission denied (os error 13)".to_string(),
        },
    );
    assert_eq!(r.exit, 3);
    assert_eq!(
        r.stderr,
        "benchctl validate-weights: IO ERROR reading w: Permission denied (os error 13)"
    );
    let r = run_validate_weights(
        &a,
        WeightsCheck::CapInvalid {
            cause: "no cap".to_string(),
        },
    );
    assert_eq!(r.exit, 2);
    assert_eq!(
        parse_validate_weights_args(&Vec::new()).unwrap_err().stderr,
        "benchctl validate-weights: missing required --weights"
    );
}

fn stages(mode: Mode) -> Vec<RunStage> {
    let mut v = vec![RunStage::Harness];
    while let Some(next) = next_stage(*v.last().unwrap(), mode) {
        v.push(next);
    }
    v
}

#[test]
fn only_an_official_run_enters_the_sandbox() {
    assert_eq!(stages(Mode::Official).len(), 8);
    assert_eq!(stages(Mode::LocalSubmit).len(), 7);
    assert!(!stages(Mode::LocalIterate).contains(&RunStage::Sandbox));
    assert_eq!(
        *stages(Mode::Official).last().unwrap(),
        RunStage::WriteIntegrity
    );
}

#[test]
fn a_written_score_is_reported_with_its_verdict() {
    let score = Some(Number {
        bits: 1.25f64.to_bits(),
        display: "1.25".to_string(),
        debug: "1.25".to_string(),
    });
    let (exit, line) = report_score("iterate", "score.json", true, &score);
    assert_eq!(exit, 0);
    assert!(line.contains("score.json") && line.contains("true") && line.contains("1.25"));
    let (exit, line) = report_score("iterate", "score.json", false, &None);
    assert_eq!(exit, 1);
    assert!(line.contains("false") && line.contains("null"), "{line}");
    assert_eq!(runner_engine("given", Some("boxed")), "boxed");
    assert_eq!(runner_engine("given", None), "given");
}

#[test]
fn a_fault_names_what_failed() {
    let text = |s: &str| s.to_string();
    assert_eq!(fault_text(RunFault::Refused { cause: text("no") }), "no");
    for fault in [
        RunFault::GoldenUnreadable {
            path: text("/p"),
            cause: text("why"),
        },
        RunFault::GatesUnreadable {
            path: text("/p"),
            cause: text("why"),
        },
        RunFault::Unwritable {
            path: text("/p"),
            cause: text("why"),
        },
        RunFault::Uncreatable {
            path: text("/p"),
            cause: text("why"),
        },
    ] {
        let t = fault_text(fault);
        assert!(t.contains("/p") && t.contains("why"), "{t}");
    }
    let t = fault_text(RunFault::HarnessUnresolved { cause: text("why") });
    assert!(t.contains("why") && t != "why");
}

#[test]
fn a_weights_cap_is_read_from_its_setting() {
    let default = WeightsCap::Bytes {
        bytes: 25 * 1024 * 1024 * 1024,
    };
    assert_eq!(DEFAULT_WEIGHTS_CAP, 25 * 1024 * 1024 * 1024);
    assert_eq!(weights_cap(None), default);
    assert_eq!(weights_cap(Some("")), default);
    for text in ["0", "none", "unlimited"] {
        assert_eq!(weights_cap(Some(text)), WeightsCap::Unlimited, "{text}");
    }
    assert_eq!(
        weights_cap(Some("1024")),
        WeightsCap::Bytes { bytes: 1024 }
    );
    for text in ["-1", "1.5", "lots", "99999999999999999999"] {
        assert_eq!(weights_cap(Some(text)), WeightsCap::Invalid, "{text}");
    }
}
