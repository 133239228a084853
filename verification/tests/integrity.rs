use benchctl::args::Mode;
use benchctl::integrity::{
    build_integrity_sidecar, build_measure_job_integrity, finish_anchor, fresh_overlay_integrity,
    integrity_name, reanchor_overlay_integrity, resolve_runner_identity, results_integrity_name,
    sidecar_body, sidecar_name, FoundExecutable, IterateSealInputs, MeasureJobIntegrity,
    MeasureJobSealInputs, RunnerIdentity, ENGINE_RESOLUTION_CANONICAL,
    ENGINE_RESOLUTION_UNRESOLVED,
};
use benchctl::measure_args::{
    parse_measure_job_args, MeasureJobArgs, MeasureSettings, GATES_PRODUCER_UNDECLARED,
};
use benchctl::paths::{drop_home_head, rel_or_dot, relativize_for_seal};
use benchctl::pool_source::{
    pool_expectation, read_contract_pool, resolve_pool_expectation, ContractFile, ContractPool,
};
use std::path::{Component, Path, PathBuf};

const HOME: Option<&str> = Some("/Users/operator");

fn measure_args(line: &str) -> MeasureJobArgs {
    let argv: Vec<String> = line.split_whitespace().map(str::to_string).collect();
    let settings = MeasureSettings {
        prefill_baseline: None,
        decode_baseline: None,
        target_dir: None,
        max_draft_depth: None,
    };
    parse_measure_job_args(
        &argv,
        &settings,
        Err("not given".to_string()),
        Err("not given".to_string()),
    )
    .expect("args parse")
    .expect("args present")
}

fn seal_inputs() -> MeasureJobSealInputs {
    MeasureJobSealInputs {
        results_path: "o/results.json".into(),
        results_sha256: "rs".into(),
        candidate_executable: "ce".into(),
        baseline_executable: "be".into(),
        candidate_workspace_sha256: "cws".into(),
        baseline_workspace_sha256: "bws".into(),
        golden_sha256: "gs".into(),
        contract_sha256: "cs".into(),
        weights_sha256: "ws".into(),
        weights_file_count: 1,
        weights_byte_count: 2,
    }
}

#[test]
fn the_real_seal_path_writes_the_declared_producer_into_the_artifact() {
    fn seal_with(flag: Option<&str>) -> MeasureJobIntegrity {
        let mut line = "--candidate cand --baseline base --weights w --golden g \
             --contract c --min-pairs 1 --target-pairs 1 --tag trk --out o"
            .to_string();
        if let Some(p) = flag {
            line = format!("{line} --gates-producer {p}");
        }
        build_measure_job_integrity(&measure_args(&line), seal_inputs(), None, None)
    }
    for producer in ["benchmark-sh", "facade", "direct-swift"] {
        assert_eq!(
            seal_with(Some(producer)).gates_producer,
            producer,
            "the sealed producer must be the DECLARED one, not a constant"
        );
    }
    assert_eq!(seal_with(None).gates_producer, GATES_PRODUCER_UNDECLARED);
    let sealed = seal_with(Some("facade"));
    assert_eq!(sealed.candidate_workspace, "cand");
    assert_eq!(sealed.results_sha256, "rs");
    assert_eq!(sealed.baseline_workspace, "base");
    assert_eq!(sealed.weights_dir, "w");
    assert_eq!(sealed.weights_file_count, 1);
    assert_eq!(sealed.weights_byte_count, 2);
    assert_eq!(sealed.baseline_workspace_sha256, "bws");
}

#[test]
fn relativize_for_seal_strips_home_but_keeps_relative_and_foreign_paths() {
    assert_eq!(
        relativize_for_seal("candidate/x", None, HOME),
        "candidate/x"
    );
    let out = relativize_for_seal("/Users/operator/ws/candidate", None, HOME);
    assert_eq!(out, "ws/candidate");
    assert!(!out.contains("/Users/"), "home stripped: {out}");
    let out = relativize_for_seal("/Users/someoneelse/models/qwen", None, HOME);
    assert_eq!(out, "models/qwen");
    assert!(!out.contains("/Users/"), "foreign home head dropped: {out}");
    let out = relativize_for_seal("/home/other/w", None, Some("/home/operator"));
    assert_eq!(out, "w");
    assert_eq!(
        relativize_for_seal("/opt/weights", None, HOME),
        "/opt/weights"
    );
}

#[test]
fn relativize_for_seal_reduces_every_home_shaped_input_to_relative_and_leakfree() {
    for v in [
        "/Users/operator/models/qwen/",
        "/Users/operator/",
        "/Users/someoneelse/models/qwen/",
        "/Users/someoneelse",
        "/Users/operator/via-symlink/models/qwen",
        "/home/someoneelse",
    ] {
        let out = relativize_for_seal(v, None, HOME);
        assert!(
            !out.starts_with('/') && !out.contains("/Users/") && !out.contains("/home/"),
            "relativize_for_seal({v:?}) = {out:?} must be relative + leak-free"
        );
    }
    assert_eq!(relativize_for_seal("/Users/someoneelse", None, HOME), ".");
    assert_eq!(relativize_for_seal("/Users/operator/", None, HOME), ".");
}

#[test]
fn the_working_directory_goes_before_the_home() {
    let cwd = Some("/Users/operator/ws");
    assert_eq!(
        relativize_for_seal("/Users/operator/ws/out/score.json", cwd, HOME),
        "out/score.json"
    );
    assert_eq!(relativize_for_seal("/Users/operator/ws", cwd, HOME), ".");
    assert_eq!(
        relativize_for_seal("/Users/operator/wsx/out", cwd, HOME),
        "wsx/out"
    );
    assert_eq!(relativize_for_seal("", cwd, HOME), "");
}

fn shown_or_dot(rel: &Path) -> String {
    if rel.as_os_str().is_empty() {
        ".".to_string()
    } else {
        rel.display().to_string()
    }
}

/// The sealed form of a path by the components of the standard library.
fn by_components(path: &Path, cwd: &str, home: &str) -> String {
    if path.is_relative() {
        return path.display().to_string();
    }
    if let Ok(rel) = path.strip_prefix(cwd) {
        return shown_or_dot(rel);
    }
    if let Ok(rel) = path.strip_prefix(home) {
        return shown_or_dot(rel);
    }
    let comps: Vec<Component> = path.components().collect();
    if comps.len() >= 3 {
        if let (Component::RootDir, Component::Normal(top), Component::Normal(_)) =
            (&comps[0], &comps[1], &comps[2])
        {
            if *top == "Users" || *top == "home" {
                let tail: PathBuf = comps[3..].iter().collect();
                return shown_or_dot(&tail);
            }
        }
    }
    path.display().to_string()
}

#[test]
fn paths_are_cut_by_their_components() {
    let pieces = ["/", "a", ".", "..", "Users", "home", "/ws", "b"];
    let mut paths = vec![String::new()];
    for _ in 0..5 {
        let mut longer = paths.clone();
        for p in &paths {
            for piece in pieces {
                longer.push(format!("{p}{piece}"));
            }
        }
        longer.sort();
        longer.dedup();
        paths = longer;
    }
    for (cwd, home) in [
        ("/Users/a/ws", "/Users/a"),
        ("/a/./ws/", "/home//b"),
        ("/", "/home/b"),
    ] {
        for p in &paths {
            assert_eq!(
                relativize_for_seal(p, Some(cwd), Some(home)),
                by_components(Path::new(p), cwd, home),
                "{p:?} under {cwd:?} and {home:?}"
            );
        }
    }
}

#[test]
fn sealing_a_sealed_path_changes_nothing() {
    for v in [
        "candidate/x",
        "/Users/operator/ws/candidate",
        "/Users/someoneelse",
        "/opt/weights",
        "/home/other/w",
    ] {
        let once = relativize_for_seal(v, None, HOME);
        assert_eq!(relativize_for_seal(&once, None, HOME), once);
    }
    assert_eq!(rel_or_dot(String::new()), ".");
    assert_eq!(rel_or_dot("a/b".to_string()), "a/b");
    assert_eq!(drop_home_head("/Users/x/y/z"), "y/z");
    assert_eq!(drop_home_head("/usr/x/y"), "/usr/x/y");
}

#[test]
fn measure_job_anchor_seals_no_home_path() {
    let args = measure_args(
        "--candidate /Users/operator/ws/candidate \
         --baseline /Users/operator/ws/baseline --weights /Users/operator/models/qwen \
         --golden /Users/operator/g --contract /Users/operator/c --min-pairs 1 --target-pairs 1 \
         --tag trk --out /Users/operator/ws/out",
    );
    let mut run = seal_inputs();
    run.results_path = "/Users/operator/ws/out/results.json".into();
    run.candidate_executable = "/Users/operator/ws/candidate/.build/release/engine".into();
    run.baseline_executable = "/Users/operator/ws/baseline/.build/release/engine".into();
    let anchor = build_measure_job_integrity(&args, run, None, HOME);
    let text = format!("{anchor:?}");
    assert!(
        !text.contains("/Users/"),
        "the sealed measure-job anchor must carry no absolute home path: {text}"
    );
    assert_eq!(anchor.weights_sha256, "ws");
    assert_eq!(anchor.weights_dir, "models/qwen");
}

#[test]
fn overlay_reanchor_seals_no_home_path_and_agrees_with_the_anchor() {
    let existing = b"{\"results_path\":\"ws/out/results.json\"}\n".to_vec();
    let score_path = "/Users/operator/ws/out/score.json";
    let written = reanchor_overlay_integrity(&existing, score_path, "deadbeef", None, HOME)
        .expect("reanchor rewrites");
    assert!(
        !written.contains("/Users/"),
        "the re-anchored sidecar must carry no absolute home path: {written}"
    );
    let value: serde_json::Value = serde_json::from_str(&written).unwrap();
    assert_eq!(
        value["score_path"].as_str().unwrap(),
        relativize_for_seal(score_path, None, HOME)
    );
    assert_eq!(value["score_sha256"].as_str(), Some("deadbeef"));
    assert_eq!(value["results_path"].as_str(), Some("ws/out/results.json"));
    assert!(written.ends_with("}\n"));
    let again =
        reanchor_overlay_integrity(&written.as_bytes().to_vec(), "s.json", "beef", None, HOME)
            .unwrap();
    let once = reanchor_overlay_integrity(&existing, "s.json", "beef", None, HOME).unwrap();
    assert_eq!(again, once);
    assert_eq!(
        once,
        "{\n  \"results_path\": \"ws/out/results.json\",\n  \"score_path\": \"s.json\",\n  \"score_sha256\": \"beef\"\n}\n"
    );
}

#[test]
fn a_record_that_is_no_object_is_not_anchored() {
    let e = reanchor_overlay_integrity(&b"{".to_vec(), "s", "d", None, None).unwrap_err();
    let cause = serde_json::from_slice::<serde_json::Value>(b"{")
        .unwrap_err()
        .to_string();
    assert!(e.contains(&cause), "{e}");
    let other = reanchor_overlay_integrity(&b"[1]".to_vec(), "s", "d", None, None).unwrap_err();
    assert_ne!(e, other);
    let e = finish_anchor(Err("full".to_string())).unwrap_err();
    assert!(e.contains("full"), "{e}");
    assert_eq!(
        finish_anchor(Ok("{}".to_string())).unwrap(),
        "{}\n"
    );
    let fresh = fresh_overlay_integrity("/Users/operator/s.json", "d", None, HOME);
    assert_eq!(fresh.score_path, "s.json");
    assert_eq!(fresh.score_sha256, "d");
}

#[test]
fn runner_identity_seals_a_canonical_engine_in_full() {
    let id = resolve_runner_identity(
        "/tmp/x/./engine-bin",
        Some(FoundExecutable {
            path: "/tmp/x/engine-bin".to_string(),
            sha256: Some("c0ffee".to_string()),
        }),
        Some(FoundExecutable {
            path: "/opt/bin/benchctl".to_string(),
            sha256: Some("b0b0".to_string()),
        }),
    );
    assert_eq!(
        id.candidate_executable_resolution,
        ENGINE_RESOLUTION_CANONICAL
    );
    assert_eq!(id.candidate_executable_sha256, "c0ffee");
    assert_eq!(
        id.candidate_executable, "/tmp/x/engine-bin",
        "the seal must name the canonical path, not the spelling the caller used"
    );
    assert_eq!(id.benchd_executable, "/opt/bin/benchctl");
    assert_eq!(id.benchd_executable_sha256, "b0b0");
}

#[test]
fn runner_identity_falls_back_to_a_sentinel_instead_of_failing_the_run() {
    let bare = "mlxfast-engine-that-is-not-in-this-directory";
    let id = resolve_runner_identity(bare, None, None);
    assert_eq!(
        id.candidate_executable_resolution, ENGINE_RESOLUTION_UNRESOLVED,
        "an unresolvable engine must be SEALED as unresolved, not silently blank"
    );
    assert_eq!(id.candidate_executable, bare);
    assert!(
        id.candidate_executable_sha256.is_empty(),
        "no digest exists, so none is fabricated"
    );
    let id = resolve_runner_identity(
        "/x/engine-bin",
        Some(FoundExecutable {
            path: "/x/engine-bin".to_string(),
            sha256: None,
        }),
        None,
    );
    assert_eq!(
        id.candidate_executable_resolution,
        ENGINE_RESOLUTION_UNRESOLVED
    );
    assert!(id.candidate_executable_sha256.is_empty());
    assert_ne!(ENGINE_RESOLUTION_UNRESOLVED, ENGINE_RESOLUTION_CANONICAL);
}

#[test]
fn results_json_sidecar_body_is_bare_basename() {
    assert_eq!(
        sidecar_body("0a1b", "results.json"),
        "0a1b  results.json\n",
        "results.json sidecar body is the bare basename, not the full path"
    );
    assert_eq!(sidecar_name("results.json"), "results.json.sha256");
    assert_eq!(
        results_integrity_name("results"),
        "benchmark-integrity.results.json"
    );
}

#[test]
fn a_local_iterate_record_has_a_name_of_its_own() {
    assert_eq!(
        integrity_name(Mode::LocalIterate),
        "benchmark-integrity.local-iterate.json"
    );
    assert_eq!(
        integrity_name(Mode::LocalSubmit),
        "benchmark-integrity.json"
    );
    assert_eq!(integrity_name(Mode::Official), "benchmark-integrity.json");
}

#[test]
fn an_iterate_record_seals_the_run_without_a_home() {
    let record = build_integrity_sidecar(
        IterateSealInputs {
            score_path: "/Users/operator/score.json".into(),
            score_sha256: "aaa".into(),
            weights_path: "/home/other/weights".into(),
            weights_sha256: "fde4f615".into(),
            weights_file_count: 14,
            weights_byte_count: 15_159_954_417,
            golden_sha256: "32045f7e".into(),
            transform_source: None,
        },
        RunnerIdentity {
            candidate_executable: "/Users/operator/engine".into(),
            candidate_executable_sha256: "c0ffee".into(),
            candidate_executable_resolution: ENGINE_RESOLUTION_CANONICAL.into(),
            benchd_executable: "/opt/bin/benchctl".into(),
            benchd_executable_sha256: "b0b0".into(),
        },
        None,
        HOME,
    );
    assert_eq!(record.score_path, "score.json");
    assert_eq!(record.weights_path, "weights");
    assert_eq!(record.candidate_executable, "engine");
    assert_eq!(record.golden_path, "[private]");
    assert_eq!(record.weights_byte_count, 15_159_954_417);
    assert_eq!(record.transform_source_sha256, "");
    assert_eq!(record.baseline_executable, "");
    assert_eq!(record.benchd_executable, "/opt/bin/benchctl");
}

fn contract(text: &str) -> Option<ContractFile> {
    Some(ContractFile {
        path: "c.json".to_string(),
        bytes: Ok(text.as_bytes().to_vec()),
    })
}

#[test]
fn a_pool_is_counted_in_the_contract() {
    let p = resolve_pool_expectation(
        None,
        None,
        contract(r#"{"timed_prompt_pool":[1,2,3],"other":[1]}"#),
    )
    .unwrap();
    assert_eq!((p.pool_size, p.min_per_prompt), (3, 1));
    let p = resolve_pool_expectation(Some(" 5 "), Some("2"), None).unwrap();
    assert_eq!((p.pool_size, p.min_per_prompt), (5, 2));
    assert!(matches!(
        read_contract_pool(contract(r#"{"timed_prompt_pool":7}"#)),
        ContractPool::NoPool
    ));
    assert!(matches!(
        read_contract_pool(contract("{")),
        ContractPool::Unparsable { .. }
    ));
    assert!(matches!(read_contract_pool(None), ContractPool::NotNamed));
}

#[test]
fn a_set_pool_size_wins_over_any_contract() {
    let p = pool_expectation(
        Some("4"),
        None,
        ContractPool::Unreadable {
            path: "c".to_string(),
            cause: "gone".to_string(),
        },
    )
    .unwrap();
    assert_eq!(p.pool_size, 4);
}

#[test]
fn a_pool_must_have_a_size_above_zero() {
    let err = |size: Option<&str>, min: Option<&str>, c: Option<ContractFile>| {
        resolve_pool_expectation(size, min, c).unwrap_err()
    };
    let e = err(Some("x"), None, None);
    assert!(e.contains("\"x\"") && e.contains("invalid digit found in string"), "{e}");
    let e = err(Some("99999999999999999999999"), None, None);
    assert!(e.contains("number too large to fit in target type"), "{e}");
    let e = err(Some("4"), Some("-1"), None);
    assert!(e.contains("\"-1\""), "{e}");
    let texts = [
        err(Some("0"), None, None),
        err(Some("4"), Some("0"), None),
        err(None, None, None),
        err(None, None, contract("{}")),
        err(None, None, contract("{")),
        err(
            None,
            None,
            Some(ContractFile {
                path: "/c.json".to_string(),
                bytes: Err("gone".to_string()),
            }),
        ),
    ];
    for (i, a) in texts.iter().enumerate() {
        for b in &texts[i + 1..] {
            assert_ne!(a, b);
        }
    }
    assert!(texts[5].contains("/c.json") && texts[5].contains("gone"));
}
