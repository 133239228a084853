//! What holds of every `measure-job` command line and of every paired run.
use crate::args::is_help;
use crate::measure::{
    calibration_path, calibration_refusal, count_of_kind, exit_of, following, gives_calibration,
    judged, missing_head, path_from, prompt_rejection_text, text_of_failure, verdict_status,
    CalibrationOutcome, Check, HeadDir, MeasureContext, MeasureJobFailure, MeasureJobVerdict,
    MeasureStep, PromptRejection, ResolvedCalibration, StepView,
};
use crate::measure_args::{
    budget_refusal, is_target_id, measure_request, measure_resolve, measure_scan,
    no_measure_flags, presence_refusal, producer_refusal, specs_refusal, takes_measure_value,
    unreadable_from, window_of, with_measure_switch, with_measure_value, MeasureArgsView,
    MeasureFlagsView, MeasureJobArgs, MeasureSettings,
};
use crate::measure_texts::{
    attestation_differs, baseline_digest_failed, budget_exceeded, calibration_missing_before,
    calibration_other_series, calibration_other_track, calibration_unreadable,
    candidate_digest_failed, correctness_pin_failed, dflash_head_unset, golden_unloadable,
    golden_unloadable_at, golden_unreadable, golden_unrecognized, goldens_repeat,
    growth_exceeded, head_dir_missing, head_dir_unset, manifest_unreadable, mode_not_admitted,
    read_failed, reference_pin_failed, scoring_disabled, tape_unloadable, weights_digest_failed,
};
use crate::number::Number;
use crate::overlay::gates::is_sha256_hex;
use crate::spec_config::{module_refusal, ExactnessProbe, LegRegime, SpecView};
use crate::text::{
    a_numeral_is_within_its_bound, is_control, is_white, numeral_read, trimmed, NumeralFault,
};
use crate::usage_texts::{
    baseline_env_set, baseline_not_serial, depth_over_cap, depth_renamed, depth_too_large,
    flag_needs_value, free_run_window, missing_required, no_weights, not_a_measure_flag,
    producer_empty, producer_unreadable, prompt_trio_half_set, sha_malformed, spec_and_depth,
    target_below_min, target_malformed, unknown_flag, zero_min_pairs, zero_tokens,
};
use vstd::prelude::*;

verus! {

/// What tells the words of a command line apart.
proof fn lemma_flag_names()
    ensures
        "--candidate"@.len() == 11,
        "--baseline"@.len() == 10,
        "--weights"@.len() == 9,
        "--golden"@.len() == 8,
        "--contract"@.len() == 10,
        "--correctness-golden"@.len() == 20,
        "--candidate-spec"@.len() == 16,
        "--baseline-spec"@.len() == 15,
        "--tag"@.len() == 5,
        "--out"@.len() == 5,
        "--prompt"@.len() == 8,
        "--prompt-sha256"@.len() == 15,
        "--target-id"@.len() == 11,
        "--tokens"@.len() == 8,
        "--mtp-depth"@.len() == 11,
        "--min-pairs"@.len() == 11,
        "--min-pairs-per-prompt"@.len() == 22,
        "--target-pairs"@.len() == 14,
        "--pairs-per-prompt"@.len() == 18,
        "--gates-producer"@.len() == 16,
        "--exactness-probe"@.len() == 17,
        "--preflight-only"@.len() == 16,
        "--calibration-bootstrap"@.len() == 23,
        "--local-dev"@.len() == 11,
        "--depth"@.len() == 7,
        "--baseline-prefill-spt"@.len() == 22,
        "--baseline-decode-spt"@.len() == 21,
        "--baseline-engine"@.len() == 17,
        "--engine"@.len() == 8,
        "--help"@.len() == 6,
        "-h"@.len() == 2,
        "--candidate"@ != "--target-id"@,
        "--candidate"@ != "--mtp-depth"@,
        "--candidate"@ != "--min-pairs"@,
        "--candidate"@ != "--local-dev"@,
        "--baseline"@ != "--contract"@,
        "--golden"@ != "--prompt"@,
        "--golden"@ != "--tokens"@,
        "--golden"@ != "--engine"@,
        "--candidate-spec"@ != "--gates-producer"@,
        "--candidate-spec"@ != "--preflight-only"@,
        "--baseline-spec"@ != "--prompt-sha256"@,
        "--tag"@ != "--out"@,
        "--prompt"@ != "--tokens"@,
        "--prompt"@ != "--engine"@,
        "--target-id"@ != "--mtp-depth"@,
        "--target-id"@ != "--min-pairs"@,
        "--target-id"@ != "--local-dev"@,
        "--tokens"@ != "--engine"@,
        "--mtp-depth"@ != "--min-pairs"@,
        "--mtp-depth"@ != "--local-dev"@,
        "--min-pairs"@ != "--local-dev"@,
        "--min-pairs-per-prompt"@ != "--baseline-prefill-spt"@,
        "--gates-producer"@ != "--preflight-only"@,
        "--exactness-probe"@ != "--baseline-engine"@,
{
    reveal_strlit("--candidate");
    reveal_strlit("--baseline");
    reveal_strlit("--weights");
    reveal_strlit("--golden");
    reveal_strlit("--contract");
    reveal_strlit("--correctness-golden");
    reveal_strlit("--candidate-spec");
    reveal_strlit("--baseline-spec");
    reveal_strlit("--tag");
    reveal_strlit("--out");
    reveal_strlit("--prompt");
    reveal_strlit("--prompt-sha256");
    reveal_strlit("--target-id");
    reveal_strlit("--tokens");
    reveal_strlit("--mtp-depth");
    reveal_strlit("--min-pairs");
    reveal_strlit("--min-pairs-per-prompt");
    reveal_strlit("--target-pairs");
    reveal_strlit("--pairs-per-prompt");
    reveal_strlit("--gates-producer");
    reveal_strlit("--exactness-probe");
    reveal_strlit("--preflight-only");
    reveal_strlit("--calibration-bootstrap");
    reveal_strlit("--local-dev");
    reveal_strlit("--depth");
    reveal_strlit("--baseline-prefill-spt");
    reveal_strlit("--baseline-decode-spt");
    reveal_strlit("--baseline-engine");
    reveal_strlit("--engine");
    reveal_strlit("--help");
    reveal_strlit("-h");
    assert("--candidate"@[2] != "--target-id"@[2]);
    assert("--candidate"@[2] != "--mtp-depth"@[2]);
    assert("--candidate"@[2] != "--min-pairs"@[2]);
    assert("--candidate"@[2] != "--local-dev"@[2]);
    assert("--baseline"@[2] != "--contract"@[2]);
    assert("--golden"@[2] != "--prompt"@[2]);
    assert("--golden"@[2] != "--tokens"@[2]);
    assert("--golden"@[2] != "--engine"@[2]);
    assert("--candidate-spec"@[2] != "--gates-producer"@[2]);
    assert("--candidate-spec"@[2] != "--preflight-only"@[2]);
    assert("--baseline-spec"@[2] != "--prompt-sha256"@[2]);
    assert("--tag"@[2] != "--out"@[2]);
    assert("--prompt"@[2] != "--tokens"@[2]);
    assert("--prompt"@[2] != "--engine"@[2]);
    assert("--target-id"@[2] != "--mtp-depth"@[2]);
    assert("--target-id"@[2] != "--min-pairs"@[2]);
    assert("--target-id"@[2] != "--local-dev"@[2]);
    assert("--tokens"@[2] != "--engine"@[2]);
    assert("--mtp-depth"@[3] != "--min-pairs"@[3]);
    assert("--mtp-depth"@[2] != "--local-dev"@[2]);
    assert("--min-pairs"@[2] != "--local-dev"@[2]);
    assert("--min-pairs-per-prompt"@[2] != "--baseline-prefill-spt"@[2]);
    assert("--gates-producer"@[2] != "--preflight-only"@[2]);
    assert("--exactness-probe"@[2] != "--baseline-engine"@[2]);
}

proof fn lemma_scan_goes_on(
    line: Seq<Seq<char>>,
    more: Seq<Seq<char>>,
    i: int,
    f: MeasureFlagsView,
)
    requires
        0 <= i <= line.len(),
        measure_scan(line, i, f) matches Ok(Some(_)),
    ensures
        measure_scan(line + more, i, f) == measure_scan(
            line + more,
            line.len() as int,
            measure_scan(line, i, f)->Ok_0->0,
        ),
    decreases line.len() - i,
{
    let whole = line + more;
    if i < line.len() {
        assert(whole[i] == line[i]);
        if takes_measure_value(line[i]) {
            assert(whole[i + 1] == line[i + 1]);
            match with_measure_value(f, line[i], line[i + 1]) {
                Ok(g) => lemma_scan_goes_on(line, more, i + 2, g),
                Err(_) => {},
            }
        } else {
            match with_measure_switch(f, line[i]) {
                Ok(g) => lemma_scan_goes_on(line, more, i + 1, g),
                Err(_) => {},
            }
        }
    }
}

proof fn lemma_last_flag(line: Seq<Seq<char>>, flag: Seq<char>, v: Seq<char>)
    requires
        measure_scan(line, 0, no_measure_flags()) matches Ok(Some(_)),
        takes_measure_value(flag),
        !is_help(flag),
    ensures
        ({
            let f = measure_scan(line, 0, no_measure_flags())->Ok_0->0;
            let whole = line + seq![flag, v];
            measure_scan(whole, 0, no_measure_flags()) == (match with_measure_value(f, flag, v) {
                Ok(g) => Ok::<Option<MeasureFlagsView>, Seq<char>>(Some(g)),
                Err(m) => Err(m),
            })
        }),
{
    let f = measure_scan(line, 0, no_measure_flags())->Ok_0->0;
    let more = seq![flag, v];
    let whole = line + more;
    lemma_scan_goes_on(line, more, 0, no_measure_flags());
    let n = line.len() as int;
    assert(whole[n] == flag);
    assert(whole[n + 1] == v);
    match with_measure_value(f, flag, v) {
        Ok(g) => {
            assert(measure_scan(whole, n + 2, g) == Ok::<Option<MeasureFlagsView>, Seq<char>>(
                Some(g),
            ));
        },
        Err(_) => {},
    }
}

/// `given` is the text that an optional field holds.
pub open spec fn holds_text(field: Option<String>, given: Seq<char>) -> bool {
    field matches Some(t) && t@ == given
}

/// The last value of a flag is the one that a run gets, in the field of that flag: what is given
/// at the end of an accepted command line is what the run holds.
pub proof fn the_last_value_of_a_flag_reaches_its_field(
    line: Seq<Seq<char>>,
    flag: Seq<char>,
    v: Seq<char>,
    settings: MeasureSettings,
    candidate_parsed: Result<SpecView, Seq<char>>,
    baseline_parsed: Result<SpecView, Seq<char>>,
    run: MeasureJobArgs,
)
    requires
        measure_scan(line, 0, no_measure_flags()) matches Ok(Some(_)),
        measure_request(
            line + seq![flag, v],
            settings,
            candidate_parsed,
            baseline_parsed,
        ) == Ok::<_, Seq<char>>(Some(run@)),
    ensures
        flag == "--candidate"@ ==> run.candidate@ == v,
        flag == "--baseline"@ ==> run.baseline@ == v,
        flag == "--weights"@ ==> run.weights@ == v,
        flag == "--golden"@ ==> run.goldens@.len() > 0 && run.goldens@.last()@ == v,
        flag == "--contract"@ ==> run.contract@ == v,
        flag == "--correctness-golden"@ ==> holds_text(run.correctness_golden, v),
        flag == "--tag"@ ==> run.tag@ == v,
        flag == "--out"@ ==> run.out@ == v,
        flag == "--prompt"@ ==> holds_text(run.prompt, v),
        flag == "--prompt-sha256"@ ==> holds_text(run.prompt_sha256, v),
        flag == "--target-id"@ ==> holds_text(run.target_id, v),
        flag == "--gates-producer"@ ==> run.gates_producer@ == v,
        flag == "--tokens"@ ==> numeral_read(v, usize::MAX as nat) == Ok::<nat, NumeralFault>(
            run.tokens as nat,
        ),
        flag == "--min-pairs"@ || flag == "--min-pairs-per-prompt"@ ==> numeral_read(
            v,
            usize::MAX as nat,
        ) == Ok::<nat, NumeralFault>(run.min_pairs as nat),
        flag == "--target-pairs"@ || flag == "--pairs-per-prompt"@ ==> numeral_read(
            v,
            usize::MAX as nat,
        ) == Ok::<nat, NumeralFault>(run.target_pairs as nat),
        flag == "--mtp-depth"@ ==> numeral_read(v, usize::MAX as nat) == Ok::<nat, NumeralFault>(
            run.mtp_depth as nat,
        ) && run.candidate_spec.mode@ == "mtp"@ && run.candidate_spec_source@
            == "mtp-depth-flag"@,
        flag == "--candidate-spec"@ ==> candidate_parsed == Ok::<_, Seq<char>>(
            run.candidate_spec@,
        ) && run.candidate_spec_source@ == "cli-override"@,
        flag == "--baseline-spec"@ ==> baseline_parsed == Ok::<_, Seq<char>>(run.baseline_spec@)
            && run.baseline_spec_source@ == "cli-override"@,
        flag == "--exactness-probe"@ ==> {
            &&& v == "none"@ <==> run.exactness_probe is Never
            &&& v == "once"@ <==> run.exactness_probe is Once
            &&& v == "per-prompt"@ <==> run.exactness_probe is PerPrompt
            &&& v == "per-pair"@ <==> run.exactness_probe is PerPair
        },
{
    lemma_flag_names();
    lemma_probe_names();
    if takes_measure_value(flag) {
        lemma_last_flag(line, flag, v);
        if flag == "--golden"@ {
            let before = measure_scan(line, 0, no_measure_flags())->Ok_0->0.goldens;
            assert(run@.goldens == before.push(v));
            assert(run@.goldens.len() == run.goldens@.len());
            assert(run@.goldens[before.len() as int] == run.goldens@[before.len() as int]@);
        }
    }
}

proof fn lemma_probe_names()
    ensures
        "none"@.len() == 4,
        "once"@.len() == 4,
        "per-prompt"@.len() == 10,
        "per-pair"@.len() == 8,
        "none"@ != "once"@,
{
    reveal_strlit("none");
    reveal_strlit("once");
    reveal_strlit("per-prompt");
    reveal_strlit("per-pair");
    assert("none"@[0] != "once"@[0]);
}

/// No flag touches the field of another: what is added at the end of an accepted command line
/// leaves every other field as it was.
pub proof fn a_flag_leaves_the_other_fields(
    line: Seq<Seq<char>>,
    flag: Seq<char>,
    v: Seq<char>,
    settings: MeasureSettings,
    candidate_parsed: Result<SpecView, Seq<char>>,
    baseline_parsed: Result<SpecView, Seq<char>>,
    before: MeasureJobArgs,
    after: MeasureJobArgs,
)
    requires
        measure_request(line, settings, candidate_parsed, baseline_parsed) == Ok::<_, Seq<char>>(
            Some(before@),
        ),
        measure_request(
            line + seq![flag, v],
            settings,
            candidate_parsed,
            baseline_parsed,
        ) == Ok::<_, Seq<char>>(Some(after@)),
        takes_measure_value(flag),
    ensures
        flag != "--candidate"@ ==> after.candidate@ == before.candidate@,
        flag != "--baseline"@ ==> after.baseline@ == before.baseline@,
        flag != "--weights"@ ==> after.weights@ == before.weights@,
        flag != "--golden"@ ==> after@.goldens == before@.goldens,
        flag == "--golden"@ ==> after@.goldens == before@.goldens.push(v),
        flag != "--contract"@ ==> after.contract@ == before.contract@,
        flag != "--correctness-golden"@ ==> after@.correctness_golden
            == before@.correctness_golden,
        flag != "--tag"@ ==> after.tag@ == before.tag@,
        flag != "--out"@ ==> after.out@ == before.out@,
        flag != "--prompt"@ ==> after@.prompt == before@.prompt,
        flag != "--prompt-sha256"@ ==> after@.prompt_sha256 == before@.prompt_sha256,
        flag != "--target-id"@ ==> after@.target_id == before@.target_id,
        flag != "--gates-producer"@ ==> after.gates_producer@ == before.gates_producer@,
        flag != "--exactness-probe"@ ==> after.exactness_probe == before.exactness_probe,
        flag != "--min-pairs"@ && flag != "--min-pairs-per-prompt"@ ==> after.min_pairs
            == before.min_pairs,
        flag != "--target-pairs"@ && flag != "--pairs-per-prompt"@ ==> after.target_pairs
            == before.target_pairs,
        flag != "--candidate-spec"@ && flag != "--mtp-depth"@ ==> after.candidate_spec@
            == before.candidate_spec@ && after.candidate_regime == before.candidate_regime,
        flag != "--baseline-spec"@ ==> after.baseline_spec@ == before.baseline_spec@,
        after.preflight_only == before.preflight_only,
        after.calibration_bootstrap == before.calibration_bootstrap,
        after.local_dev == before.local_dev,
{
    lemma_flag_names();
    lemma_last_flag(line, flag, v);
}

/// A switch at the end of an accepted command line is on, and everything else is as before.
pub proof fn a_switch_is_switched_on(
    line: Seq<Seq<char>>,
    switch: Seq<char>,
    settings: MeasureSettings,
    candidate_parsed: Result<SpecView, Seq<char>>,
    baseline_parsed: Result<SpecView, Seq<char>>,
    before: MeasureJobArgs,
    after: MeasureJobArgs,
)
    requires
        measure_request(line, settings, candidate_parsed, baseline_parsed) == Ok::<_, Seq<char>>(
            Some(before@),
        ),
        measure_request(
            line + seq![switch],
            settings,
            candidate_parsed,
            baseline_parsed,
        ) == Ok::<_, Seq<char>>(Some(after@)),
    ensures
        switch == "--preflight-only"@ || switch == "--calibration-bootstrap"@ || switch
            == "--local-dev"@,
        after.preflight_only == (before.preflight_only || switch == "--preflight-only"@),
        after.calibration_bootstrap == (before.calibration_bootstrap || switch
            == "--calibration-bootstrap"@),
        after.local_dev == (before.local_dev || switch == "--local-dev"@),
        after.tag@ == before.tag@,
        after.out@ == before.out@,
        after.tokens == before.tokens,
        after@.goldens == before@.goldens,
{
    lemma_flag_names();
    let f = measure_scan(line, 0, no_measure_flags())->Ok_0->0;
    let more = seq![switch];
    let whole = line + more;
    lemma_scan_goes_on(line, more, 0, no_measure_flags());
    let n = line.len() as int;
    assert(whole[n] == switch);
    assert(!takes_measure_value(switch));
    match with_measure_switch(f, switch) {
        Ok(g) => {
            assert(measure_scan(whole, n + 1, g) == Ok::<Option<MeasureFlagsView>, Seq<char>>(
                Some(g),
            ));
        },
        Err(_) => {},
    }
}

/// No word of the line from `i` on is `flag`.
pub open spec fn never_says(line: Seq<Seq<char>>, i: int, flag: Seq<char>) -> bool {
    forall|k: int| i <= k < line.len() ==> #[trigger] line[k] != flag
}

proof fn lemma_absent_flags(line: Seq<Seq<char>>, i: int, f: MeasureFlagsView)
    requires
        0 <= i <= line.len(),
        measure_scan(line, i, f) matches Ok(Some(_)),
    ensures
        ({
            let g = measure_scan(line, i, f)->Ok_0->0;
            &&& never_says(line, i, "--correctness-golden"@) ==> g.correctness_golden
                == f.correctness_golden
            &&& never_says(line, i, "--prompt"@) ==> g.prompt == f.prompt
            &&& never_says(line, i, "--prompt-sha256"@) ==> g.prompt_sha256 == f.prompt_sha256
            &&& never_says(line, i, "--target-id"@) ==> g.target_id == f.target_id
            &&& never_says(line, i, "--gates-producer"@) ==> g.gates_producer == f.gates_producer
            &&& never_says(line, i, "--exactness-probe"@) ==> g.exactness_probe
                == f.exactness_probe
            &&& never_says(line, i, "--tokens"@) ==> g.tokens == f.tokens
            &&& never_says(line, i, "--weights"@) ==> g.weights == f.weights
            &&& never_says(line, i, "--candidate-spec"@) ==> g.candidate_spec == f.candidate_spec
            &&& never_says(line, i, "--baseline-spec"@) ==> g.baseline_spec == f.baseline_spec
            &&& never_says(line, i, "--mtp-depth"@) ==> g.mtp_depth == f.mtp_depth
            &&& never_says(line, i, "--preflight-only"@) ==> g.preflight_only == f.preflight_only
            &&& never_says(line, i, "--calibration-bootstrap"@) ==> g.calibration_bootstrap
                == f.calibration_bootstrap
            &&& never_says(line, i, "--local-dev"@) ==> g.local_dev == f.local_dev
        }),
    decreases line.len() - i,
{
    lemma_flag_names();
    if i < line.len() {
        let a = line[i];
        if takes_measure_value(a) {
            match with_measure_value(f, a, line[i + 1]) {
                Ok(g) => lemma_absent_flags(line, i + 2, g),
                Err(_) => {},
            }
        } else {
            match with_measure_switch(f, a) {
                Ok(g) => lemma_absent_flags(line, i + 1, g),
                Err(_) => {},
            }
        }
    }
}

/// What no word of an accepted command line asks for is not there, or is the default: no
/// correctness golden, no prompt, an undeclared gates producer, one exactness probe, the window of
/// the regime, the weights of the setting, the default specs, and every switch off.
pub proof fn what_is_not_given_is_the_default(
    line: Seq<Seq<char>>,
    settings: MeasureSettings,
    candidate_parsed: Result<SpecView, Seq<char>>,
    baseline_parsed: Result<SpecView, Seq<char>>,
    run: MeasureJobArgs,
)
    requires
        measure_request(line, settings, candidate_parsed, baseline_parsed) == Ok::<_, Seq<char>>(
            Some(run@),
        ),
    ensures
        never_says(line, 0, "--correctness-golden"@) ==> run.correctness_golden is None,
        never_says(line, 0, "--prompt"@) ==> run.prompt is None,
        never_says(line, 0, "--prompt-sha256"@) ==> run.prompt_sha256 is None,
        never_says(line, 0, "--target-id"@) ==> run.target_id is None,
        never_says(line, 0, "--gates-producer"@) ==> run.gates_producer@ == "undeclared"@,
        never_says(line, 0, "--exactness-probe"@) ==> run.exactness_probe is Once,
        never_says(line, 0, "--tokens"@) ==> run.tokens == (if run.candidate_spec.mode@
            == "serial"@ {
            512usize
        } else {
            128usize
        }),
        never_says(line, 0, "--weights"@) ==> (settings.target_dir matches Some(d)
            && run.weights@ == trimmed(d@) && run.weights@.len() > 0),
        never_says(line, 0, "--candidate-spec"@) ==> run.candidate_spec.mode@ == "mtp"@
            && !run.candidate_spec.dflash && run.candidate_spec.mtp_depth is Some,
        never_says(line, 0, "--candidate-spec"@) && never_says(line, 0, "--mtp-depth"@)
            ==> run.candidate_spec.mtp_depth == Some(2u32) && run.mtp_depth == 2
            && run.candidate_spec_source@ == "mtp-depth-default"@,
        never_says(line, 0, "--baseline-spec"@) ==> run.baseline_spec.mode@ == "serial"@
            && run.baseline_spec_source@ == "serial-default"@,
        never_says(line, 0, "--preflight-only"@) ==> !run.preflight_only,
        never_says(line, 0, "--calibration-bootstrap"@) ==> !run.calibration_bootstrap,
        never_says(line, 0, "--local-dev"@) ==> !run.local_dev,
{
    lemma_flag_names();
    lemma_absent_flags(line, 0, no_measure_flags());
    reveal_strlit("serial");
    reveal_strlit("mtp");
}

/// The regime of a run is the one its candidate is timed in: teacher-forced exactly for a serial
/// candidate. The sealed depth is that of the spec.
pub proof fn the_regime_follows_the_candidate(
    line: Seq<Seq<char>>,
    settings: MeasureSettings,
    candidate_parsed: Result<SpecView, Seq<char>>,
    baseline_parsed: Result<SpecView, Seq<char>>,
    run: MeasureJobArgs,
)
    requires
        measure_request(line, settings, candidate_parsed, baseline_parsed) == Ok::<_, Seq<char>>(
            Some(run@),
        ),
    ensures
        run.candidate_regime is TeacherForcedV1 <==> run.candidate_spec.mode@ == "serial"@,
        run.candidate_regime is FreeRunV1_1 ==> run.tokens == 128,
        run.mtp_depth == (match run.candidate_spec.mtp_depth {
            Some(d) => d as int,
            None => 0,
        }),
        run.candidate_spec.mtp_depth is Some <==> run.candidate_spec.mode@ == "mtp"@,
        run.candidate_spec.dflash <==> run.candidate_spec.mode@ == "dflash"@,
        run.candidate_spec.mtp_depth matches Some(d) ==> d >= 1,
        run.baseline_spec.mode@ == "serial"@,
        run.baseline_spec.mtp_depth is None,
        !run.baseline_spec.dflash,
{
    reveal_strlit("serial");
    reveal_strlit("mtp");
    reveal_strlit("dflash");
    assert("serial"@.len() != "mtp"@.len());
    assert("serial"@[0] != "dflash"@[0]);
    assert("mtp"@.len() != "dflash"@.len());
}

/// A text of a setting that says nothing.
pub open spec fn is_blank(setting: Option<String>) -> bool {
    setting matches Some(s) ==> trimmed(s@).len() == 0
}

/// The depth cap of a run: the constant, unless a local run sets a number.
pub open spec fn cap_in_force(local_dev: bool, setting: Option<String>) -> nat {
    if local_dev && setting is Some && numeral_read(trimmed(setting->0@), usize::MAX as nat)
        is Ok {
        numeral_read(trimmed(setting->0@), usize::MAX as nat)->Ok_0
    } else {
        32
    }
}

/// Flags are accepted exactly when nothing is missing, no baseline is set as a time, the two specs
/// can be told and are sound, the window is one of the series of the candidate, the pair budgets
/// are in order, and the prompt is pinned and named or not given at all.
pub proof fn flags_are_accepted_exactly_when_they_can_be_run(
    f: MeasureFlagsView,
    settings: MeasureSettings,
    candidate_parsed: Result<SpecView, Seq<char>>,
    baseline_parsed: Result<SpecView, Seq<char>>,
    c: SpecView,
    b: SpecView,
)
    requires
        f.candidate_spec is Some && candidate_parsed is Ok ==> c == candidate_parsed->Ok_0,
        f.candidate_spec is None ==> c.mode == "mtp"@ && !c.dflash && (f.mtp_depth matches Some(d)
            ==> d <= u32::MAX ==> c.mtp_depth == Some(d as u32)) && (f.mtp_depth is None
            ==> c.mtp_depth == Some(2u32)),
        f.baseline_spec is Some && baseline_parsed is Ok ==> b == baseline_parsed->Ok_0,
        f.baseline_spec is None ==> b.mode == "serial"@ && b.mtp_depth is None && !b.dflash,
    ensures
        measure_resolve(f, settings, candidate_parsed, baseline_parsed) is Ok <==> {
            &&& is_blank(settings.prefill_baseline)
            &&& is_blank(settings.decode_baseline)
            &&& f.candidate is Some
            &&& f.baseline is Some
            &&& f.weights is Some || !is_blank(settings.target_dir)
            &&& f.goldens.len() > 0
            &&& f.contract is Some
            &&& f.candidate_spec is None || f.mtp_depth is None
            &&& f.min_pairs matches Some(min) && f.target_pairs matches Some(target) && 1 <= min
                <= target
            &&& f.tag is Some
            &&& f.out is Some
            &&& f.candidate_spec is Some ==> candidate_parsed is Ok
            &&& f.baseline_spec is Some ==> baseline_parsed is Ok
            &&& f.candidate_spec is None && f.mtp_depth is Some ==> f.mtp_depth->0 <= u32::MAX
            &&& b.mode == "serial"@ && b.mtp_depth is None && !b.dflash
            &&& c.mtp_depth is Some <==> c.mode == "mtp"@
            &&& c.dflash <==> c.mode == "dflash"@
            &&& c.mtp_depth matches Some(d) ==> 1 <= d <= cap_in_force(
                f.local_dev,
                settings.max_draft_depth,
            )
            &&& f.tokens matches Some(t) ==> t > 0 && (c.mode != "serial"@ ==> t == 128)
            &&& (f.prompt is Some) == (f.prompt_sha256 is Some)
            &&& (f.prompt is Some) == (f.target_id is Some)
            &&& f.prompt_sha256 matches Some(s) ==> s.len() == 64 && forall|i: int|
                0 <= i < 64 ==> ('0' <= #[trigger] s[i] && s[i] <= '9') || ('a' <= s[i] && s[i]
                    <= 'f')
            &&& f.target_id matches Some(s) ==> s.len() > 0 && forall|i: int|
                0 <= i < s.len() ==> ('0' <= #[trigger] s[i] && s[i] <= '9') || ('a' <= s[i]
                    && s[i] <= 'z') || ('A' <= s[i] && s[i] <= 'Z') || s[i] == '.' || s[i] == '_'
                    || s[i] == '-'
        },
{
    reveal_strlit("serial");
    reveal_strlit("mtp");
    reveal_strlit("dflash");
    assert("serial"@.len() != "mtp"@.len());
    assert("serial"@[0] != "dflash"@[0]);
    assert("mtp"@.len() != "dflash"@.len());
}

/// A command line that ends in a word which is neither a switch nor a request for help is refused:
/// a flag without its value, a retired flag, or a word that is no flag.
pub proof fn a_dangling_word_is_refused(
    line: Seq<Seq<char>>,
    word: Seq<char>,
    settings: MeasureSettings,
    candidate_parsed: Result<SpecView, Seq<char>>,
    baseline_parsed: Result<SpecView, Seq<char>>,
)
    requires
        measure_scan(line, 0, no_measure_flags()) matches Ok(Some(_)),
        word != "--preflight-only"@ && word != "--calibration-bootstrap"@ && word
            != "--local-dev"@ && word != "--help"@ && word != "-h"@,
    ensures
        measure_request(line + seq![word], settings, candidate_parsed, baseline_parsed) is Err,
{
    let more = seq![word];
    lemma_scan_goes_on(line, more, 0, no_measure_flags());
    assert((line + more)[line.len() as int] == word);
}

/// A command line that asks for help where a flag could stand is answered with help.
pub proof fn help_is_answered(
    line: Seq<Seq<char>>,
    word: Seq<char>,
    settings: MeasureSettings,
    candidate_parsed: Result<SpecView, Seq<char>>,
    baseline_parsed: Result<SpecView, Seq<char>>,
)
    requires
        measure_scan(line, 0, no_measure_flags()) matches Ok(Some(_)),
        word == "--help"@ || word == "-h"@,
    ensures
        measure_request(line + seq![word], settings, candidate_parsed, baseline_parsed) matches Ok(
            None,
        ),
{
    let more = seq![word];
    lemma_scan_goes_on(line, more, 0, no_measure_flags());
    assert((line + more)[line.len() as int] == word);
}

/// A failed check never exits with success: its status says whether the calibration failed, whether
/// something on the box could not be read or resolved, or whether a prerequisite is not met.
pub proof fn a_failed_check_never_exits_with_success(check: Check)
    ensures
        exit_of(check) != 0,
        exit_of(check) == 6 <==> (check is ReadCalibration || check is Calibration),
        exit_of(check) == 1 <==> (check is ReadContract || check is ParseContract || check
            is LoadedUtil || check is CandidateEngine || check is BaselineEngine || check
            is WeightsDigest || check is CandidateDigest || check is BaselineDigest || check
            is TrackId || check is SerialSandbox || check is CandidateSandbox || check
            is Measure),
        exit_of(check) == 8 <==> exit_of(check) != 6 && exit_of(check) != 1,
{
}

/// What a run fails with says why: the message of every failed check ends in its cause, and one of
/// a file or a directory names it in brackets before that.
pub proof fn a_failed_check_says_why(check: Check, path: Seq<char>, cause: Seq<char>)
    ensures
        ({
            let text = text_of_failure(check, path, cause);
            let n = text.len() - cause.len();
            &&& n >= 0
            &&& text.subrange(n, text.len() as int) == cause
            &&& check is ReadContract || check is ReadPrompt || check is ReadCorrectnessGolden
                || check is ReadManifest || check is WeightsDigest || check is CandidateDigest
                || check is BaselineDigest || check is ReadCalibration ==> {
                &&& n >= path.len() + 3
                &&& text.subrange(n - 3 - path.len(), n - 3) == path
            }
        }),
{
    let text = text_of_failure(check, path, cause);
    let n = text.len() - cause.len();
    reveal_strlit("): ");
    assert(text.subrange(n, text.len() as int) =~= cause);
    if check is ReadContract || check is ReadPrompt || check is ReadCorrectnessGolden || check
        is ReadManifest || check is WeightsDigest || check is CandidateDigest || check
        is BaselineDigest || check is ReadCalibration {
        assert(text.subrange(n - 3 - path.len(), n - 3) =~= path);
    }
}

/// What a run that made every check before the machine is used has left to do, when it may be
/// measured.
pub open spec fn measuring_part() -> Seq<Check> {
    seq![
        Check::ScoringEnabled,
        Check::DflashHead,
        Check::SerialSandbox,
        Check::CandidateSandbox,
        Check::SpawnArgv,
        Check::Measure,
    ]
}

/// `some` where `asked`, nothing otherwise.
pub open spec fn only_if(asked: bool, some: Seq<Check>) -> Seq<Check> {
    if asked {
        some
    } else {
        Seq::empty()
    }
}

proof fn lemma_measuring_part(ctx: MeasureContext)
    requires
        ctx.scoring_enabled && ctx.heads && ctx.dflash_head,
        ctx.band_enforce ==> ctx.calibration_bootstrap || ctx.calibrated,
    ensures
        path_from(Check::ScoringEnabled, ctx) == measuring_part(),
{
    reveal_with_fuel(path_from, 7);
    assert(path_from(Check::ScoringEnabled, ctx) =~= measuring_part());
}

proof fn lemma_last_part(ctx: MeasureContext)
    requires
        ctx.scoring_enabled && ctx.heads && ctx.dflash_head,
        ctx.band_enforce ==> ctx.calibration_bootstrap || ctx.calibrated,
    ensures
        path_from(Check::TrackId, ctx) == seq![Check::TrackId] + (only_if(
            ctx.calibration_named,
            seq![Check::ReadCalibration, Check::Calibration],
        ) + (seq![Check::RegimeCoherent, Check::GatesOracle, Check::PromptWindows] + only_if(
            !ctx.preflight_only,
            measuring_part(),
        ))),
{
    lemma_measuring_part(ctx);
    reveal_with_fuel(path_from, 7);
    assert(path_from(Check::TrackId, ctx) =~= seq![Check::TrackId] + (only_if(
        ctx.calibration_named,
        seq![Check::ReadCalibration, Check::Calibration],
    ) + (seq![Check::RegimeCoherent, Check::GatesOracle, Check::PromptWindows] + only_if(
        !ctx.preflight_only,
        measuring_part(),
    ))));
}

/// What follows the engines: the heads, the digests, the commit.
pub open spec fn identity_part() -> Seq<Check> {
    seq![
        Check::HeadDirs,
        Check::WeightsDigest,
        Check::CandidateDigest,
        Check::BaselineDigest,
        Check::DispatchRecord,
        Check::SealCommit,
    ]
}

/// What is held against a manifest.
pub open spec fn manifest_part() -> Seq<Check> {
    seq![
        Check::ReadManifest,
        Check::TrustedScope,
        Check::ByteBudget,
        Check::Growth,
        Check::Divergence,
    ]
}

proof fn lemma_identity_part(ctx: MeasureContext)
    ensures
        path_from(Check::HeadDirs, ctx) == identity_part() + path_from(Check::TrackId, ctx),
        path_from(Check::BaselineMetallib, ctx) == seq![Check::BaselineMetallib] + (only_if(
            ctx.manifest,
            manifest_part(),
        ) + path_from(Check::HeadDirs, ctx)),
{
    let rest = path_from(Check::TrackId, ctx);
    assert(path_from(Check::SealCommit, ctx) == seq![Check::SealCommit] + rest);
    assert(path_from(Check::DispatchRecord, ctx) == seq![Check::DispatchRecord] + path_from(
        Check::SealCommit,
        ctx,
    ));
    assert(path_from(Check::BaselineDigest, ctx) == seq![Check::BaselineDigest] + path_from(
        Check::DispatchRecord,
        ctx,
    ));
    assert(path_from(Check::CandidateDigest, ctx) == seq![Check::CandidateDigest] + path_from(
        Check::BaselineDigest,
        ctx,
    ));
    assert(path_from(Check::WeightsDigest, ctx) == seq![Check::WeightsDigest] + path_from(
        Check::CandidateDigest,
        ctx,
    ));
    assert(path_from(Check::HeadDirs, ctx) == seq![Check::HeadDirs] + path_from(
        Check::WeightsDigest,
        ctx,
    ));
    assert(path_from(Check::HeadDirs, ctx) =~= identity_part() + rest);
    let heads = path_from(Check::HeadDirs, ctx);
    assert(path_from(Check::Divergence, ctx) == seq![Check::Divergence] + heads);
    assert(path_from(Check::Growth, ctx) == seq![Check::Growth] + path_from(
        Check::Divergence,
        ctx,
    ));
    assert(path_from(Check::ByteBudget, ctx) == seq![Check::ByteBudget] + path_from(
        Check::Growth,
        ctx,
    ));
    assert(path_from(Check::TrustedScope, ctx) == seq![Check::TrustedScope] + path_from(
        Check::ByteBudget,
        ctx,
    ));
    assert(path_from(Check::ReadManifest, ctx) == seq![Check::ReadManifest] + path_from(
        Check::TrustedScope,
        ctx,
    ));
    assert(path_from(Check::BaselineMetallib, ctx) =~= seq![Check::BaselineMetallib] + (only_if(
        ctx.manifest,
        manifest_part(),
    ) + heads));
}

/// What is asked of the engines before their workspaces are looked at.
pub open spec fn engine_part() -> Seq<Check> {
    seq![
        Check::Attestation,
        Check::EngineWire,
        Check::LoadedUtil,
        Check::CandidateEngine,
        Check::BaselineEngine,
        Check::CandidateMetallib,
    ]
}

proof fn lemma_engine_part(ctx: MeasureContext)
    requires
        ctx.attested,
    ensures
        path_from(Check::CorrectnessPin, ctx) == seq![Check::CorrectnessPin] + (only_if(
            ctx.correctness_golden,
            seq![Check::ReadCorrectnessGolden],
        ) + (engine_part() + path_from(Check::BaselineMetallib, ctx))),
{
    let rest = path_from(Check::BaselineMetallib, ctx);
    assert(path_from(Check::CandidateMetallib, ctx) == seq![Check::CandidateMetallib] + rest);
    assert(path_from(Check::BaselineEngine, ctx) == seq![Check::BaselineEngine] + path_from(
        Check::CandidateMetallib,
        ctx,
    ));
    assert(path_from(Check::CandidateEngine, ctx) == seq![Check::CandidateEngine] + path_from(
        Check::BaselineEngine,
        ctx,
    ));
    assert(path_from(Check::LoadedUtil, ctx) == seq![Check::LoadedUtil] + path_from(
        Check::CandidateEngine,
        ctx,
    ));
    assert(path_from(Check::EngineWire, ctx) == seq![Check::EngineWire] + path_from(
        Check::LoadedUtil,
        ctx,
    ));
    assert(path_from(Check::Attestation, ctx) == seq![Check::Attestation] + path_from(
        Check::EngineWire,
        ctx,
    ));
    assert(path_from(Check::ReadCorrectnessGolden, ctx) == seq![Check::ReadCorrectnessGolden]
        + path_from(Check::Attestation, ctx));
    assert(path_from(Check::CorrectnessPin, ctx) =~= seq![Check::CorrectnessPin] + (only_if(
        ctx.correctness_golden,
        seq![Check::ReadCorrectnessGolden],
    ) + (engine_part() + rest)));
}

/// What is asked of the contract and of the goldens under it.
pub open spec fn contract_part() -> Seq<Check> {
    seq![
        Check::ParseContract,
        Check::AllowedModes,
        Check::GoldensPinned,
        Check::PoolCoverage,
        Check::EffectiveRegime,
    ]
}

proof fn lemma_contract_part(ctx: MeasureContext)
    requires
        ctx.mode_admitted,
    ensures
        path_from(Check::ParseContract, ctx) == contract_part() + (only_if(
            ctx.batched,
            seq![Check::ScoredExponents, Check::CohortMembership],
        ) + path_from(Check::CorrectnessPin, ctx)),
{
    let rest = path_from(Check::CorrectnessPin, ctx);
    assert(path_from(Check::CohortMembership, ctx) == seq![Check::CohortMembership] + rest);
    assert(path_from(Check::ScoredExponents, ctx) == seq![Check::ScoredExponents] + path_from(
        Check::CohortMembership,
        ctx,
    ));
    assert(path_from(Check::PoolCoverage, ctx) == seq![Check::PoolCoverage] + path_from(
        Check::EffectiveRegime,
        ctx,
    ));
    assert(path_from(Check::GoldensPinned, ctx) == seq![Check::GoldensPinned] + path_from(
        Check::PoolCoverage,
        ctx,
    ));
    assert(path_from(Check::AllowedModes, ctx) == seq![Check::AllowedModes] + path_from(
        Check::GoldensPinned,
        ctx,
    ));
    assert(path_from(Check::ParseContract, ctx) == seq![Check::ParseContract] + path_from(
        Check::AllowedModes,
        ctx,
    ));
    assert(path_from(Check::ParseContract, ctx) =~= contract_part() + (only_if(
        ctx.batched,
        seq![Check::ScoredExponents, Check::CohortMembership],
    ) + rest));
}

/// The whole order of a run that keeps the rules: the contract before the goldens, the goldens
/// before the engines, the engines before the digests, the digests before the calibration, and all
/// of that before the run is measured. What does not apply is left out and nothing else is; a run
/// that is only checked ends with its prompt windows.
pub proof fn a_run_makes_its_checks_in_this_order(ctx: MeasureContext)
    requires
        ctx.goldens_distinct && ctx.mode_admitted && ctx.attested,
        ctx.scoring_enabled && ctx.heads && ctx.dflash_head,
        ctx.band_enforce ==> ctx.calibration_bootstrap || ctx.calibrated,
    ensures
        path_from(Check::ReadContract, ctx) == seq![
            Check::ReadContract,
            Check::ReferencePin,
            Check::LoadGoldens,
            Check::GoldenDigests,
        ] + (only_if(ctx.prompt_pinned, seq![Check::ReadPrompt, Check::PromptPin]) + (
        contract_part() + (only_if(
            ctx.batched,
            seq![Check::ScoredExponents, Check::CohortMembership],
        ) + (seq![Check::CorrectnessPin] + (only_if(
            ctx.correctness_golden,
            seq![Check::ReadCorrectnessGolden],
        ) + (engine_part() + (seq![Check::BaselineMetallib] + (only_if(
            ctx.manifest,
            manifest_part(),
        ) + (identity_part() + (seq![Check::TrackId] + (only_if(
            ctx.calibration_named,
            seq![Check::ReadCalibration, Check::Calibration],
        ) + (seq![Check::RegimeCoherent, Check::GatesOracle, Check::PromptWindows] + only_if(
            !ctx.preflight_only,
            measuring_part(),
        ))))))))))))),
{
    lemma_contract_part(ctx);
    lemma_engine_part(ctx);
    lemma_identity_part(ctx);
    lemma_last_part(ctx);
    let rest = path_from(Check::ParseContract, ctx);
    assert(path_from(Check::PromptPin, ctx) == seq![Check::PromptPin] + rest);
    assert(path_from(Check::ReadPrompt, ctx) == seq![Check::ReadPrompt] + path_from(
        Check::PromptPin,
        ctx,
    ));
    assert(path_from(Check::LoadGoldens, ctx) == seq![Check::LoadGoldens] + path_from(
        Check::GoldenDigests,
        ctx,
    ));
    assert(path_from(Check::ReferencePin, ctx) == seq![Check::ReferencePin] + path_from(
        Check::LoadGoldens,
        ctx,
    ));
    assert(path_from(Check::ReadContract, ctx) == seq![Check::ReadContract] + path_from(
        Check::ReferencePin,
        ctx,
    ));
    assert(path_from(Check::ReadContract, ctx) =~= seq![
        Check::ReadContract,
        Check::ReferencePin,
        Check::LoadGoldens,
        Check::GoldenDigests,
    ] + (only_if(ctx.prompt_pinned, seq![Check::ReadPrompt, Check::PromptPin]) + rest));
}

/// Every check of a run leads to another one, unless a rule is broken there: what ends a run before
/// it is measured is a golden given twice, a mode that is not admitted, an attestation that does not
/// cite its pin, a track that is not scored, a calibration or a head that is missing, or that it was
/// only to be checked. The missing calibration is a class of its own, the rest are prerequisites.
pub proof fn a_run_ends_early_only_for_a_reason(check: Check, ctx: MeasureContext)
    ensures
        following(check, ctx) is Stop <==> check is PromptWindows && ctx.preflight_only,
        following(check, ctx) is Judge <==> check is Measure,
        following(check, ctx) is Fail <==> {
            ||| check is GoldenDigests && !ctx.goldens_distinct
            ||| check is AllowedModes && !ctx.mode_admitted
            ||| check is Attestation && !ctx.attested
            ||| check is ScoringEnabled && !ctx.scoring_enabled
            ||| check is ScoringEnabled && ctx.band_enforce && !ctx.calibration_bootstrap
                && !ctx.calibrated
            ||| check is ScoringEnabled && !ctx.heads
            ||| check is DflashHead && !ctx.dflash_head
        },
        following(check, ctx) matches StepView::Fail { exit, .. } ==> exit == (if check
            is ScoringEnabled && ctx.scoring_enabled && ctx.band_enforce
            && !ctx.calibration_bootstrap && !ctx.calibrated {
            6u8
        } else {
            8u8
        }),
        following(check, ctx) matches StepView::Stop { verdict } ==> verdict is PreflightOk,
{
}

/// What a measured run comes to: its candidate decides, but for an accepted one whose serial mean
/// left the band of its calibration. Only a run that authors its calibration, or that does not ask
/// for one, goes without.
pub proof fn the_candidate_decides_unless_the_baseline_drifted(
    bootstrap: bool,
    calibrated: bool,
    band_enforce: bool,
    candidate_accepted: bool,
    in_band: bool,
)
    ensures
        ({
            let v = judged(bootstrap, calibrated, band_enforce, candidate_accepted, in_band);
            &&& v is None <==> !bootstrap && !calibrated && band_enforce
            &&& v == Some(MeasureJobVerdict::CalibrationDrift) <==> !bootstrap && calibrated
                && candidate_accepted && !in_band
            &&& v == Some(MeasureJobVerdict::RejectedDie5) <==> !candidate_accepted && v is Some
            &&& v == Some(MeasureJobVerdict::Accepted) ==> candidate_accepted
            &&& v != Some(MeasureJobVerdict::PreflightOk)
        }),
        verdict_status(MeasureJobVerdict::Accepted) == 0,
        verdict_status(MeasureJobVerdict::PreflightOk) == 0,
        verdict_status(MeasureJobVerdict::RejectedDie5) == 5,
        verdict_status(MeasureJobVerdict::CalibrationDrift) == 6,
{
}

/// A run is held to exactly what its calibration file gives: its series, its track, its mean and
/// its bound, each under its own name. A run that authors a calibration reads none, and a setting
/// that says nothing names none.
pub proof fn a_calibration_is_what_its_file_gives(
    bootstrap: bool,
    setting: Option<&str>,
    path: Seq<char>,
    timed_mode: String,
    track_id: String,
    band: Result<(Number, Number), String>,
    run_timed_mode: Seq<char>,
    run_track_id: Seq<char>,
    r: Result<Option<ResolvedCalibration>, MeasureJobFailure>,
)
    ensures
        calibration_path(bootstrap, setting) is Some <==> !bootstrap && (setting matches Some(s)
            && trimmed(s@).len() > 0),
        calibration_path(bootstrap, setting) matches Some(p) ==> p == trimmed(setting->0@),
        calibration_refusal(
            path,
            CalibrationOutcome::Parsed { timed_mode, track_id, band },
            run_timed_mode,
            run_track_id,
        ) is None <==> timed_mode@ == run_timed_mode && track_id@ == run_track_id && band is Ok,
        gives_calibration(r, CalibrationOutcome::Parsed { timed_mode, track_id, band }) ==> {
            &&& r matches Ok(Some(c))
            &&& r->Ok_0->0.timed_mode@ == timed_mode@
            &&& r->Ok_0->0.track_id@ == track_id@
            &&& band is Ok
            &&& r->Ok_0->0.serial_mean == band->Ok_0.0
            &&& r->Ok_0->0.band_high == band->Ok_0.1
        },
{
}

proof fn lemma_heads_from(dirs: Seq<HeadDir>, i: int)
    requires
        0 <= i <= dirs.len(),
    ensures
        missing_head(dirs, i) is None <==> forall|k: int| i <= k < dirs.len()
            ==> (#[trigger] dirs[k]).is_dir,
    decreases dirs.len() - i,
{
    if i < dirs.len() {
        lemma_heads_from(dirs, i + 1);
        assert(dirs[i] == dirs[i]);
    }
}

/// Head directories are accepted exactly when each of them is a directory.
pub proof fn heads_are_accepted_when_all_are_there(dirs: Seq<HeadDir>)
    ensures
        missing_head(dirs, 0) is None <==> forall|k: int| 0 <= k < dirs.len()
            ==> (#[trigger] dirs[k]).is_dir,
{
    lemma_heads_from(dirs, 0);
}

/// The goldens of a kind are counted one by one: as many as there are among them.
pub proof fn goldens_of_a_kind_are_counted(kinds: Seq<String>, kind: Seq<char>, n: int)
    requires
        0 <= n <= kinds.len(),
    ensures
        count_of_kind(kinds, kind, n) == kinds.take(n).filter(|k: String| k@ == kind).len(),
        count_of_kind(kinds, kind, n) <= n,
    decreases n,
{
    let test = |k: String| k@ == kind;
    reveal(Seq::filter);
    if n > 0 {
        goldens_of_a_kind_are_counted(kinds, kind, n - 1);
        assert(kinds.take(n).drop_last() =~= kinds.take(n - 1));
        assert(kinds.take(n).last() == kinds[n - 1]);
    }
}

proof fn lemma_readable_from(raw: Seq<char>, from: int)
    requires
        0 <= from <= raw.len(),
    ensures
        unreadable_from(raw, from) is None <==> forall|i: int|
            from <= i < raw.len() ==> !is_white(#[trigger] raw[i]) && !is_control(raw[i]),
    decreases raw.len() - from,
{
    if from < raw.len() {
        lemma_readable_from(raw, from + 1);
        assert(raw[from] == raw[from]);
    }
}

/// A gates producer is accepted exactly when it says something without white space and control
/// characters.
pub proof fn a_producer_is_accepted_when_it_reads_back(raw: Seq<char>)
    ensures
        producer_refusal(raw) is None <==> raw.len() > 0 && forall|i: int|
            0 <= i < raw.len() ==> !is_white(#[trigger] raw[i]) && !is_control(raw[i]),
{
    lemma_readable_from(raw, 0);
}

/// A word that is followed by a text.
pub open spec fn asks_for_text(flag: Seq<char>) -> bool {
    flag == "--candidate"@ || flag == "--baseline"@ || flag == "--weights"@ || flag == "--golden"@
        || flag == "--contract"@ || flag == "--correctness-golden"@ || flag
        == "--candidate-spec"@ || flag == "--baseline-spec"@ || flag == "--tag"@ || flag
        == "--out"@ || flag == "--prompt"@ || flag == "--prompt-sha256"@ || flag
        == "--target-id"@
}

/// A word that is followed by a count.
pub open spec fn asks_for_count(flag: Seq<char>) -> bool {
    flag == "--tokens"@ || flag == "--mtp-depth"@ || flag == "--min-pairs"@ || flag
        == "--min-pairs-per-prompt"@ || flag == "--target-pairs"@ || flag
        == "--pairs-per-prompt"@
}

/// A flag with its value at the end of a command line that is read is read exactly when the value
/// is of its kind: any text, a count, a producer that reads back, or one of the four probes. It
/// sets its own field, the goldens collect theirs, and every other field is left.
pub proof fn a_flag_sets_its_own_value(line: Seq<Seq<char>>, flag: Seq<char>, v: Seq<char>)
    requires
        measure_scan(line, 0, no_measure_flags()) matches Ok(Some(_)),
        asks_for_text(flag) || asks_for_count(flag) || flag == "--gates-producer"@ || flag
            == "--exactness-probe"@,
    ensures
        ({
            let f = measure_scan(line, 0, no_measure_flags())->Ok_0->0;
            let r = measure_scan(line + seq![flag, v], 0, no_measure_flags());
            let n = numeral_read(v, usize::MAX as nat);
            &&& (r matches Ok(Some(_))) <==> {
                &&& asks_for_count(flag) ==> n is Ok
                &&& flag == "--gates-producer"@ ==> v.len() > 0 && forall|i: int|
                    0 <= i < v.len() ==> !is_white(#[trigger] v[i]) && !is_control(v[i])
                &&& flag == "--exactness-probe"@ ==> v == "none"@ || v == "once"@ || v
                    == "per-prompt"@ || v == "per-pair"@
            }
            &&& !(r matches Ok(Some(_))) ==> r is Err
            &&& r matches Ok(Some(g)) ==> {
                &&& g.candidate == if flag == "--candidate"@ { Some(v) } else { f.candidate }
                &&& g.baseline == if flag == "--baseline"@ { Some(v) } else { f.baseline }
                &&& g.weights == if flag == "--weights"@ { Some(v) } else { f.weights }
                &&& g.contract == if flag == "--contract"@ { Some(v) } else { f.contract }
                &&& g.correctness_golden == if flag == "--correctness-golden"@ { Some(v) } else { f.correctness_golden }
                &&& g.candidate_spec == if flag == "--candidate-spec"@ { Some(v) } else { f.candidate_spec }
                &&& g.baseline_spec == if flag == "--baseline-spec"@ { Some(v) } else { f.baseline_spec }
                &&& g.tag == if flag == "--tag"@ { Some(v) } else { f.tag }
                &&& g.out == if flag == "--out"@ { Some(v) } else { f.out }
                &&& g.prompt == if flag == "--prompt"@ { Some(v) } else { f.prompt }
                &&& g.prompt_sha256 == if flag == "--prompt-sha256"@ { Some(v) } else { f.prompt_sha256 }
                &&& g.target_id == if flag == "--target-id"@ { Some(v) } else { f.target_id }
                &&& g.gates_producer == if flag == "--gates-producer"@ { Some(v) } else { f.gates_producer }
                &&& g.goldens == if flag == "--golden"@ { f.goldens.push(v) } else { f.goldens }
                &&& flag == "--tokens"@ ==> (g.tokens matches Some(c) && Ok::<nat, NumeralFault>(c as nat) == n)
                &&& flag != "--tokens"@ ==> g.tokens == f.tokens
                &&& flag == "--mtp-depth"@ ==> (g.mtp_depth matches Some(c) && Ok::<nat, NumeralFault>(c as nat) == n)
                &&& flag != "--mtp-depth"@ ==> g.mtp_depth == f.mtp_depth
                &&& flag == "--min-pairs"@ || flag == "--min-pairs-per-prompt"@ ==> (g.min_pairs matches Some(c) && Ok::<nat, NumeralFault>(c as nat) == n)
                &&& flag != "--min-pairs"@ && flag != "--min-pairs-per-prompt"@ ==> g.min_pairs == f.min_pairs
                &&& flag == "--target-pairs"@ || flag == "--pairs-per-prompt"@ ==> (g.target_pairs matches Some(c) && Ok::<nat, NumeralFault>(c as nat) == n)
                &&& flag != "--target-pairs"@ && flag != "--pairs-per-prompt"@ ==> g.target_pairs == f.target_pairs
                &&& flag != "--exactness-probe"@ ==> g.exactness_probe == f.exactness_probe
                &&& flag == "--exactness-probe"@ ==> {
                    &&& v == "none"@ ==> g.exactness_probe == Some(ExactnessProbe::Never)
                    &&& v == "once"@ ==> g.exactness_probe == Some(ExactnessProbe::Once)
                    &&& v == "per-prompt"@ ==> g.exactness_probe == Some(ExactnessProbe::PerPrompt)
                    &&& v == "per-pair"@ ==> g.exactness_probe == Some(ExactnessProbe::PerPair)
                }
                &&& g.preflight_only == f.preflight_only
                &&& g.calibration_bootstrap == f.calibration_bootstrap
                &&& g.local_dev == f.local_dev
            }
        }),
{
    lemma_flag_names();
    lemma_probe_names();
    a_producer_is_accepted_when_it_reads_back(v);
    a_numeral_is_within_its_bound(v, usize::MAX as nat);
    lemma_last_flag(line, flag, v);
}

/// Nothing is given on an empty command line.
pub proof fn an_empty_line_gives_nothing()
    ensures
        measure_scan(Seq::empty(), 0, no_measure_flags()) matches Ok(Some(f)) && {
            &&& f.candidate is None
            &&& f.baseline is None
            &&& f.weights is None
            &&& f.contract is None
            &&& f.correctness_golden is None
            &&& f.candidate_spec is None
            &&& f.baseline_spec is None
            &&& f.tag is None
            &&& f.out is None
            &&& f.prompt is None
            &&& f.prompt_sha256 is None
            &&& f.target_id is None
            &&& f.gates_producer is None
            &&& f.tokens is None
            &&& f.mtp_depth is None
            &&& f.min_pairs is None
            &&& f.target_pairs is None
            &&& f.goldens.len() == 0
            &&& f.exactness_probe is None
            &&& !f.preflight_only && !f.calibration_bootstrap && !f.local_dev
        },
{
}

/// A run that is accepted is made of its flags, each under its own name; the weights of the setting
/// stand in for a missing flag.
pub proof fn a_run_is_made_of_its_flags(
    line: Seq<Seq<char>>,
    settings: MeasureSettings,
    candidate_parsed: Result<SpecView, Seq<char>>,
    baseline_parsed: Result<SpecView, Seq<char>>,
    run: MeasureJobArgs,
)
    requires
        measure_request(line, settings, candidate_parsed, baseline_parsed) == Ok::<_, Seq<char>>(
            Some(run@),
        ),
    ensures
        measure_scan(line, 0, no_measure_flags()) matches Ok(Some(f)) && {
            &&& f.candidate == Some(run.candidate@)
            &&& f.baseline == Some(run.baseline@)
            &&& f.weights is Some ==> f.weights == Some(run.weights@)
            &&& f.contract == Some(run.contract@)
            &&& f.tag == Some(run.tag@)
            &&& f.out == Some(run.out@)
            &&& f.goldens.len() == run.goldens@.len()
            &&& forall|i: int| 0 <= i < f.goldens.len() ==> f.goldens[i] == (#[trigger] run.goldens@[i])@
            &&& f.correctness_golden is Some <==> run.correctness_golden is Some
            &&& run.correctness_golden matches Some(t) ==> f.correctness_golden == Some(t@)
            &&& f.prompt is Some <==> run.prompt is Some
            &&& run.prompt matches Some(t) ==> f.prompt == Some(t@)
            &&& f.prompt_sha256 is Some <==> run.prompt_sha256 is Some
            &&& run.prompt_sha256 matches Some(t) ==> f.prompt_sha256 == Some(t@)
            &&& f.target_id is Some <==> run.target_id is Some
            &&& run.target_id matches Some(t) ==> f.target_id == Some(t@)
            &&& f.gates_producer is Some ==> f.gates_producer == Some(run.gates_producer@)
            &&& f.exactness_probe is Some ==> f.exactness_probe == Some(run.exactness_probe)
            &&& f.tokens is Some ==> f.tokens == Some(run.tokens)
            &&& f.min_pairs == Some(run.min_pairs)
            &&& f.target_pairs == Some(run.target_pairs)
            &&& f.preflight_only == run.preflight_only
            &&& f.calibration_bootstrap == run.calibration_bootstrap
            &&& f.local_dev == run.local_dev
        },
{
    let f = measure_scan(line, 0, no_measure_flags())->Ok_0->0;
    assert(run@.goldens.len() == run.goldens@.len());
    assert(forall|i: int|
        0 <= i < f.goldens.len() ==> run@.goldens[i] == (#[trigger] run.goldens@[i])@);
}

/// What is missing is named: the refusal of a command line is the first of these that holds.
pub proof fn what_is_missing_is_named(f: MeasureFlagsView, settings: MeasureSettings)
    ensures
        ({
            let r = presence_refusal(f, settings);
            let f0 = !is_blank(settings.prefill_baseline);
            let f1 = !is_blank(settings.decode_baseline);
            let f2 = f.candidate is None;
            let f3 = f.baseline is None;
            let f4 = f.weights is None && is_blank(settings.target_dir);
            let f5 = f.goldens.len() == 0;
            let f6 = f.contract is None;
            let f7 = f.candidate_spec is Some && f.mtp_depth is Some;
            let f8 = f.min_pairs is None;
            let f9 = f.target_pairs is None;
            let f10 = f.tag is None;
            let f11 = f.out is None;
            &&& f0 ==> r == Some(baseline_env_set("MLXFAST_PAIRED_BASELINE_PREFILL_SECONDS_PER_TOKEN"@))
            &&& !f0 && f1 ==> r == Some(baseline_env_set("MLXFAST_PAIRED_BASELINE_DECODE_SECONDS_PER_TOKEN"@))
            &&& !f0 && !f1 && f2 ==> r == Some(missing_required("--candidate"@))
            &&& !f0 && !f1 && !f2 && f3 ==> r == Some(missing_required("--baseline"@))
            &&& !f0 && !f1 && !f2 && !f3 && f4 ==> r == Some(no_weights())
            &&& !f0 && !f1 && !f2 && !f3 && !f4 && f5 ==> r == Some(missing_required("--golden (repeatable)"@))
            &&& !f0 && !f1 && !f2 && !f3 && !f4 && !f5 && f6 ==> r == Some(missing_required("--contract"@))
            &&& !f0 && !f1 && !f2 && !f3 && !f4 && !f5 && !f6 && f7 ==> r == Some(spec_and_depth())
            &&& !f0 && !f1 && !f2 && !f3 && !f4 && !f5 && !f6 && !f7 && f8 ==> r == Some(missing_required("--min-pairs"@))
            &&& !f0 && !f1 && !f2 && !f3 && !f4 && !f5 && !f6 && !f7 && !f8 && f9 ==> r == Some(missing_required("--target-pairs"@))
            &&& !f0 && !f1 && !f2 && !f3 && !f4 && !f5 && !f6 && !f7 && !f8 && !f9 && f10 ==> r == Some(missing_required("--tag"@))
            &&& !f0 && !f1 && !f2 && !f3 && !f4 && !f5 && !f6 && !f7 && !f8 && !f9 && !f10 && f11 ==> r == Some(missing_required("--out"@))
            &&& r is None <==> !f0 && !f1 && !f2 && !f3 && !f4 && !f5 && !f6 && !f7 && !f8 && !f9 && !f10 && !f11
        }),
{
}

/// The pair budgets and the prompt are refused for the first of these: no pair at all, a target below
/// the minimum, a prompt that is given in part, a malformed digest, a malformed target.
pub proof fn budgets_are_refused_for_the_first_fault(f: MeasureFlagsView)
    ensures
        ({
            let r = budget_refusal(f);
            let f0 = f.min_pairs->0 == 0;
            let f1 = f.target_pairs->0 < f.min_pairs->0;
            let f2 = (f.prompt is Some) != (f.prompt_sha256 is Some) || (f.prompt is Some) != (f.target_id is Some);
            let f3 = f.prompt_sha256 is Some && !is_sha256_hex(f.prompt_sha256->0);
            let f4 = f.target_id is Some && !is_target_id(f.target_id->0);
            &&& f0 ==> r == Some(zero_min_pairs())
            &&& !f0 && f1 ==> r == Some(target_below_min(f.target_pairs->0 as nat, f.min_pairs->0 as nat))
            &&& !f0 && !f1 && f2 ==> r == Some(prompt_trio_half_set())
            &&& !f0 && !f1 && !f2 && f3 ==> r == Some(sha_malformed(f.prompt_sha256->0))
            &&& !f0 && !f1 && !f2 && !f3 && f4 ==> r == Some(target_malformed(f.target_id->0))
            &&& r is None <==> !f0 && !f1 && !f2 && !f3 && !f4
        }),
{
}

/// The specs are refused for the first of these: a baseline that is not serial, a candidate that is
/// incoherent, a baseline that is, a candidate beyond the cap, a baseline beyond it.
pub proof fn specs_are_refused_for_the_first_fault(candidate: SpecView, baseline: SpecView, cap: nat)
    ensures
        ({
            let r = specs_refusal(candidate, baseline, cap);
            let f0 = baseline.mode != "serial"@;
            let f1 = module_refusal(candidate) is Some;
            let f2 = module_refusal(baseline) is Some;
            let f3 = candidate.mtp_depth is Some && candidate.mtp_depth->0 > cap;
            let f4 = baseline.mtp_depth is Some && baseline.mtp_depth->0 > cap;
            &&& f0 ==> r == Some(baseline_not_serial(baseline.mode))
            &&& !f0 && f1 ==> r == Some(module_refusal(candidate)->0)
            &&& !f0 && !f1 && f2 ==> r == Some(module_refusal(baseline)->0)
            &&& !f0 && !f1 && !f2 && f3 ==> r == Some(depth_over_cap(candidate.mtp_depth->0 as nat, cap))
            &&& !f0 && !f1 && !f2 && !f3 && f4 ==> r == Some(depth_over_cap(baseline.mtp_depth->0 as nat, cap))
            &&& r is None <==> !f0 && !f1 && !f2 && !f3 && !f4
        }),
{
}

/// A window is the one that is asked for where the series admits it: any but zero under teacher
/// forcing, and only its own on the free-run series. Where none is asked for it is that of the
/// series.
pub proof fn a_window_is_of_its_series(tokens: Option<usize>)
    ensures
        tokens == Some(0usize) ==> window_of(LegRegime::FreeRunV1_1, tokens) == Err::<usize, Seq<char>>(
            zero_tokens(),
        ) && window_of(LegRegime::TeacherForcedV1, tokens) == Err::<usize, Seq<char>>(
            zero_tokens(),
        ),
        tokens is None ==> window_of(LegRegime::FreeRunV1_1, tokens) == Ok::<usize, Seq<char>>(
            128usize,
        ) && window_of(LegRegime::TeacherForcedV1, tokens) == Ok::<usize, Seq<char>>(512usize),
        tokens matches Some(t) ==> t > 0 ==> {
            &&& window_of(LegRegime::TeacherForcedV1, tokens) == Ok::<usize, Seq<char>>(t)
            &&& t == 128 ==> window_of(LegRegime::FreeRunV1_1, tokens) == Ok::<usize, Seq<char>>(t)
            &&& t != 128 ==> window_of(LegRegime::FreeRunV1_1, tokens) == Err::<usize, Seq<char>>(
                free_run_window(t as nat, 128),
            )
        },
{
}

/// A command line that is read is refused for what is missing first, then for a candidate spec or a
/// baseline spec that cannot be told, then for the specs, then for the window, and for its budgets
/// last.
pub proof fn flags_are_refused_by_the_first_objection(
    f: MeasureFlagsView,
    settings: MeasureSettings,
    candidate_parsed: Result<SpecView, Seq<char>>,
    baseline_parsed: Result<SpecView, Seq<char>>,
)
    ensures
        ({
            let r = measure_resolve(f, settings, candidate_parsed, baseline_parsed);
            let missing = presence_refusal(f, settings);
            let candidate = if f.candidate_spec is Some {
                candidate_parsed
            } else if f.mtp_depth is Some && f.mtp_depth->0 > 0xffff_ffff {
                Err(depth_too_large(f.mtp_depth->0 as nat, 32))
            } else {
                Ok(
                    SpecView {
                        mode: "mtp"@,
                        mtp_depth: match f.mtp_depth {
                            Some(d) => Some(d as u32),
                            None => Some(2u32),
                        },
                        dflash: false,
                    },
                )
            };
            let baseline = if f.baseline_spec is Some {
                baseline_parsed
            } else {
                Ok(SpecView { mode: "serial"@, mtp_depth: None, dflash: false })
            };
            let specs = specs_refusal(
                candidate->Ok_0,
                baseline->Ok_0,
                cap_in_force(f.local_dev, settings.max_draft_depth),
            );
            let window = window_of(
                if candidate->Ok_0.mode == "serial"@ {
                    LegRegime::TeacherForcedV1
                } else {
                    LegRegime::FreeRunV1_1
                },
                f.tokens,
            );
            let told = missing is None && candidate is Ok && baseline is Ok;
            &&& missing matches Some(m) ==> r == Err::<MeasureArgsView, Seq<char>>(m)
            &&& missing is None && candidate is Err ==> r == Err::<MeasureArgsView, Seq<char>>(
                candidate->Err_0,
            )
            &&& missing is None && candidate is Ok && baseline is Err ==> r == Err::<
                MeasureArgsView,
                Seq<char>,
            >(baseline->Err_0)
            &&& told && specs is Some ==> r == Err::<MeasureArgsView, Seq<char>>(specs->0)
            &&& told && specs is None && window is Err ==> r == Err::<MeasureArgsView, Seq<char>>(
                window->Err_0,
            )
            &&& told && specs is None && window is Ok && budget_refusal(f) is Some ==> r == Err::<
                MeasureArgsView,
                Seq<char>,
            >(budget_refusal(f)->0)
            &&& told && specs is None && window is Ok && budget_refusal(f) is None ==> r is Ok
        }),
{
}

/// What a command line is refused for at its next word: a flag without a value, the renamed depth,
/// a flag of a baseline that was an engine or a time, or a word that is no flag.
pub proof fn a_bad_word_is_named(
    line: Seq<Seq<char>>,
    word: Seq<char>,
    settings: MeasureSettings,
    candidate_parsed: Result<SpecView, Seq<char>>,
    baseline_parsed: Result<SpecView, Seq<char>>,
)
    requires
        measure_scan(line, 0, no_measure_flags()) matches Ok(Some(_)),
    ensures
        ({
            let r = measure_request(
                line + seq![word],
                settings,
                candidate_parsed,
                baseline_parsed,
            );
            let valued = asks_for_text(word) || asks_for_count(word) || word
                == "--gates-producer"@ || word == "--exactness-probe"@;
            let retired = word == "--baseline-prefill-spt"@ || word == "--baseline-decode-spt"@
                || word == "--baseline-engine"@ || word == "--engine"@;
            let switch = word == "--preflight-only"@ || word == "--calibration-bootstrap"@ || word
                == "--local-dev"@ || word == "-h"@ || word == "--help"@;
            &&& valued ==> r == Err::<Option<MeasureArgsView>, Seq<char>>(flag_needs_value(word))
            &&& word == "--depth"@ ==> r == Err::<Option<MeasureArgsView>, Seq<char>>(
                depth_renamed(),
            )
            &&& retired ==> r == Err::<Option<MeasureArgsView>, Seq<char>>(
                not_a_measure_flag(word),
            )
            &&& !valued && !retired && !switch && word != "--depth"@ ==> r == Err::<
                Option<MeasureArgsView>,
                Seq<char>,
            >(unknown_flag(word))
        }),
{
    lemma_flag_names();
    let more = seq![word];
    lemma_scan_goes_on(line, more, 0, no_measure_flags());
    assert((line + more)[line.len() as int] == word);
}

/// A step is seen as it is.
pub proof fn a_step_is_seen_as_it_is(step: MeasureStep)
    ensures
        step matches MeasureStep::Do { check } ==> step@ == (StepView::Do { check }),
        step matches MeasureStep::Stop { verdict } ==> step@ == (StepView::Stop { verdict }),
        step matches MeasureStep::Fail { failure } ==> step@ == (StepView::Fail {
            exit: failure.exit,
            message: failure.message@,
        }),
        step is Judge <==> step@ is Judge,
{
}

/// A rule that is broken between two checks is named; a track that is not scored comes before a
/// missing calibration, and that before missing heads.
pub proof fn a_broken_rule_is_named(ctx: MeasureContext)
    ensures
        ({
            let uncalibrated = ctx.band_enforce && !ctx.calibration_bootstrap && !ctx.calibrated;
            &&& !ctx.goldens_distinct ==> (following(
                Check::GoldenDigests,
                ctx,
            ) matches StepView::Fail { message, .. } && message == goldens_repeat())
            &&& !ctx.mode_admitted ==> (following(
                Check::AllowedModes,
                ctx,
            ) matches StepView::Fail { message, .. } && message == mode_not_admitted())
            &&& !ctx.attested ==> (following(Check::Attestation, ctx) matches StepView::Fail {
                message,
                ..
            } && message == attestation_differs())
            &&& !ctx.scoring_enabled ==> (following(
                Check::ScoringEnabled,
                ctx,
            ) matches StepView::Fail { message, .. } && message == scoring_disabled())
            &&& ctx.scoring_enabled && uncalibrated ==> (following(
                Check::ScoringEnabled,
                ctx,
            ) matches StepView::Fail { message, .. } && message == calibration_missing_before())
            &&& ctx.scoring_enabled && !uncalibrated && !ctx.heads ==> (following(
                Check::ScoringEnabled,
                ctx,
            ) matches StepView::Fail { message, .. } && message == head_dir_unset())
            &&& !ctx.dflash_head ==> (following(Check::DflashHead, ctx) matches StepView::Fail {
                message,
                ..
            } && message == dflash_head_unset())
        }),
{
}

/// Which words each failed check is told in: a check that fails in words of its own is told by its
/// cause alone.
pub proof fn a_failed_check_is_told_in_its_words(check: Check, path: Seq<char>, cause: Seq<char>)
    ensures
        ({
            let text = text_of_failure(check, path, cause);
            &&& check is ReadContract ==> text == read_failed("--contract"@, path, cause)
            &&& check is ReferencePin ==> text == reference_pin_failed(cause)
            &&& check is ReadPrompt ==> text == read_failed("--prompt"@, path, cause)
            &&& check is CorrectnessPin ==> text == correctness_pin_failed(cause)
            &&& check is ReadCorrectnessGolden ==> text == read_failed(
                "--correctness-golden"@,
                path,
                cause,
            )
            &&& check is ReadManifest ==> text == manifest_unreadable(path, cause)
            &&& check is ByteBudget ==> text == budget_exceeded(cause)
            &&& check is Growth ==> text == growth_exceeded(cause)
            &&& check is WeightsDigest ==> text == weights_digest_failed(path, cause)
            &&& check is CandidateDigest ==> text == candidate_digest_failed(path, cause)
            &&& check is BaselineDigest ==> text == baseline_digest_failed(path, cause)
            &&& check is ReadCalibration ==> text == calibration_unreadable(path, cause)
            &&& !(check is ReadContract || check is ReferencePin || check is ReadPrompt || check
                is CorrectnessPin || check is ReadCorrectnessGolden || check is ReadManifest
                || check is ByteBudget || check is Growth || check is WeightsDigest || check
                is CandidateDigest || check is BaselineDigest || check is ReadCalibration)
                ==> text == cause
        }),
{
}

/// A calibration that is refused is told by the first of these: it cannot be read, it cannot be
/// parsed, it is of another series, of another track, or without a band.
pub proof fn a_refused_calibration_is_told_by_the_first_fault(
    path: Seq<char>,
    outcome: CalibrationOutcome,
    run_timed_mode: Seq<char>,
    run_track_id: Seq<char>,
)
    ensures
        ({
            let r = calibration_refusal(path, outcome, run_timed_mode, run_track_id);
            &&& outcome matches CalibrationOutcome::Unreadable { cause } ==> r == Some(
                calibration_unreadable(path, cause@),
            )
            &&& outcome matches CalibrationOutcome::Unparsable { cause } ==> r == Some(cause@)
            &&& outcome matches CalibrationOutcome::Parsed { timed_mode, track_id, band } ==> {
                &&& timed_mode@ != run_timed_mode ==> r == Some(
                    calibration_other_series(timed_mode@, run_timed_mode),
                )
                &&& timed_mode@ == run_timed_mode && track_id@ != run_track_id ==> r == Some(
                    calibration_other_track(track_id@, run_track_id),
                )
                &&& timed_mode@ == run_timed_mode && track_id@ == run_track_id ==> (
                band matches Err(cause) ==> r == Some(cause@))
            }
        }),
{
}

/// The head directories are looked at in their order: the first that is none is named, with the
/// setting that names it.
pub proof fn the_first_missing_head_is_named(dirs: Seq<HeadDir>, from: int, k: int)
    requires
        0 <= from <= k < dirs.len(),
        !dirs[k].is_dir,
        forall|j: int| from <= j < k ==> (#[trigger] dirs[j]).is_dir,
    ensures
        missing_head(dirs, from) == Some(head_dir_missing(dirs[k].label@, dirs[k].dir@)),
    decreases k - from,
{
    if from < k {
        assert(dirs[from].is_dir);
        the_first_missing_head_is_named(dirs, from + 1, k);
    }
}

/// A timed prompt that was not accepted is told by its own fault, with its path.
pub proof fn a_rejected_prompt_is_told_by_its_fault(path: Seq<char>, rejection: PromptRejection)
    ensures
        ({
            let text = prompt_rejection_text(path, rejection);
            &&& rejection matches PromptRejection::Unreadable { cause } ==> text
                == golden_unreadable(path, cause@)
            &&& rejection matches PromptRejection::TapeRejected { cause } ==> text
                == tape_unloadable(path, cause@)
            &&& rejection matches PromptRejection::DocumentRejected { cause } ==> text
                == golden_unloadable_at(golden_unloadable(cause@), path)
            &&& rejection matches PromptRejection::Unrecognized {
                tape,
                tape_keys,
                golden,
                golden_keys,
            } ==> text == golden_unrecognized(path, tape@, tape_keys@, golden@, golden_keys@)
        }),
{
}

/// A producer that is refused is told by its fault: that it is empty, or the first character of it
/// that could not be read back.
pub proof fn a_refused_producer_is_told_by_its_fault(raw: Seq<char>, from: int, k: int)
    requires
        0 <= from <= k < raw.len(),
        is_white(raw[k]) || is_control(raw[k]),
        forall|j: int| from <= j < k ==> !is_white(#[trigger] raw[j]) && !is_control(raw[j]),
    ensures
        unreadable_from(raw, from) == Some(producer_unreadable(raw, raw[k])),
        from == 0 ==> producer_refusal(raw) == Some(producer_unreadable(raw, raw[k])),
        producer_refusal(Seq::empty()) == Some(producer_empty()),
    decreases k - from,
{
    if from < k {
        assert(!is_white(raw[from]) && !is_control(raw[from]));
        a_refused_producer_is_told_by_its_fault(raw, from + 1, k);
    }
}

} // verus!
