//! The command line of `measure-job`.
use crate::args::{asks_help, is_help, opt_text, words};
use crate::official::{DECODE_KEY, PREFILL_KEY};
use crate::overlay::gates::{is_sha256_hex, is_well_formed_harness_hash};
use crate::overlay::view::answers;
use crate::spec_config::{
    an_accepted_baseline_is_serial, baseline_spec_refusal, candidate_regime_for_spec, cap_refusal, depth_cap, module_refusal,
    mtp_spec, probe_named, regime_of, resolve_max_draft_depth_cap, serial_spec,
    validate_baseline_is_serial, validate_spec_capped, validate_spec_module_coherent,
    ExactnessProbe, LegRegime, SpecConfig, SpecView, DEFAULT_MAX_DRAFT_DEPTH_CAP,
};
use crate::text::{
    chars_of, control, is_control, is_digit, is_white, numeral_read, read_count, same_text, trim,
    trimmed, white,
};
use crate::usage_texts::{
    baseline_env_set, depth_renamed, depth_too_large, flag_needs_value, free_run_window,
    invalid_count, missing_required, no_weights, not_a_measure_flag, probe_unknown,
    producer_empty, producer_unreadable, prompt_trio_half_set, say_baseline_env_set,
    say_depth_renamed, say_depth_too_large, say_flag_needs_value, say_free_run_window,
    say_invalid_count, say_missing_required, say_no_weights, say_not_a_measure_flag,
    say_producer_empty, say_producer_unreadable, say_prompt_trio_half_set, say_sha_malformed,
    say_spec_and_depth, say_target_below_min, say_target_malformed, say_unknown_flag,
    say_zero_min_pairs, say_zero_tokens, sha_malformed, spec_and_depth, target_below_min,
    target_malformed, unknown_flag, zero_min_pairs, zero_tokens,
};
use vstd::prelude::*;

verus! {

/// The depth of a candidate that declares none.
pub const DEFAULT_MTP_DEPTH: usize = 2;

/// The decode window of the teacher-forced series when none is given.
pub const DEFAULT_TOKENS: usize = 512;

/// The decode window of the free-run series.
pub const FREE_RUN_DECODE_TOKENS: usize = 128;

/// The gates producer of a run whose driver declared none.
pub const GATES_PRODUCER_UNDECLARED: &'static str = "undeclared";

/// A spec that was given on the command line.
pub const SPEC_SOURCE_CLI_OVERRIDE: &'static str = "cli-override";

/// A spec that was built from a depth on the command line.
pub const SPEC_SOURCE_MTP_DEPTH_FLAG: &'static str = "mtp-depth-flag";

/// A spec that was built from the default depth.
pub const SPEC_SOURCE_MTP_DEPTH_DEFAULT: &'static str = "mtp-depth-default";

/// The serial spec of a baseline that declares none.
pub const SPEC_SOURCE_SERIAL_DEFAULT: &'static str = "serial-default";

/// The environment of a `measure-job` command line.
#[derive(Debug)]
pub struct MeasureSettings {
    pub prefill_baseline: Option<String>,
    pub decode_baseline: Option<String>,
    pub target_dir: Option<String>,
    pub max_draft_depth: Option<String>,
}

/// What a `measure-job` command line asks for.
#[derive(Debug)]
pub struct MeasureJobArgs {
    pub candidate: String,
    pub baseline: String,
    pub weights: String,
    pub goldens: Vec<String>,
    pub contract: String,
    pub correctness_golden: Option<String>,
    pub tokens: usize,
    pub candidate_regime: LegRegime,
    pub mtp_depth: usize,
    pub candidate_spec: SpecConfig,
    pub baseline_spec: SpecConfig,
    pub candidate_spec_source: String,
    pub baseline_spec_source: String,
    pub min_pairs: usize,
    pub target_pairs: usize,
    pub tag: String,
    pub out: String,
    pub prompt: Option<String>,
    pub prompt_sha256: Option<String>,
    pub target_id: Option<String>,
    pub exactness_probe: ExactnessProbe,
    pub preflight_only: bool,
    pub calibration_bootstrap: bool,
    pub local_dev: bool,
    pub gates_producer: String,
}

/// [`MeasureJobArgs`] by its texts.
#[verifier::ext_equal]
pub struct MeasureArgsView {
    pub candidate: Seq<char>,
    pub baseline: Seq<char>,
    pub weights: Seq<char>,
    pub goldens: Seq<Seq<char>>,
    pub contract: Seq<char>,
    pub correctness_golden: Option<Seq<char>>,
    pub tokens: nat,
    pub candidate_regime: LegRegime,
    pub mtp_depth: nat,
    pub candidate_spec: SpecView,
    pub baseline_spec: SpecView,
    pub candidate_spec_source: Seq<char>,
    pub baseline_spec_source: Seq<char>,
    pub min_pairs: nat,
    pub target_pairs: nat,
    pub tag: Seq<char>,
    pub out: Seq<char>,
    pub prompt: Option<Seq<char>>,
    pub prompt_sha256: Option<Seq<char>>,
    pub target_id: Option<Seq<char>>,
    pub exactness_probe: ExactnessProbe,
    pub preflight_only: bool,
    pub calibration_bootstrap: bool,
    pub local_dev: bool,
    pub gates_producer: Seq<char>,
}

impl View for MeasureJobArgs {
    type V = MeasureArgsView;

    open spec fn view(&self) -> MeasureArgsView {
        MeasureArgsView {
            candidate: self.candidate@,
            baseline: self.baseline@,
            weights: self.weights@,
            goldens: words(self.goldens@),
            contract: self.contract@,
            correctness_golden: opt_text(self.correctness_golden),
            tokens: self.tokens as nat,
            candidate_regime: self.candidate_regime,
            mtp_depth: self.mtp_depth as nat,
            candidate_spec: self.candidate_spec@,
            baseline_spec: self.baseline_spec@,
            candidate_spec_source: self.candidate_spec_source@,
            baseline_spec_source: self.baseline_spec_source@,
            min_pairs: self.min_pairs as nat,
            target_pairs: self.target_pairs as nat,
            tag: self.tag@,
            out: self.out@,
            prompt: opt_text(self.prompt),
            prompt_sha256: opt_text(self.prompt_sha256),
            target_id: opt_text(self.target_id),
            exactness_probe: self.exactness_probe,
            preflight_only: self.preflight_only,
            calibration_bootstrap: self.calibration_bootstrap,
            local_dev: self.local_dev,
            gates_producer: self.gates_producer@,
        }
    }
}

/// The flags of a `measure-job` command line.
#[derive(Debug)]
pub struct MeasureFlags {
    pub candidate: Option<String>,
    pub baseline: Option<String>,
    pub weights: Option<String>,
    pub goldens: Vec<String>,
    pub contract: Option<String>,
    pub correctness_golden: Option<String>,
    pub tokens: Option<usize>,
    pub mtp_depth: Option<usize>,
    pub candidate_spec: Option<String>,
    pub baseline_spec: Option<String>,
    pub min_pairs: Option<usize>,
    pub target_pairs: Option<usize>,
    pub tag: Option<String>,
    pub gates_producer: Option<String>,
    pub out: Option<String>,
    pub prompt: Option<String>,
    pub prompt_sha256: Option<String>,
    pub target_id: Option<String>,
    pub exactness_probe: Option<ExactnessProbe>,
    pub preflight_only: bool,
    pub calibration_bootstrap: bool,
    pub local_dev: bool,
}

/// [`MeasureFlags`] by its texts: each holds the last value it was given, and the goldens are all
/// there in their order.
#[verifier::ext_equal]
pub struct MeasureFlagsView {
    pub candidate: Option<Seq<char>>,
    pub baseline: Option<Seq<char>>,
    pub weights: Option<Seq<char>>,
    pub goldens: Seq<Seq<char>>,
    pub contract: Option<Seq<char>>,
    pub correctness_golden: Option<Seq<char>>,
    pub tokens: Option<usize>,
    pub mtp_depth: Option<usize>,
    pub candidate_spec: Option<Seq<char>>,
    pub baseline_spec: Option<Seq<char>>,
    pub min_pairs: Option<usize>,
    pub target_pairs: Option<usize>,
    pub tag: Option<Seq<char>>,
    pub gates_producer: Option<Seq<char>>,
    pub out: Option<Seq<char>>,
    pub prompt: Option<Seq<char>>,
    pub prompt_sha256: Option<Seq<char>>,
    pub target_id: Option<Seq<char>>,
    pub exactness_probe: Option<ExactnessProbe>,
    pub preflight_only: bool,
    pub calibration_bootstrap: bool,
    pub local_dev: bool,
}

impl View for MeasureFlags {
    type V = MeasureFlagsView;

    open spec fn view(&self) -> MeasureFlagsView {
        MeasureFlagsView {
            candidate: opt_text(self.candidate),
            baseline: opt_text(self.baseline),
            weights: opt_text(self.weights),
            goldens: words(self.goldens@),
            contract: opt_text(self.contract),
            correctness_golden: opt_text(self.correctness_golden),
            tokens: self.tokens,
            mtp_depth: self.mtp_depth,
            candidate_spec: opt_text(self.candidate_spec),
            baseline_spec: opt_text(self.baseline_spec),
            min_pairs: self.min_pairs,
            target_pairs: self.target_pairs,
            tag: opt_text(self.tag),
            gates_producer: opt_text(self.gates_producer),
            out: opt_text(self.out),
            prompt: opt_text(self.prompt),
            prompt_sha256: opt_text(self.prompt_sha256),
            target_id: opt_text(self.target_id),
            exactness_probe: self.exactness_probe,
            preflight_only: self.preflight_only,
            calibration_bootstrap: self.calibration_bootstrap,
            local_dev: self.local_dev,
        }
    }
}

/// A command line without flags.
pub open spec fn no_measure_flags() -> MeasureFlagsView {
    MeasureFlagsView {
        candidate: None,
        baseline: None,
        weights: None,
        goldens: Seq::empty(),
        contract: None,
        correctness_golden: None,
        tokens: None,
        mtp_depth: None,
        candidate_spec: None,
        baseline_spec: None,
        min_pairs: None,
        target_pairs: None,
        tag: None,
        gates_producer: None,
        out: None,
        prompt: None,
        prompt_sha256: None,
        target_id: None,
        exactness_probe: None,
        preflight_only: false,
        calibration_bootstrap: false,
        local_dev: false,
    }
}

/// A character that a sealed declaration may not hold.
pub open spec fn is_unreadable(c: char) -> bool {
    is_white(c) || is_control(c)
}

/// The refusal of the first unreadable character of `raw` from `i` on.
pub open spec fn unreadable_from(raw: Seq<char>, i: int) -> Option<Seq<char>>
    decreases raw.len() - i,
{
    if i < 0 || i >= raw.len() {
        None
    } else if is_unreadable(raw[i]) {
        Some(producer_unreadable(raw, raw[i]))
    } else {
        unreadable_from(raw, i + 1)
    }
}

/// The refusal of a declared gates producer.
pub open spec fn producer_refusal(raw: Seq<char>) -> Option<Seq<char>> {
    if raw.len() == 0 {
        Some(producer_empty())
    } else {
        unreadable_from(raw, 0)
    }
}

/// A declared gates producer is sealed as it is, if it can be read back: it is not empty and holds
/// neither white space nor control characters. Any name is accepted.
pub fn validate_gates_producer(raw: &str) -> (r: Result<String, String>)
    ensures
        match producer_refusal(raw@) {
            Some(m) => r matches Err(e) && e@ == m,
            None => r matches Ok(s) && s@ == raw@,
        },
{
    if raw.is_empty() {
        return Err(say_producer_empty());
    }
    let cs = chars_of(raw);
    let mut i: usize = 0;
    while i < cs.len()
        invariant
            cs@ == raw@,
            i <= cs.len(),
            raw@.len() > 0,
            unreadable_from(raw@, 0) == unreadable_from(raw@, i as int),
        decreases cs.len() - i,
    {
        let c: char = cs[i];
        if white(c) || control(c) {
            return Err(say_producer_unreadable(raw, c));
        }
        i = i + 1;
    }
    Ok(raw.to_owned())
}

proof fn lemma_readable(raw: Seq<char>, from: int, i: int)
    requires
        0 <= from <= i < raw.len(),
        unreadable_from(raw, from) is None,
    ensures
        !is_unreadable(raw[i]),
    decreases i - from,
{
    if from < i {
        lemma_readable(raw, from + 1, i);
    }
}

/// A gates producer that is accepted holds no white space and no control character.
pub proof fn an_accepted_producer_reads_back(raw: Seq<char>)
    requires
        producer_refusal(raw) is None,
    ensures
        raw.len() > 0,
        forall|i: int| 0 <= i < raw.len() ==> !is_white(#[trigger] raw[i]) && !is_control(raw[i]),
{
    assert forall|i: int| 0 <= i < raw.len() implies !is_white(#[trigger] raw[i]) && !is_control(
        raw[i],
    ) by {
        lemma_readable(raw, 0, i);
    }
}

/// A flag that takes a value which is kept as it is.
pub open spec fn takes_text(a: Seq<char>) -> bool {
    ||| a == "--candidate"@
    ||| a == "--baseline"@
    ||| a == "--weights"@
    ||| a == "--golden"@
    ||| a == "--contract"@
    ||| a == "--correctness-golden"@
    ||| a == "--candidate-spec"@
    ||| a == "--baseline-spec"@
    ||| a == "--tag"@
    ||| a == "--out"@
    ||| a == "--prompt"@
    ||| a == "--prompt-sha256"@
    ||| a == "--target-id"@
}

/// A flag that takes a count.
pub open spec fn takes_count(a: Seq<char>) -> bool {
    ||| a == "--tokens"@
    ||| a == "--mtp-depth"@
    ||| a == "--min-pairs"@
    ||| a == "--min-pairs-per-prompt"@
    ||| a == "--target-pairs"@
    ||| a == "--pairs-per-prompt"@
}

/// A flag that takes a checked name.
pub open spec fn takes_name(a: Seq<char>) -> bool {
    a == "--gates-producer"@ || a == "--exactness-probe"@
}

/// A flag of a baseline that was an engine or a time.
pub open spec fn is_retired(a: Seq<char>) -> bool {
    ||| a == "--baseline-prefill-spt"@
    ||| a == "--baseline-decode-spt"@
    ||| a == "--baseline-engine"@
    ||| a == "--engine"@
}

/// The flags after one that takes a text.
pub open spec fn with_text(f: MeasureFlagsView, a: Seq<char>, v: Seq<char>) -> MeasureFlagsView {
    if a == "--candidate"@ {
        MeasureFlagsView { candidate: Some(v), ..f }
    } else if a == "--baseline"@ {
        MeasureFlagsView { baseline: Some(v), ..f }
    } else if a == "--weights"@ {
        MeasureFlagsView { weights: Some(v), ..f }
    } else if a == "--golden"@ {
        MeasureFlagsView { goldens: f.goldens.push(v), ..f }
    } else if a == "--contract"@ {
        MeasureFlagsView { contract: Some(v), ..f }
    } else if a == "--correctness-golden"@ {
        MeasureFlagsView { correctness_golden: Some(v), ..f }
    } else if a == "--candidate-spec"@ {
        MeasureFlagsView { candidate_spec: Some(v), ..f }
    } else if a == "--baseline-spec"@ {
        MeasureFlagsView { baseline_spec: Some(v), ..f }
    } else if a == "--tag"@ {
        MeasureFlagsView { tag: Some(v), ..f }
    } else if a == "--out"@ {
        MeasureFlagsView { out: Some(v), ..f }
    } else if a == "--prompt"@ {
        MeasureFlagsView { prompt: Some(v), ..f }
    } else if a == "--prompt-sha256"@ {
        MeasureFlagsView { prompt_sha256: Some(v), ..f }
    } else {
        MeasureFlagsView { target_id: Some(v), ..f }
    }
}

/// The flags after one that takes a count.
pub open spec fn with_count(f: MeasureFlagsView, a: Seq<char>, n: usize) -> MeasureFlagsView {
    if a == "--tokens"@ {
        MeasureFlagsView { tokens: Some(n), ..f }
    } else if a == "--mtp-depth"@ {
        MeasureFlagsView { mtp_depth: Some(n), ..f }
    } else if a == "--min-pairs"@ || a == "--min-pairs-per-prompt"@ {
        MeasureFlagsView { min_pairs: Some(n), ..f }
    } else {
        MeasureFlagsView { target_pairs: Some(n), ..f }
    }
}

/// The flags after one that takes a value.
pub open spec fn with_measure_value(f: MeasureFlagsView, a: Seq<char>, v: Seq<char>) -> Result<
    MeasureFlagsView,
    Seq<char>,
> {
    if takes_text(a) {
        Ok(with_text(f, a, v))
    } else if takes_count(a) {
        match numeral_read(v, usize::MAX as nat) {
            Ok(n) => Ok(with_count(f, a, n as usize)),
            Err(_) => Err(invalid_count(a, v)),
        }
    } else if a == "--gates-producer"@ {
        match producer_refusal(v) {
            Some(m) => Err(m),
            None => Ok(MeasureFlagsView { gates_producer: Some(v), ..f }),
        }
    } else {
        match probe_named(v) {
            Some(p) => Ok(MeasureFlagsView { exactness_probe: Some(p), ..f }),
            None => Err(probe_unknown(v)),
        }
    }
}

/// The flags after a word that takes no value.
pub open spec fn with_measure_switch(f: MeasureFlagsView, a: Seq<char>) -> Result<
    MeasureFlagsView,
    Seq<char>,
> {
    if a == "--depth"@ {
        Err(depth_renamed())
    } else if a == "--preflight-only"@ {
        Ok(MeasureFlagsView { preflight_only: true, ..f })
    } else if a == "--calibration-bootstrap"@ {
        Ok(MeasureFlagsView { calibration_bootstrap: true, ..f })
    } else if a == "--local-dev"@ {
        Ok(MeasureFlagsView { local_dev: true, ..f })
    } else if is_retired(a) {
        Err(not_a_measure_flag(a))
    } else {
        Err(unknown_flag(a))
    }
}

/// A flag that takes a value.
pub open spec fn takes_measure_value(a: Seq<char>) -> bool {
    takes_text(a) || takes_count(a) || takes_name(a)
}

/// The flags of the command line from its word `i` on: none when help is asked for before anything
/// is refused.
pub open spec fn measure_scan(args: Seq<Seq<char>>, i: int, f: MeasureFlagsView) -> Result<
    Option<MeasureFlagsView>,
    Seq<char>,
>
    decreases args.len() - i,
{
    if i >= args.len() {
        Ok(Some(f))
    } else if is_help(args[i]) {
        Ok(None)
    } else if takes_measure_value(args[i]) {
        if i + 1 >= args.len() {
            Err(flag_needs_value(args[i]))
        } else {
            match with_measure_value(f, args[i], args[i + 1]) {
                Ok(g) => measure_scan(args, i + 2, g),
                Err(m) => Err(m),
            }
        }
    } else {
        match with_measure_switch(f, args[i]) {
            Ok(g) => measure_scan(args, i + 1, g),
            Err(m) => Err(m),
        }
    }
}

fn text_flag(a: &str) -> (r: bool)
    ensures
        r == takes_text(a@),
{
    same_text(a, "--candidate") || same_text(a, "--baseline") || same_text(a, "--weights")
        || same_text(a, "--golden") || same_text(a, "--contract") || same_text(
        a,
        "--correctness-golden",
    ) || same_text(a, "--candidate-spec") || same_text(a, "--baseline-spec") || same_text(
        a,
        "--tag",
    ) || same_text(a, "--out") || same_text(a, "--prompt") || same_text(a, "--prompt-sha256")
        || same_text(a, "--target-id")
}

fn count_flag(a: &str) -> (r: bool)
    ensures
        r == takes_count(a@),
{
    same_text(a, "--tokens") || same_text(a, "--mtp-depth") || same_text(a, "--min-pairs")
        || same_text(a, "--min-pairs-per-prompt") || same_text(a, "--target-pairs") || same_text(
        a,
        "--pairs-per-prompt",
    )
}

fn name_flag(a: &str) -> (r: bool)
    ensures
        r == takes_name(a@),
{
    same_text(a, "--gates-producer") || same_text(a, "--exactness-probe")
}

fn retired_flag(a: &str) -> (r: bool)
    ensures
        r == is_retired(a@),
{
    same_text(a, "--baseline-prefill-spt") || same_text(a, "--baseline-decode-spt") || same_text(
        a,
        "--baseline-engine",
    ) || same_text(a, "--engine")
}

fn set_text(f: MeasureFlags, a: &str, v: &str) -> (r: MeasureFlags)
    ensures
        r@ == with_text(f@, a@, v@),
{
    let mut g = f;
    let v = v.to_owned();
    if same_text(a, "--candidate") {
        g.candidate = Some(v);
    } else if same_text(a, "--baseline") {
        g.baseline = Some(v);
    } else if same_text(a, "--weights") {
        g.weights = Some(v);
    } else if same_text(a, "--golden") {
        g.goldens.push(v);
        assert(words(g.goldens@) =~= words(f.goldens@).push(v@));
    } else if same_text(a, "--contract") {
        g.contract = Some(v);
    } else if same_text(a, "--correctness-golden") {
        g.correctness_golden = Some(v);
    } else if same_text(a, "--candidate-spec") {
        g.candidate_spec = Some(v);
    } else if same_text(a, "--baseline-spec") {
        g.baseline_spec = Some(v);
    } else if same_text(a, "--tag") {
        g.tag = Some(v);
    } else if same_text(a, "--out") {
        g.out = Some(v);
    } else if same_text(a, "--prompt") {
        g.prompt = Some(v);
    } else if same_text(a, "--prompt-sha256") {
        g.prompt_sha256 = Some(v);
    } else {
        g.target_id = Some(v);
    }
    g
}

fn set_count(f: MeasureFlags, a: &str, n: usize) -> (r: MeasureFlags)
    ensures
        r@ == with_count(f@, a@, n),
{
    let mut g = f;
    if same_text(a, "--tokens") {
        g.tokens = Some(n);
    } else if same_text(a, "--mtp-depth") {
        g.mtp_depth = Some(n);
    } else if same_text(a, "--min-pairs") || same_text(a, "--min-pairs-per-prompt") {
        g.min_pairs = Some(n);
    } else {
        g.target_pairs = Some(n);
    }
    g
}

fn set_measure_value(f: MeasureFlags, a: &str, v: &str) -> (r: Result<MeasureFlags, String>)
    ensures
        match with_measure_value(f@, a@, v@) {
            Ok(g) => r matches Ok(x) && x@ == g,
            Err(m) => r matches Err(e) && e@ == m,
        },
{
    if text_flag(a) {
        Ok(set_text(f, a, v))
    } else if count_flag(a) {
        match read_count(v) {
            Ok(n) => Ok(set_count(f, a, n)),
            Err(_) => Err(say_invalid_count(a, v)),
        }
    } else if same_text(a, "--gates-producer") {
        match validate_gates_producer(v) {
            Ok(name) => {
                let mut g = f;
                g.gates_producer = Some(name);
                Ok(g)
            },
            Err(e) => Err(e),
        }
    } else {
        match ExactnessProbe::parse(v) {
            Ok(p) => {
                let mut g = f;
                g.exactness_probe = Some(p);
                Ok(g)
            },
            Err(e) => Err(e),
        }
    }
}

fn set_measure_switch(f: MeasureFlags, a: &str) -> (r: Result<MeasureFlags, String>)
    ensures
        match with_measure_switch(f@, a@) {
            Ok(g) => r matches Ok(x) && x@ == g,
            Err(m) => r matches Err(e) && e@ == m,
        },
{
    let mut g = f;
    if same_text(a, "--depth") {
        return Err(say_depth_renamed());
    } else if same_text(a, "--preflight-only") {
        g.preflight_only = true;
    } else if same_text(a, "--calibration-bootstrap") {
        g.calibration_bootstrap = true;
    } else if same_text(a, "--local-dev") {
        g.local_dev = true;
    } else if retired_flag(a) {
        return Err(say_not_a_measure_flag(a));
    } else {
        return Err(say_unknown_flag(a));
    }
    Ok(g)
}

/// Reads the flags of a `measure-job` command line. Nothing is returned when help is asked for.
pub fn read_measure_flags(args: &Vec<String>) -> (r: Result<Option<MeasureFlags>, String>)
    ensures
        match measure_scan(words(args@), 0, no_measure_flags()) {
            Ok(None) => r == Ok::<Option<MeasureFlags>, String>(None),
            Ok(Some(f)) => r matches Ok(Some(x)) && x@ == f,
            Err(m) => r matches Err(e) && e@ == m,
        },
{
    let mut f = MeasureFlags {
        candidate: None,
        baseline: None,
        weights: None,
        goldens: Vec::new(),
        contract: None,
        correctness_golden: None,
        tokens: None,
        mtp_depth: None,
        candidate_spec: None,
        baseline_spec: None,
        min_pairs: None,
        target_pairs: None,
        tag: None,
        gates_producer: None,
        out: None,
        prompt: None,
        prompt_sha256: None,
        target_id: None,
        exactness_probe: None,
        preflight_only: false,
        calibration_bootstrap: false,
        local_dev: false,
    };
    assert(f@ =~= no_measure_flags());
    let ghost ws = words(args@);
    let mut i: usize = 0;
    while i < args.len()
        invariant
            ws == words(args@),
            i <= args.len(),
            measure_scan(ws, 0, no_measure_flags()) == measure_scan(ws, i as int, f@),
        decreases args.len() - i,
    {
        let a = args[i].as_str();
        assert(a@ == ws[i as int]);
        if asks_help(a) {
            return Ok(None);
        }
        if text_flag(a) || count_flag(a) || name_flag(a) {
            if i + 1 >= args.len() {
                return Err(say_flag_needs_value(a));
            }
            let v = args[i + 1].as_str();
            assert(v@ == ws[i + 1]);
            f = match set_measure_value(f, a, v) {
                Ok(g) => g,
                Err(e) => return Err(e),
            };
            i = i + 2;
        } else {
            f = match set_measure_switch(f, a) {
                Ok(g) => g,
                Err(e) => return Err(e),
            };
            i = i + 1;
        }
    }
    Ok(Some(f))
}

/// A setting that says something.
pub open spec fn is_set(setting: Option<String>) -> bool {
    setting matches Some(s) && trimmed(s@).len() > 0
}

fn says_something(setting: &Option<String>) -> (r: bool)
    ensures
        r == is_set(*setting),
{
    match setting {
        Some(s) => !trim(s.as_str()).as_str().is_empty(),
        None => false,
    }
}

/// The refusal of a command line before its specs are looked at.
pub open spec fn presence_refusal(f: MeasureFlagsView, settings: MeasureSettings) -> Option<
    Seq<char>,
> {
    if is_set(settings.prefill_baseline) {
        Some(baseline_env_set(PREFILL_KEY@))
    } else if is_set(settings.decode_baseline) {
        Some(baseline_env_set(DECODE_KEY@))
    } else if f.candidate is None {
        Some(missing_required("--candidate"@))
    } else if f.baseline is None {
        Some(missing_required("--baseline"@))
    } else if f.weights is None && !is_set(settings.target_dir) {
        Some(no_weights())
    } else if f.goldens.len() == 0 {
        Some(missing_required("--golden (repeatable)"@))
    } else if f.contract is None {
        Some(missing_required("--contract"@))
    } else if f.candidate_spec is Some && f.mtp_depth is Some {
        Some(spec_and_depth())
    } else if f.min_pairs is None {
        Some(missing_required("--min-pairs"@))
    } else if f.target_pairs is None {
        Some(missing_required("--target-pairs"@))
    } else if f.tag is None {
        Some(missing_required("--tag"@))
    } else if f.out is None {
        Some(missing_required("--out"@))
    } else {
        None
    }
}

/// The weights directory: the flag where it is given, the setting otherwise.
pub open spec fn weights_of(f: MeasureFlagsView, settings: MeasureSettings) -> Seq<char> {
    match f.weights {
        Some(w) => w,
        None => trimmed(settings.target_dir->0@),
    }
}

/// The depth that the candidate spec is built from when none is given explicitly.
pub open spec fn declared_depth(f: MeasureFlagsView) -> usize {
    match f.mtp_depth {
        Some(d) => d,
        None => DEFAULT_MTP_DEPTH,
    }
}

/// A parsed spec by its texts.
pub open spec fn parsed_view(parsed: Result<SpecConfig, String>) -> Result<SpecView, Seq<char>> {
    match parsed {
        Ok(s) => Ok(s@),
        Err(e) => Err(e@),
    }
}

/// The spec of the candidate: what its explicit spec parses to, or the `mtp` spec of its depth.
pub open spec fn candidate_of(
    f: MeasureFlagsView,
    parsed: Result<SpecView, Seq<char>>,
) -> Result<SpecView, Seq<char>> {
    if f.candidate_spec is Some {
        parsed
    } else if declared_depth(f) > u32::MAX {
        Err(depth_too_large(declared_depth(f) as nat, DEFAULT_MAX_DRAFT_DEPTH_CAP as nat))
    } else {
        Ok(mtp_spec(declared_depth(f) as u32))
    }
}

/// Where the spec of the candidate comes from.
pub open spec fn candidate_source(f: MeasureFlagsView) -> Seq<char> {
    if f.candidate_spec is Some {
        SPEC_SOURCE_CLI_OVERRIDE@
    } else if f.mtp_depth is Some {
        SPEC_SOURCE_MTP_DEPTH_FLAG@
    } else {
        SPEC_SOURCE_MTP_DEPTH_DEFAULT@
    }
}

/// The spec of the baseline: what its explicit spec parses to, or the serial one.
pub open spec fn baseline_of(
    f: MeasureFlagsView,
    parsed: Result<SpecView, Seq<char>>,
) -> Result<SpecView, Seq<char>> {
    if f.baseline_spec is Some {
        parsed
    } else {
        Ok(serial_spec())
    }
}

/// Where the spec of the baseline comes from.
pub open spec fn baseline_source(f: MeasureFlagsView) -> Seq<char> {
    if f.baseline_spec is Some {
        SPEC_SOURCE_CLI_OVERRIDE@
    } else {
        SPEC_SOURCE_SERIAL_DEFAULT@
    }
}

/// The refusal of a pair of specs.
pub open spec fn specs_refusal(candidate: SpecView, baseline: SpecView, cap: nat) -> Option<
    Seq<char>,
> {
    if baseline_spec_refusal(baseline) is Some {
        baseline_spec_refusal(baseline)
    } else if module_refusal(candidate) is Some {
        module_refusal(candidate)
    } else if module_refusal(baseline) is Some {
        module_refusal(baseline)
    } else if cap_refusal(candidate, cap) is Some {
        cap_refusal(candidate, cap)
    } else {
        cap_refusal(baseline, cap)
    }
}

/// The decode window of a run, or its refusal: the free-run series has one window, the
/// teacher-forced one has a default.
pub open spec fn window_of(regime: LegRegime, tokens: Option<usize>) -> Result<usize, Seq<char>> {
    if tokens == Some(0usize) {
        Err(zero_tokens())
    } else {
        match (regime, tokens) {
            (LegRegime::FreeRunV1_1, None) => Ok(FREE_RUN_DECODE_TOKENS),
            (LegRegime::FreeRunV1_1, Some(t)) => if t != FREE_RUN_DECODE_TOKENS {
                Err(free_run_window(t as nat, FREE_RUN_DECODE_TOKENS as nat))
            } else {
                Ok(t)
            },
            (LegRegime::TeacherForcedV1, None) => Ok(DEFAULT_TOKENS),
            (LegRegime::TeacherForcedV1, Some(t)) => Ok(t),
        }
    }
}

/// A character that a target id may hold.
pub open spec fn is_target_char(c: char) -> bool {
    is_digit(c) || ('a' <= c && c <= 'z') || ('A' <= c && c <= 'Z') || c == '.' || c == '_' || c
        == '-'
}

/// A target id.
pub open spec fn is_target_id(s: Seq<char>) -> bool {
    s.len() > 0 && forall|i: int| 0 <= i < s.len() ==> is_target_char(#[trigger] s[i])
}

fn valid_target_id(s: &str) -> (r: bool)
    ensures
        r == is_target_id(s@),
{
    let cs = chars_of(s);
    if cs.len() == 0 {
        return false;
    }
    let mut i: usize = 0;
    while i < cs.len()
        invariant
            cs@ == s@,
            i <= cs.len(),
            forall|j: int| 0 <= j < i ==> is_target_char(#[trigger] s@[j]),
        decreases cs.len() - i,
    {
        let c: char = cs[i];
        let ok = ('0' <= c && c <= '9') || ('a' <= c && c <= 'z') || ('A' <= c && c <= 'Z') || c
            == '.' || c == '_' || c == '-';
        if !ok {
            assert(!is_target_char(s@[i as int]));
            return false;
        }
        i = i + 1;
    }
    true
}

/// The refusal of the pair budgets and of the prompt trio.
pub open spec fn budget_refusal(f: MeasureFlagsView) -> Option<Seq<char>> {
    let min = f.min_pairs->0;
    let target = f.target_pairs->0;
    let all = f.prompt is Some && f.prompt_sha256 is Some && f.target_id is Some;
    let none = f.prompt is None && f.prompt_sha256 is None && f.target_id is None;
    if min == 0 {
        Some(zero_min_pairs())
    } else if target < min {
        Some(target_below_min(target as nat, min as nat))
    } else if !all && !none {
        Some(prompt_trio_half_set())
    } else if f.prompt_sha256 is Some && !is_sha256_hex(f.prompt_sha256->0) {
        Some(sha_malformed(f.prompt_sha256->0))
    } else if f.target_id is Some && !is_target_id(f.target_id->0) {
        Some(target_malformed(f.target_id->0))
    } else {
        None
    }
}

/// The depth cap of a command line under its settings.
pub open spec fn cap_of(f: MeasureFlagsView, settings: MeasureSettings) -> nat {
    depth_cap(f.local_dev, opt_text(settings.max_draft_depth))
}

/// What the flags of a whole command line ask for, under its settings and with its explicit specs
/// parsed.
pub open spec fn measure_resolve(
    f: MeasureFlagsView,
    settings: MeasureSettings,
    candidate_parsed: Result<SpecView, Seq<char>>,
    baseline_parsed: Result<SpecView, Seq<char>>,
) -> Result<MeasureArgsView, Seq<char>> {
    if presence_refusal(f, settings) is Some {
        Err(presence_refusal(f, settings)->0)
    } else {
        match (candidate_of(f, candidate_parsed), baseline_of(f, baseline_parsed)) {
            (Err(m), _) => Err(m),
            (Ok(_), Err(m)) => Err(m),
            (Ok(candidate), Ok(baseline)) => if specs_refusal(
                candidate,
                baseline,
                cap_of(f, settings),
            ) is Some {
                Err(specs_refusal(candidate, baseline, cap_of(f, settings))->0)
            } else {
                match window_of(regime_of(candidate), f.tokens) {
                    Err(m) => Err(m),
                    Ok(tokens) => if budget_refusal(f) is Some {
                        Err(budget_refusal(f)->0)
                    } else {
                        Ok(assembled(f, settings, candidate, baseline, tokens))
                    },
                }
            },
        }
    }
}

/// The depth that a run seals: that of the candidate's `mtp` block, and zero without one.
pub open spec fn sealed_depth(candidate: SpecView) -> nat {
    match candidate.mtp_depth {
        Some(d) => d as nat,
        None => 0,
    }
}

/// The arguments that accepted flags make.
pub open spec fn assembled(
    f: MeasureFlagsView,
    settings: MeasureSettings,
    candidate: SpecView,
    baseline: SpecView,
    tokens: usize,
) -> MeasureArgsView {
    MeasureArgsView {
        candidate: f.candidate->0,
        baseline: f.baseline->0,
        weights: weights_of(f, settings),
        goldens: f.goldens,
        contract: f.contract->0,
        correctness_golden: f.correctness_golden,
        tokens: tokens as nat,
        candidate_regime: regime_of(candidate),
        mtp_depth: sealed_depth(candidate),
        candidate_spec: candidate,
        baseline_spec: baseline,
        candidate_spec_source: candidate_source(f),
        baseline_spec_source: baseline_source(f),
        min_pairs: f.min_pairs->0 as nat,
        target_pairs: f.target_pairs->0 as nat,
        tag: f.tag->0,
        out: f.out->0,
        prompt: f.prompt,
        prompt_sha256: f.prompt_sha256,
        target_id: f.target_id,
        exactness_probe: match f.exactness_probe {
            Some(p) => p,
            None => ExactnessProbe::Once,
        },
        preflight_only: f.preflight_only,
        calibration_bootstrap: f.calibration_bootstrap,
        local_dev: f.local_dev,
        gates_producer: match f.gates_producer {
            Some(g) => g,
            None => GATES_PRODUCER_UNDECLARED@,
        },
    }
}

fn check_presence(f: &MeasureFlags, settings: &MeasureSettings) -> (r: Result<(), String>)
    ensures
        answers(r, presence_refusal(f@, *settings)),
{
    if says_something(&settings.prefill_baseline) {
        return Err(say_baseline_env_set(PREFILL_KEY));
    }
    if says_something(&settings.decode_baseline) {
        return Err(say_baseline_env_set(DECODE_KEY));
    }
    if f.candidate.is_none() {
        return Err(say_missing_required("--candidate"));
    }
    if f.baseline.is_none() {
        return Err(say_missing_required("--baseline"));
    }
    if f.weights.is_none() && !says_something(&settings.target_dir) {
        return Err(say_no_weights());
    }
    if f.goldens.len() == 0 {
        return Err(say_missing_required("--golden (repeatable)"));
    }
    if f.contract.is_none() {
        return Err(say_missing_required("--contract"));
    }
    if f.candidate_spec.is_some() && f.mtp_depth.is_some() {
        return Err(say_spec_and_depth());
    }
    if f.min_pairs.is_none() {
        return Err(say_missing_required("--min-pairs"));
    }
    if f.target_pairs.is_none() {
        return Err(say_missing_required("--target-pairs"));
    }
    if f.tag.is_none() {
        return Err(say_missing_required("--tag"));
    }
    if f.out.is_none() {
        return Err(say_missing_required("--out"));
    }
    Ok(())
}

fn check_specs(candidate: &SpecConfig, baseline: &SpecConfig, cap: usize) -> (r: Result<
    (),
    String,
>)
    ensures
        answers(r, specs_refusal(candidate@, baseline@, cap as nat)),
{
    match validate_baseline_is_serial(baseline) {
        Err(e) => return Err(e),
        Ok(()) => {},
    }
    match validate_spec_module_coherent(candidate) {
        Err(e) => return Err(e),
        Ok(()) => {},
    }
    match validate_spec_module_coherent(baseline) {
        Err(e) => return Err(e),
        Ok(()) => {},
    }
    match validate_spec_capped(candidate, cap) {
        Err(e) => return Err(e),
        Ok(()) => {},
    }
    validate_spec_capped(baseline, cap)
}

fn resolve_window(regime: LegRegime, tokens: Option<usize>) -> (r: Result<usize, String>)
    ensures
        match window_of(regime, tokens) {
            Ok(t) => r == Ok::<usize, String>(t),
            Err(m) => r matches Err(e) && e@ == m,
        },
{
    match tokens {
        Some(0) => return Err(say_zero_tokens()),
        _ => {},
    }
    match regime {
        LegRegime::FreeRunV1_1 => match tokens {
            None => Ok(FREE_RUN_DECODE_TOKENS),
            Some(t) => {
                if t != FREE_RUN_DECODE_TOKENS {
                    Err(say_free_run_window(t, FREE_RUN_DECODE_TOKENS))
                } else {
                    Ok(t)
                }
            },
        },
        LegRegime::TeacherForcedV1 => match tokens {
            None => Ok(DEFAULT_TOKENS),
            Some(t) => Ok(t),
        },
    }
}

fn check_budget(f: &MeasureFlags, min: usize, target: usize) -> (r: Result<(), String>)
    requires
        f.min_pairs == Some(min),
        f.target_pairs == Some(target),
    ensures
        answers(r, budget_refusal(f@)),
{
    if min == 0 {
        return Err(say_zero_min_pairs());
    }
    if target < min {
        return Err(say_target_below_min(target, min));
    }
    let all = f.prompt.is_some() && f.prompt_sha256.is_some() && f.target_id.is_some();
    let none = f.prompt.is_none() && f.prompt_sha256.is_none() && f.target_id.is_none();
    if !all && !none {
        return Err(say_prompt_trio_half_set());
    }
    match &f.prompt_sha256 {
        Some(s) => {
            if !is_well_formed_harness_hash(s.as_str()) {
                return Err(say_sha_malformed(s.as_str()));
            }
        },
        None => {},
    }
    match &f.target_id {
        Some(s) => {
            if !valid_target_id(s.as_str()) {
                return Err(say_target_malformed(s.as_str()));
            }
        },
        None => {},
    }
    Ok(())
}

fn resolve_candidate(f: &MeasureFlags, parsed: Result<SpecConfig, String>) -> (r: Result<
    SpecConfig,
    String,
>)
    ensures
        match candidate_of(f@, parsed_view(parsed)) {
            Ok(s) => r matches Ok(x) && x@ == s,
            Err(m) => r matches Err(e) && e@ == m,
        },
{
    if f.candidate_spec.is_some() {
        return parsed;
    }
    let depth: usize = match f.mtp_depth {
        Some(d) => d,
        None => DEFAULT_MTP_DEPTH,
    };
    if depth as u64 > u32::MAX as u64 {
        return Err(say_depth_too_large(depth, DEFAULT_MAX_DRAFT_DEPTH_CAP));
    }
    Ok(SpecConfig::mtp(depth as u32))
}

fn resolve_baseline(f: &MeasureFlags, parsed: Result<SpecConfig, String>) -> (r: Result<
    SpecConfig,
    String,
>)
    ensures
        match baseline_of(f@, parsed_view(parsed)) {
            Ok(s) => r matches Ok(x) && x@ == s,
            Err(m) => r matches Err(e) && e@ == m,
        },
{
    if f.baseline_spec.is_some() {
        return parsed;
    }
    Ok(SpecConfig::serial())
}

fn assemble(
    f: MeasureFlags,
    settings: &MeasureSettings,
    candidate_spec: SpecConfig,
    baseline_spec: SpecConfig,
    tokens: usize,
) -> (r: MeasureJobArgs)
    requires
        presence_refusal(f@, *settings) is None,
    ensures
        r@ == assembled(f@, *settings, candidate_spec@, baseline_spec@, tokens),
{
    let candidate_spec_source = if f.candidate_spec.is_some() {
        SPEC_SOURCE_CLI_OVERRIDE
    } else if f.mtp_depth.is_some() {
        SPEC_SOURCE_MTP_DEPTH_FLAG
    } else {
        SPEC_SOURCE_MTP_DEPTH_DEFAULT
    };
    let baseline_spec_source = if f.baseline_spec.is_some() {
        SPEC_SOURCE_CLI_OVERRIDE
    } else {
        SPEC_SOURCE_SERIAL_DEFAULT
    };
    let weights = match f.weights {
        Some(w) => w,
        None => trim(settings.target_dir.as_ref().unwrap().as_str()),
    };
    let mtp_depth: usize = match candidate_spec.mtp_depth {
        Some(d) => d as usize,
        None => 0,
    };
    let candidate_regime = candidate_regime_for_spec(&candidate_spec);
    let exactness_probe = match f.exactness_probe {
        Some(p) => p,
        None => ExactnessProbe::Once,
    };
    let gates_producer = match f.gates_producer {
        Some(g) => g,
        None => GATES_PRODUCER_UNDECLARED.to_owned(),
    };
    MeasureJobArgs {
        candidate: f.candidate.unwrap(),
        baseline: f.baseline.unwrap(),
        weights,
        goldens: f.goldens,
        contract: f.contract.unwrap(),
        correctness_golden: f.correctness_golden,
        tokens,
        candidate_regime,
        mtp_depth,
        candidate_spec,
        baseline_spec,
        candidate_spec_source: candidate_spec_source.to_owned(),
        baseline_spec_source: baseline_spec_source.to_owned(),
        min_pairs: f.min_pairs.unwrap(),
        target_pairs: f.target_pairs.unwrap(),
        tag: f.tag.unwrap(),
        out: f.out.unwrap(),
        prompt: f.prompt,
        prompt_sha256: f.prompt_sha256,
        target_id: f.target_id,
        exactness_probe,
        preflight_only: f.preflight_only,
        calibration_bootstrap: f.calibration_bootstrap,
        local_dev: f.local_dev,
        gates_producer,
    }
}

/// What the flags of a `measure-job` command line ask for. `candidate_parsed` and
/// `baseline_parsed` are what parsing the explicit specs gave; a spec that is not explicit has
/// none to consult.
pub fn resolve_measure_args(
    flags: MeasureFlags,
    settings: &MeasureSettings,
    candidate_parsed: Result<SpecConfig, String>,
    baseline_parsed: Result<SpecConfig, String>,
) -> (r: Result<MeasureJobArgs, String>)
    ensures
        match measure_resolve(
            flags@,
            *settings,
            parsed_view(candidate_parsed),
            parsed_view(baseline_parsed),
        ) {
            Ok(a) => r matches Ok(x) && x@ == a,
            Err(m) => r matches Err(e) && e@ == m,
        },
{
    match check_presence(&flags, settings) {
        Err(e) => return Err(e),
        Ok(()) => {},
    }
    let candidate = match resolve_candidate(&flags, candidate_parsed) {
        Err(e) => return Err(e),
        Ok(s) => s,
    };
    let baseline = match resolve_baseline(&flags, baseline_parsed) {
        Err(e) => return Err(e),
        Ok(s) => s,
    };
    let cap: usize = resolve_max_draft_depth_cap(flags.local_dev, &settings.max_draft_depth);
    match check_specs(&candidate, &baseline, cap) {
        Err(e) => return Err(e),
        Ok(()) => {},
    }
    let tokens: usize = match resolve_window(
        candidate_regime_for_spec(&candidate),
        flags.tokens,
    ) {
        Err(e) => return Err(e),
        Ok(t) => t,
    };
    let min: usize = flags.min_pairs.unwrap();
    let target: usize = flags.target_pairs.unwrap();
    match check_budget(&flags, min, target) {
        Err(e) => return Err(e),
        Ok(()) => {},
    }
    Ok(assemble(flags, settings, candidate, baseline, tokens))
}

/// What a command line asks for, under its settings and with its explicit specs parsed.
pub open spec fn measure_request(
    args: Seq<Seq<char>>,
    settings: MeasureSettings,
    candidate_parsed: Result<SpecView, Seq<char>>,
    baseline_parsed: Result<SpecView, Seq<char>>,
) -> Result<Option<MeasureArgsView>, Seq<char>> {
    match measure_scan(args, 0, no_measure_flags()) {
        Err(m) => Err(m),
        Ok(None) => Ok(None),
        Ok(Some(f)) => match measure_resolve(f, settings, candidate_parsed, baseline_parsed) {
            Err(m) => Err(m),
            Ok(a) => Ok(Some(a)),
        },
    }
}

/// Reads a `measure-job` command line. Nothing is returned when help is asked for.
pub fn parse_measure_job_args(
    args: &Vec<String>,
    settings: &MeasureSettings,
    candidate_parsed: Result<SpecConfig, String>,
    baseline_parsed: Result<SpecConfig, String>,
) -> (r: Result<Option<MeasureJobArgs>, String>)
    ensures
        match measure_request(
            words(args@),
            *settings,
            parsed_view(candidate_parsed),
            parsed_view(baseline_parsed),
        ) {
            Ok(None) => r == Ok::<Option<MeasureJobArgs>, String>(None),
            Ok(Some(a)) => r matches Ok(Some(x)) && x@ == a,
            Err(m) => r matches Err(e) && e@ == m,
        },
{
    let flags = match read_measure_flags(args) {
        Err(e) => return Err(e),
        Ok(None) => return Ok(None),
        Ok(Some(f)) => f,
    };
    match resolve_measure_args(flags, settings, candidate_parsed, baseline_parsed) {
        Err(e) => Err(e),
        Ok(a) => Ok(Some(a)),
    }
}

proof fn lemma_scanned_producer(args: Seq<Seq<char>>, i: int, f: MeasureFlagsView)
    requires
        measure_scan(args, i, f) matches Ok(Some(_)),
        f.gates_producer matches Some(g) ==> producer_refusal(g) is None,
    ensures
        measure_scan(args, i, f)->Ok_0->0.gates_producer matches Some(g) ==> producer_refusal(g)
            is None,
    decreases args.len() - i,
{
    if i < args.len() && !is_help(args[i]) {
        if takes_measure_value(args[i]) {
            if i + 1 < args.len() {
                match with_measure_value(f, args[i], args[i + 1]) {
                    Ok(g) => lemma_scanned_producer(args, i + 2, g),
                    Err(_) => {},
                }
            }
        } else {
            match with_measure_switch(f, args[i]) {
                Ok(g) => lemma_scanned_producer(args, i + 1, g),
                Err(_) => {},
            }
        }
    }
}

proof fn lemma_undeclared_reads_back()
    ensures
        producer_refusal(GATES_PRODUCER_UNDECLARED@) is None,
{
    let s = GATES_PRODUCER_UNDECLARED@;
    reveal_strlit("undeclared");
    assert(s.len() == 10);
    reveal_with_fuel(unreadable_from, 11);
}

/// What is accepted can be run: the baseline is the serial control, the candidate is within the
/// depth cap, the window is not empty and is the ruled one on the free-run series, the pair target
/// is at least the minimum and that is at least one, there is a golden, and the gates producer is
/// a name without white space or control characters.
pub proof fn accepted_measure_args_can_be_run(
    args: Seq<Seq<char>>,
    settings: MeasureSettings,
    candidate_parsed: Result<SpecView, Seq<char>>,
    baseline_parsed: Result<SpecView, Seq<char>>,
)
    requires
        measure_request(args, settings, candidate_parsed, baseline_parsed) matches Ok(Some(_)),
    ensures
        ({
            let a = measure_request(args, settings, candidate_parsed, baseline_parsed)->Ok_0->0;
            &&& a.baseline_spec == serial_spec()
            &&& a.tokens > 0
            &&& a.candidate_regime is FreeRunV1_1 ==> a.tokens == FREE_RUN_DECODE_TOKENS
            &&& 1 <= a.min_pairs <= a.target_pairs
            &&& a.goldens.len() > 0
            &&& a.mtp_depth <= depth_cap(a.local_dev, opt_text(settings.max_draft_depth))
            &&& !a.local_dev ==> a.mtp_depth <= DEFAULT_MAX_DRAFT_DEPTH_CAP
            &&& a.prompt is Some <==> a.prompt_sha256 is Some
            &&& a.prompt is Some <==> a.target_id is Some
            &&& a.gates_producer.len() > 0
            &&& forall|i: int|
                0 <= i < a.gates_producer.len() ==> !is_white(#[trigger] a.gates_producer[i])
                    && !is_control(a.gates_producer[i])
        }),
{
    let a = measure_request(args, settings, candidate_parsed, baseline_parsed)->Ok_0->0;
    lemma_scanned_producer(args, 0, no_measure_flags());
    lemma_undeclared_reads_back();
    an_accepted_producer_reads_back(a.gates_producer);
    an_accepted_baseline_is_serial(a.baseline_spec);
}

} // verus!
