//! The subcommands that check one thing: a golden, an engine's correctness, a weights directory.
use crate::args::{
    asks_help, is_help, opt_text, parse_golden_pin, pin_of, pin_view, words, GoldenIntegrityPin,
    PinView,
};
use crate::cli::{complaint, help, refusal, Report, ReportView};
use crate::cli_texts::{
    correctness_failed, correctness_missing, correctness_passed, engine_handshake, engine_spawn,
    golden_accept, golden_contract_io, golden_contract_unusable, golden_io, golden_no_oracle,
    golden_pin_reject, golden_schema_reject, golden_shape_only, say_correctness_failed,
    say_correctness_missing, say_correctness_passed, say_engine_handshake, say_engine_spawn,
    say_golden_accept, say_golden_contract_io, say_golden_contract_unusable, say_golden_io,
    say_golden_no_oracle, say_golden_pin_reject, say_golden_schema_reject, say_golden_shape_only,
    say_sub_failed, say_sub_missing, say_sub_needs_value, say_sub_unknown_flag,
    say_weights_accept, say_weights_io, say_weights_reject, sub_failed, sub_missing,
    sub_needs_value, sub_unknown_flag, weights_accept, weights_io, weights_reject,
};
use crate::json::{holds, json_read, read_object};
use crate::overlay::view::{want, wanted};
use crate::text::{
    a_numeral_is_within_its_bound, debug_text, decimal, decimal_text, numeral_read, read_unsigned,
    same_text, NumeralFault,
};
use vstd::prelude::*;

verus! {

/// Which of the three subcommands.
#[derive(Debug, Clone, Copy, PartialEq, Eq, Structural)]
pub enum CheckKind {
    Golden,
    Correctness,
    Weights,
}

impl CheckKind {
    pub open spec fn name(self) -> Seq<char> {
        match self {
            CheckKind::Golden => "validate-golden"@,
            CheckKind::Correctness => "correctness"@,
            CheckKind::Weights => "validate-weights"@,
        }
    }

    /// The name of the subcommand.
    pub fn sub_name(&self) -> (r: &'static str)
        ensures
            r@ == self.name(),
    {
        match self {
            CheckKind::Golden => "validate-golden",
            CheckKind::Correctness => "correctness",
            CheckKind::Weights => "validate-weights",
        }
    }
}

/// The flags read so far.
struct Flags {
    engine: Option<String>,
    weights: Option<String>,
    golden: Option<String>,
    sha256: Option<String>,
    bytes: Option<String>,
    contract: Option<String>,
    gates_only: bool,
}

/// The flags of a command line: each holds the last value it was given.
pub struct CheckFlags {
    pub engine: Option<Seq<char>>,
    pub weights: Option<Seq<char>>,
    pub golden: Option<Seq<char>>,
    pub sha256: Option<Seq<char>>,
    pub bytes: Option<Seq<char>>,
    pub contract: Option<Seq<char>>,
    pub gates_only: bool,
}

impl View for Flags {
    type V = CheckFlags;

    closed spec fn view(&self) -> CheckFlags {
        CheckFlags {
            engine: opt_text(self.engine),
            weights: opt_text(self.weights),
            golden: opt_text(self.golden),
            sha256: opt_text(self.sha256),
            bytes: opt_text(self.bytes),
            contract: opt_text(self.contract),
            gates_only: self.gates_only,
        }
    }
}

/// A command line without flags.
pub open spec fn no_check_flags() -> CheckFlags {
    CheckFlags {
        engine: None,
        weights: None,
        golden: None,
        sha256: None,
        bytes: None,
        contract: None,
        gates_only: false,
    }
}

/// A flag of the subcommand that takes a value.
pub open spec fn is_check_flag(kind: CheckKind, a: Seq<char>) -> bool {
    match kind {
        CheckKind::Golden => a == "--golden"@ || a == "--golden-sha256"@ || a == "--golden-bytes"@
            || a == "--contract"@,
        CheckKind::Correctness => a == "--engine"@ || a == "--weights"@ || a == "--golden"@ || a
            == "--golden-sha256"@ || a == "--golden-bytes"@,
        CheckKind::Weights => a == "--weights"@ || a == "--golden"@,
    }
}

/// The flags after one more.
pub open spec fn with_check_flag(f: CheckFlags, a: Seq<char>, v: Seq<char>) -> CheckFlags {
    if a == "--engine"@ {
        CheckFlags { engine: Some(v), ..f }
    } else if a == "--weights"@ {
        CheckFlags { weights: Some(v), ..f }
    } else if a == "--golden"@ {
        CheckFlags { golden: Some(v), ..f }
    } else if a == "--golden-sha256"@ {
        CheckFlags { sha256: Some(v), ..f }
    } else if a == "--golden-bytes"@ {
        CheckFlags { bytes: Some(v), ..f }
    } else {
        CheckFlags { contract: Some(v), ..f }
    }
}

/// The flags of the command line from its word `i` on, or what it is answered with.
pub open spec fn check_scan(
    kind: CheckKind,
    args: Seq<Seq<char>>,
    i: int,
    f: CheckFlags,
) -> Result<CheckFlags, ReportView>
    decreases args.len() - i,
{
    if i >= args.len() {
        Ok(f)
    } else if is_help(args[i]) {
        Err(help())
    } else if is_check_flag(kind, args[i]) {
        if i + 1 >= args.len() {
            Err(complaint(2, sub_needs_value(kind.name(), args[i])))
        } else {
            check_scan(kind, args, i + 2, with_check_flag(f, args[i], args[i + 1]))
        }
    } else if kind is Golden && args[i] == "--gates-only"@ {
        check_scan(kind, args, i + 1, CheckFlags { gates_only: true, ..f })
    } else {
        Err(refusal(sub_unknown_flag(kind.name(), args[i])))
    }
}

fn check_flag(kind: CheckKind, a: &str) -> (r: bool)
    ensures
        r == is_check_flag(kind, a@),
{
    match kind {
        CheckKind::Golden => same_text(a, "--golden") || same_text(a, "--golden-sha256")
            || same_text(a, "--golden-bytes") || same_text(a, "--contract"),
        CheckKind::Correctness => same_text(a, "--engine") || same_text(a, "--weights")
            || same_text(a, "--golden") || same_text(a, "--golden-sha256") || same_text(
            a,
            "--golden-bytes",
        ),
        CheckKind::Weights => same_text(a, "--weights") || same_text(a, "--golden"),
    }
}

fn set_flag(f: Flags, a: &str, v: &str) -> (r: Flags)
    ensures
        r@ == with_check_flag(f@, a@, v@),
{
    let mut g = f;
    let v = v.to_owned();
    if same_text(a, "--engine") {
        g.engine = Some(v);
    } else if same_text(a, "--weights") {
        g.weights = Some(v);
    } else if same_text(a, "--golden") {
        g.golden = Some(v);
    } else if same_text(a, "--golden-sha256") {
        g.sha256 = Some(v);
    } else if same_text(a, "--golden-bytes") {
        g.bytes = Some(v);
    } else {
        g.contract = Some(v);
    }
    g
}

fn read_flags(kind: CheckKind, args: &Vec<String>) -> (r: Result<Flags, Report>)
    ensures
        match check_scan(kind, words(args@), 0, no_check_flags()) {
            Ok(f) => r matches Ok(x) && x@ == f,
            Err(a) => r matches Err(x) && x@ == a,
        },
{
    let mut f = Flags {
        engine: None,
        weights: None,
        golden: None,
        sha256: None,
        bytes: None,
        contract: None,
        gates_only: false,
    };
    let ghost ws = words(args@);
    let mut i: usize = 0;
    while i < args.len()
        invariant
            ws == words(args@),
            i <= args.len(),
            check_scan(kind, ws, 0, no_check_flags()) == check_scan(kind, ws, i as int, f@),
        decreases args.len() - i,
    {
        let a = args[i].as_str();
        assert(a@ == ws[i as int]);
        if asks_help(a) {
            return Err(Report::usage());
        }
        if check_flag(kind, a) {
            if i + 1 >= args.len() {
                return Err(Report::complain(2, say_sub_needs_value(kind.sub_name(), a)));
            }
            let v = args[i + 1].as_str();
            assert(v@ == ws[i + 1]);
            f = set_flag(f, a, v);
            i = i + 2;
        } else if kind == CheckKind::Golden && same_text(a, "--gates-only") {
            f.gates_only = true;
            i = i + 1;
        } else {
            return Err(Report::refuse(say_sub_unknown_flag(kind.sub_name(), a)));
        }
    }
    Ok(f)
}

/// What a `validate-golden` command line asks for.
#[derive(Debug)]
pub struct ValidateGoldenArgs {
    pub golden: String,
    pub pin: Option<GoldenIntegrityPin>,
    pub contract: Option<String>,
    pub gates_only: bool,
}

/// [`ValidateGoldenArgs`] by its texts.
pub struct GoldenArgsView {
    pub golden: Seq<char>,
    pub pin: Option<PinView>,
    pub contract: Option<Seq<char>>,
    pub gates_only: bool,
}

impl View for ValidateGoldenArgs {
    type V = GoldenArgsView;

    open spec fn view(&self) -> GoldenArgsView {
        GoldenArgsView {
            golden: self.golden@,
            pin: pin_view(self.pin),
            contract: opt_text(self.contract),
            gates_only: self.gates_only,
        }
    }
}

/// What a `validate-golden` command line asks for, or what it is answered with.
pub open spec fn golden_request(args: Seq<Seq<char>>) -> Result<GoldenArgsView, ReportView> {
    match check_scan(CheckKind::Golden, args, 0, no_check_flags()) {
        Err(a) => Err(a),
        Ok(f) => if f.golden is None {
            Err(complaint(2, sub_missing("validate-golden"@, "--golden"@)))
        } else {
            match pin_of(f.sha256, f.bytes) {
                Err(m) => Err(complaint(2, sub_failed("validate-golden"@, m))),
                Ok(pin) => Ok(
                    GoldenArgsView {
                        golden: f.golden->0,
                        pin,
                        contract: f.contract,
                        gates_only: f.gates_only,
                    },
                ),
            }
        },
    }
}

/// Reads a `validate-golden` command line.
pub fn parse_validate_golden_args(args: &Vec<String>) -> (r: Result<ValidateGoldenArgs, Report>)
    ensures
        match golden_request(words(args@)) {
            Ok(a) => r matches Ok(x) && x@ == a,
            Err(a) => r matches Err(x) && x@ == a,
        },
{
    let f = match read_flags(CheckKind::Golden, args) {
        Err(a) => return Err(a),
        Ok(f) => f,
    };
    let golden = match f.golden {
        Some(g) => g,
        None => return Err(Report::complain(2, say_sub_missing("validate-golden", "--golden"))),
    };
    match parse_golden_pin(f.sha256, f.bytes) {
        Err(m) => Err(Report::complain(2, say_sub_failed("validate-golden", m.as_str()))),
        Ok(pin) => Ok(
            ValidateGoldenArgs { golden, pin, contract: f.contract, gates_only: f.gates_only },
        ),
    }
}

/// What checking a golden came to.
#[derive(Debug)]
pub enum GoldenCheck {
    ContractUnreadable { path: String, cause: String },
    ContractUnusable { path: String, cause: String },
    Unreadable { cause: String },
    PinRejected { cause: String },
    SchemaRejected { cause: String },
    Loaded {
        has_benchmark: bool,
        /// The golden names the model it is of.
        has_provenance: bool,
        sha256: String,
        cases: usize,
        gate_cases: usize,
    },
}

/// The key under which a golden names the model it is of.
pub const PROVENANCE_KEY: &'static str = "model_provenance";

/// Whether the document of a golden names the model it is of.
pub fn names_its_model(bytes: &Vec<u8>) -> (r: bool)
    ensures
        r == (json_read(bytes@) matches Ok(Some(members)) && members.contains_key(PROVENANCE_KEY@)),
{
    match read_object(bytes) {
        Ok(Some(object)) => holds(&object, PROVENANCE_KEY),
        _ => false,
    }
}

/// What is said of an accepted golden. Without a contract the model that a golden names is not
/// held against anything, and that is said too.
pub open spec fn acceptance(
    golden: Seq<char>,
    contract: bool,
    has_provenance: bool,
    sha256: Seq<char>,
    cases: nat,
    gate_cases: nat,
) -> Seq<char> {
    let line = golden_accept(golden, sha256, cases, gate_cases);
    if has_provenance && !contract {
        line + "\n"@ + golden_shape_only(golden)
    } else {
        line
    }
}

/// What a golden is answered with: a contract or a golden that cannot be read exits apart from one
/// that is refused, and a golden needs an oracle unless only its gates are asked about. `contract`
/// says whether a contract was given.
pub open spec fn golden_answer(
    golden: Seq<char>,
    contract: bool,
    gates_only: bool,
    check: GoldenCheck,
) -> ReportView {
    match check {
        GoldenCheck::ContractUnreadable { path, cause } => complaint(
            3,
            golden_contract_io(path@, cause@),
        ),
        GoldenCheck::ContractUnusable { path, cause } => complaint(
            2,
            golden_contract_unusable(path@, cause@),
        ),
        GoldenCheck::Unreadable { cause } => complaint(3, golden_io(golden, cause@)),
        GoldenCheck::PinRejected { cause } => complaint(1, golden_pin_reject(golden, cause@)),
        GoldenCheck::SchemaRejected { cause } => complaint(
            1,
            golden_schema_reject(golden, cause@),
        ),
        GoldenCheck::Loaded { has_benchmark, has_provenance, sha256, cases, gate_cases } => if
            !gates_only && !has_benchmark {
            complaint(1, golden_no_oracle(golden))
        } else {
            complaint(
                0,
                acceptance(
                    golden,
                    contract,
                    has_provenance,
                    sha256@,
                    cases as nat,
                    gate_cases as nat,
                ),
            )
        },
    }
}

/// What a golden is answered with.
pub fn run_validate_golden(args: &ValidateGoldenArgs, check: GoldenCheck) -> (r: Report)
    ensures
        r@ == golden_answer(args.golden@, args.contract is Some, args.gates_only, check),
{
    let golden = args.golden.as_str();
    match check {
        GoldenCheck::ContractUnreadable { path, cause } => Report::complain(
            3,
            say_golden_contract_io(path.as_str(), cause.as_str()),
        ),
        GoldenCheck::ContractUnusable { path, cause } => Report::complain(
            2,
            say_golden_contract_unusable(path.as_str(), cause.as_str()),
        ),
        GoldenCheck::Unreadable { cause } => Report::complain(
            3,
            say_golden_io(golden, cause.as_str()),
        ),
        GoldenCheck::PinRejected { cause } => Report::complain(
            1,
            say_golden_pin_reject(golden, cause.as_str()),
        ),
        GoldenCheck::SchemaRejected { cause } => Report::complain(
            1,
            say_golden_schema_reject(golden, cause.as_str()),
        ),
        GoldenCheck::Loaded { has_benchmark, has_provenance, sha256, cases, gate_cases } => {
            if !args.gates_only && !has_benchmark {
                return Report::complain(1, say_golden_no_oracle(golden));
            }
            let mut line = say_golden_accept(golden, sha256.as_str(), cases, gate_cases);
            if has_provenance && args.contract.is_none() {
                line.append("\n");
                line.append(say_golden_shape_only(golden).as_str());
            }
            Report::complain(0, line)
        },
    }
}

/// A golden is accepted exactly when it loads and has the oracle it needs.
pub proof fn only_a_loaded_golden_is_accepted(
    golden: Seq<char>,
    contract: bool,
    gates_only: bool,
    check: GoldenCheck,
)
    ensures
        golden_answer(golden, contract, gates_only, check).exit == 0 <==> (
        check matches GoldenCheck::Loaded { has_benchmark, .. } && (gates_only || has_benchmark)),
{
}

/// What cannot be read exits apart: with its own status, exactly when the golden or the contract
/// could not be read.
pub proof fn an_unreadable_golden_exits_apart(
    golden: Seq<char>,
    contract: bool,
    gates_only: bool,
    check: GoldenCheck,
)
    ensures
        golden_answer(golden, contract, gates_only, check).exit == 3 <==> (
        check is ContractUnreadable || check is Unreadable),
{
}

/// What a `correctness` command line asks for.
#[derive(Debug)]
pub struct CorrectnessArgs {
    pub engine: String,
    pub weights: String,
    pub golden: String,
    pub pin: Option<GoldenIntegrityPin>,
}

/// [`CorrectnessArgs`] by its texts.
pub struct CorrectnessArgsView {
    pub engine: Seq<char>,
    pub weights: Seq<char>,
    pub golden: Seq<char>,
    pub pin: Option<PinView>,
}

impl View for CorrectnessArgs {
    type V = CorrectnessArgsView;

    open spec fn view(&self) -> CorrectnessArgsView {
        CorrectnessArgsView {
            engine: self.engine@,
            weights: self.weights@,
            golden: self.golden@,
            pin: pin_view(self.pin),
        }
    }
}

/// What a `correctness` command line asks for, or what it is answered with.
pub open spec fn correctness_request(args: Seq<Seq<char>>) -> Result<
    CorrectnessArgsView,
    ReportView,
> {
    match check_scan(CheckKind::Correctness, args, 0, no_check_flags()) {
        Err(a) => Err(a),
        Ok(f) => if f.engine is None || f.weights is None || f.golden is None {
            Err(refusal(correctness_missing()))
        } else {
            match pin_of(f.sha256, f.bytes) {
                Err(m) => Err(complaint(2, sub_failed("correctness"@, m))),
                Ok(pin) => Ok(
                    CorrectnessArgsView {
                        engine: f.engine->0,
                        weights: f.weights->0,
                        golden: f.golden->0,
                        pin,
                    },
                ),
            }
        },
    }
}

/// Reads a `correctness` command line.
pub fn parse_correctness_args(args: &Vec<String>) -> (r: Result<CorrectnessArgs, Report>)
    ensures
        match correctness_request(words(args@)) {
            Ok(a) => r matches Ok(x) && x@ == a,
            Err(a) => r matches Err(x) && x@ == a,
        },
{
    let f = match read_flags(CheckKind::Correctness, args) {
        Err(a) => return Err(a),
        Ok(f) => f,
    };
    let (engine, weights, golden) = match (f.engine, f.weights, f.golden) {
        (Some(e), Some(w), Some(g)) => (e, w, g),
        _ => return Err(Report::refuse(say_correctness_missing())),
    };
    match parse_golden_pin(f.sha256, f.bytes) {
        Err(m) => Err(Report::complain(2, say_sub_failed("correctness", m.as_str()))),
        Ok(pin) => Ok(CorrectnessArgs { engine, weights, golden, pin }),
    }
}

/// What the correctness gate came to.
#[derive(Debug)]
pub enum GateCheck {
    GoldenRejected { cause: String },
    SpawnFailed { cause: String },
    HandshakeFailed { cause: String },
    /// The verdict, with its document.
    Judged { passed: bool, case_count: u64, error: String, document: String },
}

/// What the correctness gate is answered with.
pub open spec fn gate_answer(engine: Seq<char>, check: GateCheck) -> ReportView {
    match check {
        GateCheck::GoldenRejected { cause } => complaint(1, sub_failed("correctness"@, cause@)),
        GateCheck::SpawnFailed { cause } => complaint(1, engine_spawn(engine, cause@)),
        GateCheck::HandshakeFailed { cause } => complaint(1, engine_handshake(cause@)),
        GateCheck::Judged { passed, case_count, error, document } => if passed {
            ReportView {
                stdout: document@,
                ..complaint(0, correctness_passed(decimal(case_count as nat)))
            }
        } else {
            ReportView {
                stdout: document@,
                ..complaint(1, correctness_failed(decimal(case_count as nat), error@))
            }
        },
    }
}

/// What the correctness gate is answered with: the exit status is its verdict.
pub fn run_correctness(args: &CorrectnessArgs, check: GateCheck) -> (r: Report)
    ensures
        r@ == gate_answer(args.engine@, check),
{
    match check {
        GateCheck::GoldenRejected { cause } => Report::complain(
            1,
            say_sub_failed("correctness", cause.as_str()),
        ),
        GateCheck::SpawnFailed { cause } => Report::complain(
            1,
            say_engine_spawn(args.engine.as_str(), cause.as_str()),
        ),
        GateCheck::HandshakeFailed { cause } => Report::complain(
            1,
            say_engine_handshake(cause.as_str()),
        ),
        GateCheck::Judged { passed, case_count, error, document } => {
            let count = decimal_text(case_count);
            let mut r = if passed {
                Report::complain(0, say_correctness_passed(count.as_str()))
            } else {
                Report::complain(1, say_correctness_failed(count.as_str(), error.as_str()))
            };
            r.stdout = document;
            r
        },
    }
}

/// The correctness gate exits with success exactly when it was judged and passed, and its document
/// is printed exactly when it was judged.
pub proof fn the_gate_exits_by_its_verdict(engine: Seq<char>, check: GateCheck)
    ensures
        gate_answer(engine, check).exit == 0 <==> (check matches GateCheck::Judged { passed, .. }
            && passed),
        check matches GateCheck::Judged { document, .. } ==> gate_answer(engine, check).stdout
            == document@,
        !(check is Judged) ==> gate_answer(engine, check).stdout.len() == 0,
{
}

/// What a `validate-weights` command line asks for.
#[derive(Debug)]
pub struct ValidateWeightsArgs {
    pub weights: String,
    pub golden: Option<String>,
}

/// [`ValidateWeightsArgs`] by its texts.
pub struct WeightsArgsView {
    pub weights: Seq<char>,
    pub golden: Option<Seq<char>>,
}

impl View for ValidateWeightsArgs {
    type V = WeightsArgsView;

    open spec fn view(&self) -> WeightsArgsView {
        WeightsArgsView { weights: self.weights@, golden: opt_text(self.golden) }
    }
}

/// What a `validate-weights` command line asks for, or what it is answered with.
pub open spec fn weights_request(args: Seq<Seq<char>>) -> Result<WeightsArgsView, ReportView> {
    match check_scan(CheckKind::Weights, args, 0, no_check_flags()) {
        Err(a) => Err(a),
        Ok(f) => if f.weights is None {
            Err(complaint(2, sub_missing("validate-weights"@, "--weights"@)))
        } else {
            Ok(WeightsArgsView { weights: f.weights->0, golden: f.golden })
        },
    }
}

/// Reads a `validate-weights` command line.
pub fn parse_validate_weights_args(args: &Vec<String>) -> (r: Result<ValidateWeightsArgs, Report>)
    ensures
        match weights_request(words(args@)) {
            Ok(a) => r matches Ok(x) && x@ == a,
            Err(a) => r matches Err(x) && x@ == a,
        },
{
    let f = match read_flags(CheckKind::Weights, args) {
        Err(a) => return Err(a),
        Ok(f) => f,
    };
    match f.weights {
        Some(weights) => Ok(ValidateWeightsArgs { weights, golden: f.golden }),
        None => Err(Report::complain(2, say_sub_missing("validate-weights", "--weights"))),
    }
}

/// The size cap of a weights directory when none is set.
pub const DEFAULT_WEIGHTS_CAP: u64 = 26_843_545_600;

/// A size cap, where a setting gives one.
#[derive(Debug, Clone, Copy, PartialEq, Eq, Structural)]
pub enum WeightsCap {
    Bytes { bytes: u64 },
    Unlimited,
    /// The setting is no cap.
    Invalid,
}

/// The size cap that a setting gives: the default where it says nothing, none at all for `0`,
/// `none` and `unlimited`, and otherwise the number of bytes above zero that it spells.
pub open spec fn cap_set(setting: Option<Seq<char>>) -> WeightsCap {
    match setting {
        None => WeightsCap::Bytes { bytes: DEFAULT_WEIGHTS_CAP },
        Some(s) => if s == "0"@ || s == "none"@ || s == "unlimited"@ {
            WeightsCap::Unlimited
        } else {
            match numeral_read(s, u64::MAX as nat) {
                Ok(n) => if n > 0 {
                    WeightsCap::Bytes { bytes: n as u64 }
                } else {
                    WeightsCap::Invalid
                },
                Err(_) => WeightsCap::Invalid,
            }
        },
    }
}

/// The size cap that a setting gives.
pub fn weights_cap(setting: Option<&str>) -> (r: WeightsCap)
    ensures
        r == cap_set(wanted(setting)),
{
    let text = match want(setting) {
        None => return WeightsCap::Bytes { bytes: DEFAULT_WEIGHTS_CAP },
        Some(text) => text,
    };
    let s = text.as_str();
    if same_text(s, "0") || same_text(s, "none") || same_text(s, "unlimited") {
        return WeightsCap::Unlimited;
    }
    match read_unsigned(s, u64::MAX) {
        Ok(n) => if n > 0 {
            WeightsCap::Bytes { bytes: n }
        } else {
            WeightsCap::Invalid
        },
        Err(_) => WeightsCap::Invalid,
    }
}

/// What checking a weights directory came to.
#[derive(Debug)]
pub enum WeightsCheck {
    /// The size cap is not one.
    CapInvalid { cause: String },
    /// The directory, or something in it, could not be read.
    Unreadable { cause: String },
    Rejected { cause: String },
    Accepted { bytes: u64, files: u64, cap: Option<u64> },
}

/// The text of a size cap.
pub open spec fn cap_text(cap: Option<u64>) -> Seq<char> {
    match cap {
        Some(c) => decimal(c as nat),
        None => "unlimited"@,
    }
}

/// What a weights directory is answered with: one that cannot be read exits apart from one that
/// is refused.
pub open spec fn weights_answer(weights: Seq<char>, check: WeightsCheck) -> ReportView {
    match check {
        WeightsCheck::CapInvalid { cause } => complaint(2, sub_failed("validate-weights"@, cause@)),
        WeightsCheck::Unreadable { cause } => complaint(3, weights_io(weights, cause@)),
        WeightsCheck::Rejected { cause } => complaint(1, weights_reject(weights, cause@)),
        WeightsCheck::Accepted { bytes, files, cap } => complaint(
            0,
            weights_accept(weights, decimal(bytes as nat), decimal(files as nat), cap_text(cap)),
        ),
    }
}

/// What a weights directory is answered with.
pub fn run_validate_weights(args: &ValidateWeightsArgs, check: WeightsCheck) -> (r: Report)
    ensures
        r@ == weights_answer(args.weights@, check),
{
    match check {
        WeightsCheck::CapInvalid { cause } => Report::complain(
            2,
            say_sub_failed("validate-weights", cause.as_str()),
        ),
        WeightsCheck::Unreadable { cause } => Report::complain(
            3,
            say_weights_io(args.weights.as_str(), cause.as_str()),
        ),
        WeightsCheck::Rejected { cause } => Report::complain(
            1,
            say_weights_reject(args.weights.as_str(), cause.as_str()),
        ),
        WeightsCheck::Accepted { bytes, files, cap } => {
            let cap = match cap {
                Some(c) => decimal_text(c),
                None => "unlimited".to_owned(),
            };
            Report::complain(
                0,
                say_weights_accept(
                    args.weights.as_str(),
                    decimal_text(bytes).as_str(),
                    decimal_text(files).as_str(),
                    cap.as_str(),
                ),
            )
        },
    }
}

/// A weights directory is answered with success exactly when it is accepted.
pub proof fn only_accepted_weights_exit_with_success(weights: Seq<char>, check: WeightsCheck)
    ensures
        weights_answer(weights, check).exit == 0 <==> check is Accepted,
{
}

/// Each way in which the weights are not accepted has an exit status of its own: one that breaks a
/// rule, one that names no size cap, and one that cannot be read.
pub proof fn unreadable_weights_exit_apart(weights: Seq<char>, check: WeightsCheck)
    ensures
        weights_answer(weights, check).exit == 3 <==> check is Unreadable,
        weights_answer(weights, check).exit == 2 <==> check is CapInvalid,
        weights_answer(weights, check).exit == 1 <==> check is Rejected,
{
}

/// What tells the words of a command line apart.
proof fn lemma_flag_names()
    ensures
        "--engine"@.len() == 8,
        "--weights"@.len() == 9,
        "--golden"@.len() == 8,
        "--golden-sha256"@.len() == 15,
        "--golden-bytes"@.len() == 14,
        "--contract"@.len() == 10,
        "--gates-only"@.len() == 12,
        "--help"@.len() == 6,
        "-h"@.len() == 2,
        "--engine"@ != "--golden"@,
{
    reveal_strlit("--engine");
    reveal_strlit("--weights");
    reveal_strlit("--golden");
    reveal_strlit("--golden-sha256");
    reveal_strlit("--golden-bytes");
    reveal_strlit("--contract");
    reveal_strlit("--gates-only");
    reveal_strlit("--help");
    reveal_strlit("-h");
    assert("--engine"@[2] != "--golden"@[2]);
}

proof fn lemma_scan_goes_on(
    kind: CheckKind,
    line: Seq<Seq<char>>,
    more: Seq<Seq<char>>,
    i: int,
    f: CheckFlags,
)
    requires
        0 <= i <= line.len(),
        check_scan(kind, line, i, f) is Ok,
    ensures
        check_scan(kind, line + more, i, f) == check_scan(
            kind,
            line + more,
            line.len() as int,
            check_scan(kind, line, i, f)->Ok_0,
        ),
    decreases line.len() - i,
{
    let whole = line + more;
    if i < line.len() {
        assert(whole[i] == line[i]);
        if is_check_flag(kind, line[i]) {
            assert(whole[i + 1] == line[i + 1]);
            lemma_scan_goes_on(kind, line, more, i + 2, with_check_flag(f, line[i], line[i + 1]));
        } else {
            lemma_scan_goes_on(kind, line, more, i + 1, CheckFlags { gates_only: true, ..f });
        }
    }
}

/// The flags of a command line that is read to its end.
pub open spec fn flags_given(kind: CheckKind, line: Seq<Seq<char>>) -> Option<CheckFlags> {
    match check_scan(
        kind,
        line,
        0,
        CheckFlags {
            engine: None,
            weights: None,
            golden: None,
            sha256: None,
            bytes: None,
            contract: None,
            gates_only: false,
        },
    ) {
        Ok(f) => Some(f),
        Err(_) => None,
    }
}

/// A word that the subcommand takes a value after.
pub open spec fn asks_for_a_value(kind: CheckKind, flag: Seq<char>) -> bool {
    ||| kind is Golden && (flag == "--golden"@ || flag == "--golden-sha256"@ || flag
        == "--golden-bytes"@ || flag == "--contract"@)
    ||| kind is Correctness && (flag == "--engine"@ || flag == "--weights"@ || flag
        == "--golden"@ || flag == "--golden-sha256"@ || flag == "--golden-bytes"@)
    ||| kind is Weights && (flag == "--weights"@ || flag == "--golden"@)
}

/// An empty command line gives no flag. Each flag of a subcommand, with a value at the end of a
/// command line that is read, sets its own and leaves the others.
pub proof fn a_flag_sets_its_own_value(
    kind: CheckKind,
    line: Seq<Seq<char>>,
    flag: Seq<char>,
    v: Seq<char>,
)
    requires
        flags_given(kind, line) is Some,
        asks_for_a_value(kind, flag),
    ensures
        flags_given(kind, Seq::empty()) matches Some(n) && n.engine is None && n.weights is None
            && n.golden is None && n.sha256 is None && n.bytes is None && n.contract is None
            && !n.gates_only,
        flags_given(kind, line + seq![flag, v]) is Some,
        ({
            let f = flags_given(kind, line)->0;
            let g = flags_given(kind, line + seq![flag, v])->0;
            &&& g.engine == if flag == "--engine"@ { Some(v) } else { f.engine }
            &&& g.weights == if flag == "--weights"@ { Some(v) } else { f.weights }
            &&& g.golden == if flag == "--golden"@ { Some(v) } else { f.golden }
            &&& g.sha256 == if flag == "--golden-sha256"@ { Some(v) } else { f.sha256 }
            &&& g.bytes == if flag == "--golden-bytes"@ { Some(v) } else { f.bytes }
            &&& g.contract == if flag == "--contract"@ { Some(v) } else { f.contract }
            &&& g.gates_only == f.gates_only
        }),
{
    lemma_flag_names();
    let start = no_check_flags();
    let more = seq![flag, v];
    let whole = line + more;
    lemma_scan_goes_on(kind, line, more, 0, start);
    let n = line.len() as int;
    assert(whole[n] == flag);
    assert(whole[n + 1] == v);
    let g = with_check_flag(flags_given(kind, line)->0, flag, v);
    assert(check_scan(kind, whole, n + 2, g) == Ok::<CheckFlags, ReportView>(g));
    assert(check_scan(kind, Seq::empty(), 0, start) == Ok::<CheckFlags, ReportView>(start));
}

/// Only `validate-golden` has a switch: it asks for the gates alone and leaves the rest.
pub proof fn a_switch_asks_for_the_gates_alone(kind: CheckKind, line: Seq<Seq<char>>)
    requires
        flags_given(kind, line) is Some,
    ensures
        flags_given(kind, line + seq!["--gates-only"@]) is Some <==> kind is Golden,
        kind is Golden ==> flags_given(kind, line + seq!["--gates-only"@]) == Some(
            CheckFlags { gates_only: true, ..flags_given(kind, line)->0 },
        ),
{
    lemma_flag_names();
    let more = seq!["--gates-only"@];
    let whole = line + more;
    lemma_scan_goes_on(kind, line, more, 0, no_check_flags());
    let n = line.len() as int;
    assert(whole[n] == "--gates-only"@);
    if kind is Golden {
        let g = CheckFlags { gates_only: true, ..flags_given(kind, line)->0 };
        assert(check_scan(kind, whole, n + 1, g) == Ok::<CheckFlags, ReportView>(g));
    }
}

/// A command line that is read so far answers help when it is asked for next, and is refused with
/// the status of a bad command line when its next word is no flag or a flag without a value.
pub proof fn a_word_that_is_no_flag_ends_the_line(
    kind: CheckKind,
    line: Seq<Seq<char>>,
    word: Seq<char>,
    rest: Seq<Seq<char>>,
)
    requires
        flags_given(kind, line) is Some,
    ensures
        word == "-h"@ || word == "--help"@ ==> (check_scan(
            kind,
            line + (seq![word] + rest),
            0,
            no_check_flags(),
        ) matches Err(a) && a.exit == 0 && a.usage is Stdout),
        word != "-h"@ && word != "--help"@ && !asks_for_a_value(kind, word) && !(kind is Golden
            && word == "--gates-only"@) ==> (check_scan(
            kind,
            line + (seq![word] + rest),
            0,
            no_check_flags(),
        ) matches Err(a) && a.exit == 2 && a.usage is Stderr),
        asks_for_a_value(kind, word) ==> (check_scan(
            kind,
            line + seq![word],
            0,
            no_check_flags(),
        ) matches Err(a) && a.exit == 2 && a.usage is Nowhere),
{
    lemma_flag_names();
    lemma_scan_goes_on(kind, line, seq![word] + rest, 0, no_check_flags());
    lemma_scan_goes_on(kind, line, seq![word], 0, no_check_flags());
    assert((line + (seq![word] + rest))[line.len() as int] == word);
    assert((line + seq![word])[line.len() as int] == word);
}

/// A command line asks for the check of a golden exactly when it is read to its end, names a golden
/// and pins it wholly or not at all; what it asks for is what its flags hold, each under its own
/// name.
pub proof fn a_golden_check_is_asked_for_by_its_flags(
    line: Seq<Seq<char>>,
    run: ValidateGoldenArgs,
)
    ensures
        golden_request(line) is Ok <==> (flags_given(CheckKind::Golden, line) matches Some(f)
            && f.golden is Some && pin_of(f.sha256, f.bytes) is Ok),
        golden_request(line) == Ok::<GoldenArgsView, ReportView>(run@) ==> {
            let f = flags_given(CheckKind::Golden, line)->0;
            &&& f.golden == Some(run.golden@)
            &&& pin_of(f.sha256, f.bytes) == Ok::<Option<PinView>, Seq<char>>(pin_view(run.pin))
            &&& f.contract is Some <==> run.contract is Some
            &&& run.contract matches Some(t) ==> f.contract == Some(t@)
            &&& f.gates_only == run.gates_only
        },
        flags_given(CheckKind::Golden, line) is Some ==> (golden_request(line) matches Err(a)
            ==> a.exit == 2),
{
}

/// A command line asks for the correctness gate exactly when it is read to its end, names an
/// engine, weights and a golden, and pins the golden wholly or not at all; what it asks for is what
/// its flags hold, each under its own name.
pub proof fn a_correctness_check_is_asked_for_by_its_flags(
    line: Seq<Seq<char>>,
    run: CorrectnessArgs,
)
    ensures
        correctness_request(line) is Ok <==> (flags_given(
            CheckKind::Correctness,
            line,
        ) matches Some(f) && f.engine is Some && f.weights is Some && f.golden is Some && pin_of(
            f.sha256,
            f.bytes,
        ) is Ok),
        correctness_request(line) == Ok::<CorrectnessArgsView, ReportView>(run@) ==> {
            let f = flags_given(CheckKind::Correctness, line)->0;
            &&& f.engine == Some(run.engine@)
            &&& f.weights == Some(run.weights@)
            &&& f.golden == Some(run.golden@)
            &&& pin_of(f.sha256, f.bytes) == Ok::<Option<PinView>, Seq<char>>(pin_view(run.pin))
        },
        flags_given(CheckKind::Correctness, line) is Some ==> (correctness_request(
            line,
        ) matches Err(a) ==> a.exit == 2),
{
}

/// A command line asks for the check of a weights directory exactly when it is read to its end and
/// names one; what it asks for is what its flags hold, each under its own name.
pub proof fn a_weights_check_is_asked_for_by_its_flags(
    line: Seq<Seq<char>>,
    run: ValidateWeightsArgs,
)
    ensures
        weights_request(line) is Ok <==> (flags_given(CheckKind::Weights, line) matches Some(f)
            && f.weights is Some),
        weights_request(line) == Ok::<WeightsArgsView, ReportView>(run@) ==> {
            let f = flags_given(CheckKind::Weights, line)->0;
            &&& f.weights == Some(run.weights@)
            &&& f.golden is Some <==> run.golden is Some
            &&& run.golden matches Some(t) ==> f.golden == Some(t@)
        },
        flags_given(CheckKind::Weights, line) is Some ==> (weights_request(line) matches Err(a)
            ==> a.exit == 2),
{
}

/// The exit statuses of a golden: zero for an accepted one, one for a golden that is refused, two
/// for a contract that cannot be used, three for what cannot be read. Nothing goes to the output
/// and no usage is printed.
pub proof fn a_golden_exits_by_what_is_wrong(
    golden: Seq<char>,
    contract: bool,
    gates_only: bool,
    check: GoldenCheck,
)
    ensures
        ({
            let a = golden_answer(golden, contract, gates_only, check);
            &&& check is ContractUnreadable || check is Unreadable ==> a.exit == 3
            &&& check is ContractUnusable ==> a.exit == 2
            &&& check is PinRejected || check is SchemaRejected ==> a.exit == 1
            &&& check matches GoldenCheck::Loaded { has_benchmark, .. } ==> a.exit == if gates_only
                || has_benchmark { 0int } else { 1int }
            &&& a.stdout.len() == 0
            &&& a.usage is Nowhere
        }),
{
}

/// An accepted golden is told with its digest and both of its counts, and the notice that the model
/// it names was held against nothing follows exactly when it names one and there is no contract.
pub proof fn an_unchecked_model_is_told(
    golden: Seq<char>,
    contract: bool,
    has_provenance: bool,
    sha256: Seq<char>,
    cases: nat,
    gate_cases: nat,
)
    ensures
        ({
            let line = golden_accept(golden, sha256, cases, gate_cases);
            let said = acceptance(golden, contract, has_provenance, sha256, cases, gate_cases);
            &&& said.len() > line.len() <==> has_provenance && !contract
            &&& said.subrange(0, line.len() as int) == line
            &&& has_provenance && !contract ==> said[line.len() as int] == '\n' && said.subrange(
                line.len() as int + 1,
                said.len() as int,
            ) == golden_shape_only(golden)
        }),
{
    reveal_strlit("\n");
    let line = golden_accept(golden, sha256, cases, gate_cases);
    let said = acceptance(golden, contract, has_provenance, sha256, cases, gate_cases);
    assert(said.subrange(0, line.len() as int) =~= line);
    if has_provenance && !contract {
        assert(said.subrange(line.len() as int + 1, said.len() as int) =~= golden_shape_only(golden));
    }
}

/// The correctness gate exits with one whenever it does not exit with zero, prints no usage, and
/// says how many cases were judged, or why none were.
pub proof fn a_gate_that_did_not_pass_exits_with_one(engine: Seq<char>, check: GateCheck)
    ensures
        ({
            let a = gate_answer(engine, check);
            &&& a.exit == if (check matches GateCheck::Judged { passed, .. } && passed) {
                0int
            } else {
                1int
            }
            &&& a.usage is Nowhere
            &&& check matches GateCheck::GoldenRejected { cause } ==> a.stderr
                == "benchctl correctness: "@ + cause@
            &&& check matches GateCheck::SpawnFailed { cause } ==> a.stderr
                == "benchctl correctness: failed to spawn engine "@ + debug_text(engine) + ": "@
                + cause@
            &&& check matches GateCheck::HandshakeFailed { cause } ==> a.stderr
                == "benchctl correctness: engine hello handshake failed: "@ + cause@
            &&& check matches GateCheck::Judged { passed, case_count, error, .. } ==> a.stderr
                == if passed {
                "benchctl correctness: passed=true case_count="@ + decimal(case_count as nat)
            } else {
                "benchctl correctness: passed=false case_count="@ + decimal(case_count as nat)
                    + " error="@ + debug_text(error@)
            }
        }),
{
    reveal_strlit("benchctl ");
    reveal_strlit("correctness");
    reveal_strlit(": ");
    reveal_strlit("benchctl correctness: ");
    assert("benchctl "@ + "correctness"@ + ": "@ =~= "benchctl correctness: "@);
}

/// A golden that is not accepted is told by its own reason, and an accepted one by its digest and
/// both of its counts.
pub proof fn a_golden_is_told_by_what_is_wrong(
    golden: Seq<char>,
    contract: bool,
    gates_only: bool,
    check: GoldenCheck,
)
    ensures
        ({
            let said = golden_answer(golden, contract, gates_only, check).stderr;
            &&& check matches GoldenCheck::ContractUnreadable { path, cause } ==> said
                == golden_contract_io(path@, cause@)
            &&& check matches GoldenCheck::ContractUnusable { path, cause } ==> said
                == golden_contract_unusable(path@, cause@)
            &&& check matches GoldenCheck::Unreadable { cause } ==> said == golden_io(
                golden,
                cause@,
            )
            &&& check matches GoldenCheck::PinRejected { cause } ==> said == golden_pin_reject(
                golden,
                cause@,
            )
            &&& check matches GoldenCheck::SchemaRejected { cause } ==> said
                == golden_schema_reject(golden, cause@)
            &&& check matches GoldenCheck::Loaded {
                has_benchmark,
                has_provenance,
                sha256,
                cases,
                gate_cases,
            } ==> said == if gates_only || has_benchmark {
                acceptance(
                    golden,
                    contract,
                    has_provenance,
                    sha256@,
                    cases as nat,
                    gate_cases as nat,
                )
            } else {
                golden_no_oracle(golden)
            }
        }),
{
}

/// A weights directory is told by its own reason, and an accepted one by its bytes, its files and
/// its cap.
pub proof fn weights_are_told_by_what_is_wrong(weights: Seq<char>, check: WeightsCheck)
    ensures
        ({
            let a = weights_answer(weights, check);
            &&& check matches WeightsCheck::CapInvalid { cause } ==> a.stderr == sub_failed(
                "validate-weights"@,
                cause@,
            )
            &&& check matches WeightsCheck::Unreadable { cause } ==> a.stderr == weights_io(
                weights,
                cause@,
            )
            &&& check matches WeightsCheck::Rejected { cause } ==> a.stderr == weights_reject(
                weights,
                cause@,
            )
            &&& check matches WeightsCheck::Accepted { bytes, files, cap } ==> a.stderr
                == weights_accept(
                weights,
                decimal(bytes as nat),
                decimal(files as nat),
                cap_text(cap),
            )
            &&& a.stdout.len() == 0
            &&& a.usage is Nowhere
        }),
{
}

/// The size cap: `0`, `none` and `unlimited` are no cap at all; nothing said is the cap of
/// twenty-five binary gigabytes; a number above zero is that many bytes; and anything else is no cap
/// setting.
pub proof fn a_weights_cap_is_what_the_setting_spells(setting: Option<Seq<char>>)
    ensures
        setting is None ==> (cap_set(setting) matches WeightsCap::Bytes { bytes } && bytes == 25
            * 1024 * 1024 * 1024),
        setting matches Some(s) ==> {
            &&& cap_set(setting) is Unlimited <==> s == "0"@ || s == "none"@ || s == "unlimited"@
            &&& cap_set(setting) matches WeightsCap::Bytes { bytes } ==> bytes > 0
                && numeral_read(s, u64::MAX as nat) == Ok::<nat, NumeralFault>(bytes as nat)
            &&& cap_set(setting) is Invalid <==> s != "0"@ && s != "none"@ && s != "unlimited"@
                && (numeral_read(s, u64::MAX as nat) is Err || numeral_read(
                s,
                u64::MAX as nat,
            )->Ok_0 == 0)
        },
{
    if setting is Some {
        a_numeral_is_within_its_bound(setting->0, u64::MAX as nat);
    }
}

/// A cap is told by its bytes, and a missing one as `unlimited`.
pub proof fn a_cap_is_told_by_its_bytes(cap: Option<u64>)
    ensures
        cap matches Some(c) ==> cap_text(cap) == decimal(c as nat),
        cap is None ==> cap_text(cap) == "unlimited"@,
{
}

/// The key under which a golden names its model, and the three subcommands by their names.
pub proof fn checks_have_their_names(kind: CheckKind)
    ensures
        PROVENANCE_KEY@ == "model_provenance"@,
        kind is Golden ==> kind.name() == "validate-golden"@,
        kind is Correctness ==> kind.name() == "correctness"@,
        kind is Weights ==> kind.name() == "validate-weights"@,
{
}

/// What a command line is refused for: the flag that is missing, the pin that is set in part, the
/// flag without a value, or the word that is no flag, each named.
pub proof fn what_is_missing_is_named(kind: CheckKind, line: Seq<Seq<char>>, word: Seq<char>)
    requires
        flags_given(kind, line) is Some,
    ensures
        ({
            let f = flags_given(kind, line)->0;
            let alone = check_scan(kind, line + seq![word], 0, no_check_flags());
            &&& kind is Golden && f.golden is None ==> (golden_request(line) matches Err(a)
                && a.stderr == sub_missing("validate-golden"@, "--golden"@))
            &&& kind is Golden && f.golden is Some && pin_of(f.sha256, f.bytes) is Err ==> (
            golden_request(line) matches Err(a) && a.stderr == sub_failed(
                "validate-golden"@,
                pin_of(f.sha256, f.bytes)->Err_0,
            ))
            &&& kind is Correctness && (f.engine is None || f.weights is None || f.golden is None)
                ==> (correctness_request(line) matches Err(a) && a.stderr
                == correctness_missing() && a.usage is Stderr)
            &&& kind is Correctness && f.engine is Some && f.weights is Some && f.golden is Some
                && pin_of(f.sha256, f.bytes) is Err ==> (correctness_request(line) matches Err(a)
                && a.stderr == sub_failed("correctness"@, pin_of(f.sha256, f.bytes)->Err_0))
            &&& kind is Weights && f.weights is None ==> (weights_request(line) matches Err(a)
                && a.stderr == sub_missing("validate-weights"@, "--weights"@))
            &&& asks_for_a_value(kind, word) ==> (alone matches Err(a) && a.stderr
                == sub_needs_value(kind.name(), word))
            &&& !asks_for_a_value(kind, word) && word != "-h"@ && word != "--help"@ && !(kind
                is Golden && word == "--gates-only"@) ==> (alone matches Err(a) && a.stderr
                == sub_unknown_flag(kind.name(), word))
        }),
{
    lemma_flag_names();
    lemma_scan_goes_on(kind, line, seq![word], 0, no_check_flags());
    assert((line + seq![word])[line.len() as int] == word);
}

} // verus!
