//! What the program does for each subcommand, and what it reports.
use crate::cli_texts::{
    cool_gate_failed, harness_hash_failed, not_implemented, official_elsewhere,
    say_cool_gate_failed, say_harness_hash_failed, say_not_implemented, say_official_elsewhere,
    say_sub_failed, say_unknown_subcommand, sub_failed, unknown_subcommand,
};
use crate::text::same_text;
use vstd::prelude::*;

verus! {

/// Where the usage of a subcommand is printed.
#[derive(Debug, Clone, Copy, PartialEq, Eq, Structural)]
pub enum UsagePlace {
    Nowhere,
    Stdout,
    Stderr,
}

/// What a subcommand reports: its exit status, a line for each stream, and where its usage goes.
#[derive(Debug)]
pub struct Report {
    pub exit: u8,
    pub stdout: String,
    pub stderr: String,
    pub usage: UsagePlace,
}

/// A [`Report`] by its texts.
pub struct ReportView {
    pub exit: u8,
    pub stdout: Seq<char>,
    pub stderr: Seq<char>,
    pub usage: UsagePlace,
}

impl View for Report {
    type V = ReportView;

    open spec fn view(&self) -> ReportView {
        ReportView {
            exit: self.exit,
            stdout: self.stdout@,
            stderr: self.stderr@,
            usage: self.usage,
        }
    }
}

/// A line on the error stream and an exit status.
pub open spec fn complaint(exit: u8, line: Seq<char>) -> ReportView {
    ReportView { exit, stdout: Seq::empty(), stderr: line, usage: UsagePlace::Nowhere }
}

/// A line on the error stream, followed by the usage, for a command line that is refused.
pub open spec fn refusal(line: Seq<char>) -> ReportView {
    ReportView { exit: 2, stdout: Seq::empty(), stderr: line, usage: UsagePlace::Stderr }
}

/// The usage, for a command line that asks for it.
pub open spec fn help() -> ReportView {
    ReportView {
        exit: 0,
        stdout: Seq::empty(),
        stderr: Seq::empty(),
        usage: UsagePlace::Stdout,
    }
}

impl Report {
    /// A line on the error stream and an exit status.
    pub fn complain(exit: u8, line: String) -> (r: Report)
        ensures
            r@ == complaint(exit, line@),
    {
        Report { exit, stdout: String::new(), stderr: line, usage: UsagePlace::Nowhere }
    }

    /// A line on the error stream, followed by the usage.
    pub fn refuse(line: String) -> (r: Report)
        ensures
            r@ == refusal(line@),
    {
        Report { exit: 2, stdout: String::new(), stderr: line, usage: UsagePlace::Stderr }
    }

    /// The usage.
    pub fn usage() -> (r: Report)
        ensures
            r@ == help(),
    {
        Report {
            exit: 0,
            stdout: String::new(),
            stderr: String::new(),
            usage: UsagePlace::Stdout,
        }
    }
}

/// The subcommands that do something.
#[derive(Debug, Clone, Copy, PartialEq, Eq, Structural)]
pub enum Subcommand {
    Iterate,
    Correctness,
    ValidateGolden,
    ValidateWeights,
    ParityDiff,
    PrefillDecompose,
    MeasureJob,
    OverlayTiming,
    HarnessHash,
    CoolGateOnly,
}

/// What the first word of a command line leads to.
#[derive(Debug)]
pub enum Dispatch {
    Run { sub: Subcommand },
    Answer { report: Report },
}

/// A [`Dispatch`] by its texts.
pub enum DispatchView {
    Run { sub: Subcommand },
    Answer { report: ReportView },
}

impl View for Dispatch {
    type V = DispatchView;

    open spec fn view(&self) -> DispatchView {
        match *self {
            Dispatch::Run { sub } => DispatchView::Run { sub },
            Dispatch::Answer { report } => DispatchView::Answer { report: report@ },
        }
    }
}

/// The subcommand that a word names.
pub open spec fn subcommand_named(w: Seq<char>) -> Option<Subcommand> {
    if w == "iterate"@ {
        Some(Subcommand::Iterate)
    } else if w == "correctness"@ {
        Some(Subcommand::Correctness)
    } else if w == "validate-golden"@ {
        Some(Subcommand::ValidateGolden)
    } else if w == "validate-weights"@ {
        Some(Subcommand::ValidateWeights)
    } else if w == "parity-diff"@ {
        Some(Subcommand::ParityDiff)
    } else if w == "prefill-decompose"@ {
        Some(Subcommand::PrefillDecompose)
    } else if w == "measure-job"@ {
        Some(Subcommand::MeasureJob)
    } else if w == "overlay-timing"@ {
        Some(Subcommand::OverlayTiming)
    } else if w == "harness-hash"@ {
        Some(Subcommand::HarnessHash)
    } else if w == "--local-cool-gate-only"@ {
        Some(Subcommand::CoolGateOnly)
    } else {
        None
    }
}

/// What the first word of a command line leads to.
pub open spec fn dispatched(first: Option<&str>) -> DispatchView {
    match first {
        None => DispatchView::Answer { report: refusal(Seq::empty()) },
        Some(w) => match subcommand_named(w@) {
            Some(sub) => DispatchView::Run { sub },
            None => if w@ == "official"@ {
                DispatchView::Answer { report: complaint(2, official_elsewhere()) }
            } else if w@ == "transform"@ || w@ == "submit"@ {
                DispatchView::Answer { report: complaint(2, not_implemented(w@)) }
            } else if w@ == "-h"@ || w@ == "--help"@ || w@ == "help"@ {
                DispatchView::Answer { report: help() }
            } else {
                DispatchView::Answer { report: refusal(unknown_subcommand(w@)) }
            },
        },
    }
}

fn name_subcommand(w: &str) -> (r: Option<Subcommand>)
    ensures
        r == subcommand_named(w@),
{
    if same_text(w, "iterate") {
        Some(Subcommand::Iterate)
    } else if same_text(w, "correctness") {
        Some(Subcommand::Correctness)
    } else if same_text(w, "validate-golden") {
        Some(Subcommand::ValidateGolden)
    } else if same_text(w, "validate-weights") {
        Some(Subcommand::ValidateWeights)
    } else if same_text(w, "parity-diff") {
        Some(Subcommand::ParityDiff)
    } else if same_text(w, "prefill-decompose") {
        Some(Subcommand::PrefillDecompose)
    } else if same_text(w, "measure-job") {
        Some(Subcommand::MeasureJob)
    } else if same_text(w, "overlay-timing") {
        Some(Subcommand::OverlayTiming)
    } else if same_text(w, "harness-hash") {
        Some(Subcommand::HarnessHash)
    } else if same_text(w, "--local-cool-gate-only") {
        Some(Subcommand::CoolGateOnly)
    } else {
        None
    }
}

/// What the first word of a command line leads to: a subcommand, or an answer at once.
pub fn dispatch(first: Option<&str>) -> (r: Dispatch)
    ensures
        r@ == dispatched(first),
{
    let w = match first {
        None => return Dispatch::Answer { report: Report::refuse(String::new()) },
        Some(w) => w,
    };
    match name_subcommand(w) {
        Some(sub) => return Dispatch::Run { sub },
        None => {},
    }
    if same_text(w, "official") {
        return Dispatch::Answer { report: Report::complain(2, say_official_elsewhere()) };
    }
    if same_text(w, "transform") || same_text(w, "submit") {
        return Dispatch::Answer { report: Report::complain(2, say_not_implemented(w)) };
    }
    if same_text(w, "-h") || same_text(w, "--help") || same_text(w, "help") {
        return Dispatch::Answer { report: Report::usage() };
    }
    Dispatch::Answer { report: Report::refuse(say_unknown_subcommand(w)) }
}

/// What a command line that a subcommand refused is answered with.
pub fn refuse_args(sub: &str, cause: &str) -> (r: Report)
    ensures
        r@ == refusal(sub_failed(sub@, cause@)),
{
    Report::refuse(say_sub_failed(sub, cause))
}

/// What a subcommand that ended early is answered with.
pub fn report_failure(sub: &str, exit: u8, cause: &str) -> (r: Report)
    ensures
        r@ == complaint(exit, sub_failed(sub@, cause@)),
{
    Report::complain(exit, say_sub_failed(sub, cause))
}

/// The harness identity of the working directory, or why there is none.
pub open spec fn harness_hash_answer(identity: Result<String, String>) -> ReportView {
    match identity {
        Ok(hash) => ReportView {
            exit: 0,
            stdout: hash@,
            stderr: Seq::empty(),
            usage: UsagePlace::Nowhere,
        },
        Err(cause) => complaint(1, harness_hash_failed(cause@)),
    }
}

/// The harness identity of the working directory, or why there is none.
pub fn run_harness_hash(identity: Result<String, String>) -> (r: Report)
    ensures
        r@ == harness_hash_answer(identity),
{
    match identity {
        Ok(hash) => Report {
            exit: 0,
            stdout: hash,
            stderr: String::new(),
            usage: UsagePlace::Nowhere,
        },
        Err(cause) => Report::complain(1, say_harness_hash_failed(cause.as_str())),
    }
}

/// The phase that the cool gate is asked about.
pub fn cool_gate_phase(setting: Option<&str>) -> (r: String)
    ensures
        r@ == (match setting {
            Some(p) => p@,
            None => "local"@,
        }),
{
    match setting {
        Some(p) => p.to_owned(),
        None => "local".to_owned(),
    }
}

/// What the cool gate on its own is answered with.
pub fn run_cool_gate_only(outcome: Result<(), String>) -> (r: Report)
    ensures
        r@ == (match outcome {
            Ok(_) => ReportView {
                exit: 0,
                stdout: Seq::empty(),
                stderr: Seq::empty(),
                usage: UsagePlace::Nowhere,
            },
            Err(cause) => complaint(1, cool_gate_failed(cause@)),
        }),
{
    match outcome {
        Ok(_) => Report {
            exit: 0,
            stdout: String::new(),
            stderr: String::new(),
            usage: UsagePlace::Nowhere,
        },
        Err(cause) => Report::complain(1, say_cool_gate_failed(cause.as_str())),
    }
}

/// The three shapes of a report: a complaint says its line and exits as told, a refused command
/// line exits with two and shows the usage as an error, and help exits with success and shows the
/// usage alone.
pub proof fn reports_have_three_shapes(exit: u8, line: Seq<char>)
    ensures
        complaint(exit, line).exit == exit,
        complaint(exit, line).stderr == line,
        complaint(exit, line).stdout.len() == 0,
        complaint(exit, line).usage is Nowhere,
        refusal(line).exit == 2,
        refusal(line).stderr == line,
        refusal(line).stdout.len() == 0,
        refusal(line).usage is Stderr,
        help().exit == 0,
        help().stderr.len() == 0,
        help().stdout.len() == 0,
        help().usage is Stdout,
{
}

/// A report and a dispatch are seen as they are.
pub proof fn reports_are_seen_as_they_are(report: Report, dispatch: Dispatch)
    ensures
        report@.exit == report.exit,
        report@.stdout == report.stdout@,
        report@.stderr == report.stderr@,
        report@.usage == report.usage,
        dispatch matches Dispatch::Run { sub } ==> dispatch@ == (DispatchView::Run { sub }),
        dispatch matches Dispatch::Answer { report } ==> dispatch@ == (DispatchView::Answer {
            report: report@,
        }),
{
}

/// What tells the first words apart.
proof fn lemma_subcommand_names()
    ensures
        "iterate"@.len() == 7,
        "correctness"@.len() == 11,
        "validate-golden"@.len() == 15,
        "validate-weights"@.len() == 16,
        "parity-diff"@.len() == 11,
        "prefill-decompose"@.len() == 17,
        "measure-job"@.len() == 11,
        "overlay-timing"@.len() == 14,
        "harness-hash"@.len() == 12,
        "--local-cool-gate-only"@.len() == 22,
        "official"@.len() == 8,
        "transform"@.len() == 9,
        "submit"@.len() == 6,
        "-h"@.len() == 2,
        "--help"@.len() == 6,
        "help"@.len() == 4,
        "correctness"@ != "parity-diff"@,
        "correctness"@ != "measure-job"@,
        "parity-diff"@ != "measure-job"@,
        "submit"@ != "--help"@,
{
    reveal_strlit("iterate");
    reveal_strlit("correctness");
    reveal_strlit("validate-golden");
    reveal_strlit("validate-weights");
    reveal_strlit("parity-diff");
    reveal_strlit("prefill-decompose");
    reveal_strlit("measure-job");
    reveal_strlit("overlay-timing");
    reveal_strlit("harness-hash");
    reveal_strlit("--local-cool-gate-only");
    reveal_strlit("official");
    reveal_strlit("transform");
    reveal_strlit("submit");
    reveal_strlit("-h");
    reveal_strlit("--help");
    reveal_strlit("help");
    assert("correctness"@[0] != "parity-diff"@[0]);
    assert("correctness"@[0] != "measure-job"@[0]);
    assert("parity-diff"@[0] != "measure-job"@[0]);
    assert("submit"@[0] != "--help"@[0]);
}

/// The words that lead to a subcommand, each to its own, and no other word does. Help in its three
/// forms exits with success; every other first word, and none at all, exits with two.
pub proof fn a_first_word_leads_to_one_subcommand(w: &str)
    ensures
        ({
            let d = dispatched(Some(w));
            &&& d == (DispatchView::Run { sub: Subcommand::Iterate }) <==> w@ == "iterate"@
            &&& d == (DispatchView::Run { sub: Subcommand::Correctness }) <==> w@
                == "correctness"@
            &&& d == (DispatchView::Run { sub: Subcommand::ValidateGolden }) <==> w@
                == "validate-golden"@
            &&& d == (DispatchView::Run { sub: Subcommand::ValidateWeights }) <==> w@
                == "validate-weights"@
            &&& d == (DispatchView::Run { sub: Subcommand::ParityDiff }) <==> w@
                == "parity-diff"@
            &&& d == (DispatchView::Run { sub: Subcommand::PrefillDecompose }) <==> w@
                == "prefill-decompose"@
            &&& d == (DispatchView::Run { sub: Subcommand::MeasureJob }) <==> w@
                == "measure-job"@
            &&& d == (DispatchView::Run { sub: Subcommand::OverlayTiming }) <==> w@
                == "overlay-timing"@
            &&& d == (DispatchView::Run { sub: Subcommand::HarnessHash }) <==> w@
                == "harness-hash"@
            &&& d == (DispatchView::Run { sub: Subcommand::CoolGateOnly }) <==> w@
                == "--local-cool-gate-only"@
            &&& w@ == "-h"@ || w@ == "--help"@ || w@ == "help"@ ==> (d
                matches DispatchView::Answer { report } && report.exit == 0 && report.usage
                is Stdout)
            &&& w@ != "-h"@ && w@ != "--help"@ && w@ != "help"@ ==> (d
                matches DispatchView::Answer { report } ==> report.exit == 2)
            &&& w@ == "official"@ ==> (d matches DispatchView::Answer { report } && report.usage
                is Nowhere && report.stderr == official_elsewhere())
            &&& w@ == "transform"@ || w@ == "submit"@ ==> (d
                matches DispatchView::Answer { report } && report.usage is Nowhere
                && report.stderr == "benchctl "@ + w@ + ": not implemented in this wave"@)
            &&& d matches DispatchView::Answer { report } ==> (report.usage is Stderr <==> w@
                != "official"@ && w@ != "transform"@ && w@ != "submit"@ && w@ != "-h"@ && w@
                != "--help"@ && w@ != "help"@)
        }),
        dispatched(None) matches DispatchView::Answer { report } && report.exit == 2
            && report.usage is Stderr && report.stderr.len() == 0,
{
    lemma_subcommand_names();
}

/// The harness identity goes to the output with success, and a missing one to the error stream
/// with the status one.
pub proof fn a_harness_hash_is_printed(identity: Result<String, String>)
    ensures
        identity matches Ok(hash) ==> harness_hash_answer(identity).exit == 0
            && harness_hash_answer(identity).stdout == hash@ && harness_hash_answer(
            identity,
        ).stderr.len() == 0,
        identity matches Err(cause) ==> harness_hash_answer(identity).exit == 1
            && harness_hash_answer(identity).stdout.len() == 0 && harness_hash_answer(
            identity,
        ).stderr == harness_hash_failed(cause@),
        harness_hash_answer(identity).usage is Nowhere,
{
}

} // verus!
