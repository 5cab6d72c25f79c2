//! The shape of one external-tool invocation and its outcome, and the
//! transcript lines that echo an invocation and report its result.

use vstd::prelude::*;
use vstd::string::StringExecFns;

use crate::text::{concat2, lines_match, trim_spec, trim_string};

verus! {

/// One external tool invocation: a tool name and a discrete argument vector.
pub struct CommandSpec {
    pub name: String,
    pub args: Vec<String>,
}

/// What running an external tool produced. Both failure forms are data;
/// neither is ever raised as a fault.
pub enum ProcessOutcome {
    /// The process started and exited. `success` holds exactly when the exit
    /// status was zero; `stderr` is the captured standard-error text.
    Exited { success: bool, stderr: String },
    /// The process could not be started (tool not found, launch error).
    LaunchFailure { message: String },
}

/// The outcome counts as success: the process exited with status zero.
pub open spec fn outcome_ok(o: ProcessOutcome) -> bool {
    match o {
        ProcessOutcome::Exited { success, .. } => success,
        ProcessOutcome::LaunchFailure { .. } => false,
    }
}

/// The views of a sequence of strings.
pub open spec fn args_views(args: Seq<String>) -> Seq<Seq<char>> {
    Seq::new(args.len(), |i: int| args[i]@)
}

/// The arguments joined, each preceded by one space.
pub open spec fn spaced_args(args: Seq<Seq<char>>) -> Seq<char>
    decreases args.len(),
{
    if args.len() == 0 {
        Seq::empty()
    } else {
        spaced_args(args.drop_last()) + seq![' '] + args.last()
    }
}

/// The transcript line that echoes an invocation: `$ name arg ...`.
pub open spec fn echo_line_spec(name: Seq<char>, args: Seq<Seq<char>>) -> Seq<char> {
    "$ "@ + name + spaced_args(args)
}

/// The echo line of a command.
pub open spec fn echo_of(c: CommandSpec) -> Seq<char> {
    echo_line_spec(c.name@, args_views(c.args@))
}

/// Two commands with the same name and the same arguments.
pub open spec fn cmd_matches(c: CommandSpec, name: Seq<char>, args: Seq<Seq<char>>) -> bool {
    c.name@ == name && args_views(c.args@) == args
}

/// Builds the echo line of a command.
pub fn echo_line(c: &CommandSpec) -> (r: String)
    ensures
        r@ == echo_of(*c),
{
    let mut r = concat2("$ ", c.name.as_str());
    proof {
        assert(args_views(c.args@).take(0) =~= Seq::<Seq<char>>::empty());
        assert("$ "@ + c.name@ + spaced_args(Seq::<Seq<char>>::empty()) =~= "$ "@ + c.name@);
    }
    let mut i: usize = 0;
    while i < c.args.len()
        invariant
            i <= c.args@.len(),
            r@ == echo_line_spec(c.name@, args_views(c.args@).take(i as int)),
        decreases c.args@.len() - i,
    {
        r.append(" ");
        r.append(c.args[i].as_str());
        proof {
            reveal_strlit(" ");
            let av = args_views(c.args@);
            assert(av.take(i + 1 as int).drop_last() =~= av.take(i as int));
            assert(av.take(i + 1 as int).last() == c.args@[i as int]@);
            assert(" "@ =~= seq![' ']);
            assert(echo_line_spec(c.name@, av.take(i as int)) + " "@ + c.args@[i as int]@
                =~= echo_line_spec(c.name@, av.take(i + 1 as int)));
        }
        i += 1;
    }
    proof {
        assert(args_views(c.args@).take(c.args@.len() as int) =~= args_views(c.args@));
    }
    r
}

/// The transcript lines reporting one outcome: a success marker, an error
/// line holding the trimmed stderr when it is not empty, or the launch
/// failure message.
pub open spec fn result_lines_spec(o: ProcessOutcome) -> Seq<Seq<char>> {
    match o {
        ProcessOutcome::Exited { success: true, .. } => seq![
            "\u{2713} Command completed successfully"@,
        ],
        ProcessOutcome::Exited { success: false, stderr } => {
            if trim_spec(stderr@).len() == 0 {
                Seq::empty()
            } else {
                seq!["Error: "@ + trim_spec(stderr@)]
            }
        },
        ProcessOutcome::LaunchFailure { message } => seq!["Error: "@ + message@],
    }
}

/// Builds the transcript lines reporting one outcome.
pub fn result_lines(o: &ProcessOutcome) -> (lines: Vec<String>)
    ensures
        lines_match(lines@, result_lines_spec(*o)),
{
    let mut lines: Vec<String> = Vec::new();
    match o {
        ProcessOutcome::Exited { success, stderr } => {
            if *success {
                lines.push("\u{2713} Command completed successfully".to_owned());
            } else {
                let t = trim_string(stderr.as_str());
                if !t.as_str().is_empty() {
                    lines.push(concat2("Error: ", t.as_str()));
                }
            }
        },
        ProcessOutcome::LaunchFailure { message } => {
            lines.push(concat2("Error: ", message.as_str()));
        },
    }
    lines
}

} // verus!
