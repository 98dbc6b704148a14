//! The mapping from what a request chooses to the command that is run
//! inside the environment. It is a table: nothing here looks at the
//! environment or at the source.

use crate::model::{Channel, CompileTarget, Mode, Operation, Request, RequestView};
use vstd::prelude::*;

verus! {

/// Where the submitted source is written, below the working directory.
pub const SOURCE_FILE: &'static str = "src/main.rs";

/// Where a compile operation leaves its output, below the working
/// directory.
pub const ARTIFACT_FILE: &'static str = "compilation";

/// The variable through which the toolchain is told which channel to use.
pub const CHANNEL_VARIABLE: &'static str = "RUSTUP_TOOLCHAIN";

/// A command line with the variables that are set for it.
#[derive(Clone, Debug, PartialEq, Eq)]
pub struct Command {
    pub program: String,
    pub args: Vec<String>,
    pub env: Vec<(String, String)>,
}

pub struct CommandView {
    pub program: Seq<char>,
    pub args: Seq<Seq<char>>,
    pub env: Seq<(Seq<char>, Seq<char>)>,
}

impl View for Command {
    type V = CommandView;

    open spec fn view(&self) -> CommandView {
        CommandView {
            program: self.program@,
            args: self.args.deep_view(),
            env: self.env.deep_view(),
        }
    }
}

/// The name by which the toolchain knows a channel.
pub open spec fn channel_word(channel: Channel) -> Seq<char> {
    match channel {
        Channel::Stable => "stable"@,
        Channel::Beta => "beta"@,
        Channel::Nightly => "nightly"@,
    }
}

/// The program that carries out an operation.
pub open spec fn program_word(operation: Operation) -> Seq<char> {
    match operation {
        Operation::Compile => "cargo"@,
        Operation::Execute => "cargo"@,
        Operation::Format => "rustfmt"@,
    }
}

/// The flag that asks for a kind of compiler output.
pub open spec fn emit_word(target: CompileTarget) -> Seq<char> {
    match target {
        CompileTarget::Assembly => "--emit=asm"@,
        CompileTarget::LlvmIr => "--emit=llvm-ir"@,
    }
}

/// The arguments that select the build profile.
pub open spec fn profile_words(mode: Mode) -> Seq<Seq<char>> {
    match mode {
        Mode::Debug => seq![],
        Mode::Release => seq!["--release"@],
    }
}

/// The arguments that make the compiler build the test harness.
pub open spec fn harness_words(tests: bool) -> Seq<Seq<char>> {
    if tests {
        seq!["--test"@]
    } else {
        seq![]
    }
}

/// The arguments of the command for the given choices.
pub open spec fn selected_args(
    mode: Mode,
    target: Option<CompileTarget>,
    tests: bool,
    operation: Operation,
) -> Seq<Seq<char>> {
    match operation {
        Operation::Compile => seq!["rustc"@] + profile_words(mode) + seq!["--"@] + harness_words(
            tests,
        ) + seq!["-o"@, ARTIFACT_FILE@, emit_word(target->Some_0)],
        Operation::Execute => seq![
            if tests {
                "test"@
            } else {
                "run"@
            },
        ] + profile_words(mode),
        Operation::Format => seq![SOURCE_FILE@],
    }
}

/// The command for the given choices.
pub open spec fn selected(
    channel: Channel,
    mode: Mode,
    target: Option<CompileTarget>,
    tests: bool,
    operation: Operation,
) -> CommandView {
    CommandView {
        program: program_word(operation),
        args: selected_args(mode, target, tests, operation),
        env: seq![(CHANNEL_VARIABLE@, channel_word(channel))],
    }
}

/// The command for a request. A format request names no channel and no
/// mode: it is run on the stable channel.
pub open spec fn selected_for(request: RequestView) -> CommandView {
    match request {
        RequestView::Compile(r) => selected(
            r.channel,
            r.mode,
            Some(r.target),
            r.tests,
            Operation::Compile,
        ),
        RequestView::Execute(r) => selected(r.channel, r.mode, None, r.tests, Operation::Execute),
        RequestView::Format(_) => selected(
            Channel::Stable,
            Mode::Debug,
            None,
            false,
            Operation::Format,
        ),
    }
}

/// The name by which the toolchain knows a channel.
pub fn channel_name(channel: Channel) -> (r: &'static str)
    ensures
        r@ == channel_word(channel),
{
    match channel {
        Channel::Stable => "stable",
        Channel::Beta => "beta",
        Channel::Nightly => "nightly",
    }
}

/// The flag that asks for a kind of compiler output.
pub fn emit_flag(target: CompileTarget) -> (r: &'static str)
    ensures
        r@ == emit_word(target),
{
    match target {
        CompileTarget::Assembly => "--emit=asm",
        CompileTarget::LlvmIr => "--emit=llvm-ir",
    }
}

fn push_word(words: &mut Vec<String>, word: &str)
    ensures
        final(words).deep_view() == old(words).deep_view().push(word@),
{
    words.push(word.to_owned());
    assert(words.deep_view() =~= old(words).deep_view().push(word@));
}

/// Selects the command for an operation. A target belongs to a compile
/// operation and to no other: the caller sees to that.
pub fn select(
    channel: Channel,
    mode: Mode,
    target: Option<CompileTarget>,
    tests: bool,
    operation: Operation,
) -> (command: Command)
    requires
        target is Some <==> operation == Operation::Compile,
    ensures
        command@ == selected(channel, mode, target, tests, operation),
{
    let mut args: Vec<String> = Vec::new();
    assert(args.deep_view() =~= Seq::<Seq<char>>::empty());
    let program = match operation {
        Operation::Compile => {
            push_word(&mut args, "rustc");
            if mode == Mode::Release {
                push_word(&mut args, "--release");
            }
            push_word(&mut args, "--");
            if tests {
                push_word(&mut args, "--test");
            }
            push_word(&mut args, "-o");
            push_word(&mut args, ARTIFACT_FILE);
            match target {
                Some(target) => push_word(&mut args, emit_flag(target)),
                None => {},
            }
            "cargo"
        },
        Operation::Execute => {
            if tests {
                push_word(&mut args, "test");
            } else {
                push_word(&mut args, "run");
            }
            if mode == Mode::Release {
                push_word(&mut args, "--release");
            }
            "cargo"
        },
        Operation::Format => {
            push_word(&mut args, SOURCE_FILE);
            "rustfmt"
        },
    };
    assert(args.deep_view() =~= selected_args(mode, target, tests, operation));
    let mut env: Vec<(String, String)> = Vec::new();
    env.push((CHANNEL_VARIABLE.to_owned(), channel_name(channel).to_owned()));
    assert(env.deep_view() =~= seq![(CHANNEL_VARIABLE@, channel_word(channel))]);
    Command { program: program.to_owned(), args, env }
}

/// Selects the command for a request.
pub fn select_for(request: &Request) -> (command: Command)
    ensures
        command@ == selected_for(request@),
{
    match request {
        Request::Compile(r) => select(
            r.channel,
            r.mode,
            Some(r.target),
            r.tests,
            Operation::Compile,
        ),
        Request::Execute(r) => select(r.channel, r.mode, None, r.tests, Operation::Execute),
        Request::Format(_) => select(
            Channel::Stable,
            Mode::Debug,
            None,
            false,
            Operation::Format,
        ),
    }
}

} // verus!
