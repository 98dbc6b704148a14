//! The environments that sandboxes run in: how one is created, how a
//! command is run inside it, and how it is released. Each environment is a
//! container of its own, without network, with a file system that cannot
//! be written to but for the one working directory, and with its own
//! processes only. This module writes the command lines; it runs nothing.

use crate::decimal::{decimal, decimal_digits, lemma_decimal_is_injective};
use crate::limits::Limits;
use crate::toolchain::{Command, CommandView};
use vstd::prelude::*;
use vstd::string::StringExecFns;

verus! {

/// The program that manages the environments.
pub const RUNTIME: &'static str = "docker";

/// The image that every environment starts from. It holds the toolchains.
pub const IMAGE: &'static str = "playground";

/// Where the working directory appears inside the environment.
pub const MOUNT_POINT: &'static str = "/playground";

/// What the name of every environment starts with.
pub const NAME_PREFIX: &'static str = "playground-";

/// How long a release may take that asks the environment to stop.
pub const GRACEFUL_RELEASE_MS: u64 = 2_000;

/// How long a release may take that removes the environment by force.
pub const FORCED_RELEASE_MS: u64 = 5_000;

/// The name of the environment of the sandbox `id`.
pub open spec fn environment_name(id: u64) -> Seq<char> {
    NAME_PREFIX@ + decimal_digits(id as nat)
}

/// A time in whole seconds, rounded up.
pub open spec fn whole_seconds(ms: u64) -> nat {
    if ms % 1000 == 0 {
        (ms / 1000) as nat
    } else {
        (ms / 1000 + 1) as nat
    }
}

/// The arguments that create the environment of the sandbox `id` around
/// the working directory `workdir`: detached, removed when it stops,
/// without network and without privileges, read-only but for the working
/// directory, and held to the limits on processes, memory and processor
/// time.
pub open spec fn provision_words(id: u64, workdir: Seq<char>, limits: Limits) -> Seq<Seq<char>> {
    seq![
        "run"@,
        "--detach"@,
        "--rm"@,
        "--name"@,
        environment_name(id),
        "--network"@,
        "none"@,
        "--cap-drop"@,
        "ALL"@,
        "--security-opt"@,
        "no-new-privileges"@,
        "--read-only"@,
        "--pids-limit"@,
        decimal_digits(limits.processes as nat),
        "--memory"@,
        decimal_digits(limits.memory_bytes as nat),
        "--ulimit"@,
        "cpu="@ + decimal_digits(whole_seconds(limits.cpu_ms)),
        "--volume"@,
        workdir + ":"@ + MOUNT_POINT@,
        "--workdir"@,
        MOUNT_POINT@,
        IMAGE@,
        "sleep"@,
        "infinity"@,
    ]
}

/// The arguments that set the variables of a command, in their order.
pub open spec fn variable_words(env: Seq<(Seq<char>, Seq<char>)>) -> Seq<Seq<char>>
    decreases env.len(),
{
    if env.len() == 0 {
        seq![]
    } else {
        variable_words(env.drop_last()) + seq!["--env"@, env.last().0 + "="@ + env.last().1]
    }
}

/// The arguments that run `inner` inside the environment of the sandbox
/// `id`.
pub open spec fn enter_words(id: u64, inner: CommandView) -> Seq<Seq<char>> {
    seq!["exec"@] + variable_words(inner.env) + seq![environment_name(id), inner.program]
        + inner.args
}

/// The arguments that release the environment of the sandbox `id`: a
/// request to stop, or a removal by force.
pub open spec fn release_words(id: u64, force: bool) -> Seq<Seq<char>> {
    if force {
        seq!["rm"@, "--force"@, "--volumes"@, environment_name(id)]
    } else {
        seq![
            "stop"@,
            "--time"@,
            decimal_digits(whole_seconds(GRACEFUL_RELEASE_MS)),
            environment_name(id),
        ]
    }
}

/// The arguments that end every process in the environment of the
/// sandbox `id` but the one that keeps the environment alive.
pub open spec fn terminate_words(id: u64) -> Seq<Seq<char>> {
    seq!["exec"@, environment_name(id), "kill"@, "-KILL"@, "-1"@]
}

/// The arguments that read what the processes in the environment of the
/// sandbox `id` use: memory, process count and processor time, in this
/// order.
pub open spec fn sample_words(id: u64) -> Seq<Seq<char>> {
    seq![
        "exec"@,
        environment_name(id),
        "cat"@,
        "/sys/fs/cgroup/memory.current"@,
        "/sys/fs/cgroup/pids.current"@,
        "/sys/fs/cgroup/cpu.stat"@,
    ]
}

/// A command of the runtime with the given arguments.
pub open spec fn runtime_command(args: Seq<Seq<char>>) -> CommandView {
    CommandView { program: RUNTIME@, args, env: Seq::empty() }
}

/// The name of the environment of the sandbox `id`.
pub fn name_of(id: u64) -> (r: String)
    ensures
        r@ == environment_name(id),
{
    let digits = decimal(id);
    String::from_str(NAME_PREFIX).concat(digits.as_str())
}

/// A time in whole seconds, rounded up.
pub fn seconds(ms: u64) -> (r: u64)
    ensures
        r == whole_seconds(ms),
{
    if ms % 1000 == 0 {
        ms / 1000
    } else {
        ms / 1000 + 1
    }
}

fn push_word(words: &mut Vec<String>, word: String)
    ensures
        final(words).deep_view() == old(words).deep_view().push(word@),
{
    words.push(word);
    assert(words.deep_view() =~= old(words).deep_view().push(word@));
}

fn push_str(words: &mut Vec<String>, word: &str)
    ensures
        final(words).deep_view() == old(words).deep_view().push(word@),
{
    push_word(words, word.to_owned());
}

fn runtime(args: Vec<String>) -> (r: Command)
    ensures
        r@ == runtime_command(args.deep_view()),
{
    let env: Vec<(String, String)> = Vec::new();
    assert(env.deep_view() =~= Seq::<(Seq<char>, Seq<char>)>::empty());
    Command { program: RUNTIME.to_owned(), args, env }
}

/// The command that creates the environment of the sandbox `id` around
/// the working directory `workdir`.
pub fn provision_command(id: u64, workdir: &str, limits: &Limits) -> (r: Command)
    ensures
        r@ == runtime_command(provision_words(id, workdir@, *limits)),
{
    let mut args: Vec<String> = Vec::new();
    assert(args.deep_view() =~= Seq::<Seq<char>>::empty());
    push_str(&mut args, "run");
    push_str(&mut args, "--detach");
    push_str(&mut args, "--rm");
    push_str(&mut args, "--name");
    push_word(&mut args, name_of(id));
    push_str(&mut args, "--network");
    push_str(&mut args, "none");
    push_str(&mut args, "--cap-drop");
    push_str(&mut args, "ALL");
    push_str(&mut args, "--security-opt");
    push_str(&mut args, "no-new-privileges");
    push_str(&mut args, "--read-only");
    push_str(&mut args, "--pids-limit");
    push_word(&mut args, decimal(limits.processes));
    push_str(&mut args, "--memory");
    push_word(&mut args, decimal(limits.memory_bytes));
    push_str(&mut args, "--ulimit");
    let cpu = decimal(seconds(limits.cpu_ms));
    push_word(&mut args, String::from_str("cpu=").concat(cpu.as_str()));
    push_str(&mut args, "--volume");
    push_word(&mut args, String::from_str(workdir).concat(":").concat(MOUNT_POINT));
    push_str(&mut args, "--workdir");
    push_str(&mut args, MOUNT_POINT);
    push_str(&mut args, IMAGE);
    push_str(&mut args, "sleep");
    push_str(&mut args, "infinity");
    assert(args.deep_view() =~= provision_words(id, workdir@, *limits));
    runtime(args)
}

/// The command that runs `inner` inside the environment of the sandbox
/// `id`, with the variables of `inner` set for it.
pub fn enter_command(id: u64, inner: &Command) -> (r: Command)
    ensures
        r@ == runtime_command(enter_words(id, inner@)),
{
    let mut args: Vec<String> = Vec::new();
    assert(args.deep_view() =~= Seq::<Seq<char>>::empty());
    push_str(&mut args, "exec");
    let ghost env = inner.env.deep_view();
    let mut i: usize = 0;
    assert(env.take(0) =~= Seq::empty());
    while i < inner.env.len()
        invariant
            i <= inner.env.len(),
            env == inner.env.deep_view(),
            env.len() == inner.env.len(),
            args.deep_view() == seq!["exec"@] + variable_words(env.take(i as int)),
        decreases inner.env.len() - i,
    {
        let pair = &inner.env[i];
        let setting = String::from_str(pair.0.as_str()).concat("=").concat(pair.1.as_str());
        proof {
            let upto = env.take(i + 1);
            assert(upto.drop_last() =~= env.take(i as int));
            assert(upto.last() == env[i as int]);
            assert(env[i as int] == (pair.0@, pair.1@));
        }
        let ghost before = args.deep_view();
        push_str(&mut args, "--env");
        push_word(&mut args, setting);
        assert(args.deep_view() =~= before + seq!["--env"@, setting@]);
        assert(args.deep_view() =~= seq!["exec"@] + variable_words(env.take(i + 1)));
        i += 1;
    }
    assert(env.take(i as int) =~= env);
    push_word(&mut args, name_of(id));
    push_word(&mut args, inner.program.clone());
    let ghost head = args.deep_view();
    let mut j: usize = 0;
    while j < inner.args.len()
        invariant
            j <= inner.args.len(),
            args.deep_view() == head + inner.args.deep_view().take(j as int),
        decreases inner.args.len() - j,
    {
        push_word(&mut args, inner.args[j].clone());
        assert(args.deep_view() =~= head + inner.args.deep_view().take(j + 1));
        j += 1;
    }
    assert(inner.args.deep_view().take(j as int) =~= inner.args.deep_view());
    assert(args.deep_view() =~= enter_words(id, inner@));
    runtime(args)
}

/// The command that releases the environment of the sandbox `id`.
pub fn release_command(id: u64, force: bool) -> (r: Command)
    ensures
        r@ == runtime_command(release_words(id, force)),
{
    let mut args: Vec<String> = Vec::new();
    assert(args.deep_view() =~= Seq::<Seq<char>>::empty());
    if force {
        push_str(&mut args, "rm");
        push_str(&mut args, "--force");
        push_str(&mut args, "--volumes");
    } else {
        push_str(&mut args, "stop");
        push_str(&mut args, "--time");
        push_word(&mut args, decimal(seconds(GRACEFUL_RELEASE_MS)));
    }
    push_word(&mut args, name_of(id));
    assert(args.deep_view() =~= release_words(id, force));
    runtime(args)
}

/// The command that ends the command that runs in the environment of the
/// sandbox `id`, and all its descendants.
pub fn terminate_command(id: u64) -> (r: Command)
    ensures
        r@ == runtime_command(terminate_words(id)),
{
    let mut args: Vec<String> = Vec::new();
    assert(args.deep_view() =~= Seq::<Seq<char>>::empty());
    push_str(&mut args, "exec");
    push_word(&mut args, name_of(id));
    push_str(&mut args, "kill");
    push_str(&mut args, "-KILL");
    push_str(&mut args, "-1");
    assert(args.deep_view() =~= terminate_words(id));
    runtime(args)
}

/// The command that reads what the processes in the environment of the
/// sandbox `id` use.
pub fn sample_command(id: u64) -> (r: Command)
    ensures
        r@ == runtime_command(sample_words(id)),
{
    let mut args: Vec<String> = Vec::new();
    assert(args.deep_view() =~= Seq::<Seq<char>>::empty());
    push_str(&mut args, "exec");
    push_word(&mut args, name_of(id));
    push_str(&mut args, "cat");
    push_str(&mut args, "/sys/fs/cgroup/memory.current");
    push_str(&mut args, "/sys/fs/cgroup/pids.current");
    push_str(&mut args, "/sys/fs/cgroup/cpu.stat");
    assert(args.deep_view() =~= sample_words(id));
    runtime(args)
}

/// Two sandboxes with different identifiers have environments with
/// different names.
pub proof fn lemma_names_differ(a: u64, b: u64)
    requires
        a != b,
    ensures
        environment_name(a) != environment_name(b),
{
    if environment_name(a) == environment_name(b) {
        let n = NAME_PREFIX@.len() as int;
        let x = decimal_digits(a as nat);
        let y = decimal_digits(b as nat);
        assert(x =~= environment_name(a).subrange(n, n + x.len()));
        assert(environment_name(a).len() == n + x.len());
        assert(environment_name(b).len() == n + y.len());
        assert(y =~= environment_name(b).subrange(n, n + y.len()));
        lemma_decimal_is_injective(a as nat, b as nat);
    }
}

} // verus!
