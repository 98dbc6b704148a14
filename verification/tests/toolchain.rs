use playground::model::{
    Channel, CompileRequest, CompileTarget, ExecuteRequest, FormatRequest, Mode, Operation,
    Request,
};
use playground::toolchain::{
    channel_name, emit_flag, select, select_for, Command, ARTIFACT_FILE, CHANNEL_VARIABLE,
    SOURCE_FILE,
};
use playground::wire::parse_channel;

fn words(list: &[&str]) -> Vec<String> {
    list.iter().map(|w| w.to_string()).collect()
}

fn channel_setting(name: &str) -> Vec<(String, String)> {
    vec![("RUSTUP_TOOLCHAIN".to_string(), name.to_string())]
}

#[test]
fn compile_debug_assembly() {
    let command =
        select(Channel::Stable, Mode::Debug, Some(CompileTarget::Assembly), false, Operation::Compile);
    assert_eq!(
        command,
        Command {
            program: "cargo".to_string(),
            args: words(&["rustc", "--", "-o", "compilation", "--emit=asm"]),
            env: channel_setting("stable"),
        }
    );
}

#[test]
fn compile_release_llvm_ir_with_tests() {
    let command =
        select(Channel::Nightly, Mode::Release, Some(CompileTarget::LlvmIr), true, Operation::Compile);
    assert_eq!(
        command,
        Command {
            program: "cargo".to_string(),
            args: words(&[
                "rustc",
                "--release",
                "--",
                "--test",
                "-o",
                "compilation",
                "--emit=llvm-ir"
            ]),
            env: channel_setting("nightly"),
        }
    );
}

#[test]
fn execute_runs_or_tests() {
    let run = select(Channel::Beta, Mode::Debug, None, false, Operation::Execute);
    assert_eq!(
        run,
        Command {
            program: "cargo".to_string(),
            args: words(&["run"]),
            env: channel_setting("beta"),
        }
    );
    let test = select(Channel::Beta, Mode::Release, None, true, Operation::Execute);
    assert_eq!(test.args, words(&["test", "--release"]));
    let run_release = select(Channel::Stable, Mode::Release, None, false, Operation::Execute);
    assert_eq!(run_release.args, words(&["run", "--release"]));
}

#[test]
fn format_names_the_source_file() {
    let command = select(Channel::Stable, Mode::Debug, None, false, Operation::Format);
    assert_eq!(
        command,
        Command {
            program: "rustfmt".to_string(),
            args: words(&["src/main.rs"]),
            env: channel_setting("stable"),
        }
    );
}

#[test]
fn every_choice_has_a_command() {
    for channel in [Channel::Stable, Channel::Beta, Channel::Nightly] {
        for mode in [Mode::Debug, Mode::Release] {
            for tests in [false, true] {
                for target in [CompileTarget::Assembly, CompileTarget::LlvmIr] {
                    let c = select(channel, mode, Some(target), tests, Operation::Compile);
                    assert_eq!(c.args[0], "rustc");
                    assert_eq!(c.args.last().map(|s| s.as_str()), Some(emit_flag(target)));
                    assert_eq!(c.args.contains(&"--release".to_string()), mode == Mode::Release);
                    assert_eq!(c.args.contains(&"--test".to_string()), tests);
                    assert_eq!(c.env, channel_setting(channel_name(channel)));
                }
                let e = select(channel, mode, None, tests, Operation::Execute);
                assert_eq!(e.args[0], if tests { "test" } else { "run" });
                assert_eq!(e.args.len(), if mode == Mode::Release { 2 } else { 1 });
                let f = select(channel, mode, None, tests, Operation::Format);
                assert_eq!(f.args, words(&["src/main.rs"]));
            }
        }
    }
}

#[test]
fn select_for_reads_the_request() {
    let compile = Request::Compile(CompileRequest {
        target: CompileTarget::LlvmIr,
        channel: Channel::Beta,
        mode: Mode::Release,
        tests: false,
        code: String::new(),
    });
    assert_eq!(
        select_for(&compile),
        select(Channel::Beta, Mode::Release, Some(CompileTarget::LlvmIr), false, Operation::Compile)
    );
    let execute = Request::Execute(ExecuteRequest {
        channel: Channel::Nightly,
        mode: Mode::Debug,
        tests: true,
        code: String::new(),
    });
    assert_eq!(
        select_for(&execute),
        select(Channel::Nightly, Mode::Debug, None, true, Operation::Execute)
    );
    let format = Request::Format(FormatRequest { code: String::new() });
    assert_eq!(
        select_for(&format),
        select(Channel::Stable, Mode::Debug, None, false, Operation::Format)
    );
    assert_eq!(compile.operation(), Operation::Compile);
    assert_eq!(execute.operation(), Operation::Execute);
    assert_eq!(format.operation(), Operation::Format);
}

#[test]
fn channel_names_are_the_names_that_requests_use() {
    for channel in [Channel::Stable, Channel::Beta, Channel::Nightly] {
        assert_eq!(parse_channel(channel_name(channel)), Ok(channel));
    }
    assert_eq!(channel_name(Channel::Stable), "stable");
    assert_eq!(channel_name(Channel::Beta), "beta");
    assert_eq!(channel_name(Channel::Nightly), "nightly");
}

#[test]
fn the_fixed_names() {
    assert_eq!(SOURCE_FILE, "src/main.rs");
    assert_eq!(ARTIFACT_FILE, "compilation");
    assert_eq!(CHANNEL_VARIABLE, "RUSTUP_TOOLCHAIN");
    assert_eq!(emit_flag(CompileTarget::Assembly), "--emit=asm");
    assert_eq!(emit_flag(CompileTarget::LlvmIr), "--emit=llvm-ir");
}
