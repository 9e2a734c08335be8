use minimizer::command::{
    check_if_valid_rust, text_contains, CommandBuilder, CommandResults, CompileCommand,
    LaunchReport, TIMEOUT_EXIT_CODE,
};

fn finished(code: Option<i32>) -> LaunchReport {
    LaunchReport::Finished {
        code,
        stdout: "out".to_string(),
        stderr: "err".to_string(),
    }
}

#[test]
fn zero_exit_classifies_as_success() {
    let r = CommandResults::classify(finished(Some(0)));
    assert!(r.clone().is_ok());
    assert!(!r.clone().has_launch_failed());
    assert!(!r.has_timedout());
}

#[test]
fn nonzero_exit_is_still_a_completed_run() {
    let r = CommandResults::classify(finished(Some(1)));
    assert!(r.is_ok());
}

#[test]
fn missing_exit_code_classifies_as_launch_failure() {
    let r = CommandResults::classify(finished(None));
    assert!(r.clone().has_launch_failed());
    assert!(!r.clone().has_timedout());
    assert_eq!(r.clone().stdout(), "out");
    assert_eq!(r.stderr(), "err");
}

#[test]
fn spawn_failure_classifies_as_launch_failure_with_empty_output() {
    let r = CommandResults::classify(LaunchReport::SpawnFailure);
    assert!(r.clone().has_launch_failed());
    assert!(!r.clone().has_timedout());
    assert_eq!(r.clone().stdout(), "");
    assert_eq!(r.stderr(), "");
}

#[test]
fn sentinel_exit_code_classifies_as_timeout() {
    let r = CommandResults::classify(finished(Some(TIMEOUT_EXIT_CODE)));
    assert!(r.clone().has_timedout());
    assert!(!r.clone().has_launch_failed());
    assert!(!r.is_ok());
}

#[test]
fn builder_collects_the_command_line() {
    let mut c = CommandBuilder::new("rustc".to_string());
    c.arg("--version".to_string());
    c.arg("-v".to_string());
    c.env("RUST_BACKTRACE".to_string(), "1".to_string());
    c.set_dir("/work".to_string());
    assert_eq!(c.exec_path, "rustc");
    assert_eq!(c.args, vec!["--version".to_string(), "-v".to_string()]);
    assert_eq!(
        c.env,
        vec![("RUST_BACKTRACE".to_string(), "1".to_string())]
    );
    assert_eq!(c.dir, Some("/work".to_string()));
    assert_eq!(c.display(), "rustc --version -v");
}

#[test]
fn timeout_wrapper_prefixes_the_command() {
    let c = CommandBuilder::new_with_timeout("./prog".to_string(), "2.5".to_string());
    assert_eq!(c.exec_path, "timeout");
    assert_eq!(c.args, vec!["2.5".to_string(), "./prog".to_string()]);
    assert_eq!(c.display(), "timeout 2.5 ./prog");
}

#[test]
fn compile_command_plans_the_rustc_invocation() {
    let c = CompileCommand::compile_cmd("/tmp/tmp42");
    assert_eq!(c.cmd.exec_path, "rustc");
    assert_eq!(
        c.cmd.args,
        vec![
            "/tmp/tmp42.rs".to_string(),
            "--edition".to_string(),
            "2021".to_string(),
            "-o".to_string(),
            "/tmp/tmp42.a".to_string(),
        ]
    );
    assert_eq!(c.src.path, "/tmp/tmp42.rs");
    assert_eq!(c.clone().exec_file(), "/tmp/tmp42.a");
    let ext = CompileCommand::compile_cmd_ext("/tmp/tmp42", "bin");
    assert_eq!(ext.exec_path, "/tmp/tmp42.bin");
}

#[test]
fn compile_command_forwards_builder_edits() {
    let mut c = CompileCommand::compile_cmd_ext("/tmp/x", "a");
    c.arg("-O".to_string());
    c.env("K".to_string(), "V".to_string());
    c.set_dir("/d".to_string());
    assert_eq!(c.cmd.args.last().unwrap().as_str(), "-O");
    assert_eq!(c.cmd.env, vec![("K".to_string(), "V".to_string())]);
    assert_eq!(c.cmd.dir, Some("/d".to_string()));
    assert_eq!(
        c.display(),
        "rustc /tmp/x.rs --edition 2021 -o /tmp/x.a -O"
    );
}

#[test]
fn text_contains_finds_runs() {
    assert!(text_contains("a big error: oops", "error"));
    assert!(!text_contains("all quiet", "error"));
    assert!(text_contains("anything", ""));
    assert!(!text_contains("", "x"));
    assert!(text_contains("xyx", "yx"));
}

#[test]
fn rustc_diagnostics_decide_validity() {
    assert!(check_if_valid_rust("warning: unused variable").is_ok());
    assert_eq!(
        check_if_valid_rust("error[E0308]: mismatched types"),
        Err("rustc error".to_string())
    );
    assert!(check_if_valid_rust("").is_ok());
}
