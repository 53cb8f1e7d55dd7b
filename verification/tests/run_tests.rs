use scriptrun::run_powershell;
use scriptrun::run_script;
use scriptrun::run_with;
use scriptrun::spawn_settings;
use scriptrun::RunError;
use scriptrun::Strategy;
use scriptrun::StreamMode;

#[test]
fn listing_home_succeeds_with_clean_stderr() {
    let x = run_script("ls $HOME", true).unwrap();
    assert_eq!(x.code, 0);
    assert_eq!(x.stderr, "");
    assert!(x.success());
}

#[test]
fn listing_root_yields_a_nonempty_listing() {
    let x = run_script("ls /", true).unwrap();
    assert_eq!(x.code, 0);
    assert!(!x.stdout.is_empty());
    assert_eq!(x.stderr, "");
}

#[test]
fn nonexistent_command_is_a_result_not_an_error() {
    let x = run_script("nonexistent_cmd_xyz", true).unwrap();
    assert_eq!(x.code, 127);
    assert!(!x.stderr.is_empty());
    assert!(!x.success());
}

#[test]
fn multiline_script_runs_each_line() {
    // Three separate shell statements over three lines, each its own command.
    let script = "printf 'one\\n'\nprintf 'two\\n'\nprintf 'three\\n'";
    let x = run_script(script, true).unwrap();
    assert_eq!(x.code, 0);
    assert_eq!(x.stdout, "one\ntwo\nthree");
    assert_eq!(x.stderr, "");
    assert!(x.success());
}

#[test]
fn captured_streams_come_back_trimmed() {
    let x = run_with(Strategy::PosixShell, "printf 'hi\\n\\n'", false).unwrap();
    assert_eq!(x.code, 0);
    assert_eq!(x.stdout, "hi");
    assert_eq!(x.stderr, "");
    assert!(x.success_under(Strategy::PosixShell));
}

#[test]
fn exit_code_of_the_script_is_kept() {
    let x = run_script("exit 42", false).unwrap();
    assert_eq!(x.code, 42);
    assert!(!x.success());
}

#[test]
fn missing_engine_is_a_launch_failure() {
    // The hosted scripting engine is not installed on this machine, so
    // driving it cannot begin at all.
    let x = run_powershell("echo hello", false);
    assert!(matches!(x, Err(RunError::LaunchFailure(_))), "{x:?}");
}

#[test]
fn spawn_settings_are_fixed() {
    let s = spawn_settings(true);
    assert_eq!(s.runner.as_deref(), Some("bash"));
    assert_eq!(s.input, StreamMode::Inherit);
    assert_eq!(s.output, StreamMode::Inherit);
    assert!(s.exit_on_error);
    assert!(s.print_commands);

    let s = spawn_settings(false);
    assert_eq!(s.runner, None);
    assert_eq!(s.input, StreamMode::Inherit);
    assert_eq!(s.output, StreamMode::Inherit);
    assert!(s.exit_on_error);
    assert!(s.print_commands);
}
