use scriptrun::ProcessOutput;
use scriptrun::Strategy;

#[test]
fn display_is_the_ordered_triple() {
    let p = ProcessOutput::new(0, "a".to_string(), "b".to_string());
    assert_eq!(p.display(), "<0, a, b>");
}

#[test]
fn display_renders_negative_and_extreme_codes() {
    let p = ProcessOutput::new(-7, "out".to_string(), "err".to_string());
    assert_eq!(p.display(), "<-7, out, err>");

    let p = ProcessOutput::new(i32::MAX, String::new(), String::new());
    assert_eq!(p.display(), "<2147483647, , >");

    let p = ProcessOutput::new(i32::MIN, String::new(), String::new());
    assert_eq!(p.display(), "<-2147483648, , >");
}

#[test]
fn new_keeps_the_parts() {
    let p = ProcessOutput::new(42, "so".to_string(), "se".to_string());
    assert_eq!(p.code, 42);
    assert_eq!(p.stdout, "so");
    assert_eq!(p.stderr, "se");
}

#[test]
fn success_goes_by_the_exit_code() {
    assert!(ProcessOutput::new(0, String::new(), String::new()).success());
    assert!(!ProcessOutput::new(1, String::new(), String::new()).success());
    assert!(!ProcessOutput::new(127, String::new(), String::new()).success());
    assert!(!ProcessOutput::new(-1, String::new(), String::new()).success());
}

#[test]
fn success_rules_differ_on_a_clean_code_with_stderr() {
    // Exit code zero beside a non-empty error stream: success for the POSIX
    // shell, failure for the hosted engine.
    let p = ProcessOutput::new(0, String::new(), "some warning".to_string());
    assert!(p.success_under(Strategy::PosixShell));
    assert!(!p.success_under(Strategy::HostedEngine));
}

#[test]
fn success_rules_agree_elsewhere() {
    let clean = ProcessOutput::new(0, "text".to_string(), String::new());
    assert!(clean.success_under(Strategy::PosixShell));
    assert!(clean.success_under(Strategy::HostedEngine));

    let failed = ProcessOutput::new(2, String::new(), String::new());
    assert!(!failed.success_under(Strategy::PosixShell));
    assert!(!failed.success_under(Strategy::HostedEngine));
}

#[test]
fn from_raw_trims_trailing_whitespace_only() {
    let p = ProcessOutput::from_raw(0, "X\n\n", "");
    assert_eq!(p.code, 0);
    assert_eq!(p.stdout, "X");
    assert_eq!(p.stderr, "");

    // Leading and interior whitespace is preserved verbatim.
    let p = ProcessOutput::from_raw(3, " a b\n c \t\r\n", "warn \n");
    assert_eq!(p.code, 3);
    assert_eq!(p.stdout, " a b\n c");
    assert_eq!(p.stderr, "warn");
}

#[test]
fn from_engine_raw_maps_report_and_absent_captures() {
    let p = ProcessOutput::from_engine_raw(true, Some("out\r\n".to_string()), None);
    assert_eq!(p.code, 0);
    assert_eq!(p.stdout, "out");
    assert_eq!(p.stderr, "");

    let p = ProcessOutput::from_engine_raw(false, None, Some("bad\n".to_string()));
    assert_eq!(p.code, 1);
    assert_eq!(p.stdout, "");
    assert_eq!(p.stderr, "bad");
}

#[test]
fn trim_end_handles_unicode_whitespace_and_empty_text() {
    assert_eq!(scriptrun::trim_end(""), "");
    assert_eq!(scriptrun::trim_end("\n\t \r\n"), "");
    assert_eq!(scriptrun::trim_end("x\u{00A0}\u{3000}\u{2028} "), "x");
    assert_eq!(scriptrun::trim_end("déjà vu\n"), "déjà vu");
}
