use vpm::commands::output::{
    exit_code, make_error_line, make_status_line, wrap_command, ExecutionResult,
};
use vpm::style::{paint, Paint};

fn outcome(stdout: &str, stderr: &str, status: Option<i32>) -> ExecutionResult {
    ExecutionResult { stdout: stdout.to_string(), stderr: stderr.to_string(), status }
}

fn invocation(items: &[&str]) -> Vec<String> {
    items.iter().map(|s| s.to_string()).collect()
}

#[test]
fn output_comes_before_errors_and_the_status_last() {
    colored::control::set_override(false);
    let lines = wrap_command(
        &invocation(&["xbps-query", "-l"]),
        &outcome("a\nb\n", "c\n", Some(0)),
        false,
    );
    assert_eq!(lines, vec!["a", "b", "[Err] c", "Returned with code 0"]);
}

#[test]
fn verbose_lines_start_with_the_invocation() {
    colored::control::set_override(false);
    let lines = wrap_command(
        &invocation(&["xbps-query", "-v", "-R", "vim"]),
        &outcome("a\nb\n", "c\n", Some(2)),
        true,
    );
    assert_eq!(
        lines,
        vec![
            "[xbps-query -v -R vim] a",
            "[xbps-query -v -R vim] b",
            "[xbps-query -v -R vim] [Err] c",
            "[xbps-query -v -R vim] Returned with code 2",
        ]
    );
}

#[test]
fn silence_leaves_only_the_status() {
    colored::control::set_override(false);
    let lines = wrap_command(&invocation(&["xbps-remove", "-O"]), &outcome("", "", Some(0)), false);
    assert_eq!(lines, vec!["Returned with code 0"]);
}

#[test]
fn a_missing_status_is_shown_as_minus_one() {
    colored::control::set_override(false);
    let lines = wrap_command(&invocation(&["xbps-install"]), &outcome("", "", None), false);
    assert_eq!(lines, vec!["Returned with code -1"]);
    let lines = wrap_command(&invocation(&["xbps-install"]), &outcome("", "", Some(-7)), false);
    assert_eq!(lines, vec!["Returned with code -7"]);
}

#[test]
fn empty_lines_are_kept() {
    colored::control::set_override(false);
    let lines = wrap_command(
        &invocation(&["t"]),
        &outcome("\nx\r\n\n", "\n", Some(1)),
        false,
    );
    assert_eq!(lines, vec!["", "x", "", "[Err] ", "Returned with code 1"]);
}

#[test]
fn an_empty_invocation_is_echoed_as_empty_brackets() {
    colored::control::set_override(false);
    let lines = wrap_command(&Vec::new(), &outcome("x", "", Some(0)), true);
    assert_eq!(lines, vec!["[] x", "[] Returned with code 0"]);
}

#[test]
fn lines_are_put_together_from_their_parts() {
    assert_eq!(make_error_line("[x] ", "[Err]", "boom"), "[x] [Err] boom");
    assert_eq!(make_error_line("", "", ""), " ");
    assert_eq!(make_status_line("[x] ", "3"), "[x] Returned with code 3");
    assert_eq!(make_status_line("", "0"), "Returned with code 0");
}

#[test]
fn exit_codes_are_the_low_eight_bits() {
    assert_eq!(exit_code(Some(0)), 0);
    assert_eq!(exit_code(Some(1)), 1);
    assert_eq!(exit_code(Some(255)), 255);
    assert_eq!(exit_code(Some(256)), 0);
    assert_eq!(exit_code(Some(257)), 1);
    assert_eq!(exit_code(Some(-1)), 255);
    assert_eq!(exit_code(Some(-256)), 0);
    assert_eq!(exit_code(Some(-257)), 255);
    assert_eq!(exit_code(Some(i32::MAX)), 255);
    assert_eq!(exit_code(Some(i32::MIN)), 0);
}

#[test]
fn exit_codes_agree_with_truncation() {
    for c in [0i32, 1, 2, 127, 128, 255, 256, 1000, 65535, 65536, -1, -2, -128, -255, -256, -1000] {
        assert_eq!(exit_code(Some(c)), c as u8, "{c}");
    }
}

#[test]
fn a_missing_status_is_code_255() {
    assert_eq!(exit_code(None), 255);
    assert_ne!(exit_code(None), 0);
}

#[test]
fn paint_without_colours_changes_nothing() {
    colored::control::set_override(false);
    for with in [
        Paint::Red,
        Paint::Green,
        Paint::Yellow,
        Paint::Blue,
        Paint::BrightBlack,
        Paint::BoldRed,
        Paint::BoldGreen,
    ] {
        assert_eq!(paint(with, "text"), "text");
        assert_eq!(paint(with, ""), "");
        assert_eq!(paint(with, "a\u{1b}[0mb"), "a\u{1b}[0mb");
    }
}
