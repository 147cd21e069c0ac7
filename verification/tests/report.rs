use cronwrap::command::{ExitStatus, Output};
use cronwrap::report::{
    append_stderr_section, format_execution_error, format_spawn_error, render_execution_report,
};
use cronwrap::Args;

const START: &str = "2024-01-02T03:04:05.678Z";

fn args(command: &str, arguments: &[&str], cap: usize) -> Args {
    Args {
        alert_channel: None,
        alert_category: None,
        alert_origin: None,
        no_alert_origin: false,
        alert_endpoint: None,
        alert_token: None,
        max_output_capture: cap,
        ignore_exit_code: vec![],
        program_name: None,
        command: command.to_string(),
        args: arguments.iter().map(|a| a.to_string()).collect(),
    }
}

fn output(code: Option<i32>, stderr: &[u8]) -> Output {
    Output {
        status: ExitStatus { code },
        stderr: stderr.to_vec(),
    }
}

fn section(text: &str, cap: usize) -> String {
    let mut out = String::from("head");
    append_stderr_section(&mut out, text, cap);
    out
}

#[test]
fn spawn_report_without_arguments() {
    assert_eq!(
        format_spawn_error(
            START,
            "job",
            &args("/opt/job", &[], 65536),
            "No such file or directory (os error 2)"
        ),
        "Failed to start job at 2024-01-02T03:04:05.678Z: No such file or directory (os error 2)\n\nCommand: \"/opt/job\"\n\nArguments:\n"
    );
}

#[test]
fn spawn_report_lists_each_argument_on_its_own_line() {
    assert_eq!(
        format_spawn_error(
            START,
            "job",
            &args("/opt/my job", &["one", "two words", ""], 65536),
            "Permission denied (os error 13)"
        ),
        "Failed to start job at 2024-01-02T03:04:05.678Z: Permission denied (os error 13)\n\nCommand: \"/opt/my job\"\n\nArguments:\n\n  \"one\"\n  \"two words\"\n  \"\""
    );
}

#[test]
fn arguments_are_json_string_literals() {
    assert_eq!(
        format_spawn_error(
            "t",
            "n",
            &args(
                "c",
                &[
                    "q\"uote",
                    "back\\slash",
                    "line\nbreak",
                    "tab\there",
                    "cr\rlf",
                    "\u{8}\u{c}",
                    "\u{0}\u{1}\u{1f}",
                    "del\u{7f}",
                    "caf\u{e9} \u{1f980}",
                    "sol/idus",
                ],
                1
            ),
            "e"
        ),
        "Failed to start n at t: e\n\nCommand: \"c\"\n\nArguments:\n\n  \"q\\\"uote\"\n  \"back\\\\slash\"\n  \"line\\nbreak\"\n  \"tab\\there\"\n  \"cr\\rlf\"\n  \"\\b\\f\"\n  \"\\u0000\\u0001\\u001f\"\n  \"del\u{7f}\"\n  \"caf\u{e9} \u{1f980}\"\n  \"sol/idus\""
    );
}

#[test]
fn arguments_with_line_breaks_stay_on_one_line_each() {
    let report = format_spawn_error(
        "t",
        "n",
        &args("c", &["a\nb", "\n\n", "c\r\nd", ""], 1),
        "e",
    );
    let lines = report.split("\n\nArguments:\n").nth(1).unwrap();
    assert_eq!(lines.matches('\n').count(), 4);
    assert_eq!(lines, "\n  \"a\\nb\"\n  \"\\n\\n\"\n  \"c\\r\\nd\"\n  \"\"");
}

/// The JSON string literal for one character, written out independently.
fn literal_of(c: char) -> String {
    let inner = match c {
        '"' => "\\\"".to_string(),
        '\\' => "\\\\".to_string(),
        '\u{8}' => "\\b".to_string(),
        '\u{c}' => "\\f".to_string(),
        '\n' => "\\n".to_string(),
        '\r' => "\\r".to_string(),
        '\t' => "\\t".to_string(),
        c if (c as u32) < 0x20 => format!("\\u{:04x}", c as u32),
        c => c.to_string(),
    };
    format!("\"{}\"", inner)
}

#[test]
fn every_character_is_escaped_as_stated() {
    let mut samples: Vec<char> = (0u8..=0x7f).map(|b| b as char).collect();
    samples.extend(['\u{80}', '\u{ff}', '\u{7ff}', '\u{800}', '\u{2028}', '\u{fffd}', '\u{10000}', '\u{10ffff}']);
    for c in samples {
        let report = format_spawn_error("t", "n", &args(&c.to_string(), &[], 1), "e");
        assert_eq!(
            report,
            format!("Failed to start n at t: e\n\nCommand: {}\n\nArguments:\n", literal_of(c)),
            "character {:?}",
            c
        );
    }
}

#[test]
fn execution_report_with_exit_code_and_stderr() {
    assert_eq!(
        format_execution_error(
            START,
            "backup",
            &args("/usr/local/bin/backup", &["--all", "/srv/data"], 65536),
            &output(Some(3), b"disk full\n")
        ),
        "Execution of backup at 2024-01-02T03:04:05.678Z failed: exited with status code 3\n\nCommand: \"/usr/local/bin/backup\"\n\nArguments:\n\n  \"--all\"\n  \"/srv/data\"\n\nStandard error output:\n\ndisk full\n"
    );
}

#[test]
fn execution_report_of_false() {
    assert_eq!(
        format_execution_error(START, "false", &args("false", &[], 65536), &output(Some(1), b"")),
        "Execution of false at 2024-01-02T03:04:05.678Z failed: exited with status code 1\n\nCommand: \"false\"\n\nArguments:\n\n\nStandard error output (empty):\n"
    );
}

#[test]
fn execution_report_of_a_signal() {
    assert_eq!(
        format_execution_error(START, "job", &args("job", &[], 65536), &output(None, b"")),
        "Execution of job at 2024-01-02T03:04:05.678Z failed: was terminated by a signal\n\nCommand: \"job\"\n\nArguments:\n\n\nStandard error output (empty):\n"
    );
}

#[test]
fn exit_codes_are_written_in_decimal() {
    for (code, text) in [
        (0, "0"),
        (9, "9"),
        (10, "10"),
        (255, "255"),
        (-1, "-1"),
        (65536, "65536"),
        (i32::MAX, "2147483647"),
        (i32::MIN, "-2147483648"),
    ] {
        let report =
            format_execution_error("t", "n", &args("c", &[], 8), &output(Some(code), b""));
        assert_eq!(
            report,
            format!(
                "Execution of n at t failed: exited with status code {}\n\nCommand: \"c\"\n\nArguments:\n\n\nStandard error output (empty):\n",
                text
            )
        );
    }
}

#[test]
fn stderr_within_the_cap_is_reported_whole() {
    assert_eq!(section("0123456789", 10), "head\n\nStandard error output:\n\n0123456789");
    assert_eq!(section("0123456789", 11), "head\n\nStandard error output:\n\n0123456789");
    assert_eq!(section("x", 65536), "head\n\nStandard error output:\n\nx");
}

#[test]
fn empty_stderr_is_noted() {
    assert_eq!(section("", 0), "head\n\nStandard error output (empty):\n");
    assert_eq!(section("", 65536), "head\n\nStandard error output (empty):\n");
}

#[test]
fn stderr_over_the_cap_keeps_its_tail() {
    assert_eq!(
        section("0123456789", 9),
        "head\n\nStandard error output (truncated):\n\n[...]\n123456789"
    );
    assert_eq!(
        section("0123456789", 4),
        "head\n\nStandard error output (truncated):\n\n[...]\n6789"
    );
    assert_eq!(
        section("0123456789", 1),
        "head\n\nStandard error output (truncated):\n\n[...]\n9"
    );
    assert_eq!(
        section("0123456789", 0),
        "head\n\nStandard error output (truncated):\n\n[...]\n"
    );
}

#[test]
fn the_cut_never_splits_a_character() {
    // 11 characters in 13 bytes.
    let text = "h\u{e9}llo w\u{f6}rld";
    assert_eq!(text.len(), 13);
    assert_eq!(section(text, 13), format!("head\n\nStandard error output:\n\n{}", text));
    assert_eq!(
        section(text, 12),
        format!("head\n\nStandard error output (truncated):\n\n[...]\n{}", text)
    );
    assert_eq!(
        section(text, 5),
        "head\n\nStandard error output (truncated):\n\n[...]\nw\u{f6}rld"
    );
    assert_eq!(
        section(text, 4),
        "head\n\nStandard error output (truncated):\n\n[...]\n\u{f6}rld"
    );
    assert_eq!(
        section("\u{1f980}\u{1f980}\u{1f980}", 2),
        "head\n\nStandard error output (truncated):\n\n[...]\n\u{1f980}\u{1f980}"
    );
}

#[test]
fn bytes_that_are_not_utf8_are_replaced() {
    assert_eq!(
        format_execution_error("t", "n", &args("c", &[], 64), &output(Some(2), b"ab\xffcd")),
        "Execution of n at t failed: exited with status code 2\n\nCommand: \"c\"\n\nArguments:\n\n\nStandard error output:\n\nab\u{fffd}cd"
    );
    // The cap is held against the text after the replacement: 7 bytes.
    assert_eq!(
        format_execution_error("t", "n", &args("c", &[], 7), &output(Some(2), b"ab\xffcd")),
        "Execution of n at t failed: exited with status code 2\n\nCommand: \"c\"\n\nArguments:\n\n\nStandard error output:\n\nab\u{fffd}cd"
    );
    assert_eq!(
        format_execution_error("t", "n", &args("c", &[], 3), &output(Some(2), b"ab\xffcd")),
        "Execution of n at t failed: exited with status code 2\n\nCommand: \"c\"\n\nArguments:\n\n\nStandard error output (truncated):\n\n[...]\n\u{fffd}cd"
    );
}

#[test]
fn utf8_stderr_is_decoded() {
    assert_eq!(
        format_execution_error(
            "t",
            "n",
            &args("c", &[], 64),
            &output(Some(2), "gr\u{fc}\u{df}e \u{4e16}\u{754c}".as_bytes())
        ),
        "Execution of n at t failed: exited with status code 2\n\nCommand: \"c\"\n\nArguments:\n\n\nStandard error output:\n\ngr\u{fc}\u{df}e \u{4e16}\u{754c}"
    );
}

#[test]
fn rendering_agrees_with_decoding() {
    let a = args("c", &["x"], 3);
    assert_eq!(
        format_execution_error("t", "n", &a, &output(Some(5), b"hello")),
        render_execution_report("t", "n", &a, &ExitStatus { code: Some(5) }, "hello")
    );
}
