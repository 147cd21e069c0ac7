//! The failure report: the plain text that an alert carries as its body.

use vstd::prelude::*;
use vstd::string::*;
use vstd::utf8::*;

use crate::command::{ExitStatus, Output};
use crate::json::{encode_string, law_literal_is_one_line, string_literal};
use crate::text::{
    append_decimal, decimal, decode_lossy, ends_with, faithful_where_utf8, last_chars,
    lemma_chars_within_bytes, lemma_last_chars, lemma_occurrences_absent,
    lemma_occurrences_concat, occurrences, occurs_at, starts_with, tail, utf8_lossy,
};
use crate::Args;

verus! {

/// One line for each argument: a line break, two spaces, and the argument as
/// a JSON string literal.
pub open spec fn argument_lines(arguments: Seq<Seq<char>>) -> Seq<char>
    decreases arguments.len(),
{
    if arguments.len() == 0 {
        Seq::empty()
    } else {
        argument_lines(arguments.drop_last()) + "\n  "@ + string_literal(arguments.last())
    }
}

/// The part of a report that shows what was invoked: the command as a JSON
/// string literal, then the arguments, one to a line.
pub open spec fn invocation(command: Seq<char>, arguments: Seq<Seq<char>>) -> Seq<char> {
    "\n\nCommand: "@ + string_literal(command) + "\n\nArguments:\n"@ + argument_lines(arguments)
}

/// The report on a command that could not be started.
pub open spec fn spawn_report(
    start_time: Seq<char>,
    program_name: Seq<char>,
    command: Seq<char>,
    arguments: Seq<Seq<char>>,
    error: Seq<char>,
) -> Seq<char> {
    "Failed to start "@ + program_name + " at "@ + start_time + ": "@ + error + invocation(
        command,
        arguments,
    )
}

/// Appends to `out` what was invoked.
fn append_invocation(out: &mut String, args: &Args)
    ensures
        final(out)@ == old(out)@ + invocation(args.command@, args.args.deep_view()),
{
    let ghost arguments = args.args.deep_view();
    out.append("\n\nCommand: ");
    let command = encode_string(args.command.as_str());
    out.append(command.as_str());
    out.append("\n\nArguments:\n");
    let ghost head = out@;
    let mut i: usize = 0;
    while i < args.args.len()
        invariant
            i <= args.args.len(),
            arguments == args.args.deep_view(),
            out@ == head + argument_lines(arguments.take(i as int)),
        decreases args.args.len() - i,
    {
        let argument = encode_string(args.args[i].as_str());
        out.append("\n  ");
        out.append(argument.as_str());
        proof {
            let next = arguments.take(i + 1);
            assert(next.drop_last() == arguments.take(i as int));
            assert(next.last() == args.args[i as int]@);
        }
        i += 1;
    }
    proof {
        assert(arguments.take(i as int) == arguments);
    }
}

/// The report on a command that could not be started: when and under which
/// name it was to run, the error of the operating system, and the invocation.
pub fn format_spawn_error(start_time: &str, program_name: &str, args: &Args, error: &str) -> (report:
    String)
    ensures
        report@ == spawn_report(
            start_time@,
            program_name@,
            args.command@,
            args.args.deep_view(),
            error@,
        ),
{
    let mut out = String::new();
    out.append("Failed to start ");
    out.append(program_name);
    out.append(" at ");
    out.append(start_time);
    out.append(": ");
    out.append(error);
    append_invocation(&mut out, args);
    out
}

/// How the command ended, in words.
pub open spec fn exit_description(status: ExitStatus) -> Seq<char> {
    match status.code {
        Some(code) => "exited with status code "@ + decimal(code as int),
        None => "was terminated by a signal"@,
    }
}

/// Whether the captured text is too long to be reported whole: its UTF-8
/// encoding takes more than `cap` bytes.
pub open spec fn exceeds_cap(text: Seq<char>, cap: nat) -> bool {
    encode_utf8(text).len() > cap
}

/// The part of a report that shows the captured standard error text: a note
/// where there is none, the whole text where it fits the cap, and else the
/// elision marker followed by the last `cap` characters of the text.
pub open spec fn stderr_section(text: Seq<char>, cap: nat) -> Seq<char> {
    if text.len() == 0 {
        "\n\nStandard error output (empty):\n"@
    } else if exceeds_cap(text, cap) {
        "\n\nStandard error output (truncated):\n\n[...]\n"@ + last_chars(text, cap)
    } else {
        "\n\nStandard error output:\n\n"@ + text
    }
}

/// The report on a command that ran and failed.
pub open spec fn execution_report(
    start_time: Seq<char>,
    program_name: Seq<char>,
    command: Seq<char>,
    arguments: Seq<Seq<char>>,
    status: ExitStatus,
    stderr_text: Seq<char>,
    cap: nat,
) -> Seq<char> {
    "Execution of "@ + program_name + " at "@ + start_time + " failed: "@ + exit_description(
        status,
    ) + invocation(command, arguments) + stderr_section(stderr_text, cap)
}

/// Appends to `out` the section on the captured standard error text.
pub fn append_stderr_section(out: &mut String, text: &str, cap: usize)
    ensures
        final(out)@ == old(out)@ + stderr_section(text@, cap as nat),
{
    if text.is_empty() {
        out.append("\n\nStandard error output (empty):\n");
    } else if text.as_bytes().len() > cap {
        out.append("\n\nStandard error output (truncated):\n\n[...]\n");
        out.append(tail(text, cap));
    } else {
        out.append("\n\nStandard error output:\n\n");
        out.append(text);
    }
}

/// The report on a command that ran and failed, from the text that its
/// standard error stream held: when and under which name it ran, how it
/// ended, the invocation, and the captured text within the cap
/// `args.max_output_capture`.
pub fn render_execution_report(
    start_time: &str,
    program_name: &str,
    args: &Args,
    status: &ExitStatus,
    stderr_text: &str,
) -> (report: String)
    ensures
        report@ == execution_report(
            start_time@,
            program_name@,
            args.command@,
            args.args.deep_view(),
            *status,
            stderr_text@,
            args.max_output_capture as nat,
        ),
{
    let mut out = String::new();
    out.append("Execution of ");
    out.append(program_name);
    out.append(" at ");
    out.append(start_time);
    out.append(" failed: ");
    match status.code {
        Some(code) => {
            out.append("exited with status code ");
            append_decimal(&mut out, code);
        },
        None => {
            out.append("was terminated by a signal");
        },
    }
    append_invocation(&mut out, args);
    append_stderr_section(&mut out, stderr_text, args.max_output_capture);
    out
}

/// The report on a command that ran and failed. The captured bytes are read
/// as UTF-8, with the replacement character for what is not; bytes that are
/// UTF-8 are reported as the text that they encode.
pub fn format_execution_error(start_time: &str, program_name: &str, args: &Args, output: &Output) -> (report:
    String)
    ensures
        report@ == execution_report(
            start_time@,
            program_name@,
            args.command@,
            args.args.deep_view(),
            output.status,
            utf8_lossy(output.stderr@),
            args.max_output_capture as nat,
        ),
        faithful_where_utf8(output.stderr@),
{
    let stderr_text = decode_lossy(output.stderr.as_slice());
    render_execution_report(start_time, program_name, args, &output.status, stderr_text.as_str())
}

/// Captured text within the cap is reported whole. Where the UTF-8 encoding
/// of the text takes at most `cap` bytes, the report on the failed command
/// ends with the heading of the section and the text itself, with nothing
/// left out and no elision marker between them; an empty text gets the note
/// that says so.
pub proof fn law_text_within_cap_is_reported_whole(
    start_time: Seq<char>,
    program_name: Seq<char>,
    command: Seq<char>,
    arguments: Seq<Seq<char>>,
    status: ExitStatus,
    text: Seq<char>,
    cap: nat,
)
    requires
        encode_utf8(text).len() <= cap,
    ensures
        last_chars(text, cap) == text,
        text.len() > 0 ==> ends_with(
            execution_report(start_time, program_name, command, arguments, status, text, cap),
            "\n\nStandard error output:\n\n"@ + text,
        ),
        text.len() == 0 ==> ends_with(
            execution_report(start_time, program_name, command, arguments, status, text, cap),
            "\n\nStandard error output (empty):\n"@,
        ),
{
    lemma_chars_within_bytes(text);
    let report = execution_report(start_time, program_name, command, arguments, status, text, cap);
    let section = stderr_section(text, cap);
    assert(report.subrange(report.len() - section.len(), report.len() as int) == section);
}

/// Captured text over the cap is cut at its head. Where the UTF-8 encoding
/// of the text takes more than `cap` bytes, the report on the failed command
/// ends with the heading that says so, the elision marker `[...]`, and the
/// last `cap` characters of the text (all of them where it has fewer). What
/// is kept is the end of the text, and the cut falls between two characters:
/// the encoding of the text is the encoding of what was left out followed by
/// the encoding of what was kept.
pub proof fn law_text_over_cap_keeps_the_tail(
    start_time: Seq<char>,
    program_name: Seq<char>,
    command: Seq<char>,
    arguments: Seq<Seq<char>>,
    status: ExitStatus,
    text: Seq<char>,
    cap: nat,
)
    requires
        encode_utf8(text).len() > cap,
    ensures
        ({
            let kept = last_chars(text, cap);
            let left_out = text.subrange(0, text.len() - kept.len());
            &&& ends_with(
                execution_report(start_time, program_name, command, arguments, status, text, cap),
                "\n\nStandard error output (truncated):\n\n[...]\n"@ + kept,
            )
            &&& kept.len() <= cap
            &&& text.len() >= cap ==> kept.len() == cap
            &&& text.len() <= cap ==> kept == text
            &&& text == left_out + kept
            &&& encode_utf8(text) == encode_utf8(left_out) + encode_utf8(kept)
        }),
{
    lemma_last_chars(text, cap);
    let report = execution_report(start_time, program_name, command, arguments, status, text, cap);
    let section = stderr_section(text, cap);
    assert(report.subrange(report.len() - section.len(), report.len() as int) == section);
}

/// For captured bytes that are UTF-8 the cap counts those bytes: their text
/// exceeds the cap exactly where there are more than `cap` of them.
pub proof fn law_cap_counts_captured_bytes(bytes: Seq<u8>, cap: nat)
    requires
        valid_utf8(bytes),
    ensures
        exceeds_cap(decode_utf8(bytes), cap) <==> bytes.len() > cap,
{
    decode_utf8_encode_utf8(bytes);
}

/// A report on a command that could not be started begins with the words
/// `Failed to start` and holds the error of the operating system.
pub proof fn law_spawn_report_holds_the_error(
    start_time: Seq<char>,
    program_name: Seq<char>,
    command: Seq<char>,
    arguments: Seq<Seq<char>>,
    error: Seq<char>,
)
    ensures
        starts_with(
            spawn_report(start_time, program_name, command, arguments, error),
            "Failed to start"@,
        ),
        occurs_at(
            spawn_report(start_time, program_name, command, arguments, error),
            error,
            ("Failed to start "@ + program_name + " at "@ + start_time + ": "@).len() as int,
        ),
{
    reveal_strlit("Failed to start");
    reveal_strlit("Failed to start ");
    let report = spawn_report(start_time, program_name, command, arguments, error);
    let head = "Failed to start "@ + program_name + " at "@ + start_time + ": "@;
    assert(report.subrange(0, "Failed to start"@.len() as int) == "Failed to start"@);
    assert(report.subrange(head.len() as int, (head.len() + error.len()) as int) == error);
}

/// Every argument stands on a line of its own: whatever the arguments hold,
/// their part of a report has as many line breaks as there are arguments.
pub proof fn law_one_line_for_each_argument(arguments: Seq<Seq<char>>)
    ensures
        occurrences(argument_lines(arguments), '\n') == arguments.len(),
    decreases arguments.len(),
{
    if arguments.len() > 0 {
        let before = argument_lines(arguments.drop_last());
        let indent = "\n  "@;
        let literal = string_literal(arguments.last());
        law_one_line_for_each_argument(arguments.drop_last());
        law_literal_is_one_line(arguments.last());
        lemma_occurrences_absent(literal, '\n');
        assert(occurrences(indent, '\n') == 1) by {
            reveal_strlit("\n  ");
            reveal_with_fuel(occurrences, 4);
            assert(indent.drop_last().drop_last().drop_last() =~= seq![]);
        }
        lemma_occurrences_concat(before, indent, '\n');
        lemma_occurrences_concat(before + indent, literal, '\n');
    }
}

} // verus!
