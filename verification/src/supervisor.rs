//! The supervisor: what is settled before the command runs, and the verdict
//! on what became of it.

use vstd::prelude::*;

use crate::alert::{
    alert_request, alert_subject, law_alert_has_six_members, payload_members, request_for,
    request_headers, subject_for, AlertRequest, AlertRequestView,
};
use crate::command::{
    classify, get_program_name, outcome_of, path_file_name, reported_name, ExitStatus, Outcome,
    OutcomeView, Output,
};
use crate::config::{
    resolve_config, resolved_config, AlertConfig, AlertConfigView, ConfigError, Environment,
};
use crate::json::object_text;
use crate::report::{execution_report, format_execution_error, format_spawn_error, spawn_report};
use crate::text::{faithful_where_utf8, utf8_lossy};
use crate::timestamp::Timestamp;
use crate::Args;

verus! {

/// One run, ready to start: the command line, the alert configuration that
/// it resolved to, the name under which the program is reported, and the
/// time at which the run began.
#[derive(Clone, Debug)]
pub struct Supervisor {
    pub args: Args,
    pub config: AlertConfig,
    pub program_name: String,
    pub start_time: Timestamp,
}

/// How a run ends: the exit code of the supervisor, and the alert to send
/// before it exits, if any.
#[derive(Clone, Debug)]
pub struct Verdict {
    pub exit_code: u8,
    pub alert: Option<AlertRequest>,
}

/// A verdict as plain values.
pub struct VerdictView {
    pub exit_code: u8,
    pub alert: Option<AlertRequestView>,
}

impl View for Verdict {
    type V = VerdictView;

    open spec fn view(&self) -> VerdictView {
        VerdictView {
            exit_code: self.exit_code,
            alert: match self.alert {
                Some(request) => Some(request@),
                None => None,
            },
        }
    }
}

impl VerdictView {
    /// How many alerts the verdict asks for.
    pub open spec fn alerts(self) -> nat {
        if self.alert is Some {
            1
        } else {
            0
        }
    }
}

/// The content type of every alert.
pub open spec fn plain_text() -> Seq<char> {
    "text/plain"@
}

/// The body of the alert on a run that did not succeed.
pub open spec fn failure_report(
    args: Args,
    program_name: Seq<char>,
    start_time: Seq<char>,
    outcome: OutcomeView,
) -> Seq<char> {
    match outcome {
        OutcomeView::Success => Seq::empty(),
        OutcomeView::ExecutionFailure { exit_code, captured_stderr } => execution_report(
            start_time,
            program_name,
            args.command@,
            args.args.deep_view(),
            ExitStatus { code: exit_code },
            utf8_lossy(captured_stderr),
            args.max_output_capture as nat,
        ),
        OutcomeView::SpawnFailure { error } => spawn_report(
            start_time,
            program_name,
            args.command@,
            args.args.deep_view(),
            error,
        ),
    }
}

/// The verdict on an outcome: a success ends the run with exit code 0 and
/// without an alert; anything else ends it with exit code 1 and one alert,
/// whose subject names the program and whose body is the failure report.
pub open spec fn verdict_for(
    args: Args,
    config: AlertConfigView,
    program_name: Seq<char>,
    start_time: Seq<char>,
    outcome: OutcomeView,
) -> VerdictView {
    if outcome is Success {
        VerdictView { exit_code: 0, alert: None }
    } else {
        VerdictView {
            exit_code: 1,
            alert: Some(
                request_for(
                    config,
                    subject_for(program_name),
                    plain_text(),
                    failure_report(args, program_name, start_time, outcome),
                ),
            ),
        }
    }
}

impl Supervisor {
    /// Prepares a run that starts at `start_time`: resolves the alert
    /// configuration and picks the name under which the program is reported.
    /// Where the endpoint or the token is missing there is no run, whatever
    /// the command is.
    pub fn prepare(args: Args, env: &Environment, start_time: Timestamp) -> (run: Result<
        Supervisor,
        ConfigError,
    >)
        ensures
            (match resolved_config(args, env.variables.deep_view(), env.hostname@) {
                Ok(resolved) => {
                    &&& run is Ok
                    &&& run->Ok_0.args == args
                    &&& run->Ok_0.config@ == resolved
                    &&& run->Ok_0.program_name@ == reported_name(args)
                    &&& run->Ok_0.start_time == start_time
                },
                Err(missing) => run is Err && run->Err_0 == missing,
            }),
    {
        match resolve_config(&args, env) {
            Ok(config) => {
                let program_name = get_program_name(&args);
                Ok(Supervisor { args, config, program_name, start_time })
            },
            Err(error) => Err(error),
        }
    }

    /// The verdict on an outcome of the command. Captured bytes that are
    /// UTF-8 are reported as the text that they encode.
    pub fn judge(&self, outcome: Outcome) -> (verdict: Verdict)
        ensures
            verdict@ == verdict_for(
                self.args,
                self.config@,
                self.program_name@,
                self.start_time@,
                outcome@,
            ),
            (outcome@ matches OutcomeView::ExecutionFailure { captured_stderr, .. }
                ==> faithful_where_utf8(captured_stderr)),
    {
        let start_time = self.start_time.as_str();
        let body = match outcome {
            Outcome::Success => {
                return Verdict { exit_code: 0, alert: None };
            },
            Outcome::ExecutionFailure { exit_code, captured_stderr } => {
                let output = Output { status: ExitStatus { code: exit_code }, stderr: captured_stderr };
                format_execution_error(
                    start_time,
                    self.program_name.as_str(),
                    &self.args,
                    &output,
                )
            },
            Outcome::SpawnFailure { error } => format_spawn_error(
                start_time,
                self.program_name.as_str(),
                &self.args,
                error.as_str(),
            ),
        };
        let subject = alert_subject(self.program_name.as_str());
        let request = alert_request(&self.config, subject.as_str(), "text/plain", body.as_str());
        Verdict { exit_code: 1, alert: Some(request) }
    }

    /// Ends a run: classifies the attempt to run the command, `Ok` with what
    /// the process left behind or `Err` with the reason why none was started,
    /// and gives the verdict on it.
    pub fn conclude(&self, attempt: Result<Output, String>) -> (verdict: Verdict)
        ensures
            verdict@ == verdict_for(
                self.args,
                self.config@,
                self.program_name@,
                self.start_time@,
                outcome_of(attempt, self.args.ignore_exit_code@),
            ),
            (outcome_of(attempt, self.args.ignore_exit_code@) matches OutcomeView::ExecutionFailure {
                captured_stderr,
                ..
            } ==> faithful_where_utf8(captured_stderr)),
    {
        let outcome = classify(attempt, self.args.ignore_exit_code.as_slice());
        self.judge(outcome)
    }
}

/// A command that exits with a code other than zero that is not ignored
/// ends the run with exit code 1 and exactly one alert.
pub proof fn law_failing_code_raises_one_alert(
    args: Args,
    config: AlertConfigView,
    program_name: Seq<char>,
    start_time: Seq<char>,
    output: Output,
    code: i32,
)
    requires
        output.status.code == Some(code),
        code != 0,
        !args.ignore_exit_code@.contains(code),
    ensures
        ({
            let verdict = verdict_for(
                args,
                config,
                program_name,
                start_time,
                outcome_of(Ok(output), args.ignore_exit_code@),
            );
            verdict.exit_code == 1 && verdict.alerts() == 1
        }),
{
}

/// A command that a signal terminated ends the run with exit code 1 and
/// exactly one alert, whatever codes are ignored.
pub proof fn law_signal_raises_one_alert(
    args: Args,
    config: AlertConfigView,
    program_name: Seq<char>,
    start_time: Seq<char>,
    output: Output,
)
    requires
        output.status.code is None,
    ensures
        ({
            let verdict = verdict_for(
                args,
                config,
                program_name,
                start_time,
                outcome_of(Ok(output), args.ignore_exit_code@),
            );
            verdict.exit_code == 1 && verdict.alerts() == 1
        }),
{
}

/// A command that exits with an ignored code ends the run with exit code 0
/// and without an alert.
pub proof fn law_ignored_code_raises_no_alert(
    args: Args,
    config: AlertConfigView,
    program_name: Seq<char>,
    start_time: Seq<char>,
    output: Output,
    code: i32,
)
    requires
        output.status.code == Some(code),
        args.ignore_exit_code@.contains(code),
    ensures
        ({
            let verdict = verdict_for(
                args,
                config,
                program_name,
                start_time,
                outcome_of(Ok(output), args.ignore_exit_code@),
            );
            verdict.exit_code == 0 && verdict.alerts() == 0
        }),
{
}

/// A command that exits with code zero ends the run with exit code 0 and
/// without an alert, whatever codes are ignored.
pub proof fn law_zero_raises_no_alert(
    args: Args,
    config: AlertConfigView,
    program_name: Seq<char>,
    start_time: Seq<char>,
    output: Output,
)
    requires
        output.status.code == Some(0i32),
    ensures
        ({
            let verdict = verdict_for(
                args,
                config,
                program_name,
                start_time,
                outcome_of(Ok(output), args.ignore_exit_code@),
            );
            verdict.exit_code == 0 && verdict.alerts() == 0
        }),
{
}

/// A command that could not be started ends the run with exit code 1 and
/// exactly one alert, whose body is the report that begins with `Failed to
/// start` and holds the error.
pub proof fn law_spawn_failure_raises_one_alert(
    args: Args,
    config: AlertConfigView,
    program_name: Seq<char>,
    start_time: Seq<char>,
    error: String,
)
    ensures
        ({
            let verdict = verdict_for(
                args,
                config,
                program_name,
                start_time,
                outcome_of(Err(error), args.ignore_exit_code@),
            );
            let body = spawn_report(
                start_time,
                program_name,
                args.command@,
                args.args.deep_view(),
                error@,
            );
            &&& verdict.exit_code == 1
            &&& verdict.alerts() == 1
            &&& verdict.alert == Some(request_for(config, subject_for(program_name), plain_text(), body))
        }),
{
}

/// The exit code of a run is 0 or 1, and it is 1 exactly where an alert is
/// raised.
pub proof fn law_exit_code_tells_of_the_alert(
    args: Args,
    config: AlertConfigView,
    program_name: Seq<char>,
    start_time: Seq<char>,
    outcome: OutcomeView,
)
    ensures
        ({
            let verdict = verdict_for(args, config, program_name, start_time, outcome);
            &&& verdict.exit_code == 0 || verdict.exit_code == 1
            &&& verdict.exit_code == 1 <==> verdict.alerts() == 1
            &&& verdict.exit_code == 0 <==> verdict.alerts() == 0
            &&& verdict.exit_code == 0 <==> outcome is Success
        }),
{
}

/// The alert on a run that did not succeed is the JSON object of six members
/// whose subject is `Scheduled execution failed: ` and then the name of the
/// program: the name given on the command line, else the final component of
/// the path of the command, else the command as it stands. Its content type
/// is `text/plain`, and its body is the failure report.
pub proof fn law_subject_names_the_program(
    args: Args,
    config: AlertConfigView,
    start_time: Seq<char>,
    outcome: OutcomeView,
)
    requires
        !(outcome is Success),
    ensures
        ({
            let name = reported_name(args);
            let body = failure_report(args, name, start_time, outcome);
            let members = payload_members(config, subject_for(name), plain_text(), body);
            &&& verdict_for(args, config, name, start_time, outcome).alert == Some(
                AlertRequestView {
                    endpoint: config.endpoint,
                    headers: request_headers(config.token),
                    payload: object_text(members),
                },
            )
            &&& members.dom().len() == 6
            &&& members["subject"@] == Some("Scheduled execution failed: "@ + name)
            &&& members["contentType"@] == Some("text/plain"@)
            &&& members["body"@] == Some(body)
            &&& args.program_name is Some ==> name == args.program_name->0@
            &&& args.program_name is None && path_file_name(args.command@) is Some ==> name
                == path_file_name(args.command@)->0
            &&& args.program_name is None && path_file_name(args.command@) is None ==> name
                == args.command@
        }),
{
    let name = reported_name(args);
    law_alert_has_six_members(
        config,
        subject_for(name),
        plain_text(),
        failure_report(args, name, start_time, outcome),
    );
}

} // verus!
