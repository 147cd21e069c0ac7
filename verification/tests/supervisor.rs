use cronwrap::command::{ExitStatus, Outcome, Output};
use cronwrap::config::{ConfigError, Environment};
use cronwrap::supervisor::Supervisor;
use cronwrap::timestamp::Timestamp;
use cronwrap::Args;

fn args() -> Args {
    Args {
        alert_channel: None,
        alert_category: None,
        alert_origin: None,
        no_alert_origin: false,
        alert_endpoint: Some("http://alerts.example/".to_string()),
        alert_token: Some("tok".to_string()),
        max_output_capture: 4,
        ignore_exit_code: vec![3],
        program_name: None,
        command: "/usr/bin/job".to_string(),
        args: vec!["-v".to_string()],
    }
}

/// 2024-01-02T03:04:05.678Z
fn started() -> Timestamp {
    Timestamp::at(1704164645, 678_000_000).expect("the instant is within the calendar")
}

fn environment() -> Environment {
    Environment {
        variables: vec![("ALERT_CATEGORY".to_string(), "cron".to_string())],
        hostname: "host-17".to_string(),
    }
}

#[test]
fn prepare_resolves_the_run() {
    let run = Supervisor::prepare(args(), &environment(), started()).unwrap();
    assert_eq!(run.args.command, "/usr/bin/job");
    assert_eq!(run.args.args, ["-v"]);
    assert_eq!(run.args.max_output_capture, 4);
    assert_eq!(run.program_name, "job");
    assert_eq!(run.config.endpoint, "http://alerts.example/");
    assert_eq!(run.config.channel, "cronwrap");
    assert_eq!(run.config.category, Some("cron".to_string()));
    assert_eq!(run.config.origin, Some("host-17".to_string()));
    assert_eq!(run.config.token, "tok");
    assert_eq!(run.start_time.as_str(), "2024-01-02T03:04:05.678Z");
}

#[test]
fn prepare_fails_without_endpoint_or_token() {
    let mut no_endpoint = args();
    no_endpoint.alert_endpoint = None;
    assert_eq!(
        Supervisor::prepare(no_endpoint, &environment(), started()).unwrap_err(),
        ConfigError::MissingEndpoint
    );
    let mut no_token = args();
    no_token.alert_token = None;
    assert_eq!(
        Supervisor::prepare(no_token, &environment(), started()).unwrap_err(),
        ConfigError::MissingToken
    );
}

#[test]
fn judge_and_conclude_agree() {
    let run = Supervisor::prepare(args(), &environment(), started()).unwrap();
    let by_conclude = run.conclude(Ok(Output {
        status: ExitStatus { code: Some(2) },
        stderr: b"0123456789".to_vec(),
    }));
    let by_judge = run.judge(Outcome::ExecutionFailure {
        exit_code: Some(2),
        captured_stderr: b"0123456789".to_vec(),
    });
    assert_eq!(by_conclude.exit_code, 1);
    assert_eq!(by_judge.exit_code, 1);
    let a = by_conclude.alert.unwrap();
    let b = by_judge.alert.unwrap();
    assert_eq!(a.endpoint, b.endpoint);
    assert_eq!(a.headers, b.headers);
    assert_eq!(a.payload, b.payload);
    let json: serde_json::Value = serde_json::from_str(&a.payload).unwrap();
    assert_eq!(
        json["body"],
        "Execution of job at 2024-01-02T03:04:05.678Z failed: exited with status code 2\n\nCommand: \"/usr/bin/job\"\n\nArguments:\n\n  \"-v\"\n\nStandard error output (truncated):\n\n[...]\n6789"
    );
    assert_eq!(json["category"], "cron");
    assert_eq!(json["origin"], "host-17");
}

#[test]
fn judge_of_success_is_silent() {
    let run = Supervisor::prepare(args(), &environment(), started()).unwrap();
    let verdict = run.judge(Outcome::Success);
    assert_eq!(verdict.exit_code, 0);
    assert!(verdict.alert.is_none());
    let verdict = run.conclude(Ok(Output {
        status: ExitStatus { code: Some(3) },
        stderr: b"ignored".to_vec(),
    }));
    assert_eq!(verdict.exit_code, 0);
    assert!(verdict.alert.is_none());
}

#[test]
fn judge_of_spawn_failure_reports_the_error() {
    let run = Supervisor::prepare(args(), &environment(), started()).unwrap();
    let verdict = run.judge(Outcome::SpawnFailure {
        error: "Permission denied (os error 13)".to_string(),
    });
    assert_eq!(verdict.exit_code, 1);
    let request = verdict.alert.unwrap();
    let json: serde_json::Value = serde_json::from_str(&request.payload).unwrap();
    assert_eq!(
        json["body"],
        "Failed to start job at 2024-01-02T03:04:05.678Z: Permission denied (os error 13)\n\nCommand: \"/usr/bin/job\"\n\nArguments:\n\n  \"-v\""
    );
    assert_eq!(json["contentType"], "text/plain");
}
