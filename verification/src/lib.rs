//! Supervision of a scheduled command: the command is run once, and where it
//! fails, an alert that reports the failure goes to a remote service.
//!
//! The library decides and formats; its caller reads the command line and the
//! environment, runs the command and posts the alert. A run goes through
//! [`supervisor::Supervisor::prepare`], which resolves the alert configuration
//! before anything is run, and [`supervisor::Supervisor::conclude`], which
//! turns what became of the command into an exit code and, on failure, the
//! one alert to send. [`alert::read_answer`] says what the answer of the
//! service amounts to.

use vstd::prelude::*;

pub mod alert;
pub mod command;
pub mod config;
pub mod json;
pub mod report;
pub mod supervisor;
pub mod text;
pub mod timestamp;

verus! {

/// How many bytes of captured standard error text a report holds, unless the
/// command line says otherwise.
pub const DEFAULT_MAX_OUTPUT_CAPTURE: usize = 65536;

/// The command line: the alert settings, the limits, and the command to run
/// with its arguments.
#[derive(Clone, Debug)]
pub struct Args {
    /// Alert channel (defaults to "cronwrap").
    pub alert_channel: Option<String>,
    /// Alert category (optional).
    pub alert_category: Option<String>,
    /// Alert origin (defaults to the hostname).
    pub alert_origin: Option<String>,
    /// Disable the default alert origin (hostname).
    pub no_alert_origin: bool,
    /// Alert endpoint URI (required).
    pub alert_endpoint: Option<String>,
    /// Authorization token for the alert endpoint (required).
    pub alert_token: Option<String>,
    /// Maximum size of the standard error output to include in the alert
    /// (defaults to `DEFAULT_MAX_OUTPUT_CAPTURE`).
    pub max_output_capture: usize,
    /// Non-zero exit codes to treat as successful.
    pub ignore_exit_code: Vec<i32>,
    /// Program name for use in alert messages.
    pub program_name: Option<String>,
    /// Command to run.
    pub command: String,
    /// Additional arguments.
    pub args: Vec<String>,
}

} // verus!
