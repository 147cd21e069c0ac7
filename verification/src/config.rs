//! The alert configuration, and how the command line and the environment
//! resolve to it.

use vstd::prelude::*;
use vstd::string::*;

use crate::Args;

verus! {

/// What the process was started with, read once: the environment variables,
/// each as a name and a value, and the name of the host.
#[derive(Clone, Debug)]
pub struct Environment {
    pub variables: Vec<(String, String)>,
    pub hostname: String,
}

/// Where alerts go, and what every alert carries.
#[derive(Clone, Debug)]
pub struct AlertConfig {
    pub endpoint: String,
    pub channel: String,
    pub category: Option<String>,
    pub origin: Option<String>,
    pub token: String,
}

/// An alert configuration as plain text.
pub struct AlertConfigView {
    pub endpoint: Seq<char>,
    pub channel: Seq<char>,
    pub category: Option<Seq<char>>,
    pub origin: Option<Seq<char>>,
    pub token: Seq<char>,
}

impl View for AlertConfig {
    type V = AlertConfigView;

    open spec fn view(&self) -> AlertConfigView {
        AlertConfigView {
            endpoint: self.endpoint@,
            channel: self.channel@,
            category: self.category.deep_view(),
            origin: self.origin.deep_view(),
            token: self.token@,
        }
    }
}

/// A setting without which no alert can be sent, and that nothing supplies.
#[derive(Clone, Copy, Debug, PartialEq, Eq, Structural)]
pub enum ConfigError {
    MissingEndpoint,
    MissingToken,
}

impl ConfigError {
    /// What to tell the operator.
    pub open spec fn message_text(self) -> Seq<char> {
        match self {
            ConfigError::MissingEndpoint => "One of --alert-endpoint, CRONWRAP_ALERT_ENDPOINT, or ALERT_ENDPOINT must be set"@,
            ConfigError::MissingToken => "One of --alert-token, CRONWRAP_ALERT_TOKEN, or ALERT_TOKEN must be set"@,
        }
    }

    /// What to tell the operator: the three places where the missing setting
    /// can be given.
    pub fn message(&self) -> (text: String)
        ensures
            text@ == self.message_text(),
    {
        match self {
            ConfigError::MissingEndpoint => String::from_str(
                "One of --alert-endpoint, CRONWRAP_ALERT_ENDPOINT, or ALERT_ENDPOINT must be set",
            ),
            ConfigError::MissingToken => String::from_str(
                "One of --alert-token, CRONWRAP_ALERT_TOKEN, or ALERT_TOKEN must be set",
            ),
        }
    }
}

/// The value of the first variable called `name`, if there is one.
pub open spec fn lookup(variables: Seq<(Seq<char>, Seq<char>)>, name: Seq<char>) -> Option<
    Seq<char>,
>
    decreases variables.len(),
{
    if variables.len() == 0 {
        None
    } else if variables[0].0 == name {
        Some(variables[0].1)
    } else {
        lookup(variables.drop_first(), name)
    }
}

/// The name of the variable that is specific to this program.
pub open spec fn specific_name(name: Seq<char>) -> Seq<char> {
    "CRONWRAP_"@ + name
}

/// A setting by precedence: the value given on the command line, else the
/// variable specific to this program, else the variable of the plain name.
pub open spec fn by_precedence(
    explicit: Option<Seq<char>>,
    variables: Seq<(Seq<char>, Seq<char>)>,
    name: Seq<char>,
) -> Option<Seq<char>> {
    if explicit is Some {
        explicit
    } else if lookup(variables, specific_name(name)) is Some {
        lookup(variables, specific_name(name))
    } else {
        lookup(variables, name)
    }
}

/// The origin of alerts: none where it is disabled, else by precedence, and
/// the name of the host where nothing else names one.
pub open spec fn resolved_origin(
    disabled: bool,
    explicit: Option<Seq<char>>,
    variables: Seq<(Seq<char>, Seq<char>)>,
    hostname: Seq<char>,
) -> Option<Seq<char>> {
    if disabled {
        None
    } else if by_precedence(explicit, variables, "ALERT_ORIGIN"@) is Some {
        by_precedence(explicit, variables, "ALERT_ORIGIN"@)
    } else {
        Some(hostname)
    }
}

/// The alert configuration that the command line `args` and the environment
/// give, or the first required setting that neither supplies.
pub open spec fn resolved_config(
    args: Args,
    variables: Seq<(Seq<char>, Seq<char>)>,
    hostname: Seq<char>,
) -> Result<AlertConfigView, ConfigError> {
    let endpoint = by_precedence(args.alert_endpoint.deep_view(), variables, "ALERT_ENDPOINT"@);
    let channel = by_precedence(args.alert_channel.deep_view(), variables, "ALERT_CHANNEL"@);
    let category = by_precedence(args.alert_category.deep_view(), variables, "ALERT_CATEGORY"@);
    let origin = resolved_origin(
        args.no_alert_origin,
        args.alert_origin.deep_view(),
        variables,
        hostname,
    );
    let token = by_precedence(args.alert_token.deep_view(), variables, "ALERT_TOKEN"@);
    if endpoint is None {
        Err(ConfigError::MissingEndpoint)
    } else if token is None {
        Err(ConfigError::MissingToken)
    } else {
        Ok(
            AlertConfigView {
                endpoint: endpoint->0,
                channel: if channel is Some {
                    channel->0
                } else {
                    "cronwrap"@
                },
                category,
                origin,
                token: token->0,
            },
        )
    }
}

/// A copy of an optional text.
fn copy_text(value: &Option<String>) -> (copy: Option<String>)
    ensures
        copy.deep_view() == value.deep_view(),
{
    match value {
        Some(text) => Some(text.clone()),
        None => None,
    }
}

/// `gethostname::gethostname`: the name that the operating system has for
/// this host. It is whatever the system says, so nothing is stated of it.
#[verifier::external_body]
fn local_hostname() -> String {
    gethostname::gethostname().to_string_lossy().into_owned()
}

impl Environment {
    /// The environment with the given variables, on this host.
    pub fn capture(variables: Vec<(String, String)>) -> (env: Environment)
        ensures
            env.variables == variables,
    {
        Environment { variables, hostname: local_hostname() }
    }

    /// The value of the first variable called `name`.
    pub fn var(&self, name: &str) -> (value: Option<String>)
        ensures
            value.deep_view() == lookup(self.variables.deep_view(), name@),
    {
        let ghost variables = self.variables.deep_view();
        let wanted = String::from_str(name);
        let mut i: usize = 0;
        assert(variables.skip(0) == variables);
        while i < self.variables.len()
            invariant
                i <= self.variables.len(),
                variables == self.variables.deep_view(),
                wanted@ == name@,
                lookup(variables, name@) == lookup(variables.skip(i as int), name@),
            decreases self.variables.len() - i,
        {
            let ghost rest = variables.skip(i as int);
            assert(rest[0] == variables[i as int]);
            assert(rest.drop_first() == variables.skip(i + 1));
            if self.variables[i].0 == wanted {
                return Some(self.variables[i].1.clone());
            }
            i += 1;
        }
        None
    }
}

/// The setting `var_name`: `value` where the command line gave one, else the
/// variable `CRONWRAP_` + `var_name`, else the variable `var_name`.
pub fn or_env(value: &Option<String>, var_name: &str, env: &Environment) -> (setting: Option<String>)
    ensures
        setting.deep_view() == by_precedence(
            value.deep_view(),
            env.variables.deep_view(),
            var_name@,
        ),
{
    if value.is_some() {
        return copy_text(value);
    }
    let mut specific = String::from_str("CRONWRAP_");
    specific.append(var_name);
    let first = env.var(specific.as_str());
    if first.is_some() {
        return first;
    }
    env.var(var_name)
}

/// The alert configuration for one run. Each setting is resolved by itself:
/// the command line first, then the variable specific to this program, then
/// the variable of the plain name. The channel falls back to `cronwrap`, the
/// origin to the name of the host unless `args.no_alert_origin` disables it,
/// and the category stays unset. Without an endpoint or a token there is no
/// configuration.
pub fn resolve_config(args: &Args, env: &Environment) -> (config: Result<AlertConfig, ConfigError>)
    ensures
        (match resolved_config(*args, env.variables.deep_view(), env.hostname@) {
            Ok(resolved) => config is Ok && config->Ok_0@ == resolved,
            Err(missing) => config is Err && config->Err_0 == missing,
        }),
{
    let endpoint = match or_env(&args.alert_endpoint, "ALERT_ENDPOINT", env) {
        Some(endpoint) => endpoint,
        None => {
            return Err(ConfigError::MissingEndpoint);
        },
    };
    let channel = match or_env(&args.alert_channel, "ALERT_CHANNEL", env) {
        Some(channel) => channel,
        None => String::from_str("cronwrap"),
    };
    let category = or_env(&args.alert_category, "ALERT_CATEGORY", env);
    let origin = if args.no_alert_origin {
        None
    } else {
        match or_env(&args.alert_origin, "ALERT_ORIGIN", env) {
            Some(origin) => Some(origin),
            None => Some(env.hostname.clone()),
        }
    };
    let token = match or_env(&args.alert_token, "ALERT_TOKEN", env) {
        Some(token) => token,
        None => {
            return Err(ConfigError::MissingToken);
        },
    };
    Ok(AlertConfig { endpoint, channel, category, origin, token })
}

/// The origin is unset exactly where it is disabled. Where it is not, it is
/// the origin given on the command line, if there is one; and where neither
/// the command line nor a variable names one, it is the name of the host.
pub proof fn law_origin(
    disabled: bool,
    explicit: Option<Seq<char>>,
    variables: Seq<(Seq<char>, Seq<char>)>,
    hostname: Seq<char>,
)
    ensures
        resolved_origin(disabled, explicit, variables, hostname) is None <==> disabled,
        !disabled && explicit is Some ==> resolved_origin(disabled, explicit, variables, hostname)
            == explicit,
        !disabled && explicit is None && lookup(variables, specific_name("ALERT_ORIGIN"@)) is None
            && lookup(variables, "ALERT_ORIGIN"@) is None ==> resolved_origin(
            disabled,
            explicit,
            variables,
            hostname,
        ) == Some(hostname),
{
}

/// The category is unset exactly where neither the command line nor a
/// variable gives one.
pub proof fn law_category(args: Args, variables: Seq<(Seq<char>, Seq<char>)>, hostname: Seq<char>)
    requires
        resolved_config(args, variables, hostname) is Ok,
    ensures
        resolved_config(args, variables, hostname)->Ok_0.category is None <==> ({
            &&& args.alert_category is None
            &&& lookup(variables, specific_name("ALERT_CATEGORY"@)) is None
            &&& lookup(variables, "ALERT_CATEGORY"@) is None
        }),
{
}

} // verus!
