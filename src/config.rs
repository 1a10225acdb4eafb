//! Resolution of command-line flags into a session configuration.
use vstd::prelude::*;

verus! {

/// The flags as given on the command line, before any check of how they
/// combine.
#[derive(Clone, Debug, Default, PartialEq, Eq)]
pub struct CliFlags {
    /// `--connect <ws_url>`: attach to a running browser.
    pub connect: Option<String>,
    /// `--new`: launch a browser.
    pub new: bool,
    /// `--url <url>`: where the tab navigates.
    pub url: Option<String>,
    /// `--headful`: launch with a visible window.
    pub headful: bool,
    /// `--clean`: clear cookies and localStorage before export.
    pub clean: bool,
    /// `--payload <file>`: script to inject.
    pub payload: Option<String>,
    /// `--output <file>`: where cookies are exported.
    pub output: Option<String>,
    /// `--wait`: block on operator input before closing.
    pub wait: bool,
    /// `--confirm`: block on operator input before the tasks.
    pub confirm: bool,
    /// `--user-agent <ua>`: custom user agent of a launched browser.
    pub user_agent: Option<String>,
    /// `--incognito`: isolated browsing context.
    pub incognito: bool,
    /// `--stealth`: anti-detection patches.
    pub stealth: bool,
    /// `--verbose`: diagnostic output.
    pub verbose: bool,
}

/// How the browser handle is acquired.
#[derive(Clone, Debug, PartialEq, Eq)]
pub enum Connection {
    /// Attach to a running browser at a WebSocket endpoint.
    Attach { address: String },
    /// Launch a new browser process.
    Launch { headless: bool, user_agent: Option<String> },
}

/// A validated session configuration. Headless mode and a custom user agent
/// exist only in the launch variant of `connection`.
#[derive(Clone, Debug, PartialEq, Eq)]
pub struct SessionConfig {
    pub connection: Connection,
    pub url: Option<String>,
    pub incognito: bool,
    pub stealth: bool,
    pub clean: bool,
    pub payload: Option<String>,
    pub output: Option<String>,
    pub wait: bool,
    pub confirm: bool,
    pub verbose: bool,
}

/// A combination of flags that is refused before any browser is contacted.
#[derive(Clone, Copy, Debug, PartialEq, Eq)]
pub enum UsageError {
    /// Both `--connect` and `--new` were given.
    ConflictingInstance,
    /// Neither `--connect` nor `--new` was given.
    MissingInstance,
    /// `--headful` was given without `--new`.
    HeadfulWithoutNew,
    /// `--user-agent` was given without `--new`.
    UserAgentWithoutNew,
}

impl UsageError {
    /// A line that tells the operator what was wrong.
    pub fn message(&self) -> (r: &'static str) {
        match self {
            UsageError::ConflictingInstance => "'--connect' cannot be used with '--new'",
            UsageError::MissingInstance => "one of '--connect <ws_url>' or '--new' is required",
            UsageError::HeadfulWithoutNew => "'--headful' requires '--new'",
            UsageError::UserAgentWithoutNew => "'--user-agent' requires '--new'",
        }
    }
}

/// The usage error that a set of flags raises, if any; the first rule that
/// fails is the one reported.
pub open spec fn usage_error(f: CliFlags) -> Option<UsageError> {
    if f.connect is Some && f.new {
        Some(UsageError::ConflictingInstance)
    } else if f.connect is None && !f.new {
        Some(UsageError::MissingInstance)
    } else if f.headful && !f.new {
        Some(UsageError::HeadfulWithoutNew)
    } else if f.user_agent is Some && !f.new {
        Some(UsageError::UserAgentWithoutNew)
    } else {
        None
    }
}

/// The configuration that valid flags describe.
pub open spec fn config_of(f: CliFlags) -> SessionConfig {
    SessionConfig {
        connection: if f.new {
            Connection::Launch { headless: !f.headful, user_agent: f.user_agent }
        } else {
            Connection::Attach { address: f.connect.unwrap() }
        },
        url: f.url,
        incognito: f.incognito,
        stealth: f.stealth,
        clean: f.clean,
        payload: f.payload,
        output: f.output,
        wait: f.wait,
        confirm: f.confirm,
        verbose: f.verbose,
    }
}

/// Checks how the flags combine and builds the session configuration.
pub fn resolve_config(flags: CliFlags) -> (r: Result<SessionConfig, UsageError>)
    ensures
        match r {
            Ok(c) => usage_error(flags) is None && c == config_of(flags),
            Err(e) => usage_error(flags) == Some(e),
        },
        (flags.connect is Some) == flags.new ==> r is Err,
        (flags.headful || flags.user_agent is Some) && !flags.new ==> r is Err,
{
    let has_connect = flags.connect.is_some();
    if has_connect && flags.new {
        return Err(UsageError::ConflictingInstance);
    }
    if !has_connect && !flags.new {
        return Err(UsageError::MissingInstance);
    }
    if flags.headful && !flags.new {
        return Err(UsageError::HeadfulWithoutNew);
    }
    if flags.user_agent.is_some() && !flags.new {
        return Err(UsageError::UserAgentWithoutNew);
    }
    let CliFlags {
        connect, new, url, headful, clean, payload, output, wait, confirm, user_agent,
        incognito, stealth, verbose,
    } = flags;
    let connection = if new {
        Connection::Launch { headless: !headful, user_agent }
    } else {
        Connection::Attach { address: connect.unwrap() }
    };
    Ok(
        SessionConfig {
            connection, url, incognito, stealth, clean, payload, output, wait, confirm, verbose,
        },
    )
}

} // verus!
