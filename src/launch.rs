//! The command line of a launched browser.
use vstd::prelude::*;
use vstd::string::StringExecFns;

verus! {

/// The user agent that a launched browser presents when none is given.
pub const DEFAULT_USER_AGENT: &'static str = "Mozilla/5.0 (Windows NT 10.0; Win64; x64) AppleWebKit/537.36 (KHTML, like Gecko) Chrome/131.0.0.0 Safari/537.36";

/// The prefix of the user-agent switch.
pub const USER_AGENT_SWITCH: &'static str = "--user-agent=";

/// The switch that opens the browser in incognito mode.
pub const INCOGNITO_SWITCH: &'static str = "--incognito";

/// What a new browser process is started with.
#[derive(Clone, Debug, PartialEq, Eq)]
pub struct LaunchPlan {
    /// Run without a visible window.
    pub headless: bool,
    /// Extra command-line switches, in order.
    pub args: Vec<String>,
}

/// The user agent a launched browser presents.
pub open spec fn user_agent_of(custom: Option<String>) -> Seq<char> {
    match custom {
        Some(ua) => ua@,
        None => DEFAULT_USER_AGENT@,
    }
}

/// The switches a launched browser receives: the user agent, then the
/// incognito switch when asked for.
pub open spec fn launch_args(custom: Option<String>, incognito: bool) -> Seq<Seq<char>> {
    let ua = USER_AGENT_SWITCH@ + user_agent_of(custom);
    if incognito {
        seq![ua, INCOGNITO_SWITCH@]
    } else {
        seq![ua]
    }
}

/// Builds the launch settings of a new browser process.
pub fn launch_plan(headless: bool, user_agent: &Option<String>, incognito: bool) -> (r: LaunchPlan)
    ensures
        r.headless == headless,
        r.args@.map_values(|a: String| a@) == launch_args(*user_agent, incognito),
        r.args@.len() == launch_args(*user_agent, incognito).len(),
        forall|i: int|
            0 <= i < r.args@.len() ==> #[trigger] r.args@[i]@ == launch_args(*user_agent, incognito)[i],
{
    let mut ua_arg = String::from_str(USER_AGENT_SWITCH);
    match user_agent {
        Some(ua) => ua_arg.append(ua.as_str()),
        None => ua_arg.append(DEFAULT_USER_AGENT),
    }
    let mut args: Vec<String> = Vec::new();
    args.push(ua_arg);
    if incognito {
        args.push(String::from_str(INCOGNITO_SWITCH));
    }
    assert(args@.map_values(|a: String| a@) =~= launch_args(*user_agent, incognito));
    assert(args@.map_values(|a: String| a@).len() == args@.len());
    LaunchPlan { headless, args }
}

} // verus!
