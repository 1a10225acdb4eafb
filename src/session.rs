//! The order of a session's steps, and what each outcome leads to.
//!
//! A run is a fixed sequence of steps chosen by the configuration. The
//! caller performs the action that the session hands out and reports the
//! outcome; a success moves on to the next step, and any failure ends the
//! run with exit status 1. After the tab is closed the run ends with exit
//! status 0.
use vstd::prelude::*;
use crate::config::{Connection, SessionConfig};
use crate::cookies::{deletion_requests, deletions_for, CookieDeletion, CookieKey};
use crate::launch::{launch_args, launch_plan, LaunchPlan};

verus! {

/// How long the page is left to settle after a reload has reported that
/// navigation completed. A heuristic, not a guarantee that the page is done.
pub const SETTLE_MILLIS: u64 = 600;

/// The script that empties the page's localStorage.
pub const CLEAR_LOCAL_STORAGE: &'static str = "localStorage.clear()";

/// One step of a run.
#[derive(Clone, Copy, Debug, PartialEq, Eq, Structural)]
pub enum Step {
    /// Attach to or launch the browser.
    Acquire,
    /// Open the one tab of the run.
    OpenTab,
    /// Patch the page's automation-detection surfaces.
    Stealth,
    /// Navigate to the target URL and wait until it has loaded.
    Navigate,
    /// Wait for the operator before the tasks.
    Confirm,
    /// Fetch the cookies that the clean pass deletes.
    FetchForClean,
    /// Delete the fetched cookies by name and domain.
    DeleteCookies,
    /// Empty localStorage.
    ClearLocalStorage,
    /// Reload the page and wait until it has loaded.
    Reload,
    /// Let the reloaded page settle.
    Settle,
    /// Fetch the cookies and write them to the output file.
    Export,
    /// Read the payload file.
    ReadPayload,
    /// Evaluate the payload in the page.
    RunPayload,
    /// Wait for the operator before closing.
    Hold,
    /// Close the tab.
    CloseTab,
}

/// What the caller is asked to perform next.
#[derive(Clone, Debug, PartialEq, Eq)]
pub enum Action {
    /// Attach to the browser at this WebSocket endpoint.
    Connect { address: String },
    /// Start a new browser process.
    Launch(LaunchPlan),
    /// Open a tab, inside a new incognito browsing context when asked.
    OpenTab { in_new_context: bool },
    /// Apply the anti-detection patches to the tab.
    EnableStealth,
    /// Navigate to the URL and wait until navigation completes.
    Navigate { url: String },
    /// Block on one line of operator input before the tasks.
    AwaitConfirmation,
    /// Fetch the tab's cookies and report their keys.
    FetchCookies,
    /// Delete cookies as the requests say.
    DeleteCookies(Vec<CookieDeletion>),
    /// Evaluate a script in the tab, ignoring its value.
    Evaluate { script: String },
    /// Reload the page, ignoring the cache, and wait until it has loaded.
    Reload,
    /// Sleep for the given number of milliseconds.
    Sleep { millis: u64 },
    /// Fetch the tab's cookies and write them, as JSON, to the file.
    ExportCookies { path: String },
    /// Read the whole text of the file.
    ReadPayload { path: String },
    /// Block on one line of operator input before closing.
    AwaitRelease,
    /// Close the tab, even if the page tries to block unloading.
    CloseTab,
    /// End the process with this status.
    Exit { code: u8 },
}

/// The outcome of the last action.
#[derive(Clone, Debug, PartialEq, Eq)]
pub enum Event {
    /// The action succeeded and carries no data.
    Done,
    /// The cookies were fetched; these are their keys.
    Cookies(Vec<CookieKey>),
    /// The payload file was read; this is its text.
    Payload(String),
    /// The action failed.
    Failed,
}

/// `[s]` when `on` holds, else empty.
pub open spec fn step_if(on: bool, s: Step) -> Seq<Step> {
    if on {
        seq![s]
    } else {
        Seq::empty()
    }
}

/// The steps of a clean pass, done only when cookies are exported too.
pub open spec fn clean_steps(c: SessionConfig) -> Seq<Step> {
    if c.clean && c.output is Some {
        seq![Step::FetchForClean, Step::DeleteCookies, Step::ClearLocalStorage, Step::Reload, Step::Settle]
    } else {
        Seq::empty()
    }
}

/// The optional steps between opening the tab and the cookie and payload
/// tasks.
pub open spec fn prelude_steps(c: SessionConfig) -> Seq<Step> {
    step_if(c.stealth, Step::Stealth) + step_if(c.url is Some, Step::Navigate) + step_if(
        c.confirm,
        Step::Confirm,
    )
}

/// The payload steps: read the file, then evaluate it.
pub open spec fn payload_steps(c: SessionConfig) -> Seq<Step> {
    if c.payload is Some {
        seq![Step::ReadPayload, Step::RunPayload]
    } else {
        Seq::empty()
    }
}

/// The steps between opening and closing the tab.
pub open spec fn middle_steps(c: SessionConfig) -> Seq<Step> {
    prelude_steps(c) + clean_steps(c) + step_if(c.output is Some, Step::Export) + payload_steps(c)
        + step_if(c.wait, Step::Hold)
}

/// Every step of a run of `c` in which each step succeeds, in order.
pub open spec fn plan(c: SessionConfig) -> Seq<Step> {
    seq![Step::Acquire, Step::OpenTab] + middle_steps(c) + seq![Step::CloseTab]
}

/// The outcome that counts as success for step `s`.
pub open spec fn answers(s: Step, ev: Event) -> bool {
    match s {
        Step::FetchForClean => ev is Cookies,
        Step::ReadPayload => ev is Payload,
        _ => ev is Done,
    }
}

/// `a` is the action that performs step `s` of a run of `c`, where `prev`
/// is the outcome of the step before it.
pub open spec fn performs(a: Action, c: SessionConfig, s: Step, prev: Event) -> bool {
    match s {
        Step::Acquire => match c.connection {
            Connection::Attach { address } => a matches Action::Connect { address: x } && x@
                == address@,
            Connection::Launch { headless, user_agent } => a matches Action::Launch(p) && p.headless
                == headless && p.args@.map_values(|s: String| s@) == launch_args(
                user_agent,
                c.incognito,
            ),
        },
        Step::OpenTab => a == Action::OpenTab {
            in_new_context: c.connection is Attach && c.incognito,
        },
        Step::Stealth => a is EnableStealth,
        Step::Navigate => a matches Action::Navigate { url } && url@ == c.url.unwrap()@,
        Step::Confirm => a is AwaitConfirmation,
        Step::FetchForClean => a is FetchCookies,
        Step::DeleteCookies => prev matches Event::Cookies(ks) && a matches Action::DeleteCookies(
            ds,
        ) && deletions_for(ds@, ks@),
        Step::ClearLocalStorage => a matches Action::Evaluate { script } && script@
            == CLEAR_LOCAL_STORAGE@,
        Step::Reload => a is Reload,
        Step::Settle => a == Action::Sleep { millis: SETTLE_MILLIS },
        Step::Export => a matches Action::ExportCookies { path } && path@ == c.output.unwrap()@,
        Step::ReadPayload => a matches Action::ReadPayload { path } && path@
            == c.payload.unwrap()@,
        Step::RunPayload => prev matches Event::Payload(text) && a matches Action::Evaluate {
            script,
        } && script@ == text@,
        Step::Hold => a is AwaitRelease,
        Step::CloseTab => a is CloseTab,
    }
}

/// Appends `s` to `v` when `on` holds.
fn push_if(v: &mut Vec<Step>, on: bool, s: Step)
    ensures
        final(v)@ == old(v)@ + step_if(on, s),
{
    if on {
        v.push(s);
        assert(final(v)@ =~= old(v)@ + step_if(on, s));
    } else {
        assert(old(v)@ =~= old(v)@ + step_if(on, s));
    }
}

/// Appends the steps of a clean pass to `v` when `c` asks for one.
fn push_clean_steps(v: &mut Vec<Step>, c: &SessionConfig)
    ensures
        final(v)@ == old(v)@ + clean_steps(*c),
{
    if c.clean && c.output.is_some() {
        v.push(Step::FetchForClean);
        v.push(Step::DeleteCookies);
        v.push(Step::ClearLocalStorage);
        v.push(Step::Reload);
        v.push(Step::Settle);
    }
    assert(final(v)@ =~= old(v)@ + clean_steps(*c));
}

/// Appends the payload steps to `v` when `c` names a payload file.
fn push_payload_steps(v: &mut Vec<Step>, c: &SessionConfig)
    ensures
        final(v)@ == old(v)@ + payload_steps(*c),
{
    if c.payload.is_some() {
        v.push(Step::ReadPayload);
        v.push(Step::RunPayload);
    }
    assert(final(v)@ =~= old(v)@ + payload_steps(*c));
}

proof fn lemma_push_is_concat(x: Seq<Step>, s: Step)
    ensures
        x.push(s) == x + seq![s],
{
    assert(x.push(s) =~= x + seq![s]);
}

/// The steps of a run of `c`, in order.
pub fn plan_steps(c: &SessionConfig) -> (r: Vec<Step>)
    ensures
        r@ == plan(*c),
{
    let export = c.output.is_some();
    let mut m: Vec<Step> = Vec::new();
    push_if(&mut m, c.stealth, Step::Stealth);
    assert(m@ =~= step_if(c.stealth, Step::Stealth));
    push_if(&mut m, c.url.is_some(), Step::Navigate);
    push_if(&mut m, c.confirm, Step::Confirm);
    push_clean_steps(&mut m, c);
    push_if(&mut m, export, Step::Export);
    push_payload_steps(&mut m, c);
    push_if(&mut m, c.wait, Step::Hold);
    let mut r: Vec<Step> = Vec::new();
    r.push(Step::Acquire);
    r.push(Step::OpenTab);
    r.append(&mut m);
    proof {
        lemma_push_is_concat(r@, Step::CloseTab);
    }
    r.push(Step::CloseTab);
    r
}

/// Whether `ev` is the successful outcome of step `s`.
pub fn succeeds(s: Step, ev: &Event) -> (r: bool)
    ensures
        r == answers(s, *ev),
{
    match s {
        Step::FetchForClean => matches!(ev, Event::Cookies(_)),
        Step::ReadPayload => matches!(ev, Event::Payload(_)),
        _ => matches!(ev, Event::Done),
    }
}

/// What step `s` of a run of `c` needs: the data that the configuration or
/// the outcome of the step before it supplies.
pub open spec fn can_perform(c: SessionConfig, s: Step, prev: Event) -> bool {
    &&& s == Step::DeleteCookies ==> prev is Cookies
    &&& s == Step::RunPayload ==> prev is Payload
    &&& s == Step::Navigate ==> c.url is Some
    &&& s == Step::Export ==> c.output is Some
    &&& s == Step::ReadPayload ==> c.payload is Some
}

/// The action that performs step `s` of a run of `c`, given the outcome of
/// the step before it.
fn action_for(c: &SessionConfig, s: Step, prev: Event) -> (a: Action)
    requires
        can_perform(*c, s, prev),
    ensures
        performs(a, *c, s, prev),
{
    match s {
        Step::Acquire => match &c.connection {
            Connection::Attach { address } => Action::Connect { address: address.clone() },
            Connection::Launch { headless, user_agent } => Action::Launch(
                launch_plan(*headless, user_agent, c.incognito),
            ),
        },
        Step::OpenTab => {
            let in_new_context = match &c.connection {
                Connection::Attach { .. } => c.incognito,
                Connection::Launch { .. } => false,
            };
            Action::OpenTab { in_new_context }
        },
        Step::Stealth => Action::EnableStealth,
        Step::Navigate => Action::Navigate { url: c.url.as_ref().unwrap().clone() },
        Step::Confirm => Action::AwaitConfirmation,
        Step::FetchForClean => Action::FetchCookies,
        Step::DeleteCookies => match prev {
            Event::Cookies(ks) => Action::DeleteCookies(deletion_requests(&ks)),
            // not reached: `can_perform` asks for fetched cookies here
            _ => Action::DeleteCookies(Vec::new()),
        },
        Step::ClearLocalStorage => Action::Evaluate { script: String::from_str(CLEAR_LOCAL_STORAGE) },
        Step::Reload => Action::Reload,
        Step::Settle => Action::Sleep { millis: SETTLE_MILLIS },
        Step::Export => Action::ExportCookies { path: c.output.as_ref().unwrap().clone() },
        Step::ReadPayload => Action::ReadPayload { path: c.payload.as_ref().unwrap().clone() },
        Step::RunPayload => match prev {
            Event::Payload(text) => Action::Evaluate { script: text },
            // not reached: `can_perform` asks for the payload text here
            _ => Action::Evaluate { script: String::new() },
        },
        Step::Hold => Action::AwaitRelease,
        Step::CloseTab => Action::CloseTab,
    }
}

/// Every step of `s` satisfies `f`.
pub open spec fn all_steps(s: Seq<Step>, f: spec_fn(Step) -> bool) -> bool {
    forall|j: int| 0 <= j < s.len() ==> f(#[trigger] s[j])
}

pub(crate) proof fn lemma_all_steps_concat(a: Seq<Step>, b: Seq<Step>, f: spec_fn(Step) -> bool)
    requires
        all_steps(a, f),
        all_steps(b, f),
    ensures
        all_steps(a + b, f),
{
    assert forall|j: int| 0 <= j < (a + b).len() implies f(#[trigger] (a + b)[j]) by {
        if j < a.len() {
            assert(f(a[j]));
        } else {
            assert(f(b[j - a.len()]));
        }
    }
}

/// A step that consumes data directly follows the step that yields it.
spec fn paired(s: Seq<Step>) -> bool {
    &&& s.len() > 0 ==> s[0] != Step::DeleteCookies && s[0] != Step::RunPayload
    &&& forall|k: int|
        #![trigger s[k], s[k - 1]]
        0 < k < s.len() ==> {
            &&& s[k] == Step::DeleteCookies ==> s[k - 1] == Step::FetchForClean
            &&& s[k] == Step::RunPayload ==> s[k - 1] == Step::ReadPayload
        }
}

proof fn lemma_paired_concat(a: Seq<Step>, b: Seq<Step>)
    requires
        paired(a),
        paired(b),
    ensures
        paired(a + b),
{
    let s = a + b;
    assert forall|k: int| #![trigger s[k], s[k - 1]] 0 < k < s.len() implies {
        &&& s[k] == Step::DeleteCookies ==> s[k - 1] == Step::FetchForClean
        &&& s[k] == Step::RunPayload ==> s[k - 1] == Step::ReadPayload
    } by {
        if k < a.len() {
            assert(s[k] == a[k] && s[k - 1] == a[k - 1]);
        } else if k == a.len() {
            assert(s[k] == b[0]);
        } else {
            let j = k - a.len();
            assert(s[k] == b[j] && s[k - 1] == b[j - 1]);
        }
    }
    if s.len() > 0 {
        if a.len() == 0 {
            assert(s[0] == b[0]);
        } else {
            assert(s[0] == a[0]);
        }
    }
}

/// The configuration holds the argument of step `s`.
spec fn has_argument(c: SessionConfig, s: Step) -> bool {
    &&& s == Step::Navigate ==> c.url is Some
    &&& s == Step::Export ==> c.output is Some
    &&& s == Step::ReadPayload ==> c.payload is Some
}

proof fn lemma_plan_has_arguments(c: SessionConfig)
    ensures
        all_steps(plan(c), |s: Step| has_argument(c, s)),
{
    let f = |s: Step| has_argument(c, s);
    let p0 = seq![Step::Acquire, Step::OpenTab];
    let p1 = step_if(c.stealth, Step::Stealth);
    let p2 = step_if(c.url is Some, Step::Navigate);
    let p3 = step_if(c.confirm, Step::Confirm);
    let p4 = clean_steps(c);
    let p5 = step_if(c.output is Some, Step::Export);
    let p6 = payload_steps(c);
    let p7 = step_if(c.wait, Step::Hold);
    let p8 = seq![Step::CloseTab];
    lemma_all_steps_concat(p1, p2, f);
    lemma_all_steps_concat(p1 + p2, p3, f);
    lemma_all_steps_concat(p1 + p2 + p3, p4, f);
    lemma_all_steps_concat(p1 + p2 + p3 + p4, p5, f);
    lemma_all_steps_concat(p1 + p2 + p3 + p4 + p5, p6, f);
    lemma_all_steps_concat(p1 + p2 + p3 + p4 + p5 + p6, p7, f);
    let m = middle_steps(c);
    lemma_all_steps_concat(p0, m, f);
    lemma_all_steps_concat(p0 + m, p8, f);
}

proof fn lemma_plan_paired(c: SessionConfig)
    ensures
        paired(plan(c)),
{
    let p0 = seq![Step::Acquire, Step::OpenTab];
    let p1 = step_if(c.stealth, Step::Stealth);
    let p2 = step_if(c.url is Some, Step::Navigate);
    let p3 = step_if(c.confirm, Step::Confirm);
    let p4 = clean_steps(c);
    let p5 = step_if(c.output is Some, Step::Export);
    let p6 = payload_steps(c);
    let p7 = step_if(c.wait, Step::Hold);
    let p8 = seq![Step::CloseTab];
    assert(paired(p4)) by {
        if p4.len() > 0 {
            assert(p4[1 - 1] == Step::FetchForClean);
        }
    }
    assert(paired(p6)) by {
        if p6.len() > 0 {
            assert(p6[1 - 1] == Step::ReadPayload);
        }
    }
    lemma_paired_concat(p1, p2);
    lemma_paired_concat(p1 + p2, p3);
    lemma_paired_concat(p1 + p2 + p3, p4);
    lemma_paired_concat(p1 + p2 + p3 + p4, p5);
    lemma_paired_concat(p1 + p2 + p3 + p4 + p5, p6);
    lemma_paired_concat(p1 + p2 + p3 + p4 + p5 + p6, p7);
    let m = middle_steps(c);
    lemma_paired_concat(p0, m);
    lemma_paired_concat(p0 + m, p8);
}

/// Each step of a plan has what it needs: the configuration holds its
/// argument, and a step that consumes data follows the step that yields it.
proof fn lemma_paired_steps(c: SessionConfig, i: int)
    requires
        0 <= i,
        i + 1 < plan(c).len(),
    ensures
        forall|ev: Event| answers(plan(c)[i], ev) ==> can_perform(c, plan(c)[i + 1], ev),
{
    lemma_plan_has_arguments(c);
    lemma_plan_paired(c);
    lemma_pair_at(plan(c), i, |s: Step| has_argument(c, s));
}

proof fn lemma_pair_at(p: Seq<Step>, i: int, f: spec_fn(Step) -> bool)
    requires
        0 <= i,
        i + 1 < p.len(),
        paired(p),
        all_steps(p, f),
    ensures
        f(p[i + 1]),
        p[i + 1] == Step::DeleteCookies ==> p[i] == Step::FetchForClean,
        p[i + 1] == Step::RunPayload ==> p[i] == Step::ReadPayload,
{
    let k = i + 1;
    assert(p[k - 1] == p[i]);
}

/// The session `post` and the action `a` follow from `pre` when the
/// awaited step had outcome `ev`.
pub open spec fn transition(pre: Session, post: Session, ev: Event, a: Action) -> bool {
    let c = pre.config();
    let i = pre.position();
    let last = i + 1 == plan(c).len();
    &&& post.config() == c
    &&& 0 <= i < plan(c).len()
    &&& 0 <= post.position() < plan(c).len()
    &&& if !answers(plan(c)[i], ev) {
        post.is_finished() && a == Action::Exit { code: 1 }
    } else if last {
        post.is_finished() && a == Action::Exit { code: 0 }
    } else {
        &&& post.position() == i + 1
        &&& !post.is_finished()
        &&& performs(a, c, plan(c)[i + 1], ev)
    }
}

/// A run in progress: its configuration, its steps, and the step whose
/// outcome is awaited.
pub struct Session {
    config: SessionConfig,
    steps: Vec<Step>,
    pos: usize,
    finished: bool,
}

impl Session {
    #[verifier::type_invariant]
    spec fn inv(self) -> bool {
        &&& self.steps@ == plan(self.config)
        &&& self.pos < self.steps.len()
    }

    /// The configuration of the run.
    pub closed spec fn config(&self) -> SessionConfig {
        self.config
    }

    /// The index in `plan(self.config())` of the step whose outcome is awaited.
    pub closed spec fn position(&self) -> int {
        self.pos as int
    }

    /// Whether the run has ended.
    pub closed spec fn is_finished(&self) -> bool {
        self.finished
    }

    /// Begins a run of `config`; the action returned acquires the browser.
    pub fn start(config: SessionConfig) -> (r: (Session, Action))
        ensures
            r.0.config() == config,
            r.0.position() == 0,
            !r.0.is_finished(),
            performs(r.1, config, Step::Acquire, Event::Done),
            plan(config).len() > 0,
    {
        let steps = plan_steps(&config);
        let a = action_for(&config, Step::Acquire, Event::Done);
        (Session { config, steps, pos: 0, finished: false }, a)
    }

    /// Whether the run has ended.
    pub fn finished(&self) -> (r: bool)
        ensures
            r == self.is_finished(),
    {
        self.finished
    }

    /// The step whose outcome is awaited.
    pub fn current_step(&self) -> (r: Step)
        ensures
            0 <= self.position() < plan(self.config()).len(),
            r == plan(self.config())[self.position()],
    {
        proof {
            use_type_invariant(self);
        }
        self.steps[self.pos]
    }

    /// Takes the outcome of the awaited step and returns what to do next:
    /// the next step's action after a success, exit status 0 after the
    /// last step, exit status 1 after any failure.
    pub fn advance(&mut self, ev: Event) -> (a: Action)
        requires
            !old(self).is_finished(),
        ensures
            transition(*old(self), *final(self), ev, a),
    {
        proof {
            use_type_invariant(&*self);
        }
        let s = self.steps[self.pos];
        if !succeeds(s, &ev) {
            self.finished = true;
            return Action::Exit { code: 1 };
        }
        if self.pos + 1 == self.steps.len() {
            self.finished = true;
            return Action::Exit { code: 0 };
        }
        self.pos = self.pos + 1;
        let next = self.steps[self.pos];
        proof {
            lemma_paired_steps(self.config, (self.pos - 1) as int);
        }
        action_for(&self.config, next, ev)
    }
}

} // verus!
