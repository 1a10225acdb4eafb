//! What holds of every run.
use vstd::prelude::*;
use crate::config::{config_of, usage_error, CliFlags, Connection, SessionConfig};
use crate::session::{
    all_steps, answers, clean_steps, lemma_all_steps_concat, payload_steps, performs, plan, prelude_steps, middle_steps, step_if, transition, Action,
    Event, Session, Step,
};

verus! {

/// A step that lies strictly between opening and closing the tab.
spec fn inner(s: Step) -> bool {
    s != Step::Acquire && s != Step::OpenTab && s != Step::CloseTab
}

/// Every run acquires the browser first, opens exactly one tab right after,
/// and closes that tab exactly once, as its last step.
pub proof fn lemma_one_tab_per_run(c: SessionConfig)
    ensures
        plan(c).len() >= 3,
        plan(c)[0] == Step::Acquire,
        plan(c)[1] == Step::OpenTab,
        plan(c).last() == Step::CloseTab,
        forall|j: int|
            0 <= j < plan(c).len() ==> {
                &&& (plan(c)[j] == Step::Acquire <==> j == 0)
                &&& (plan(c)[j] == Step::OpenTab <==> j == 1)
                &&& (plan(c)[j] == Step::CloseTab <==> j == plan(c).len() - 1)
            },
{
    let p1 = step_if(c.stealth, Step::Stealth);
    let p2 = step_if(c.url is Some, Step::Navigate);
    let p3 = step_if(c.confirm, Step::Confirm);
    let p4 = clean_steps(c);
    let p5 = step_if(c.output is Some, Step::Export);
    let p6 = payload_steps(c);
    let p7 = step_if(c.wait, Step::Hold);
    let f = |s: Step| inner(s);
    lemma_all_steps_concat(p1, p2, f);
    lemma_all_steps_concat(p1 + p2, p3, f);
    lemma_all_steps_concat(p1 + p2 + p3, p4, f);
    lemma_all_steps_concat(p1 + p2 + p3 + p4, p5, f);
    lemma_all_steps_concat(p1 + p2 + p3 + p4 + p5, p6, f);
    lemma_all_steps_concat(p1 + p2 + p3 + p4 + p5 + p6, p7, f);
    let p = plan(c);
    assert(middle_steps(c) == p1 + p2 + p3 + p4 + p5 + p6 + p7);
    assert forall|j: int| 0 <= j < p.len() implies {
        &&& (p[j] == Step::Acquire <==> j == 0)
        &&& (p[j] == Step::OpenTab <==> j == 1)
        &&& (p[j] == Step::CloseTab <==> j == p.len() - 1)
    } by {
        if 2 <= j < p.len() - 1 {
            assert(p[j] == middle_steps(c)[j - 2]);
            assert(f(middle_steps(c)[j - 2]));
        }
    }
}

/// A run that attaches to a running browser never launches one, and opens
/// exactly one tab.
pub proof fn lemma_attach_never_launches(c: SessionConfig)
    requires
        c.connection is Attach,
    ensures
        forall|j: int, a: Action, ev: Event|
            0 <= j < plan(c).len() && #[trigger] performs(a, c, plan(c)[j], ev) ==> !(a is Launch),
        forall|j: int| 0 <= j < plan(c).len() ==> (plan(c)[j] == Step::OpenTab <==> j == 1),
{
    lemma_one_tab_per_run(c);
}

/// A launched browser is headless unless `--headful` was given.
pub proof fn lemma_headless_unless_headful(f: CliFlags, a: Action, ev: Event)
    requires
        usage_error(f) is None,
        f.new,
        performs(a, config_of(f), Step::Acquire, ev),
    ensures
        a matches Action::Launch(p) && p.headless == !f.headful,
{
}

/// With `--clean` and an output file, the cookies are exported once, right
/// after they were deleted, localStorage was cleared, and the page was
/// reloaded and left to settle.
pub proof fn lemma_export_follows_clean(c: SessionConfig)
    requires
        c.clean,
        c.output is Some,
    ensures
        plan(c).subrange((2 + prelude_steps(c).len()) as int, (2 + prelude_steps(c).len()) + 6int) == seq![
            Step::FetchForClean,
            Step::DeleteCookies,
            Step::ClearLocalStorage,
            Step::Reload,
            Step::Settle,
            Step::Export,
        ],
        forall|j: int|
            0 <= j < plan(c).len() ==> (plan(c)[j] == Step::Export <==> j == (2 + prelude_steps(c).len())
                + 5),
{
    let s = seq![Step::Acquire, Step::OpenTab] + prelude_steps(c);
    let tail = payload_steps(c) + step_if(c.wait, Step::Hold) + seq![Step::CloseTab];
    assert(plan(c) =~= s + clean_steps(c) + seq![Step::Export] + tail);
    assert(plan(c).subrange(s.len() as int, s.len() + 6int) =~= clean_steps(c) + seq![Step::Export]);
    assert forall|j: int| 0 <= j < s.len() implies s[j] != Step::Export by {}
}

/// Without `--clean`, or without an output file, no cookie is deleted.
pub proof fn lemma_no_clean_no_deletion(c: SessionConfig)
    requires
        !(c.clean && c.output is Some),
    ensures
        forall|j: int| 0 <= j < plan(c).len() ==> plan(c)[j] != Step::DeleteCookies,
{
    let s = seq![Step::Acquire, Step::OpenTab] + prelude_steps(c);
    assert(plan(c) =~= s + (step_if(c.output is Some, Step::Export) + payload_steps(c) + step_if(
        c.wait,
        Step::Hold,
    ) + seq![Step::CloseTab]));
    assert forall|j: int| 0 <= j < s.len() implies s[j] != Step::DeleteCookies by {}
}

/// The payload is evaluated once, right after its file was read, and before
/// the operator is waited for at the end of the run.
pub proof fn lemma_payload_read_before_run(c: SessionConfig)
    requires
        c.payload is Some,
    ensures
        ({
            let k = (2 + prelude_steps(c).len()) + clean_steps(c).len() + (if c.output is Some {
                1int
            } else {
                0
            });
            &&& plan(c)[k] == Step::ReadPayload
            &&& plan(c)[k + 1] == Step::RunPayload
            &&& forall|j: int|
                0 <= j < plan(c).len() ==> (plan(c)[j] == Step::RunPayload <==> j == k + 1)
            &&& forall|j: int| 0 <= j < plan(c).len() && plan(c)[j] == Step::Hold ==> j > k + 1
        }),
{
    let s = seq![Step::Acquire, Step::OpenTab] + prelude_steps(c);
    let head = s + clean_steps(c) + step_if(c.output is Some, Step::Export);
    let tail = step_if(c.wait, Step::Hold) + seq![Step::CloseTab];
    assert(plan(c) =~= head + seq![Step::ReadPayload, Step::RunPayload] + tail);
    assert forall|j: int| 0 <= j < s.len() implies s[j] != Step::RunPayload && s[j] != Step::Hold
        by {}
}

/// A failed step ends the run with exit status 1: nothing after it is
/// performed.
pub proof fn lemma_failure_ends_run(pre: Session, post: Session, a: Action)
    requires
        transition(pre, post, Event::Failed, a),
    ensures
        post.is_finished(),
        a == (Action::Exit { code: 1 }),
{
    assert(!answers(plan(pre.config())[pre.position()], Event::Failed));
}

} // verus!
