use cdp_driver::config::{resolve_config, CliFlags, SessionConfig};
use cdp_driver::cookies::{deletion_requests, CookieDeletion, CookieKey};
use cdp_driver::session::{plan_steps, succeeds, Action, Event, Session, Step, CLEAR_LOCAL_STORAGE, SETTLE_MILLIS};

fn config(f: CliFlags) -> SessionConfig {
    resolve_config(f).unwrap()
}

fn key(name: &str, domain: &str) -> CookieKey {
    CookieKey { name: name.to_string(), domain: domain.to_string() }
}

/// Drives a run in which every action succeeds, answering each fetch with
/// `cookies` and each read with `payload`; returns every action handed out.
fn run_all(c: SessionConfig, cookies: &[CookieKey], payload: &str) -> Vec<Action> {
    let (mut s, first) = Session::start(c);
    let mut actions = vec![first];
    loop {
        let ev = match actions.last().unwrap() {
            Action::Exit { .. } => break,
            Action::FetchCookies => Event::Cookies(cookies.to_vec()),
            Action::ReadPayload { .. } => Event::Payload(payload.to_string()),
            _ => Event::Done,
        };
        actions.push(s.advance(ev));
    }
    assert!(s.finished());
    actions
}

#[test]
fn attach_opens_one_tab_and_never_launches() {
    let c = config(CliFlags { connect: Some("ws://127.0.0.1:9222/devtools/browser/a".to_string()), ..CliFlags::default() });
    let actions = run_all(c, &[], "");
    assert_eq!(actions[0], Action::Connect { address: "ws://127.0.0.1:9222/devtools/browser/a".to_string() });
    assert!(!actions.iter().any(|a| matches!(a, Action::Launch(_))));
    assert_eq!(actions.iter().filter(|a| matches!(a, Action::OpenTab { .. })).count(), 1);
    assert_eq!(actions[1], Action::OpenTab { in_new_context: false });
    assert_eq!(actions.last(), Some(&Action::Exit { code: 0 }));
}

#[test]
fn attach_incognito_uses_new_context() {
    let c = config(CliFlags { connect: Some("ws://h".to_string()), incognito: true, ..CliFlags::default() });
    let actions = run_all(c, &[], "");
    assert_eq!(actions[1], Action::OpenTab { in_new_context: true });
}

#[test]
fn launch_incognito_passes_switch() {
    let c = config(CliFlags { new: true, incognito: true, ..CliFlags::default() });
    let actions = run_all(c, &[], "");
    match &actions[0] {
        Action::Launch(p) => {
            assert!(p.headless);
            assert_eq!(p.args[1], "--incognito");
        }
        other => panic!("unexpected first action {:?}", other),
    }
    assert_eq!(actions[1], Action::OpenTab { in_new_context: false });
}

#[test]
fn clean_export_comes_after_deletion_and_reload() {
    let c = config(CliFlags {
        new: true,
        url: Some("https://example.com".to_string()),
        clean: true,
        output: Some("cookies.json".to_string()),
        ..CliFlags::default()
    });
    let cookies = vec![key("sid", ".example.com"), key("pref", "example.com")];
    let actions = run_all(c, &cookies, "");
    let expected_tail = vec![
        Action::Navigate { url: "https://example.com".to_string() },
        Action::FetchCookies,
        Action::DeleteCookies(vec![
            CookieDeletion { name: "sid".to_string(), domain: Some(".example.com".to_string()), path: None, url: None },
            CookieDeletion { name: "pref".to_string(), domain: Some("example.com".to_string()), path: None, url: None },
        ]),
        Action::Evaluate { script: "localStorage.clear()".to_string() },
        Action::Reload,
        Action::Sleep { millis: 600 },
        Action::ExportCookies { path: "cookies.json".to_string() },
        Action::CloseTab,
        Action::Exit { code: 0 },
    ];
    assert_eq!(actions[2..].to_vec(), expected_tail);
    assert_eq!(SETTLE_MILLIS, 600);
    assert_eq!(CLEAR_LOCAL_STORAGE, "localStorage.clear()");
}

#[test]
fn clean_without_output_does_nothing() {
    let c = config(CliFlags { new: true, clean: true, ..CliFlags::default() });
    let steps = plan_steps(&c);
    assert_eq!(steps, vec![Step::Acquire, Step::OpenTab, Step::CloseTab]);
}

#[test]
fn export_without_clean_deletes_nothing() {
    let c = config(CliFlags { new: true, output: Some("out.json".to_string()), ..CliFlags::default() });
    let actions = run_all(c, &[key("a", "b")], "");
    assert!(!actions.iter().any(|a| matches!(a, Action::DeleteCookies(_) | Action::FetchCookies)));
    assert_eq!(actions[2], Action::ExportCookies { path: "out.json".to_string() });
}

#[test]
fn failed_payload_evaluation_exits_before_wait() {
    let c = config(CliFlags { new: true, payload: Some("p.js".to_string()), wait: true, ..CliFlags::default() });
    let (mut s, a) = Session::start(c);
    assert!(matches!(a, Action::Launch(_)));
    assert_eq!(s.advance(Event::Done), Action::OpenTab { in_new_context: false });
    assert_eq!(s.advance(Event::Done), Action::ReadPayload { path: "p.js".to_string() });
    assert_eq!(
        s.advance(Event::Payload("throw new Error('x')".to_string())),
        Action::Evaluate { script: "throw new Error('x')".to_string() }
    );
    assert_eq!(s.advance(Event::Failed), Action::Exit { code: 1 });
    assert!(s.finished());
}

#[test]
fn missing_payload_file_exits_before_evaluation() {
    let c = config(CliFlags { new: true, payload: Some("missing.js".to_string()), wait: true, ..CliFlags::default() });
    let (mut s, _) = Session::start(c);
    s.advance(Event::Done);
    assert_eq!(s.advance(Event::Done), Action::ReadPayload { path: "missing.js".to_string() });
    assert_eq!(s.current_step(), Step::ReadPayload);
    assert_eq!(s.advance(Event::Failed), Action::Exit { code: 1 });
    assert!(s.finished());
}

#[test]
fn wrong_outcome_counts_as_failure() {
    let c = config(CliFlags { new: true, output: Some("o".to_string()), clean: true, ..CliFlags::default() });
    let (mut s, _) = Session::start(c);
    s.advance(Event::Done);
    assert_eq!(s.current_step(), Step::OpenTab);
    assert_eq!(s.advance(Event::Done), Action::FetchCookies);
    assert_eq!(s.advance(Event::Done), Action::Exit { code: 1 });
}

#[test]
fn connection_failure_exits_with_one() {
    let c = config(CliFlags { connect: Some("ws://unreachable".to_string()), ..CliFlags::default() });
    let (mut s, _) = Session::start(c);
    assert_eq!(s.advance(Event::Failed), Action::Exit { code: 1 });
}

#[test]
fn new_url_output_run_closes_tab_once() {
    let c = config(CliFlags {
        new: true,
        url: Some("https://example.com".to_string()),
        output: Some("cookies.json".to_string()),
        ..CliFlags::default()
    });
    let cookies = vec![key("a", "example.com"), key("b", "example.com")];
    let actions = run_all(c, &cookies, "");
    assert_eq!(actions.len(), 6);
    assert!(matches!(&actions[0], Action::Launch(p) if p.headless));
    assert_eq!(actions[1], Action::OpenTab { in_new_context: false });
    assert_eq!(actions[2], Action::Navigate { url: "https://example.com".to_string() });
    assert_eq!(actions[3], Action::ExportCookies { path: "cookies.json".to_string() });
    assert_eq!(actions[4], Action::CloseTab);
    assert_eq!(actions[5], Action::Exit { code: 0 });
    assert_eq!(actions.iter().filter(|a| **a == Action::CloseTab).count(), 1);
}

#[test]
fn full_plan_order() {
    let c = config(CliFlags {
        connect: Some("ws://h".to_string()),
        url: Some("u".to_string()),
        stealth: true,
        confirm: true,
        clean: true,
        output: Some("o".to_string()),
        payload: Some("p".to_string()),
        wait: true,
        ..CliFlags::default()
    });
    assert_eq!(
        plan_steps(&c),
        vec![
            Step::Acquire,
            Step::OpenTab,
            Step::Stealth,
            Step::Navigate,
            Step::Confirm,
            Step::FetchForClean,
            Step::DeleteCookies,
            Step::ClearLocalStorage,
            Step::Reload,
            Step::Settle,
            Step::Export,
            Step::ReadPayload,
            Step::RunPayload,
            Step::Hold,
            Step::CloseTab,
        ]
    );
    let actions = run_all(c, &[], "1 + 1");
    assert_eq!(actions[2], Action::EnableStealth);
    assert_eq!(actions[4], Action::AwaitConfirmation);
    assert_eq!(actions[12], Action::Evaluate { script: "1 + 1".to_string() });
    assert_eq!(actions[13], Action::AwaitRelease);
}

#[test]
fn deletion_requests_key_by_name_and_domain() {
    assert!(deletion_requests(&vec![]).is_empty());
    let r = deletion_requests(&vec![key("x", "a.com"), key("x", "b.com")]);
    assert_eq!(r.len(), 2);
    assert_eq!(r[1], CookieDeletion { name: "x".to_string(), domain: Some("b.com".to_string()), path: None, url: None });
}

#[test]
fn success_outcome_depends_on_step() {
    assert!(succeeds(Step::FetchForClean, &Event::Cookies(vec![])));
    assert!(!succeeds(Step::FetchForClean, &Event::Done));
    assert!(succeeds(Step::ReadPayload, &Event::Payload(String::new())));
    assert!(succeeds(Step::Reload, &Event::Done));
    assert!(!succeeds(Step::CloseTab, &Event::Failed));
}
