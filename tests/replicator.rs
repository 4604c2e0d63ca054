use couchbase_lite::options::{session_cookie_for, OPTION_COOKIES, OPTION_OUTGOING_CONFLICTS};
use couchbase_lite::{
    build_options, filter_reply, Action, CallbackRegistry, EngineError, Error, HookKind, HookSet,
    OptionValue, PendingSession, Progress, ReplicatorMode, ReplicatorState, ReplicatorStatus,
    Session,
};

fn status(level: i32, code: i32) -> ReplicatorStatus {
    ReplicatorStatus {
        level,
        progress: Progress { units_completed: 0, units_total: 0, document_count: 0 },
        error: EngineError { domain: if code == 0 { 0 } else { 1 }, code, internal_info: 0 },
        flags: 0,
    }
}

const ALL_HOOKS: HookSet = HookSet { status_changed: true, before_push: true, after_pull: true };

fn running(id: u64, hooks: HookSet) -> Session {
    let (pending, _) = PendingSession::create("ws://host:4984/demo/", None, hooks);
    match pending.finish(Ok(id)) {
        (Ok(s), acts) => {
            assert!(acts.is_empty());
            s
        }
        _ => panic!("creation with a native session must succeed"),
    }
}

fn assert_request(a: &Action, url: &str, token: Option<&str>, hooks: HookSet) {
    match a {
        Action::CreateSession(req) => {
            assert_eq!(req.url, url);
            assert_eq!(req.push, ReplicatorMode::Continuous);
            assert_eq!(req.pull, ReplicatorMode::Continuous);
            assert_eq!(req.hooks, hooks);
            let last = req.options.last().unwrap();
            assert_eq!(last.key, "outgoingConflicts");
            assert!(matches!(last.value, OptionValue::Bool(true)));
            match token {
                Some(t) => {
                    assert_eq!(req.options.len(), 2);
                    assert_eq!(req.options[0].key, "cookies");
                    match &req.options[0].value {
                        OptionValue::Text(c) => assert_eq!(*c, format!("SyncGatewaySession={}", t)),
                        _ => panic!("cookie must be text"),
                    }
                }
                None => assert_eq!(req.options.len(), 1),
            }
        }
        _ => panic!("expected a creation request"),
    }
}

#[test]
fn decodes_each_known_level() {
    assert!(matches!(ReplicatorState::try_from(status(0, 0)), Ok(ReplicatorState::Stopped(_))));
    assert!(matches!(ReplicatorState::try_from(status(1, 0)), Ok(ReplicatorState::Offline)));
    assert!(matches!(ReplicatorState::try_from(status(2, 0)), Ok(ReplicatorState::Connecting)));
    assert!(matches!(ReplicatorState::try_from(status(3, 0)), Ok(ReplicatorState::Idle)));
    assert!(matches!(ReplicatorState::try_from(status(4, 0)), Ok(ReplicatorState::Busy)));
}

#[test]
fn unknown_level_is_a_decode_error_naming_it() {
    match ReplicatorState::try_from(status(99, 0)) {
        Err(Error::UnknownLevel(s)) => assert_eq!(s.level, 99),
        other => panic!("unexpected {:?}", other),
    }
    assert!(matches!(ReplicatorState::try_from(status(-1, 0)), Err(Error::UnknownLevel(_))));
    assert!(matches!(ReplicatorState::try_from(status(5, 0)), Err(Error::UnknownLevel(_))));
}

#[test]
fn stopped_carries_its_error() {
    match ReplicatorState::try_from(status(0, 0)) {
        Ok(ReplicatorState::Stopped(e)) => assert!(!e.is_error()),
        other => panic!("unexpected {:?}", other),
    }
    match ReplicatorState::try_from(status(0, 42)) {
        Ok(ReplicatorState::Stopped(e)) => {
            assert!(e.is_error());
            assert_eq!(e.code, 42);
            assert_eq!(e.domain, 1);
        }
        other => panic!("unexpected {:?}", other),
    }
}

#[test]
fn busy_then_stopped_scenario() {
    let hooks = HookSet { status_changed: true, before_push: false, after_pull: false };
    let (pending, acts) = PendingSession::create("ws://host:4984/demo/", None, hooks);
    assert_eq!(acts.len(), 1);
    assert_request(&acts[0], "ws://host:4984/demo/", None, hooks);
    let session = match pending.finish(Ok(11)) {
        (Ok(s), a) => {
            assert!(a.is_empty());
            s
        }
        _ => panic!("creation must succeed"),
    };
    assert_eq!(session.native(), 11);
    assert!(matches!(ReplicatorState::try_from(status(4, 0)), Ok(ReplicatorState::Busy)));
    match ReplicatorState::try_from(status(0, 0)) {
        Ok(ReplicatorState::Stopped(e)) => assert!(!e.is_error()),
        other => panic!("unexpected {:?}", other),
    }
}

#[test]
fn options_without_token() {
    let o = build_options(None);
    assert_eq!(o.len(), 1);
    assert_eq!(o[0].key, OPTION_OUTGOING_CONFLICTS);
    assert!(matches!(o[0].value, OptionValue::Bool(true)));
}

#[test]
fn options_with_token() {
    let o = build_options(Some("abc123"));
    assert_eq!(o.len(), 2);
    assert_eq!(o[0].key, OPTION_COOKIES);
    match &o[0].value {
        OptionValue::Text(c) => assert_eq!(c, "SyncGatewaySession=abc123"),
        _ => panic!("cookie must be text"),
    }
    assert_eq!(o[1].key, "outgoingConflicts");
    assert!(matches!(o[1].value, OptionValue::Bool(true)));
}

#[test]
fn session_cookie_of_empty_token() {
    assert_eq!(session_cookie_for(""), "SyncGatewaySession=");
    assert_eq!(session_cookie_for("t"), "SyncGatewaySession=t");
}

#[test]
fn hooks_follow_the_closures_given() {
    let f = |_s: ReplicatorStatus| {};
    let g = |_id: &str, _rev: &str, _flags: u32, body: &str| body.to_string();
    let r1: CallbackRegistry<_, fn(&str, &str, u32, &str) -> String, fn(&str, &str, u32, &str) -> String> =
        CallbackRegistry::new(f, None, None);
    assert_eq!(r1.hooks(), HookSet { status_changed: true, before_push: false, after_pull: false });
    let r2: CallbackRegistry<_, _, fn(&str, &str, u32, &str) -> String> =
        CallbackRegistry::new(f, Some(g), None);
    assert_eq!(r2.hooks(), HookSet { status_changed: true, before_push: true, after_pull: false });
    let r3 = CallbackRegistry::new(f, Some(g), Some(g));
    assert_eq!(r3.hooks(), ALL_HOOKS);
    let r4: CallbackRegistry<_, fn(&str, &str, u32, &str) -> String, _> =
        CallbackRegistry::new(f, None, Some(g));
    let h4 = r4.hooks();
    assert_eq!(h4, HookSet { status_changed: true, before_push: false, after_pull: true });
    assert!(h4.installs(HookKind::StatusChanged));
    assert!(!h4.installs(HookKind::BeforePush));
    assert!(h4.installs(HookKind::AfterPull));
}

#[test]
fn creation_request_installs_only_registered_hooks() {
    let hooks = HookSet { status_changed: true, before_push: true, after_pull: false };
    let (pending, acts) = PendingSession::create("ws://h/db", Some("tok"), hooks);
    assert_request(&acts[0], "ws://h/db", Some("tok"), hooks);
    let s = match pending.finish(Ok(3)) {
        (Ok(s), _) => s,
        _ => panic!("creation must succeed"),
    };
    assert_eq!(s.hooks(), hooks);
}

#[test]
fn restart_frees_old_session_before_creating() {
    let hooks = HookSet { status_changed: true, before_push: false, after_pull: true };
    let s = running(5, hooks);
    let (pending, acts) = s.restart("ws://other/db2", Some("x"));
    assert_eq!(acts.len(), 3);
    assert!(matches!(acts[0], Action::StopSession(5)));
    assert!(matches!(acts[1], Action::FreeSession(5)));
    assert_request(&acts[2], "ws://other/db2", Some("x"), hooks);
    assert!(!acts.iter().any(|a| matches!(a, Action::ReleaseRegistry)));
    match pending.finish(Ok(6)) {
        (Ok(s2), a) => {
            assert!(a.is_empty());
            assert_eq!(s2.native(), 6);
            assert_eq!(s2.hooks(), hooks);
        }
        _ => panic!("restart must succeed"),
    }
}

#[test]
fn stop_frees_native_before_registry() {
    let acts = running(9, ALL_HOOKS).stop();
    assert_eq!(acts.len(), 3);
    assert!(matches!(acts[0], Action::StopSession(9)));
    assert!(matches!(acts[1], Action::FreeSession(9)));
    assert!(matches!(acts[2], Action::ReleaseRegistry));
}

#[test]
fn close_frees_native_before_registry() {
    let acts = running(10, ALL_HOOKS).close();
    assert_eq!(acts.len(), 3);
    assert!(matches!(acts[0], Action::StopSession(10)));
    assert!(matches!(acts[1], Action::FreeSession(10)));
    assert!(matches!(acts[2], Action::ReleaseRegistry));
}

#[test]
fn failed_creation_releases_registry_and_returns_error() {
    let (pending, _) = PendingSession::create("ws://h/db", None, ALL_HOOKS);
    let e = EngineError { domain: 2, code: 17, internal_info: 0 };
    match pending.finish(Err(Error::Engine(e))) {
        (Err(Error::Engine(got)), acts) => {
            assert_eq!(got, e);
            assert_eq!(acts.len(), 1);
            assert!(matches!(acts[0], Action::ReleaseRegistry));
        }
        _ => panic!("creation must fail"),
    }
}

#[test]
fn failed_restart_on_bad_url_releases_registry() {
    let (pending, acts) = running(1, ALL_HOOKS).restart("not a url", None);
    assert!(matches!(acts[1], Action::FreeSession(1)));
    match pending.finish(Err(Error::InvalidUrl("not a url".to_string()))) {
        (Err(Error::InvalidUrl(u)), a) => {
            assert_eq!(u, "not a url");
            assert!(matches!(a[..], [Action::ReleaseRegistry]));
        }
        _ => panic!("restart must fail"),
    }
}

#[test]
fn encoding_error_passes_through() {
    let (pending, _) = PendingSession::create("ws://h/db", None, ALL_HOOKS);
    assert!(matches!(pending.finish(Err(Error::Encoding(3))), (Err(Error::Encoding(3)), _)));
}

#[test]
fn filter_reply_copies_the_reply_not_the_body() {
    let body = "{\"name\":\"doc\"}";
    let reply = |_id: &str, _rev: &str, _flags: u32, _body: &str| "{}".to_string();
    let out = filter_reply(&reply("doc1", "1-a", 0, body));
    assert_eq!(out, b"{}".to_vec());
    assert_ne!(out, body.as_bytes().to_vec());
}

#[test]
fn filter_reply_keeps_utf8_bytes() {
    assert_eq!(filter_reply("é"), vec![0xc3, 0xa9]);
    assert!(filter_reply("").is_empty());
}
