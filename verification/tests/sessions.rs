use nexusmcp::engine::session::{new_tab_target, BrowserSession, NewTabTarget, SessionError, SessionManager};
use nexusmcp::observability::{record_navigation, set_active_sessions, Metrics};

#[test]
fn history_back_forward_undo() {
    let mut s = BrowserSession::new("s".to_string(), None, None, "high".to_string());
    let start = s.begin_navigation("p1");
    assert!(start.open_tab);
    s.record_navigation("p1", "https://a", "https://a/", "A", 10);
    s.record_navigation("p1", "https://b", "https://b/", "B", 10);
    s.record_navigation("p1", "https://c", "https://c/", "C", 10);
    assert_eq!(s.history.len(), 3);
    assert_eq!(s.history_index, 2);
    assert!(matches!(s.step_forward(), Err(SessionError::NoForwardHistory)));
    let back = s.step_back().ok().unwrap();
    assert_eq!(back.url, "https://b");
    let fwd = s.step_forward().ok().unwrap();
    assert_eq!(fwd.url, "https://c");
    assert_eq!(s.history_index, 2);
    s.step_back().ok().unwrap();
    s.step_back().ok().unwrap();
    assert!(matches!(s.step_back(), Err(SessionError::NoBackHistory)));
    // A navigation from the first entry drops the later ones.
    s.record_navigation("p1", "https://d", "https://d/", "D", 10);
    assert_eq!(s.history.len(), 2);
    assert_eq!(s.history[0].url, "https://a");
    assert_eq!(s.history[1].url, "https://d");
    assert!(matches!(s.step_forward(), Err(SessionError::NoForwardHistory)));
    assert_eq!(s.pages.len(), 1);
    assert_eq!(s.current_page_state().unwrap().title, "D");
}

#[test]
fn reload_and_tabs() {
    let mut s = BrowserSession::new("s".to_string(), None, None, "high".to_string());
    assert!(matches!(s.record_reload("u", "t"), Err(SessionError::NoActivePage)));
    s.begin_navigation("p1");
    s.record_navigation("p1", "https://a", "https://a/", "A", 5);
    let p = s.record_reload("https://a/", "A2").ok().unwrap();
    assert_eq!(p.title, "A2");
    assert_eq!(p.load_time_ms, 5);
    assert!(matches!(s.switch_tab("nope"), Err(SessionError::TabNotFound)));
    assert!(s.switch_tab("p1").is_ok());
}

#[test]
fn reload_updates_the_current_page() {
    let mut s = BrowserSession::new("s".to_string(), None, None, "high".to_string());
    s.begin_navigation("p1");
    s.record_navigation("p1", "https://a", "https://a/", "A", 5);
    s.register_new_tab("p2");
    s.record_new_tab("p2", "about:blank", "New Tab");
    assert!(s.switch_tab("p1").is_ok());
    let p = s.record_reload("https://a/x", "A2").ok().unwrap();
    assert_eq!(p.id, "p1");
    assert_eq!(s.pages.len(), 2);
    assert_eq!(s.pages[0].title, "A2");
    assert_eq!(s.pages[0].url, "https://a/x");
    assert_eq!(s.pages[1].title, "New Tab");
    assert_eq!(s.pages[1].url, "about:blank");
    // A current page without a recorded state cannot be reloaded.
    s.register_new_tab("p3");
    assert!(matches!(s.record_reload("u", "t"), Err(SessionError::NoActivePage)));
    assert_eq!(s.pages[0].title, "A2");
}

#[test]
fn manager_creates_and_removes() {
    let mut m = SessionManager::new();
    m.create_session("a", None, None);
    m.create_session("b", Some("prof".to_string()), Some((None, "low".to_string())));
    m.create_session("a", None, None);
    assert_eq!(m.sessions.len(), 2);
    assert_eq!(m.metrics.active_sessions, 2);
    assert_eq!(m.get_session("b").unwrap().stealth_level, "low");
    assert_eq!(m.get_session("a").unwrap().stealth_level, "high");
    assert_eq!(m.first_session_id(), Some("a".to_string()));
    assert!(m.remove_session("a").is_some());
    assert!(m.get_session("a").is_none());
    assert!(m.remove_session("a").is_none());
    assert_eq!(m.metrics.active_sessions, 1);
    m.shutdown();
    assert_eq!(m.metrics.active_sessions, 0);
    assert!(m.sessions.is_empty());
}

#[test]
fn metrics_count() {
    let mut x = Metrics::new();
    record_navigation(&mut x);
    record_navigation(&mut x);
    assert_eq!(x.navigations_total, 2);
    set_active_sessions(&mut x, 4);
    assert_eq!(x.active_sessions, 4);
}

#[test]
fn fresh_ids_for_sessions_and_pages() {
    let mut m = SessionManager::new();
    let a = m.open_session(None, None);
    let b = m.open_session(None, None);
    assert_eq!(a.len(), 36);
    assert_ne!(a, b);
    assert_eq!(m.sessions.len(), 2);
    let mut s = BrowserSession::new("s".to_string(), None, None, "high".to_string());
    let start = s.start_navigation();
    assert!(start.open_tab && start.register_tab);
    assert_eq!(start.page_id.len(), 36);
    assert_eq!(s.current_page.as_deref(), Some(start.page_id.as_str()));
    let again = s.start_navigation();
    assert!(!again.open_tab && !again.register_tab);
    assert_eq!(again.page_id, start.page_id);
    let tab = s.open_tab_page();
    assert_eq!(tab.len(), 36);
    assert!(s.tabs.contains(&tab));
    let p = s.record_history_step("https://x", "X");
    assert_eq!(p.id, tab);
    assert_eq!(p.load_time_ms, 200);
}

#[test]
fn new_tab_defaults_to_blank_page() {
    match new_tab_target(None) {
        NewTabTarget::Blank { url, title } => {
            assert_eq!(url, "about:blank");
            assert_eq!(title, "New Tab");
        },
        NewTabTarget::Load(_) => panic!("a tab without a URL loads nothing"),
    }
    assert!(matches!(new_tab_target(Some("about:blank")), NewTabTarget::Blank { .. }));
    match new_tab_target(Some("https://a/about")) {
        NewTabTarget::Load(u) => assert_eq!(u, "https://a/about"),
        NewTabTarget::Blank { .. } => panic!("a given URL is loaded"),
    }
}
