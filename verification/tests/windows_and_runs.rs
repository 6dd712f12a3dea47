use theater_control::automation::{HiddenRun, RunAction, RunEvent, RunPhase};
use theater_control::native_window::{
    automation_ex_style, automation_hide_flags, child_extent, click_target, follow_position_flags,
    hidden_ex_style, initial_click_through, initial_position_flags, is_render_widget_class,
    layered_ex_style, point_lparam, render_widget_search_step, restores_foreground,
    shown_ex_style, update_position_flags, update_show_command, INVISIBLE, MIN_CHILD_EXTENT,
    MK_LBUTTON, OPAQUE, WM_LBUTTONDOWN, WM_LBUTTONUP, WS_EX_TRANSPARENT,
};
use theater_control::registry::WebviewRegistry;
use theater_control::webview_lock::WebviewLock;
use theater_control::window_policy::{
    base_dir_is_parent, carries_child_webviews, child_starts_active, child_takes_focus,
    crash_report, oauth_navigation, service_login_action, window_chrome, BuildProfile,
    NavigationVerdict, ServiceLoginAction, CRASH_LOG_NAME, REVEAL_DELAY_MS, SETTLE_DELAY_MS,
};

fn expect_open(a: RunAction, label: &str, url: &str) {
    match a {
        RunAction::Open { label: l, url: u } => {
            assert_eq!(l, label);
            assert_eq!(u, url);
        }
        _ => panic!("expected Open"),
    }
}

fn expect_wait(a: RunAction, ms: u64) {
    match a {
        RunAction::Wait { millis } => assert_eq!(millis, ms),
        _ => panic!("expected Wait"),
    }
}

fn expect_nothing(a: RunAction) {
    assert!(matches!(a, RunAction::Nothing));
}

#[test]
fn hidden_run_goes_through_its_steps_in_order() {
    let mut run = HiddenRun::new("h_1_0".into(), "https://x.test".into(), "go()".into(), 3000, 1000);
    assert_eq!(run.phase(), RunPhase::Ready);
    expect_open(run.step(RunEvent::Begin), "h_1_0", "https://x.test");
    expect_wait(run.step(RunEvent::Opened(Ok(()))), 3000);
    match run.step(RunEvent::Done) {
        RunAction::RunScript { label, js } => {
            assert_eq!(label, "h_1_0");
            assert_eq!(js, "go()");
        }
        _ => panic!("expected RunScript"),
    }
    expect_wait(run.step(RunEvent::Done), 1000);
    match run.step(RunEvent::Done) {
        RunAction::Close { label } => assert_eq!(label, "h_1_0"),
        _ => panic!("expected Close"),
    }
    assert!(matches!(run.step(RunEvent::Done), RunAction::Finish(Ok(()))));
    assert_eq!(run.phase(), RunPhase::Finished);
    expect_nothing(run.step(RunEvent::Done));
    expect_nothing(run.step(RunEvent::Begin));
    assert_eq!(run.phase(), RunPhase::Finished);
}

#[test]
fn hidden_run_reports_open_failure() {
    let mut run = HiddenRun::new("h".into(), "bad".into(), "js".into(), 5, 6);
    expect_open(run.step(RunEvent::Begin), "h", "bad");
    match run.step(RunEvent::Opened(Err("Invalid URL: x".into()))) {
        RunAction::Finish(Err(m)) => assert_eq!(m, "Invalid URL: x"),
        _ => panic!("expected Finish(Err)"),
    }
    assert_eq!(run.phase(), RunPhase::Finished);
}

#[test]
fn hidden_run_ignores_unexpected_events() {
    let mut run = HiddenRun::new("h".into(), "u".into(), "js".into(), 0, 0);
    expect_nothing(run.step(RunEvent::Done));
    expect_nothing(run.step(RunEvent::Opened(Ok(()))));
    assert_eq!(run.phase(), RunPhase::Ready);
    expect_open(run.step(RunEvent::Begin), "h", "u");
    expect_nothing(run.step(RunEvent::Begin));
    expect_nothing(run.step(RunEvent::Done));
    assert_eq!(run.phase(), RunPhase::Opening);
}

#[test]
fn registry_records_and_forgets_bounds() {
    let mut r: WebviewRegistry<(i32, i32)> = WebviewRegistry::new();
    assert_eq!(r.len(), 0);
    assert_eq!(r.get("a"), None);
    r.insert("a".into(), (1, 2));
    r.insert("b".into(), (3, 4));
    assert_eq!(r.len(), 2);
    assert_eq!(r.get("a"), Some(&(1, 2)));
    r.insert("a".into(), (5, 6));
    assert_eq!(r.len(), 2);
    assert_eq!(r.get("a"), Some(&(5, 6)));
    assert_eq!(r.get("b"), Some(&(3, 4)));
    assert_eq!(r.remove("a"), Some((5, 6)));
    assert_eq!(r.get("a"), None);
    assert_eq!(r.remove("a"), None);
    assert_eq!(r.len(), 1);
    let (l, v) = r.entry_at(0);
    assert_eq!(l, "b");
    assert_eq!(*v, (3, 4));
}

#[test]
fn registry_enumerates_every_label_once() {
    let mut r: WebviewRegistry<u32> = WebviewRegistry::new();
    for (i, l) in ["x", "y", "z", "y", "x"].iter().enumerate() {
        r.insert(l.to_string(), i as u32);
    }
    let mut seen: Vec<(String, u32)> = (0..r.len()).map(|i| {
        let (l, v) = r.entry_at(i);
        (l.clone(), *v)
    }).collect();
    seen.sort();
    assert_eq!(seen, vec![("x".to_string(), 4), ("y".to_string(), 3), ("z".to_string(), 2)]);
}

#[test]
fn automation_window_styles() {
    assert_eq!(automation_ex_style(0), 0x0800_0080);
    assert_eq!(automation_ex_style(0x0000_0100), 0x0800_0180);
    assert_eq!(automation_hide_flags(), 0x0097);
    assert!(restores_foreground(0x1234));
    assert!(!restores_foreground(0));
}

#[test]
fn child_window_styles() {
    assert_eq!(layered_ex_style(0x10), Some(0x0008_0010));
    assert_eq!(layered_ex_style(0x0008_0010), None);
    assert_eq!(initial_click_through(0x0008_0000, true), None);
    assert_eq!(initial_click_through(0x0008_0000, false), Some(0x0008_0020));
    assert_eq!(initial_position_flags(true), 0x0060);
    assert_eq!(initial_position_flags(false), 0x0070);
    assert_eq!(update_position_flags(), 0x0060);
    assert_eq!(follow_position_flags(), 0x0071);
    assert_eq!(update_show_command(true), 5);
    assert_eq!(update_show_command(false), 4);
    assert_eq!(OPAQUE, 255);
    assert_eq!(INVISIBLE, 0);
}

#[test]
fn hide_and_show_touch_only_click_through() {
    for ex in [0u32, 0x20, 0x0008_0000, 0x0008_0020, 0xFFFF_FFFF, 0x1234_5678] {
        let hidden = hidden_ex_style(ex);
        assert_eq!(hidden & WS_EX_TRANSPARENT, WS_EX_TRANSPARENT);
        assert_eq!(hidden & !WS_EX_TRANSPARENT, ex & !WS_EX_TRANSPARENT);
        let shown = shown_ex_style(hidden);
        assert_eq!(shown, ex & !WS_EX_TRANSPARENT);
        assert_eq!(hidden_ex_style(shown_ex_style(ex)), ex | WS_EX_TRANSPARENT);
    }
}

#[test]
fn child_extents_have_a_minimum() {
    assert_eq!(child_extent(0), 100);
    assert_eq!(child_extent(99), 100);
    assert_eq!(child_extent(100), 100);
    assert_eq!(child_extent(1920), 1920);
    assert_eq!(MIN_CHILD_EXTENT, 100);
}

#[test]
fn click_parameters() {
    assert_eq!(point_lparam(1, 1), 0x0001_0001);
    assert_eq!(point_lparam(0x1234, 0xABCD), 0xABCD_1234);
    assert_eq!((WM_LBUTTONDOWN, WM_LBUTTONUP, MK_LBUTTON), (0x0201, 0x0202, 1));
    assert_eq!(click_target(0, 77), 77);
    assert_eq!(click_target(5, 77), 5);
}

#[test]
fn render_widget_search() {
    let name: Vec<u16> = "Chrome_RenderWidgetHostHWND".encode_utf16().collect();
    assert!(is_render_widget_class(&name));
    assert_eq!(render_widget_search_step(&name), 0);
    let other: Vec<u16> = "Chrome_WidgetWin_1".encode_utf16().collect();
    assert!(!is_render_widget_class(&other));
    assert_eq!(render_widget_search_step(&other), 1);
    assert_eq!(render_widget_search_step(&[]), 1);
    assert!(!is_render_widget_class(&name[..name.len() - 1]));
}

#[test]
fn oauth_navigation_verdicts() {
    let prefix = "http://127.0.0.1:8080/callback";
    assert_eq!(oauth_navigation("http://127.0.0.1:8080/callback?code=1", prefix), NavigationVerdict::Intercept);
    assert_eq!(oauth_navigation("http://127.0.0.1:8080/callback", prefix), NavigationVerdict::Intercept);
    assert_eq!(oauth_navigation("https://id.example.com/login", prefix), NavigationVerdict::Allow);
    assert_eq!(oauth_navigation("http://127.0.0.1:8080/call", prefix), NavigationVerdict::Allow);
    assert_eq!(oauth_navigation("anything", ""), NavigationVerdict::Intercept);
}

#[test]
fn window_decisions() {
    assert_eq!(service_login_action(true), ServiceLoginAction::Focus);
    assert_eq!(service_login_action(false), ServiceLoginAction::Open);
    let locked = window_chrome(true);
    assert!(!locked.resizable && !locked.decorations);
    let free = window_chrome(false);
    assert!(free.resizable && free.decorations);
    assert!(child_starts_active(None));
    assert!(!child_starts_active(Some(false)));
    assert!(child_starts_active(Some(true)));
    assert!(!child_takes_focus(None));
    assert!(child_takes_focus(Some(true)));
    assert!(carries_child_webviews("main"));
    assert!(!carries_child_webviews("oauth_flow"));
    assert_eq!((REVEAL_DELAY_MS, SETTLE_DELAY_MS), (150, 1000));
}

#[test]
fn base_directory_choice() {
    assert!(base_dir_is_parent(BuildProfile::Debug, Some("src-tauri")));
    assert!(!base_dir_is_parent(BuildProfile::Debug, Some("project")));
    assert!(!base_dir_is_parent(BuildProfile::Debug, None));
    assert!(base_dir_is_parent(BuildProfile::Release, Some("ControlPanel.exe")));
    assert!(base_dir_is_parent(BuildProfile::Release, None));
    assert_eq!(CRASH_LOG_NAME, "crash.log");
}

#[test]
fn crash_reports() {
    assert_eq!(
        crash_report(Some("boom"), Some(("src/lib.rs", 42))),
        "Panic occurred: \nPayload: boom\nLocation: file 'src/lib.rs', line 42\n"
    );
    assert_eq!(crash_report(None, None), "Panic occurred: \nPayload: Unknown\n");
    assert_eq!(
        crash_report(Some(""), Some(("f", 0))),
        format!("Panic occurred: \nPayload: {}\nLocation: file '{}', line {}\n", "", "f", 0)
    );
}

#[test]
fn webview_lock_starts_free() {
    let l = WebviewLock::new();
    assert!(l.lock.try_lock().is_ok());
}
