use theater_control::labels::{
    automation_label, invalid_url_error, AutomationKind, CHILD_ZOOM_EVENT, MAIN_WINDOW,
    OAUTH_WINDOW, SERVICE_LOGIN_WINDOW, WEBVIEW_ZOOM_EVENT,
};
use theater_control::launch::{
    browser_command, command_outcome, creation_flags, Platform, CREATE_NO_WINDOW,
};

#[test]
fn browser_command_per_platform() {
    let url = "https://example.com/a?b=c".to_string();
    let w = browser_command(Platform::Windows, url.clone()).unwrap();
    assert_eq!(w.program, "rundll32");
    assert_eq!(w.args, vec!["url.dll,FileProtocolHandler".to_string(), url.clone()]);
    assert!(w.hide_console);
    let m = browser_command(Platform::MacOs, url.clone()).unwrap();
    assert_eq!(m.program, "open");
    assert_eq!(m.args, vec![url.clone()]);
    assert!(!m.hide_console);
    let l = browser_command(Platform::Linux, url.clone()).unwrap();
    assert_eq!(l.program, "xdg-open");
    assert_eq!(l.args, vec![url.clone()]);
    assert!(!l.hide_console);
    assert!(browser_command(Platform::Other, url).is_none());
}

#[test]
fn console_hidden_only_on_windows() {
    assert_eq!(creation_flags(Platform::Windows), 0x0800_0000);
    assert_eq!(CREATE_NO_WINDOW, 0x0800_0000);
    assert_eq!(creation_flags(Platform::Linux), 0);
    assert_eq!(creation_flags(Platform::MacOs), 0);
    assert_eq!(creation_flags(Platform::Other), 0);
}

#[test]
fn command_outcome_reports_the_right_stream() {
    assert_eq!(command_outcome(true, b"out\n", b"err\n"), Ok("out\n".to_string()));
    assert_eq!(command_outcome(false, b"out\n", b"err\n"), Err("err\n".to_string()));
    assert_eq!(command_outcome(true, &[0xC3, 0x28], b""), Ok("\u{FFFD}(".to_string()));
    assert_eq!(command_outcome(false, b"", b""), Err(String::new()));
}

#[test]
fn automation_labels_are_formatted() {
    assert_eq!(
        automation_label(AutomationKind::Hidden, 1_700_000_000_123, 3),
        "hidden_webview_1700000000123_3"
    );
    assert_eq!(automation_label(AutomationKind::Automated, 0, 0), "auto_webview_0_0");
    assert_eq!(
        automation_label(AutomationKind::Hidden, u128::MAX, usize::MAX),
        format!("hidden_webview_{}_{}", u128::MAX, usize::MAX)
    );
}

#[test]
fn automation_labels_are_distinct() {
    let mut seen = std::collections::HashSet::new();
    for t in [0u128, 1, 12, 123, 1_700_000_000_000] {
        for c in [0usize, 1, 2, 3, 23, 123] {
            assert!(seen.insert(automation_label(AutomationKind::Hidden, t, c)));
            assert!(seen.insert(automation_label(AutomationKind::Automated, t, c)));
        }
    }
    // 1_23 and 12_3 read alike without the separator
    assert_ne!(
        automation_label(AutomationKind::Hidden, 1, 23),
        automation_label(AutomationKind::Hidden, 12, 3)
    );
    for fixed in [MAIN_WINDOW, OAUTH_WINDOW, SERVICE_LOGIN_WINDOW] {
        assert!(!seen.contains(fixed));
    }
}

#[test]
fn fixed_names() {
    assert_eq!(MAIN_WINDOW, "main");
    assert_eq!(OAUTH_WINDOW, "oauth_flow");
    assert_eq!(SERVICE_LOGIN_WINDOW, "service_login");
    assert_eq!(CHILD_ZOOM_EVENT, "child-zoom-changed");
    assert_eq!(WEBVIEW_ZOOM_EVENT, "webview_zoom_changed");
}

#[test]
fn invalid_url_messages() {
    assert_eq!(invalid_url_error("relative URL without a base"), "Invalid URL: relative URL without a base");
    assert_eq!(invalid_url_error(""), "Invalid URL: ");
}
