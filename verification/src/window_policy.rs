//! Decisions the command handlers take about windows: OAuth navigation, the service login
//! window, window locking, child webview options, and where the program's files live.
use vstd::prelude::*;

use crate::labels::MAIN_WINDOW;
use crate::text::{chars_of, decimal, digits_value, law_decimal_reads_back, push_decimal, push_str};

verus! {

/// What the OAuth window does with a navigation.
#[derive(Clone, Copy, Debug, PartialEq, Eq, Structural)]
pub enum NavigationVerdict {
    /// Let the window load the page.
    Allow,
    /// Block it, report the URL to the front end and close the window: the redirect carrying
    /// the authorization result was reached.
    Intercept,
}

/// Whether `prefix` is a prefix of `text`, one character at a time.
fn starts_with(text: &str, prefix: &str) -> (r: bool)
    ensures
        r == prefix@.is_prefix_of(text@),
{
    let t = chars_of(text);
    let p = chars_of(prefix);
    if p.len() > t.len() {
        return false;
    }
    let mut i: usize = 0;
    while i < p.len()
        invariant
            i <= p@.len() <= t@.len(),
            p@ == prefix@,
            t@ == text@,
            forall|j: int| 0 <= j < i ==> p@[j] == t@[j],
        decreases p.len() - i,
    {
        if p[i] != t[i] {
            assert(t@.subrange(0, p@.len() as int)[i as int] != p@[i as int]);
            return false;
        }
        i = i + 1;
    }
    assert(p@ =~= t@.take(p@.len() as int));
    true
}

/// The verdict on a navigation of the OAuth window to `url`: intercepted exactly when `url`
/// starts with the redirect URI prefix.
pub fn oauth_navigation(url: &str, redirect_prefix: &str) -> (v: NavigationVerdict)
    ensures
        v == (if redirect_prefix@.is_prefix_of(url@) {
            NavigationVerdict::Intercept
        } else {
            NavigationVerdict::Allow
        }),
{
    if starts_with(url, redirect_prefix) {
        NavigationVerdict::Intercept
    } else {
        NavigationVerdict::Allow
    }
}

/// Whether moving the window labelled `label` moves the child webviews along: only the main
/// window carries them.
pub fn carries_child_webviews(label: &str) -> (r: bool)
    ensures
        r == (label@ == MAIN_WINDOW@),
{
    label.to_owned() == MAIN_WINDOW.to_owned()
}

/// Milliseconds a new child webview stays invisible before it is revealed.
pub const REVEAL_DELAY_MS: u64 = 150;

/// Milliseconds after which a new child webview is settled once more, for slow pages.
pub const SETTLE_DELAY_MS: u64 = 1000;

/// What opening the service login window does.
#[derive(Clone, Copy, Debug, PartialEq, Eq, Structural)]
pub enum ServiceLoginAction {
    /// The window is open already: show it and give it the focus.
    Focus,
    /// Open a new window on the login page.
    Open,
}

/// The action for a service login request, given whether its window is open.
pub fn service_login_action(window_open: bool) -> (a: ServiceLoginAction)
    ensures
        a == (if window_open {
            ServiceLoginAction::Focus
        } else {
            ServiceLoginAction::Open
        }),
{
    if window_open {
        ServiceLoginAction::Focus
    } else {
        ServiceLoginAction::Open
    }
}

/// Whether the main window can be resized and shows its frame.
#[derive(Clone, Copy, Debug, PartialEq, Eq, Structural)]
pub struct WindowChrome {
    pub resizable: bool,
    pub decorations: bool,
}

/// The main window's chrome when it is locked or unlocked: a locked window can be neither
/// resized nor moved by its frame, which it does not show.
pub fn window_chrome(locked: bool) -> (c: WindowChrome)
    ensures
        c.resizable == !locked,
        c.decorations == !locked,
{
    WindowChrome { resizable: !locked, decorations: !locked }
}

/// Whether a child webview is created active; it is unless the caller says otherwise.
pub fn child_starts_active(requested: Option<bool>) -> (r: bool)
    ensures
        r == (match requested {
            Some(v) => v,
            None => true,
        }),
{
    match requested {
        Some(v) => v,
        None => true,
    }
}

/// Whether an updated child webview takes the focus; it does only when the caller asks.
pub fn child_takes_focus(requested: Option<bool>) -> (r: bool)
    ensures
        r == (match requested {
            Some(v) => v,
            None => false,
        }),
{
    match requested {
        Some(v) => v,
        None => false,
    }
}

/// How the program was built.
#[derive(Clone, Copy, Debug, PartialEq, Eq, Structural)]
pub enum BuildProfile {
    /// A development build, run from the source tree.
    Debug,
    /// A release build, run from its install directory.
    Release,
}

/// Name of the directory a development build runs in.
pub const DEV_DIR_NAME: &'static str = "src-tauri";

/// Whether the base directory of the configuration files is the parent of the starting path
/// (the working directory of a development build, the executable of a release build) rather than
/// that path itself: a development build goes up out of `src-tauri`, a release build always
/// drops the executable's name. `last_name` is the starting path's last component.
pub fn base_dir_is_parent(profile: BuildProfile, last_name: Option<&str>) -> (r: bool)
    ensures
        r == (match profile {
            BuildProfile::Release => true,
            BuildProfile::Debug => match last_name {
                Some(n) => n@ == DEV_DIR_NAME@,
                None => false,
            },
        }),
{
    match profile {
        BuildProfile::Release => true,
        BuildProfile::Debug => match last_name {
            Some(n) => n.to_owned() == DEV_DIR_NAME.to_owned(),
            None => false,
        },
    }
}

/// Name of the file a panic is reported in, in the base directory.
pub const CRASH_LOG_NAME: &'static str = "crash.log";

/// The crash report written when the program panics with message `payload` (when it is text)
/// at `location` (file and line, when known).
pub open spec fn crash_report_of(payload: Option<Seq<char>>, location: Option<(Seq<char>, u32)>) -> Seq<
    char,
> {
    "Panic occurred: \n"@ + match payload {
        Some(p) => "Payload: "@ + p + "\n"@,
        None => "Payload: Unknown\n"@,
    } + match location {
        Some(l) => "Location: file '"@ + l.0 + "', line "@ + decimal(l.1 as nat) + "\n"@,
        None => Seq::<char>::empty(),
    }
}

/// A crash report starts with the header and the panic's whole text message (`Unknown` when
/// the payload is not text), and, when the place is known, ends with that file and the line
/// number written in decimal, which reads back as the line.
pub proof fn law_crash_report_names_payload_and_line(
    payload: Option<Seq<char>>,
    location: Option<(Seq<char>, u32)>,
)
    ensures
        payload matches Some(p) ==> ("Panic occurred: \nPayload: "@ + p + "\n"@).is_prefix_of(
            crash_report_of(payload, location),
        ),
        payload is None ==> "Panic occurred: \nPayload: Unknown\n"@.is_prefix_of(
            crash_report_of(payload, location),
        ),
        location matches Some(l) ==> ("Location: file '"@ + l.0 + "', line "@ + decimal(
            l.1 as nat,
        ) + "\n"@).is_suffix_of(crash_report_of(payload, location)),
        location matches Some(l) ==> digits_value(decimal(l.1 as nat)) == l.1,
        location is None ==> crash_report_of(payload, location).last() == '\n',
{
    let head = "Panic occurred: \n"@;
    let pay = match payload {
        Some(p) => "Payload: "@ + p + "\n"@,
        None => "Payload: Unknown\n"@,
    };
    let loc = match location {
        Some(l) => "Location: file '"@ + l.0 + "', line "@ + decimal(l.1 as nat) + "\n"@,
        None => Seq::<char>::empty(),
    };
    let r = crash_report_of(payload, location);
    assert(r =~= head + pay + loc);
    assert(r.subrange(0, (head + pay).len() as int) =~= head + pay);
    assert(r.subrange(r.len() - loc.len(), r.len() as int) =~= loc);
    match payload {
        Some(p) => {
            assert(head + pay =~= "Panic occurred: \nPayload: "@ + p + "\n"@) by {
                reveal_strlit("Panic occurred: \n");
                reveal_strlit("Payload: ");
                reveal_strlit("Panic occurred: \nPayload: ");
            }
        },
        None => {
            assert(head + pay =~= "Panic occurred: \nPayload: Unknown\n"@) by {
                reveal_strlit("Panic occurred: \n");
                reveal_strlit("Payload: Unknown\n");
                reveal_strlit("Panic occurred: \nPayload: Unknown\n");
            }
        },
    }
    match location {
        Some(l) => {
            law_decimal_reads_back(l.1 as nat);
        },
        None => {
            reveal_strlit("Payload: Unknown\n");
            reveal_strlit("\n");
            assert(r =~= head + pay);
            assert(pay.last() == '\n');
        },
    }
}

/// The crash report for a panic with message `payload` at `location`.
pub fn crash_report(payload: Option<&str>, location: Option<(&str, u32)>) -> (r: String)
    ensures
        r@ == crash_report_of(
            match payload {
                Some(p) => Some(p@),
                None => None,
            },
            match location {
                Some(l) => Some((l.0@, l.1)),
                None => None,
            },
        ),
        payload matches Some(p) ==> ("Panic occurred: \nPayload: "@ + p@ + "\n"@).is_prefix_of(r@),
        payload is None ==> "Panic occurred: \nPayload: Unknown\n"@.is_prefix_of(r@),
        location matches Some(l) ==> ("Location: file '"@ + l.0@ + "', line "@ + decimal(
            l.1 as nat,
        ) + "\n"@).is_suffix_of(r@),
{
    proof {
        law_crash_report_names_payload_and_line(
            match payload {
                Some(p) => Some(p@),
                None => None,
            },
            match location {
                Some(l) => Some((l.0@, l.1)),
                None => None,
            },
        );
    }
    let mut r = String::new();
    push_str(&mut r, "Panic occurred: \n");
    match payload {
        Some(p) => {
            push_str(&mut r, "Payload: ");
            push_str(&mut r, p);
            push_str(&mut r, "\n");
        },
        None => push_str(&mut r, "Payload: Unknown\n"),
    }
    match location {
        Some((file, line)) => {
            push_str(&mut r, "Location: file '");
            push_str(&mut r, file);
            push_str(&mut r, "', line ");
            push_decimal(&mut r, line as u128);
            push_str(&mut r, "\n");
        },
        None => {},
    }
    r
}

} // verus!
