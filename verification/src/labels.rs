//! Window labels and the fixed names the control panel uses.
use vstd::prelude::*;

use crate::text::{decimal, digit_char, digits_value, law_decimal_reads_back, push_decimal, push_str};

verus! {

/// Label of the main control panel window.
pub const MAIN_WINDOW: &'static str = "main";

/// Label of the OAuth authorization window.
pub const OAUTH_WINDOW: &'static str = "oauth_flow";

/// Label of the service login window.
pub const SERVICE_LOGIN_WINDOW: &'static str = "service_login";

/// Event emitted when the user zooms a child webview.
pub const CHILD_ZOOM_EVENT: &'static str = "child-zoom-changed";

/// Event emitted when a webview reports its zoom.
pub const WEBVIEW_ZOOM_EVENT: &'static str = "webview_zoom_changed";

/// The two kinds of throw-away automation webviews.
#[derive(Clone, Copy, Debug, PartialEq, Eq, Structural)]
pub enum AutomationKind {
    /// Opened, driven with a script after a delay, then closed (under the webview lock).
    Hidden,
    /// Opened with an initialization script and left running.
    Automated,
}

/// The label prefix of a kind of automation webview.
pub open spec fn label_prefix(kind: AutomationKind) -> Seq<char> {
    match kind {
        AutomationKind::Hidden => "hidden_webview_"@,
        AutomationKind::Automated => "auto_webview_"@,
    }
}

/// The label of an automation webview opened at `millis` (milliseconds since the Unix epoch)
/// as the `count`-th of its kind: `<prefix><millis>_<count>`.
pub open spec fn automation_label_of(kind: AutomationKind, millis: u128, count: usize) -> Seq<
    char,
> {
    label_prefix(kind) + decimal(millis as nat) + "_"@ + decimal(count as nat)
}

/// The label of the `count`-th automation webview of `kind`, opened at `millis`.
pub fn automation_label(kind: AutomationKind, millis: u128, count: usize) -> (label: String)
    ensures
        label@ == automation_label_of(kind, millis, count),
        label@ == (if kind == AutomationKind::Hidden {
            "hidden_webview_"@
        } else {
            "auto_webview_"@
        }) + decimal(millis as nat) + "_"@ + decimal(count as nat),
{
    let mut label = String::new();
    match kind {
        AutomationKind::Hidden => push_str(&mut label, "hidden_webview_"),
        AutomationKind::Automated => push_str(&mut label, "auto_webview_"),
    }
    push_decimal(&mut label, millis);
    push_str(&mut label, "_");
    push_decimal(&mut label, count as u128);
    label
}

/// A hidden webview's label is `hidden_webview_`, an automated one's `auto_webview_`, whatever
/// the time and count; then come the milliseconds, `_` and the count, each written in decimal
/// so that it reads back as the number given.
pub proof fn law_automation_label_shape(kind: AutomationKind, millis: u128, count: usize)
    ensures
        kind == AutomationKind::Hidden ==> automation_label_of(kind, millis, count)
            == "hidden_webview_"@ + decimal(millis as nat) + "_"@ + decimal(count as nat),
        kind == AutomationKind::Automated ==> automation_label_of(kind, millis, count)
            == "auto_webview_"@ + decimal(millis as nat) + "_"@ + decimal(count as nat),
        ({
            let l = automation_label_of(kind, millis, count);
            let p = if kind == AutomationKind::Hidden {
                15int
            } else {
                13int
            };
            let m = decimal(millis as nat).len() as int;
            &&& p + m + 1 < l.len()
            &&& digits_value(l.subrange(p, p + m)) == millis
            &&& l[p + m] == '_'
            &&& digits_value(l.skip(p + m + 1)) == count
        }),
{
    reveal_strlit("hidden_webview_");
    reveal_strlit("auto_webview_");
    reveal_strlit("_");
    law_decimal_reads_back(millis as nat);
    law_decimal_reads_back(count as nat);
    let l = automation_label_of(kind, millis, count);
    let pre = label_prefix(kind);
    let p = pre.len() as int;
    let dm = decimal(millis as nat);
    let dc = decimal(count as nat);
    let m = dm.len() as int;
    assert(l =~= pre + dm + "_"@ + dc);
    assert(l.subrange(p, p + m) =~= dm);
    assert(l.skip(p + m + 1) =~= dc);
    assert(l[p + m] == '_');
}

/// Whether `c` is a decimal digit.
pub open spec fn is_digit(c: char) -> bool {
    '0' <= c <= '9'
}

/// Every character of a decimal rendering is a digit, and there is at least one.
pub proof fn lemma_decimal_digits(n: nat)
    ensures
        decimal(n).len() >= 1,
        forall|i: int| 0 <= i < decimal(n).len() ==> is_digit(#[trigger] decimal(n)[i]),
        n >= 10 ==> decimal(n).len() >= 2,
    decreases n,
{
    if n >= 10 {
        lemma_decimal_digits(n / 10);
        assert forall|i: int| 0 <= i < decimal(n).len() implies is_digit(#[trigger] decimal(n)[i]) by {
            if i < decimal(n / 10).len() {
                assert(decimal(n)[i] == decimal(n / 10)[i]);
            }
        }
    }
}

proof fn lemma_digit_char_injective(a: nat, b: nat)
    requires
        a < 10,
        b < 10,
        digit_char(a) == digit_char(b),
    ensures
        a == b,
{
}

/// Different numbers have different decimal renderings.
pub proof fn lemma_decimal_injective(a: nat, b: nat)
    requires
        decimal(a) == decimal(b),
    ensures
        a == b,
    decreases a,
{
    lemma_decimal_digits(a);
    lemma_decimal_digits(b);
    if a >= 10 && b >= 10 {
        let da = decimal(a);
        let db = decimal(b);
        assert(da.last() == digit_char(a % 10));
        assert(db.last() == digit_char(b % 10));
        lemma_digit_char_injective(a % 10, b % 10);
        assert(da.drop_last() =~= decimal(a / 10));
        assert(db.drop_last() =~= decimal(b / 10));
        lemma_decimal_injective(a / 10, b / 10);
    } else if a < 10 && b < 10 {
        assert(decimal(a)[0] == digit_char(a));
        assert(decimal(b)[0] == digit_char(b));
        lemma_digit_char_injective(a, b);
    }
}

proof fn lemma_split_at_separator(d1: Seq<char>, e1: Seq<char>, d2: Seq<char>, e2: Seq<char>)
    requires
        forall|i: int| 0 <= i < d1.len() ==> is_digit(#[trigger] d1[i]),
        forall|i: int| 0 <= i < d2.len() ==> is_digit(#[trigger] d2[i]),
        d1 + "_"@ + e1 == d2 + "_"@ + e2,
    ensures
        d1 == d2,
        e1 == e2,
{
    reveal_strlit("_");
    let s1 = d1 + "_"@ + e1;
    let s2 = d2 + "_"@ + e2;
    if d1.len() < d2.len() {
        assert(s1[d1.len() as int] == '_');
        assert(s2[d1.len() as int] == d2[d1.len() as int]);
    } else if d2.len() < d1.len() {
        assert(s2[d2.len() as int] == '_');
        assert(s1[d2.len() as int] == d1[d2.len() as int]);
    }
    assert(d1 =~= s1.take(d1.len() as int));
    assert(d2 =~= s2.take(d2.len() as int));
    assert(e1 =~= s1.skip(d1.len() as int + 1));
    assert(e2 =~= s2.skip(d2.len() as int + 1));
}

/// Two automation labels of one kind are equal only when opened at the same millisecond with
/// the same count: labels from one counter never collide within a millisecond.
pub proof fn law_automation_labels_distinct(
    kind: AutomationKind,
    millis1: u128,
    count1: usize,
    millis2: u128,
    count2: usize,
)
    requires
        automation_label_of(kind, millis1, count1) == automation_label_of(kind, millis2, count2),
    ensures
        millis1 == millis2,
        count1 == count2,
{
    let p = label_prefix(kind);
    let t1 = decimal(millis1 as nat) + "_"@ + decimal(count1 as nat);
    let t2 = decimal(millis2 as nat) + "_"@ + decimal(count2 as nat);
    assert(automation_label_of(kind, millis1, count1) =~= p + t1);
    assert(automation_label_of(kind, millis2, count2) =~= p + t2);
    assert(t1 =~= (p + t1).skip(p.len() as int));
    assert(t2 =~= (p + t2).skip(p.len() as int));
    lemma_decimal_digits(millis1 as nat);
    lemma_decimal_digits(millis2 as nat);
    lemma_split_at_separator(
        decimal(millis1 as nat),
        decimal(count1 as nat),
        decimal(millis2 as nat),
        decimal(count2 as nat),
    );
    lemma_decimal_injective(millis1 as nat, millis2 as nat);
    lemma_decimal_injective(count1 as nat, count2 as nat);
}

/// Hidden and automated webviews never share a label, and no automation label is one of the
/// fixed window labels.
pub proof fn law_automation_labels_apart(
    kind: AutomationKind,
    millis: u128,
    count: usize,
    other_millis: u128,
    other_count: usize,
)
    ensures
        automation_label_of(AutomationKind::Hidden, millis, count) != automation_label_of(
            AutomationKind::Automated,
            other_millis,
            other_count,
        ),
        automation_label_of(kind, millis, count) != MAIN_WINDOW@,
        automation_label_of(kind, millis, count) != OAUTH_WINDOW@,
        automation_label_of(kind, millis, count) != SERVICE_LOGIN_WINDOW@,
{
    reveal_strlit("hidden_webview_");
    reveal_strlit("auto_webview_");
    reveal_strlit("main");
    reveal_strlit("oauth_flow");
    reveal_strlit("service_login");
    let h = automation_label_of(AutomationKind::Hidden, millis, count);
    let a = automation_label_of(AutomationKind::Automated, other_millis, other_count);
    assert(h[0] == 'h');
    assert(a[0] == 'a');
    let l = automation_label_of(kind, millis, count);
    assert(l.len() >= 13);
    assert(l[0] == 'h' || l[0] == 'a');
}

/// The error returned for a URL that does not parse: `Invalid URL: <reason>`.
pub fn invalid_url_error(reason: &str) -> (msg: String)
    ensures
        msg@ == "Invalid URL: "@ + reason@,
{
    let mut msg = String::new();
    push_str(&mut msg, "Invalid URL: ");
    push_str(&mut msg, reason);
    msg
}

} // verus!
