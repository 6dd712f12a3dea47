//! Native (Win32) window styling of child and automation webviews: which style bits, show
//! commands and positioning flags are applied when.
use vstd::prelude::*;

use crate::text::chars_of;

verus! {

/// `WS_EX_TRANSPARENT`: the window lets mouse input through.
pub const WS_EX_TRANSPARENT: u32 = 0x0000_0020;

/// `WS_EX_TOOLWINDOW`: no taskbar button.
pub const WS_EX_TOOLWINDOW: u32 = 0x0000_0080;

/// `WS_EX_LAYERED`: the window has a whole-window opacity.
pub const WS_EX_LAYERED: u32 = 0x0008_0000;

/// `WS_EX_NOACTIVATE`: the window never takes the focus.
pub const WS_EX_NOACTIVATE: u32 = 0x0800_0000;

/// `SWP_NOSIZE`.
pub const SWP_NOSIZE: u32 = 0x0001;

/// `SWP_NOMOVE`.
pub const SWP_NOMOVE: u32 = 0x0002;

/// `SWP_NOZORDER`.
pub const SWP_NOZORDER: u32 = 0x0004;

/// `SWP_NOACTIVATE`.
pub const SWP_NOACTIVATE: u32 = 0x0010;

/// `SWP_FRAMECHANGED`.
pub const SWP_FRAMECHANGED: u32 = 0x0020;

/// `SWP_SHOWWINDOW`.
pub const SWP_SHOWWINDOW: u32 = 0x0040;

/// `SWP_HIDEWINDOW`.
pub const SWP_HIDEWINDOW: u32 = 0x0080;

/// `SW_SHOWNOACTIVATE`.
pub const SW_SHOWNOACTIVATE: i32 = 4;

/// `SW_SHOW`.
pub const SW_SHOW: i32 = 5;

/// `WM_LBUTTONDOWN`.
pub const WM_LBUTTONDOWN: u32 = 0x0201;

/// `WM_LBUTTONUP`.
pub const WM_LBUTTONUP: u32 = 0x0202;

/// `MK_LBUTTON`: the left button is down.
pub const MK_LBUTTON: usize = 0x0001;

/// Opacity of a child webview that is shown.
pub const OPAQUE: u8 = 255;

/// Opacity of a child webview that is hidden.
pub const INVISIBLE: u8 = 0;

/// Smallest width and height, in physical pixels, of a child webview.
pub const MIN_CHILD_EXTENT: u32 = 100;

/// Extended style of an automation webview: it can never take the focus and has no taskbar
/// button, whatever else it had.
pub fn automation_ex_style(ex_style: u64) -> (r: u64)
    ensures
        r == ex_style | (WS_EX_NOACTIVATE as u64) | (WS_EX_TOOLWINDOW as u64),
{
    ex_style | (WS_EX_NOACTIVATE as u64) | (WS_EX_TOOLWINDOW as u64)
}

/// Positioning flags that hide an automation webview where it stands, without activating it.
pub fn automation_hide_flags() -> (r: u32)
    ensures
        r == SWP_NOMOVE | SWP_NOSIZE | SWP_NOZORDER | SWP_NOACTIVATE | SWP_HIDEWINDOW,
{
    SWP_NOMOVE | SWP_NOSIZE | SWP_NOZORDER | SWP_NOACTIVATE | SWP_HIDEWINDOW
}

/// Whether the window that had the focus before an automation webview opened gets it back:
/// only when there was one (a non-null handle).
pub fn restores_foreground(previous: u64) -> (r: bool)
    ensures
        r == (previous != 0),
{
    previous != 0
}

/// The extended style to set so that a new child webview is layered, or `None` when it
/// already is.
pub fn layered_ex_style(ex_style: u32) -> (r: Option<u32>)
    ensures
        r == (if ex_style & WS_EX_LAYERED == 0 {
            Some(ex_style | WS_EX_LAYERED)
        } else {
            None::<u32>
        }),
{
    if ex_style & WS_EX_LAYERED == 0 {
        Some(ex_style | WS_EX_LAYERED)
    } else {
        None
    }
}

/// The extended style to set on a new child webview: a child created inactive lets mouse input
/// through; an active one keeps its style (`None`).
pub fn initial_click_through(ex_style: u32, visible: bool) -> (r: Option<u32>)
    ensures
        r == (if visible {
            None::<u32>
        } else {
            Some(ex_style | WS_EX_TRANSPARENT)
        }),
{
    if visible {
        None
    } else {
        Some(ex_style | WS_EX_TRANSPARENT)
    }
}

/// The style of a child webview that is hidden: it lets mouse input through.
pub fn hidden_ex_style(ex_style: u32) -> (r: u32)
    ensures
        r == ex_style | WS_EX_TRANSPARENT,
{
    ex_style | WS_EX_TRANSPARENT
}

/// The style of a child webview that is shown: it takes mouse input.
pub fn shown_ex_style(ex_style: u32) -> (r: u32)
    ensures
        r == ex_style & !WS_EX_TRANSPARENT,
{
    ex_style & !WS_EX_TRANSPARENT
}

/// Positioning flags when a child webview is first placed: always shown (so the renderer keeps
/// running), and not activated when it was created inactive.
pub fn initial_position_flags(visible: bool) -> (r: u32)
    ensures
        r == (if visible {
            SWP_SHOWWINDOW | SWP_FRAMECHANGED
        } else {
            SWP_SHOWWINDOW | SWP_FRAMECHANGED | SWP_NOACTIVATE
        }),
{
    let flags = SWP_SHOWWINDOW | SWP_FRAMECHANGED;
    if visible {
        flags
    } else {
        flags | SWP_NOACTIVATE
    }
}

/// Positioning flags when a child webview is moved to new bounds.
pub fn update_position_flags() -> (r: u32)
    ensures
        r == SWP_SHOWWINDOW | SWP_FRAMECHANGED,
{
    SWP_SHOWWINDOW | SWP_FRAMECHANGED
}

/// Positioning flags when a child webview follows the main window: shown, not activated, its
/// size left as it is.
pub fn follow_position_flags() -> (r: u32)
    ensures
        r == SWP_SHOWWINDOW | SWP_NOACTIVATE | SWP_FRAMECHANGED | SWP_NOSIZE,
{
    SWP_SHOWWINDOW | SWP_NOACTIVATE | SWP_FRAMECHANGED | SWP_NOSIZE
}

/// The show command for a child webview being updated: shown and activated when it is to take
/// the focus, shown without activation otherwise.
pub fn update_show_command(focus: bool) -> (r: i32)
    ensures
        r == (if focus {
            SW_SHOW
        } else {
            SW_SHOWNOACTIVATE
        }),
{
    if focus {
        SW_SHOW
    } else {
        SW_SHOWNOACTIVATE
    }
}

/// A width or height of a child webview: at least `MIN_CHILD_EXTENT`.
pub fn child_extent(extent: u32) -> (r: u32)
    ensures
        r == (if extent < MIN_CHILD_EXTENT {
            MIN_CHILD_EXTENT
        } else {
            extent
        }),
{
    if extent < MIN_CHILD_EXTENT {
        MIN_CHILD_EXTENT
    } else {
        extent
    }
}

/// The `lParam` of a mouse message at client point (`x`, `y`): `x` in the low word, `y` in
/// the high word.
pub fn point_lparam(x: u16, y: u16) -> (r: u32)
    ensures
        r == ((y as u32) << 16u32) | (x as u32),
        r & 0xffff == x,
        r >> 16u32 == y,
{
    let r = ((y as u32) << 16u32) | (x as u32);
    assert(r & 0xffff == x && r >> 16u32 == y) by (bit_vector)
        requires
            r == ((y as u32) << 16u32) | (x as u32),
    ;
    r
}

/// The window to click to wake a child webview's page: the renderer window when one was found
/// (a non-null handle), else the child webview itself.
pub fn click_target(renderer: u64, child: u64) -> (r: u64)
    ensures
        r == (if renderer != 0 {
            renderer
        } else {
            child
        }),
{
    if renderer != 0 {
        renderer
    } else {
        child
    }
}

/// Window class of the renderer window inside a WebView2 control.
pub const RENDER_WIDGET_CLASS: &'static str = "Chrome_RenderWidgetHostHWND";

/// Whether the UTF-16 class name `units` is the renderer's class, `RENDER_WIDGET_CLASS`
/// (an ASCII name: one code unit per character).
pub open spec fn is_render_widget_class_spec(units: Seq<u16>) -> bool {
    units.len() == RENDER_WIDGET_CLASS@.len() && forall|i: int|
        0 <= i < units.len() ==> units[i] as u32 == RENDER_WIDGET_CLASS@[i] as u32
}

/// Whether a window class name, as UTF-16 code units, is the renderer's class.
pub fn is_render_widget_class(units: &[u16]) -> (r: bool)
    ensures
        r == is_render_widget_class_spec(units@),
{
    let name = chars_of(RENDER_WIDGET_CLASS);
    if units.len() != name.len() {
        return false;
    }
    let mut i: usize = 0;
    while i < units.len()
        invariant
            i <= units.len() == name@.len(),
            name@ == RENDER_WIDGET_CLASS@,
            forall|j: int| 0 <= j < i ==> units@[j] as u32 == name@[j] as u32,
        decreases units.len() - i,
    {
        if units[i] as u32 != name[i] as u32 {
            return false;
        }
        i = i + 1;
    }
    true
}

/// The answer to the window enumeration for a child window of class `units`: stop (0) at the
/// renderer window, go on (1) otherwise.
pub fn render_widget_search_step(units: &[u16]) -> (r: i32)
    ensures
        r == (if is_render_widget_class_spec(units@) {
            0i32
        } else {
            1i32
        }),
{
    if is_render_widget_class(units) {
        0
    } else {
        1
    }
}

/// Hiding and then showing a child webview, or showing and then hiding it, leaves every style
/// bit but the click-through bit as it was; the last of the two decides that bit.
pub proof fn law_show_hide_touch_only_click_through(ex_style: u32)
    ensures
        (ex_style | WS_EX_TRANSPARENT) & !WS_EX_TRANSPARENT == ex_style & !WS_EX_TRANSPARENT,
        (ex_style & !WS_EX_TRANSPARENT) | WS_EX_TRANSPARENT == ex_style | WS_EX_TRANSPARENT,
        (ex_style | WS_EX_TRANSPARENT) & WS_EX_TRANSPARENT != 0,
        (ex_style & !WS_EX_TRANSPARENT) & WS_EX_TRANSPARENT == 0,
        ((ex_style | WS_EX_TRANSPARENT) ^ ex_style) & !WS_EX_TRANSPARENT == 0,
        ((ex_style & !WS_EX_TRANSPARENT) ^ ex_style) & !WS_EX_TRANSPARENT == 0,
{
    assert((ex_style | 0x20u32) & !0x20u32 == ex_style & !0x20u32) by (bit_vector);
    assert((ex_style & !0x20u32) | 0x20u32 == ex_style | 0x20u32) by (bit_vector);
    assert((ex_style | 0x20u32) & 0x20u32 != 0) by (bit_vector);
    assert((ex_style & !0x20u32) & 0x20u32 == 0) by (bit_vector);
    assert(((ex_style | 0x20u32) ^ ex_style) & !0x20u32 == 0) by (bit_vector);
    assert(((ex_style & !0x20u32) ^ ex_style) & !0x20u32 == 0) by (bit_vector);
}

/// A child webview is layered after its creation styling, and no other style bit changes.
pub proof fn law_layering_keeps_other_bits(ex_style: u32)
    ensures
        (ex_style & WS_EX_LAYERED == 0 ==> (ex_style | WS_EX_LAYERED) & WS_EX_LAYERED != 0),
        ((ex_style | WS_EX_LAYERED) ^ ex_style) & !WS_EX_LAYERED == 0,
{
    assert((ex_style | 0x80000u32) & 0x80000u32 != 0) by (bit_vector);
    assert(((ex_style | 0x80000u32) ^ ex_style) & !0x80000u32 == 0) by (bit_vector);
}

} // verus!
