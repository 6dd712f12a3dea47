//! Window, webview and helper logic of the Theater control panel backend.
use vstd::prelude::*;

pub mod automation;
pub mod labels;
pub mod launch;
pub mod registry;
pub mod loopback;
pub mod native_window;
pub mod text;
pub mod webview_lock;
pub mod window_policy;

verus! {
} // verus!
