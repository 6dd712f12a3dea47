//! The lock that makes hidden automation webviews run one at a time.
use vstd::prelude::*;

verus! {

/// `tokio::sync::Mutex`, an asynchronous lock; opaque here.
#[verifier::external_type_specification]
#[verifier::external_body]
#[verifier::reject_recursive_types(T)]
pub struct ExTokioMutex<T: ?Sized>(tokio::sync::Mutex<T>);

/// `tokio::sync::Mutex::new(())`: a new, unlocked lock guarding nothing. Nothing is claimed
/// of the result; the lock is only carried here and taken by the handlers.
#[verifier::external_body]
fn new_unit_mutex() -> tokio::sync::Mutex<()> {
    tokio::sync::Mutex::new(())
}

/// Held while a hidden automation webview runs, so that such runs happen one after another.
pub struct WebviewLock {
    pub lock: tokio::sync::Mutex<()>,
}

impl WebviewLock {
    /// A lock that nobody holds.
    pub fn new() -> (l: WebviewLock) {
        WebviewLock { lock: new_unit_mutex() }
    }
}

} // verus!
