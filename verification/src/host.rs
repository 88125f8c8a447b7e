//! The execution host: the owner of the single-threaded runtime on which a
//! parse is driven to completion. A host is used from ordinary threads only,
//! never from inside an asynchronous task.

use vstd::prelude::*;

verus! {

#[verifier::external_type_specification]
#[verifier::external_body]
pub struct ExRuntime(tokio::runtime::Runtime);

/// Seconds granted to a runtime for a graceful shutdown before it is forced.
pub const SHUTDOWN_GRACE_SECS: u64 = 5;

/// `tokio::runtime::Builder::new_current_thread`, `enable_all` and `build`:
/// a new single-threaded runtime, or `None` where the machine refuses one.
/// Nothing is promised of which of the two comes back.
#[verifier::external_body]
fn build_runtime() -> Option<tokio::runtime::Runtime> {
    tokio::runtime::Builder::new_current_thread().enable_all().build().ok()
}

/// `tokio::runtime::Runtime::shutdown_timeout`: consumes the runtime, waiting
/// at most `secs` seconds for its tasks to wind down. Nothing comes back.
#[verifier::external_body]
fn shutdown_within(runtime: tokio::runtime::Runtime, secs: u64) {
    runtime.shutdown_timeout(std::time::Duration::from_secs(secs))
}

/// Holder of at most one runtime. It starts empty, `init` fills it once, and
/// `shutdown` empties it again.
pub struct RuntimeManager {
    runtime: Option<tokio::runtime::Runtime>,
}

impl RuntimeManager {
    /// The runtime that the manager holds, if it holds one.
    pub closed spec fn held(&self) -> Option<tokio::runtime::Runtime> {
        self.runtime
    }

    /// A runtime is present.
    pub closed spec fn is_initialized(&self) -> bool {
        self.runtime is Some
    }

    /// A manager without a runtime.
    pub fn new() -> (m: Self)
        ensures
            !m.is_initialized(),
    {
        RuntimeManager { runtime: None }
    }

    /// Creates the runtime unless one is present, and reports whether one is
    /// present afterwards. A manager that already holds a runtime is left
    /// untouched, so a second call changes nothing.
    pub fn init(&mut self) -> (ready: bool)
        ensures
            ready == final(self).is_initialized(),
            old(self).is_initialized() ==> ready && *final(self) == *old(self),
    {
        if self.runtime.is_none() {
            self.runtime = build_runtime();
        }
        self.runtime.is_some()
    }

    /// Whether a runtime is present.
    pub fn initialized(&self) -> (b: bool)
        ensures
            b == self.is_initialized(),
    {
        self.runtime.is_some()
    }

    /// The runtime of an initialized manager: the one that it holds, which
    /// stays in the manager.
    pub(crate) fn runtime(&self) -> (r: &tokio::runtime::Runtime)
        requires
            self.is_initialized(),
        ensures
            self.held() == Some(*r),
    {
        self.runtime.as_ref().unwrap()
    }

    /// Tears the runtime down if one is present: a graceful shutdown bounded
    /// by `SHUTDOWN_GRACE_SECS`, then a forced one. Without a runtime this
    /// does nothing, so it may be called any number of times.
    pub fn shutdown(&mut self)
        ensures
            !final(self).is_initialized(),
            !old(self).is_initialized() ==> *final(self) == *old(self),
    {
        if let Some(runtime) = self.runtime.take() {
            shutdown_within(runtime, SHUTDOWN_GRACE_SECS);
        }
    }
}

} // verus!
