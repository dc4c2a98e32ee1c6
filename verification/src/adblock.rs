//! Ad-block switches and the network-level URL policy.

use std::sync::atomic::{AtomicBool, Ordering};
use std::sync::Arc;
use vstd::prelude::*;
use vstd::rwlock::{RwLock, RwLockPredicate};

verus! {

/// `Arc::clone`: another handle on the same shared value.
#[verifier::external_body]
fn share<T>(value: &Arc<T>) -> (r: Arc<T>)
    ensures
        r == *value,
{
    Arc::clone(value)
}

/// What the blocked-request counter may hold: no request is ever blocked
/// at the network layer (see [`should_block_url`]), so the count stays zero.
pub struct NoBlockedRequests;

impl RwLockPredicate<u64> for NoBlockedRequests {
    open spec fn inv(self, count: u64) -> bool {
        count == 0
    }
}

/// Ad-block switch and the count of requests blocked in this session. All
/// clones of a controller share one switch and one counter.
pub struct AdBlockController {
    enabled: Arc<AtomicBool>,
    blocked_requests: Arc<RwLock<u64, NoBlockedRequests>>,
}

impl AdBlockController {
    /// `self` and `other` hold equal switch and counter handles. Clones are
    /// made with `Arc::clone`, which hands out a handle on the same allocation.
    pub closed spec fn shares_state_with(&self, other: &Self) -> bool {
        self.enabled == other.enabled && self.blocked_requests == other.blocked_requests
    }
}

impl Clone for AdBlockController {
    /// Another handle on the same switch and counter.
    fn clone(&self) -> (r: Self)
        ensures
            r.shares_state_with(self),
    {
        AdBlockController { enabled: share(&self.enabled), blocked_requests: share(&self.blocked_requests) }
    }
}

impl AdBlockController {
    /// A controller with a fresh switch set to `enabled`, shared with no
    /// other controller, and a counter at zero. The switch is a shared atomic,
    /// whose value Verus does not model, so its value is not stated.
    pub fn new(enabled: bool) -> Self {
        AdBlockController {
            enabled: Arc::new(AtomicBool::new(enabled)),
            blocked_requests: Arc::new(RwLock::new(0, Ghost(NoBlockedRequests))),
        }
    }

    /// Turns ad blocking on or off for this controller and all its clones.
    /// The switch is a shared atomic, whose value Verus does not model, so
    /// the new value is not stated; the blocked-request count is unchanged
    /// (it is zero at all times, see [`Self::blocked_requests`]).
    pub fn set_enabled(&self, enabled: bool) {
        self.enabled.store(enabled, Ordering::Relaxed);
    }

    /// Number of requests blocked in this session, through any clone: always
    /// zero, since network-level blocking never blocks a request.
    pub fn blocked_requests(&self) -> (count: u64)
        ensures
            count == 0,
    {
        let handle = self.blocked_requests.acquire_read();
        let count = *handle.borrow();
        handle.release_read();
        count
    }
}

/// Network-level blocking triggers YouTube's anti-adblock locks on media
/// playback, so no request is ever blocked at the network layer; ad skipping
/// is left to the page-side script.
pub fn should_block_url(url: &str) -> (block: bool)
    ensures
        !block,
{
    false
}

} // verus!
