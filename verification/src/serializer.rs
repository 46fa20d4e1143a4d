//! One planner state shared by many callers. Every operation takes the
//! state for itself alone, runs its statements and hands the state back, so
//! at most one operation touches the stored data at any moment.

use vstd::prelude::*;
use vstd::rwlock::{RwLock, RwLockPredicate};
use crate::db::AppState;

verus! {

/// What may stand behind the lock: a state whose tables are well formed.
pub struct WellFormed;

impl RwLockPredicate<AppState> for WellFormed {
    open spec fn inv(self, data: AppState) -> bool {
        data.wf()
    }
}

/// A planner state behind a lock.
pub struct AccessSerializer {
    lock: RwLock<AppState, WellFormed>,
}

impl AccessSerializer {
    /// Puts `data` behind a lock.
    pub fn new(data: AppState) -> (shared: AccessSerializer)
        requires
            data.wf(),
    {
        AccessSerializer { lock: RwLock::new(data, Ghost(WellFormed)) }
    }

    /// Runs `operation` on the state while no other operation holds it, and
    /// puts back the state that `operation` returns. A caller that finds
    /// the state taken waits until it is put back.
    pub fn exclusive<R, F: FnOnce(AppState) -> (AppState, R)>(&self, operation: F) -> (r: R)
        requires
            forall|data: AppState| data.wf() ==> operation.requires((data,)),
            forall|data: AppState, out: (AppState, R)|
                data.wf() && operation.ensures((data,), out) ==> out.0.wf(),
        ensures
            exists|data: AppState, after: AppState|
                data.wf() && after.wf() && operation.ensures((data,), (after, r)),
    {
        let (data, handle) = self.lock.acquire_write();
        let (after, r) = operation(data);
        handle.release_write(after);
        r
    }
}

} // verus!
