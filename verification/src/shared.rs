//! The registry as the one resource shared between the collector's execution
//! path and the request handlers.
//!
//! A reader–writer lock guards the registry. The collector holds the write
//! lock across the whole grouped update of a poll, and each scrape reads under
//! a read lock, so a concurrent scrape observes the registry either wholly
//! before or wholly after a poll's update — never within it. Reads never wait
//! for the remote call itself: the poll happens before the write lock is
//! taken, and the lock is held only for the in-memory update.

use vstd::prelude::*;
use vstd::rwlock::{RwLock, RwLockPredicate};

use crate::collector::{record_outcome, PollOutcome};
use crate::exposition::{exposition_text, render};
use crate::registry::{distinct_subjects, snapshot_model, MetricRegistry, PollStats};

verus! {

/// The lock invariant: the guarded registry is always well-formed.
pub struct WfPred;

impl RwLockPredicate<MetricRegistry> for WfPred {
    open spec fn inv(self, v: MetricRegistry) -> bool {
        v.wf()
    }
}

/// A registry behind a reader–writer lock, shared by reference between the
/// polling path and the serving path.
pub struct SharedRegistry {
    lock: RwLock<MetricRegistry, WfPred>,
}

impl SharedRegistry {
    /// Creates the shared registry, empty.
    pub fn new() -> SharedRegistry {
        SharedRegistry { lock: RwLock::new(MetricRegistry::new(), Ghost(WfPred)) }
    }

    /// Folds one poll outcome into the registry, holding the write lock across
    /// the whole grouped update: no reader observes a partially applied poll.
    pub fn record(&self, subject: &String, outcome: &PollOutcome) {
        let (mut reg, handle) = self.lock.acquire_write();
        record_outcome(&mut reg, subject, outcome);
        handle.release_write(reg);
    }

    /// Serves one scrape: snapshots the registry under a read lock and
    /// serializes the snapshot after releasing it. The body is the exposition
    /// text of a well-formed registry value — the one the lock guarded at the
    /// moment of the snapshot.
    pub fn scrape(&self) -> (body: String)
        ensures
            exists|v: Seq<(Seq<char>, PollStats)>|
                #[trigger] distinct_subjects(v) && body@ == exposition_text(snapshot_model(v)),
    {
        let handle = self.lock.acquire_read();
        let reg = handle.borrow();
        let ghost guarded = reg@;
        let samples = reg.snapshot();
        handle.release_read();
        let body = render(&samples);
        proof {
            assert(distinct_subjects(guarded) && body@ == exposition_text(
                snapshot_model(guarded),
            ));
        }
        body
    }
}

} // verus!
