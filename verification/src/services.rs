//! Thread-supervision support: the shared stop switch that lets any failing
//! service, or a signal handler, tell every sibling worker loop to wind down.
//!
//! The loops themselves live outside the library (they spawn threads and
//! catch panics); they decide whether to keep running with
//! [`should_continue`] over the two flags they watch.

use vstd::prelude::*;

use std::sync::atomic::AtomicBool;
use std::sync::atomic::Ordering;
use std::sync::Arc;

use crate::persistence::Error;

verus! {

/// A service that is a loop that does something: one unit of work per call.
/// A returned error is the signal to stop the whole group of services.
pub trait LoopService {
    fn run_iteration(&mut self) -> Result<(), Error>;
}

/// The shared switch a group of service loops watches: set once, every loop
/// winds down after its current iteration. The flag is shared state written
/// by other threads, so nothing is claimed about the values read from it.
#[derive(Clone)]
pub struct ServiceControl {
    stop_all: Arc<AtomicBool>,
}

impl ServiceControl {
    /// A fresh control whose switch starts unset.
    pub fn new() -> ServiceControl {
        ServiceControl { stop_all: Arc::new(AtomicBool::new(false)) }
    }

    /// Notify all spawned service instances to shut down.
    pub fn send_stop_to_all(&self) {
        self.stop_all.store(true, Ordering::SeqCst);
    }

    /// Whether some service or signal handler asked the group to stop.
    pub fn stop_requested(&self) -> bool {
        self.stop_all.load(Ordering::SeqCst)
    }
}

/// The supervision loop's continue test: run another iteration exactly while
/// neither this service nor the whole group has been told to stop.
pub fn should_continue(stop: bool, stop_all: bool) -> (r: bool)
    ensures
        r == (!stop && !stop_all),
{
    !stop && !stop_all
}

} // verus!
