//! The in-memory event log backend.
//!
//! The store is a shared `Vec<Event>` held in a watch channel: a writer runs
//! the verified append under the channel's exclusive lock and every change
//! notifies the channel's waiters, so a reader that is caught up to the tail
//! waits on the channel (bounded by the caller's timeout) instead of polling.
//! The waiter re-checks the verified tail test [`log_moved_past`] on the
//! value it already holds and on every wakeup, so a stray wakeup can never
//! end a wait early. The channel and the runtime that drives the waits are
//! outside code, reached only through the trusted items below; the append,
//! the range collection, the tail decision and the backend check are
//! verified against the spec functions of [`crate::event_log`].

use vstd::prelude::*;

use crate::event::Event;
use crate::event_log::{
    read_outcome_ok, read_slice, valid_read, window_len, LogEvent, Offset, Reader, WithOffset,
    Writer,
};
use crate::persistence::{Connection, Error, Transaction};

verus! {

#[verifier::external_type_specification]
#[verifier::external_body]
#[verifier::reject_recursive_types(T)]
pub struct ExWatchSender<T>(tokio::sync::watch::Sender<T>);

#[verifier::external_type_specification]
#[verifier::external_body]
#[verifier::reject_recursive_types(T)]
pub struct ExWatchReceiver<T>(tokio::sync::watch::Receiver<T>);

#[verifier::external_type_specification]
#[verifier::external_body]
pub struct ExRuntime(tokio::runtime::Runtime);

/// Append every event of `batch` at the end of `log`, in order, and return
/// the new length: the one mutation the store ever undergoes. The writer
/// hands this function to the channel to run under its exclusive access.
pub fn append_batch(log: &mut Vec<Event>, batch: &[Event]) -> (n: usize)
    ensures
        final(log)@ == old(log)@ + batch@,
        n == old(log)@.len() + batch@.len(),
{
    let mut i: usize = 0;
    while i < batch.len()
        invariant
            i <= batch@.len(),
            log@ == old(log)@ + batch@.take(i as int),
        decreases batch@.len() - i,
    {
        let e = (&batch[i]).clone();
        log.push(e);
        proof {
            assert(old(log)@ + batch@.take(i as int) + seq![batch@[i as int]] == old(log)@
                + batch@.take(i + 1 as int));
        }
        i = i + 1;
    }
    proof {
        assert(batch@.take(batch@.len() as int) == batch@);
    }
    log.len()
}

/// The tail test a blocked reader waits on: the log's length has moved away
/// from the reader's offset. The store only grows, so once this holds the
/// log holds an event at `offset`.
pub fn log_moved_past(log: &Vec<Event>, offset: u64) -> (r: bool)
    ensures
        r == (log@.len() != offset),
{
    log.len() as u64 != offset
}

/// One concrete backend of the event log: an append-only store in process
/// memory. Created empty; its visible length only grows.
///
/// The public methods are plain blocking calls; a blocking read is bridged
/// onto the log's own runtime. Do not call them from a task running on that
/// same runtime, or the bridge can deadlock.
pub struct InMemoryLog {
    store: tokio::sync::watch::Sender<Vec<Event>>,
    runtime: tokio::runtime::Runtime,
}

impl InMemoryLog {
    /// Relies on `tokio::runtime::Runtime::new`: a runtime to drive the
    /// blocking reads; `None` when the system refuses the resources.
    #[verifier::external_body]
    fn new_runtime() -> Option<tokio::runtime::Runtime> {
        tokio::runtime::Runtime::new().ok()
    }

    /// Relies on `tokio::sync::watch::channel`: a channel holding exactly
    /// `store`, which notifies waiting readers of every change.
    #[verifier::external_body]
    fn new_store(store: Vec<Event>) -> tokio::sync::watch::Sender<Vec<Event>> {
        tokio::sync::watch::channel(store).0
    }

    /// Relies on `watch::Sender::send_modify`: runs the verified
    /// [`append_batch`] on the held store under the channel's exclusive
    /// access, then notifies every waiting reader; the new length, which
    /// `append_batch` proves is the old length plus the batch's, comes back
    /// out.
    #[verifier::external_body]
    fn append_to_store(&self, batch: &[Event]) -> (n: usize)
        ensures
            n >= batch@.len(),
    {
        let mut n: usize = 0;
        self.store.send_modify(|log| n = append_batch(log, batch));
        n
    }

    /// Relies on `watch::Sender::borrow`: a copy of the store as it is now.
    #[verifier::external_body]
    fn store_now(&self) -> Vec<Event> {
        self.store.borrow().clone()
    }

    /// Relies on `watch::Sender::subscribe`: a fresh receiver on the store's
    /// channel. A wait on it checks the store as it is now first, so no
    /// change between this call and the wait is missed.
    #[verifier::external_body]
    fn watch_store(&self) -> tokio::sync::watch::Receiver<Vec<Event>> {
        self.store.subscribe()
    }

    /// Relies on `watch::Receiver::wait_for`, driven by the log's runtime:
    /// sleeps until the store passes the verified test [`log_moved_past`],
    /// re-checking it on the held value first and on every wakeup, and hands
    /// back a copy of the very store value that passed, so the result's
    /// length differs from `offset`. The channel cannot close during the
    /// call: `self` owns its sender.
    #[verifier::external_body]
    fn wait_past(
        &self,
        rx: &mut tokio::sync::watch::Receiver<Vec<Event>>,
        offset: u64,
    ) -> (v: Vec<Event>)
        ensures
            v@.len() != offset,
    {
        let passed = self.runtime.block_on(rx.wait_for(|log| log_moved_past(log, offset)));
        passed.expect("the log owns the channel's sender").clone()
    }

    /// The same wait bounded by `tokio::time::timeout`: `None` exactly when
    /// the timeout elapsed before the store passed the test.
    #[verifier::external_body]
    fn wait_past_timeout(
        &self,
        rx: &mut tokio::sync::watch::Receiver<Vec<Event>>,
        offset: u64,
        timeout: core::time::Duration,
    ) -> (r: Option<Vec<Event>>)
        ensures
            r matches Some(v) ==> v@.len() != offset,
    {
        let context = self.runtime.enter();
        let raced = self.runtime.block_on(
            tokio::time::timeout(timeout, rx.wait_for(|log| log_moved_past(log, offset))),
        );
        drop(context);
        match raced {
            Ok(passed) => Some(passed.expect("the log owns the channel's sender").clone()),
            Err(_) => None,
        }
    }

    /// A log whose store starts empty. Fails with `Io` exactly when the
    /// runtime that drives blocking reads cannot be created.
    pub fn new() -> (r: Result<InMemoryLog, Error>)
        ensures
            r is Err ==> r == Err::<InMemoryLog, Error>(Error::Io),
    {
        match Self::new_runtime() {
            None => Err(Error::Io),
            Some(runtime) => Ok(InMemoryLog { store: Self::new_store(Vec::new()), runtime }),
        }
    }

    /// Append `events` as one atomic batch at the end of the store, wake
    /// every blocked reader, and return the store's new length: the offset
    /// one past the last appended event. Never fails; appending nothing
    /// still returns the current length.
    fn write_events(&self, events: &[Event]) -> (r: Result<u64, Error>)
        ensures
            r matches Ok(n) && n >= events@.len(),
    {
        let n = self.append_to_store(events);
        Ok(n as u64)
    }

    /// Collect the window at `offset` out of the store as just observed.
    fn read_observed(snap: &Vec<Event>, offset: u64, limit: usize) -> (r: Result<
        WithOffset<Vec<LogEvent>>,
        Error,
    >)
        ensures
            read_outcome_ok(offset, limit, r),
            offset > snap@.len() ==> r == Err::<WithOffset<Vec<LogEvent>>, Error>(
                Error::OutOfRange,
            ),
            offset <= snap@.len() ==> (r matches Ok(w) && valid_read(snap@, offset, limit, w)),
    {
        let r = read_slice(snap, offset, limit);
        proof {
            if r is Ok {
                let w = r->Ok_0;
                assert(valid_read(snap@, offset, limit, w));
                assert(exists|log: Seq<Event>| valid_read(log, offset, limit, w));
                assert(w.data@.len() == window_len(
                    snap@.len() as int,
                    offset as int,
                    limit as int,
                ));
                assert(read_outcome_ok(offset, limit, r));
            }
        }
        r
    }

    /// Relies on `std::sync::Arc::clone`: another handle to the same
    /// allocation, so both handles are the same log.
    #[verifier::external_body]
    fn clone_arc(a: &std::sync::Arc<InMemoryLog>) -> (r: std::sync::Arc<InMemoryLog>)
        ensures
            r == *a,
    {
        a.clone()
    }
}

impl Reader for InMemoryLog {
    /// This backend never truncates, so reading may always start at zero.
    open spec fn start_offset(&self) -> Offset {
        0
    }

    fn get_start_offset(&self) -> (r: Result<Offset, Error>)
        ensures
            r == Ok::<Offset, Error>(0u64),
    {
        Ok(0)
    }

    /// Offset-addressed range read with blocking-on-empty semantics.
    ///
    /// Returns up to `limit` events starting at `offset`, in log order, under
    /// the envelope whose `offset` resumes exactly past what was returned:
    /// the result is a correct window, in the sense of
    /// [`crate::event_log::valid_read`], of the store as this call observed
    /// it. A caller caught up to the tail (`offset` equal to the current
    /// length) blocks until the length moves or the timeout elapses,
    /// whichever is first; on timeout it returns an empty result at the same
    /// offset. `None` blocks indefinitely and, for a positive limit, returns
    /// only once an event stands at `offset`. The one error is `OutOfRange`,
    /// for an offset beyond the observed length. The connection is not
    /// consulted by this backend.
    #[verifier::rlimit(50)]
    #[verifier::spinoff_prover]
    fn read(
        &self,
        conn: &mut Connection,
        offset: u64,
        limit: usize,
        timeout: Option<core::time::Duration>,
    ) -> (r: Result<WithOffset<Vec<LogEvent>>, Error>) {
        let snap = self.store_now();
        if offset == snap.len() as u64 {
            // caught up to the tail: wait for a writer instead of polling
            match timeout {
                None => {
                    let mut rx = self.watch_store();
                    let snap2 = self.wait_past(&mut rx, offset);
                    let r = Self::read_observed(&snap2, offset, limit);
                    proof {
                        if r is Ok && limit > 0 {
                            assert(offset < snap2@.len());
                            assert(r->Ok_0.data@.len() > 0);
                        }
                    }
                    r
                },
                Some(d) => {
                    let mut rx = self.watch_store();
                    match self.wait_past_timeout(&mut rx, offset, d) {
                        Some(snap2) => Self::read_observed(&snap2, offset, limit),
                        None => {
                            // the timeout elapsed with no new data: empty, same offset
                            let w = WithOffset { offset, data: Vec::<LogEvent>::new() };
                            proof {
                                assert(w.data@ =~= crate::event_log::read_window(
                                    snap@,
                                    offset as int,
                                    limit as int,
                                ));
                                assert(valid_read(snap@, offset, limit, w));
                                assert(exists|log: Seq<Event>| valid_read(log, offset, limit, w));
                                assert(read_outcome_ok(offset, limit, Ok::<
                                    WithOffset<Vec<LogEvent>>,
                                    Error,
                                >(w)));
                            }
                            Ok(w)
                        },
                    }
                },
            }
        } else {
            let r = Self::read_observed(&snap, offset, limit);
            proof {
                if r is Ok && limit > 0 {
                    assert(offset < snap@.len());
                    assert(r->Ok_0.data@.len() > 0);
                }
            }
            r
        }
    }
}

impl Writer for InMemoryLog {
    /// The in-memory log accepts exactly its own backend's transactions.
    open spec fn accepts(&self, tr: Transaction) -> bool {
        tr is InMemory
    }

    /// The transaction-scoped append: downcasts the type-erased transaction
    /// to this backend's own; a transaction of another backend is refused
    /// with `WrongBackend` and the store is not touched.
    fn write_tr(&self, tr: &mut Transaction, events: &[Event]) -> (r: Result<Offset, Error>) {
        let caster = tr.cast();
        match caster.as_in_memory() {
            Err(e) => Err(e),
            Ok(_t) => self.write_events(events),
        }
    }
}

/// A shared in-memory log: one store, handed back as a writer endpoint and a
/// reader endpoint that are the same log.
pub fn new_in_memory_shared() -> (r: Result<
    (std::sync::Arc<InMemoryLog>, std::sync::Arc<InMemoryLog>),
    Error,
>)
    ensures
        r matches Ok(p) ==> p.0 == p.1,
        r is Err ==> r == Err::<(std::sync::Arc<InMemoryLog>, std::sync::Arc<InMemoryLog>), Error>(
            Error::Io,
        ),
{
    match InMemoryLog::new() {
        Err(e) => Err(e),
        Ok(log) => {
            let writer = std::sync::Arc::new(log);
            let reader = InMemoryLog::clone_arc(&writer);
            Ok((writer, reader))
        },
    }
}

} // verus!
