//! The append-only event log's data model and its mathematics.
//!
//! The log is a dense, zero-based sequence of events; an [`Offset`] is a
//! position in it, assigned by the log at append time. This module pins down,
//! as spec functions over `Seq<Event>`, what a range read returns and what
//! offset an append hands back, and proves the ordering laws the log keeps.
//! The concurrent in-memory backend in [`crate::in_memory`] is verified
//! against exactly these functions.

use vstd::prelude::*;

use crate::event::Event;
use crate::persistence::{transaction_for, Connection, Error, Transaction};

verus! {

/// Relies on `core::time::Duration::from_millis`.
pub assume_specification[ core::time::Duration::from_millis ](millis: u64) -> (d:
    core::time::Duration);

/// A zero-based, dense, monotonically increasing position in the log.
pub type Offset = u64;

/// An event annotated with the absolute position it occupies in the log.
/// Produced only by reads.
#[derive(Debug, PartialEq, Eq)]
pub struct LogEvent {
    pub offset: Offset,
    pub details: Event,
}

impl Clone for LogEvent {
    fn clone(&self) -> (r: Self)
        ensures
            r == *self,
    {
        LogEvent { offset: self.offset, details: self.details.clone() }
    }
}

/// A generic envelope whose `offset` is the next offset to resume reading
/// from: the exclusive upper bound of what was returned.
#[derive(Debug, Clone, PartialEq, Eq)]
pub struct WithOffset<T> {
    pub offset: Offset,
    pub data: T,
}

/// How many events a read of at most `limit` events at `offset` returns from
/// a log of length `log_len`, when `offset <= log_len`.
pub open spec fn window_len(log_len: int, offset: int, limit: int) -> int {
    if log_len - offset <= limit {
        log_len - offset
    } else {
        limit
    }
}

/// The exact sequence a read of at most `limit` events at `offset` returns
/// from a log holding `log`, when `offset <= log.len()`: the events at
/// offsets `offset ..` in log order, each annotated with its offset.
pub open spec fn read_window(log: Seq<Event>, offset: int, limit: int) -> Seq<LogEvent> {
    Seq::new(
        window_len(log.len() as int, offset, limit) as nat,
        |i: int| LogEvent { offset: (offset + i) as u64, details: log[offset + i] },
    )
}

/// What a successful range read must look like: `w` is exactly the window of
/// `log` at `offset`, and the envelope's offset resumes right past it.
pub open spec fn valid_read(log: Seq<Event>, offset: u64, limit: usize, w: WithOffset<
    Vec<LogEvent>,
>) -> bool {
    &&& offset <= log.len()
    &&& w.data@ == read_window(log, offset as int, limit as int)
    &&& w.offset == offset + window_len(log.len() as int, offset as int, limit as int)
}

/// Read up to `limit` events from `log`, starting at `offset`, exactly as the
/// spec functions above describe: the one error is `OutOfRange`, returned if
/// and only if `offset` lies beyond the log's length.
pub fn read_slice(log: &Vec<Event>, offset: u64, limit: usize) -> (r: Result<
    WithOffset<Vec<LogEvent>>,
    Error,
>)
    ensures
        offset > log@.len() ==> r == Err::<WithOffset<Vec<LogEvent>>, Error>(Error::OutOfRange),
        offset <= log@.len() ==> (r matches Ok(w) && valid_read(log@, offset, limit, w)),
{
    if offset > log.len() as u64 {
        return Err(Error::OutOfRange);
    }
    let start: usize = offset as usize;
    let avail: usize = log.len() - start;
    let count: usize = if limit < avail {
        limit
    } else {
        avail
    };
    let mut data: Vec<LogEvent> = Vec::new();
    let mut i: usize = 0;
    while i < count
        invariant
            offset <= log@.len(),
            log@.len() <= usize::MAX,
            start == offset,
            start + count <= log@.len(),
            i <= count,
            count == window_len(log@.len() as int, offset as int, limit as int),
            data@ == read_window(log@, offset as int, limit as int).take(i as int),
        decreases count - i,
    {
        let details = (&log[start + i]).clone();
        let le = LogEvent { offset: offset + i as u64, details };
        data.push(le);
        proof {
            assert(data@ == read_window(log@, offset as int, limit as int).take(i + 1 as int));
        }
        i = i + 1;
    }
    proof {
        let wl = window_len(log@.len() as int, offset as int, limit as int);
        assert(read_window(log@, offset as int, limit as int).take(wl) == read_window(
            log@,
            offset as int,
            limit as int,
        ));
    }
    let next = offset + i as u64;
    Ok(WithOffset { offset: next, data })
}

/// The offset an append of `batch` to a log holding `log` returns: the new
/// length, one past the last appended event.
pub open spec fn append_offset(log: Seq<Event>, batch: Seq<Event>) -> int {
    log.len() + batch.len() as int
}

/// Monotonic offsets: over any two consecutive appends, the returned offsets
/// never decrease, they grow by exactly the later batch's size, and each
/// equals the running count of appended events; with a non-empty second batch
/// the offsets are strictly increasing.
pub proof fn lemma_offsets_monotonic(log: Seq<Event>, batch1: Seq<Event>, batch2: Seq<Event>)
    ensures
        append_offset(log, batch1) == log.len() + batch1.len(),
        append_offset(log + batch1, batch2) == log.len() + batch1.len() + batch2.len(),
        append_offset(log + batch1, batch2) >= append_offset(log, batch1),
        batch2.len() > 0 ==> append_offset(log + batch1, batch2) > append_offset(log, batch1),
{
}

/// The log contents after a sequence of appends, each batch landing whole at
/// the end, in order.
pub open spec fn log_after(batches: Seq<Seq<Event>>) -> Seq<Event>
    decreases batches.len(),
{
    if batches.len() == 0 {
        Seq::empty()
    } else {
        log_after(batches.drop_last()) + batches.last()
    }
}

/// The running count of events over a sequence of batches.
pub open spec fn batch_total(batches: Seq<Seq<Event>>) -> int
    decreases batches.len(),
{
    if batches.len() == 0 {
        0
    } else {
        batch_total(batches.drop_last()) + batches.last().len()
    }
}

/// The offset the `k`-th write of a sequence of writes returns: the log's
/// length once the batches up to and including `k` have landed.
pub open spec fn offset_returned(batches: Seq<Seq<Event>>, k: int) -> int {
    log_after(batches.take(k + 1)).len() as int
}

/// A log holds as many events as its batches brought.
pub proof fn lemma_log_length_is_total(batches: Seq<Seq<Event>>)
    ensures
        log_after(batches).len() == batch_total(batches),
    decreases batches.len(),
{
    if batches.len() > 0 {
        lemma_log_length_is_total(batches.drop_last());
    }
}

/// Monotonic offsets, over a whole sequence of writes: every offset returned
/// equals the running count of appended events, so consecutive offsets never
/// decrease, and they strictly increase over every non-empty batch.
pub proof fn lemma_offsets_are_running_counts(batches: Seq<Seq<Event>>, k: int)
    requires
        0 <= k < batches.len(),
    ensures
        offset_returned(batches, k) == batch_total(batches.take(k + 1)),
        0 < k ==> offset_returned(batches, k) == offset_returned(batches, k - 1)
            + batches[k].len(),
        0 < k ==> offset_returned(batches, k - 1) <= offset_returned(batches, k),
        0 < k && batches[k].len() > 0 ==> offset_returned(batches, k - 1) < offset_returned(
            batches,
            k,
        ),
{
    lemma_log_length_is_total(batches.take(k + 1));
    if 0 < k {
        lemma_log_length_is_total(batches.take(k));
        assert(batches.take(k + 1).drop_last() =~= batches.take(k));
        assert(batches.take(k + 1).last() == batches[k]);
    }
}

/// Order preservation: reading the whole log from offset `0` returns exactly
/// the appended events, in order, the event once at offset `k` carrying
/// offset `k`.
pub proof fn lemma_order_preserved(log: Seq<Event>, limit: usize)
    requires
        log.len() <= limit,
    ensures
        read_window(log, 0, limit as int).len() == log.len(),
        forall|k: int|
            0 <= k < log.len() ==> read_window(log, 0, limit as int)[k] == (LogEvent {
                offset: k as u64,
                details: log[k],
            }),
{
}

/// A reader that has observed offset `k` has implicitly observed everything
/// before it: a window starting at `0` contains, at each position below `k`,
/// the same entry every shorter read already returned.
pub proof fn lemma_reads_agree(log: Seq<Event>, offset: int, limit1: int, limit2: int, k: int)
    requires
        0 <= offset <= log.len(),
        0 <= k < window_len(log.len() as int, offset, limit1),
        k < window_len(log.len() as int, offset, limit2),
    ensures
        read_window(log, offset, limit1)[k] == read_window(log, offset, limit2)[k],
{
}

/// Everything `Reader::read` promises of its result: the one error is
/// `OutOfRange`, and a success is a correct window, at `offset` and of at
/// most `limit` events, of a log state the call observed, the envelope
/// resuming past it.
pub open spec fn read_outcome_ok(offset: u64, limit: usize, r: Result<
    WithOffset<Vec<LogEvent>>,
    Error,
>) -> bool {
    match r {
        Ok(w) => {
            &&& exists|log: Seq<Event>| valid_read(log, offset, limit, w)
            &&& w.data@.len() <= limit
            &&& w.offset == offset + w.data@.len()
        },
        Err(e) => e == Error::OutOfRange,
    }
}

/// What a successful `read_one` must look like against a log state `log`:
/// the event at `offset` when the log holds one, nothing when the caller was
/// at the tail, the envelope resuming past what was returned.
pub open spec fn valid_read_one(log: Seq<Event>, offset: u64, w: WithOffset<
    Option<LogEvent>,
>) -> bool {
    &&& offset <= log.len()
    &&& match w.data {
        Option::None => w.offset == offset,
        Option::Some(le) => {
            &&& offset < log.len()
            &&& le == (LogEvent { offset, details: log[offset as int] })
            &&& w.offset == offset + 1
        },
    }
}

/// Everything `Reader::read_one` promises of its result, over
/// `valid_read_one`.
pub open spec fn read_one_outcome_ok(offset: u64, r: Result<
    WithOffset<Option<LogEvent>>,
    Error,
>) -> bool {
    match r {
        Ok(w) => exists|log: Seq<Event>| valid_read_one(log, offset, w),
        Err(e) => e == Error::OutOfRange,
    }
}

/// The reading side of an event log backend.
pub trait Reader {
    /// The lowest offset this backend will serve: a backend that truncates
    /// or archives a prefix starts higher than zero.
    spec fn start_offset(&self) -> Offset;

    /// The lowest valid read offset of this backend.
    fn get_start_offset(&self) -> (r: Result<Offset, Error>)
        ensures
            r matches Ok(o) ==> o == self.start_offset(),
    ;

    /// Offset-addressed range read with blocking-on-empty semantics: up to
    /// `limit` events from `offset` on, in log order; a caller caught up to
    /// the tail blocks until new data arrives or the timeout elapses,
    /// whichever is first, and a timeout yields an empty result at the same
    /// offset, not an error. `None` blocks indefinitely: with a positive
    /// limit it returns only with data in hand. `Some(0)` is a non-blocking
    /// poll. Reading at the backend's start offset always succeeds.
    fn read(
        &self,
        conn: &mut Connection,
        offset: Offset,
        limit: usize,
        timeout: Option<core::time::Duration>,
    ) -> (r: Result<WithOffset<Vec<LogEvent>>, Error>)
        ensures
            *final(conn) == *old(conn),
            read_outcome_ok(offset, limit, r),
            offset == self.start_offset() ==> r is Ok,
            (timeout is None && limit > 0) ==> (r matches Ok(w) ==> w.data@.len() > 0),
    ;

    /// The never-blocking single-event read: `read` with a limit of one and
    /// a zero timeout, the single event unwrapped from the returned window.
    fn read_one(&self, conn: &mut Connection, offset: Offset) -> (r: Result<
        WithOffset<Option<LogEvent>>,
        Error,
    >)
        ensures
            *final(conn) == *old(conn),
            read_one_outcome_ok(offset, r),
            offset == self.start_offset() ==> r is Ok,
    {
        match self.read(conn, offset, 1, Some(core::time::Duration::from_millis(0))) {
            Err(e) => Err(e),
            Ok(w) => {
                let ghost w0 = w;
                let ghost log0 = choose|log: Seq<Event>| valid_read(log, offset, 1, w0);
                let WithOffset { offset: next, data } = w;
                let mut data = data;
                let one = data.pop();
                match one {
                    None => {
                        let res: Result<WithOffset<Option<LogEvent>>, Error> = Ok(
                            WithOffset { offset: next, data: None },
                        );
                        proof {
                            assert(valid_read(log0, offset, 1, w0));
                            assert(valid_read_one(log0, offset, res->Ok_0));
                            assert(exists|log: Seq<Event>| valid_read_one(log, offset, res->Ok_0));
                        }
                        res
                    },
                    Some(le) => {
                        let res: Result<WithOffset<Option<LogEvent>>, Error> = Ok(
                            WithOffset { offset: next, data: Some(le) },
                        );
                        proof {
                            assert(valid_read(log0, offset, 1, w0));
                            assert(read_window(log0, offset as int, 1)[0] == (LogEvent {
                                offset,
                                details: log0[offset as int],
                            }));
                            assert(valid_read_one(log0, offset, res->Ok_0));
                            assert(exists|log: Seq<Event>| valid_read_one(log, offset, res->Ok_0));
                        }
                        res
                    },
                }
            },
        }
    }
}

/// The writing side of an event log backend: transactional multi-event
/// append.
pub trait Writer {
    /// Which type-erased transactions this writer's backend accepts: exactly
    /// those that came from the same backend.
    spec fn accepts(&self, tr: Transaction) -> bool;

    /// The transaction-scoped append, for callers that already hold a
    /// transaction. A transaction of another backend is refused with
    /// `WrongBackend` and the log is not touched; on the backend's own
    /// transaction the batch lands whole, contiguously at the end of the
    /// log, and the returned offset is the log's new length, one past the
    /// last appended event.
    fn write_tr(&self, tr: &mut Transaction, events: &[Event]) -> (r: Result<Offset, Error>)
        ensures
            *final(tr) == *old(tr),
            !self.accepts(*old(tr)) ==> r == Err::<Offset, Error>(Error::WrongBackend),
            self.accepts(*old(tr)) ==> (r matches Ok(n) && n >= events@.len()),
    ;

    /// The default append entry point: opens an implicit transaction on the
    /// supplied connection, delegates to `write_tr`, and commits.
    fn write(&self, conn: &mut Connection, events: &[Event]) -> (r: Result<Offset, Error>)
        ensures
            *final(conn) == *old(conn),
            !self.accepts(transaction_for(*old(conn))) ==> r == Err::<Offset, Error>(
                Error::WrongBackend,
            ),
            self.accepts(transaction_for(*old(conn))) ==> (r matches Ok(n) && n
                >= events@.len()),
    {
        let mut tr = match conn.start_transaction() {
            Ok(t) => t,
            Err(e) => {
                return Err(e);
            },
        };
        match self.write_tr(&mut tr, events) {
            Ok(n) => match tr.commit() {
                Ok(_) => Ok(n),
                Err(e) => Err(e),
            },
            Err(e) => {
                let _ = tr.rollback();
                Err(e)
            },
        }
    }
}

} // verus!
