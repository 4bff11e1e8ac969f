//! The transactional persistence boundary.
//!
//! Callers hold a type-erased [`Connection`] or [`Transaction`] and never name
//! a concrete backend; a concrete log implementation asserts, at the point of
//! use, that it was handed *its* backend's object. Erasure is a tagged union
//! over the closed set of backends, and the downcast is a checked match that
//! fails loudly with [`Error::WrongBackend`] on a mismatch.

use vstd::prelude::*;

verus! {

/// Everything that can go wrong in the log and its persistence boundary.
#[derive(Debug, Clone, Copy, PartialEq, Eq, Structural)]
pub enum Error {
    /// A transaction or connection was handed to a backend it did not come from.
    WrongBackend,
    /// A read offset lies beyond the log's current length.
    OutOfRange,
    /// The log's length cannot be represented as an offset. Part of the
    /// boundary's error surface for durable backends; the in-memory backend
    /// never produces it, since its store's length always fits an offset.
    Overflow,
    /// The backend could not set up its execution resources.
    Io,
}

impl Error {
    /// A short description of the error, for callers that display it.
    pub fn message(&self) -> String {
        match self {
            Error::WrongBackend => "wrong backend".to_owned(),
            Error::OutOfRange => "offset out of range".to_owned(),
            Error::Overflow => "log length overflows the offset range".to_owned(),
            Error::Io => "backend io failure".to_owned(),
        }
    }
}

/// The in-memory backend's source of connections; it keeps no state beyond
/// being a handle, so connections are free to hand out.
#[derive(Debug)]
pub struct InMemoryPersistence {}

/// The in-memory backend's connection: a scoped handle, stateless for this
/// backend, and the only way to start one of its transactions.
#[derive(Debug)]
pub struct InMemoryConnection {}

/// The in-memory backend's transaction marker. It carries no resources; it
/// exists so the in-memory log can refuse transactions of other backends.
#[derive(Debug)]
pub struct InMemoryTransaction {}

/// A stand-in second backend's transaction marker, so the mismatch path of
/// the downcast can be exercised without a second real backend.
#[derive(Debug)]
pub struct MockTransaction {}

/// A stand-in second backend's connection.
#[derive(Debug)]
pub struct MockConnection {}

/// A type-erased connection: the tagged union over the concrete connection
/// types of the known backends.
pub enum Connection {
    InMemory(InMemoryConnection),
    Mock(MockConnection),
}

/// A type-erased transaction: the tagged union over the concrete transaction
/// types of the known backends. `commit` and `rollback` are terminal; each
/// consumes the transaction, so neither can follow the other.
pub enum Transaction {
    InMemory(InMemoryTransaction),
    Mock(MockTransaction),
}

/// An interface of any persistence: anything a repository implementation
/// could use to store data, and the source of its connections.
pub trait Persistence {
    /// The connection this backend hands out.
    spec fn connection_kind(&self) -> Connection;

    /// Get a connection to this persistence.
    fn get_connection(&self) -> (r: Result<Connection, Error>)
        ensures
            r matches Ok(c) ==> c == self.connection_kind(),
    ;
}

impl InMemoryPersistence {
    pub fn new() -> (p: InMemoryPersistence)
        ensures
            p == (InMemoryPersistence {}),
    {
        InMemoryPersistence {}
    }

    /// Get a connection to this persistence; for the in-memory backend this
    /// never fails.
    pub fn get_connection(&self) -> (r: Result<Connection, Error>)
        ensures
            r == Ok::<Connection, Error>(Connection::InMemory(InMemoryConnection {})),
    {
        Ok(Connection::InMemory(InMemoryConnection {}))
    }
}

impl Persistence for InMemoryPersistence {
    /// The in-memory backend hands out its own stateless connection.
    open spec fn connection_kind(&self) -> Connection {
        Connection::InMemory(InMemoryConnection {})
    }

    fn get_connection(&self) -> (r: Result<Connection, Error>) {
        InMemoryPersistence::get_connection(self)
    }
}

/// The transaction that starting a unit of work on `conn` yields: one of the
/// same backend as the connection.
pub open spec fn transaction_for(conn: Connection) -> Transaction {
    match conn {
        Connection::InMemory(_) => Transaction::InMemory(InMemoryTransaction {}),
        Connection::Mock(_) => Transaction::Mock(MockTransaction {}),
    }
}

impl Connection {
    /// Begin a unit of work scoped to this connection. The transaction that
    /// comes back belongs to the same backend as the connection.
    pub fn start_transaction(&mut self) -> (r: Result<Transaction, Error>)
        ensures
            *final(self) == *old(self),
            r == Ok::<Transaction, Error>(transaction_for(*old(self))),
    {
        match self {
            Connection::InMemory(_) => Ok(Transaction::InMemory(InMemoryTransaction {})),
            Connection::Mock(_) => Ok(Transaction::Mock(MockTransaction {})),
        }
    }
}

impl Transaction {
    /// Make the unit of work durable. The in-memory backend applies appends
    /// immediately under its lock, so committing has nothing left to do; a
    /// transaction dropped without commit or rollback behaves like a rollback.
    pub fn commit(self) -> (r: Result<(), Error>)
        ensures
            r == Ok::<(), Error>(()),
    {
        Ok(())
    }

    /// Abandon the unit of work.
    pub fn rollback(self) -> (r: Result<(), Error>)
        ensures
            r == Ok::<(), Error>(()),
    {
        Ok(())
    }

    /// Borrow this transaction for a checked downcast.
    pub fn cast(&self) -> (c: Caster<'_>)
        ensures
            c.value == self,
    {
        Caster { value: self }
    }
}

/// Dynamic cast helper.
///
/// A concrete backend, handed a type-erased [`Transaction`], uses this to
/// recover the one concrete transaction shape it accepts. The cast succeeds
/// exactly when the transaction came from that backend and fails with
/// [`Error::WrongBackend`] otherwise; a backend must never proceed with a
/// mismatched transaction.
pub struct Caster<'a> {
    pub value: &'a Transaction,
}

impl<'a> Caster<'a> {
    pub fn new(value: &'a Transaction) -> (c: Self)
        ensures
            c.value == value,
    {
        Caster { value }
    }

    /// The checked downcast to the in-memory backend's transaction: succeeds
    /// if and only if the erased transaction is an in-memory one.
    pub fn as_in_memory(&self) -> (r: Result<&'a InMemoryTransaction, Error>)
        ensures
            r is Ok <==> self.value is InMemory,
            r is Err ==> r == Err::<&'a InMemoryTransaction, Error>(Error::WrongBackend),
    {
        match self.value {
            Transaction::InMemory(t) => Ok(t),
            Transaction::Mock(_) => Err(Error::WrongBackend),
        }
    }
}

} // verus!
