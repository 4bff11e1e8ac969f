use ancestors::event::{Event, PersonEvent, PersonId};
use ancestors::event_log::{Reader, Writer};
use ancestors::in_memory::new_in_memory_shared;
use ancestors::persistence::{
    Caster, Connection, Error, InMemoryPersistence, MockConnection, MockTransaction, Transaction,
};

fn person(bits: u128, name: &str) -> Event {
    Event::Person(PersonEvent::PersonAdded { id: PersonId { bits }, name: name.to_string() })
}

#[test]
fn backend_mismatch_rejected() {
    let (writer, reader) = new_in_memory_shared().unwrap();
    let mut conn = InMemoryPersistence::new().get_connection().unwrap();
    writer.write(&mut conn, &[person(1, "kept")]).unwrap();

    // a transaction of another backend is refused and the log is untouched
    let mut foreign = Transaction::Mock(MockTransaction {});
    let err = writer.write_tr(&mut foreign, &[person(2, "refused")]);
    assert_eq!(err.unwrap_err(), Error::WrongBackend);

    let got = reader.read(&mut conn, 0, 10, None).unwrap();
    assert_eq!(got.offset, 1);
    assert_eq!(got.data.len(), 1);
    assert_eq!(got.data[0].details, person(1, "kept"));
}

#[test]
fn write_on_mock_connection_rejected() {
    let (writer, reader) = new_in_memory_shared().unwrap();
    let mut foreign = Connection::Mock(MockConnection {});
    let err = writer.write(&mut foreign, &[person(1, "never lands")]);
    assert_eq!(err.unwrap_err(), Error::WrongBackend);

    let mut conn = InMemoryPersistence::new().get_connection().unwrap();
    let got = reader.read(&mut conn, 0, 10, Some(std::time::Duration::from_millis(0))).unwrap();
    assert_eq!(got.offset, 0);
    assert!(got.data.is_empty());
}

#[test]
fn caster_downcasts_own_backend_only() {
    let own = Transaction::InMemory(ancestors::persistence::InMemoryTransaction {});
    assert!(Caster::new(&own).as_in_memory().is_ok());

    let foreign = Transaction::Mock(MockTransaction {});
    let err = Caster::new(&foreign).as_in_memory();
    assert_eq!(err.unwrap_err(), Error::WrongBackend);

    assert_eq!(foreign.cast().as_in_memory().unwrap_err(), Error::WrongBackend);
}

#[test]
fn transactions_commit_and_roll_back() {
    let mut conn = InMemoryPersistence::new().get_connection().unwrap();
    let tr = conn.start_transaction().unwrap();
    assert!(matches!(tr, Transaction::InMemory(_)));
    assert!(tr.commit().is_ok());

    let tr = conn.start_transaction().unwrap();
    assert!(tr.rollback().is_ok());
}

#[test]
fn error_messages_describe_the_variant() {
    assert_eq!(Error::WrongBackend.message(), "wrong backend");
    assert_eq!(Error::OutOfRange.message(), "offset out of range");
    assert_eq!(Error::Overflow.message(), "log length overflows the offset range");
    assert_eq!(Error::Io.message(), "backend io failure");
}
