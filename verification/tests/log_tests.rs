use ancestors::event::{Event, PersonEvent, PersonId};
use ancestors::event_log::{Reader, WithOffset, Writer};
use ancestors::in_memory::new_in_memory_shared;
use ancestors::persistence::{Connection, Error, InMemoryPersistence};

fn person(bits: u128, name: &str) -> Event {
    Event::Person(PersonEvent::PersonAdded { id: PersonId { bits }, name: name.to_string() })
}

fn connection() -> Connection {
    InMemoryPersistence::new().get_connection().unwrap()
}

#[test]
fn three_records() {
    let (writer, reader) = new_in_memory_shared().unwrap();
    let mut conn = connection();

    let off = writer.write(&mut conn, &[person(1, "A added")]).unwrap();
    assert_eq!(off, 1);
    let off = writer.write(&mut conn, &[person(2, "B added"), person(3, "C added")]).unwrap();
    assert_eq!(off, 3);

    let WithOffset { offset, data } = reader.read(&mut conn, 0, 10, None).unwrap();
    assert_eq!(offset, 3);
    assert_eq!(data.len(), 3);
    assert_eq!(data[0].offset, 0);
    assert_eq!(data[0].details, person(1, "A added"));
    assert_eq!(data[1].offset, 1);
    assert_eq!(data[1].details, person(2, "B added"));
    assert_eq!(data[2].offset, 2);
    assert_eq!(data[2].details, person(3, "C added"));

    let WithOffset { offset, data } = reader.read_one(&mut conn, 3).unwrap();
    assert_eq!(offset, 3);
    assert!(data.is_none());
}

#[test]
fn offsets_monotonic_and_dense() {
    let (writer, _reader) = new_in_memory_shared().unwrap();
    let mut conn = connection();

    let mut running: u64 = 0;
    let mut last: u64 = 0;
    for batch_len in [1usize, 3, 2, 1] {
        let batch: Vec<Event> =
            (0..batch_len).map(|i| person(i as u128, "someone")).collect();
        let off = writer.write(&mut conn, &batch).unwrap();
        running += batch_len as u64;
        assert_eq!(off, running);
        assert!(off > last || batch_len == 0);
        last = off;
    }
}

#[test]
fn empty_write_keeps_length() {
    let (writer, _reader) = new_in_memory_shared().unwrap();
    let mut conn = connection();
    assert_eq!(writer.write(&mut conn, &[person(1, "a")]).unwrap(), 1);
    assert_eq!(writer.write(&mut conn, &[]).unwrap(), 1);
}

#[test]
fn order_preserved() {
    let (writer, reader) = new_in_memory_shared().unwrap();
    let mut conn = connection();

    let names = ["e0", "e1", "e2", "e3", "e4"];
    writer.write(&mut conn, &[person(0, names[0]), person(1, names[1])]).unwrap();
    writer
        .write(&mut conn, &[person(2, names[2]), person(3, names[3]), person(4, names[4])])
        .unwrap();

    let WithOffset { offset, data } = reader.read(&mut conn, 0, 5, None).unwrap();
    assert_eq!(offset, 5);
    assert_eq!(data.len(), 5);
    for (k, le) in data.iter().enumerate() {
        assert_eq!(le.offset, k as u64);
        assert_eq!(le.details, person(k as u128, names[k]));
    }
}

#[test]
fn resumed_read_continues_where_left() {
    let (writer, reader) = new_in_memory_shared().unwrap();
    let mut conn = connection();
    writer
        .write(&mut conn, &[person(0, "x"), person(1, "y"), person(2, "z")])
        .unwrap();

    let first = reader.read(&mut conn, 0, 2, None).unwrap();
    assert_eq!(first.offset, 2);
    assert_eq!(first.data.len(), 2);
    let second = reader.read(&mut conn, first.offset, 2, Some(std::time::Duration::from_millis(0))).unwrap();
    assert_eq!(second.offset, 3);
    assert_eq!(second.data.len(), 1);
    assert_eq!(second.data[0].offset, 2);
    assert_eq!(second.data[0].details, person(2, "z"));
}

#[test]
fn out_of_range_read_rejected() {
    let (writer, reader) = new_in_memory_shared().unwrap();
    let mut conn = connection();
    writer.write(&mut conn, &[person(1, "only")]).unwrap();

    let err = reader.read(&mut conn, 2, 10, Some(std::time::Duration::from_millis(0)));
    assert_eq!(err.unwrap_err(), Error::OutOfRange);

    // at the tail with a zero timeout: empty, not an error, same offset
    let WithOffset { offset, data } = reader
        .read(&mut conn, 1, 10, Some(std::time::Duration::from_millis(0)))
        .unwrap();
    assert_eq!(offset, 1);
    assert!(data.is_empty());
}

#[test]
fn timeout_returns_empty_not_error() {
    let (_writer, reader) = new_in_memory_shared().unwrap();
    let mut conn = connection();
    let start = std::time::Instant::now();
    let WithOffset { offset, data } = reader
        .read(&mut conn, 0, 10, Some(std::time::Duration::from_millis(80)))
        .unwrap();
    assert!(start.elapsed() >= std::time::Duration::from_millis(60));
    assert_eq!(offset, 0);
    assert!(data.is_empty());
}

#[test]
fn tail_block_wakes_on_write() {
    let (writer, reader) = new_in_memory_shared().unwrap();
    let rt = tokio::runtime::Runtime::new().unwrap();
    let background_writer = writer.clone();
    let task = rt.spawn(async move {
        tokio::time::sleep(std::time::Duration::from_millis(100)).await;
        let mut conn = InMemoryPersistence::new().get_connection().unwrap();
        background_writer.write(&mut conn, &[person(7, "late arrival")]).unwrap();
    });

    // blocked at the tail of an empty log, with a long timeout
    let mut conn = connection();
    let WithOffset { offset, data } = reader
        .read(&mut conn, 0, 10, Some(std::time::Duration::from_secs(10)))
        .unwrap();
    assert_eq!(offset, 1);
    assert_eq!(data.len(), 1);
    assert_eq!(data[0].offset, 0);
    assert_eq!(data[0].details, person(7, "late arrival"));
    rt.block_on(task).unwrap();
}

#[test]
fn tail_block_unbounded_wakes_on_write() {
    let (writer, reader) = new_in_memory_shared().unwrap();
    let rt = tokio::runtime::Runtime::new().unwrap();
    let background_writer = writer.clone();
    let task = rt.spawn(async move {
        tokio::time::sleep(std::time::Duration::from_millis(100)).await;
        let mut conn = InMemoryPersistence::new().get_connection().unwrap();
        background_writer.write(&mut conn, &[person(9, "wakes the reader")]).unwrap();
    });

    let mut conn = connection();
    let WithOffset { offset, data } = reader.read(&mut conn, 0, 10, None).unwrap();
    assert_eq!(offset, 1);
    assert_eq!(data[0].details, person(9, "wakes the reader"));
    rt.block_on(task).unwrap();
}

#[test]
fn read_one_returns_next_event() {
    let (writer, reader) = new_in_memory_shared().unwrap();
    let mut conn = connection();
    writer.write(&mut conn, &[person(1, "first"), person(2, "second")]).unwrap();

    let WithOffset { offset, data } = reader.read_one(&mut conn, 0).unwrap();
    assert_eq!(offset, 1);
    let le = data.unwrap();
    assert_eq!(le.offset, 0);
    assert_eq!(le.details, person(1, "first"));

    let err = reader.read_one(&mut conn, 5);
    assert_eq!(err.unwrap_err(), Error::OutOfRange);
}

#[test]
fn get_start_offset_is_zero() {
    let (_writer, reader) = new_in_memory_shared().unwrap();
    assert_eq!(reader.get_start_offset().unwrap(), 0);
}

#[test]
fn shared_endpoints_see_one_log() {
    let (writer, reader) = new_in_memory_shared().unwrap();
    let mut conn = connection();
    writer.write(&mut conn, &[person(4, "through the writer")]).unwrap();
    let got = reader.read(&mut conn, 0, 1, None).unwrap();
    assert_eq!(got.data[0].details, person(4, "through the writer"));
}

#[test]
fn empty_write_does_not_satisfy_blocked_reader() {
    let (writer, reader) = new_in_memory_shared().unwrap();
    let rt = tokio::runtime::Runtime::new().unwrap();
    let background_writer = writer.clone();
    let task = rt.spawn(async move {
        let mut conn = InMemoryPersistence::new().get_connection().unwrap();
        // a notification with no new data must not end the wait early
        tokio::time::sleep(std::time::Duration::from_millis(50)).await;
        background_writer.write(&mut conn, &[]).unwrap();
        tokio::time::sleep(std::time::Duration::from_millis(100)).await;
        background_writer.write(&mut conn, &[person(11, "real data")]).unwrap();
    });

    let mut conn = connection();
    let WithOffset { offset, data } = reader.read(&mut conn, 0, 10, None).unwrap();
    assert_eq!(offset, 1);
    assert_eq!(data.len(), 1);
    assert_eq!(data[0].details, person(11, "real data"));
    rt.block_on(task).unwrap();
}

#[test]
fn empty_write_does_not_end_bounded_wait_early() {
    let (writer, reader) = new_in_memory_shared().unwrap();
    let rt = tokio::runtime::Runtime::new().unwrap();
    let background_writer = writer.clone();
    let task = rt.spawn(async move {
        let mut conn = InMemoryPersistence::new().get_connection().unwrap();
        tokio::time::sleep(std::time::Duration::from_millis(50)).await;
        background_writer.write(&mut conn, &[]).unwrap();
        tokio::time::sleep(std::time::Duration::from_millis(100)).await;
        background_writer.write(&mut conn, &[person(12, "after the lull")]).unwrap();
    });

    let mut conn = connection();
    let WithOffset { offset, data } = reader
        .read(&mut conn, 0, 10, Some(std::time::Duration::from_secs(10)))
        .unwrap();
    assert_eq!(offset, 1);
    assert_eq!(data.len(), 1);
    assert_eq!(data[0].details, person(12, "after the lull"));
    rt.block_on(task).unwrap();
}
