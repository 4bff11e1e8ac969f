use ancestors::event::{Event, PersonEvent};
use ancestors::event_log::Reader;
use ancestors::in_memory::new_in_memory_shared;
use ancestors::persistence::InMemoryPersistence;
use ancestors::services::{should_continue, ServiceControl};
use ancestors::tui::{parse_command, AddPersonRequest, Command, Tui, TuiError};

#[test]
fn stop_switch_starts_unset_and_latches() {
    let control = ServiceControl::new();
    assert!(!control.stop_requested());
    let sibling = control.clone();
    sibling.send_stop_to_all();
    assert!(control.stop_requested());
}

#[test]
fn continue_only_while_nothing_stopped() {
    assert!(should_continue(false, false));
    assert!(!should_continue(true, false));
    assert!(!should_continue(false, true));
    assert!(!should_continue(true, true));
}

#[test]
fn add_is_the_only_known_command() {
    assert_eq!(parse_command(&"add".to_string()), Command::AddPerson);
    assert_eq!(parse_command(&"list".to_string()), Command::Unknown);
    assert_eq!(parse_command(&"".to_string()), Command::Unknown);
    assert_eq!(parse_command(&"add ".to_string()), Command::Unknown);
}

#[test]
fn add_person_lands_in_the_log() {
    let (writer, reader) = new_in_memory_shared().unwrap();
    let tui = Tui::new(InMemoryPersistence::new(), writer);

    let id = tui.add_person(AddPersonRequest { name: "Ada".to_string() }).unwrap();

    let mut conn = InMemoryPersistence::new().get_connection().unwrap();
    let got = reader.read(&mut conn, 0, 10, None).unwrap();
    assert_eq!(got.offset, 1);
    assert_eq!(got.data.len(), 1);
    let Event::Person(PersonEvent::PersonAdded { id: stored, name }) = &got.data[0].details;
    assert_eq!(*stored, id);
    assert_eq!(name, "Ada");
}

#[test]
fn fresh_identifiers_differ() {
    let (writer, _reader) = new_in_memory_shared().unwrap();
    let tui = Tui::new(InMemoryPersistence::new(), writer);
    let a = tui.add_person(AddPersonRequest { name: "a".to_string() }).unwrap();
    let b = tui.add_person(AddPersonRequest { name: "b".to_string() }).unwrap();
    assert_ne!(a, b);
}

#[test]
fn tui_error_message() {
    assert_eq!(TuiError::Io.message(), "io error");
}
