//! The decisions of the interactive console service.
//!
//! The console itself (prompting, reading lines, printing) is I/O and lives
//! outside the library; what stands here is what the console decides and
//! does with the log: turning a line of input into a command, and recording
//! a person as an event with a fresh identifier.

use vstd::prelude::*;
use vstd::string::StringExecFns;

use crate::event::{new_person_id, person_added, PersonId};
use crate::event_log::Writer;
use crate::in_memory::InMemoryLog;
use crate::persistence::InMemoryPersistence;

verus! {

/// Errors of the console service.
#[derive(Debug, Clone, Copy, PartialEq, Eq, Structural)]
pub enum TuiError {
    /// Reading from or writing to the console failed.
    Io,
}

impl TuiError {
    /// A short description of the error, for callers that display it.
    pub fn message(&self) -> String {
        match self {
            TuiError::Io => "io error".to_owned(),
        }
    }
}

/// A console request to record a new person.
#[derive(Debug)]
pub struct AddPersonRequest {
    pub name: String,
}

/// What the console decided one line of user input asks for.
#[derive(Debug, Clone, Copy, PartialEq, Eq, Structural)]
pub enum Command {
    /// Prompt for a name and record a person.
    AddPerson,
    /// Anything else.
    Unknown,
}

/// Decide what one line of user input asks for: exactly the line `add` is
/// the add-person command.
pub fn parse_command(input: &String) -> (c: Command)
    ensures
        (c == Command::AddPerson) <==> input@ == "add"@,
{
    let add = String::from_str("add");
    if input.eq(&add) {
        Command::AddPerson
    } else {
        Command::Unknown
    }
}

/// The console service's grip on the system: the persistence it opens
/// connections on and the log writer it appends to.
pub struct Tui {
    persistence: InMemoryPersistence,
    event_writer: std::sync::Arc<InMemoryLog>,
}

impl Tui {
    pub fn new(persistence: InMemoryPersistence, event_writer: std::sync::Arc<InMemoryLog>) -> Tui {
        Tui { persistence, event_writer }
    }

    /// Record that a person was added: draw a fresh identifier, append the
    /// event under an implicit transaction on a fresh connection, and hand
    /// the identifier back. On this backend the append cannot fail.
    pub fn add_person(&self, request: AddPersonRequest) -> (r: Result<PersonId, TuiError>)
        ensures
            r is Ok,
    {
        let new_id = new_person_id();
        let event = person_added(new_id, request.name);
        let mut conn = match self.persistence.get_connection() {
            Ok(c) => c,
            Err(_) => {
                return Err(TuiError::Io);
            },
        };
        let events = vec![event];
        match self.event_writer.write(&mut conn, events.as_slice()) {
            Ok(_) => Ok(new_id),
            Err(_) => Err(TuiError::Io),
        }
    }
}

} // verus!
