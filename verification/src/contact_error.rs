//! The failures that the directory reports.

use vstd::prelude::*;
use vstd::std_specs::convert::FromSpecImpl;
use vstd::string::StringExecFns;

verus! {

/// `rusqlite::Error`, the storage engine's failure. It is carried, never
/// looked into.
#[verifier::external_type_specification]
#[verifier::external_body]
pub struct ExSqliteError(rusqlite::Error);

/// `serde_json::Error`, the serializer's failure. It is carried, never
/// looked into.
#[verifier::external_type_specification]
#[verifier::external_body]
pub struct ExSerdeError(serde_json::Error);

/// Why an operation on the directory failed.
#[derive(Debug)]
pub enum ContactsError {
    /// A result could not be turned into text, or text into a request.
    SerdeError(serde_json::Error),
    /// The storage engine refused or failed a statement.
    SqliteError(rusqlite::Error),
    /// The caller's input is malformed; the message names the field.
    InputError(String),
    /// No contact has the requested name.
    NotFoundError(String),
    /// A contact with the name to be added is already stored.
    DuplicateError(String),
}

/// A lookup that found nothing.
#[derive(Debug)]
pub enum NotFoundError {
    NotFound(String),
}

/// The kind of a failure and, where the directory wrote it, its message.
pub enum Failure {
    /// Serialization or the storage engine failed; the cause is the engine's.
    Backend,
    Input(Seq<char>),
    NotFound(Seq<char>),
    Duplicate(Seq<char>),
}

impl View for ContactsError {
    type V = Failure;

    open spec fn view(&self) -> Failure {
        match self {
            ContactsError::SerdeError(_) => Failure::Backend,
            ContactsError::SqliteError(_) => Failure::Backend,
            ContactsError::InputError(m) => Failure::Input(m@),
            ContactsError::NotFoundError(m) => Failure::NotFound(m@),
            ContactsError::DuplicateError(m) => Failure::Duplicate(m@),
        }
    }
}

impl View for NotFoundError {
    type V = Seq<char>;

    open spec fn view(&self) -> Seq<char> {
        match self {
            NotFoundError::NotFound(m) => m@,
        }
    }
}

/// A result without a value reports exactly the expected failure, or success
/// where none is expected.
pub open spec fn reports(r: Result<(), ContactsError>, expected: Option<Failure>) -> bool {
    match r {
        Ok(_) => expected is None,
        Err(e) => expected == Some(e@),
    }
}

/// `rusqlite::Error`'s `Display` text behind a fixed prefix. Nothing is
/// claimed of the text: it is the engine's own.
#[verifier::external_body]
fn sqlite_error_text(error: &rusqlite::Error) -> String {
    format!("SQLite error: {}", error)
}

/// `serde_json::Error`'s `Display` text behind a fixed prefix. Nothing is
/// claimed of the text: it is the serializer's own.
#[verifier::external_body]
fn serde_error_text(error: &serde_json::Error) -> String {
    format!("Failed to serialize/deserialize contact: {}", error)
}

/// The text of a failure that the directory wrote itself: a prefix that
/// tells the kind, then the message. A failure of the storage engine or the
/// serializer has the text that its cause gives it.
pub open spec fn failure_text(failure: Failure) -> Option<Seq<char>> {
    match failure {
        Failure::Backend => None,
        Failure::Input(m) => Some("Failed to parse input: "@ + m),
        Failure::NotFound(m) => Some("No entries: "@ + m),
        Failure::Duplicate(m) => Some("Already stored: "@ + m),
    }
}

impl ContactsError {
    /// The text shown to a person: a prefix that tells the kind, then the
    /// message or the underlying cause.
    pub fn message(&self) -> (text: String)
        ensures
            failure_text(self@) matches Some(t) ==> text@ == t,
    {
        match self {
            ContactsError::SerdeError(e) => serde_error_text(e),
            ContactsError::SqliteError(e) => sqlite_error_text(e),
            ContactsError::InputError(m) => String::from_str("Failed to parse input: ").concat(
                m.as_str(),
            ),
            ContactsError::NotFoundError(m) => String::from_str("No entries: ").concat(m.as_str()),
            ContactsError::DuplicateError(m) => String::from_str("Already stored: ").concat(
                m.as_str(),
            ),
        }
    }
}

impl NotFoundError {
    /// The text shown to a person.
    pub fn message(&self) -> (text: String)
        ensures
            text@ == "No entries found: "@ + self@,
    {
        match self {
            NotFoundError::NotFound(m) => String::from_str("No entries found: ").concat(
                m.as_str(),
            ),
        }
    }
}

impl From<rusqlite::Error> for ContactsError {
    fn from(e: rusqlite::Error) -> (error: ContactsError) {
        ContactsError::SqliteError(e)
    }
}

impl FromSpecImpl<rusqlite::Error> for ContactsError {
    open spec fn obeys_from_spec() -> bool {
        true
    }

    open spec fn from_spec(e: rusqlite::Error) -> ContactsError {
        ContactsError::SqliteError(e)
    }
}

impl From<serde_json::Error> for ContactsError {
    fn from(e: serde_json::Error) -> (error: ContactsError) {
        ContactsError::SerdeError(e)
    }
}

impl FromSpecImpl<serde_json::Error> for ContactsError {
    open spec fn obeys_from_spec() -> bool {
        true
    }

    open spec fn from_spec(e: serde_json::Error) -> ContactsError {
        ContactsError::SerdeError(e)
    }
}

impl From<String> for ContactsError {
    fn from(e: String) -> (error: ContactsError) {
        ContactsError::InputError(e)
    }
}

impl FromSpecImpl<String> for ContactsError {
    open spec fn obeys_from_spec() -> bool {
        true
    }

    open spec fn from_spec(e: String) -> ContactsError {
        ContactsError::InputError(e)
    }
}

impl From<NotFoundError> for ContactsError {
    fn from(e: NotFoundError) -> (error: ContactsError) {
        match e {
            NotFoundError::NotFound(m) => ContactsError::NotFoundError(m),
        }
    }
}

impl FromSpecImpl<NotFoundError> for ContactsError {
    open spec fn obeys_from_spec() -> bool {
        true
    }

    open spec fn from_spec(e: NotFoundError) -> ContactsError {
        match e {
            NotFoundError::NotFound(m) => ContactsError::NotFoundError(m),
        }
    }
}

impl From<String> for NotFoundError {
    fn from(e: String) -> (error: NotFoundError) {
        NotFoundError::NotFound(e)
    }
}

impl FromSpecImpl<String> for NotFoundError {
    open spec fn obeys_from_spec() -> bool {
        true
    }

    open spec fn from_spec(e: String) -> NotFoundError {
        NotFoundError::NotFound(e)
    }
}

} // verus!
