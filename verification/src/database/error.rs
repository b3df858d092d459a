//! What can go wrong with the document store, and how a failure that the
//! store's driver reports is classified.

use crate::text::{contains_text, occurs_in};
use vstd::prelude::*;
use vstd::std_specs::convert::FromSpecImpl;
use vstd::string::StringExecFns;

verus! {

/// `mongodb::error::Error`, a failure that the driver reports. The library
/// carries it and never looks inside.
#[verifier::external_type_specification]
#[verifier::external_body]
pub struct ExMongoError(mongodb::error::Error);

/// `bson::ser::Error`, a value that could not be written as a document. The
/// library carries it and never looks inside.
#[verifier::external_type_specification]
#[verifier::external_body]
pub struct ExBsonSerError(bson::ser::Error);

/// `bson::de::Error`, a document that could not be read as a value. The
/// library carries it and never looks inside.
#[verifier::external_type_specification]
#[verifier::external_body]
pub struct ExBsonDeError(bson::de::Error);

/// A failure of the document store.
#[derive(Debug)]
pub enum DatabaseError {
    ConnectionFailed(mongodb::error::Error),
    SerializationFailed(bson::ser::Error),
    DeserializationFailed(bson::de::Error),
    NotFound,
    DuplicateKey,
    InvalidFormat,
    OperationFailed { message: String },
    TransactionFailed,
    IndexCreationFailed,
    Unknown,
}

impl From<mongodb::error::Error> for DatabaseError {
    fn from(error: mongodb::error::Error) -> (failure: DatabaseError) {
        DatabaseError::ConnectionFailed(error)
    }
}

impl FromSpecImpl<mongodb::error::Error> for DatabaseError {
    open spec fn obeys_from_spec() -> bool {
        true
    }

    open spec fn from_spec(error: mongodb::error::Error) -> DatabaseError {
        DatabaseError::ConnectionFailed(error)
    }
}

impl From<bson::ser::Error> for DatabaseError {
    fn from(error: bson::ser::Error) -> (failure: DatabaseError) {
        DatabaseError::SerializationFailed(error)
    }
}

impl FromSpecImpl<bson::ser::Error> for DatabaseError {
    open spec fn obeys_from_spec() -> bool {
        true
    }

    open spec fn from_spec(error: bson::ser::Error) -> DatabaseError {
        DatabaseError::SerializationFailed(error)
    }
}

impl From<bson::de::Error> for DatabaseError {
    fn from(error: bson::de::Error) -> (failure: DatabaseError) {
        DatabaseError::DeserializationFailed(error)
    }
}

impl FromSpecImpl<bson::de::Error> for DatabaseError {
    open spec fn obeys_from_spec() -> bool {
        true
    }

    open spec fn from_spec(error: bson::de::Error) -> DatabaseError {
        DatabaseError::DeserializationFailed(error)
    }
}

/// The part of the driver in which a failure arose.
#[derive(Clone, Copy, Debug, PartialEq, Eq, Structural)]
pub enum ErrorOrigin {
    /// A write that the server refused.
    Write,
    /// A command that the server refused.
    Command,
    /// Anything else: the connection, the driver itself.
    Other,
}

/// What a failure of the driver amounts to.
#[derive(Clone, Copy, Debug, PartialEq, Eq, Structural)]
pub enum FailureClass {
    DuplicateKey,
    OperationFailed,
    ConnectionFailed,
}

/// Whether the text of a failure speaks of a duplicate key.
pub open spec fn names_duplicate_key(text: Seq<char>) -> bool {
    occurs_in("E11000"@, text) || occurs_in("duplicate key"@, text)
}

/// The class of a failure with the given text and origin.
pub open spec fn class_of(text: Seq<char>, origin: ErrorOrigin) -> FailureClass {
    if names_duplicate_key(text) {
        FailureClass::DuplicateKey
    } else {
        match origin {
            ErrorOrigin::Write => FailureClass::OperationFailed,
            ErrorOrigin::Command => FailureClass::OperationFailed,
            ErrorOrigin::Other => FailureClass::ConnectionFailed,
        }
    }
}

/// Classifies a failure by its text and its origin: one whose text speaks of
/// a duplicate key is a duplicate key, whatever its origin; another is a
/// failed operation where the server refused a write or a command, and a
/// failed connection otherwise.
pub fn classify(text: &str, origin: ErrorOrigin) -> (class: FailureClass)
    ensures
        class == class_of(text@, origin),
{
    if contains_text(text, "E11000") || contains_text(text, "duplicate key") {
        return FailureClass::DuplicateKey;
    }
    match origin {
        ErrorOrigin::Write => FailureClass::OperationFailed,
        ErrorOrigin::Command => FailureClass::OperationFailed,
        ErrorOrigin::Other => FailureClass::ConnectionFailed,
    }
}

/// Calls `to_string` on a `mongodb::error::Error`. Nothing is claimed of the
/// text.
#[verifier::external_body]
fn error_text(error: &mongodb::error::Error) -> (text: String) {
    error.to_string()
}

/// Reads the `kind` of a `mongodb::error::Error` and tells `Write` and
/// `Command` from the other kinds. Nothing is claimed of the result.
#[verifier::external_body]
fn error_origin(error: &mongodb::error::Error) -> (origin: ErrorOrigin) {
    match error.kind.as_ref() {
        mongodb::error::ErrorKind::Write(_) => ErrorOrigin::Write,
        mongodb::error::ErrorKind::Command(_) => ErrorOrigin::Command,
        _ => ErrorOrigin::Other,
    }
}

/// Calls `to_string` on a `bson::ser::Error`. Nothing is claimed of the text.
#[verifier::external_body]
fn serialization_error_text(error: &bson::ser::Error) -> (text: String) {
    error.to_string()
}

/// Calls `to_string` on a `bson::de::Error`. Nothing is claimed of the text.
#[verifier::external_body]
fn deserialization_error_text(error: &bson::de::Error) -> (text: String) {
    error.to_string()
}

impl DatabaseError {
    /// The message of a failure. `detail` is the text of the error that the
    /// failure carries, where it carries one.
    pub open spec fn message(self, detail: Seq<char>) -> Seq<char> {
        match self {
            DatabaseError::ConnectionFailed(_) => "Connection failed: "@ + detail,
            DatabaseError::SerializationFailed(_) => "Serialization failed: "@ + detail,
            DatabaseError::DeserializationFailed(_) => "Deserialization failed: "@ + detail,
            DatabaseError::NotFound => "Document not found"@,
            DatabaseError::DuplicateKey => "Duplicate document"@,
            DatabaseError::InvalidFormat => "Invalid document format"@,
            DatabaseError::OperationFailed { message } => "Database operation failed: "@
                + message@,
            DatabaseError::TransactionFailed => "Transaction failed"@,
            DatabaseError::IndexCreationFailed => "Index creation failed"@,
            DatabaseError::Unknown => "Unknown database error"@,
        }
    }

    /// The message of a failure, given the text of the error that it carries.
    pub fn describe(&self, detail: &str) -> (text: String)
        ensures
            text@ == self.message(detail@),
    {
        match self {
            DatabaseError::ConnectionFailed(_) => "Connection failed: ".to_owned().concat(detail),
            DatabaseError::SerializationFailed(_) => "Serialization failed: ".to_owned().concat(
                detail,
            ),
            DatabaseError::DeserializationFailed(_) => {
                "Deserialization failed: ".to_owned().concat(detail)
            },
            DatabaseError::NotFound => "Document not found".to_owned(),
            DatabaseError::DuplicateKey => "Duplicate document".to_owned(),
            DatabaseError::InvalidFormat => "Invalid document format".to_owned(),
            DatabaseError::OperationFailed { message } => {
                "Database operation failed: ".to_owned().concat(message.as_str())
            },
            DatabaseError::TransactionFailed => "Transaction failed".to_owned(),
            DatabaseError::IndexCreationFailed => "Index creation failed".to_owned(),
            DatabaseError::Unknown => "Unknown database error".to_owned(),
        }
    }

    /// The message of a failure, with the text of the error that it carries.
    pub fn to_string(&self) -> (text: String)
        ensures
            exists|detail: Seq<char>| text@ == self.message(detail),
    {
        let detail = match self {
            DatabaseError::ConnectionFailed(error) => error_text(error),
            DatabaseError::SerializationFailed(error) => serialization_error_text(error),
            DatabaseError::DeserializationFailed(error) => deserialization_error_text(error),
            _ => String::new(),
        };
        self.describe(detail.as_str())
    }

    pub fn operation_failed(message: String) -> (error: DatabaseError)
        ensures
            error == (DatabaseError::OperationFailed { message }),
    {
        DatabaseError::OperationFailed { message }
    }

    pub fn is_not_found(&self) -> (is: bool)
        ensures
            is == (self is NotFound),
    {
        matches!(self, DatabaseError::NotFound)
    }

    pub fn is_duplicate_key(&self) -> (is: bool)
        ensures
            is == (self is DuplicateKey),
    {
        matches!(self, DatabaseError::DuplicateKey)
    }

    /// The failure of the given class. A failed operation carries the text, a
    /// failed connection the driver's own error.
    pub fn of_class(class: FailureClass, text: String, error: mongodb::error::Error) -> (failure:
        DatabaseError)
        ensures
            failure == (match class {
                FailureClass::DuplicateKey => DatabaseError::DuplicateKey,
                FailureClass::OperationFailed => DatabaseError::OperationFailed { message: text },
                FailureClass::ConnectionFailed => DatabaseError::ConnectionFailed(error),
            }),
    {
        match class {
            FailureClass::DuplicateKey => DatabaseError::DuplicateKey,
            FailureClass::OperationFailed => DatabaseError::OperationFailed { message: text },
            FailureClass::ConnectionFailed => DatabaseError::ConnectionFailed(error),
        }
    }
}

/// Turns a failure that the driver reports into a failure of the store.
pub fn map_mongodb_error(error: mongodb::error::Error) -> (failure: DatabaseError)
    ensures
        match failure {
            DatabaseError::DuplicateKey => true,
            DatabaseError::OperationFailed { .. } => true,
            DatabaseError::ConnectionFailed(inner) => inner == error,
            _ => false,
        },
{
    let text = error_text(&error);
    let origin = error_origin(&error);
    let class = classify(text.as_str(), origin);
    DatabaseError::of_class(class, text, error)
}

} // verus!
