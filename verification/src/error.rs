use vstd::prelude::*;
use vstd::string::StringExecFns;

verus! {

/// Why an operation on the record store, or the decoding of a record, failed.
///
/// Every variant carries the text that identifies the failure: the name of the
/// table or key concerned, or the diagnostic of the failing component.
#[derive(Debug, Clone, PartialEq, Eq)]
pub enum Error {
    /// The storage medium failed.
    IO(String),
    /// A record could not be written out as text.
    Serialization(String),
    /// A document does not have the shape of the record asked for.
    Deserialization(String),
    /// No identifier could be made for a new record: the template holds
    /// more than names to put texts for, it could not be rendered, or the
    /// counter has reached its end.
    Identifier(String),
    /// The table was never defined.
    TableNotFound(String),
    /// A record with this key is already stored in the table.
    KeyAlreadyExists(String),
    /// No record with this key is stored in the table.
    KeyNotFound(String),
}

/// The mathematical value of an [`Error`].
pub enum ErrorView {
    IO(Seq<char>),
    Serialization(Seq<char>),
    Deserialization(Seq<char>),
    Identifier(Seq<char>),
    TableNotFound(Seq<char>),
    KeyAlreadyExists(Seq<char>),
    KeyNotFound(Seq<char>),
}

impl View for Error {
    type V = ErrorView;

    open spec fn view(&self) -> ErrorView {
        match self {
            Error::IO(s) => ErrorView::IO(s@),
            Error::Serialization(s) => ErrorView::Serialization(s@),
            Error::Deserialization(s) => ErrorView::Deserialization(s@),
            Error::Identifier(s) => ErrorView::Identifier(s@),
            Error::TableNotFound(s) => ErrorView::TableNotFound(s@),
            Error::KeyAlreadyExists(s) => ErrorView::KeyAlreadyExists(s@),
            Error::KeyNotFound(s) => ErrorView::KeyNotFound(s@),
        }
    }
}

impl ErrorView {
    /// The text shown to the user for this error.
    pub open spec fn message(self) -> Seq<char> {
        match self {
            ErrorView::IO(detail) => "I/O error: "@ + detail,
            ErrorView::Serialization(detail) => "Serialization error: "@ + detail,
            ErrorView::Deserialization(detail) => "Deserialization error: "@ + detail,
            ErrorView::Identifier(detail) => "Identifier error: "@ + detail,
            ErrorView::TableNotFound(table) => "Table \""@ + table + "\" not found"@,
            ErrorView::KeyAlreadyExists(key) => "Key \""@ + key + "\" already exists"@,
            ErrorView::KeyNotFound(key) => "Key \""@ + key + "\" not found"@,
        }
    }
}

/// The text `prefix`, then `detail`.
fn prefixed(prefix: &str, detail: &String) -> (text: String)
    ensures
        text@ == prefix@ + detail@,
{
    let mut text = String::from_str(prefix);
    text.append(detail.as_str());
    text
}

/// The text `prefix`, then `middle`, then `suffix`.
fn framed(prefix: &str, middle: &String, suffix: &str) -> (text: String)
    ensures
        text@ == prefix@ + middle@ + suffix@,
{
    let mut text = String::from_str(prefix);
    text.append(middle.as_str());
    text.append(suffix);
    text
}

impl Error {
    /// The text shown to the user for this error.
    pub fn message(&self) -> (text: String)
        ensures
            text@ == self@.message(),
    {
        match self {
            Error::IO(detail) => prefixed("I/O error: ", detail),
            Error::Serialization(detail) => prefixed("Serialization error: ", detail),
            Error::Deserialization(detail) => prefixed("Deserialization error: ", detail),
            Error::Identifier(detail) => prefixed("Identifier error: ", detail),
            Error::TableNotFound(table) => framed("Table \"", table, "\" not found"),
            Error::KeyAlreadyExists(key) => framed("Key \"", key, "\" already exists"),
            Error::KeyNotFound(key) => framed("Key \"", key, "\" not found"),
        }
    }
}

} // verus!
