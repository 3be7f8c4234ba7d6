//! The error taxonomy of the backend.
//!
//! Every failure is one of four kinds and carries a message. The caller on
//! the other side of the call boundary sees a single line of text, made of
//! a prefix that names the kind and of the message.

use vstd::prelude::*;
use vstd::string::*;

verus! {

/// An error of the backend.
#[derive(Debug, PartialEq, Eq)]
pub enum AppError {
    /// The database rejected an operation.
    Database(String),
    /// The file system rejected an operation.
    Io(String),
    /// A lookup found no matching record.
    NotFound(String),
    /// Input failed a check made before the database was reached.
    Validation(String),
}

/// Result of an operation of the backend.
pub type AppResult<T> = Result<T, AppError>;

/// What an [`AppError`] is in contracts: its kind and the characters of its
/// message.
pub enum ErrorModel {
    Database(Seq<char>),
    Io(Seq<char>),
    NotFound(Seq<char>),
    Validation(Seq<char>),
}

impl ErrorModel {
    /// The message the error carries.
    pub open spec fn message(self) -> Seq<char> {
        match self {
            ErrorModel::Database(m) => m,
            ErrorModel::Io(m) => m,
            ErrorModel::NotFound(m) => m,
            ErrorModel::Validation(m) => m,
        }
    }

    /// The text that names the kind at the start of the rendered line.
    pub open spec fn prefix(self) -> Seq<char> {
        match self {
            ErrorModel::Database(_) => "Database error: "@,
            ErrorModel::Io(_) => "IO error: "@,
            ErrorModel::NotFound(_) => "Not found: "@,
            ErrorModel::Validation(_) => "Validation error: "@,
        }
    }

    /// The line of text that crosses the call boundary.
    pub open spec fn rendered(self) -> Seq<char> {
        self.prefix() + self.message()
    }
}

impl View for AppError {
    type V = ErrorModel;

    open spec fn view(&self) -> ErrorModel {
        match self {
            AppError::Database(m) => ErrorModel::Database(m@),
            AppError::Io(m) => ErrorModel::Io(m@),
            AppError::NotFound(m) => ErrorModel::NotFound(m@),
            AppError::Validation(m) => ErrorModel::Validation(m@),
        }
    }
}

/// The rendered line tells the kind and the message apart: two errors that
/// render alike are the same error.
pub proof fn lemma_rendered_determines_error(a: ErrorModel, b: ErrorModel)
    requires
        a.rendered() == b.rendered(),
    ensures
        a == b,
{
    reveal_strlit("Database error: ");
    reveal_strlit("IO error: ");
    reveal_strlit("Not found: ");
    reveal_strlit("Validation error: ");
    let p = a.prefix();
    let q = b.prefix();
    assert(a.rendered()[0] == p[0]);
    assert(b.rendered()[0] == q[0]);
    assert(p == q);
    assert(a.message() =~= a.rendered().subrange(p.len() as int, a.rendered().len() as int));
    assert(b.message() =~= b.rendered().subrange(q.len() as int, b.rendered().len() as int));
}

/// `sqlx::Error`, the error of the database driver. The verifier sees
/// nothing inside it.
#[verifier::external_type_specification]
#[verifier::external_body]
pub struct ExStorageFailure(sqlx::Error);

/// `std::io::Error`, the error of a file system operation. The verifier
/// sees nothing inside it.
#[verifier::external_type_specification]
#[verifier::external_body]
pub struct ExIoFailure(std::io::Error);

impl From<sqlx::Error> for AppError {
    /// Wraps a failure of the database driver, keeping its message.
    fn from(failure: sqlx::Error) -> (error: AppError)
        ensures
            error is Database,
            to_string_from_display_ensures::<sqlx::Error>(&failure, error->Database_0),
    {
        AppError::Database(failure.to_string())
    }
}

impl vstd::std_specs::convert::FromSpecImpl<sqlx::Error> for AppError {
    /// The message is the driver's wording, which no spec function gives:
    /// what `from` returns is stated in its own `ensures`.
    open spec fn obeys_from_spec() -> bool {
        false
    }

    open spec fn from_spec(failure: sqlx::Error) -> AppError {
        arbitrary()
    }
}

impl From<std::io::Error> for AppError {
    /// Wraps a failure of the file system, keeping its message.
    fn from(failure: std::io::Error) -> (error: AppError)
        ensures
            error is Io,
            to_string_from_display_ensures::<std::io::Error>(&failure, error->Io_0),
    {
        AppError::Io(failure.to_string())
    }
}

impl vstd::std_specs::convert::FromSpecImpl<std::io::Error> for AppError {
    /// The message is the platform's wording, which no spec function gives:
    /// what `from` returns is stated in its own `ensures`.
    open spec fn obeys_from_spec() -> bool {
        false
    }

    open spec fn from_spec(failure: std::io::Error) -> AppError {
        arbitrary()
    }
}

impl AppError {
    /// Renders the error as the one line of text the caller sees.
    pub fn to_string(&self) -> (text: String)
        ensures
            text@ == self@.rendered(),
    {
        match self {
            AppError::Database(m) => String::from_str("Database error: ").concat(m.as_str()),
            AppError::Io(m) => String::from_str("IO error: ").concat(m.as_str()),
            AppError::NotFound(m) => String::from_str("Not found: ").concat(m.as_str()),
            AppError::Validation(m) => String::from_str("Validation error: ").concat(m.as_str()),
        }
    }
}

} // verus!
