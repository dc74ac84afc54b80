//! The error kinds, and the classifier that sorts the engine's failures into them.
use crate::text::{remove_all, starts_with, without};
use vstd::prelude::*;
use vstd::string::*;

verus! {

/// What can go wrong at the engine boundary.
#[derive(Clone, Debug, PartialEq)]
pub enum Error {
    /// A path or a statement holds a NUL byte, at this position.
    Null(usize),
    /// A count or a length does not fit the engine's integer.
    TryFromInt,
    /// A failure of the engine, with its diagnostic text and its result code.
    Sqlite { text: String, code: i32 },
    /// A statement could not be prepared.
    FailedToPrepare,
    /// A unique constraint was violated, on the columns named.
    UniqueConstraint(String),
    /// The connection is closed.
    ConnectionClosed,
    /// One row was expected and none came.
    RowNotFound,
    /// A text column does not hold UTF-8 from this position on.
    Utf8Error(usize),
    /// A column to be added exists already, under the name given.
    DuplicateColumnName(String),
    /// A guard of shared state could not be locked.
    MutexLockFailed,
}

/// What an [`Error`] holds, as mathematics.
pub enum ErrorView {
    Null(usize),
    TryFromInt,
    Sqlite { text: Seq<char>, code: i32 },
    FailedToPrepare,
    UniqueConstraint(Seq<char>),
    ConnectionClosed,
    RowNotFound,
    Utf8Error(usize),
    DuplicateColumnName(Seq<char>),
    MutexLockFailed,
}

impl View for Error {
    type V = ErrorView;

    open spec fn view(&self) -> ErrorView {
        match self {
            Error::Null(at) => ErrorView::Null(*at),
            Error::TryFromInt => ErrorView::TryFromInt,
            Error::Sqlite { text, code } => ErrorView::Sqlite { text: text@, code: *code },
            Error::FailedToPrepare => ErrorView::FailedToPrepare,
            Error::UniqueConstraint(columns) => ErrorView::UniqueConstraint(columns@),
            Error::ConnectionClosed => ErrorView::ConnectionClosed,
            Error::RowNotFound => ErrorView::RowNotFound,
            Error::Utf8Error(at) => ErrorView::Utf8Error(*at),
            Error::DuplicateColumnName(column) => ErrorView::DuplicateColumnName(column@),
            Error::MutexLockFailed => ErrorView::MutexLockFailed,
        }
    }
}

/// How the engine's diagnostic text begins when a unique constraint is violated.
pub const UNIQUE_CONSTRAINT: &'static str = "UNIQUE constraint failed: ";

/// How the engine's diagnostic text begins when an added column exists already.
pub const DUPLICATE_COLUMN: &'static str = "duplicate column name: ";

/// The text of the error that is reported for a connection without a handle.
pub const NULL_HANDLE: &'static str = "The sqlite db pointer is null";

/// The error that a failed engine call stands for.
///
/// `db` is the connection's handle, `code` the result code of the call and `text`
/// the connection's diagnostic text. Without a handle there is no diagnostic text
/// to go by. With one, the two known beginnings of the text select their own
/// kinds, which carry the text without that beginning; every other text is
/// carried as it is, with the code.
pub open spec fn classify(code: i32, db: usize, text: Seq<char>) -> ErrorView {
    if db == 0 {
        ErrorView::Sqlite { text: NULL_HANDLE@, code: -1i32 }
    } else if UNIQUE_CONSTRAINT@.is_prefix_of(text) {
        ErrorView::UniqueConstraint(without(text, UNIQUE_CONSTRAINT@))
    } else if DUPLICATE_COLUMN@.is_prefix_of(text) {
        ErrorView::DuplicateColumnName(without(text, DUPLICATE_COLUMN@))
    } else {
        ErrorView::Sqlite { text, code }
    }
}

/// Sorts a failure of the engine into its error kind.
pub fn sqlite_err(code: i32, db: usize, text: &str) -> (e: Error)
    ensures
        e@ == classify(code, db, text@),
{
    proof {
        reveal_strlit("UNIQUE constraint failed: ");
        reveal_strlit("duplicate column name: ");
    }
    if db == 0 {
        Error::Sqlite { text: String::from_str(NULL_HANDLE), code: -1 }
    } else if starts_with(text, UNIQUE_CONSTRAINT) {
        Error::UniqueConstraint(remove_all(text, UNIQUE_CONSTRAINT))
    } else if starts_with(text, DUPLICATE_COLUMN) {
        Error::DuplicateColumnName(remove_all(text, DUPLICATE_COLUMN))
    } else {
        Error::Sqlite { text: String::from_str(text), code }
    }
}

/// Whether `at` is the place of the first NUL byte of `bytes`.
pub open spec fn is_first_nul(bytes: Seq<u8>, at: int) -> bool {
    &&& 0 <= at < bytes.len()
    &&& bytes[at] == 0
    &&& forall|j: int| 0 <= j < at ==> bytes[j] != 0
}

/// The bytes of `s` with a closing NUL, as the engine takes a path or a statement.
///
/// Fails where `s` holds a NUL byte itself, and says where the first one stands.
pub fn c_string(s: &str) -> (r: Result<Vec<u8>, Error>)
    ensures
        match r {
            Ok(bytes) => {
                &&& forall|j: int| 0 <= j < s.spec_bytes().len() ==> s.spec_bytes()[j] != 0
                &&& bytes@ == s.spec_bytes().push(0u8)
            },
            Err(e) => exists|at: usize| e@ == ErrorView::Null(at) && is_first_nul(s.spec_bytes(), at as int),
        },
{
    let mut bytes = s.as_bytes_vec();
    let mut i: usize = 0;
    while i < bytes.len()
        invariant
            i <= bytes.len(),
            bytes@ == s.spec_bytes(),
            forall|j: int| 0 <= j < i ==> bytes@[j] != 0,
        decreases bytes.len() - i,
    {
        if bytes[i] == 0 {
            assert(is_first_nul(s.spec_bytes(), i as int));
            return Err(Error::Null(i));
        }
        i += 1;
    }
    bytes.push(0u8);
    Ok(bytes)
}

} // verus!
