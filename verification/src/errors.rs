//! The errors of the engine.

use vstd::prelude::*;
use vstd::string::*;

verus! {

/// What went wrong, by kind.
#[derive(Debug)]
pub enum AppError {
    /// The named space does not exist in the environment.
    DatabaseNotFound(String),
    /// The path of the environment is missing.
    NotFound,
    /// A path cannot be read or written.
    PermissionDenied,
    /// A write was attempted on an environment opened read-only.
    ReadOnlyEnv,
    /// A second writer was asked for while one is live.
    WriterBusy,
    /// The query is empty once trimmed.
    EmptyQuery,
    /// The query parser rejected its input, with the reason.
    BadQuery(String),
    /// The regular expression of a query does not compile, with the
    /// compiler's message.
    BadRegex(String),
    /// No decoder accepts the value.
    Undecodable,
    /// The store reported structural inconsistency.
    Corruption,
    /// Any other failure of the store or of I/O, with its message.
    Storage(String),
}

/// The text of an error, as a user reads it.
pub open spec fn message_text(error: AppError) -> Seq<char> {
    match error {
        AppError::DatabaseNotFound(name) => "database not found: "@ + name@,
        AppError::NotFound => "not found"@,
        AppError::PermissionDenied => "permission denied"@,
        AppError::ReadOnlyEnv => "environment is read-only"@,
        AppError::WriterBusy => "another writer is active"@,
        AppError::EmptyQuery => "empty query"@,
        AppError::BadQuery(reason) => "bad query: "@ + reason@,
        AppError::BadRegex(reason) => "bad regex: "@ + reason@,
        AppError::Undecodable => "unable to decode value"@,
        AppError::Corruption => "store is corrupt"@,
        AppError::Storage(reason) => reason@,
    }
}

/// The code with which a program that stops on `error` exits: 2 for a path
/// that is missing, 3 for one that may not be touched, 1 for everything
/// else.
pub open spec fn exit_code_of(error: AppError) -> i32 {
    match error {
        AppError::NotFound => 2,
        AppError::PermissionDenied => 3,
        _ => 1,
    }
}

impl AppError {
    /// The text of this error.
    pub fn message(&self) -> (text: String)
        ensures
            text@ == message_text(*self),
    {
        match self {
            AppError::DatabaseNotFound(name) => {
                let mut text = "database not found: ".to_owned();
                text.append(name.as_str());
                text
            },
            AppError::NotFound => "not found".to_owned(),
            AppError::PermissionDenied => "permission denied".to_owned(),
            AppError::ReadOnlyEnv => "environment is read-only".to_owned(),
            AppError::WriterBusy => "another writer is active".to_owned(),
            AppError::EmptyQuery => "empty query".to_owned(),
            AppError::BadQuery(reason) => {
                let mut text = "bad query: ".to_owned();
                text.append(reason.as_str());
                text
            },
            AppError::BadRegex(reason) => {
                let mut text = "bad regex: ".to_owned();
                text.append(reason.as_str());
                text
            },
            AppError::Undecodable => "unable to decode value".to_owned(),
            AppError::Corruption => "store is corrupt".to_owned(),
            AppError::Storage(reason) => reason.clone(),
        }
    }

    /// The exit code of a program that stops on this error.
    pub fn exit_code(&self) -> (code: i32)
        ensures
            code == exit_code_of(*self),
    {
        match self {
            AppError::NotFound => 2,
            AppError::PermissionDenied => 3,
            _ => 1,
        }
    }
}

/// The kind of an I/O failure, as the operating system reports it.
#[derive(Copy, Clone, Debug, PartialEq, Eq)]
pub enum IoKind {
    /// What was asked for does not exist.
    NotFound,
    /// What was asked for may not be touched.
    PermissionDenied,
    /// Any other failure.
    Other,
}

/// The number under which some systems report a missing path as a missing
/// device.
pub const ENXIO: i32 = 6;

/// Classifies an I/O failure by its kind and by the number that the
/// operating system gave it: a missing path, a path that may not be
/// touched, or a failure of the store with its message. A missing device
/// counts as a missing path.
pub fn io_failure(kind: IoKind, raw_os_error: Option<i32>, message: String) -> (r: AppError)
    ensures
        match kind {
            IoKind::NotFound => r == AppError::NotFound,
            IoKind::PermissionDenied => r == AppError::PermissionDenied,
            IoKind::Other => if raw_os_error == Some(ENXIO) {
                r == AppError::NotFound
            } else {
                r matches AppError::Storage(m) && m@ == message@
            },
        },
{
    match kind {
        IoKind::NotFound => AppError::NotFound,
        IoKind::PermissionDenied => AppError::PermissionDenied,
        IoKind::Other => {
            let missing = match raw_os_error {
                Some(code) => code == ENXIO,
                None => false,
            };
            if missing {
                AppError::NotFound
            } else {
                AppError::Storage(message)
            }
        },
    }
}

} // verus!
