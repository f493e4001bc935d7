//! How a failure is reported to the host: the symbolic names of the engine's
//! result codes and the payload that carries a failure.

use crate::text::{decimal_text, push_integer};
use crate::value::BindError;
use vstd::prelude::*;
use vstd::string::*;

verus! {

/// The symbolic name of a result code of the engine, for the codes that have
/// one.
pub open spec fn known_code_name(code: int) -> Option<Seq<char>> {
    if code == 0 {
        Some("SQLITE_OK"@)
    } else if code == 1 {
        Some("SQLITE_ERROR"@)
    } else if code == 2 {
        Some("SQLITE_INTERNAL"@)
    } else if code == 3 {
        Some("SQLITE_PERM"@)
    } else if code == 4 {
        Some("SQLITE_ABORT"@)
    } else if code == 5 {
        Some("SQLITE_BUSY"@)
    } else if code == 6 {
        Some("SQLITE_LOCKED"@)
    } else if code == 7 {
        Some("SQLITE_NOMEM"@)
    } else if code == 8 {
        Some("SQLITE_READONLY"@)
    } else if code == 9 {
        Some("SQLITE_INTERRUPT"@)
    } else if code == 10 {
        Some("SQLITE_IOERR"@)
    } else if code == 11 {
        Some("SQLITE_CORRUPT"@)
    } else if code == 12 {
        Some("SQLITE_NOTFOUND"@)
    } else if code == 13 {
        Some("SQLITE_FULL"@)
    } else if code == 14 {
        Some("SQLITE_CANTOPEN"@)
    } else if code == 15 {
        Some("SQLITE_PROTOCOL"@)
    } else if code == 16 {
        Some("SQLITE_EMPTY"@)
    } else if code == 17 {
        Some("SQLITE_SCHEMA"@)
    } else if code == 18 {
        Some("SQLITE_TOOBIG"@)
    } else if code == 19 {
        Some("SQLITE_CONSTRAINT"@)
    } else if code == 20 {
        Some("SQLITE_MISMATCH"@)
    } else if code == 21 {
        Some("SQLITE_MISUSE"@)
    } else if code == 22 {
        Some("SQLITE_NOLFS"@)
    } else if code == 23 {
        Some("SQLITE_AUTH"@)
    } else if code == 24 {
        Some("SQLITE_FORMAT"@)
    } else if code == 25 {
        Some("SQLITE_RANGE"@)
    } else if code == 26 {
        Some("SQLITE_NOTADB"@)
    } else if code == 27 {
        Some("SQLITE_NOTICE"@)
    } else if code == 28 {
        Some("SQLITE_WARNING"@)
    } else if code == 100 {
        Some("SQLITE_ROW"@)
    } else if code == 101 {
        Some("SQLITE_DONE"@)
    } else if code == 266 {
        Some("SQLITE_IOERR_READ"@)
    } else if code == 522 {
        Some("SQLITE_IOERR_SHORT_READ"@)
    } else if code == 778 {
        Some("SQLITE_IOERR_WRITE"@)
    } else if code == 1034 {
        Some("SQLITE_IOERR_FSYNC"@)
    } else if code == 1290 {
        Some("SQLITE_IOERR_DIR_FSYNC"@)
    } else if code == 1546 {
        Some("SQLITE_IOERR_TRUNCATE"@)
    } else if code == 1802 {
        Some("SQLITE_IOERR_FSTAT"@)
    } else if code == 2058 {
        Some("SQLITE_IOERR_UNLOCK"@)
    } else if code == 2314 {
        Some("SQLITE_IOERR_RDLOCK"@)
    } else if code == 2570 {
        Some("SQLITE_IOERR_DELETE"@)
    } else if code == 2826 {
        Some("SQLITE_IOERR_BLOCKED"@)
    } else if code == 3082 {
        Some("SQLITE_IOERR_NOMEM"@)
    } else if code == 3338 {
        Some("SQLITE_IOERR_ACCESS"@)
    } else if code == 3594 {
        Some("SQLITE_IOERR_CHECKRESERVEDLOCK"@)
    } else if code == 3850 {
        Some("SQLITE_IOERR_LOCK"@)
    } else if code == 4106 {
        Some("SQLITE_IOERR_CLOSE"@)
    } else if code == 4362 {
        Some("SQLITE_IOERR_DIR_CLOSE"@)
    } else if code == 4618 {
        Some("SQLITE_IOERR_SHMOPEN"@)
    } else if code == 4874 {
        Some("SQLITE_IOERR_SHMSIZE"@)
    } else if code == 5130 {
        Some("SQLITE_IOERR_SHMLOCK"@)
    } else if code == 5386 {
        Some("SQLITE_IOERR_SHMMAP"@)
    } else if code == 5642 {
        Some("SQLITE_IOERR_SEEK"@)
    } else if code == 5898 {
        Some("SQLITE_IOERR_DELETE_NOENT"@)
    } else if code == 6154 {
        Some("SQLITE_IOERR_MMAP"@)
    } else if code == 6410 {
        Some("SQLITE_IOERR_GETTEMPPATH"@)
    } else if code == 6666 {
        Some("SQLITE_IOERR_CONVPATH"@)
    } else if code == 6922 {
        Some("SQLITE_IOERR_VNODE"@)
    } else if code == 7178 {
        Some("SQLITE_IOERR_AUTH"@)
    } else if code == 262 {
        Some("SQLITE_LOCKED_SHAREDCACHE"@)
    } else if code == 261 {
        Some("SQLITE_BUSY_RECOVERY"@)
    } else if code == 517 {
        Some("SQLITE_BUSY_SNAPSHOT"@)
    } else if code == 270 {
        Some("SQLITE_CANTOPEN_NOTEMPDIR"@)
    } else if code == 526 {
        Some("SQLITE_CANTOPEN_ISDIR"@)
    } else if code == 782 {
        Some("SQLITE_CANTOPEN_FULLPATH"@)
    } else if code == 1038 {
        Some("SQLITE_CANTOPEN_CONVPATH"@)
    } else if code == 267 {
        Some("SQLITE_CORRUPT_VTAB"@)
    } else if code == 264 {
        Some("SQLITE_READONLY_RECOVERY"@)
    } else if code == 520 {
        Some("SQLITE_READONLY_CANTLOCK"@)
    } else if code == 776 {
        Some("SQLITE_READONLY_ROLLBACK"@)
    } else if code == 1032 {
        Some("SQLITE_READONLY_DBMOVED"@)
    } else if code == 516 {
        Some("SQLITE_ABORT_ROLLBACK"@)
    } else if code == 275 {
        Some("SQLITE_CONSTRAINT_CHECK"@)
    } else if code == 531 {
        Some("SQLITE_CONSTRAINT_COMMITHOOK"@)
    } else if code == 787 {
        Some("SQLITE_CONSTRAINT_FOREIGNKEY"@)
    } else if code == 1043 {
        Some("SQLITE_CONSTRAINT_FUNCTION"@)
    } else if code == 1299 {
        Some("SQLITE_CONSTRAINT_NOTNULL"@)
    } else if code == 1555 {
        Some("SQLITE_CONSTRAINT_PRIMARYKEY"@)
    } else if code == 1811 {
        Some("SQLITE_CONSTRAINT_TRIGGER"@)
    } else if code == 2067 {
        Some("SQLITE_CONSTRAINT_UNIQUE"@)
    } else if code == 2323 {
        Some("SQLITE_CONSTRAINT_VTAB"@)
    } else if code == 2579 {
        Some("SQLITE_CONSTRAINT_ROWID"@)
    } else if code == 283 {
        Some("SQLITE_NOTICE_RECOVER_WAL"@)
    } else if code == 539 {
        Some("SQLITE_NOTICE_RECOVER_ROLLBACK"@)
    } else if code == 284 {
        Some("SQLITE_WARNING_AUTOINDEX"@)
    } else if code == 279 {
        Some("SQLITE_AUTH_USER"@)
    } else if code == 256 {
        Some("SQLITE_OK_LOAD_PERMANENTLY"@)
    } else {
        None
    }
}

/// The symbolic name reported for a result code: its own name where the code
/// is known, else a name made of a fixed prefix and the code in decimal.
pub open spec fn code_name(code: int) -> Seq<char> {
    match known_code_name(code) {
        Some(name) => name,
        None => "UNKNOWN_SQLITE_ERROR_"@ + decimal_text(code),
    }
}

/// Gives the symbolic name of an engine result code.
pub fn map_sqlite_code(code: i32) -> (name: String)
    ensures
        name@ == code_name(code as int),
{
    match code {
        0 => String::from_str("SQLITE_OK"),
        1 => String::from_str("SQLITE_ERROR"),
        2 => String::from_str("SQLITE_INTERNAL"),
        3 => String::from_str("SQLITE_PERM"),
        4 => String::from_str("SQLITE_ABORT"),
        5 => String::from_str("SQLITE_BUSY"),
        6 => String::from_str("SQLITE_LOCKED"),
        7 => String::from_str("SQLITE_NOMEM"),
        8 => String::from_str("SQLITE_READONLY"),
        9 => String::from_str("SQLITE_INTERRUPT"),
        10 => String::from_str("SQLITE_IOERR"),
        11 => String::from_str("SQLITE_CORRUPT"),
        12 => String::from_str("SQLITE_NOTFOUND"),
        13 => String::from_str("SQLITE_FULL"),
        14 => String::from_str("SQLITE_CANTOPEN"),
        15 => String::from_str("SQLITE_PROTOCOL"),
        16 => String::from_str("SQLITE_EMPTY"),
        17 => String::from_str("SQLITE_SCHEMA"),
        18 => String::from_str("SQLITE_TOOBIG"),
        19 => String::from_str("SQLITE_CONSTRAINT"),
        20 => String::from_str("SQLITE_MISMATCH"),
        21 => String::from_str("SQLITE_MISUSE"),
        22 => String::from_str("SQLITE_NOLFS"),
        23 => String::from_str("SQLITE_AUTH"),
        24 => String::from_str("SQLITE_FORMAT"),
        25 => String::from_str("SQLITE_RANGE"),
        26 => String::from_str("SQLITE_NOTADB"),
        27 => String::from_str("SQLITE_NOTICE"),
        28 => String::from_str("SQLITE_WARNING"),
        100 => String::from_str("SQLITE_ROW"),
        101 => String::from_str("SQLITE_DONE"),
        266 => String::from_str("SQLITE_IOERR_READ"),
        522 => String::from_str("SQLITE_IOERR_SHORT_READ"),
        778 => String::from_str("SQLITE_IOERR_WRITE"),
        1034 => String::from_str("SQLITE_IOERR_FSYNC"),
        1290 => String::from_str("SQLITE_IOERR_DIR_FSYNC"),
        1546 => String::from_str("SQLITE_IOERR_TRUNCATE"),
        1802 => String::from_str("SQLITE_IOERR_FSTAT"),
        2058 => String::from_str("SQLITE_IOERR_UNLOCK"),
        2314 => String::from_str("SQLITE_IOERR_RDLOCK"),
        2570 => String::from_str("SQLITE_IOERR_DELETE"),
        2826 => String::from_str("SQLITE_IOERR_BLOCKED"),
        3082 => String::from_str("SQLITE_IOERR_NOMEM"),
        3338 => String::from_str("SQLITE_IOERR_ACCESS"),
        3594 => String::from_str("SQLITE_IOERR_CHECKRESERVEDLOCK"),
        3850 => String::from_str("SQLITE_IOERR_LOCK"),
        4106 => String::from_str("SQLITE_IOERR_CLOSE"),
        4362 => String::from_str("SQLITE_IOERR_DIR_CLOSE"),
        4618 => String::from_str("SQLITE_IOERR_SHMOPEN"),
        4874 => String::from_str("SQLITE_IOERR_SHMSIZE"),
        5130 => String::from_str("SQLITE_IOERR_SHMLOCK"),
        5386 => String::from_str("SQLITE_IOERR_SHMMAP"),
        5642 => String::from_str("SQLITE_IOERR_SEEK"),
        5898 => String::from_str("SQLITE_IOERR_DELETE_NOENT"),
        6154 => String::from_str("SQLITE_IOERR_MMAP"),
        6410 => String::from_str("SQLITE_IOERR_GETTEMPPATH"),
        6666 => String::from_str("SQLITE_IOERR_CONVPATH"),
        6922 => String::from_str("SQLITE_IOERR_VNODE"),
        7178 => String::from_str("SQLITE_IOERR_AUTH"),
        262 => String::from_str("SQLITE_LOCKED_SHAREDCACHE"),
        261 => String::from_str("SQLITE_BUSY_RECOVERY"),
        517 => String::from_str("SQLITE_BUSY_SNAPSHOT"),
        270 => String::from_str("SQLITE_CANTOPEN_NOTEMPDIR"),
        526 => String::from_str("SQLITE_CANTOPEN_ISDIR"),
        782 => String::from_str("SQLITE_CANTOPEN_FULLPATH"),
        1038 => String::from_str("SQLITE_CANTOPEN_CONVPATH"),
        267 => String::from_str("SQLITE_CORRUPT_VTAB"),
        264 => String::from_str("SQLITE_READONLY_RECOVERY"),
        520 => String::from_str("SQLITE_READONLY_CANTLOCK"),
        776 => String::from_str("SQLITE_READONLY_ROLLBACK"),
        1032 => String::from_str("SQLITE_READONLY_DBMOVED"),
        516 => String::from_str("SQLITE_ABORT_ROLLBACK"),
        275 => String::from_str("SQLITE_CONSTRAINT_CHECK"),
        531 => String::from_str("SQLITE_CONSTRAINT_COMMITHOOK"),
        787 => String::from_str("SQLITE_CONSTRAINT_FOREIGNKEY"),
        1043 => String::from_str("SQLITE_CONSTRAINT_FUNCTION"),
        1299 => String::from_str("SQLITE_CONSTRAINT_NOTNULL"),
        1555 => String::from_str("SQLITE_CONSTRAINT_PRIMARYKEY"),
        1811 => String::from_str("SQLITE_CONSTRAINT_TRIGGER"),
        2067 => String::from_str("SQLITE_CONSTRAINT_UNIQUE"),
        2323 => String::from_str("SQLITE_CONSTRAINT_VTAB"),
        2579 => String::from_str("SQLITE_CONSTRAINT_ROWID"),
        283 => String::from_str("SQLITE_NOTICE_RECOVER_WAL"),
        539 => String::from_str("SQLITE_NOTICE_RECOVER_ROLLBACK"),
        284 => String::from_str("SQLITE_WARNING_AUTOINDEX"),
        279 => String::from_str("SQLITE_AUTH_USER"),
        256 => String::from_str("SQLITE_OK_LOAD_PERMANENTLY"),
        _ => {
            let mut name = String::from_str("UNKNOWN_SQLITE_ERROR_");
            push_integer(&mut name, code as i64);
            name
        },
    }
}

/// The result code that the engine gives when the authorizer denies an action.
pub const SQLITE_AUTH: i32 = 23;

/// A failure of the engine, as the caller hands it over: either one that
/// carries a result code of the engine, or any other, of which only the
/// message is kept.
#[derive(Debug, Clone, PartialEq, Eq)]
pub enum EngineError {
    SqliteFailure { code: i32, message: String },
    Other { message: String },
}

/// A failure of an operation of the binding.
#[derive(Debug, Clone, PartialEq, Eq)]
pub enum Error {
    /// The operation needs the connection, and the database was closed.
    ConnectionClosed,
    /// A failure with a symbolic code and the raw code of the engine.
    Sqlite { message: String, code: String, raw_code: i32 },
    /// A host value that cannot be bound.
    Bind(BindError),
    /// Raw mode was asked of a statement that returns no data.
    RawWithoutData,
    /// A rule of an authorizer that neither allows nor denies.
    InvalidRule { table: String, value: i32 },
    /// A row that has no value for one of its columns.
    InvalidColumnIndex,
}

/// What an [`Error`] holds.
pub enum ErrorData {
    ConnectionClosed,
    Sqlite { message: Seq<char>, code: Seq<char>, raw_code: i32 },
    Bind(BindError),
    RawWithoutData,
    InvalidRule { table: Seq<char>, value: i32 },
    InvalidColumnIndex,
}

impl View for Error {
    type V = ErrorData;

    open spec fn view(&self) -> ErrorData {
        match *self {
            Error::ConnectionClosed => ErrorData::ConnectionClosed,
            Error::Sqlite { message, code, raw_code } => ErrorData::Sqlite {
                message: message@,
                code: code@,
                raw_code,
            },
            Error::Bind(e) => ErrorData::Bind(e),
            Error::RawWithoutData => ErrorData::RawWithoutData,
            Error::InvalidRule { table, value } => ErrorData::InvalidRule { table: table@, value },
            Error::InvalidColumnIndex => ErrorData::InvalidColumnIndex,
        }
    }
}

/// The failure that is reported for a failure of the engine. One with a
/// result code keeps the code, under its symbolic name too, and its message;
/// but a denial by the authorizer is given a message of its own. Any other is
/// reported under the generic error code.
pub open spec fn engine_failure(err: EngineError) -> ErrorData {
    match err {
        EngineError::SqliteFailure { code, message } => ErrorData::Sqlite {
            message: if code == SQLITE_AUTH {
                "Authorization denied by JS authorizer"@
            } else {
                message@
            },
            code: code_name(code as int),
            raw_code: code,
        },
        EngineError::Other { message } => ErrorData::Sqlite {
            message: message@,
            code: "SQLITE_ERROR"@,
            raw_code: 1,
        },
    }
}

/// The message of a value that cannot be bound.
pub open spec fn bind_message(e: BindError) -> Seq<char> {
    match e {
        BindError::OutOfRange => "BigInt value is out of range for SQLite INTEGER (i64)"@,
        BindError::TypedArrayOutOfBounds => "TypedArray length out of bounds"@,
        BindError::Unsupported => "SQLite3 can only bind numbers, strings, bigints, buffers, and null"@,
    }
}

/// The message of a failure, for a reader.
pub open spec fn spec_message(e: ErrorData) -> Seq<char> {
    match e {
        ErrorData::ConnectionClosed => "The database connection is not open"@,
        ErrorData::Sqlite { message, .. } => message,
        ErrorData::Bind(e) => bind_message(e),
        ErrorData::RawWithoutData => "The raw() method is only for statements that return data"@,
        ErrorData::InvalidRule { table, value } => "Invalid authorization rule value '"@
            + decimal_text(value as int) + "' for table '"@ + table
            + "'. Expected 0 (ALLOW) or 1 (DENY)."@,
        ErrorData::InvalidColumnIndex => "invalid column index"@,
    }
}

/// The symbolic code and the raw code of a failure, for the failures that
/// carry them. A closed connection is reported under a code of its own.
pub open spec fn spec_codes(e: ErrorData) -> Option<(Seq<char>, i32)> {
    match e {
        ErrorData::ConnectionClosed => Some(("SQLITE_NOTOPEN"@, 0i32)),
        ErrorData::Sqlite { code, raw_code, .. } => Some((code, raw_code)),
        _ => None,
    }
}

/// The text of a JSON object with four members, as `serde_json` writes it:
/// two with a string value, one with a boolean and one with a number.
pub uninterp spec fn json_object_text(
    key1: Seq<char>,
    value1: Seq<char>,
    key2: Seq<char>,
    value2: bool,
    key3: Seq<char>,
    value3: Seq<char>,
    key4: Seq<char>,
    value4: int,
) -> Seq<char>;

/// The reason that the host is handed for a failure: for one that carries
/// codes, the JSON object that holds the message, the mark of an engine error
/// and both codes; for any other, the message.
pub open spec fn spec_reason(e: ErrorData) -> Seq<char> {
    match spec_codes(e) {
        Some((code, raw_code)) => json_object_text(
            "message"@,
            spec_message(e),
            "libsqlError"@,
            true,
            "code"@,
            code,
            "rawCode"@,
            raw_code as int,
        ),
        None => spec_message(e),
    }
}

/// Writes a JSON object with four members. Calls `serde_json::Map::insert`
/// for each member and `to_string` of the `serde_json::Value` that holds the
/// map. The result is that text, which depends on the keys and values alone;
/// nothing more is claimed of it.
#[verifier::external_body]
fn json_object(
    key1: &str,
    value1: &str,
    key2: &str,
    value2: bool,
    key3: &str,
    value3: &str,
    key4: &str,
    value4: i32,
) -> (text: String)
    ensures
        text@ == json_object_text(key1@, value1@, key2@, value2, key3@, value3@, key4@, value4 as int),
{
    let mut object = serde_json::Map::new();
    object.insert(key1.to_owned(), serde_json::Value::from(value1));
    object.insert(key2.to_owned(), serde_json::Value::from(value2));
    object.insert(key3.to_owned(), serde_json::Value::from(value3));
    object.insert(key4.to_owned(), serde_json::Value::from(value4));
    serde_json::Value::Object(object).to_string()
}

/// The failure with the given message and codes.
pub fn throw_sqlite_error(message: String, code: String, raw_code: i32) -> (e: Error)
    ensures
        e@ == (ErrorData::Sqlite { message: message@, code: code@, raw_code }),
{
    Error::Sqlite { message, code, raw_code }
}

/// The failure of an operation that found the connection closed.
pub fn throw_database_closed_error() -> (e: Error)
    ensures
        e@ == ErrorData::ConnectionClosed,
{
    Error::ConnectionClosed
}

/// The failure that is reported for a failure of the engine.
pub fn throw_libsql_error(err: EngineError) -> (e: Error)
    ensures
        e@ == engine_failure(err),
{
    match err {
        EngineError::SqliteFailure { code, message } => {
            let name = map_sqlite_code(code);
            if code == SQLITE_AUTH {
                Error::Sqlite {
                    message: String::from_str("Authorization denied by JS authorizer"),
                    code: name,
                    raw_code: code,
                }
            } else {
                Error::Sqlite { message, code: name, raw_code: code }
            }
        },
        EngineError::Other { message } => Error::Sqlite {
            message,
            code: String::from_str("SQLITE_ERROR"),
            raw_code: 1,
        },
    }
}

impl BindError {
    /// The message of this failure.
    pub fn message(&self) -> (text: String)
        ensures
            text@ == bind_message(*self),
    {
        match self {
            BindError::OutOfRange => String::from_str(
                "BigInt value is out of range for SQLite INTEGER (i64)",
            ),
            BindError::TypedArrayOutOfBounds => String::from_str("TypedArray length out of bounds"),
            BindError::Unsupported => String::from_str(
                "SQLite3 can only bind numbers, strings, bigints, buffers, and null",
            ),
        }
    }
}

impl Error {
    /// The message of this failure, for a reader.
    pub fn message(&self) -> (text: String)
        ensures
            text@ == spec_message(self@),
    {
        match self {
            Error::ConnectionClosed => String::from_str("The database connection is not open"),
            Error::Sqlite { message, .. } => message.clone(),
            Error::Bind(e) => e.message(),
            Error::RawWithoutData => String::from_str(
                "The raw() method is only for statements that return data",
            ),
            Error::InvalidRule { table, value } => {
                let mut text = String::from_str("Invalid authorization rule value '");
                push_integer(&mut text, *value as i64);
                text.append("' for table '");
                text.append(table.as_str());
                text.append("'. Expected 0 (ALLOW) or 1 (DENY).");
                text
            },
            Error::InvalidColumnIndex => String::from_str("invalid column index"),
        }
    }

    /// The reason that the host is handed for this failure.
    pub fn reason(&self) -> (text: String)
        ensures
            text@ == spec_reason(self@),
    {
        let message = self.message();
        match self {
            Error::ConnectionClosed => json_object(
                "message",
                message.as_str(),
                "libsqlError",
                true,
                "code",
                "SQLITE_NOTOPEN",
                "rawCode",
                0,
            ),
            Error::Sqlite { code, raw_code, .. } => json_object(
                "message",
                message.as_str(),
                "libsqlError",
                true,
                "code",
                code.as_str(),
                "rawCode",
                *raw_code,
            ),
            _ => message,
        }
    }
}

} // verus!
