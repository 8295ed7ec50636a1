//! The error surface: the structured engine-error payload, the fixed
//! numeric-code-to-symbolic-name table, and the locally detected error
//! conditions (binding, lifecycle, mode configuration).
use vstd::prelude::*;
use crate::text::{dec_int, push_dec_i64};

verus! {

/// The structured payload in which every engine failure reaches the caller.
/// `message` carries the engine's own text verbatim.
#[derive(Clone, Debug)]
pub struct SqliteError {
    pub message: String,
    pub code: String,
    pub raw_code: i32,
}

/// A caller value that could not be encoded for binding.
#[derive(Clone, Copy, Debug, PartialEq, Eq, Structural)]
pub enum BindError {
    /// The value's shape has no projection onto the engine's value model.
    Unsupported,
    /// A big integer outside the signed 64-bit range.
    BigIntOutOfRange,
    /// A typed byte view whose offset and length overrun its backing buffer.
    TypedViewOutOfBounds,
}

/// Every failure this library detects locally or passes through.
#[derive(Clone, Debug)]
pub enum ShimError {
    /// An operation was attempted on a closed connection.
    Closed,
    /// A caller value could not be bound.
    Bind(BindError),
    /// Raw mode was requested on a statement with no output columns.
    RawNoColumns,
    /// A failure reported by the engine, passed through unmodified.
    Engine(SqliteError),
}

/// The symbolic name of an engine result code; unrecognized codes get a
/// synthesized name that embeds the numeric code.
pub open spec fn sqlite_code_name(code: int) -> Seq<char> {
    if code == 0 {
        "SQLITE_OK"@
    } else if code == 1 {
        "SQLITE_ERROR"@
    } else if code == 2 {
        "SQLITE_INTERNAL"@
    } else if code == 3 {
        "SQLITE_PERM"@
    } else if code == 4 {
        "SQLITE_ABORT"@
    } else if code == 5 {
        "SQLITE_BUSY"@
    } else if code == 6 {
        "SQLITE_LOCKED"@
    } else if code == 7 {
        "SQLITE_NOMEM"@
    } else if code == 8 {
        "SQLITE_READONLY"@
    } else if code == 9 {
        "SQLITE_INTERRUPT"@
    } else if code == 10 {
        "SQLITE_IOERR"@
    } else if code == 11 {
        "SQLITE_CORRUPT"@
    } else if code == 12 {
        "SQLITE_NOTFOUND"@
    } else if code == 13 {
        "SQLITE_FULL"@
    } else if code == 14 {
        "SQLITE_CANTOPEN"@
    } else if code == 15 {
        "SQLITE_PROTOCOL"@
    } else if code == 16 {
        "SQLITE_EMPTY"@
    } else if code == 17 {
        "SQLITE_SCHEMA"@
    } else if code == 18 {
        "SQLITE_TOOBIG"@
    } else if code == 19 {
        "SQLITE_CONSTRAINT"@
    } else if code == 20 {
        "SQLITE_MISMATCH"@
    } else if code == 21 {
        "SQLITE_MISUSE"@
    } else if code == 22 {
        "SQLITE_NOLFS"@
    } else if code == 23 {
        "SQLITE_AUTH"@
    } else if code == 24 {
        "SQLITE_FORMAT"@
    } else if code == 25 {
        "SQLITE_RANGE"@
    } else if code == 26 {
        "SQLITE_NOTADB"@
    } else if code == 27 {
        "SQLITE_NOTICE"@
    } else if code == 28 {
        "SQLITE_WARNING"@
    } else if code == 100 {
        "SQLITE_ROW"@
    } else if code == 101 {
        "SQLITE_DONE"@
    } else if code == 266 {
        "SQLITE_IOERR_READ"@
    } else if code == 522 {
        "SQLITE_IOERR_SHORT_READ"@
    } else if code == 778 {
        "SQLITE_IOERR_WRITE"@
    } else if code == 1034 {
        "SQLITE_IOERR_FSYNC"@
    } else if code == 1290 {
        "SQLITE_IOERR_DIR_FSYNC"@
    } else if code == 1546 {
        "SQLITE_IOERR_TRUNCATE"@
    } else if code == 1802 {
        "SQLITE_IOERR_FSTAT"@
    } else if code == 2058 {
        "SQLITE_IOERR_UNLOCK"@
    } else if code == 2314 {
        "SQLITE_IOERR_RDLOCK"@
    } else if code == 2570 {
        "SQLITE_IOERR_DELETE"@
    } else if code == 2826 {
        "SQLITE_IOERR_BLOCKED"@
    } else if code == 3082 {
        "SQLITE_IOERR_NOMEM"@
    } else if code == 3338 {
        "SQLITE_IOERR_ACCESS"@
    } else if code == 3594 {
        "SQLITE_IOERR_CHECKRESERVEDLOCK"@
    } else if code == 3850 {
        "SQLITE_IOERR_LOCK"@
    } else if code == 4106 {
        "SQLITE_IOERR_CLOSE"@
    } else if code == 4362 {
        "SQLITE_IOERR_DIR_CLOSE"@
    } else if code == 4618 {
        "SQLITE_IOERR_SHMOPEN"@
    } else if code == 4874 {
        "SQLITE_IOERR_SHMSIZE"@
    } else if code == 5130 {
        "SQLITE_IOERR_SHMLOCK"@
    } else if code == 5386 {
        "SQLITE_IOERR_SHMMAP"@
    } else if code == 5642 {
        "SQLITE_IOERR_SEEK"@
    } else if code == 5898 {
        "SQLITE_IOERR_DELETE_NOENT"@
    } else if code == 6154 {
        "SQLITE_IOERR_MMAP"@
    } else if code == 6410 {
        "SQLITE_IOERR_GETTEMPPATH"@
    } else if code == 6666 {
        "SQLITE_IOERR_CONVPATH"@
    } else if code == 6922 {
        "SQLITE_IOERR_VNODE"@
    } else if code == 7178 {
        "SQLITE_IOERR_AUTH"@
    } else if code == 262 {
        "SQLITE_LOCKED_SHAREDCACHE"@
    } else if code == 261 {
        "SQLITE_BUSY_RECOVERY"@
    } else if code == 517 {
        "SQLITE_BUSY_SNAPSHOT"@
    } else if code == 270 {
        "SQLITE_CANTOPEN_NOTEMPDIR"@
    } else if code == 526 {
        "SQLITE_CANTOPEN_ISDIR"@
    } else if code == 782 {
        "SQLITE_CANTOPEN_FULLPATH"@
    } else if code == 1038 {
        "SQLITE_CANTOPEN_CONVPATH"@
    } else if code == 267 {
        "SQLITE_CORRUPT_VTAB"@
    } else if code == 264 {
        "SQLITE_READONLY_RECOVERY"@
    } else if code == 520 {
        "SQLITE_READONLY_CANTLOCK"@
    } else if code == 776 {
        "SQLITE_READONLY_ROLLBACK"@
    } else if code == 1032 {
        "SQLITE_READONLY_DBMOVED"@
    } else if code == 516 {
        "SQLITE_ABORT_ROLLBACK"@
    } else if code == 275 {
        "SQLITE_CONSTRAINT_CHECK"@
    } else if code == 531 {
        "SQLITE_CONSTRAINT_COMMITHOOK"@
    } else if code == 787 {
        "SQLITE_CONSTRAINT_FOREIGNKEY"@
    } else if code == 1043 {
        "SQLITE_CONSTRAINT_FUNCTION"@
    } else if code == 1299 {
        "SQLITE_CONSTRAINT_NOTNULL"@
    } else if code == 1555 {
        "SQLITE_CONSTRAINT_PRIMARYKEY"@
    } else if code == 1811 {
        "SQLITE_CONSTRAINT_TRIGGER"@
    } else if code == 2067 {
        "SQLITE_CONSTRAINT_UNIQUE"@
    } else if code == 2323 {
        "SQLITE_CONSTRAINT_VTAB"@
    } else if code == 2579 {
        "SQLITE_CONSTRAINT_ROWID"@
    } else if code == 283 {
        "SQLITE_NOTICE_RECOVER_WAL"@
    } else if code == 539 {
        "SQLITE_NOTICE_RECOVER_ROLLBACK"@
    } else if code == 284 {
        "SQLITE_WARNING_AUTOINDEX"@
    } else if code == 279 {
        "SQLITE_AUTH_USER"@
    } else if code == 256 {
        "SQLITE_OK_LOAD_PERMANENTLY"@
    } else {
        "UNKNOWN_SQLITE_ERROR_"@ + dec_int(code)
    }
}

/// Maps a numeric engine result code to its symbolic name.
pub fn map_sqlite_code(code: i32) -> (r: String)
    ensures
        r@ == sqlite_code_name(code as int),
{
    if code == 0 {
        "SQLITE_OK".to_owned()
    } else if code == 1 {
        "SQLITE_ERROR".to_owned()
    } else if code == 2 {
        "SQLITE_INTERNAL".to_owned()
    } else if code == 3 {
        "SQLITE_PERM".to_owned()
    } else if code == 4 {
        "SQLITE_ABORT".to_owned()
    } else if code == 5 {
        "SQLITE_BUSY".to_owned()
    } else if code == 6 {
        "SQLITE_LOCKED".to_owned()
    } else if code == 7 {
        "SQLITE_NOMEM".to_owned()
    } else if code == 8 {
        "SQLITE_READONLY".to_owned()
    } else if code == 9 {
        "SQLITE_INTERRUPT".to_owned()
    } else if code == 10 {
        "SQLITE_IOERR".to_owned()
    } else if code == 11 {
        "SQLITE_CORRUPT".to_owned()
    } else if code == 12 {
        "SQLITE_NOTFOUND".to_owned()
    } else if code == 13 {
        "SQLITE_FULL".to_owned()
    } else if code == 14 {
        "SQLITE_CANTOPEN".to_owned()
    } else if code == 15 {
        "SQLITE_PROTOCOL".to_owned()
    } else if code == 16 {
        "SQLITE_EMPTY".to_owned()
    } else if code == 17 {
        "SQLITE_SCHEMA".to_owned()
    } else if code == 18 {
        "SQLITE_TOOBIG".to_owned()
    } else if code == 19 {
        "SQLITE_CONSTRAINT".to_owned()
    } else if code == 20 {
        "SQLITE_MISMATCH".to_owned()
    } else if code == 21 {
        "SQLITE_MISUSE".to_owned()
    } else if code == 22 {
        "SQLITE_NOLFS".to_owned()
    } else if code == 23 {
        "SQLITE_AUTH".to_owned()
    } else if code == 24 {
        "SQLITE_FORMAT".to_owned()
    } else if code == 25 {
        "SQLITE_RANGE".to_owned()
    } else if code == 26 {
        "SQLITE_NOTADB".to_owned()
    } else if code == 27 {
        "SQLITE_NOTICE".to_owned()
    } else if code == 28 {
        "SQLITE_WARNING".to_owned()
    } else if code == 100 {
        "SQLITE_ROW".to_owned()
    } else if code == 101 {
        "SQLITE_DONE".to_owned()
    } else if code == 266 {
        "SQLITE_IOERR_READ".to_owned()
    } else if code == 522 {
        "SQLITE_IOERR_SHORT_READ".to_owned()
    } else if code == 778 {
        "SQLITE_IOERR_WRITE".to_owned()
    } else if code == 1034 {
        "SQLITE_IOERR_FSYNC".to_owned()
    } else if code == 1290 {
        "SQLITE_IOERR_DIR_FSYNC".to_owned()
    } else if code == 1546 {
        "SQLITE_IOERR_TRUNCATE".to_owned()
    } else if code == 1802 {
        "SQLITE_IOERR_FSTAT".to_owned()
    } else if code == 2058 {
        "SQLITE_IOERR_UNLOCK".to_owned()
    } else if code == 2314 {
        "SQLITE_IOERR_RDLOCK".to_owned()
    } else if code == 2570 {
        "SQLITE_IOERR_DELETE".to_owned()
    } else if code == 2826 {
        "SQLITE_IOERR_BLOCKED".to_owned()
    } else if code == 3082 {
        "SQLITE_IOERR_NOMEM".to_owned()
    } else if code == 3338 {
        "SQLITE_IOERR_ACCESS".to_owned()
    } else if code == 3594 {
        "SQLITE_IOERR_CHECKRESERVEDLOCK".to_owned()
    } else if code == 3850 {
        "SQLITE_IOERR_LOCK".to_owned()
    } else if code == 4106 {
        "SQLITE_IOERR_CLOSE".to_owned()
    } else if code == 4362 {
        "SQLITE_IOERR_DIR_CLOSE".to_owned()
    } else if code == 4618 {
        "SQLITE_IOERR_SHMOPEN".to_owned()
    } else if code == 4874 {
        "SQLITE_IOERR_SHMSIZE".to_owned()
    } else if code == 5130 {
        "SQLITE_IOERR_SHMLOCK".to_owned()
    } else if code == 5386 {
        "SQLITE_IOERR_SHMMAP".to_owned()
    } else if code == 5642 {
        "SQLITE_IOERR_SEEK".to_owned()
    } else if code == 5898 {
        "SQLITE_IOERR_DELETE_NOENT".to_owned()
    } else if code == 6154 {
        "SQLITE_IOERR_MMAP".to_owned()
    } else if code == 6410 {
        "SQLITE_IOERR_GETTEMPPATH".to_owned()
    } else if code == 6666 {
        "SQLITE_IOERR_CONVPATH".to_owned()
    } else if code == 6922 {
        "SQLITE_IOERR_VNODE".to_owned()
    } else if code == 7178 {
        "SQLITE_IOERR_AUTH".to_owned()
    } else if code == 262 {
        "SQLITE_LOCKED_SHAREDCACHE".to_owned()
    } else if code == 261 {
        "SQLITE_BUSY_RECOVERY".to_owned()
    } else if code == 517 {
        "SQLITE_BUSY_SNAPSHOT".to_owned()
    } else if code == 270 {
        "SQLITE_CANTOPEN_NOTEMPDIR".to_owned()
    } else if code == 526 {
        "SQLITE_CANTOPEN_ISDIR".to_owned()
    } else if code == 782 {
        "SQLITE_CANTOPEN_FULLPATH".to_owned()
    } else if code == 1038 {
        "SQLITE_CANTOPEN_CONVPATH".to_owned()
    } else if code == 267 {
        "SQLITE_CORRUPT_VTAB".to_owned()
    } else if code == 264 {
        "SQLITE_READONLY_RECOVERY".to_owned()
    } else if code == 520 {
        "SQLITE_READONLY_CANTLOCK".to_owned()
    } else if code == 776 {
        "SQLITE_READONLY_ROLLBACK".to_owned()
    } else if code == 1032 {
        "SQLITE_READONLY_DBMOVED".to_owned()
    } else if code == 516 {
        "SQLITE_ABORT_ROLLBACK".to_owned()
    } else if code == 275 {
        "SQLITE_CONSTRAINT_CHECK".to_owned()
    } else if code == 531 {
        "SQLITE_CONSTRAINT_COMMITHOOK".to_owned()
    } else if code == 787 {
        "SQLITE_CONSTRAINT_FOREIGNKEY".to_owned()
    } else if code == 1043 {
        "SQLITE_CONSTRAINT_FUNCTION".to_owned()
    } else if code == 1299 {
        "SQLITE_CONSTRAINT_NOTNULL".to_owned()
    } else if code == 1555 {
        "SQLITE_CONSTRAINT_PRIMARYKEY".to_owned()
    } else if code == 1811 {
        "SQLITE_CONSTRAINT_TRIGGER".to_owned()
    } else if code == 2067 {
        "SQLITE_CONSTRAINT_UNIQUE".to_owned()
    } else if code == 2323 {
        "SQLITE_CONSTRAINT_VTAB".to_owned()
    } else if code == 2579 {
        "SQLITE_CONSTRAINT_ROWID".to_owned()
    } else if code == 283 {
        "SQLITE_NOTICE_RECOVER_WAL".to_owned()
    } else if code == 539 {
        "SQLITE_NOTICE_RECOVER_ROLLBACK".to_owned()
    } else if code == 284 {
        "SQLITE_WARNING_AUTOINDEX".to_owned()
    } else if code == 279 {
        "SQLITE_AUTH_USER".to_owned()
    } else if code == 256 {
        "SQLITE_OK_LOAD_PERMANENTLY".to_owned()
    } else {
        let mut s = "UNKNOWN_SQLITE_ERROR_".to_owned();
        push_dec_i64(&mut s, code as i64);
        proof {
            assert(s@ =~= sqlite_code_name(code as int));
        }
        s
    }
}

/// Builds the structured engine-error payload from its parts; the message
/// text is taken over unchanged.
pub fn throw_sqlite_error(message: String, code: String, raw_code: i32) -> (e: SqliteError)
    ensures
        e.message == message,
        e.code == code,
        e.raw_code == raw_code,
{
    SqliteError { message, code, raw_code }
}

/// Builds the payload for an engine failure reported with a raw numeric
/// code: the symbolic code comes from the fixed table, the message is kept
/// verbatim.
pub fn sqlite_failure_to_error(raw_code: i32, message: String) -> (e: SqliteError)
    ensures
        e.message@ == message@,
        e.code@ == sqlite_code_name(raw_code as int),
        e.raw_code == raw_code,
{
    let code = map_sqlite_code(raw_code);
    SqliteError { message, code, raw_code }
}

/// The message text of each locally detected error condition; an engine
/// failure keeps its own message.
pub open spec fn shim_error_message(e: ShimError) -> Seq<char> {
    match e {
        ShimError::Closed => "The database connection is not open"@,
        ShimError::Bind(BindError::Unsupported) => "SQLite3 can only bind numbers, strings, bigints, buffers, and null"@,
        ShimError::Bind(BindError::BigIntOutOfRange) => "BigInt value is out of range for SQLite INTEGER (i64)"@,
        ShimError::Bind(BindError::TypedViewOutOfBounds) => "TypedArray length out of bounds"@,
        ShimError::RawNoColumns => "The raw() method is only for statements that return data"@,
        ShimError::Engine(err) => err.message@,
    }
}

impl ShimError {
    /// The caller-facing message text for this error.
    pub fn message(&self) -> (r: String)
        ensures
            r@ == shim_error_message(*self),
    {
        match self {
            ShimError::Closed => "The database connection is not open".to_owned(),
            ShimError::Bind(BindError::Unsupported) => "SQLite3 can only bind numbers, strings, bigints, buffers, and null".to_owned(),
            ShimError::Bind(BindError::BigIntOutOfRange) => "BigInt value is out of range for SQLite INTEGER (i64)".to_owned(),
            ShimError::Bind(BindError::TypedViewOutOfBounds) => "TypedArray length out of bounds".to_owned(),
            ShimError::RawNoColumns => "The raw() method is only for statements that return data".to_owned(),
            ShimError::Engine(err) => err.message.clone(),
        }
    }
}

} // verus!
