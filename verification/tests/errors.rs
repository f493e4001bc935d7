use libsql_js::errors::{
    map_sqlite_code, throw_database_closed_error, throw_libsql_error, throw_sqlite_error,
    EngineError, Error, SQLITE_AUTH,
};
use libsql_js::text::{has_prefix, push_decimal, push_integer, skip_first};
use libsql_js::value::BindError;

#[test]
fn every_code_of_the_engine_has_its_name() {
    let table: Vec<(i32, &str)> = vec![
        (libsql::ffi::SQLITE_OK, "SQLITE_OK"),
        (libsql::ffi::SQLITE_ERROR, "SQLITE_ERROR"),
        (libsql::ffi::SQLITE_INTERNAL, "SQLITE_INTERNAL"),
        (libsql::ffi::SQLITE_PERM, "SQLITE_PERM"),
        (libsql::ffi::SQLITE_ABORT, "SQLITE_ABORT"),
        (libsql::ffi::SQLITE_BUSY, "SQLITE_BUSY"),
        (libsql::ffi::SQLITE_LOCKED, "SQLITE_LOCKED"),
        (libsql::ffi::SQLITE_NOMEM, "SQLITE_NOMEM"),
        (libsql::ffi::SQLITE_READONLY, "SQLITE_READONLY"),
        (libsql::ffi::SQLITE_INTERRUPT, "SQLITE_INTERRUPT"),
        (libsql::ffi::SQLITE_IOERR, "SQLITE_IOERR"),
        (libsql::ffi::SQLITE_CORRUPT, "SQLITE_CORRUPT"),
        (libsql::ffi::SQLITE_NOTFOUND, "SQLITE_NOTFOUND"),
        (libsql::ffi::SQLITE_FULL, "SQLITE_FULL"),
        (libsql::ffi::SQLITE_CANTOPEN, "SQLITE_CANTOPEN"),
        (libsql::ffi::SQLITE_PROTOCOL, "SQLITE_PROTOCOL"),
        (libsql::ffi::SQLITE_EMPTY, "SQLITE_EMPTY"),
        (libsql::ffi::SQLITE_SCHEMA, "SQLITE_SCHEMA"),
        (libsql::ffi::SQLITE_TOOBIG, "SQLITE_TOOBIG"),
        (libsql::ffi::SQLITE_CONSTRAINT, "SQLITE_CONSTRAINT"),
        (libsql::ffi::SQLITE_MISMATCH, "SQLITE_MISMATCH"),
        (libsql::ffi::SQLITE_MISUSE, "SQLITE_MISUSE"),
        (libsql::ffi::SQLITE_NOLFS, "SQLITE_NOLFS"),
        (libsql::ffi::SQLITE_AUTH, "SQLITE_AUTH"),
        (libsql::ffi::SQLITE_FORMAT, "SQLITE_FORMAT"),
        (libsql::ffi::SQLITE_RANGE, "SQLITE_RANGE"),
        (libsql::ffi::SQLITE_NOTADB, "SQLITE_NOTADB"),
        (libsql::ffi::SQLITE_NOTICE, "SQLITE_NOTICE"),
        (libsql::ffi::SQLITE_WARNING, "SQLITE_WARNING"),
        (libsql::ffi::SQLITE_ROW, "SQLITE_ROW"),
        (libsql::ffi::SQLITE_DONE, "SQLITE_DONE"),
        (libsql::ffi::SQLITE_IOERR_READ, "SQLITE_IOERR_READ"),
        (libsql::ffi::SQLITE_IOERR_SHORT_READ, "SQLITE_IOERR_SHORT_READ"),
        (libsql::ffi::SQLITE_IOERR_WRITE, "SQLITE_IOERR_WRITE"),
        (libsql::ffi::SQLITE_IOERR_FSYNC, "SQLITE_IOERR_FSYNC"),
        (libsql::ffi::SQLITE_IOERR_DIR_FSYNC, "SQLITE_IOERR_DIR_FSYNC"),
        (libsql::ffi::SQLITE_IOERR_TRUNCATE, "SQLITE_IOERR_TRUNCATE"),
        (libsql::ffi::SQLITE_IOERR_FSTAT, "SQLITE_IOERR_FSTAT"),
        (libsql::ffi::SQLITE_IOERR_UNLOCK, "SQLITE_IOERR_UNLOCK"),
        (libsql::ffi::SQLITE_IOERR_RDLOCK, "SQLITE_IOERR_RDLOCK"),
        (libsql::ffi::SQLITE_IOERR_DELETE, "SQLITE_IOERR_DELETE"),
        (libsql::ffi::SQLITE_IOERR_BLOCKED, "SQLITE_IOERR_BLOCKED"),
        (libsql::ffi::SQLITE_IOERR_NOMEM, "SQLITE_IOERR_NOMEM"),
        (libsql::ffi::SQLITE_IOERR_ACCESS, "SQLITE_IOERR_ACCESS"),
        (libsql::ffi::SQLITE_IOERR_CHECKRESERVEDLOCK, "SQLITE_IOERR_CHECKRESERVEDLOCK"),
        (libsql::ffi::SQLITE_IOERR_LOCK, "SQLITE_IOERR_LOCK"),
        (libsql::ffi::SQLITE_IOERR_CLOSE, "SQLITE_IOERR_CLOSE"),
        (libsql::ffi::SQLITE_IOERR_DIR_CLOSE, "SQLITE_IOERR_DIR_CLOSE"),
        (libsql::ffi::SQLITE_IOERR_SHMOPEN, "SQLITE_IOERR_SHMOPEN"),
        (libsql::ffi::SQLITE_IOERR_SHMSIZE, "SQLITE_IOERR_SHMSIZE"),
        (libsql::ffi::SQLITE_IOERR_SHMLOCK, "SQLITE_IOERR_SHMLOCK"),
        (libsql::ffi::SQLITE_IOERR_SHMMAP, "SQLITE_IOERR_SHMMAP"),
        (libsql::ffi::SQLITE_IOERR_SEEK, "SQLITE_IOERR_SEEK"),
        (libsql::ffi::SQLITE_IOERR_DELETE_NOENT, "SQLITE_IOERR_DELETE_NOENT"),
        (libsql::ffi::SQLITE_IOERR_MMAP, "SQLITE_IOERR_MMAP"),
        (libsql::ffi::SQLITE_IOERR_GETTEMPPATH, "SQLITE_IOERR_GETTEMPPATH"),
        (libsql::ffi::SQLITE_IOERR_CONVPATH, "SQLITE_IOERR_CONVPATH"),
        (libsql::ffi::SQLITE_IOERR_VNODE, "SQLITE_IOERR_VNODE"),
        (libsql::ffi::SQLITE_IOERR_AUTH, "SQLITE_IOERR_AUTH"),
        (libsql::ffi::SQLITE_LOCKED_SHAREDCACHE, "SQLITE_LOCKED_SHAREDCACHE"),
        (libsql::ffi::SQLITE_BUSY_RECOVERY, "SQLITE_BUSY_RECOVERY"),
        (libsql::ffi::SQLITE_BUSY_SNAPSHOT, "SQLITE_BUSY_SNAPSHOT"),
        (libsql::ffi::SQLITE_CANTOPEN_NOTEMPDIR, "SQLITE_CANTOPEN_NOTEMPDIR"),
        (libsql::ffi::SQLITE_CANTOPEN_ISDIR, "SQLITE_CANTOPEN_ISDIR"),
        (libsql::ffi::SQLITE_CANTOPEN_FULLPATH, "SQLITE_CANTOPEN_FULLPATH"),
        (libsql::ffi::SQLITE_CANTOPEN_CONVPATH, "SQLITE_CANTOPEN_CONVPATH"),
        (libsql::ffi::SQLITE_CORRUPT_VTAB, "SQLITE_CORRUPT_VTAB"),
        (libsql::ffi::SQLITE_READONLY_RECOVERY, "SQLITE_READONLY_RECOVERY"),
        (libsql::ffi::SQLITE_READONLY_CANTLOCK, "SQLITE_READONLY_CANTLOCK"),
        (libsql::ffi::SQLITE_READONLY_ROLLBACK, "SQLITE_READONLY_ROLLBACK"),
        (libsql::ffi::SQLITE_READONLY_DBMOVED, "SQLITE_READONLY_DBMOVED"),
        (libsql::ffi::SQLITE_ABORT_ROLLBACK, "SQLITE_ABORT_ROLLBACK"),
        (libsql::ffi::SQLITE_CONSTRAINT_CHECK, "SQLITE_CONSTRAINT_CHECK"),
        (libsql::ffi::SQLITE_CONSTRAINT_COMMITHOOK, "SQLITE_CONSTRAINT_COMMITHOOK"),
        (libsql::ffi::SQLITE_CONSTRAINT_FOREIGNKEY, "SQLITE_CONSTRAINT_FOREIGNKEY"),
        (libsql::ffi::SQLITE_CONSTRAINT_FUNCTION, "SQLITE_CONSTRAINT_FUNCTION"),
        (libsql::ffi::SQLITE_CONSTRAINT_NOTNULL, "SQLITE_CONSTRAINT_NOTNULL"),
        (libsql::ffi::SQLITE_CONSTRAINT_PRIMARYKEY, "SQLITE_CONSTRAINT_PRIMARYKEY"),
        (libsql::ffi::SQLITE_CONSTRAINT_TRIGGER, "SQLITE_CONSTRAINT_TRIGGER"),
        (libsql::ffi::SQLITE_CONSTRAINT_UNIQUE, "SQLITE_CONSTRAINT_UNIQUE"),
        (libsql::ffi::SQLITE_CONSTRAINT_VTAB, "SQLITE_CONSTRAINT_VTAB"),
        (libsql::ffi::SQLITE_CONSTRAINT_ROWID, "SQLITE_CONSTRAINT_ROWID"),
        (libsql::ffi::SQLITE_NOTICE_RECOVER_WAL, "SQLITE_NOTICE_RECOVER_WAL"),
        (libsql::ffi::SQLITE_NOTICE_RECOVER_ROLLBACK, "SQLITE_NOTICE_RECOVER_ROLLBACK"),
        (libsql::ffi::SQLITE_WARNING_AUTOINDEX, "SQLITE_WARNING_AUTOINDEX"),
        (libsql::ffi::SQLITE_AUTH_USER, "SQLITE_AUTH_USER"),
        (libsql::ffi::SQLITE_OK_LOAD_PERMANENTLY, "SQLITE_OK_LOAD_PERMANENTLY"),
    ];
    assert_eq!(table.len(), 87);
    for (code, name) in table {
        assert_eq!(map_sqlite_code(code), name);
    }
}

#[test]
fn primary_codes_by_number() {
    let table: Vec<(i32, &str)> = vec![
        (0, "SQLITE_OK"),
        (1, "SQLITE_ERROR"),
        (2, "SQLITE_INTERNAL"),
        (3, "SQLITE_PERM"),
        (4, "SQLITE_ABORT"),
        (5, "SQLITE_BUSY"),
        (6, "SQLITE_LOCKED"),
        (7, "SQLITE_NOMEM"),
        (8, "SQLITE_READONLY"),
        (9, "SQLITE_INTERRUPT"),
        (10, "SQLITE_IOERR"),
        (11, "SQLITE_CORRUPT"),
        (12, "SQLITE_NOTFOUND"),
        (13, "SQLITE_FULL"),
        (14, "SQLITE_CANTOPEN"),
        (15, "SQLITE_PROTOCOL"),
        (16, "SQLITE_EMPTY"),
        (17, "SQLITE_SCHEMA"),
        (18, "SQLITE_TOOBIG"),
        (19, "SQLITE_CONSTRAINT"),
        (20, "SQLITE_MISMATCH"),
        (21, "SQLITE_MISUSE"),
        (22, "SQLITE_NOLFS"),
        (23, "SQLITE_AUTH"),
        (24, "SQLITE_FORMAT"),
        (25, "SQLITE_RANGE"),
        (26, "SQLITE_NOTADB"),
        (27, "SQLITE_NOTICE"),
        (28, "SQLITE_WARNING"),
        (100, "SQLITE_ROW"),
        (101, "SQLITE_DONE"),
    ];
    for (code, name) in table {
        assert_eq!(map_sqlite_code(code), name);
    }
    assert_eq!(map_sqlite_code(266), "SQLITE_IOERR_READ");
    assert_eq!(map_sqlite_code(2067), "SQLITE_CONSTRAINT_UNIQUE");
    assert_eq!(map_sqlite_code(1555), "SQLITE_CONSTRAINT_PRIMARYKEY");
}

#[test]
fn unknown_codes_are_named_by_number() {
    assert_eq!(map_sqlite_code(9999), "UNKNOWN_SQLITE_ERROR_9999");
    assert_eq!(map_sqlite_code(-5), "UNKNOWN_SQLITE_ERROR_-5");
    assert_eq!(map_sqlite_code(30), "UNKNOWN_SQLITE_ERROR_30");
    assert_eq!(map_sqlite_code(99), "UNKNOWN_SQLITE_ERROR_99");
    assert_eq!(map_sqlite_code(i32::MAX), "UNKNOWN_SQLITE_ERROR_2147483647");
    assert_eq!(map_sqlite_code(i32::MIN), "UNKNOWN_SQLITE_ERROR_-2147483648");
}

#[test]
fn unknown_codes_agree_with_formatting() {
    let known: Vec<i32> = vec![0, 1, 2, 3, 4, 5, 6, 7, 8, 9, 10, 11, 12, 13, 14, 15, 16, 17, 18, 19, 20, 21, 22, 23, 24, 25, 26, 27, 28, 100, 101, 266, 522, 778, 1034, 1290, 1546, 1802, 2058, 2314, 2570, 2826, 3082, 3338, 3594, 3850, 4106, 4362, 4618, 4874, 5130, 5386, 5642, 5898, 6154, 6410, 6666, 6922, 7178, 262, 261, 517, 270, 526, 782, 1038, 267, 264, 520, 776, 1032, 516, 275, 531, 787, 1043, 1299, 1555, 1811, 2067, 2323, 2579, 283, 539, 284, 279, 256];
    for code in -300..7000 {
        if !known.contains(&code) {
            assert_eq!(map_sqlite_code(code), format!("UNKNOWN_SQLITE_ERROR_{}", code));
        } else {
            assert!(map_sqlite_code(code).starts_with("SQLITE_"));
        }
    }
}

#[test]
fn the_authorizer_code_is_the_engines() {
    assert_eq!(SQLITE_AUTH, libsql::ffi::SQLITE_AUTH);
}

#[test]
fn an_engine_failure_keeps_code_and_message() {
    let e = throw_libsql_error(EngineError::SqliteFailure {
        code: 19,
        message: "UNIQUE constraint failed: t.id".to_string(),
    });
    assert_eq!(
        e,
        Error::Sqlite {
            message: "UNIQUE constraint failed: t.id".to_string(),
            code: "SQLITE_CONSTRAINT".to_string(),
            raw_code: 19,
        }
    );
    let e = throw_libsql_error(EngineError::SqliteFailure { code: 4242, message: "m".to_string() });
    assert_eq!(
        e,
        Error::Sqlite {
            message: "m".to_string(),
            code: "UNKNOWN_SQLITE_ERROR_4242".to_string(),
            raw_code: 4242,
        }
    );
}

#[test]
fn a_denial_by_the_authorizer_gets_its_own_message() {
    let e = throw_libsql_error(EngineError::SqliteFailure {
        code: 23,
        message: "not authorized".to_string(),
    });
    assert_eq!(
        e,
        Error::Sqlite {
            message: "Authorization denied by JS authorizer".to_string(),
            code: "SQLITE_AUTH".to_string(),
            raw_code: 23,
        }
    );
}

#[test]
fn any_other_engine_failure_is_a_generic_error() {
    let e = throw_libsql_error(EngineError::Other { message: "Null value".to_string() });
    assert_eq!(
        e,
        Error::Sqlite {
            message: "Null value".to_string(),
            code: "SQLITE_ERROR".to_string(),
            raw_code: 1,
        }
    );
}

#[test]
fn constructors_of_failures() {
    assert_eq!(
        throw_sqlite_error("m".to_string(), "C".to_string(), 3),
        Error::Sqlite { message: "m".to_string(), code: "C".to_string(), raw_code: 3 }
    );
    assert_eq!(throw_database_closed_error(), Error::ConnectionClosed);
}

#[test]
fn messages_of_failures() {
    assert_eq!(Error::ConnectionClosed.message(), "The database connection is not open");
    assert_eq!(
        Error::RawWithoutData.message(),
        "The raw() method is only for statements that return data"
    );
    assert_eq!(Error::InvalidColumnIndex.message(), "invalid column index");
    assert_eq!(
        Error::InvalidRule { table: "users".to_string(), value: 2 }.message(),
        "Invalid authorization rule value '2' for table 'users'. Expected 0 (ALLOW) or 1 (DENY)."
    );
    assert_eq!(
        Error::InvalidRule { table: "".to_string(), value: -17 }.message(),
        "Invalid authorization rule value '-17' for table ''. Expected 0 (ALLOW) or 1 (DENY)."
    );
    assert_eq!(
        Error::Bind(BindError::OutOfRange).message(),
        "BigInt value is out of range for SQLite INTEGER (i64)"
    );
    assert_eq!(
        throw_sqlite_error("m".to_string(), "C".to_string(), 3).message(),
        "m"
    );
}

#[test]
fn the_reason_of_an_engine_failure_is_a_json_object() {
    let e = throw_sqlite_error("no such table: t".to_string(), "SQLITE_ERROR".to_string(), 1);
    let reason = e.reason();
    let parsed: serde_json::Value = serde_json::from_str(&reason).unwrap();
    let object = parsed.as_object().unwrap();
    assert_eq!(object.len(), 4);
    assert_eq!(object.get("message").unwrap().as_str(), Some("no such table: t"));
    assert_eq!(object.get("libsqlError").unwrap().as_bool(), Some(true));
    assert_eq!(object.get("code").unwrap().as_str(), Some("SQLITE_ERROR"));
    assert_eq!(object.get("rawCode").unwrap().as_i64(), Some(1));
}

#[test]
fn the_reason_is_written_as_serde_json_writes_it() {
    let e = throw_sqlite_error("no such table: t".to_string(), "SQLITE_ERROR".to_string(), 1);
    let mut object = serde_json::Map::new();
    object.insert("message".to_string(), serde_json::Value::from("no such table: t"));
    object.insert("libsqlError".to_string(), serde_json::Value::from(true));
    object.insert("code".to_string(), serde_json::Value::from("SQLITE_ERROR"));
    object.insert("rawCode".to_string(), serde_json::Value::from(1));
    assert_eq!(e.reason(), serde_json::Value::Object(object).to_string());
    assert_eq!(
        e.reason(),
        "{\"code\":\"SQLITE_ERROR\",\"libsqlError\":true,\"message\":\"no such table: t\",\"rawCode\":1}"
    );
}

#[test]
fn the_reason_escapes_what_json_escapes() {
    let message = "near \"x\": syntax\nerror \\ \t é";
    let e = throw_sqlite_error(message.to_string(), "SQLITE_ERROR".to_string(), -3);
    let reason = e.reason();
    assert_ne!(reason, message);
    let parsed: serde_json::Value = serde_json::from_str(&reason).unwrap();
    assert_eq!(parsed.get("message").unwrap().as_str(), Some(message));
    assert_eq!(parsed.get("rawCode").unwrap().as_i64(), Some(-3));
}

#[test]
fn the_reason_of_a_closed_connection() {
    let reason = Error::ConnectionClosed.reason();
    let parsed: serde_json::Value = serde_json::from_str(&reason).unwrap();
    assert_eq!(
        parsed.get("message").unwrap().as_str(),
        Some("The database connection is not open")
    );
    assert_eq!(parsed.get("libsqlError").unwrap().as_bool(), Some(true));
    assert_eq!(parsed.get("code").unwrap().as_str(), Some("SQLITE_NOTOPEN"));
    assert_eq!(parsed.get("rawCode").unwrap().as_i64(), Some(0));
}

#[test]
fn the_reason_of_a_failure_without_codes_is_its_message() {
    assert_eq!(
        Error::RawWithoutData.reason(),
        "The raw() method is only for statements that return data"
    );
    assert_eq!(Error::InvalidColumnIndex.reason(), "invalid column index");
    assert_eq!(
        Error::InvalidRule { table: "t".to_string(), value: 7 }.reason(),
        "Invalid authorization rule value '7' for table 't'. Expected 0 (ALLOW) or 1 (DENY)."
    );
}

#[test]
fn decimal_text_agrees_with_formatting() {
    for v in [0i64, 1, 9, 10, 11, 99, 100, 101, 12345, -1, -10, -999, i64::MAX, i64::MIN] {
        let mut out = String::from("x=");
        push_integer(&mut out, v);
        assert_eq!(out, format!("x={}", v));
    }
    for n in [0u64, 7, 10, 1000, u64::MAX] {
        let mut out = String::new();
        push_decimal(&mut out, n);
        assert_eq!(out, format!("{}", n));
    }
}

#[test]
fn prefixes() {
    assert!(has_prefix("libsql://host", "libsql://"));
    assert!(has_prefix("abc", ""));
    assert!(has_prefix("", ""));
    assert!(has_prefix("abc", "abc"));
    assert!(!has_prefix("ab", "abc"));
    assert!(!has_prefix("xbc", "abc"));
    assert!(!has_prefix("", "a"));
    assert!(has_prefix("éa", "é"));
}

#[test]
fn skipping_the_first_character() {
    assert_eq!(skip_first(":a"), "a");
    assert_eq!(skip_first("@name"), "name");
    assert_eq!(skip_first("$"), "");
    assert_eq!(skip_first(""), "");
    assert_eq!(skip_first("éx"), "x");
}
