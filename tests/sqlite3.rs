use quicken_reader::sqlite3::{
    check, Connection, Cursor, Error, Statement, SQLITE_DONE, SQLITE_MISUSE, SQLITE_OK,
    SQLITE_RANGE, SQLITE_ROW,
};

const SQLITE_ERROR: i32 = 1;
const SQLITE_BUSY: i32 = 5;

fn open_connection() -> Connection {
    Connection::open(SQLITE_OK, 0x1000).unwrap()
}

fn prepared_statement(conn: &Connection) -> Statement {
    let db = conn.prepare_handle().unwrap();
    assert_eq!(db, 0x1000);
    conn.prepare(SQLITE_OK, 0x2000, 4).unwrap()
}

#[test]
fn check_translates_status() {
    assert_eq!(check(SQLITE_OK), Ok(()));
    assert_eq!(check(SQLITE_BUSY), Err(Error::Native(SQLITE_BUSY)));
    assert_eq!(check(SQLITE_ROW), Err(Error::Native(SQLITE_ROW)));
}

#[test]
fn open_then_close_succeeds() {
    let mut conn = open_connection();
    assert!(conn.is_open());
    assert_eq!(conn.close_handle(), Some(0x1000));
    assert_eq!(conn.close(SQLITE_OK), Ok(()));
    assert!(!conn.is_open());
}

#[test]
fn open_failure_gives_native_error() {
    let r = Connection::open(14, 0x1000);
    assert!(matches!(r, Err(Error::Native(14))));
}

#[test]
fn close_twice_is_a_no_op() {
    let mut conn = open_connection();
    assert_eq!(conn.close(SQLITE_OK), Ok(()));
    assert_eq!(conn.close_handle(), None);
    assert_eq!(conn.close(SQLITE_ERROR), Ok(()));
    assert!(!conn.is_open());
}

#[test]
fn close_refused_keeps_connection_open() {
    let mut conn = open_connection();
    assert_eq!(conn.close(SQLITE_BUSY), Err(Error::Native(SQLITE_BUSY)));
    assert!(conn.is_open());
    assert_eq!(conn.close_handle(), Some(0x1000));
    assert_eq!(conn.close(SQLITE_OK), Ok(()));
}

#[test]
fn prepare_on_missing_table_gives_no_statement() {
    let conn = open_connection();
    let r = conn.prepare(SQLITE_ERROR, 0, 0);
    assert!(matches!(r, Err(Error::Native(SQLITE_ERROR))));
}

#[test]
fn prepare_on_closed_connection_is_misuse() {
    let mut conn = open_connection();
    assert_eq!(conn.close(SQLITE_OK), Ok(()));
    assert!(matches!(conn.prepare_handle(), Err(Error::Native(SQLITE_MISUSE))));
    assert!(matches!(conn.prepare(SQLITE_OK, 0x2000, 4), Err(Error::Native(SQLITE_MISUSE))));
}

#[test]
fn step_counts_rows_then_done_then_error() {
    let conn = open_connection();
    let mut stmt = prepared_statement(&conn);
    assert_eq!(stmt.cursor(), Cursor::Prepared);
    let mut trues = 0;
    for _ in 0..3 {
        assert_eq!(stmt.step_handle(), Ok(0x2000));
        if stmt.step(SQLITE_ROW).unwrap() {
            trues += 1;
        }
    }
    assert_eq!(trues, 3);
    assert_eq!(stmt.step(SQLITE_DONE), Ok(false));
    assert_eq!(stmt.cursor(), Cursor::Exhausted);
    assert_eq!(stmt.step_handle(), Err(Error::Native(SQLITE_MISUSE)));
    assert_eq!(stmt.step(SQLITE_ROW), Err(Error::Native(SQLITE_MISUSE)));
    assert_eq!(stmt.reset_handle(), Ok(0x2000));
    assert_eq!(stmt.reset(SQLITE_OK), Ok(()));
    assert_eq!(stmt.cursor(), Cursor::Prepared);
    assert_eq!(stmt.step(SQLITE_ROW), Ok(true));
}

#[test]
fn step_error_can_be_retried() {
    let conn = open_connection();
    let mut stmt = prepared_statement(&conn);
    assert_eq!(stmt.step(SQLITE_ROW), Ok(true));
    assert_eq!(stmt.step(SQLITE_BUSY), Err(Error::Native(SQLITE_BUSY)));
    assert_eq!(stmt.cursor(), Cursor::Failed);
    assert_eq!(stmt.column_handle(0), Err(Error::Native(SQLITE_MISUSE)));
    assert_eq!(stmt.step_handle(), Ok(0x2000));
    assert_eq!(stmt.step(SQLITE_ROW), Ok(true));
    assert_eq!(stmt.cursor(), Cursor::OnRow);
}

#[test]
fn reset_always_rewinds_and_repeats_step_error() {
    let conn = open_connection();
    let mut stmt = prepared_statement(&conn);
    assert_eq!(stmt.step(SQLITE_BUSY), Err(Error::Native(SQLITE_BUSY)));
    assert_eq!(stmt.reset(SQLITE_BUSY), Err(Error::Native(SQLITE_BUSY)));
    assert_eq!(stmt.cursor(), Cursor::Prepared);
}

#[test]
fn finalize_twice_never_fails() {
    let conn = open_connection();
    let mut stmt = prepared_statement(&conn);
    assert_eq!(stmt.finalize_handle(), Some(0x2000));
    assert_eq!(stmt.finalize(SQLITE_OK), Ok(()));
    assert_eq!(stmt.finalize_handle(), None);
    assert_eq!(stmt.finalize(SQLITE_ERROR), Ok(()));
    assert_eq!(stmt.cursor(), Cursor::Finalized);
}

#[test]
fn finalize_failure_still_releases() {
    let conn = open_connection();
    let mut stmt = prepared_statement(&conn);
    assert_eq!(stmt.step(SQLITE_ERROR), Err(Error::Native(SQLITE_ERROR)));
    assert_eq!(stmt.finalize(SQLITE_ERROR), Err(Error::Native(SQLITE_ERROR)));
    assert_eq!(stmt.finalize_handle(), None);
    assert_eq!(stmt.finalize(SQLITE_ERROR), Ok(()));
}

#[test]
fn finalized_statement_refuses_work() {
    let conn = open_connection();
    let mut stmt = prepared_statement(&conn);
    assert_eq!(stmt.finalize(SQLITE_OK), Ok(()));
    assert_eq!(stmt.step_handle(), Err(Error::Native(SQLITE_MISUSE)));
    assert_eq!(stmt.step(SQLITE_ROW), Err(Error::Native(SQLITE_MISUSE)));
    assert_eq!(stmt.reset_handle(), Err(Error::Native(SQLITE_MISUSE)));
    assert_eq!(stmt.reset(SQLITE_OK), Err(Error::Native(SQLITE_MISUSE)));
    assert_eq!(stmt.cursor(), Cursor::Finalized);
}

#[test]
fn column_text_null_is_empty() {
    let conn = open_connection();
    let mut stmt = prepared_statement(&conn);
    assert_eq!(stmt.step(SQLITE_ROW), Ok(true));
    assert_eq!(stmt.column_text(1, None), Ok(String::new()));
}

#[test]
fn column_reads_repeat_on_a_row() {
    let conn = open_connection();
    let mut stmt = prepared_statement(&conn);
    assert_eq!(stmt.step(SQLITE_ROW), Ok(true));
    let first = stmt.column_text(3, Some(String::from("Checking")));
    let second = stmt.column_text(3, Some(String::from("Checking")));
    assert_eq!(first, Ok(String::from("Checking")));
    assert_eq!(first, second);
    assert_eq!(stmt.column_handle(3), Ok((0x2000, 3)));
    assert_eq!(stmt.column_handle(3), Ok((0x2000, 3)));
}

#[test]
fn column_read_off_row_is_misuse() {
    let conn = open_connection();
    let mut stmt = prepared_statement(&conn);
    assert_eq!(stmt.column_handle(0), Err(Error::Native(SQLITE_MISUSE)));
    assert_eq!(
        stmt.column_text(0, Some(String::from("x"))),
        Err(Error::Native(SQLITE_MISUSE))
    );
    assert_eq!(stmt.step(SQLITE_DONE), Ok(false));
    assert_eq!(stmt.column_text(0, None), Err(Error::Native(SQLITE_MISUSE)));
}

#[test]
fn column_ordinal_past_row_is_range() {
    let conn = open_connection();
    let mut stmt = prepared_statement(&conn);
    assert_eq!(stmt.step(SQLITE_ROW), Ok(true));
    assert_eq!(stmt.column_handle(3), Ok((0x2000, 3)));
    assert_eq!(stmt.column_handle(4), Err(Error::Native(SQLITE_RANGE)));
    assert_eq!(stmt.column_handle(2000000000), Err(Error::Native(SQLITE_RANGE)));
    assert_eq!(stmt.column_text(4, None), Err(Error::Native(SQLITE_RANGE)));
    assert_eq!(stmt.column_text(u32::MAX, None), Err(Error::Native(SQLITE_RANGE)));
}

#[test]
fn three_row_account_table_reads_in_order() {
    let conn = open_connection();
    let mut stmt = prepared_statement(&conn);
    let table = [
        ("A-GUID-1", "Checking"),
        ("A-GUID-2", "Savings"),
        ("A-GUID-3", "Credit Card"),
    ];
    let mut records: Vec<(String, String)> = Vec::new();
    let mut row = 0;
    loop {
        let code = if row < table.len() { SQLITE_ROW } else { SQLITE_DONE };
        if !stmt.step(code).unwrap() {
            break;
        }
        let id = stmt.column_text(1, Some(String::from(table[row].0))).unwrap();
        let name = stmt.column_text(3, Some(String::from(table[row].1))).unwrap();
        records.push((id, name));
        row += 1;
    }
    assert_eq!(stmt.finalize(SQLITE_OK), Ok(()));
    assert_eq!(records.len(), 3);
    for (i, (id, name)) in records.iter().enumerate() {
        assert_eq!(id, table[i].0);
        assert_eq!(name, table[i].1);
        assert!(!id.is_empty() && !name.is_empty());
    }
}

#[test]
fn failed_open_handle_is_released() {
    assert_eq!(Connection::release_after_failed_open(14, 0x1000), Some(0x1000));
    assert_eq!(Connection::release_after_failed_open(7, 0), None);
    assert_eq!(Connection::release_after_failed_open(SQLITE_OK, 0x1000), None);
}

#[test]
fn statement_without_columns_refuses_every_read() {
    let conn = open_connection();
    let mut stmt = conn.prepare(SQLITE_OK, 0x2000, 0).unwrap();
    assert_eq!(stmt.step(SQLITE_ROW), Ok(true));
    assert_eq!(stmt.column_handle(0), Err(Error::Native(SQLITE_RANGE)));
}
