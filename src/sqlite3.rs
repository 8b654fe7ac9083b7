use vstd::prelude::*;

verus! {

/// The engine's status for a call that succeeded.
pub const SQLITE_OK: i32 = 0;

/// The engine's status for a call made in a state that does not allow it.
pub const SQLITE_MISUSE: i32 = 21;

/// The engine's status for a column ordinal outside the row.
pub const SQLITE_RANGE: i32 = 25;

/// The status of a step that produced a row.
pub const SQLITE_ROW: i32 = 100;

/// The status of a step that found no more rows.
pub const SQLITE_DONE: i32 = 101;

/// A failure reported by the engine, carrying its status code verbatim.
#[derive(Debug, Clone, Copy, PartialEq, Eq, Structural)]
pub enum Error {
    Native(i32),
}

/// The result of an engine call whose only success status is `SQLITE_OK`.
pub open spec fn status_result(code: i32) -> Result<(), Error> {
    if code == SQLITE_OK {
        Ok(())
    } else {
        Err(Error::Native(code))
    }
}

/// Translates the status of an engine call that succeeds with `SQLITE_OK`.
pub fn check(code: i32) -> (r: Result<(), Error>)
    ensures
        r == status_result(code),
{
    if code == SQLITE_OK {
        Ok(())
    } else {
        Err(Error::Native(code))
    }
}

/// Where a statement's result-set iteration stands.
#[derive(Debug, Clone, Copy, PartialEq, Eq, Structural)]
pub enum Cursor {
    /// Compiled or reset, before the first row.
    Prepared,
    /// On a row whose columns can be read.
    OnRow,
    /// Past the last row; terminal until reset.
    Exhausted,
    /// Off a row after a step the engine failed; the step may be retried, or
    /// the statement reset.
    Failed,
    /// Released; terminal.
    Finalized,
}

/// Whether a statement in this position may be stepped by the engine.
pub open spec fn can_step(c: Cursor) -> bool {
    c == Cursor::Prepared || c == Cursor::OnRow || c == Cursor::Failed
}

/// The position and result of a step from `c`, where `code` is what the engine
/// answered. From a position that allows no step the engine is not asked and
/// the step fails with `SQLITE_MISUSE`.
pub open spec fn step_outcome(c: Cursor, code: i32) -> (Cursor, Result<bool, Error>) {
    if !can_step(c) {
        (c, Err(Error::Native(SQLITE_MISUSE)))
    } else if code == SQLITE_ROW {
        (Cursor::OnRow, Ok(true))
    } else if code == SQLITE_DONE {
        (Cursor::Exhausted, Ok(false))
    } else {
        (Cursor::Failed, Err(Error::Native(code)))
    }
}

/// The position and result of a reset from `c`. A finalized statement is not
/// handed to the engine and the reset fails with `SQLITE_MISUSE`. Otherwise the
/// engine always resets the statement, and a status other than `SQLITE_OK`
/// only repeats the error of the last step, which is returned.
pub open spec fn reset_outcome(c: Cursor, code: i32) -> (Cursor, Result<(), Error>) {
    if c == Cursor::Finalized {
        (c, Err(Error::Native(SQLITE_MISUSE)))
    } else {
        (Cursor::Prepared, status_result(code))
    }
}

/// The engine's address for column `col` of the current row, or the error
/// returned instead: `SQLITE_MISUSE` off a row, `SQLITE_RANGE` for an ordinal
/// at or past the statement's `columns` result columns.
pub open spec fn column_target(c: Cursor, handle: usize, columns: i32, col: u32) -> Result<
    (usize, i32),
    Error,
> {
    if c != Cursor::OnRow {
        Err(Error::Native(SQLITE_MISUSE))
    } else if col >= columns {
        Err(Error::Native(SQLITE_RANGE))
    } else {
        Ok((handle, col as i32))
    }
}

/// A compiled query that exclusively owns one native statement handle.
///
/// Each operation is split in two: a method that names the handle the engine
/// is to act on (or refuses, with nothing asked of the engine), and a method
/// that takes the engine's status and moves the cursor.
pub struct Statement {
    stmt: usize,
    cursor: Cursor,
    columns: i32,
}

impl Statement {
    /// The native handle; zero once released.
    pub closed spec fn handle(self) -> usize {
        self.stmt
    }

    /// The cursor's position.
    pub closed spec fn position(self) -> Cursor {
        self.cursor
    }

    /// The number of result columns the engine reported when compiling.
    pub closed spec fn column_count(self) -> i32 {
        self.columns
    }

    /// A released statement holds no handle.
    pub open spec fn wf(self) -> bool {
        self.position() == Cursor::Finalized ==> self.handle() == 0
    }

    /// The statement once released. The engine frees the handle whatever it
    /// answers to the release, so this holds after every release.
    pub closed spec fn released(self) -> Statement {
        Statement { stmt: 0, cursor: Cursor::Finalized, columns: self.columns }
    }

    /// The result of a release: no error for a statement already released,
    /// otherwise the engine's status.
    pub open spec fn finalize_result(self, code: i32) -> Result<(), Error> {
        if self.position() == Cursor::Finalized {
            Ok(())
        } else {
            status_result(code)
        }
    }

    /// The cursor's current position.
    pub fn cursor(&self) -> (c: Cursor)
        ensures
            c == self.position(),
    {
        self.cursor
    }

    /// The handle the engine is asked to step, or the error a step gives
    /// without asking it.
    pub fn step_handle(&self) -> (r: Result<usize, Error>)
        ensures
            can_step(self.position()) ==> r == Ok::<usize, Error>(self.handle()),
            !can_step(self.position()) ==> r == Err::<usize, Error>(Error::Native(SQLITE_MISUSE)),
    {
        match self.cursor {
            Cursor::Prepared | Cursor::OnRow | Cursor::Failed => Ok(self.stmt),
            _ => Err(Error::Native(SQLITE_MISUSE)),
        }
    }

    /// Advances the cursor by the engine's answer `code` to the step that
    /// `step_handle` asked for: `true` on a new row, `false` once the rows
    /// are exhausted, the engine's error otherwise. Where `step_handle`
    /// refused, `code` is ignored and the same error is returned.
    pub fn step(&mut self, code: i32) -> (r: Result<bool, Error>)
        requires
            old(self).wf(),
        ensures
            final(self).wf(),
            final(self).handle() == old(self).handle(),
            final(self).column_count() == old(self).column_count(),
            final(self).position() == step_outcome(old(self).position(), code).0,
            r == step_outcome(old(self).position(), code).1,
    {
        match self.cursor {
            Cursor::Prepared | Cursor::OnRow | Cursor::Failed => {
                if code == SQLITE_ROW {
                    self.cursor = Cursor::OnRow;
                    Ok(true)
                } else if code == SQLITE_DONE {
                    self.cursor = Cursor::Exhausted;
                    Ok(false)
                } else {
                    self.cursor = Cursor::Failed;
                    Err(Error::Native(code))
                }
            },
            _ => Err(Error::Native(SQLITE_MISUSE)),
        }
    }

    /// The handle the engine is asked to reset, or the error a reset gives
    /// without asking it.
    pub fn reset_handle(&self) -> (r: Result<usize, Error>)
        ensures
            self.position() != Cursor::Finalized ==> r == Ok::<usize, Error>(self.handle()),
            self.position() == Cursor::Finalized ==> r == Err::<usize, Error>(
                Error::Native(SQLITE_MISUSE),
            ),
    {
        match self.cursor {
            Cursor::Finalized => Err(Error::Native(SQLITE_MISUSE)),
            _ => Ok(self.stmt),
        }
    }

    /// Returns the cursor to before the first row after the reset that
    /// `reset_handle` asked for; `code` is the engine's answer, an error only
    /// repeating the last step's failure.
    pub fn reset(&mut self, code: i32) -> (r: Result<(), Error>)
        requires
            old(self).wf(),
        ensures
            final(self).wf(),
            final(self).handle() == old(self).handle(),
            final(self).column_count() == old(self).column_count(),
            final(self).position() == reset_outcome(old(self).position(), code).0,
            r == reset_outcome(old(self).position(), code).1,
    {
        match self.cursor {
            Cursor::Finalized => Err(Error::Native(SQLITE_MISUSE)),
            _ => {
                self.cursor = Cursor::Prepared;
                check(code)
            },
        }
    }

    /// The handle the engine is asked to release, or `None` when it was
    /// released already and nothing is to be asked.
    pub fn finalize_handle(&self) -> (r: Option<usize>)
        ensures
            self.position() == Cursor::Finalized ==> r == None::<usize>,
            self.position() != Cursor::Finalized ==> r == Some(self.handle()),
    {
        match self.cursor {
            Cursor::Finalized => None,
            _ => Some(self.stmt),
        }
    }

    /// Records the release that `finalize_handle` asked for, given the
    /// engine's answer `code`. The handle is cleared and the statement is
    /// finalized whatever the answer; a statement already released stays as it
    /// is and the call succeeds.
    pub fn finalize(&mut self, code: i32) -> (r: Result<(), Error>)
        requires
            old(self).wf(),
        ensures
            final(self).wf(),
            final(self).handle() == 0,
            final(self).position() == Cursor::Finalized,
            final(self).column_count() == old(self).column_count(),
            *final(self) == old(self).released(),
            r == old(self).finalize_result(code),
    {
        let r = match self.cursor {
            Cursor::Finalized => Ok(()),
            _ => check(code),
        };
        self.stmt = 0;
        self.cursor = Cursor::Finalized;
        r
    }

    /// The engine's statement handle and column index for reading column
    /// `col` of the current row, or the error the read gives instead.
    pub fn column_handle(&self, col: u32) -> (r: Result<(usize, i32), Error>)
        ensures
            r == column_target(self.position(), self.handle(), self.column_count(), col),
    {
        if self.cursor != Cursor::OnRow {
            Err(Error::Native(SQLITE_MISUSE))
        } else if self.columns < 0 || col >= self.columns as u32 {
            Err(Error::Native(SQLITE_RANGE))
        } else {
            Ok((self.stmt, col as i32))
        }
    }

    /// Reads column `col` of the current row as text, where `value` is the
    /// text the engine gave at `column_handle`'s address, or `None` when it
    /// gave none (a null). A null reads as the empty string.
    pub fn column_text(&self, col: u32, value: Option<String>) -> (r: Result<String, Error>)
        ensures
            column_target(self.position(), self.handle(), self.column_count(), col) matches Err(e) ==> r == Err::<
                String,
                Error,
            >(e),
            column_target(self.position(), self.handle(), self.column_count(), col) is Ok ==> (r matches Ok(t) && (
            match value {
                Some(v) => t@ == v@,
                None => t@ == Seq::<char>::empty(),
            })),
    {
        match self.column_handle(col) {
            Err(e) => Err(e),
            Ok(_) => match value {
                Some(v) => Ok(v),
                None => Ok(String::new()),
            },
        }
    }
}

/// An open database file that exclusively owns one native connection handle;
/// the handle is zero once the connection is closed.
///
/// Every statement prepared on a connection must be released before the
/// connection is closed. Closing while one is still unreleased is refused by
/// the engine with a busy status, which `close` returns, and the connection
/// then stays open with its handle, so no statement handle is left dangling.
pub struct Connection {
    db: usize,
}

impl Connection {
    /// The native handle; zero when closed.
    pub closed spec fn handle(self) -> usize {
        self.db
    }

    /// Whether the connection still holds a handle to release.
    pub open spec fn is_open_spec(self) -> bool {
        self.handle() != 0
    }

    /// The result of opening, where the engine answered `code` and handed out
    /// `db`.
    pub closed spec fn opened(code: i32, db: usize) -> Result<Connection, Error> {
        if code == SQLITE_OK {
            Ok(Connection { db })
        } else {
            Err(Error::Native(code))
        }
    }

    /// The connection after the engine answered `code` to its close: closed on
    /// success, unchanged otherwise.
    pub closed spec fn after_close(self, code: i32) -> Connection {
        if self.db != 0 && code == SQLITE_OK {
            Connection { db: 0 }
        } else {
            self
        }
    }

    /// The result of a close: no error for a connection closed already,
    /// otherwise the engine's status.
    pub open spec fn close_result(self, code: i32) -> Result<(), Error> {
        if !self.is_open_spec() {
            Ok(())
        } else {
            status_result(code)
        }
    }

    /// The statement, or the error, that a prepare gives where the engine
    /// answered `code` and handed out `stmt`. A closed connection is not handed
    /// to the engine and the prepare fails with `SQLITE_MISUSE`.
    pub closed spec fn prepared(self, code: i32, stmt: usize, columns: i32) -> Result<
        Statement,
        Error,
    > {
        if self.db == 0 {
            Err(Error::Native(SQLITE_MISUSE))
        } else if code == SQLITE_OK {
            Ok(Statement { stmt, cursor: Cursor::Prepared, columns })
        } else {
            Err(Error::Native(code))
        }
    }

    /// Takes ownership of the handle `db` that the engine handed out when
    /// asked to open a file, where `code` is its status. A failed open gives
    /// no connection: what the engine handed out is then released as
    /// `release_after_failed_open` says.
    pub fn open(code: i32, db: usize) -> (r: Result<Connection, Error>)
        ensures
            r == Connection::opened(code, db),
            code == SQLITE_OK ==> (r matches Ok(c) && c.handle() == db),
            code != SQLITE_OK ==> r == Err::<Connection, Error>(Error::Native(code)),
    {
        if code == SQLITE_OK {
            Ok(Connection { db })
        } else {
            Err(Error::Native(code))
        }
    }

    /// The handle that must be closed after the engine answered `code` to an
    /// open and handed out `db`: the engine hands out a handle even for most
    /// failed opens, and no connection takes ownership of it then.
    pub fn release_after_failed_open(code: i32, db: usize) -> (r: Option<usize>)
        ensures
            r == (if code != SQLITE_OK && db != 0 {
                Some(db)
            } else {
                None
            }),
    {
        if code != SQLITE_OK && db != 0 {
            Some(db)
        } else {
            None
        }
    }

    /// Whether the connection still holds a handle to release.
    pub fn is_open(&self) -> (b: bool)
        ensures
            b == self.is_open_spec(),
    {
        self.db != 0
    }

    /// The handle the engine is asked to close, or `None` when the connection
    /// is closed already and nothing is to be asked.
    pub fn close_handle(&self) -> (r: Option<usize>)
        ensures
            !self.is_open_spec() ==> r == None::<usize>,
            self.is_open_spec() ==> r == Some(self.handle()),
    {
        if self.db == 0 {
            None
        } else {
            Some(self.db)
        }
    }

    /// Records the close that `close_handle` asked for, given the engine's
    /// answer `code`: the handle is cleared on success and kept on failure. A
    /// connection closed already stays closed and the call succeeds.
    pub fn close(&mut self, code: i32) -> (r: Result<(), Error>)
        ensures
            *final(self) == old(self).after_close(code),
            r == old(self).close_result(code),
            r is Ok ==> !final(self).is_open_spec(),
            r is Err ==> *final(self) == *old(self),
    {
        if self.db == 0 {
            Ok(())
        } else if code == SQLITE_OK {
            self.db = 0;
            Ok(())
        } else {
            Err(Error::Native(code))
        }
    }

    /// The connection handle the engine is asked to compile a query on, or the
    /// error a prepare gives without asking it.
    pub fn prepare_handle(&self) -> (r: Result<usize, Error>)
        ensures
            self.is_open_spec() ==> r == Ok::<usize, Error>(self.handle()),
            !self.is_open_spec() ==> r == Err::<usize, Error>(Error::Native(SQLITE_MISUSE)),
    {
        if self.db == 0 {
            Err(Error::Native(SQLITE_MISUSE))
        } else {
            Ok(self.db)
        }
    }

    /// Takes ownership of the statement handle `stmt` that the engine handed
    /// out for the prepare that `prepare_handle` asked for, where `code` is its
    /// status and `columns` the number of result columns it reports for it.
    /// On failure no statement is produced.
    pub fn prepare(&self, code: i32, stmt: usize, columns: i32) -> (r: Result<Statement, Error>)
        ensures
            r == self.prepared(code, stmt, columns),
            !self.is_open_spec() ==> r == Err::<Statement, Error>(Error::Native(SQLITE_MISUSE)),
            self.is_open_spec() && code != SQLITE_OK ==> r == Err::<Statement, Error>(
                Error::Native(code),
            ),
            self.is_open_spec() && code == SQLITE_OK ==> (r matches Ok(s) && s.wf() && s.handle()
                == stmt && s.position() == Cursor::Prepared && s.column_count() == columns),
    {
        if self.db == 0 {
            Err(Error::Native(SQLITE_MISUSE))
        } else if code == SQLITE_OK {
            Ok(Statement { stmt, cursor: Cursor::Prepared, columns })
        } else {
            Err(Error::Native(code))
        }
    }
}

/// The results of stepping repeatedly from `c`, the engine answering the
/// successive steps with `codes`.
pub open spec fn step_run(c: Cursor, codes: Seq<i32>) -> Seq<Result<bool, Error>>
    decreases codes.len(),
{
    if codes.len() == 0 {
        Seq::empty()
    } else {
        let (next, r) = step_outcome(c, codes[0]);
        seq![r] + step_run(next, codes.drop_first())
    }
}

/// Opening a file and closing it right away succeed whenever the engine
/// reports success to both: the close gives no error and leaves the
/// connection closed.
pub proof fn lemma_open_then_close(db: usize)
    ensures
        Connection::opened(SQLITE_OK, db) matches Ok(c) && c.close_result(SQLITE_OK) == Ok::<
            (),
            Error,
        >(()) && !c.after_close(SQLITE_OK).is_open_spec(),
{
}

/// A second close of a connection that closed without error asks nothing of
/// the engine, succeeds, and changes nothing.
pub proof fn lemma_close_twice(c: Connection, first: i32, second: i32)
    requires
        c.close_result(first) is Ok,
    ensures
        !c.after_close(first).is_open_spec(),
        c.after_close(first).close_result(second) == Ok::<(), Error>(()),
        c.after_close(first).after_close(second) == c.after_close(first),
{
}

/// Releasing a statement twice never fails the second time and never hands
/// its handle to the engine again, whatever the engine answered the first time.
pub proof fn lemma_finalize_twice(s: Statement, second: i32)
    requires
        s.wf(),
    ensures
        s.released().position() == Cursor::Finalized,
        s.released().handle() == 0,
        s.released().finalize_result(second) == Ok::<(), Error>(()),
        s.released().released() == s.released(),
{
}

/// The answers of an engine to a statement over a result set of `rows` rows:
/// a row status per row, then the end of the rows.
pub open spec fn result_set_codes(rows: nat) -> Seq<i32> {
    Seq::new(rows, |i: int| SQLITE_ROW) + seq![SQLITE_DONE]
}

proof fn lemma_run_from_exhausted(extra: Seq<i32>)
    ensures
        step_run(Cursor::Exhausted, extra) == Seq::new(
            extra.len(),
            |i: int| Err::<bool, Error>(Error::Native(SQLITE_MISUSE)),
        ),
    decreases extra.len(),
{
    if extra.len() > 0 {
        lemma_run_from_exhausted(extra.drop_first());
    }
    assert(step_run(Cursor::Exhausted, extra) =~= Seq::new(
        extra.len(),
        |i: int| Err::<bool, Error>(Error::Native(SQLITE_MISUSE)),
    ));
}

proof fn lemma_run_from_steppable(c: Cursor, rows: nat, extra: Seq<i32>)
    requires
        can_step(c),
    ensures
        step_run(c, result_set_codes(rows) + extra) == Seq::new(
            rows,
            |i: int| Ok::<bool, Error>(true),
        ) + seq![Ok::<bool, Error>(false)] + Seq::new(
            extra.len(),
            |i: int| Err::<bool, Error>(Error::Native(SQLITE_MISUSE)),
        ),
    decreases rows,
{
    let codes = result_set_codes(rows) + extra;
    let misuse = Seq::new(extra.len(), |i: int| Err::<bool, Error>(Error::Native(SQLITE_MISUSE)));
    lemma_run_from_exhausted(extra);
    if rows == 0 {
        assert(codes[0] == SQLITE_DONE);
        assert(codes.drop_first() =~= extra);
        assert(step_run(c, codes) =~= Seq::new(rows, |i: int| Ok::<bool, Error>(true)) + seq![
            Ok::<bool, Error>(false),
        ] + misuse);
    } else {
        let r = (rows - 1) as nat;
        lemma_run_from_steppable(Cursor::OnRow, r, extra);
        assert(codes[0] == SQLITE_ROW);
        assert(codes.drop_first() =~= result_set_codes(r) + extra);
        assert(step_run(c, codes) =~= Seq::new(rows, |i: int| Ok::<bool, Error>(true)) + seq![
            Ok::<bool, Error>(false),
        ] + misuse);
    }
}

/// Stepping a freshly prepared or reset statement over a result set of
/// `rows` rows gives `true` once per row, then `false` once, and then the
/// `SQLITE_MISUSE` error for every further step, whatever the engine would
/// answer, until the statement is reset; a reset that the engine accepts
/// brings it back to before the first row.
pub proof fn lemma_step_sequence(rows: nat, extra: Seq<i32>)
    ensures
        reset_outcome(Cursor::Exhausted, SQLITE_OK) == (Cursor::Prepared, Ok::<(), Error>(())),
        step_run(Cursor::Prepared, result_set_codes(rows) + extra) == Seq::new(
            rows,
            |i: int| Ok::<bool, Error>(true),
        ) + seq![Ok::<bool, Error>(false)] + Seq::new(
            extra.len(),
            |i: int| Err::<bool, Error>(Error::Native(SQLITE_MISUSE)),
        ),
{
    lemma_run_from_steppable(Cursor::Prepared, rows, extra);
}

} // verus!
