use vstd::prelude::*;

use crate::sqlite3;
use crate::sqlite3::{Connection, SQLITE_OK};

verus! {

/// A failure of the Quicken reader, keeping the engine's error and its code.
#[derive(Debug, Clone, Copy, PartialEq, Eq, Structural)]
pub enum Error {
    SQLite3(sqlite3::Error),
}

impl From<sqlite3::Error> for Error {
    fn from(error: sqlite3::Error) -> (r: Self)
        ensures
            r == Error::SQLite3(error),
    {
        Error::SQLite3(error)
    }
}

impl vstd::std_specs::convert::FromSpecImpl<sqlite3::Error> for Error {
    open spec fn obeys_from_spec() -> bool {
        true
    }

    open spec fn from_spec(error: sqlite3::Error) -> Self {
        Error::SQLite3(error)
    }
}

/// A Quicken data file, by path, and the connection to it while it is open.
pub struct Quicken {
    pub path: String,
    connection: Option<Connection>,
}

impl Quicken {
    /// The connection held, if any.
    pub closed spec fn held(self) -> Option<Connection> {
        self.connection
    }

    /// The path of the file.
    pub closed spec fn file(self) -> Seq<char> {
        self.path@
    }

    /// A reader of the file at `path`, not yet open.
    pub fn new(path: String) -> (q: Quicken)
        ensures
            q.file() == path@,
            q.held() == None::<Connection>,
    {
        Quicken { path: path, connection: None }
    }

    /// Whether a connection to the file is held.
    pub fn is_open(&self) -> (b: bool)
        ensures
            b == self.held() is Some,
    {
        self.connection.is_some()
    }

    /// The connection held, if any, for preparing queries on it.
    pub fn connection(&self) -> (c: Option<&Connection>)
        ensures
            self.held() is None ==> c is None,
            self.held() matches Some(h) ==> (c matches Some(r) && *r == h),
    {
        self.connection.as_ref()
    }

    /// Takes the connection to the file, where the engine answered `code` to
    /// opening `path` and handed out `db`. On success the new connection is
    /// held and the one it replaces, if any, is handed back to be closed; on
    /// failure the connection held before stays, and the handle the engine
    /// handed out is released as `Connection::release_after_failed_open` says.
    pub fn open(&mut self, code: i32, db: usize) -> (r: Result<Option<Connection>, Error>)
        ensures
            final(self).file() == old(self).file(),
            code == SQLITE_OK ==> (r matches Ok(replaced) && replaced == old(self).held()),
            code == SQLITE_OK ==> (final(self).held() matches Some(c) && c.handle() == db),
            code != SQLITE_OK ==> r == Err::<Option<Connection>, Error>(
                Error::SQLite3(sqlite3::Error::Native(code)),
            ),
            code != SQLITE_OK ==> final(self).held() == old(self).held(),
    {
        match Connection::open(code, db) {
            Ok(c) => {
                let replaced = self.connection.take();
                self.connection = Some(c);
                Ok(replaced)
            },
            Err(e) => Err(Error::from(e)),
        }
    }

    /// The connection handle the engine is asked to close, or `None` when
    /// nothing is to be asked.
    pub fn close_handle(&self) -> (r: Option<usize>)
        ensures
            self.held() is None ==> r is None,
            self.held() matches Some(c) ==> (c.is_open_spec() ==> r == Some(c.handle())) && (
            !c.is_open_spec() ==> r is None),
    {
        match &self.connection {
            Some(c) => c.close_handle(),
            None => None,
        }
    }

    /// Records the close that `close_handle` asked for, given the engine's
    /// answer `code`. On success the connection is dropped; on failure it is
    /// kept, still open. Without a connection the call succeeds and changes
    /// nothing.
    pub fn close(&mut self, code: i32) -> (r: Result<(), Error>)
        ensures
            final(self).file() == old(self).file(),
            old(self).held() is None ==> r == Ok::<(), Error>(()) && final(self).held() is None,
            old(self).held() matches Some(c) ==> match c.close_result(code) {
                Ok(_) => r == Ok::<(), Error>(()) && final(self).held() is None,
                Err(e) => r == Err::<(), Error>(Error::SQLite3(e)) && final(self).held() == old(
                    self,
                ).held(),
            },
    {
        if let Some(connection) = &mut self.connection {
            match connection.close(code) {
                Ok(_) => {},
                Err(e) => return Err(Error::from(e)),
            }
        }
        self.connection = None;
        Ok(())
    }
}

} // verus!
