//! The connection: one handle of the engine, and what the engine answered to the
//! calls made on it.
use crate::code::{is_success, SQLITE_OK};
use crate::error::{classify, sqlite_err, Error};
use crate::statement::{prepare_failure, Stmt};
use crate::transaction::{Phase, Transaction, Tx};
use vstd::prelude::*;

verus! {

/// An open connection: the handle that the engine gave for it.
#[derive(Debug)]
pub struct Sqlite {
    db: usize,
}

impl Sqlite {
    /// The connection's handle.
    pub closed spec fn handle(&self) -> usize {
        self.db
    }

    /// The connection's handle.
    pub fn db(&self) -> (h: usize)
        ensures
            h == self.handle(),
    {
        self.db
    }

    /// The connection that the engine opened, from what it answered: the handle
    /// `db`, the result code and the diagnostic text of that handle.
    ///
    /// The engine may have given a handle and still have failed, or have given
    /// none: the error says which.
    pub fn open(db: usize, code: i32, text: &str) -> (r: Result<Sqlite, Error>)
        ensures
            match r {
                Ok(sqlite) => code == SQLITE_OK && sqlite.handle() == db,
                Err(e) => code != SQLITE_OK && e@ == classify(code, db, text@),
            },
    {
        if code == SQLITE_OK {
            Ok(Sqlite { db })
        } else {
            Err(sqlite_err(code, db, text))
        }
    }

    /// What running statements without parameters came to, from the engine's
    /// result code and the connection's diagnostic text.
    pub fn execute(&self, code: i32, text: &str) -> (r: Result<i32, Error>)
        ensures
            match r {
                Ok(n) => code == SQLITE_OK && n == 0,
                Err(e) => code != SQLITE_OK && e@ == classify(code, self.handle(), text@),
            },
    {
        if code == SQLITE_OK {
            Ok(0)
        } else {
            Err(sqlite_err(code, self.db, text))
        }
    }

    /// The statement that the engine prepared on this connection, from what it
    /// answered: the handle `stmt`, the result code and the connection's
    /// diagnostic text. Without a handle nothing was prepared, whatever the code.
    pub fn prepare(&self, stmt: usize, code: i32, text: &str) -> (r: Result<Stmt, Error>)
        ensures
            match r {
                Ok(s) => is_success(code) && stmt != 0 && s.connection() == self.handle()
                    && s.handle() == stmt,
                Err(e) => e@ == prepare_failure(self.handle(), stmt, code, text@) && (!is_success(
                    code,
                ) || stmt == 0),
            },
    {
        Stmt::prepare(self.db, stmt, code, text)
    }

    /// A transaction on this connection that is about to begin in immediate mode:
    /// one that takes its lock at once, and fails at once where it cannot.
    pub fn transaction(&self) -> (t: Transaction<'_>)
        ensures
            t.link() == self,
            t.mode() == Tx::Immediate,
            t.phase() == Phase::Begin,
    {
        Transaction::new(self, Tx::Immediate)
    }
}

} // verus!
