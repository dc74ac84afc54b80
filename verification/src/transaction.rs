//! Transactions: from their beginning to the commit or the rollback that ends
//! them.
//!
//! The engine runs the statements. A transaction says which statement is due,
//! takes what running it came to, and keeps account of whether the connection
//! still has a transaction open.
use crate::connection::Sqlite;
use crate::error::Error;
use crate::row::Row;
use vstd::prelude::*;

verus! {

/// How a transaction begins.
#[derive(Clone, Copy, Debug, PartialEq, Eq, Structural)]
pub enum Tx {
    /// No lock is taken before the first read or write.
    Deferred,
    /// The write lock is taken at once.
    Immediate,
    /// The lock that shuts out all others is taken at once.
    Exclusive,
}

impl Default for Tx {
    fn default() -> (r: Tx)
        ensures
            r == Tx::Deferred,
    {
        Tx::Deferred
    }
}

/// The statement that begins a deferred transaction.
pub const BEGIN_DEFERRED: &'static str = "begin deferred transaction";

/// The statement that begins an immediate transaction.
pub const BEGIN_IMMEDIATE: &'static str = "begin immediate transaction";

/// The statement that begins an exclusive transaction.
pub const BEGIN_EXCLUSIVE: &'static str = "begin exclusive transaction";

/// The statement that commits.
pub const END: &'static str = "end transaction";

/// The statement that rolls back.
pub const ROLLBACK: &'static str = "rollback transaction";

/// The statement that begins a transaction in the mode `tx`.
pub open spec fn begin_sql(tx: Tx) -> Seq<char> {
    match tx {
        Tx::Deferred => BEGIN_DEFERRED@,
        Tx::Immediate => BEGIN_IMMEDIATE@,
        Tx::Exclusive => BEGIN_EXCLUSIVE@,
    }
}

impl Tx {
    /// The statement that begins a transaction in this mode.
    pub fn sql(&self) -> (r: &'static str)
        ensures
            r@ == begin_sql(*self),
    {
        match self {
            Tx::Deferred => BEGIN_DEFERRED,
            Tx::Immediate => BEGIN_IMMEDIATE,
            Tx::Exclusive => BEGIN_EXCLUSIVE,
        }
    }
}

/// Where a transaction stands.
#[derive(Clone, Copy, Debug, PartialEq, Eq, Structural)]
pub enum Phase {
    /// The statement that begins it is due.
    Begin,
    /// It is open, and nothing is due.
    Active,
    /// The commit that was asked for is due.
    Ending,
    /// The rollback that was asked for is due.
    Reverting,
    /// The rollback on leaving is due.
    Closing,
    /// It was committed.
    Committed,
    /// It was rolled back.
    RolledBack,
    /// It could not begin.
    Refused,
    /// The rollback on leaving failed: the connection is left with a transaction
    /// that nothing ends, and nothing more can be said of it.
    Stuck,
}

/// Whether the connection has a transaction open in this phase.
pub open spec fn is_open(phase: Phase) -> bool {
    phase == Phase::Active || phase == Phase::Ending || phase == Phase::Reverting || phase
        == Phase::Closing
}

/// The statement that is due in a phase, if one is.
pub open spec fn due(mode: Tx, phase: Phase) -> Option<Seq<char>> {
    match phase {
        Phase::Begin => Some(begin_sql(mode)),
        Phase::Ending => Some(END@),
        Phase::Reverting | Phase::Closing => Some(ROLLBACK@),
        _ => None,
    }
}

/// The phase after the statement that was due has run, with or without success.
///
/// A transaction that cannot begin leaves nothing behind. A commit or a rollback
/// that was asked for and fails leaves the transaction open, for the caller to
/// try again or to leave. The rollback on leaving must not fail. Where nothing
/// was due, nothing changes.
pub open spec fn settled(phase: Phase, success: bool) -> Phase {
    match phase {
        Phase::Begin => if success {
            Phase::Active
        } else {
            Phase::Refused
        },
        Phase::Ending => if success {
            Phase::Committed
        } else {
            Phase::Active
        },
        Phase::Reverting => if success {
            Phase::RolledBack
        } else {
            Phase::Active
        },
        Phase::Closing => if success {
            Phase::RolledBack
        } else {
            Phase::Stuck
        },
        _ => phase,
    }
}

/// The phase after the caller asked an open transaction for what leads to
/// `wanted`; a transaction that is not open and at rest stays as it is.
pub open spec fn asked(phase: Phase, wanted: Phase) -> Phase {
    if phase == Phase::Active {
        wanted
    } else {
        phase
    }
}

/// What a row type does to store and to remove itself through a connection.
pub trait Crud: Sized {
    /// Stores the row, and gives back what the database then holds for it.
    fn save(self, db: &Sqlite) -> Result<Self, Error>;

    /// Removes the row, and gives back what the database held for it.
    fn delete(self, db: &Sqlite) -> Result<Self, Error>;
}

/// What a row type does to make itself of a fetched row.
pub trait FromRow: Sized {
    /// The value that the row stands for.
    fn from_row(row: &Row) -> Self;
}

/// A transaction on a connection.
#[derive(Debug)]
pub struct Transaction<'a> {
    sqlite: &'a Sqlite,
    mode: Tx,
    phase: Phase,
}

impl<'a> Transaction<'a> {
    /// The connection.
    pub closed spec fn link(&self) -> &'a Sqlite {
        self.sqlite
    }

    /// The handle of the connection.
    pub open spec fn connection(&self) -> usize {
        self.link().handle()
    }

    /// The mode in which the transaction begins.
    pub closed spec fn mode(&self) -> Tx {
        self.mode
    }

    /// Where the transaction stands.
    pub closed spec fn phase(&self) -> Phase {
        self.phase
    }

    /// A transaction on `sqlite` that is about to begin in the mode `tx`.
    pub fn new(sqlite: &'a Sqlite, tx: Tx) -> (t: Transaction<'a>)
        ensures
            t.link() == sqlite,
            t.mode() == tx,
            t.phase() == Phase::Begin,
    {
        Transaction { sqlite, mode: tx, phase: Phase::Begin }
    }

    /// The connection.
    pub fn sqlite(&self) -> (s: &'a Sqlite)
        ensures
            s == self.link(),
    {
        self.sqlite
    }

    /// Where the transaction stands.
    pub fn stage(&self) -> (p: Phase)
        ensures
            p == self.phase(),
    {
        self.phase
    }

    /// The statement that is due, if one is.
    pub fn statement(&self) -> (r: Option<&'static str>)
        ensures
            match r {
                Some(sql) => due(self.mode(), self.phase()) == Some(sql@),
                None => due(self.mode(), self.phase()) is None,
            },
    {
        match self.phase {
            Phase::Begin => Some(self.mode.sql()),
            Phase::Ending => Some(END),
            Phase::Reverting => Some(ROLLBACK),
            Phase::Closing => Some(ROLLBACK),
            _ => None,
        }
    }

    /// Asks for the commit. On an open transaction at rest the commit becomes
    /// due; on any other, nothing changes.
    pub fn end(&mut self) -> (r: Option<&'static str>)
        ensures
            final(self).link() == old(self).link(),
            final(self).mode() == old(self).mode(),
            final(self).phase() == asked(old(self).phase(), Phase::Ending),
            match r {
                Some(sql) => old(self).phase() == Phase::Active && sql@ == END@,
                None => old(self).phase() != Phase::Active,
            },
    {
        match self.phase {
            Phase::Active => {
                self.phase = Phase::Ending;
                Some(END)
            },
            _ => None,
        }
    }

    /// Asks for the rollback. On an open transaction at rest the rollback becomes
    /// due; on any other, nothing changes.
    pub fn rollback(&mut self) -> (r: Option<&'static str>)
        ensures
            final(self).link() == old(self).link(),
            final(self).mode() == old(self).mode(),
            final(self).phase() == asked(old(self).phase(), Phase::Reverting),
            match r {
                Some(sql) => old(self).phase() == Phase::Active && sql@ == ROLLBACK@,
                None => old(self).phase() != Phase::Active,
            },
    {
        match self.phase {
            Phase::Active => {
                self.phase = Phase::Reverting;
                Some(ROLLBACK)
            },
            _ => None,
        }
    }

    /// Leaves the transaction. One that is still open is rolled back: the
    /// rollback becomes due. One that was committed or rolled back, or never
    /// began, needs nothing.
    pub fn close(&mut self) -> (r: Option<&'static str>)
        ensures
            final(self).link() == old(self).link(),
            final(self).mode() == old(self).mode(),
            final(self).phase() == asked(old(self).phase(), Phase::Closing),
            match r {
                Some(sql) => old(self).phase() == Phase::Active && sql@ == ROLLBACK@,
                None => old(self).phase() != Phase::Active,
            },
    {
        match self.phase {
            Phase::Active => {
                self.phase = Phase::Closing;
                Some(ROLLBACK)
            },
            _ => None,
        }
    }

    /// Takes what running the due statement came to, and hands it on.
    pub fn settle(&mut self, outcome: Result<i32, Error>) -> (r: Result<i32, Error>)
        ensures
            final(self).link() == old(self).link(),
            final(self).mode() == old(self).mode(),
            final(self).phase() == settled(old(self).phase(), outcome is Ok),
            r == outcome,
    {
        let success = outcome.is_ok();
        self.phase =
        match self.phase {
            Phase::Begin => if success {
                Phase::Active
            } else {
                Phase::Refused
            },
            Phase::Ending => if success {
                Phase::Committed
            } else {
                Phase::Active
            },
            Phase::Reverting => if success {
                Phase::RolledBack
            } else {
                Phase::Active
            },
            Phase::Closing => if success {
                Phase::RolledBack
            } else {
                Phase::Stuck
            },
            phase => phase,
        };
        outcome
    }

    /// Whether the rollback on leaving failed. Nothing can be done on the
    /// connection after that: the caller must give up.
    pub fn is_stuck(&self) -> (r: bool)
        ensures
            r == (self.phase() == Phase::Stuck),
    {
        match self.phase {
            Phase::Stuck => true,
            _ => false,
        }
    }

    /// Stores `row` through the connection of this transaction.
    pub fn save<T: Crud>(&self, row: T) -> (r: Result<T, Error>)
        ensures
            call_ensures(T::save, (row, self.link()), r),
    {
        row.save(self.sqlite)
    }

    /// Removes `row` through the connection of this transaction.
    pub fn delete<T: Crud>(&self, row: T) -> (r: Result<T, Error>)
        ensures
            call_ensures(T::delete, (row, self.link()), r),
    {
        row.delete(self.sqlite)
    }
}

/// Where a transaction stands once it has been left, and the rollback on
/// leaving, where one was due, has run with or without success.
pub open spec fn left(phase: Phase, success: bool) -> Phase {
    settled(asked(phase, Phase::Closing), success)
}

/// Leaving a transaction leaves none open.
///
/// A transaction at rest that is left while it is open is rolled back: the
/// rollback is the statement that becomes due, and the transaction ends rolled
/// back where the rollback succeeds, and stuck where it fails. One that is not
/// open stays as it is. So whatever was written in a transaction that was not
/// committed is taken back when the transaction is left, or the caller is told
/// to give up.
pub proof fn lemma_leaving_closes(mode: Tx, phase: Phase, success: bool)
    requires
        due(mode, phase) is None,
    ensures
        !is_open(left(phase, success)),
        phase == Phase::Active ==> due(mode, asked(phase, Phase::Closing)) == Some(ROLLBACK@),
        phase == Phase::Active ==> left(phase, success) == if success {
            Phase::RolledBack
        } else {
            Phase::Stuck
        },
        phase != Phase::Active ==> left(phase, success) == phase,
{
}

/// A transaction becomes committed only by a commit that was asked for and
/// succeeded.
pub proof fn lemma_committed_by_end(phase: Phase, success: bool)
    requires
        phase != Phase::Committed,
        settled(phase, success) == Phase::Committed,
    ensures
        phase == Phase::Ending,
        success,
{
}

} // verus!
