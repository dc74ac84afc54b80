//! Migrations: schema statements applied in order inside one transaction, each
//! recorded in a ledger table of the database.
//!
//! The engine runs the statements. A migration run says which job is due, takes
//! what the job came to, and decides how the run goes on.
use crate::connection::Sqlite;
use crate::error::{Error, ErrorView};
use crate::transaction::{BEGIN_IMMEDIATE, END, ROLLBACK};
use vstd::prelude::*;
use vstd::string::*;

verus! {

/// The statement that makes sure the ledger table is there.
pub const LEDGER: &'static str =
    "create table if not exists migrations (sql text unique not null) strict";

/// The statement that records a migration in the ledger, under its own text. It
/// takes that text as its one parameter.
pub const RECORD: &'static str =
    "insert into migrations (sql) values (:sql) on conflict (sql) do update set sql = excluded.sql";

/// Where a migration run stands: the job that is due.
#[derive(Clone, Copy, Debug, PartialEq, Eq, Structural)]
pub enum Stage {
    /// Begin the transaction.
    Begin,
    /// Make sure the ledger is there.
    Ledger,
    /// Apply the migration at hand.
    Apply,
    /// Record the migration at hand.
    Record,
    /// Commit.
    End,
    /// Roll back, after a failure.
    Rollback,
}

/// A job for the engine.
#[derive(Debug, PartialEq)]
pub enum Job<'m> {
    /// Run this statement, which takes no parameters.
    Execute(&'m str),
    /// Prepare the statement `sql`, bind `text` as its one parameter, and run it
    /// for the number of rows it changes.
    Record { sql: &'static str, text: &'m str },
}

/// What a [`Job`] holds, as mathematics.
pub enum JobView {
    Execute(Seq<char>),
    Record { sql: Seq<char>, text: Seq<char> },
}

impl<'m> View for Job<'m> {
    type V = JobView;

    open spec fn view(&self) -> JobView {
        match self {
            Job::Execute(sql) => JobView::Execute(sql@),
            Job::Record { sql, text } => JobView::Record { sql: sql@, text: text@ },
        }
    }
}

/// What a job came to, as mathematics.
pub open spec fn outcome_view(outcome: Result<i32, Error>) -> Result<i32, ErrorView> {
    match outcome {
        Ok(n) => Ok(n),
        Err(e) => Err(e@),
    }
}

/// Whether the run goes on after applying a migration came to this: it
/// succeeded, or it failed only because the column it adds is there already,
/// which says that the migration was applied before.
pub open spec fn tolerated(outcome: Result<i32, ErrorView>) -> bool {
    match outcome {
        Ok(_) => true,
        Err(ErrorView::DuplicateColumnName(_)) => true,
        Err(_) => false,
    }
}

/// What a [`Migration`] holds, as mathematics.
pub struct MigrationView {
    /// The statements to apply, in their order.
    pub migrations: Seq<Seq<char>>,
    /// The place of the migration at hand.
    pub at: nat,
    /// The job that is due.
    pub stage: Stage,
    /// The failure that the run will end with, once it has rolled back.
    pub failure: Option<ErrorView>,
}

/// Where a migration run stands after a job: it needs more, it is done, or it
/// must be given up because the rollback failed, with the error given.
pub enum MigrationProgressView {
    More(MigrationView),
    Done(Result<(), ErrorView>),
    Abort(ErrorView),
}

impl MigrationView {
    /// Whether the run has a migration at hand where its job needs one, and a
    /// failure to report where it rolls back.
    pub open spec fn wf(self) -> bool {
        &&& (self.stage == Stage::Apply || self.stage == Stage::Record) ==> self.at
            < self.migrations.len()
        &&& self.stage == Stage::Rollback ==> self.failure is Some
    }

    /// The job that is due.
    pub open spec fn job(self) -> JobView {
        match self.stage {
            Stage::Begin => JobView::Execute(BEGIN_IMMEDIATE@),
            Stage::Ledger => JobView::Execute(LEDGER@),
            Stage::Apply => JobView::Execute(self.migrations[self.at as int]),
            Stage::Record => JobView::Record {
                sql: RECORD@,
                text: self.migrations[self.at as int],
            },
            Stage::End => JobView::Execute(END@),
            Stage::Rollback => JobView::Execute(ROLLBACK@),
        }
    }

    /// The run as it rolls back, to end with the error `e`.
    pub open spec fn failing(self, e: ErrorView) -> MigrationView {
        MigrationView { stage: Stage::Rollback, failure: Some(e), ..self }
    }

    /// The run at the migration `at`, or at the commit once none is left.
    pub open spec fn turning_to(self, at: nat) -> MigrationView {
        if at < self.migrations.len() {
            MigrationView { stage: Stage::Apply, at, ..self }
        } else {
            MigrationView { stage: Stage::End, at, ..self }
        }
    }
}

/// The start of a run: the transaction is to begin.
pub open spec fn migration_start(migrations: Seq<Seq<char>>) -> MigrationView {
    MigrationView { migrations, at: 0, stage: Stage::Begin, failure: None }
}

/// One move of a migration run: how it goes on after the due job came to
/// `outcome`.
///
/// Where the transaction cannot begin, the run ends with that error. Once it has
/// begun, the ledger is made sure of, and each migration in its turn is applied
/// and then recorded; a migration that fails on a column that is there already
/// counts as applied and is recorded like the others. After the last one the
/// transaction is committed, and the run ends well. Any other failure, that of
/// the commit too, makes the run roll back and end with that failure. A rollback
/// that fails leaves nothing to go on with.
pub open spec fn migration_next(
    m: MigrationView,
    outcome: Result<i32, ErrorView>,
) -> MigrationProgressView {
    match m.stage {
        Stage::Begin => match outcome {
            Ok(_) => MigrationProgressView::More(MigrationView { stage: Stage::Ledger, ..m }),
            Err(e) => MigrationProgressView::Done(Err(e)),
        },
        Stage::Ledger => match outcome {
            Ok(_) => MigrationProgressView::More(m.turning_to(0)),
            Err(e) => MigrationProgressView::More(m.failing(e)),
        },
        Stage::Apply => match outcome {
            Err(e) if !tolerated(outcome) => MigrationProgressView::More(m.failing(e)),
            _ => MigrationProgressView::More(MigrationView { stage: Stage::Record, ..m }),
        },
        Stage::Record => match outcome {
            Ok(_) => MigrationProgressView::More(m.turning_to(m.at + 1)),
            Err(e) => MigrationProgressView::More(m.failing(e)),
        },
        Stage::End => match outcome {
            Ok(_) => MigrationProgressView::Done(Ok(())),
            Err(e) => MigrationProgressView::More(m.failing(e)),
        },
        Stage::Rollback => match outcome {
            Ok(_) => MigrationProgressView::Done(Err(m.failure->0)),
            Err(e) => MigrationProgressView::Abort(e),
        },
    }
}

/// A migration run.
#[derive(Debug)]
pub struct Migration {
    migrations: Vec<String>,
    at: usize,
    stage: Stage,
    failure: Option<Error>,
}

/// Where a migration run stands after a job: it needs more, it is done, or it
/// must be given up because the rollback failed, with the error given.
#[derive(Debug)]
pub enum MigrationProgress {
    More(Migration),
    Done(Result<(), Error>),
    Abort(Error),
}

impl View for Migration {
    type V = MigrationView;

    closed spec fn view(&self) -> MigrationView {
        MigrationView {
            migrations: self.migrations@.map_values(|s: String| s@),
            at: self.at as nat,
            stage: self.stage,
            failure: match self.failure {
                Some(e) => Some(e@),
                None => None,
            },
        }
    }
}

impl View for MigrationProgress {
    type V = MigrationProgressView;

    open spec fn view(&self) -> MigrationProgressView {
        match self {
            MigrationProgress::More(m) => MigrationProgressView::More(m@),
            MigrationProgress::Done(Ok(_)) => MigrationProgressView::Done(Ok(())),
            MigrationProgress::Done(Err(e)) => MigrationProgressView::Done(Err(e@)),
            MigrationProgress::Abort(e) => MigrationProgressView::Abort(e@),
        }
    }
}

impl Migration {
    #[verifier::type_invariant]
    spec fn well_formed(self) -> bool {
        self@.wf()
    }

    /// The run of `migrations` at its start.
    pub fn new(migrations: Vec<String>) -> (m: Migration)
        ensures
            m@ == migration_start(migrations@.map_values(|s: String| s@)),
    {
        Migration { migrations, at: 0, stage: Stage::Begin, failure: None }
    }

    /// The job that is due.
    pub fn job(&self) -> (j: Job<'_>)
        ensures
            j@ == self@.job(),
    {
        proof {
            use_type_invariant(self);
        }
        match self.stage {
            Stage::Begin => Job::Execute(BEGIN_IMMEDIATE),
            Stage::Ledger => Job::Execute(LEDGER),
            Stage::Apply => Job::Execute(self.migrations[self.at].as_str()),
            Stage::Record => Job::Record { sql: RECORD, text: self.migrations[self.at].as_str() },
            Stage::End => Job::Execute(END),
            Stage::Rollback => Job::Execute(ROLLBACK),
        }
    }

    /// Takes what the due job came to, and moves on.
    pub fn advance(self, outcome: Result<i32, Error>) -> (r: MigrationProgress)
        ensures
            r@ == migration_next(self@, outcome_view(outcome)),
    {
        proof {
            use_type_invariant(&self);
            assert(self@.migrations.len() == self.migrations@.len());
        }
        let Migration { migrations, at, stage, failure } = self;
        match stage {
            Stage::Begin => match outcome {
                Ok(_) => MigrationProgress::More(
                    Migration { migrations, at, stage: Stage::Ledger, failure },
                ),
                Err(e) => MigrationProgress::Done(Err(e)),
            },
            Stage::Ledger => match outcome {
                Ok(_) => {
                    let stage = if 0 < migrations.len() {
                        Stage::Apply
                    } else {
                        Stage::End
                    };
                    MigrationProgress::More(Migration { migrations, at: 0, stage, failure })
                },
                Err(e) => MigrationProgress::More(
                    Migration { migrations, at, stage: Stage::Rollback, failure: Some(e) },
                ),
            },
            Stage::Apply => match outcome {
                Ok(_) => MigrationProgress::More(
                    Migration { migrations, at, stage: Stage::Record, failure },
                ),
                Err(Error::DuplicateColumnName(_)) => MigrationProgress::More(
                    Migration { migrations, at, stage: Stage::Record, failure },
                ),
                Err(e) => MigrationProgress::More(
                    Migration { migrations, at, stage: Stage::Rollback, failure: Some(e) },
                ),
            },
            Stage::Record => match outcome {
                Ok(_) => {
                    let n = migrations.len();
                    let stage = if at + 1 < n {
                        Stage::Apply
                    } else {
                        Stage::End
                    };
                    MigrationProgress::More(Migration { migrations, at: at + 1, stage, failure })
                },
                Err(e) => MigrationProgress::More(
                    Migration { migrations, at, stage: Stage::Rollback, failure: Some(e) },
                ),
            },
            Stage::End => match outcome {
                Ok(_) => MigrationProgress::Done(Ok(())),
                Err(e) => MigrationProgress::More(
                    Migration { migrations, at, stage: Stage::Rollback, failure: Some(e) },
                ),
            },
            Stage::Rollback => match outcome {
                Ok(_) => match failure {
                    Some(e) => MigrationProgress::Done(Err(e)),
                    None => unreached(),
                },
                Err(e) => MigrationProgress::Abort(e),
            },
        }
    }
}

impl Sqlite {
    /// A run that applies `migrations` to this connection's database, in the
    /// order given.
    pub fn migrate(&self, migrations: Vec<String>) -> (m: Migration)
        ensures
            m@ == migration_start(migrations@.map_values(|s: String| s@)),
    {
        Migration::new(migrations)
    }
}

/// Where a run stands after the jobs it asked for came to `outcomes`, one after
/// the other. Outcomes that come after the end are not looked at.
pub open spec fn migration_run(
    m: MigrationView,
    outcomes: Seq<Result<i32, ErrorView>>,
) -> MigrationProgressView
    decreases outcomes.len(),
{
    if outcomes.len() == 0 {
        MigrationProgressView::More(m)
    } else {
        match migration_run(m, outcomes.drop_last()) {
            MigrationProgressView::More(t) => migration_next(t, outcomes.last()),
            ended => ended,
        }
    }
}

/// A job that was done in a run: the stage it was done in, the job, and what it
/// came to.
pub struct Entry {
    pub stage: Stage,
    pub job: JobView,
    pub outcome: Result<i32, ErrorView>,
}

/// The jobs that were done in a run, in their order.
pub open spec fn migration_trace(
    m: MigrationView,
    outcomes: Seq<Result<i32, ErrorView>>,
) -> Seq<Entry>
    decreases outcomes.len(),
{
    if outcomes.len() == 0 {
        Seq::empty()
    } else {
        match migration_run(m, outcomes.drop_last()) {
            MigrationProgressView::More(t) => migration_trace(m, outcomes.drop_last()).push(
                Entry { stage: t.stage, job: t.job(), outcome: outcomes.last() },
            ),
            _ => migration_trace(m, outcomes.drop_last()),
        }
    }
}

/// The stage of the `k`-th job of a run of `n` migrations in which nothing
/// fails: the beginning, the ledger, then for each migration its application and
/// its record, then the commit.
pub open spec fn script_stage(n: nat, k: int) -> Stage {
    if k == 0 {
        Stage::Begin
    } else if k == 1 {
        Stage::Ledger
    } else if k == 2 * n + 2 {
        Stage::End
    } else if k % 2 == 0 {
        Stage::Apply
    } else {
        Stage::Record
    }
}

/// The `k`-th job of a run of `migrations` in which nothing fails.
pub open spec fn script_job(migrations: Seq<Seq<char>>, k: int) -> JobView {
    match script_stage(migrations.len(), k) {
        Stage::Begin => JobView::Execute(BEGIN_IMMEDIATE@),
        Stage::Ledger => JobView::Execute(LEDGER@),
        Stage::Apply => JobView::Execute(migrations[(k - 2) / 2]),
        Stage::Record => JobView::Record { sql: RECORD@, text: migrations[(k - 2) / 2] },
        Stage::End => JobView::Execute(END@),
        Stage::Rollback => JobView::Execute(ROLLBACK@),
    }
}

/// Whether nothing in these outcomes stops a run of `n` migrations: there is one
/// for each job, each application is tolerated, and every other job succeeds.
pub open spec fn goes_through(n: nat, outcomes: Seq<Result<i32, ErrorView>>) -> bool {
    &&& outcomes.len() == 2 * n + 3
    &&& forall|k: int|
        0 <= k < outcomes.len() ==> if script_stage(n, k) == Stage::Apply {
            tolerated(#[trigger] outcomes[k])
        } else {
            outcomes[k] is Ok
        }
}

/// Where a run in which nothing fails stands before its `k`-th job.
spec fn script_state(migrations: Seq<Seq<char>>, k: int) -> MigrationView {
    MigrationView {
        migrations,
        at: if k < 2 {
            0
        } else {
            ((k - 2) / 2) as nat
        },
        stage: script_stage(migrations.len(), k),
        failure: None,
    }
}

proof fn lemma_script_prefix(
    migrations: Seq<Seq<char>>,
    outcomes: Seq<Result<i32, ErrorView>>,
    k: int,
)
    requires
        goes_through(migrations.len(), outcomes),
        0 <= k < outcomes.len(),
    ensures
        migration_run(migration_start(migrations), outcomes.take(k)) == MigrationProgressView::More(
            script_state(migrations, k),
        ),
        migration_trace(migration_start(migrations), outcomes.take(k)) == Seq::new(
            k as nat,
            |j: int|
                Entry {
                    stage: script_stage(migrations.len(), j),
                    job: script_job(migrations, j),
                    outcome: outcomes[j],
                },
        ),
    decreases k,
{
    let start = migration_start(migrations);
    let n = migrations.len();
    let expected = Seq::new(
        k as nat,
        |j: int|
            Entry {
                stage: script_stage(migrations.len(), j),
                job: script_job(migrations, j),
                outcome: outcomes[j],
            },
    );
    if k == 0 {
        assert(outcomes.take(0) =~= Seq::empty());
        assert(migration_trace(start, outcomes.take(k)) =~= expected);
    } else {
        lemma_script_prefix(migrations, outcomes, k - 1);
        let before = outcomes.take(k - 1);
        assert(outcomes.take(k).drop_last() =~= before);
        assert(outcomes.take(k).last() == outcomes[k - 1]);
        let t = script_state(migrations, k - 1);
        assert(tolerated(outcomes[k - 1]));
        assert(t.job() == script_job(migrations, k - 1));
        assert(migration_next(t, outcomes[k - 1]) == MigrationProgressView::More(
            script_state(migrations, k),
        ));
        assert(migration_trace(start, outcomes.take(k)) =~= expected);
    }
}

/// What a run comes to in which nothing fails but applications of migrations
/// that were applied before.
///
/// Where each application succeeds or is tolerated, and every other job
/// succeeds, the run ends well, and the jobs it asked for are those of the
/// script, whatever the applications came to: to begin, the ledger, each
/// migration applied and recorded in its turn, and the commit. So a set that was
/// applied once is taken as applied when it is run again, and is recorded under
/// the same texts.
pub proof fn lemma_migration_goes_through(
    migrations: Seq<Seq<char>>,
    outcomes: Seq<Result<i32, ErrorView>>,
)
    requires
        goes_through(migrations.len(), outcomes),
    ensures
        migration_run(migration_start(migrations), outcomes) == MigrationProgressView::Done(Ok(())),
        migration_trace(migration_start(migrations), outcomes) == Seq::new(
            outcomes.len(),
            |j: int|
                Entry {
                    stage: script_stage(migrations.len(), j),
                    job: script_job(migrations, j),
                    outcome: outcomes[j],
                },
        ),
{
    let start = migration_start(migrations);
    let k = outcomes.len() - 1;
    lemma_script_prefix(migrations, outcomes, k);
    assert(outcomes.drop_last() =~= outcomes.take(k));
    assert(script_state(migrations, k).job() == script_job(migrations, k));
    assert(migration_trace(start, outcomes) =~= Seq::new(
        outcomes.len(),
        |j: int|
            Entry {
                stage: script_stage(migrations.len(), j),
                job: script_job(migrations, j),
                outcome: outcomes[j],
            },
    ));
}

/// Whether no commit in these jobs succeeded.
pub open spec fn uncommitted(trace: Seq<Entry>) -> bool {
    forall|k: int|
        0 <= k < trace.len() ==> (#[trigger] trace[k]).stage == Stage::End ==> trace[k].outcome
            is Err
}

/// Whether nothing in these jobs stopped the run: each application was
/// tolerated, every other job succeeded, and none was a rollback.
pub open spec fn unhindered(trace: Seq<Entry>) -> bool {
    forall|k: int|
        0 <= k < trace.len() ==> (#[trigger] trace[k]).stage != Stage::Rollback && if trace[k].stage
            == Stage::Apply {
            tolerated(trace[k].outcome)
        } else {
            trace[k].outcome is Ok
        }
}

/// What the jobs done say of where the run stands.
///
/// A run that ended well did nothing that stopped it, and its last job was the
/// commit, which succeeded. A run that ended with an error committed nothing:
/// either its one job was to begin, which failed with that error, or its last
/// job was the rollback, which succeeded, and the job before it failed with
/// that error. A run that had to be given up committed nothing, and its last
/// job was the rollback, which failed with the error given.
pub open spec fn accounted(progress: MigrationProgressView, trace: Seq<Entry>) -> bool {
    match progress {
        MigrationProgressView::More(t) => {
            &&& uncommitted(trace)
            &&& t.stage == Stage::Begin <==> trace.len() == 0
            &&& t.stage != Stage::Rollback ==> unhindered(trace)
            &&& t.stage == Stage::Rollback ==> {
                &&& trace.len() >= 1
                &&& trace.last().stage != Stage::Begin
                &&& trace.last().stage != Stage::Rollback
                &&& t.failure is Some
                &&& trace.last().outcome == Err::<i32, ErrorView>(t.failure->0)
            }
        },
        MigrationProgressView::Done(Ok(_)) => {
            &&& unhindered(trace)
            &&& trace.len() >= 1
            &&& trace.last().stage == Stage::End
            &&& trace.last().outcome is Ok
        },
        MigrationProgressView::Done(Err(e)) => {
            &&& uncommitted(trace)
            &&& trace.len() >= 1
            &&& if trace.len() == 1 {
                trace[0].stage == Stage::Begin && trace[0].outcome == Err::<i32, ErrorView>(e)
            } else {
                &&& trace.last().stage == Stage::Rollback
                &&& trace.last().outcome is Ok
                &&& trace[trace.len() - 2].stage != Stage::Begin
                &&& trace[trace.len() - 2].outcome == Err::<i32, ErrorView>(e)
            }
        },
        MigrationProgressView::Abort(e) => {
            &&& uncommitted(trace)
            &&& trace.len() >= 2
            &&& trace.last().stage == Stage::Rollback
            &&& trace.last().outcome == Err::<i32, ErrorView>(e)
        },
    }
}

/// A run commits all or nothing.
///
/// Whatever the jobs come to, the jobs done account for where the run stands, as
/// [`accounted`] says. No run that ends with an error, or is given up, has
/// committed; each has asked for the rollback after the first job that failed,
/// unless nothing had begun.
pub proof fn lemma_migration_all_or_nothing(
    migrations: Seq<Seq<char>>,
    outcomes: Seq<Result<i32, ErrorView>>,
)
    ensures
        accounted(
            migration_run(migration_start(migrations), outcomes),
            migration_trace(migration_start(migrations), outcomes),
        ),
    decreases outcomes.len(),
{
    let start = migration_start(migrations);
    if outcomes.len() > 0 {
        let before = outcomes.drop_last();
        lemma_migration_all_or_nothing(migrations, before);
        let trace = migration_trace(start, before);
        match migration_run(start, before) {
            MigrationProgressView::More(t) => {
                let entry = Entry { stage: t.stage, job: t.job(), outcome: outcomes.last() };
                let after = trace.push(entry);
                assert(migration_trace(start, outcomes) == after);
                assert forall|k: int| 0 <= k < after.len() implies (#[trigger] after[k])
                    == if k < trace.len() {
                    trace[k]
                } else {
                    entry
                } by {}
                if trace.len() >= 1 {
                    assert(after[after.len() - 2] == trace.last());
                }
            },
            _ => {},
        }
    }
}

} // verus!
