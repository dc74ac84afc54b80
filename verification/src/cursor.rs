//! Draining a statement: stepping it to its end, for its rows or for the number
//! of rows it changed.
//!
//! The engine does the stepping. A cursor says what it needs of the engine next,
//! takes what the engine answered, and ends with the result, after the statement
//! has been finalized.
use crate::code::{is_success, SQLITE_ROW};
use crate::error::{classify, Error, ErrorView};
use crate::row::Row;
use crate::statement::{decode, Cell, CellView, Stmt};
use crate::value::ValueView;
use vstd::prelude::*;
use vstd::string::*;

verus! {

/// One column of the row at hand, as read from the engine: its name, and what
/// the reader for its type returned.
#[derive(Debug, PartialEq)]
pub struct Fetched {
    pub name: String,
    pub cell: Cell,
}

/// What a [`Fetched`] holds, as mathematics.
pub struct FetchedView {
    pub name: Seq<char>,
    pub cell: CellView,
}

impl View for Fetched {
    type V = FetchedView;

    open spec fn view(&self) -> FetchedView {
        FetchedView { name: self.name@, cell: self.cell@ }
    }
}

/// What a cursor needs of the engine next.
#[derive(Clone, Copy, Debug, PartialEq, Eq, Structural)]
pub enum Demand {
    /// Step the statement.
    Step,
    /// Read the columns of the row at hand, in their order.
    Read,
    /// Finalize the statement.
    Finalize,
    /// Ask the connection how many rows the last completed statement changed.
    Count,
}

/// What the engine answered to a demand.
#[derive(Debug, PartialEq)]
pub enum Event {
    /// The result code of a step, and the connection's diagnostic text.
    Stepped { code: i32, text: String },
    /// The columns of the row at hand.
    Read(Vec<Fetched>),
    /// The result code of finalizing, and the connection's diagnostic text.
    Finalized { code: i32, text: String },
    /// The number of rows changed.
    Counted(i32),
}

/// What an [`Event`] holds, as mathematics.
pub enum EventView {
    Stepped { code: i32, text: Seq<char> },
    Read(Seq<FetchedView>),
    Finalized { code: i32, text: Seq<char> },
    Counted(i32),
}

impl View for Event {
    type V = EventView;

    open spec fn view(&self) -> EventView {
        match self {
            Event::Stepped { code, text } => EventView::Stepped { code: *code, text: text@ },
            Event::Read(columns) => EventView::Read(columns@.map_values(|f: Fetched| f@)),
            Event::Finalized { code, text } => EventView::Finalized { code: *code, text: text@ },
            Event::Counted(n) => EventView::Counted(*n),
        }
    }
}

/// The row that columns read in this order make. Of two columns of one name the
/// later one stays.
pub open spec fn row_of(columns: Seq<FetchedView>) -> Map<Seq<char>, ValueView>
    decreases columns.len(),
{
    if columns.len() == 0 {
        Map::empty()
    } else {
        row_of(columns.drop_last()).insert(columns.last().name, decode(columns.last().cell))
    }
}

/// What a failed step leaves behind: its error, to be reported once the
/// statement is finalized.
pub open spec fn failure_of(code: i32, db: usize, text: Seq<char>) -> Option<ErrorView> {
    if is_success(code) {
        None
    } else {
        Some(classify(code, db, text))
    }
}

/// Builds the row of the columns read.
fn build_row(columns: Vec<Fetched>) -> (row: Row)
    ensures
        row.wf(),
        row@ == row_of(columns@.map_values(|f: Fetched| f@)),
{
    let ghost views = columns@.map_values(|f: Fetched| f@);
    let mut row = Row::new();
    for fetched in it: columns.into_iter()
        invariant
            it.seq() == columns@,
            views == columns@.map_values(|f: Fetched| f@),
            row.wf(),
            row@ == row_of(views.take(it.index() as int)),
    {
        proof {
            let i = it.index() as int;
            assert(views.take(i + 1).drop_last() =~= views.take(i));
            assert(views.take(i + 1).last() == fetched@);
        }
        let Fetched { name, cell } = fetched;
        row.insert(name, Stmt::column_value(cell));
    }
    assert(views.take(views.len() as int) =~= views);
    row
}

/// A statement on its way to its rows.
#[derive(Debug)]
pub struct Rows {
    stmt: Stmt,
    demand: Demand,
    rows: Vec<Row>,
    failure: Option<Error>,
}

/// What a [`Rows`] cursor holds, as mathematics.
pub struct RowsView {
    /// The handle of the connection.
    pub db: usize,
    /// The handle of the statement.
    pub stmt: usize,
    /// What the cursor needs next.
    pub demand: Demand,
    /// The rows read so far.
    pub rows: Seq<Map<Seq<char>, ValueView>>,
    /// The error of the step that failed, if one did.
    pub failure: Option<ErrorView>,
}

/// Where a [`Rows`] cursor stands after an event: it needs more, or it is done.
#[derive(Debug)]
pub enum RowsProgress {
    More(Rows),
    Done(Result<Vec<Row>, Error>),
}

/// What a [`RowsProgress`] holds, as mathematics.
pub enum RowsProgressView {
    More(RowsView),
    Done(Result<Seq<Map<Seq<char>, ValueView>>, ErrorView>),
}

/// The views of an error that may be there.
pub open spec fn failure_view(failure: Option<Error>) -> Option<ErrorView> {
    match failure {
        Some(e) => Some(e@),
        None => None,
    }
}

/// The views of rows.
pub open spec fn row_views(rows: Seq<Row>) -> Seq<Map<Seq<char>, ValueView>> {
    rows.map_values(|r: Row| r@)
}

impl View for Rows {
    type V = RowsView;

    closed spec fn view(&self) -> RowsView {
        RowsView {
            db: self.stmt.connection(),
            stmt: self.stmt.handle(),
            demand: self.demand,
            rows: row_views(self.rows@),
            failure: failure_view(self.failure),
        }
    }
}

impl View for RowsProgress {
    type V = RowsProgressView;

    open spec fn view(&self) -> RowsProgressView {
        match self {
            RowsProgress::More(rows) => RowsProgressView::More(rows@),
            RowsProgress::Done(Ok(rows)) => RowsProgressView::Done(Ok(row_views(rows@))),
            RowsProgress::Done(Err(e)) => RowsProgressView::Done(Err(e@)),
        }
    }
}

/// The start of a run for rows: nothing read, nothing failed, a step due.
pub open spec fn rows_start(db: usize, stmt: usize) -> RowsView {
    RowsView { db, stmt, demand: Demand::Step, rows: Seq::empty(), failure: None }
}

/// One move of a run for rows.
///
/// A step that gives a row asks for the row to be read, and the row read asks for
/// the next step. Any other step ends the stepping, and a failed one leaves its
/// error behind. The statement is then finalized, and only that ends the run:
/// with the error of the step, else with that of finalizing, else with the rows.
/// An event that does not answer the demand changes nothing.
pub open spec fn rows_next(s: RowsView, e: EventView) -> RowsProgressView {
    match (s.demand, e) {
        (Demand::Step, EventView::Stepped { code, text }) => RowsProgressView::More(
            if code == SQLITE_ROW {
                RowsView { demand: Demand::Read, ..s }
            } else {
                RowsView { demand: Demand::Finalize, failure: failure_of(code, s.db, text), ..s }
            },
        ),
        (Demand::Read, EventView::Read(columns)) => RowsProgressView::More(
            RowsView { demand: Demand::Step, rows: s.rows.push(row_of(columns)), ..s },
        ),
        (Demand::Finalize, EventView::Finalized { code, text }) => RowsProgressView::Done(
            match s.failure {
                Some(e) => Err(e),
                None => if is_success(code) {
                    Ok(s.rows)
                } else {
                    Err(classify(code, s.db, text))
                },
            },
        ),
        _ => RowsProgressView::More(s),
    }
}

impl Rows {
    #[verifier::type_invariant]
    spec fn rows_ordered(self) -> bool {
        forall|i: int| 0 <= i < self.rows@.len() ==> (#[trigger] self.rows@[i]).wf()
    }

    /// The cursor at the start of its run.
    pub(crate) fn new(stmt: Stmt) -> (r: Rows)
        ensures
            r@ == rows_start(stmt.connection(), stmt.handle()),
    {
        let r = Rows { stmt, demand: Demand::Step, rows: Vec::new(), failure: None };
        assert(r@.rows =~= Seq::empty());
        r
    }

    /// What the cursor needs of the engine next.
    pub fn demand(&self) -> (d: Demand)
        ensures
            d == self@.demand,
    {
        self.demand
    }

    /// Takes what the engine answered, and moves on.
    pub fn advance(self, event: Event) -> (r: RowsProgress)
        ensures
            r@ == rows_next(self@, event@),
            r matches RowsProgress::Done(Ok(rows)) ==> forall|i: int|
                0 <= i < rows@.len() ==> (#[trigger] rows@[i]).wf(),
    {
        proof {
            use_type_invariant(&self);
        }
        let Rows { stmt, demand, mut rows, failure } = self;
        match (demand, event) {
            (Demand::Step, Event::Stepped { code, text }) => {
                match stmt.step(code, text.as_str()) {
                    Ok(SQLITE_ROW) => RowsProgress::More(
                        Rows { stmt, demand: Demand::Read, rows, failure },
                    ),
                    Ok(_) => RowsProgress::More(
                        Rows { stmt, demand: Demand::Finalize, rows, failure: None },
                    ),
                    Err(e) => RowsProgress::More(
                        Rows { stmt, demand: Demand::Finalize, rows, failure: Some(e) },
                    ),
                }
            },
            (Demand::Read, Event::Read(columns)) => {
                let ghost before = rows@;
                let row = build_row(columns);
                rows.push(row);
                assert(row_views(rows@) =~= row_views(before).push(row@));
                RowsProgress::More(Rows { stmt, demand: Demand::Step, rows, failure })
            },
            (Demand::Finalize, Event::Finalized { code, text }) => {
                match failure {
                    Some(e) => RowsProgress::Done(Err(e)),
                    None => match stmt.finalize(code, text.as_str()) {
                        Ok(_) => RowsProgress::Done(Ok(rows)),
                        Err(e) => RowsProgress::Done(Err(e)),
                    },
                }
            },
            (demand, _) => RowsProgress::More(Rows { stmt, demand, rows, failure }),
        }
    }
}

/// The first of the rows, for a caller that expects one.
pub fn first_row(rows: Vec<Row>) -> (r: Result<Row, Error>)
    ensures
        match r {
            Ok(row) => rows@.len() > 0 && row == rows@[0],
            Err(e) => rows@.len() == 0 && e@ == ErrorView::RowNotFound,
        },
{
    let mut rows = rows;
    if rows.len() == 0 {
        Err(Error::RowNotFound)
    } else {
        Ok(rows.swap_remove(0))
    }
}

/// A statement on its way to the number of rows it changed.
#[derive(Debug)]
pub struct Changes {
    stmt: Stmt,
    demand: Demand,
    failure: Option<Error>,
}

/// What a [`Changes`] cursor holds, as mathematics.
pub struct ChangesView {
    /// The handle of the connection.
    pub db: usize,
    /// The handle of the statement.
    pub stmt: usize,
    /// What the cursor needs next.
    pub demand: Demand,
    /// The error of the step that failed, if one did.
    pub failure: Option<ErrorView>,
}

/// Where a [`Changes`] cursor stands after an event: it needs more, or it is done.
#[derive(Debug)]
pub enum ChangesProgress {
    More(Changes),
    Done(Result<i32, Error>),
}

/// What a [`ChangesProgress`] holds, as mathematics.
pub enum ChangesProgressView {
    More(ChangesView),
    Done(Result<i32, ErrorView>),
}

impl View for Changes {
    type V = ChangesView;

    closed spec fn view(&self) -> ChangesView {
        ChangesView {
            db: self.stmt.connection(),
            stmt: self.stmt.handle(),
            demand: self.demand,
            failure: failure_view(self.failure),
        }
    }
}

impl View for ChangesProgress {
    type V = ChangesProgressView;

    open spec fn view(&self) -> ChangesProgressView {
        match self {
            ChangesProgress::More(changes) => ChangesProgressView::More(changes@),
            ChangesProgress::Done(Ok(n)) => ChangesProgressView::Done(Ok(*n)),
            ChangesProgress::Done(Err(e)) => ChangesProgressView::Done(Err(e@)),
        }
    }
}

/// The start of a run for the number of changes: nothing failed, a step due.
pub open spec fn changes_start(db: usize, stmt: usize) -> ChangesView {
    ChangesView { db, stmt, demand: Demand::Step, failure: None }
}

/// One move of a run for the number of changes.
///
/// A step that gives a row asks for the next step: the rows are passed over. Any
/// other step ends the stepping, and a failed one leaves its error behind. The
/// statement is then finalized. That ends the run where the step or the
/// finalizing failed, with that error. Else the number of changes is asked for,
/// now that the statement is complete, and what comes back is the result. An
/// event that does not answer the demand changes nothing.
pub open spec fn changes_next(s: ChangesView, e: EventView) -> ChangesProgressView {
    match (s.demand, e) {
        (Demand::Step, EventView::Stepped { code, text }) => ChangesProgressView::More(
            if code == SQLITE_ROW {
                s
            } else {
                ChangesView {
                    demand: Demand::Finalize,
                    failure: failure_of(code, s.db, text),
                    ..s
                }
            },
        ),
        (Demand::Finalize, EventView::Finalized { code, text }) => match s.failure {
            Some(e) => ChangesProgressView::Done(Err(e)),
            None => if is_success(code) {
                ChangesProgressView::More(ChangesView { demand: Demand::Count, ..s })
            } else {
                ChangesProgressView::Done(Err(classify(code, s.db, text)))
            },
        },
        (Demand::Count, EventView::Counted(n)) => ChangesProgressView::Done(Ok(n)),
        _ => ChangesProgressView::More(s),
    }
}

impl Changes {
    /// The cursor at the start of its run.
    pub(crate) fn new(stmt: Stmt) -> (r: Changes)
        ensures
            r@ == changes_start(stmt.connection(), stmt.handle()),
    {
        Changes { stmt, demand: Demand::Step, failure: None }
    }

    /// What the cursor needs of the engine next.
    pub fn demand(&self) -> (d: Demand)
        ensures
            d == self@.demand,
    {
        self.demand
    }

    /// Takes what the engine answered, and moves on.
    pub fn advance(self, event: Event) -> (r: ChangesProgress)
        ensures
            r@ == changes_next(self@, event@),
    {
        let Changes { stmt, demand, failure } = self;
        match (demand, event) {
            (Demand::Step, Event::Stepped { code, text }) => {
                match stmt.step(code, text.as_str()) {
                    Ok(SQLITE_ROW) => ChangesProgress::More(
                        Changes { stmt, demand: Demand::Step, failure },
                    ),
                    Ok(_) => ChangesProgress::More(
                        Changes { stmt, demand: Demand::Finalize, failure: None },
                    ),
                    Err(e) => ChangesProgress::More(
                        Changes { stmt, demand: Demand::Finalize, failure: Some(e) },
                    ),
                }
            },
            (Demand::Finalize, Event::Finalized { code, text }) => {
                match failure {
                    Some(e) => ChangesProgress::Done(Err(e)),
                    None => match stmt.finalize(code, text.as_str()) {
                        Ok(_) => ChangesProgress::More(
                            Changes { stmt, demand: Demand::Count, failure: None },
                        ),
                        Err(e) => ChangesProgress::Done(Err(e)),
                    },
                }
            },
            (Demand::Count, Event::Counted(n)) => ChangesProgress::Done(Ok(n)),
            (demand, _) => ChangesProgress::More(Changes { stmt, demand, failure }),
        }
    }
}

impl Stmt {
    /// Gives the statement up to be run for its rows.
    pub fn rows(self) -> (r: Rows)
        ensures
            r@ == rows_start(self.connection(), self.handle()),
    {
        Rows::new(self)
    }

    /// Gives the statement up to be run for the number of rows it changes.
    pub fn changes(self) -> (r: Changes)
        ensures
            r@ == changes_start(self.connection(), self.handle()),
    {
        Changes::new(self)
    }
}

/// Where a run for rows stands after a sequence of events. Events that come
/// after the end are not looked at.
pub open spec fn rows_run(s: RowsView, events: Seq<EventView>) -> RowsProgressView
    decreases events.len(),
{
    if events.len() == 0 {
        RowsProgressView::More(s)
    } else {
        match rows_next(s, events[0]) {
            RowsProgressView::More(t) => rows_run(t, events.skip(1)),
            RowsProgressView::Done(r) => RowsProgressView::Done(r),
        }
    }
}

/// Where a run for the number of changes stands after a sequence of events.
/// Events that come after the end are not looked at.
pub open spec fn changes_run(s: ChangesView, events: Seq<EventView>) -> ChangesProgressView
    decreases events.len(),
{
    if events.len() == 0 {
        ChangesProgressView::More(s)
    } else {
        match changes_next(s, events[0]) {
            ChangesProgressView::More(t) => changes_run(t, events.skip(1)),
            ChangesProgressView::Done(r) => ChangesProgressView::Done(r),
        }
    }
}

/// One row as the engine hands it over: the diagnostic text that came with the
/// step, and the columns read.
pub struct Turn {
    pub text: Seq<char>,
    pub columns: Seq<FetchedView>,
}

/// The events of a statement that gives these rows, one after the other: for
/// each a step that announces it, and its columns.
pub open spec fn turns(reads: Seq<Turn>) -> Seq<EventView>
    decreases reads.len(),
{
    if reads.len() == 0 {
        Seq::empty()
    } else {
        seq![
            EventView::Stepped { code: SQLITE_ROW, text: reads[0].text },
            EventView::Read(reads[0].columns),
        ] + turns(reads.skip(1))
    }
}

/// The events of a statement that announces rows which nobody reads.
pub open spec fn passes(texts: Seq<Seq<char>>) -> Seq<EventView> {
    texts.map_values(|text: Seq<char>| EventView::Stepped { code: SQLITE_ROW, text })
}

/// What a run ends with once its last step and its finalizing are known, where
/// `value` is what it would give on success.
pub open spec fn ending<T>(
    db: usize,
    last: i32,
    last_text: Seq<char>,
    fin: i32,
    fin_text: Seq<char>,
    value: T,
) -> Result<T, ErrorView> {
    if !is_success(last) {
        Err(classify(last, db, last_text))
    } else if !is_success(fin) {
        Err(classify(fin, db, fin_text))
    } else {
        Ok(value)
    }
}

/// A run for rows ends only when the statement has been finalized.
pub proof fn lemma_rows_end_by_finalizing(s: RowsView, e: EventView)
    requires
        rows_next(s, e) is Done,
    ensures
        s.demand == Demand::Finalize,
        e is Finalized,
{
}

/// A run for the number of changes asks for that number only after the statement
/// has been finalized without error.
pub proof fn lemma_changes_count_after_finalizing(s: ChangesView, e: EventView)
    requires
        s.demand != Demand::Count,
        changes_next(s, e) is More,
        changes_next(s, e)->More_0.demand == Demand::Count,
    ensures
        s.demand == Demand::Finalize,
        s.failure is None,
        e is Finalized,
        is_success(e->Finalized_code),
{
}

/// A run for the number of changes ends only when the statement has been
/// finalized.
pub proof fn lemma_changes_end_by_finalizing(s: ChangesView, e: EventView)
    requires
        changes_next(s, e) is Done,
    ensures
        s.demand == Demand::Count || (s.demand == Demand::Finalize && e is Finalized),
{
}

proof fn lemma_rows_run_from(
    s: RowsView,
    reads: Seq<Turn>,
    last: i32,
    last_text: Seq<char>,
    fin: i32,
    fin_text: Seq<char>,
)
    requires
        s.demand == Demand::Step,
        s.failure is None,
        last != SQLITE_ROW,
    ensures
        rows_run(
            s,
            turns(reads) + seq![
                EventView::Stepped { code: last, text: last_text },
                EventView::Finalized { code: fin, text: fin_text },
            ],
        ) == RowsProgressView::Done(
            ending(
                s.db,
                last,
                last_text,
                fin,
                fin_text,
                s.rows + reads.map_values(|t: Turn| row_of(t.columns)),
            ),
        ),
    decreases reads.len(),
{
    let tail = seq![
        EventView::Stepped { code: last, text: last_text },
        EventView::Finalized { code: fin, text: fin_text },
    ];
    let events = turns(reads) + tail;
    let made = reads.map_values(|t: Turn| row_of(t.columns));
    if reads.len() == 0 {
        assert(events =~= tail);
        assert(events.skip(1) =~= seq![EventView::Finalized { code: fin, text: fin_text }]);
        assert(events.skip(1).skip(1) =~= Seq::<EventView>::empty());
        let t = rows_next(s, events[0])->More_0;
        assert(rows_run(t, events.skip(1)) == rows_next(t, events.skip(1)[0]));
        assert(s.rows + made =~= s.rows);
    } else {
        let rest = reads.skip(1);
        assert(events[0] == EventView::Stepped { code: SQLITE_ROW, text: reads[0].text });
        assert(events.skip(1)[0] == EventView::Read(reads[0].columns));
        assert(events.skip(1).skip(1) =~= turns(rest) + tail);
        let t = rows_next(s, events[0])->More_0;
        let u = rows_next(t, events.skip(1)[0])->More_0;
        assert(rows_run(s, events) == rows_run(t, events.skip(1)));
        assert(rows_run(t, events.skip(1)) == rows_run(u, events.skip(1).skip(1)));
        lemma_rows_run_from(u, rest, last, last_text, fin, fin_text);
        assert(u.rows + rest.map_values(|t: Turn| row_of(t.columns)) =~= s.rows + made);
    }
}

/// What a run for rows comes to.
///
/// The engine announces rows, each of which is read, then ends the stepping with
/// a code that announces no row, and the statement is finalized. The run then
/// ends with the error of the last step where that failed, else with the error
/// of finalizing where that failed, else with one row for each one read, in the
/// order in which they came.
pub proof fn lemma_rows_run(
    db: usize,
    stmt: usize,
    reads: Seq<Turn>,
    last: i32,
    last_text: Seq<char>,
    fin: i32,
    fin_text: Seq<char>,
)
    requires
        last != SQLITE_ROW,
    ensures
        rows_run(
            rows_start(db, stmt),
            turns(reads) + seq![
                EventView::Stepped { code: last, text: last_text },
                EventView::Finalized { code: fin, text: fin_text },
            ],
        ) == RowsProgressView::Done(
            ending(
                db,
                last,
                last_text,
                fin,
                fin_text,
                reads.map_values(|t: Turn| row_of(t.columns)),
            ),
        ),
{
    lemma_rows_run_from(rows_start(db, stmt), reads, last, last_text, fin, fin_text);
    assert(Seq::<Map<Seq<char>, ValueView>>::empty() + reads.map_values(
        |t: Turn| row_of(t.columns),
    ) =~= reads.map_values(|t: Turn| row_of(t.columns)));
}

proof fn lemma_changes_run_from(
    s: ChangesView,
    texts: Seq<Seq<char>>,
    last: i32,
    last_text: Seq<char>,
    fin: i32,
    fin_text: Seq<char>,
    count: i32,
)
    requires
        s.demand == Demand::Step,
        s.failure is None,
        last != SQLITE_ROW,
    ensures
        changes_run(
            s,
            passes(texts) + seq![
                EventView::Stepped { code: last, text: last_text },
                EventView::Finalized { code: fin, text: fin_text },
                EventView::Counted(count),
            ],
        ) == ChangesProgressView::Done(ending(s.db, last, last_text, fin, fin_text, count)),
    decreases texts.len(),
{
    let tail = seq![
        EventView::Stepped { code: last, text: last_text },
        EventView::Finalized { code: fin, text: fin_text },
        EventView::Counted(count),
    ];
    let events = passes(texts) + tail;
    if texts.len() == 0 {
        assert(events =~= tail);
        let e1 = events.skip(1);
        let e2 = e1.skip(1);
        assert(e1[0] == tail[1]);
        assert(e2[0] == tail[2]);
        assert(e2.skip(1) =~= Seq::<EventView>::empty());
        let t = changes_next(s, events[0])->More_0;
        assert(changes_run(s, events) == changes_run(t, e1));
        if changes_next(t, e1[0]) is More {
            let u = changes_next(t, e1[0])->More_0;
            assert(changes_run(t, e1) == changes_run(u, e2));
        }
    } else {
        assert(events[0] == EventView::Stepped { code: SQLITE_ROW, text: texts[0] });
        assert(events.skip(1) =~= passes(texts.skip(1)) + tail);
        assert(changes_run(s, events) == changes_run(s, events.skip(1)));
        lemma_changes_run_from(s, texts.skip(1), last, last_text, fin, fin_text, count);
    }
}

/// What a run for the number of changes comes to.
///
/// The engine announces rows, which are passed over, then ends the stepping with
/// a code that announces no row, the statement is finalized, and the connection
/// is asked for the number of rows changed. The run then ends with the error of
/// the last step where that failed, else with the error of finalizing where that
/// failed, else with exactly the number that the connection gave.
pub proof fn lemma_changes_run(
    db: usize,
    stmt: usize,
    texts: Seq<Seq<char>>,
    last: i32,
    last_text: Seq<char>,
    fin: i32,
    fin_text: Seq<char>,
    count: i32,
)
    requires
        last != SQLITE_ROW,
    ensures
        changes_run(
            changes_start(db, stmt),
            passes(texts) + seq![
                EventView::Stepped { code: last, text: last_text },
                EventView::Finalized { code: fin, text: fin_text },
                EventView::Counted(count),
            ],
        ) == ChangesProgressView::Done(ending(db, last, last_text, fin, fin_text, count)),
{
    lemma_changes_run_from(
        changes_start(db, stmt),
        texts,
        last,
        last_text,
        fin,
        fin_text,
        count,
    );
}

} // verus!
