//! Prepared statements: what is bound to them, and what their columns decode to.
use crate::code::{
    is_success, succeeded, SQLITE_BLOB, SQLITE_FLOAT, SQLITE_INTEGER, SQLITE_TEXT,
};
use crate::error::{classify, sqlite_err, Error, ErrorView};
use crate::value::{Blob, Int, Real, Text, Value, ValueView};
use vstd::prelude::*;
use vstd::string::*;

verus! {

/// A parameter in the form in which the engine binds it. Text and blobs come
/// with their length in bytes.
#[derive(Debug, PartialEq)]
pub enum Param<'a> {
    Text { text: &'a str, len: i32 },
    Int(i64),
    Real(u64),
    Blob { bytes: &'a [u8], len: i32 },
    Null,
}

/// What a [`Param`] holds, as mathematics.
pub enum ParamView {
    Text { text: Seq<char>, len: i32 },
    Int(i64),
    Real(u64),
    Blob { bytes: Seq<u8>, len: i32 },
    Null,
}

impl<'a> View for Param<'a> {
    type V = ParamView;

    open spec fn view(&self) -> ParamView {
        match self {
            Param::Text { text, len } => ParamView::Text { text: text@, len: *len },
            Param::Int(n) => ParamView::Int(*n),
            Param::Real(x) => ParamView::Real(*x),
            Param::Blob { bytes, len } => ParamView::Blob { bytes: bytes@, len: *len },
            Param::Null => ParamView::Null,
        }
    }
}

/// A parameter on its way to a slot of a statement. Slots count from 1.
#[derive(Debug, PartialEq)]
pub struct Binding<'a> {
    pub slot: i32,
    pub param: Param<'a>,
}

/// How many bytes the engine is handed for a value; 0 where it is handed none.
pub open spec fn byte_len(value: ValueView) -> nat {
    match value {
        ValueView::Text(Some(s)) => vstd::utf8::encode_utf8(s).len(),
        ValueView::Blob(Some(b)) => b.len(),
        _ => 0,
    }
}

/// The form in which a value is bound. Every value that stands for "no value"
/// is bound as the engine's null.
pub open spec fn param_of(value: ValueView) -> ParamView {
    match value {
        ValueView::Text(Some(s)) => ParamView::Text { text: s, len: byte_len(value) as i32 },
        ValueView::Int(Some(n)) => ParamView::Int(n),
        ValueView::Real(Some(x)) => ParamView::Real(x),
        ValueView::Blob(Some(b)) => ParamView::Blob { bytes: b, len: byte_len(value) as i32 },
        _ => ParamView::Null,
    }
}

/// Whether the engine can be handed these parameters: their number and the
/// length of each fit its 32-bit integer.
pub open spec fn bindable(params: Seq<Value>) -> bool {
    &&& params.len() <= i32::MAX
    &&& forall|i: int| 0 <= i < params.len() ==> byte_len((#[trigger] params[i])@) <= i32::MAX
}

impl Value {
    /// The form in which the engine binds this value.
    pub fn to_param<'a>(&'a self) -> (r: Result<Param<'a>, Error>)
        ensures
            match r {
                Ok(p) => byte_len(self@) <= i32::MAX && p@ == param_of(self@),
                Err(e) => byte_len(self@) > i32::MAX && e@ == ErrorView::TryFromInt,
            },
    {
        match self {
            Value::Text(Text(Some(s))) => {
                let text = s.as_str();
                let n = text.as_bytes().len();
                if n > i32::MAX as usize {
                    Err(Error::TryFromInt)
                } else {
                    Ok(Param::Text { text, len: n as i32 })
                }
            },
            Value::Int(Int(Some(n))) => Ok(Param::Int(*n)),
            Value::Real(Real(Some(x))) => Ok(Param::Real(*x)),
            Value::Blob(Blob(Some(b))) => {
                let n = b.len();
                if n > i32::MAX as usize {
                    Err(Error::TryFromInt)
                } else {
                    Ok(Param::Blob { bytes: b.as_slice(), len: n as i32 })
                }
            },
            _ => Ok(Param::Null),
        }
    }
}

/// The reader of the engine that serves a column.
#[derive(Clone, Copy, Debug, PartialEq, Eq)]
pub enum Reader {
    Int64,
    Double,
    Text,
    Blob,
    Nothing,
}

/// What a reader returned for a column. A real comes as the bits of its double.
#[derive(Debug, PartialEq)]
pub enum Cell {
    Int64(i64),
    Double(u64),
    Text(String),
    Blob(Vec<u8>),
    Nothing,
}

/// What a [`Cell`] holds, as mathematics.
pub enum CellView {
    Int64(i64),
    Double(u64),
    Text(Seq<char>),
    Blob(Seq<u8>),
    Nothing,
}

impl View for Cell {
    type V = CellView;

    open spec fn view(&self) -> CellView {
        match self {
            Cell::Int64(n) => CellView::Int64(*n),
            Cell::Double(x) => CellView::Double(*x),
            Cell::Text(s) => CellView::Text(s@),
            Cell::Blob(b) => CellView::Blob(b@),
            Cell::Nothing => CellView::Nothing,
        }
    }
}

/// The reader that serves a column of the type tag `tag`. The engine tells the
/// type that a column holds in the row at hand; a tag that names none of the
/// four types that hold something is read as holding nothing.
pub open spec fn reader_for(tag: i32) -> Reader {
    if tag == SQLITE_INTEGER {
        Reader::Int64
    } else if tag == SQLITE_FLOAT {
        Reader::Double
    } else if tag == SQLITE_TEXT {
        Reader::Text
    } else if tag == SQLITE_BLOB {
        Reader::Blob
    } else {
        Reader::Nothing
    }
}

/// The value that a cell decodes to: the variant of its type, holding what the
/// cell holds, and `Null` for the cell that holds nothing.
pub open spec fn decode(cell: CellView) -> ValueView {
    match cell {
        CellView::Int64(n) => ValueView::Int(Some(n)),
        CellView::Double(x) => ValueView::Real(Some(x)),
        CellView::Text(s) => ValueView::Text(Some(s)),
        CellView::Blob(b) => ValueView::Blob(Some(b)),
        CellView::Nothing => ValueView::Null,
    }
}

/// The cell that the engine hands back for a column that holds what was bound:
/// the same content, under the type it was bound with.
pub open spec fn stored(param: ParamView) -> CellView {
    match param {
        ParamView::Text { text, .. } => CellView::Text(text),
        ParamView::Int(n) => CellView::Int64(n),
        ParamView::Real(x) => CellView::Double(x),
        ParamView::Blob { bytes, .. } => CellView::Blob(bytes),
        ParamView::Null => CellView::Nothing,
    }
}

/// Binding and decoding undo each other.
///
/// A value that holds something comes back as it was bound, from a column that
/// holds what was bound. A value that holds nothing, of whatever type, comes
/// back as `Null`. Read as the type it was bound with, each comes back with what
/// it held.
pub proof fn lemma_bind_then_decode(value: ValueView)
    ensures
        !value.is_absent() ==> decode(stored(param_of(value))) == value,
        value.is_absent() ==> decode(stored(param_of(value))) == ValueView::Null,
        value matches ValueView::Text(t) ==> decode(stored(param_of(value))).as_text() == Some(t),
        value matches ValueView::Int(n) ==> decode(stored(param_of(value))).as_int() == Some(n),
        value matches ValueView::Real(x) ==> decode(stored(param_of(value))).as_real() == Some(x),
        value matches ValueView::Blob(b) ==> decode(stored(param_of(value))).as_blob() == Some(b),
{
}

/// Every value that holds nothing comes back as the one that holds nothing of
/// the type it is read as, whichever type it was bound with.
pub proof fn lemma_absent_reads_as_absent(value: ValueView)
    requires
        value.is_absent(),
    ensures
        decode(stored(param_of(value))).as_text() == Some(None::<Seq<char>>),
        decode(stored(param_of(value))).as_int() == Some(None::<i64>),
        decode(stored(param_of(value))).as_real() == Some(None::<u64>),
        decode(stored(param_of(value))).as_blob() == Some(None::<Seq<u8>>),
{
}

/// The declared type that is reported for a column that has none.
pub const ANY: &'static str = "ANY";

/// The names as the caller sees them: a parameter without a name has the empty
/// one.
pub open spec fn shown_names(names: Seq<Option<String>>) -> Seq<Seq<char>> {
    names.map_values(
        |name: Option<String>|
            match name {
                Some(s) => s@,
                None => Seq::empty(),
            },
    )
}

/// The declared types as the caller sees them: a column without one is of the
/// type `ANY`.
pub open spec fn shown_types(types: Seq<Option<String>>) -> Seq<Seq<char>> {
    types.map_values(
        |ty: Option<String>|
            match ty {
                Some(s) => s@,
                None => ANY@,
            },
    )
}

/// The error of a statement that could not be prepared.
pub open spec fn prepare_failure(db: usize, stmt: usize, code: i32, text: Seq<char>) -> ErrorView {
    if !is_success(code) {
        classify(code, db, text)
    } else {
        ErrorView::FailedToPrepare
    }
}

/// A prepared statement that has not been stepped: the handle that the engine
/// gave for it, and that of its connection.
#[derive(Debug)]
pub struct Stmt {
    stmt: usize,
    db: usize,
}

impl Stmt {
    /// The statement's handle.
    pub closed spec fn handle(&self) -> usize {
        self.stmt
    }

    /// The handle of the statement's connection.
    pub closed spec fn connection(&self) -> usize {
        self.db
    }

    /// The statement's handle.
    pub fn stmt(&self) -> (h: usize)
        ensures
            h == self.handle(),
    {
        self.stmt
    }

    /// The handle of the statement's connection.
    pub fn db(&self) -> (h: usize)
        ensures
            h == self.connection(),
    {
        self.db
    }

    /// The statement that the engine prepared on the connection `db`, from what it
    /// answered: the handle `stmt`, the result code and the connection's
    /// diagnostic text.
    ///
    /// Where the engine reports a failure, that is the error. Where it reports
    /// none and still gives no handle, as for a text that holds no statement,
    /// nothing was prepared.
    pub fn prepare(db: usize, stmt: usize, code: i32, text: &str) -> (r: Result<Stmt, Error>)
        ensures
            match r {
                Ok(s) => is_success(code) && stmt != 0 && s.connection() == db && s.handle()
                    == stmt,
                Err(e) => e@ == prepare_failure(db, stmt, code, text@) && (!is_success(code)
                    || stmt == 0),
            },
    {
        if !succeeded(code) {
            Err(sqlite_err(code, db, text))
        } else if stmt == 0 {
            Err(Error::FailedToPrepare)
        } else {
            Ok(Stmt { stmt, db })
        }
    }

    /// What one step came to, from the engine's result code and the connection's
    /// diagnostic text: the code itself where it is no error.
    pub fn step(&self, code: i32, text: &str) -> (r: Result<i32, Error>)
        ensures
            match r {
                Ok(c) => is_success(code) && c == code,
                Err(e) => !is_success(code) && e@ == classify(code, self.connection(), text@),
            },
    {
        if succeeded(code) {
            Ok(code)
        } else {
            Err(sqlite_err(code, self.db, text))
        }
    }

    /// What finalizing came to, from the engine's result code and the
    /// connection's diagnostic text.
    pub fn finalize(&self, code: i32, text: &str) -> (r: Result<(), Error>)
        ensures
            match r {
                Ok(_) => is_success(code),
                Err(e) => !is_success(code) && e@ == classify(code, self.connection(), text@),
            },
    {
        if succeeded(code) {
            Ok(())
        } else {
            Err(sqlite_err(code, self.db, text))
        }
    }

    /// The names of the statement's parameters, from what the engine gave for the
    /// slots 1, 2 and so on: the name, or nothing for a parameter without one.
    pub fn parameter_names(&self, names: Vec<Option<String>>) -> (r: Vec<String>)
        ensures
            r@.map_values(|s: String| s@) == shown_names(names@),
    {
        let mut shown: Vec<String> = Vec::new();
        for name in it: names.into_iter()
            invariant
                it.seq() == names@,
                shown@.len() == it.index(),
                shown@.map_values(|s: String| s@) == shown_names(names@.take(it.index() as int)),
        {
            let ghost before = shown@;
            let one = match name {
                Some(s) => s,
                None => String::new(),
            };
            shown.push(one);
            assert(shown@.map_values(|s: String| s@) =~= shown_names(
                names@.take(it.index() + 1),
            )) by {
                let i = it.index() as int;
                let now = shown@.map_values(|s: String| s@);
                let was = before.map_values(|s: String| s@);
                let goal = shown_names(names@.take(i + 1));
                assert(was == shown_names(names@.take(i)));
                assert forall|j: int| 0 <= j < i + 1 implies now[j] == goal[j] by {
                    if j < i {
                        assert(now[j] == was[j]);
                        assert(names@.take(i)[j] == names@.take(i + 1)[j]);
                    }
                }
            }
        }
        assert(names@.take(names@.len() as int) =~= names@);
        shown
    }

    /// The declared types of the statement's columns, from what the engine gave
    /// for the columns 0, 1 and so on: the type, or nothing for a column that has
    /// none, such as an expression.
    pub fn select_column_types(&self, types: Vec<Option<String>>) -> (r: Vec<String>)
        ensures
            r@.map_values(|s: String| s@) == shown_types(types@),
    {
        let mut shown: Vec<String> = Vec::new();
        for ty in it: types.into_iter()
            invariant
                it.seq() == types@,
                shown@.len() == it.index(),
                shown@.map_values(|s: String| s@) == shown_types(types@.take(it.index() as int)),
        {
            let ghost before = shown@;
            let one = match ty {
                Some(s) => s,
                None => String::from_str(ANY),
            };
            shown.push(one);
            assert(shown@.map_values(|s: String| s@) =~= shown_types(
                types@.take(it.index() + 1),
            )) by {
                let i = it.index() as int;
                let now = shown@.map_values(|s: String| s@);
                let was = before.map_values(|s: String| s@);
                let goal = shown_types(types@.take(i + 1));
                assert(was == shown_types(types@.take(i)));
                assert forall|j: int| 0 <= j < i + 1 implies now[j] == goal[j] by {
                    if j < i {
                        assert(now[j] == was[j]);
                        assert(types@.take(i)[j] == types@.take(i + 1)[j]);
                    }
                }
            }
        }
        assert(types@.take(types@.len() as int) =~= types@);
        shown
    }

    /// Chooses the reader for a column by the column's type tag.
    pub fn reader(tag: i32) -> (r: Reader)
        ensures
            r == reader_for(tag),
    {
        if tag == SQLITE_INTEGER {
            Reader::Int64
        } else if tag == SQLITE_FLOAT {
            Reader::Double
        } else if tag == SQLITE_TEXT {
            Reader::Text
        } else if tag == SQLITE_BLOB {
            Reader::Blob
        } else {
            Reader::Nothing
        }
    }

    /// Decodes what a reader returned for a column.
    pub fn column_value(cell: Cell) -> (v: Value)
        ensures
            v@ == decode(cell@),
    {
        match cell {
            Cell::Int64(n) => Value::Int(Int(Some(n))),
            Cell::Double(x) => Value::Real(Real(Some(x))),
            Cell::Text(s) => Value::Text(Text(Some(s))),
            Cell::Blob(b) => Value::Blob(Blob(Some(b))),
            Cell::Nothing => Value::Null,
        }
    }

    /// The bindings that hand `params` to the statement: each value to the slot
    /// of its place in the order given, the first to slot 1.
    pub fn bind<'a>(&self, params: &'a [Value]) -> (r: Result<Vec<Binding<'a>>, Error>)
        ensures
            match r {
                Ok(bindings) => {
                    &&& bindable(params@)
                    &&& bindings@.len() == params@.len()
                    &&& forall|i: int|
                        0 <= i < params@.len() ==> (#[trigger] bindings@[i]).slot == i + 1
                            && bindings@[i].param@ == param_of(params@[i]@)
                },
                Err(e) => !bindable(params@) && e@ == ErrorView::TryFromInt,
            },
    {
        if params.len() > i32::MAX as usize {
            return Err(Error::TryFromInt);
        }
        let mut bindings: Vec<Binding<'a>> = Vec::new();
        let mut i: usize = 0;
        while i < params.len()
            invariant
                i <= params@.len() <= i32::MAX,
                bindings@.len() == i,
                forall|j: int| 0 <= j < i ==> byte_len((#[trigger] params@[j])@) <= i32::MAX,
                forall|j: int|
                    0 <= j < i ==> (#[trigger] bindings@[j]).slot == j + 1 && bindings@[j].param@
                        == param_of(params@[j]@),
            decreases params@.len() - i,
        {
            match params[i].to_param() {
                Ok(param) => {
                    bindings.push(Binding { slot: (i + 1) as i32, param });
                },
                Err(e) => {
                    return Err(e);
                },
            }
            i += 1;
        }
        Ok(bindings)
    }
}

} // verus!
