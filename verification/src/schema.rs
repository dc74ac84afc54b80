//! A schema of tables, indexes and queries, and the statements it comes to: the
//! migrations that bring a database to it, and the statements that store and
//! remove the rows of its tables.
use crate::text::{chars_of, occurs_at, same, texts};
use vstd::prelude::*;
use vstd::seq_lib::*;
use vstd::string::*;

verus! {

/// A field of a table or of an index: its name, and the name of its type. In an
/// index the type says whether the index is unique.
#[derive(Clone, Debug, PartialEq)]
pub struct Field {
    pub name: String,
    pub ty: String,
}

/// A table: its name and its fields.
#[derive(Debug, PartialEq)]
pub struct Table {
    pub name: String,
    pub fields: Vec<Field>,
}

/// The indexes of a table: the table's name, and one field for each index.
#[derive(Debug, PartialEq)]
pub struct Index {
    pub name: String,
    pub fields: Vec<Field>,
}

/// A query: the name of the function that runs it, and its statement.
#[derive(Debug, PartialEq)]
pub struct Query {
    pub fn_name: String,
    pub sql: String,
}

/// A part of a schema.
#[derive(Debug, PartialEq)]
pub enum SchemaPart {
    Table(Table),
    Index(Index),
    Query(Query),
}

/// A schema: its parts, in the order in which they were written.
#[derive(Debug, PartialEq)]
pub struct DatabaseSchema {
    pub parts: Vec<SchemaPart>,
}

/// What a [`Field`] holds, as mathematics.
pub struct FieldView {
    pub name: Seq<char>,
    pub ty: Seq<char>,
}

/// What a [`Table`] or an [`Index`] holds, as mathematics.
pub struct TableView {
    pub name: Seq<char>,
    pub fields: Seq<FieldView>,
}

/// What a [`SchemaPart`] holds, as mathematics.
pub enum SchemaPartView {
    Table(TableView),
    Index(TableView),
    Query { fn_name: Seq<char>, sql: Seq<char> },
}

impl View for Field {
    type V = FieldView;

    open spec fn view(&self) -> FieldView {
        FieldView { name: self.name@, ty: self.ty@ }
    }
}

impl View for Table {
    type V = TableView;

    open spec fn view(&self) -> TableView {
        TableView { name: self.name@, fields: self.fields@.map_values(|f: Field| f@) }
    }
}

impl View for Index {
    type V = TableView;

    open spec fn view(&self) -> TableView {
        TableView { name: self.name@, fields: self.fields@.map_values(|f: Field| f@) }
    }
}

impl View for SchemaPart {
    type V = SchemaPartView;

    open spec fn view(&self) -> SchemaPartView {
        match self {
            SchemaPart::Table(table) => SchemaPartView::Table(table@),
            SchemaPart::Index(index) => SchemaPartView::Index(index@),
            SchemaPart::Query(query) => SchemaPartView::Query {
                fn_name: query.fn_name@,
                sql: query.sql@,
            },
        }
    }
}

impl View for DatabaseSchema {
    type V = Seq<SchemaPartView>;

    open spec fn view(&self) -> Seq<SchemaPartView> {
        self.parts@.map_values(|p: SchemaPart| p@)
    }
}

/// The statement that makes the table `table` with its key, where it is not
/// there yet.
pub open spec fn create_table(table: Seq<char>) -> Seq<char> {
    "create table if not exists "@ + table + " ( id integer primary key ) strict"@
}

/// The statement that adds `field` to the table `table`; none for the key,
/// which the table is made with.
pub open spec fn add_column(table: Seq<char>, field: FieldView) -> Option<Seq<char>> {
    if field.name == "id"@ {
        None
    } else {
        Some("alter table "@ + table + " add column "@ + field.name + " "@ + field.ty)
    }
}

/// The migrations of a table: the one that makes it, then one for each of its
/// fields but the key, in their order.
pub open spec fn table_statements(table: TableView) -> Seq<Seq<char>> {
    seq![create_table(table.name)] + table.fields.filter_map(
        |field: FieldView| add_column(table.name, field),
    )
}

/// The statement that makes the index of `table` on `field`, where it is not
/// there yet: a unique one where the field's type is `Unique`.
pub open spec fn create_index(table: Seq<char>, field: FieldView) -> Seq<char> {
    "create "@ + (if field.ty == "Unique"@ {
        "unique"@
    } else {
        Seq::<char>::empty()
    }) + " index if not exists "@ + table + "_"@ + field.name + "_ix on "@ + table + " ("@
        + field.name + ")"@
}

/// The migrations of the indexes of a table: one for each field, in their order.
pub open spec fn index_statements(index: TableView) -> Seq<Seq<char>> {
    index.fields.map_values(|field: FieldView| create_index(index.name, field))
}

/// The migrations of a part of a schema. A query has none.
pub open spec fn part_statements(part: SchemaPartView) -> Seq<Seq<char>> {
    match part {
        SchemaPartView::Table(table) => table_statements(table),
        SchemaPartView::Index(index) => index_statements(index),
        SchemaPartView::Query { .. } => Seq::empty(),
    }
}

/// The migrations of a schema: those of its parts, in their order.
pub open spec fn schema_statements(parts: Seq<SchemaPartView>) -> Seq<Seq<char>> {
    parts.map_values(|part: SchemaPartView| part_statements(part)).flatten()
}

/// Texts put together, with `between` between each two of them.
pub open spec fn joined(parts: Seq<Seq<char>>, between: Seq<char>) -> Seq<char>
    decreases parts.len(),
{
    if parts.len() == 0 {
        Seq::empty()
    } else if parts.len() == 1 {
        parts[0]
    } else {
        joined(parts.drop_last(), between) + between + parts.last()
    }
}

/// The names of fields, in their order.
pub open spec fn names(fields: Seq<FieldView>) -> Seq<Seq<char>> {
    fields.map_values(|field: FieldView| field.name)
}

/// The names of the parameters that stand for fields.
pub open spec fn placeholders(fields: Seq<FieldView>) -> Seq<Seq<char>> {
    fields.map_values(|field: FieldView| ":"@ + field.name)
}

/// The assignments that give fields the values of the row that could not be
/// inserted.
pub open spec fn assignments(fields: Seq<FieldView>) -> Seq<Seq<char>> {
    fields.map_values(|field: FieldView| field.name + " = excluded."@ + field.name)
}

/// The statement that stores a row of `table`: it inserts the row, or, where a
/// row of that key is there, gives that row the new values; and it gives back
/// the row as it then is.
pub open spec fn upsert(table: TableView) -> Seq<char> {
    "insert into "@ + table.name + " ("@ + joined(names(table.fields), ","@) + ") values ("@
        + joined(placeholders(table.fields), ","@) + ") on conflict (id) do update set "@ + joined(
        assignments(table.fields),
        ","@,
    ) + " returning *"@
}

/// The statement that removes the row of `table` with a given key, and gives
/// back the row as it was.
pub open spec fn removal(table: Seq<char>) -> Seq<char> {
    "delete from "@ + table + " where id = :id returning *"@
}

/// Puts texts together, with `between` between each two of them.
pub fn join(parts: &Vec<String>, between: &str) -> (r: String)
    ensures
        r@ == joined(texts(parts@), between@),
{
    let mut out = String::new();
    let mut i: usize = 0;
    while i < parts.len()
        invariant
            i <= parts.len(),
            out@ == joined(texts(parts@).take(i as int), between@),
        decreases parts.len() - i,
    {
        proof {
            let all = texts(parts@);
            assert(all.take(i + 1).drop_last() =~= all.take(i as int));
            assert(all.take(i + 1).last() == parts@[i as int]@);
            if i == 1 {
                assert(all.take(1).len() == 1);
                assert(all.take(1)[0] == all[0]);
            }
        }
        if i > 0 {
            out.append(between);
        }
        out.append(parts[i].as_str());
        i += 1;
    }
    assert(texts(parts@).take(parts@.len() as int) =~= texts(parts@));
    out
}

/// The migrations that bring a database to a table.
pub fn table_migrations(table: &Table) -> (r: Vec<String>)
    ensures
        texts(r@) == table_statements(table@),
{
    let mut first = String::from_str("create table if not exists ");
    first.append(table.name.as_str());
    first.append(" ( id integer primary key ) strict");
    let mut statements: Vec<String> = Vec::new();
    statements.push(first);
    assert(texts(statements@) =~= seq![create_table(table.name@)]);
    let ghost made = |field: FieldView| add_column(table.name@, field);
    let mut i: usize = 0;
    while i < table.fields.len()
        invariant
            i <= table.fields.len(),
            made == |field: FieldView| add_column(table.name@, field),
            texts(statements@) == seq![create_table(table.name@)] + table@.fields.take(
                i as int,
            ).filter_map(made),
        decreases table.fields.len() - i,
    {
        let field = &table.fields[i];
        proof {
            table@.fields.lemma_filter_map_take_succ(made, i as int);
            assert(table@.fields[i as int] == field@);
        }
        if !same(field.name.as_str(), "id") {
            let ghost before = statements@;
            let mut statement = String::from_str("alter table ");
            statement.append(table.name.as_str());
            statement.append(" add column ");
            statement.append(field.name.as_str());
            statement.append(" ");
            statement.append(field.ty.as_str());
            statements.push(statement);
            assert(texts(statements@) =~= texts(before).push(statement@));
            assert(made(field@) == Some(statement@));
        }
        i += 1;
    }
    assert(table@.fields.take(table@.fields.len() as int) =~= table@.fields);
    statements
}

/// The statement that stores a row of a table.
pub fn upsert_sql(table: &Table) -> (r: String)
    ensures
        r@ == upsert(table@),
{
    let mut columns: Vec<String> = Vec::new();
    let mut slots: Vec<String> = Vec::new();
    let mut sets: Vec<String> = Vec::new();
    let mut i: usize = 0;
    while i < table.fields.len()
        invariant
            i <= table.fields.len(),
            texts(columns@) == names(table@.fields.take(i as int)),
            texts(slots@) == placeholders(table@.fields.take(i as int)),
            texts(sets@) == assignments(table@.fields.take(i as int)),
        decreases table.fields.len() - i,
    {
        let name = table.fields[i].name.as_str();
        let mut slot = String::from_str(":");
        slot.append(name);
        let mut set = String::from_str(name);
        set.append(" = excluded.");
        set.append(name);
        proof {
            let fields = table@.fields;
            assert(fields.take(i + 1) =~= fields.take(i as int).push(fields[i as int]));
            assert(fields[i as int].name == name@);
            assert(names(fields.take(i + 1)) =~= names(fields.take(i as int)).push(name@));
            assert(placeholders(fields.take(i + 1)) =~= placeholders(
                fields.take(i as int),
            ).push(slot@));
            assert(assignments(fields.take(i + 1)) =~= assignments(fields.take(i as int)).push(
                set@,
            ));
            assert(texts(columns@.push(table.fields@[i as int].name)) =~= texts(columns@).push(
                name@,
            ));
            assert(texts(slots@.push(slot)) =~= texts(slots@).push(slot@));
            assert(texts(sets@.push(set)) =~= texts(sets@).push(set@));
        }
        columns.push(table.fields[i].name.clone());
        slots.push(slot);
        sets.push(set);
        i += 1;
    }
    assert(table@.fields.take(table@.fields.len() as int) =~= table@.fields);
    let mut sql = String::from_str("insert into ");
    sql.append(table.name.as_str());
    sql.append(" (");
    sql.append(join(&columns, ",").as_str());
    sql.append(") values (");
    sql.append(join(&slots, ",").as_str());
    sql.append(") on conflict (id) do update set ");
    sql.append(join(&sets, ",").as_str());
    sql.append(" returning *");
    sql
}

/// The statement that removes a row of a table by its key.
pub fn delete_sql(table: &Table) -> (r: String)
    ensures
        r@ == removal(table@.name),
{
    let mut sql = String::from_str("delete from ");
    sql.append(table.name.as_str());
    sql.append(" where id = :id returning *");
    sql
}

/// The migrations that bring a database to the indexes of a table.
pub fn index_migrations(index: &Index) -> (r: Vec<String>)
    ensures
        texts(r@) == index_statements(index@),
{
    let mut statements: Vec<String> = Vec::new();
    let mut i: usize = 0;
    while i < index.fields.len()
        invariant
            i <= index.fields.len(),
            texts(statements@) == index_statements(index@).take(i as int),
        decreases index.fields.len() - i,
    {
        let field = &index.fields[i];
        let ghost before = statements@;
        let mut statement = String::from_str("create ");
        if same(field.ty.as_str(), "Unique") {
            statement.append("unique");
        }
        statement.append(" index if not exists ");
        statement.append(index.name.as_str());
        statement.append("_");
        statement.append(field.name.as_str());
        statement.append("_ix on ");
        statement.append(index.name.as_str());
        statement.append(" (");
        statement.append(field.name.as_str());
        statement.append(")");
        statements.push(statement);
        proof {
            assert(index@.fields[i as int] == field@);
            assert(statement@ =~= create_index(index@.name, field@));
            assert(texts(statements@) =~= texts(before).push(statement@));
            assert(index_statements(index@).take(i + 1) =~= index_statements(index@).take(
                i as int,
            ).push(statement@));
        }
        i += 1;
    }
    assert(index_statements(index@).take(index.fields@.len() as int) =~= index_statements(index@));
    statements
}

/// The migrations that bring a database to a part of a schema.
pub fn migration(part: &SchemaPart) -> (r: Vec<String>)
    ensures
        texts(r@) == part_statements(part@),
{
    match part {
        SchemaPart::Table(table) => table_migrations(table),
        SchemaPart::Index(index) => index_migrations(index),
        SchemaPart::Query(_) => {
            let none: Vec<String> = Vec::new();
            assert(texts(none@) =~= Seq::<Seq<char>>::empty());
            none
        },
    }
}

impl DatabaseSchema {
    /// The migrations that bring a database to this schema.
    pub fn migrations(&self) -> (r: Vec<String>)
        ensures
            texts(r@) == schema_statements(self@),
    {
        let mut statements: Vec<String> = Vec::new();
        let ghost each = self@.map_values(|part: SchemaPartView| part_statements(part));
        let mut i: usize = 0;
        assert(each.take(0) =~= Seq::<Seq<Seq<char>>>::empty());
        assert(texts(statements@) =~= each.take(0).flatten());
        while i < self.parts.len()
            invariant
                i <= self.parts.len(),
                each == self@.map_values(|part: SchemaPartView| part_statements(part)),
                texts(statements@) == each.take(i as int).flatten(),
            decreases self.parts.len() - i,
        {
            let ghost before = statements@;
            let mut more = migration(&self.parts[i]);
            proof {
                assert(each[i as int] == texts(more@));
                assert(each.take(i + 1) =~= each.take(i as int).push(each[i as int]));
                each.take(i as int).lemma_flatten_push(each[i as int]);
            }
            statements.append(&mut more);
            assert(texts(statements@) =~= texts(before) + each[i as int]);
            i += 1;
        }
        assert(each.take(each.len() as int) =~= each);
        statements
    }
}

/// The upper case of a character, as the standard library maps it. Some
/// characters have an upper case of more than one character.
pub uninterp spec fn uppercase(c: char) -> Seq<char>;

/// Calls `char::to_uppercase` of the standard library, and gives what it yields
/// as a string. The contract gives that result its name, and says nothing more
/// of it.
#[verifier::external_body]
fn to_uppercase(c: char) -> (r: String)
    ensures
        r@ == uppercase(c),
{
    c.to_uppercase().to_string()
}

/// A name written in parts with `_` between them, put together without the
/// `_`, each part with its first character in upper case. `fresh` says whether
/// a part begins where `name` begins.
pub open spec fn pascal(name: Seq<char>, fresh: bool) -> Seq<char>
    decreases name.len(),
{
    if name.len() == 0 {
        Seq::empty()
    } else if name[0] == '_' {
        pascal(name.skip(1), true)
    } else if fresh {
        uppercase(name[0]) + pascal(name.skip(1), false)
    } else {
        seq![name[0]] + pascal(name.skip(1), false)
    }
}

/// Whether one of the parts of `name` is empty: the name is empty, or begins or
/// ends with `_`, or holds two `_` in a row.
pub open spec fn has_empty_part(name: Seq<char>) -> bool {
    ||| name.len() == 0
    ||| name[0] == '_'
    ||| name.last() == '_'
    ||| exists|i: int| 0 <= i < name.len() - 1 && #[trigger] name[i] == '_' && name[i + 1] == '_'
}

/// The name of the type that belongs to the function `name`: `posts_by_user` has
/// `PostsByUser`. A name with an empty part has none.
pub fn pascal_case(name: &str) -> (r: Option<String>)
    ensures
        match r {
            Some(s) => !has_empty_part(name@) && s@ == pascal(name@, true),
            None => has_empty_part(name@),
        },
{
    let chars = chars_of(name);
    let mut out = String::new();
    let mut fresh = true;
    let mut i: usize = 0;
    assert(chars@.skip(0) =~= chars@);
    while i < chars.len()
        invariant
            i <= chars.len(),
            chars@ == name@,
            fresh == (i == 0 || chars@[i - 1] == '_'),
            forall|j: int| 0 <= j < i && #[trigger] chars@[j] == '_' ==> j > 0 && chars@[j - 1] != '_',
            pascal(name@, true) == out@ + pascal(chars@.skip(i as int), fresh),
        decreases chars.len() - i,
    {
        let c = chars[i];
        proof {
            assert(chars@.skip(i as int)[0] == c);
            assert(chars@.skip(i as int).skip(1) =~= chars@.skip(i + 1));
        }
        if c == '_' {
            if fresh {
                assert(has_empty_part(name@)) by {
                    if i > 0 {
                        assert(chars@[i - 1] == '_' && chars@[(i - 1) + 1] == '_');
                    }
                }
                return None;
            }
            fresh = true;
        } else if fresh {
            let ghost before = out@;
            out.append(to_uppercase(c).as_str());
            assert(before + (uppercase(c) + pascal(chars@.skip(i + 1), false)) =~= out@ + pascal(
                chars@.skip(i + 1),
                false,
            ));
            fresh = false;
        } else {
            let ghost before = out@;
            out.append(name.substring_char(i, i + 1));
            assert(name@.subrange(i as int, i + 1) =~= seq![c]);
            assert(before + (seq![c] + pascal(chars@.skip(i + 1), false)) =~= out@ + pascal(
                chars@.skip(i + 1),
                false,
            ));
        }
        i += 1;
    }
    if fresh {
        assert(has_empty_part(name@)) by {
            if i > 0 {
                assert(name@.last() == chars@[i - 1]);
            }
        }
        None
    } else {
        assert(chars@.skip(i as int) =~= Seq::<char>::empty());
        assert(!has_empty_part(name@)) by {
            assert(name@.last() == chars@[i - 1]);
            if name@[0] == '_' {
                assert(chars@[0] == '_');
            }
            assert forall|k: int| 0 <= k < name@.len() - 1 && #[trigger] name@[k] == '_' implies name@[k
                + 1] != '_' by {
                if chars@[k + 1] == '_' {
                    assert(chars@[(k + 1) - 1] != '_');
                }
            }
        }
        Some(out)
    }
}

/// The name of the value type for a column of the declared type `declared`: an
/// integer for `INTEGER` and `INT`, a text for `TEXT`, a real for `REAL`, and a
/// blob for `BLOB` and for every other declared type.
pub open spec fn value_type(declared: Seq<char>) -> Seq<char> {
    if declared == "INTEGER"@ || declared == "INT"@ {
        "Int"@
    } else if declared == "TEXT"@ {
        "Text"@
    } else if declared == "REAL"@ {
        "Real"@
    } else {
        "Blob"@
    }
}

/// The name of the value type for a column, by the column's declared type.
pub fn column_type(declared: &str) -> (r: &'static str)
    ensures
        r@ == value_type(declared@),
{
    if same(declared, "INTEGER") || same(declared, "INT") {
        "Int"
    } else if same(declared, "TEXT") {
        "Text"
    } else if same(declared, "REAL") {
        "Real"
    } else {
        "Blob"
    }
}

/// Whether `pattern` stands somewhere in `text`.
pub open spec fn holds_text(text: Seq<char>, pattern: Seq<char>) -> bool {
    exists|at: int| 0 <= at <= text.len() && pattern.is_prefix_of(#[trigger] text.skip(at))
}

/// Whether a query gives one row and not many: its statement holds `limit 1`.
pub fn returns_one_row(sql: &str) -> (r: bool)
    ensures
        r == holds_text(sql@, "limit 1"@),
{
    let text = chars_of(sql);
    let pattern = chars_of("limit 1");
    proof {
        reveal_strlit("limit 1");
    }
    let mut at: usize = 0;
    while at < text.len()
        invariant
            at <= text.len(),
            text@ == sql@,
            pattern@ == "limit 1"@,
            forall|k: int| 0 <= k < at ==> !pattern@.is_prefix_of(#[trigger] text@.skip(k)),
        decreases text.len() - at,
    {
        if occurs_at(&text, at, &pattern) {
            return true;
        }
        at += 1;
    }
    assert(text@.skip(text@.len() as int).len() == 0);
    false
}

/// `name` without the colons it begins with.
pub open spec fn unmarked(name: Seq<char>) -> Seq<char>
    decreases name.len(),
{
    if name.len() > 0 && name[0] == ':' {
        unmarked(name.skip(1))
    } else {
        name
    }
}

/// The name of the argument that stands for the parameter `name`: the name
/// without the colons it begins with.
pub fn parameter_ident(name: &str) -> (r: String)
    ensures
        r@ == unmarked(name@),
{
    let chars = chars_of(name);
    let mut from: usize = 0;
    assert(chars@.skip(0) =~= chars@);
    while from < chars.len() && chars[from] == ':'
        invariant
            from <= chars.len(),
            chars@ == name@,
            unmarked(name@) == unmarked(chars@.skip(from as int)),
        decreases chars.len() - from,
    {
        proof {
            assert(chars@.skip(from as int)[0] == ':');
            assert(chars@.skip(from as int).skip(1) =~= chars@.skip(from + 1));
        }
        from += 1;
    }
    proof {
        if from < chars.len() {
            assert(chars@.skip(from as int)[0] != ':');
        }
    }
    String::from_str(name.substring_char(from, chars.len()))
}

} // verus!
