use rusqlite::types::{Null, ValueRef};
use rusqlite::Connection;
use sqltight::code::{SQLITE_DONE, SQLITE_OK, SQLITE_ROW};
use proc_macro2::{Delimiter, TokenStream, TokenTree};
use sqltight::schema::{
    column_type, delete_sql, parameter_ident, pascal_case, returns_one_row, upsert_sql,
};
use sqltight::{
    c_string, first_row, integer, parse, text, Cell, ChangesProgress, Crud, DatabaseSchema,
    Demand, Error, Event, Fetched, Int, Job, MigrationProgress, Param, Reader, Row, RowsProgress,
    SchemaPart, Sqlite, Stmt, Table, Text, Token, Transaction, Value,
};

const SCHEMA: &str = r#"
    table User {
        id: Int,
        email: Text,
        created_at: Int,
        updated_at: Int
    }

    index User {
        email: Unique
    }

    table Post {
        id: Int,
        user_id: Int,
        content: Text,
        created_at: Int,
        updated_at: Int,
    }

    query posts_by_user_id "
        select post.id
        from post
        where post.user_id = :user_id
        order by post.created_at desc
        limit 2
    "

    query user_by_id "select user.id from user where id = :id limit 1"

    query posts_by_contents "
        select id, content, user_id, created_at
        from post
        where content = :content
        or content = :content_1
        order by created_at desc
        limit 2
    "

    query count_posts_by_user "
        select count(post.id) as post_count, user.id, user.email
        from post
        join user on user.id = post.user_id
        group by post.user_id
        order by post_count desc
        limit 1
    "
"#;

fn tokens_of(input: TokenStream) -> Vec<Token> {
    input
        .into_iter()
        .map(|tree| match tree {
            TokenTree::Ident(ident) => Token::Ident(ident.to_string()),
            TokenTree::Punct(punct) => Token::Punct(punct.as_char().to_string()),
            TokenTree::Literal(literal) => Token::Literal(literal.to_string()),
            TokenTree::Group(group) => Token::Group {
                brace: group.delimiter() == Delimiter::Brace,
                shown: group.to_string(),
                tokens: tokens_of(group.stream()),
            },
        })
        .collect()
}

fn schema() -> DatabaseSchema {
    parse(&tokens_of(SCHEMA.parse().unwrap())).unwrap()
}

fn table(name: &str) -> Table {
    for part in schema().parts {
        match part {
            SchemaPart::Table(table) if table.name == name => return table,
            _ => {}
        }
    }
    panic!("no table {name}")
}

fn statement(fn_name: &str) -> String {
    for part in schema().parts {
        match part {
            SchemaPart::Query(query) if query.fn_name == fn_name => return query.sql,
            _ => {}
        }
    }
    panic!("no query {fn_name}")
}

fn failure(e: &rusqlite::Error) -> (i32, String) {
    match e {
        rusqlite::Error::SqliteFailure(error, text) => {
            (error.extended_code & 0xff, text.clone().unwrap_or_default())
        }
        rusqlite::Error::SqlInputError { error, msg, .. } => {
            (error.extended_code & 0xff, msg.clone())
        }
        other => (1, format!("{other}")),
    }
}

fn execute(raw: &Connection, db: &Sqlite, sql: &str) -> Result<i32, Error> {
    c_string(sql)?;
    match raw.execute_batch(sql) {
        Ok(()) => db.execute(SQLITE_OK, ""),
        Err(e) => {
            let (code, text) = failure(&e);
            db.execute(code, &text)
        }
    }
}

fn prepare<'c>(
    raw: &'c Connection,
    db: &Sqlite,
    sql: &str,
) -> Result<(rusqlite::Statement<'c>, Stmt), Error> {
    c_string(sql)?;
    match raw.prepare(sql) {
        Ok(statement) => Ok((statement, db.prepare(2, SQLITE_OK, "")?)),
        Err(e) => {
            let (code, text) = failure(&e);
            Err(db.prepare(0, code, &text).unwrap_err())
        }
    }
}

fn bind(raw: &mut rusqlite::Statement<'_>, stmt: &Stmt, params: &[Value]) -> Result<(), Error> {
    for binding in stmt.bind(params)? {
        let slot = binding.slot as usize;
        match binding.param {
            Param::Text { text, .. } => raw.raw_bind_parameter(slot, text).unwrap(),
            Param::Int(n) => raw.raw_bind_parameter(slot, n).unwrap(),
            Param::Real(bits) => raw.raw_bind_parameter(slot, f64::from_bits(bits)).unwrap(),
            Param::Blob { bytes, .. } => raw.raw_bind_parameter(slot, bytes).unwrap(),
            Param::Null => raw.raw_bind_parameter(slot, Null).unwrap(),
        }
    }
    Ok(())
}

fn read(row: &rusqlite::Row<'_>) -> Vec<Fetched> {
    let statement: &rusqlite::Statement<'_> = row.as_ref();
    let mut columns = Vec::new();
    for i in 0..statement.column_count() {
        let name = statement.column_name(i).unwrap().to_string();
        let value = row.get_ref(i).unwrap();
        let tag = match value {
            ValueRef::Integer(_) => 1,
            ValueRef::Real(_) => 2,
            ValueRef::Text(_) => 3,
            ValueRef::Blob(_) => 4,
            ValueRef::Null => 5,
        };
        let cell = match Stmt::reader(tag) {
            Reader::Int64 => Cell::Int64(value.as_i64().unwrap()),
            Reader::Double => Cell::Double(value.as_f64().unwrap().to_bits()),
            Reader::Text => Cell::Text(String::from_utf8_lossy(value.as_bytes().unwrap()).into_owned()),
            Reader::Blob => Cell::Blob(value.as_bytes().unwrap().to_vec()),
            Reader::Nothing => Cell::Nothing,
        };
        columns.push(Fetched { name, cell });
    }
    columns
}

fn stepped(step: Result<Option<&rusqlite::Row<'_>>, rusqlite::Error>) -> (Event, Option<Vec<Fetched>>) {
    match step {
        Ok(Some(row)) => (Event::Stepped { code: SQLITE_ROW, text: String::new() }, Some(read(row))),
        Ok(None) => (Event::Stepped { code: SQLITE_DONE, text: String::new() }, None),
        Err(e) => {
            let (code, text) = failure(&e);
            (Event::Stepped { code, text }, None)
        }
    }
}

fn query(raw: &Connection, db: &Sqlite, sql: &str, params: &[Value]) -> Result<Vec<Row>, Error> {
    let (mut statement, stmt) = prepare(raw, db, sql)?;
    bind(&mut statement, &stmt, params)?;
    let mut cursor = stmt.rows();
    let mut rows = statement.raw_query();
    let mut at_hand = None;
    loop {
        let event = match cursor.demand() {
            Demand::Step => {
                let (event, columns) = stepped(rows.next());
                at_hand = columns;
                event
            }
            Demand::Read => Event::Read(at_hand.take().unwrap()),
            Demand::Finalize => Event::Finalized { code: SQLITE_OK, text: String::new() },
            Demand::Count => unreachable!(),
        };
        match cursor.advance(event) {
            RowsProgress::More(next) => cursor = next,
            RowsProgress::Done(result) => return result,
        }
    }
}

fn change(raw: &Connection, db: &Sqlite, sql: &str, params: &[Value]) -> Result<i32, Error> {
    let (mut statement, stmt) = prepare(raw, db, sql)?;
    bind(&mut statement, &stmt, params)?;
    let mut cursor = stmt.changes();
    let mut rows = statement.raw_query();
    loop {
        let event = match cursor.demand() {
            Demand::Step => stepped(rows.next()).0,
            Demand::Finalize => Event::Finalized { code: SQLITE_OK, text: String::new() },
            Demand::Count => Event::Counted(raw.changes() as i32),
            Demand::Read => unreachable!(),
        };
        match cursor.advance(event) {
            ChangesProgress::More(next) => cursor = next,
            ChangesProgress::Done(result) => return result,
        }
    }
}

fn migrate(raw: &Connection, db: &Sqlite, migrations: &[&str]) -> Result<(), Error> {
    let mut run = db.migrate(migrations.iter().map(|m| m.to_string()).collect());
    loop {
        let outcome = match run.job() {
            Job::Execute(sql) => execute(raw, db, sql),
            Job::Record { sql, text: statement } => {
                change(raw, db, sql, &[Value::Text(text(statement))])
            }
        };
        match run.advance(outcome) {
            MigrationProgress::More(next) => run = next,
            MigrationProgress::Done(result) => return result,
            MigrationProgress::Abort(e) => panic!("Rollback failed: {e:?}"),
        }
    }
}

fn int_of(row: &Row, name: &str) -> Int {
    row.get(name).map(|value| Int::from_value(value.clone()).unwrap()).unwrap_or(Int(None))
}

fn text_of(row: &Row, name: &str) -> Text {
    row.get(name).map(|value| Text::from_value(value.clone()).unwrap()).unwrap_or(Text(None))
}

struct User<'c> {
    raw: &'c Connection,
    id: Int,
    email: Text,
    created_at: Int,
    updated_at: Int,
}

impl<'c> User<'c> {
    fn new(raw: &'c Connection, email: &str) -> Self {
        Self { raw, id: Int(None), email: text(email), created_at: Int(None), updated_at: Int(None) }
    }

    fn from_row(raw: &'c Connection, row: &Row) -> Self {
        Self {
            raw,
            id: int_of(row, "id"),
            email: text_of(row, "email"),
            created_at: int_of(row, "created_at"),
            updated_at: int_of(row, "updated_at"),
        }
    }
}

impl Crud for User<'_> {
    fn save(self, db: &Sqlite) -> Result<Self, Error> {
        let sql = upsert_sql(&table("User"));
        let params = vec![
            Value::from(self.id),
            Value::from(self.email.clone()),
            Value::from(self.created_at),
            Value::from(self.updated_at),
        ];
        let row = first_row(query(self.raw, db, &sql, &params)?)?;
        Ok(Self::from_row(self.raw, &row))
    }

    fn delete(self, db: &Sqlite) -> Result<Self, Error> {
        let sql = delete_sql(&table("User"));
        let row = first_row(query(self.raw, db, &sql, &[Value::Int(self.id)])?)?;
        Ok(Self::from_row(self.raw, &row))
    }
}

struct Post<'c> {
    raw: &'c Connection,
    id: Int,
    user_id: Int,
    content: Text,
    created_at: Int,
    updated_at: Int,
}

impl<'c> Post<'c> {
    fn new(raw: &'c Connection, user_id: Int, content: &str) -> Self {
        Self {
            raw,
            id: Int(None),
            user_id,
            content: text(content),
            created_at: Int(None),
            updated_at: Int(None),
        }
    }

    fn from_row(raw: &'c Connection, row: &Row) -> Self {
        Self {
            raw,
            id: int_of(row, "id"),
            user_id: int_of(row, "user_id"),
            content: text_of(row, "content"),
            created_at: int_of(row, "created_at"),
            updated_at: int_of(row, "updated_at"),
        }
    }
}

impl Crud for Post<'_> {
    fn save(self, db: &Sqlite) -> Result<Self, Error> {
        let sql = upsert_sql(&table("Post"));
        let params = vec![
            Value::from(self.id),
            Value::from(self.user_id),
            Value::from(self.content.clone()),
            Value::from(self.created_at),
            Value::from(self.updated_at),
        ];
        let row = first_row(query(self.raw, db, &sql, &params)?)?;
        Ok(Self::from_row(self.raw, &row))
    }

    fn delete(self, db: &Sqlite) -> Result<Self, Error> {
        let sql = delete_sql(&table("Post"));
        let row = first_row(query(self.raw, db, &sql, &[Value::Int(self.id)])?)?;
        Ok(Self::from_row(self.raw, &row))
    }
}

struct CountPostsByUser {
    post_count: Int,
    id: Int,
}

struct Database {
    raw: Connection,
    sqlite: Sqlite,
}

impl Database {
    fn open(path: &str) -> Result<Self, Error> {
        c_string(path)?;
        let raw = Connection::open(path).unwrap();
        let sqlite = Sqlite::open(1, SQLITE_OK, "")?;
        let db = Self { raw, sqlite };
        execute(&db.raw, &db.sqlite, "PRAGMA foreign_keys = true; PRAGMA temp_store = memory;")?;
        let migrations = schema().migrations();
        let migrations: Vec<&str> = migrations.iter().map(|m| m.as_str()).collect();
        migrate(&db.raw, &db.sqlite, &migrations)?;
        Ok(db)
    }

    fn save<T: Crud>(&self, row: T) -> Result<T, Error> {
        row.save(&self.sqlite)
    }

    fn delete<T: Crud>(&self, row: T) -> Result<T, Error> {
        row.delete(&self.sqlite)
    }

    fn transaction(&self) -> Result<Transaction<'_>, Error> {
        let mut tx = self.sqlite.transaction();
        let outcome = execute(&self.raw, &self.sqlite, tx.statement().unwrap());
        tx.settle(outcome)?;
        Ok(tx)
    }

    fn end(&self, mut tx: Transaction<'_>) -> Result<i32, Error> {
        let outcome = execute(&self.raw, &self.sqlite, tx.end().unwrap());
        tx.settle(outcome)
    }

    fn posts_by_user_id(&self, user_id: Int) -> Result<Vec<Post<'_>>, Error> {
        let sql = statement("posts_by_user_id");
        let rows = query(&self.raw, &self.sqlite, &sql, &[user_id.into()])?;
        Ok(rows.iter().map(|row| Post::from_row(&self.raw, row)).collect())
    }

    fn user_by_id(&self, id: Int) -> Result<User<'_>, Error> {
        let sql = statement("user_by_id");
        let row = first_row(query(&self.raw, &self.sqlite, &sql, &[id.into()])?)?;
        Ok(User::from_row(&self.raw, &row))
    }

    fn posts_by_contents(&self, content: &str, content_1: &str) -> Result<Vec<Post<'_>>, Error> {
        let sql = statement("posts_by_contents");
        let params = [Value::Text(text(content)), Value::Text(text(content_1))];
        let rows = query(&self.raw, &self.sqlite, &sql, &params)?;
        Ok(rows.iter().map(|row| Post::from_row(&self.raw, row)).collect())
    }

    fn count_posts_by_user(&self) -> Result<CountPostsByUser, Error> {
        let sql = statement("count_posts_by_user");
        let row = first_row(query(&self.raw, &self.sqlite, &sql, &[])?)?;
        Ok(CountPostsByUser { post_count: int_of(&row, "post_count"), id: int_of(&row, "id") })
    }
}

#[test]
fn it_works() -> Result<(), Error> {
    let db = Database::open(":memory:")?;
    let user = User::new(&db.raw, "email");
    let user = db.save(user)?;
    assert_eq!(user.id, integer(1));
    assert_eq!(user.email, text("email"));
    let mut post = db.save(Post::new(&db.raw, user.id, "content"))?;
    assert_eq!(post.id, integer(1));
    post.content = text("content 2");
    let post = db.save(post)?;
    assert_eq!(post.content, text("content 2"));
    let post2 = db.save(Post::new(&db.raw, user.id, "content"))?;
    assert_eq!(post2.id, integer(2));
    assert_eq!(post2.user_id, integer(1));
    let posts = db.posts_by_user_id(user.id)?;
    let user = db.user_by_id(user.id)?;
    assert_eq!(posts.len(), 2);
    assert_eq!(user.id, integer(1));
    let posts = db.posts_by_contents("content", "content 2")?;
    assert_eq!(posts.len(), 2);
    let row = db.count_posts_by_user()?;
    assert_eq!(row.post_count, integer(2));
    assert_eq!(row.id, user.id);
    Ok(())
}

#[test]
fn readme() -> Result<(), Error> {
    let db = Database::open(":memory:")?;
    let user = User::new(&db.raw, "email");
    let user = db.save(user)?;

    let user1 = User::new(&db.raw, "email2");
    let mut user1 = db.save(user1)?;

    user1.email = text("email3");

    let user1 = db.save(user1)?;
    let _user1 = db.delete(user1)?;

    let post = Post::new(&db.raw, user.id, "content");
    let post1 = Post::new(&db.raw, user.id, "content1");

    {
        let tx = db.transaction()?;
        let _post = tx.save(post)?;
        let _post1 = tx.save(post1)?;
        db.end(tx)?;
    }

    let posts = db.posts_by_user_id(user.id)?;
    let found_user = db.user_by_id(user.id)?;
    assert_eq!(posts.len(), 2);
    assert_eq!(found_user.id, user.id);
    Ok(())
}

#[test]
fn a_row_that_is_not_there_is_not_found() {
    let db = Database::open(":memory:").unwrap();
    let user = db.save(User::new(&db.raw, "email")).unwrap();
    let id = user.id;
    let gone = db.delete(user).unwrap();
    assert_eq!(gone.id, id);
    assert_eq!(db.user_by_id(id).err(), Some(Error::RowNotFound));
    assert_eq!(db.delete(gone).err(), Some(Error::RowNotFound));
}

#[test]
fn a_second_user_of_one_email_is_refused() {
    let db = Database::open(":memory:").unwrap();
    db.save(User::new(&db.raw, "email")).unwrap();
    let again = db.save(User::new(&db.raw, "email"));
    assert_eq!(again.err(), Some(Error::UniqueConstraint("User.email".to_string())));
}

#[test]
fn the_schema_comes_to_its_migrations() {
    assert_eq!(
        schema().migrations(),
        vec![
            "create table if not exists User ( id integer primary key ) strict",
            "alter table User add column email Text",
            "alter table User add column created_at Int",
            "alter table User add column updated_at Int",
            "create unique index if not exists User_email_ix on User (email)",
            "create table if not exists Post ( id integer primary key ) strict",
            "alter table Post add column user_id Int",
            "alter table Post add column content Text",
            "alter table Post add column created_at Int",
            "alter table Post add column updated_at Int",
        ]
    );
}

#[test]
fn the_engine_tells_the_shape_of_each_query() {
    let db = Database::open(":memory:").unwrap();
    let mut shapes = Vec::new();
    for part in schema().parts {
        let SchemaPart::Query(query) = part else { continue };
        let (statement, stmt) = prepare(&db.raw, &db.sqlite, &query.sql).unwrap();
        let names = (1..=statement.parameter_count())
            .map(|i| statement.parameter_name(i).map(|name| name.to_string()))
            .collect();
        let args: Vec<String> =
            stmt.parameter_names(names).iter().map(|name| parameter_ident(name)).collect();
        let declared = statement
            .columns()
            .map(|column| column.decl_type().map(|ty| ty.to_string()))
            .collect();
        let fields: Vec<(String, &str)> = statement
            .column_names()
            .map(|name| name.to_string())
            .zip(stmt.select_column_types(declared).iter().map(|ty| column_type(ty)))
            .collect();
        shapes.push((pascal_case(&query.fn_name).unwrap(), args, returns_one_row(&query.sql), fields));
    }
    let field = |name: &str, ty: &'static str| (name.to_string(), ty);
    assert_eq!(
        shapes,
        vec![
            ("PostsByUserId".to_string(), vec!["user_id".to_string()], false, vec![field("id", "Int")]),
            ("UserById".to_string(), vec!["id".to_string()], true, vec![field("id", "Int")]),
            (
                "PostsByContents".to_string(),
                vec!["content".to_string(), "content_1".to_string()],
                false,
                vec![
                    field("id", "Int"),
                    field("content", "Text"),
                    field("user_id", "Int"),
                    field("created_at", "Int"),
                ],
            ),
            (
                "CountPostsByUser".to_string(),
                vec![],
                true,
                vec![field("post_count", "Blob"), field("id", "Int"), field("email", "Text")],
            ),
        ]
    );
}
