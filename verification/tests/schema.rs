use sqltight::notation::key;
use sqltight::schema::{
    column_type, delete_sql, index_migrations, join, migration, parameter_ident, pascal_case,
    returns_one_row, table_migrations, upsert_sql,
};
use sqltight::{DatabaseSchema, Error, Field, Index, Query, SchemaError, SchemaPart, Table};

fn field(name: &str, ty: &str) -> Field {
    Field { name: name.to_string(), ty: ty.to_string() }
}

fn user() -> Table {
    Table {
        name: "User".to_string(),
        fields: vec![
            field("id", "Int"),
            field("email", "Text"),
            field("created_at", "Int"),
            field("updated_at", "Int"),
        ],
    }
}

fn user_indexes() -> Index {
    Index { name: "User".to_string(), fields: vec![field("email", "Unique"), field("created_at", "Plain")] }
}

#[test]
fn a_table_comes_to_one_statement_and_one_for_each_field_but_the_key() {
    assert_eq!(
        table_migrations(&user()),
        vec![
            "create table if not exists User ( id integer primary key ) strict",
            "alter table User add column email Text",
            "alter table User add column created_at Int",
            "alter table User add column updated_at Int",
        ]
    );
    let bare = Table { name: "t".to_string(), fields: vec![] };
    assert_eq!(table_migrations(&bare), vec!["create table if not exists t ( id integer primary key ) strict"]);
    let keys = Table { name: "t".to_string(), fields: vec![field("id", "Int"), field("id", "Text")] };
    assert_eq!(table_migrations(&keys).len(), 1);
}

#[test]
fn an_index_comes_to_one_statement_for_each_field() {
    assert_eq!(
        index_migrations(&user_indexes()),
        vec![
            "create unique index if not exists User_email_ix on User (email)",
            "create  index if not exists User_created_at_ix on User (created_at)",
        ]
    );
    assert_eq!(index_migrations(&Index { name: "t".to_string(), fields: vec![] }), Vec::<String>::new());
}

#[test]
fn a_schema_comes_to_the_statements_of_its_parts_in_order() {
    let query = Query { fn_name: "user_by_id".to_string(), sql: "select 1".to_string() };
    assert_eq!(migration(&SchemaPart::Query(query)), Vec::<String>::new());
    let schema = DatabaseSchema {
        parts: vec![
            SchemaPart::Table(user()),
            SchemaPart::Query(Query { fn_name: "q".to_string(), sql: "select 1".to_string() }),
            SchemaPart::Index(user_indexes()),
            SchemaPart::Table(Table { name: "Post".to_string(), fields: vec![field("user_id", "Int")] }),
        ],
    };
    let mut expected = table_migrations(&user());
    expected.extend(index_migrations(&user_indexes()));
    expected.push("create table if not exists Post ( id integer primary key ) strict".to_string());
    expected.push("alter table Post add column user_id Int".to_string());
    assert_eq!(schema.migrations(), expected);
    assert_eq!(schema.migrations().len(), 8);
    assert_eq!(DatabaseSchema { parts: vec![] }.migrations(), Vec::<String>::new());
}

#[test]
fn the_statement_that_stores_a_row_names_every_field_three_times() {
    assert_eq!(
        upsert_sql(&user()),
        "insert into User (id,email,created_at,updated_at) \
         values (:id,:email,:created_at,:updated_at) \
         on conflict (id) do update set id = excluded.id,email = excluded.email,\
         created_at = excluded.created_at,updated_at = excluded.updated_at returning *"
    );
    let one = Table { name: "t".to_string(), fields: vec![field("id", "Int")] };
    assert_eq!(
        upsert_sql(&one),
        "insert into t (id) values (:id) on conflict (id) do update set id = excluded.id returning *"
    );
    let none = Table { name: "t".to_string(), fields: vec![] };
    assert_eq!(
        upsert_sql(&none),
        "insert into t () values () on conflict (id) do update set  returning *"
    );
}

#[test]
fn the_statement_that_removes_a_row_goes_by_the_key() {
    assert_eq!(delete_sql(&user()), "delete from User where id = :id returning *");
}

#[test]
fn join_puts_the_separator_between() {
    let parts = |v: &[&str]| v.iter().map(|s| s.to_string()).collect::<Vec<_>>();
    assert_eq!(join(&parts(&[]), ","), "");
    assert_eq!(join(&parts(&["a"]), ","), "a");
    assert_eq!(join(&parts(&["a", "b", "c"]), ", "), "a, b, c");
    assert_eq!(join(&parts(&["", ""]), ","), ",");
}

#[test]
fn a_name_in_parts_becomes_one_in_pascal_case() {
    assert_eq!(pascal_case("posts_by_user_id"), Some("PostsByUserId".to_string()));
    assert_eq!(pascal_case("user"), Some("User".to_string()));
    assert_eq!(pascal_case("User"), Some("User".to_string()));
    assert_eq!(pascal_case("a_b"), Some("AB".to_string()));
    assert_eq!(pascal_case("count_posts_by_user"), Some("CountPostsByUser".to_string()));
    assert_eq!(pascal_case("élan_ßa"), Some("ÉlanSSa".to_string()));
    assert_eq!(pascal_case("x1_2y"), Some("X12y".to_string()));
}

#[test]
fn a_name_with_an_empty_part_has_no_pascal_case() {
    assert_eq!(pascal_case(""), None);
    assert_eq!(pascal_case("_"), None);
    assert_eq!(pascal_case("_a"), None);
    assert_eq!(pascal_case("a_"), None);
    assert_eq!(pascal_case("a__b"), None);
}

#[test]
fn the_value_type_goes_by_the_declared_type() {
    assert_eq!(column_type("INTEGER"), "Int");
    assert_eq!(column_type("INT"), "Int");
    assert_eq!(column_type("TEXT"), "Text");
    assert_eq!(column_type("REAL"), "Real");
    assert_eq!(column_type("BLOB"), "Blob");
    assert_eq!(column_type("ANY"), "Blob");
    assert_eq!(column_type("integer"), "Blob");
    assert_eq!(column_type(""), "Blob");
}

#[test]
fn a_query_with_limit_1_gives_one_row() {
    assert!(returns_one_row("select user.id from user where id = :id limit 1"));
    assert!(returns_one_row("limit 1"));
    assert!(returns_one_row("select 1 limit 10"));
    assert!(!returns_one_row("select post.id from post limit 2"));
    assert!(!returns_one_row("select 1 LIMIT 1"));
    assert!(!returns_one_row("limit"));
    assert!(!returns_one_row(""));
}

#[test]
fn a_parameter_stands_for_the_argument_of_its_name() {
    assert_eq!(parameter_ident(":user_id"), "user_id");
    assert_eq!(parameter_ident("::x"), "x");
    assert_eq!(parameter_ident("x:y"), "x:y");
    assert_eq!(parameter_ident(":"), "");
    assert_eq!(parameter_ident(""), "");
    assert_eq!(parameter_ident("@x"), "@x");
}

#[test]
fn the_key_of_a_table_is_its_first_field_named_id() {
    assert_eq!(key(&user()), Ok(0));
    let later = Table { name: "t".to_string(), fields: vec![field("a", "Int"), field("id", "Int"), field("id", "Int")] };
    assert_eq!(key(&later), Ok(1));
    let none = Table { name: "t".to_string(), fields: vec![field("a", "Int"), field("ID", "Int")] };
    let missing = SchemaError::Generate("Missing required column: id".to_string());
    assert_eq!(key(&none), Err(SchemaError::Generate("Missing required column: id".to_string())));
    assert_eq!(key(&Table { name: "t".to_string(), fields: vec![] }), Err(missing));
}

#[test]
fn a_failure_of_the_engine_is_told_in_its_own_words() {
    let failed = Error::Sqlite { text: "no such table: post".to_string(), code: 1 };
    assert_eq!(
        SchemaError::from_engine(failed),
        Some(SchemaError::Generate("no such table: post".to_string()))
    );
    assert_eq!(SchemaError::from_engine(Error::RowNotFound), None);
    assert_eq!(SchemaError::from_engine(Error::UniqueConstraint("t.v".to_string())), None);
}
