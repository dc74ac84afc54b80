use sqltight::notation::{parse_fields, unquote};
use sqltight::{parse, DatabaseSchema, Field, Index, Query, SchemaError, SchemaPart, Table, Token};

fn ident(name: &str) -> Token {
    Token::Ident(name.to_string())
}

fn punct(ch: char) -> Token {
    Token::Punct(ch.to_string())
}

fn literal(text: &str) -> Token {
    Token::Literal(text.to_string())
}

fn braces(tokens: Vec<Token>) -> Token {
    Token::Group { brace: true, tokens, shown: "{ ... }".to_string() }
}

fn parens(tokens: Vec<Token>) -> Token {
    Token::Group { brace: false, tokens, shown: "(id : Int)".to_string() }
}

fn field(name: &str, ty: &str) -> Field {
    Field { name: name.to_string(), ty: ty.to_string() }
}

fn fields(list: &[(&str, &str)], trailing_comma: bool) -> Vec<Token> {
    let mut tokens = Vec::new();
    for (i, (name, ty)) in list.iter().enumerate() {
        tokens.push(ident(name));
        tokens.push(punct(':'));
        tokens.push(ident(ty));
        if i + 1 < list.len() || trailing_comma {
            tokens.push(punct(','));
        }
    }
    tokens
}

fn parse_error(text: &str) -> SchemaError {
    SchemaError::Parse(text.to_string())
}

#[test]
fn a_schema_is_read_part_by_part() {
    let tokens = vec![
        ident("table"),
        ident("User"),
        braces(fields(&[("id", "Int"), ("email", "Text")], false)),
        ident("index"),
        ident("User"),
        braces(fields(&[("email", "Unique")], false)),
        ident("table"),
        ident("Post"),
        braces(fields(&[("id", "Int"), ("user_id", "Int")], true)),
        ident("query"),
        ident("user_by_id"),
        literal("\"select user.id from user where id = :id limit 1\""),
    ];
    let schema = parse(&tokens).unwrap();
    assert_eq!(
        schema,
        DatabaseSchema {
            parts: vec![
                SchemaPart::Table(Table {
                    name: "User".to_string(),
                    fields: vec![field("id", "Int"), field("email", "Text")],
                }),
                SchemaPart::Index(Index {
                    name: "User".to_string(),
                    fields: vec![field("email", "Unique")],
                }),
                SchemaPart::Table(Table {
                    name: "Post".to_string(),
                    fields: vec![field("id", "Int"), field("user_id", "Int")],
                }),
                SchemaPart::Query(Query {
                    fn_name: "user_by_id".to_string(),
                    sql: "select user.id from user where id = :id limit 1".to_string(),
                }),
            ],
        }
    );
    assert_eq!(schema.migrations().len(), 5);
}

#[test]
fn no_tokens_are_an_empty_schema() {
    assert_eq!(parse(&vec![]), Ok(DatabaseSchema { parts: vec![] }));
    assert_eq!(parse_fields(&vec![]), Ok(vec![]));
    let empty = parse(&vec![ident("table"), ident("t"), braces(vec![])]);
    assert_eq!(
        empty,
        Ok(DatabaseSchema {
            parts: vec![SchemaPart::Table(Table { name: "t".to_string(), fields: vec![] })]
        })
    );
}

#[test]
fn fields_end_where_no_comma_follows() {
    let mut tokens = fields(&[("a", "Int")], false);
    tokens.extend(fields(&[("b", "Text")], false));
    assert_eq!(parse_fields(&tokens), Ok(vec![field("a", "Int")]));
    let mut tokens = fields(&[("a", "Int")], false);
    tokens.push(punct(';'));
    tokens.push(literal("1"));
    assert_eq!(parse_fields(&tokens), Ok(vec![field("a", "Int")]));
}

#[test]
fn a_field_needs_a_name_a_colon_and_a_type() {
    assert_eq!(
        parse_fields(&vec![punct(':')]),
        Err(parse_error("Expected an identifier, but got: :"))
    );
    assert_eq!(
        parse_fields(&vec![ident("a")]),
        Err(parse_error("Expected punctuation ':', but found end of stream."))
    );
    assert_eq!(
        parse_fields(&vec![ident("a"), punct(','), ident("Int")]),
        Err(parse_error("Expected punctuation ':', but got: ,"))
    );
    assert_eq!(
        parse_fields(&vec![ident("a"), ident("Int")]),
        Err(parse_error("Expected punctuation ':', but got: Int"))
    );
    assert_eq!(
        parse_fields(&vec![ident("a"), punct(':')]),
        Err(parse_error("Expected an identifier, but found end of stream."))
    );
    assert_eq!(
        parse_fields(&vec![ident("a"), punct(':'), literal("\"Int\"")]),
        Err(parse_error("Expected an identifier, but got: \"Int\""))
    );
    let mut tokens = fields(&[("a", "Int")], true);
    tokens.push(parens(vec![]));
    assert_eq!(
        parse_fields(&tokens),
        Err(parse_error("Expected an identifier, but got: (id : Int)"))
    );
}

#[test]
fn a_part_begins_with_its_keyword() {
    assert_eq!(
        parse(&vec![ident("view"), ident("v"), braces(vec![])]),
        Err(parse_error("Unexpected keyword: view. Expected 'table', 'index', or 'query'."))
    );
    assert_eq!(
        parse(&vec![literal("\"table\"")]),
        Err(parse_error("Expected an identifier, but got: \"table\""))
    );
    assert_eq!(
        parse(&vec![ident("Table"), ident("t"), braces(vec![])]),
        Err(parse_error("Unexpected keyword: Table. Expected 'table', 'index', or 'query'."))
    );
}

#[test]
fn a_table_needs_a_name_and_braces() {
    assert_eq!(
        parse(&vec![ident("table")]),
        Err(parse_error("Expected an identifier, but found end of stream."))
    );
    assert_eq!(
        parse(&vec![ident("table"), ident("t")]),
        Err(parse_error("Expected a braced block `{ ... }`"))
    );
    assert_eq!(
        parse(&vec![ident("index"), ident("t"), parens(fields(&[("id", "Int")], false))]),
        Err(parse_error("Expected a braced block `{ ... }`"))
    );
    assert_eq!(
        parse(&vec![ident("table"), ident("t"), braces(vec![ident("id")])]),
        Err(parse_error("Expected punctuation ':', but found end of stream."))
    );
}

#[test]
fn a_query_needs_a_name_and_a_literal() {
    let message = "Expected a string literal for the SQL query inside the select parentheses.";
    assert_eq!(parse(&vec![ident("query"), ident("q")]), Err(parse_error(message)));
    assert_eq!(parse(&vec![ident("query"), ident("q"), ident("select")]), Err(parse_error(message)));
    assert_eq!(
        parse(&vec![ident("query"), literal("\"select 1\"")]),
        Err(parse_error("Expected an identifier, but got: \"select 1\""))
    );
}

#[test]
fn a_later_mistake_discards_what_was_read() {
    let tokens = vec![
        ident("table"),
        ident("t"),
        braces(fields(&[("id", "Int")], false)),
        ident("query"),
        ident("q"),
    ];
    assert!(matches!(parse(&tokens), Err(SchemaError::Parse(_))));
}

#[test]
fn the_statement_is_the_literal_without_its_quotes() {
    assert_eq!(unquote("\"select 1\""), "select 1");
    assert_eq!(unquote("select 1"), "select 1");
    assert_eq!(unquote("\"\"\"a\"b\"\""), "a\"b");
    assert_eq!(unquote("\""), "");
    assert_eq!(unquote("\"\""), "");
    assert_eq!(unquote(""), "");
    assert_eq!(unquote("r\"x\""), "r\"x");
    for text in ["\"\n  select 1\n\"", "\"é\"", "a\"", "\"a"] {
        assert_eq!(unquote(text), text.trim_matches('"'));
    }
}

#[test]
fn an_error_has_its_message() {
    assert_eq!(SchemaError::Parse("a".to_string()).msg(), "a");
    assert_eq!(SchemaError::Generate("Missing required column: id".to_string()).msg(), "Missing required column: id");
}
