//! The notation in which a schema is written, read from its tokens.
//!
//! A schema is a run of parts. A part is the word `table` or `index`, a name and
//! a braced list of fields, or the word `query`, a name and the statement as a
//! string literal. A field is a name, a colon and a type; fields are parted by
//! commas.
use crate::schema::{
    DatabaseSchema, Field, FieldView, Index, Query, SchemaPart, SchemaPartView, Table, TableView,
};
use crate::error::{Error, ErrorView};
use crate::text::{chars_of, same};
use vstd::prelude::*;
use vstd::string::*;

verus! {

/// A token of the notation.
#[derive(Debug, PartialEq)]
pub enum Token {
    /// A word: a name or a keyword.
    Ident(String),
    /// A punctuation character, as text.
    Punct(String),
    /// A literal, as it was written.
    Literal(String),
    /// Tokens inside a pair of delimiters: whether these are braces, the tokens,
    /// and the whole group as it was written.
    Group { brace: bool, tokens: Vec<Token>, shown: String },
}

/// What went wrong with a schema.
#[derive(Debug, PartialEq)]
pub enum SchemaError {
    /// The schema cannot be turned into statements or types.
    Generate(String),
    /// The schema is not written in the notation.
    Parse(String),
}

impl SchemaError {
    /// The message of the error.
    pub fn msg(&self) -> (r: &str)
        ensures
            r@ == self.message(),
    {
        match self {
            SchemaError::Generate(text) => text.as_str(),
            SchemaError::Parse(text) => text.as_str(),
        }
    }

    /// The message of the error.
    pub open spec fn message(&self) -> Seq<char> {
        match self {
            SchemaError::Generate(text) => text@,
            SchemaError::Parse(text) => text@,
        }
    }
}

/// A token as a message shows it.
pub open spec fn shown(token: Token) -> Seq<char> {
    match token {
        Token::Ident(text) => text@,
        Token::Punct(text) => text@,
        Token::Literal(text) => text@,
        Token::Group { shown, .. } => shown@,
    }
}

/// Whether a token is the punctuation `expected`.
pub open spec fn is_punct(token: Token, expected: char) -> bool {
    match token {
        Token::Punct(text) => text@ == seq![expected],
        _ => false,
    }
}

/// The word at `at`, or the message that says what stands there instead.
pub open spec fn ident_at(tokens: Seq<Token>, at: int) -> Result<Seq<char>, Seq<char>> {
    if at >= tokens.len() {
        Err("Expected an identifier, but found end of stream."@)
    } else {
        match tokens[at] {
            Token::Ident(name) => Ok(name@),
            other => Err("Expected an identifier, but got: "@ + shown(other)),
        }
    }
}

/// Nothing where the punctuation `expected` stands at `at`, or the message that
/// says what stands there instead.
pub open spec fn punct_at(tokens: Seq<Token>, at: int, expected: char) -> Option<Seq<char>> {
    if at >= tokens.len() {
        Some("Expected punctuation '"@ + seq![expected] + "', but found end of stream."@)
    } else if is_punct(tokens[at], expected) {
        None
    } else {
        Some("Expected punctuation '"@ + seq![expected] + "', but got: "@ + shown(tokens[at]))
    }
}

/// Whether a comma stands at `at`.
pub open spec fn comma_at(tokens: Seq<Token>, at: int) -> bool {
    at < tokens.len() && is_punct(tokens[at], ',')
}

/// The fields written from `at` on: a name, a colon and a type each. After a
/// comma the next field follows, or nothing; after anything else the list has
/// ended, and what stands behind is not read.
pub open spec fn fields_from(tokens: Seq<Token>, at: int) -> Result<Seq<FieldView>, Seq<char>>
    decreases tokens.len() - at,
{
    if at < 0 || at >= tokens.len() {
        Ok(Seq::empty())
    } else {
        match ident_at(tokens, at) {
            Err(e) => Err(e),
            Ok(name) => match punct_at(tokens, at + 1, ':') {
                Some(e) => Err(e),
                None => match ident_at(tokens, at + 2) {
                    Err(e) => Err(e),
                    Ok(ty) => if comma_at(tokens, at + 3) {
                        match fields_from(tokens, at + 4) {
                            Ok(rest) => Ok(seq![FieldView { name, ty }] + rest),
                            Err(e) => Err(e),
                        }
                    } else {
                        Ok(seq![FieldView { name, ty }])
                    },
                },
            },
        }
    }
}

/// The fields in the braces at `at`.
pub open spec fn braced_fields_at(tokens: Seq<Token>, at: int) -> Result<
    Seq<FieldView>,
    Seq<char>,
> {
    if at < tokens.len() {
        match tokens[at] {
            Token::Group { brace: true, tokens: inner, .. } => fields_from(inner@, 0),
            _ => Err("Expected a braced block `{ ... }`"@),
        }
    } else {
        Err("Expected a braced block `{ ... }`"@)
    }
}

/// `text` without the quotation marks it begins with.
pub open spec fn without_leading_quotes(text: Seq<char>) -> Seq<char>
    decreases text.len(),
{
    if text.len() > 0 && text[0] == '"' {
        without_leading_quotes(text.skip(1))
    } else {
        text
    }
}

/// `text` without the quotation marks it ends with.
pub open spec fn without_trailing_quotes(text: Seq<char>) -> Seq<char>
    decreases text.len(),
{
    if text.len() > 0 && text.last() == '"' {
        without_trailing_quotes(text.drop_last())
    } else {
        text
    }
}

/// The statement of a query, from the literal it was written as: the literal
/// without the quotation marks around it.
pub open spec fn unquoted(literal: Seq<char>) -> Seq<char> {
    without_trailing_quotes(without_leading_quotes(literal))
}

/// The literal at `at`, if one stands there.
pub open spec fn literal_at(tokens: Seq<Token>, at: int) -> Option<Seq<char>> {
    if at < tokens.len() {
        match tokens[at] {
            Token::Literal(literal) => Some(literal@),
            _ => None,
        }
    } else {
        None
    }
}

/// The part written at `at`, which takes three tokens: its keyword, its name,
/// and its fields or its statement.
pub open spec fn part_at(tokens: Seq<Token>, at: int) -> Result<SchemaPartView, Seq<char>> {
    match ident_at(tokens, at) {
        Err(e) => Err(e),
        Ok(keyword) => if keyword == "table"@ || keyword == "index"@ {
            match ident_at(tokens, at + 1) {
                Err(e) => Err(e),
                Ok(name) => match braced_fields_at(tokens, at + 2) {
                    Err(e) => Err(e),
                    Ok(fields) => if keyword == "table"@ {
                        Ok(SchemaPartView::Table(TableView { name, fields }))
                    } else {
                        Ok(SchemaPartView::Index(TableView { name, fields }))
                    },
                },
            }
        } else if keyword == "query"@ {
            match ident_at(tokens, at + 1) {
                Err(e) => Err(e),
                Ok(fn_name) => match literal_at(tokens, at + 2) {
                    Some(literal) => Ok(SchemaPartView::Query { fn_name, sql: unquoted(literal) }),
                    None => Err(
                        "Expected a string literal for the SQL query inside the select parentheses."@,
                    ),
                },
            }
        } else {
            Err("Unexpected keyword: "@ + keyword + ". Expected 'table', 'index', or 'query'."@)
        },
    }
}

/// The parts written from `at` on, to the end of the tokens.
pub open spec fn parts_from(tokens: Seq<Token>, at: int) -> Result<Seq<SchemaPartView>, Seq<char>>
    decreases tokens.len() - at,
{
    if at < 0 || at >= tokens.len() {
        Ok(Seq::empty())
    } else {
        match part_at(tokens, at) {
            Err(e) => Err(e),
            Ok(part) => match parts_from(tokens, at + 3) {
                Ok(rest) => Ok(seq![part] + rest),
                Err(e) => Err(e),
            },
        }
    }
}

/// A text and another, put together.
fn concat(a: &str, b: &str) -> (r: String)
    ensures
        r@ == a@ + b@,
{
    let mut r = String::from_str(a);
    r.append(b);
    r
}

/// How a message shows a token.
fn show(token: &Token) -> (r: &str)
    ensures
        r@ == shown(*token),
{
    match token {
        Token::Ident(text) => text.as_str(),
        Token::Punct(text) => text.as_str(),
        Token::Literal(text) => text.as_str(),
        Token::Group { shown, .. } => shown.as_str(),
    }
}

/// The token that stands `skip` places behind `at`, if one does.
fn peek(tokens: &Vec<Token>, at: usize, skip: usize) -> (r: Option<&Token>)
    requires
        at <= tokens.len(),
    ensures
        match r {
            Some(token) => at + skip < tokens@.len() && *token == tokens@[at + skip],
            None => at + skip >= tokens@.len(),
        },
{
    if tokens.len() - at > skip {
        Some(&tokens[at + skip])
    } else {
        None
    }
}

/// Reads the word that stands `skip` places behind `at`.
fn expect_ident(tokens: &Vec<Token>, at: usize, skip: usize) -> (r: Result<String, SchemaError>)
    requires
        at <= tokens.len(),
    ensures
        match r {
            Ok(name) => ident_at(tokens@, at + skip) == Ok::<Seq<char>, Seq<char>>(name@),
            Err(e) => e is Parse && ident_at(tokens@, at + skip) == Err::<Seq<char>, Seq<char>>(
                e.message(),
            ),
        },
{
    match peek(tokens, at, skip) {
        None => Err(
            SchemaError::Parse(
                String::from_str("Expected an identifier, but found end of stream."),
            ),
        ),
        Some(Token::Ident(name)) => Ok(name.clone()),
        Some(other) => Err(
            SchemaError::Parse(concat("Expected an identifier, but got: ", show(other))),
        ),
    }
}

/// Whether the colon stands `skip` places behind `at`.
fn expect_colon(tokens: &Vec<Token>, at: usize, skip: usize) -> (r: Result<(), SchemaError>)
    requires
        at <= tokens.len(),
    ensures
        match r {
            Ok(_) => punct_at(tokens@, at + skip, ':') is None,
            Err(e) => e is Parse && punct_at(tokens@, at + skip, ':') == Some(e.message()),
        },
{
    proof {
        reveal_strlit(":");
        assert(":"@ =~= seq![':']);
    }
    match peek(tokens, at, skip) {
        None => {
            let text = concat(
                concat("Expected punctuation '", ":").as_str(),
                "', but found end of stream.",
            );
            Err(SchemaError::Parse(text))
        },
        Some(Token::Punct(text)) if same(text.as_str(), ":") => Ok(()),
        Some(other) => {
            let begin = concat(concat("Expected punctuation '", ":").as_str(), "', but got: ");
            Err(SchemaError::Parse(concat(begin.as_str(), show(other))))
        },
    }
}

/// Whether a comma stands `skip` places behind `at`.
fn is_comma(tokens: &Vec<Token>, at: usize, skip: usize) -> (r: bool)
    requires
        at <= tokens.len(),
    ensures
        r == comma_at(tokens@, at + skip),
{
    proof {
        reveal_strlit(",");
        assert(","@ =~= seq![',']);
    }
    match peek(tokens, at, skip) {
        Some(Token::Punct(text)) => same(text.as_str(), ","),
        _ => false,
    }
}

/// The views of fields.
pub open spec fn field_views(fields: Seq<Field>) -> Seq<FieldView> {
    fields.map_values(|f: Field| f@)
}

/// Reads the fields that a pair of braces holds.
pub fn parse_fields(tokens: &Vec<Token>) -> (r: Result<Vec<Field>, SchemaError>)
    ensures
        match r {
            Ok(fields) => fields_from(tokens@, 0) == Ok::<Seq<FieldView>, Seq<char>>(
                field_views(fields@),
            ),
            Err(e) => e is Parse && fields_from(tokens@, 0) == Err::<Seq<FieldView>, Seq<char>>(
                e.message(),
            ),
        },
{
    let mut fields: Vec<Field> = Vec::new();
    let mut at: usize = 0;
    assert(field_views(fields@) + Seq::<FieldView>::empty() =~= field_views(fields@));
    while at < tokens.len()
        invariant
            at <= tokens.len(),
            fields_from(tokens@, 0) == match fields_from(tokens@, at as int) {
                Ok(rest) => Ok::<Seq<FieldView>, Seq<char>>(field_views(fields@) + rest),
                Err(e) => Err(e),
            },
        decreases tokens.len() - at,
    {
        let name = match expect_ident(tokens, at, 0) {
            Ok(name) => name,
            Err(e) => {
                return Err(e);
            },
        };
        match expect_colon(tokens, at, 1) {
            Ok(_) => {},
            Err(e) => {
                return Err(e);
            },
        }
        let ty = match expect_ident(tokens, at, 2) {
            Ok(ty) => ty,
            Err(e) => {
                return Err(e);
            },
        };
        let ghost before = fields@;
        let field = Field { name, ty };
        fields.push(field);
        proof {
            assert(field_views(fields@) =~= field_views(before).push(field@));
        }
        if is_comma(tokens, at, 3) {
            proof {
                match fields_from(tokens@, at + 4) {
                    Ok(rest) => {
                        assert(field_views(before) + (seq![field@] + rest) =~= field_views(fields@)
                            + rest);
                    },
                    Err(_) => {},
                }
            }
            at += 4;
        } else {
            proof {
                assert(field_views(before) + seq![field@] =~= field_views(fields@));
            }
            return Ok(fields);
        }
    }
    proof {
        assert(field_views(fields@) + Seq::<FieldView>::empty() =~= field_views(fields@));
    }
    Ok(fields)
}

/// Reads the fields in the braces that stand `skip` places behind `at`.
fn parse_braced_fields(tokens: &Vec<Token>, at: usize, skip: usize) -> (r: Result<
    Vec<Field>,
    SchemaError,
>)
    requires
        at <= tokens.len(),
    ensures
        match r {
            Ok(fields) => at + skip < tokens@.len() && braced_fields_at(tokens@, at + skip) == Ok::<
                Seq<FieldView>,
                Seq<char>,
            >(field_views(fields@)),
            Err(e) => e is Parse && braced_fields_at(tokens@, at + skip) == Err::<
                Seq<FieldView>,
                Seq<char>,
            >(e.message()),
        },
{
    match peek(tokens, at, skip) {
        Some(Token::Group { brace: true, tokens: inner, .. }) => parse_fields(inner),
        _ => Err(SchemaError::Parse(String::from_str("Expected a braced block `{ ... }`"))),
    }
}

/// The statement of a query, from the literal it was written as.
pub fn unquote(literal: &str) -> (r: String)
    ensures
        r@ == unquoted(literal@),
{
    let chars = chars_of(literal);
    let mut from: usize = 0;
    assert(chars@.skip(0) =~= chars@);
    while from < chars.len() && chars[from] == '"'
        invariant
            from <= chars.len(),
            chars@ == literal@,
            without_leading_quotes(literal@) == without_leading_quotes(chars@.skip(from as int)),
        decreases chars.len() - from,
    {
        proof {
            assert(chars@.skip(from as int)[0] == '"');
            assert(chars@.skip(from as int).skip(1) =~= chars@.skip(from + 1));
        }
        from += 1;
    }
    proof {
        if from < chars.len() {
            assert(chars@.skip(from as int)[0] != '"');
        }
        assert(chars@.skip(from as int) =~= chars@.subrange(from as int, chars@.len() as int));
    }
    let mut to: usize = chars.len();
    while to > from && chars[to - 1] == '"'
        invariant
            from <= to <= chars.len(),
            chars@ == literal@,
            unquoted(literal@) == without_trailing_quotes(chars@.subrange(from as int, to as int)),
        decreases to,
    {
        proof {
            let piece = chars@.subrange(from as int, to as int);
            assert(piece.last() == '"');
            assert(piece.drop_last() =~= chars@.subrange(from as int, to - 1));
        }
        to -= 1;
    }
    proof {
        let piece = chars@.subrange(from as int, to as int);
        if to > from {
            assert(piece.last() == chars@[to - 1]);
        }
    }
    String::from_str(literal.substring_char(from, to))
}

/// Reads the part at `at`.
fn parse_part(tokens: &Vec<Token>, at: usize) -> (r: Result<SchemaPart, SchemaError>)
    requires
        at <= tokens.len(),
    ensures
        match r {
            Ok(part) => at + 2 < tokens@.len() && part_at(tokens@, at as int) == Ok::<
                SchemaPartView,
                Seq<char>,
            >(part@),
            Err(e) => e is Parse && part_at(tokens@, at as int) == Err::<SchemaPartView, Seq<char>>(
                e.message(),
            ),
        },
{
    let keyword = match expect_ident(tokens, at, 0) {
        Ok(keyword) => keyword,
        Err(e) => {
            return Err(e);
        },
    };
    let table = same(keyword.as_str(), "table");
    if table || same(keyword.as_str(), "index") {
        let name = match expect_ident(tokens, at, 1) {
            Ok(name) => name,
            Err(e) => {
                return Err(e);
            },
        };
        let fields = match parse_braced_fields(tokens, at, 2) {
            Ok(fields) => fields,
            Err(e) => {
                return Err(e);
            },
        };
        if table {
            Ok(SchemaPart::Table(Table { name, fields }))
        } else {
            Ok(SchemaPart::Index(Index { name, fields }))
        }
    } else if same(keyword.as_str(), "query") {
        let fn_name = match expect_ident(tokens, at, 1) {
            Ok(fn_name) => fn_name,
            Err(e) => {
                return Err(e);
            },
        };
        match peek(tokens, at, 2) {
            Some(Token::Literal(literal)) => Ok(
                SchemaPart::Query(Query { fn_name, sql: unquote(literal.as_str()) }),
            ),
            _ => Err(
                SchemaError::Parse(
                    String::from_str(
                        "Expected a string literal for the SQL query inside the select parentheses.",
                    ),
                ),
            ),
        }
    } else {
        let begin = concat("Unexpected keyword: ", keyword.as_str());
        Err(
            SchemaError::Parse(
                concat(begin.as_str(), ". Expected 'table', 'index', or 'query'."),
            ),
        )
    }
}

/// Reads a schema from its tokens.
///
/// Gives the schema where the tokens are written in the notation, and else the
/// message of the first thing that is not.
pub fn parse(tokens: &Vec<Token>) -> (r: Result<DatabaseSchema, SchemaError>)
    ensures
        match r {
            Ok(schema) => parts_from(tokens@, 0) == Ok::<Seq<SchemaPartView>, Seq<char>>(schema@),
            Err(e) => e is Parse && parts_from(tokens@, 0) == Err::<Seq<SchemaPartView>, Seq<char>>(
                e.message(),
            ),
        },
{
    let mut parts: Vec<SchemaPart> = Vec::new();
    let mut at: usize = 0;
    let ghost views = |p: SchemaPart| p@;
    assert(parts@.map_values(views) + Seq::<SchemaPartView>::empty() =~= parts@.map_values(views));
    while at < tokens.len()
        invariant
            at <= tokens.len(),
            views == |p: SchemaPart| p@,
            parts_from(tokens@, 0) == match parts_from(tokens@, at as int) {
                Ok(rest) => Ok::<Seq<SchemaPartView>, Seq<char>>(parts@.map_values(views) + rest),
                Err(e) => Err(e),
            },
        decreases tokens.len() - at,
    {
        let part = match parse_part(tokens, at) {
            Ok(part) => part,
            Err(e) => {
                return Err(e);
            },
        };
        let ghost before = parts@;
        proof {
            match parts_from(tokens@, at + 3) {
                Ok(rest) => {
                    assert(before.map_values(views) + (seq![part@] + rest) =~= before.push(
                        part,
                    ).map_values(views) + rest);
                },
                Err(_) => {},
            }
        }
        parts.push(part);
        at += 3;
    }
    proof {
        assert(parts@.map_values(views) + Seq::<SchemaPartView>::empty() =~= parts@.map_values(
            views,
        ));
    }
    let schema = DatabaseSchema { parts };
    Ok(schema)
}

/// What is said of a table without a key.
pub const MISSING_KEY: &'static str = "Missing required column: id";

/// The key of a table: the place of its first field of the name `id`. A table
/// without one cannot be stored.
pub fn key(table: &Table) -> (r: Result<usize, SchemaError>)
    ensures
        match r {
            Ok(at) => {
                &&& at < table@.fields.len()
                &&& table@.fields[at as int].name == "id"@
                &&& forall|j: int| 0 <= j < at ==> (#[trigger] table@.fields[j]).name != "id"@
            },
            Err(e) => {
                &&& e is Generate
                &&& e.message() == MISSING_KEY@
                &&& forall|j: int|
                    0 <= j < table@.fields.len() ==> (#[trigger] table@.fields[j]).name != "id"@
            },
        },
{
    let mut i: usize = 0;
    while i < table.fields.len()
        invariant
            i <= table.fields.len(),
            forall|j: int| 0 <= j < i ==> (#[trigger] table@.fields[j]).name != "id"@,
        decreases table.fields.len() - i,
    {
        assert(table@.fields[i as int] == table.fields@[i as int]@);
        if same(table.fields[i].name.as_str(), "id") {
            return Ok(i);
        }
        i += 1;
    }
    Err(SchemaError::Generate(String::from_str(MISSING_KEY)))
}

impl SchemaError {
    /// What a failure of the engine says of a schema: the engine's own words,
    /// where the failure carries them, and nothing for a failure of another kind.
    pub fn from_engine(e: Error) -> (r: Option<SchemaError>)
        ensures
            match r {
                Some(told) => told is Generate && e@ is Sqlite && told.message()
                    == e@->Sqlite_text,
                None => !(e@ is Sqlite),
            },
    {
        match e {
            Error::Sqlite { text, .. } => Some(SchemaError::Generate(text)),
            _ => None,
        }
    }
}

} // verus!
