//! A verified access layer for an embedded SQL engine.
//!
//! The engine sits behind a narrow boundary of handles, result codes and
//! diagnostic texts, and this crate never calls it. It says what the engine is
//! to be handed, takes what the engine answered, and decides what that comes to:
//! which error a failure stands for, which value a column decodes to, how a
//! statement is drained, when a transaction is open, and how a run of migrations
//! goes on. It also reads a schema from the tokens it is written in, and says
//! which statements the schema comes to. Each of these decisions is proved
//! against its model.
pub mod code;
pub mod connection;
pub mod cursor;
pub mod decimal;
pub mod error;
pub mod migration;
pub mod notation;
pub mod order;
pub mod row;
pub mod schema;
pub mod statement;
pub mod text;
pub mod transaction;
pub mod value;

pub use crate::connection::Sqlite;
pub use crate::cursor::{
    first_row, Changes, ChangesProgress, Demand, Event, Fetched, Rows, RowsProgress,
};
pub use crate::error::{c_string, sqlite_err, Error};
pub use crate::migration::{Job, Migration, MigrationProgress, Stage};
pub use crate::notation::{parse, SchemaError, Token};
pub use crate::row::{Column, Row};
pub use crate::schema::{DatabaseSchema, Field, Index, Query, SchemaPart, Table};
pub use crate::statement::{Binding, Cell, Param, Reader, Stmt};
pub use crate::transaction::{Crud, FromRow, Phase, Transaction, Tx};
pub use crate::value::{blob, integer, text, Blob, Int, Real, Text, Value};
