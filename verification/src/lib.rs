//! Turns record types into formatted tables.
//!
//! A record type is *tabular* when it can name its column headers and turn
//! each instance into a row of text ([`Tablefy`]). The [`generate`] module
//! builds such an implementation from a record type's declaration: field
//! names, declared types, and per-field `header(name = "...")` annotations
//! that override the column label. The [`table`] module assembles the
//! records into a table of the `prettytable` rendering backend and hands
//! back the table or its formatted text.

pub mod generate;
pub mod header;
pub mod record;
pub mod schema;
pub mod table;
pub mod text;
pub mod tokens;

pub use record::{Basic, Tablefy};
pub use table::{into_string, into_table, tablefy};
