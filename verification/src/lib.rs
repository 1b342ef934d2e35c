//! Dialect-aware SQL statement text builder.
//!
//! Given a table name and a SQL dialect ([`Type`]), a [`StmtBuilder`] produces
//! INSERT, SELECT, UPDATE and DELETE statement strings from column/value pairs
//! ([`KV`]) and equality conditions, quoting identifiers and numbering
//! parameter placeholders as the dialect demands. Every operation is a pure
//! text transformation: its output is specified exactly, character by
//! character, by the spec functions in [`model`], and the laws in [`laws`]
//! state the properties the generated statements satisfy.

pub mod builder;
pub mod decimal;
pub mod laws;
pub mod model;

pub use builder::StmtBuilder;
pub use model::KV;
pub use model::PLACEHOLDER;
pub use model::Type;
