//! A statement builder that assembles SELECT, INSERT, UPDATE, DELETE and
//! CREATE TABLE statements as text. The builder carries a zero-size kind tag,
//! so each kind has its own terminal `build`.
pub mod builder;
pub mod kinds;
pub mod laws;
pub mod prelude;
pub mod query;
pub mod text;

pub use builder::{BuilderView, QueryBuilder};
pub use kinds::{CreateTable, Delete, Insert, SQLType, Select, Update};
pub use query::Query;
