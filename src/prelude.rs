//! Everything a caller needs to build statements, in one import.
pub use crate::builder::QueryBuilder;
pub use crate::kinds::{CreateTable, Delete, Insert, SQLType, Select, Update};
pub use crate::query::Query;
