//! The statement kinds and their keywords.
use crate::builder::QueryBuilder;
use vstd::prelude::*;

verus! {

/// A statement kind: a zero-size tag with the keyword that opens its text.
pub trait SQLType: Sized {
    /// The keyword, in upper case.
    const KEYWORD: &'static str;

    /// The keyword alone, the plainest text a statement of this kind starts from.
    fn build_base(_db: &QueryBuilder<Self>) -> (r: String)
        ensures
            r@ == Self::KEYWORD@,
    {
        String::from_str(Self::KEYWORD)
    }
}

/// Tag of a SELECT statement.
pub struct Select;

impl SQLType for Select {
    const KEYWORD: &'static str = "SELECT";
}

/// Tag of an INSERT statement.
pub struct Insert;

impl SQLType for Insert {
    const KEYWORD: &'static str = "INSERT";
}

/// Tag of an UPDATE statement.
pub struct Update;

impl SQLType for Update {
    const KEYWORD: &'static str = "UPDATE";
}

/// Tag of a DELETE statement.
pub struct Delete;

impl SQLType for Delete {
    const KEYWORD: &'static str = "DELETE";
}

/// Tag of a CREATE TABLE statement.
pub struct CreateTable;

impl SQLType for CreateTable {
    const KEYWORD: &'static str = "CREATE TABLE";
}

} // verus!
