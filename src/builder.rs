//! The builder, its view, and the text each kind renders.
use crate::kinds::{CreateTable, Delete, Insert, Select, Update};
use crate::query::Query;
use crate::text::{join, joined, strs, texts, to_owned_all};
use std::marker::PhantomData;
use vstd::prelude::*;

verus! {

/// What a builder has gathered so far.
pub ghost struct BuilderView {
    pub table: Seq<char>,
    pub columns: Seq<Seq<char>>,
    pub conditions: Option<Seq<char>>,
    pub values: Seq<Seq<char>>,
}

/// The view of a fresh builder: no table, no columns, no condition, no values.
pub open spec fn empty_view() -> BuilderView {
    BuilderView {
        table: Seq::empty(),
        columns: Seq::empty(),
        conditions: None,
        values: Seq::empty(),
    }
}

/// `cond` added to an existing condition with `joiner` between them, or `cond`
/// alone where there is none yet.
pub open spec fn chained(
    existing: Option<Seq<char>>,
    joiner: Seq<char>,
    cond: Seq<char>,
) -> Option<Seq<char>> {
    match existing {
        Some(c) => Some(c + joiner + cond),
        None => Some(cond),
    }
}

/// `b` with its table set to `table`.
pub open spec fn with_table(b: BuilderView, table: Seq<char>) -> BuilderView {
    BuilderView { table, ..b }
}

/// `b` with `column` added at the end of its columns.
pub open spec fn with_column(b: BuilderView, column: Seq<char>) -> BuilderView {
    BuilderView { columns: b.columns.push(column), ..b }
}

/// `b` with its columns replaced by `columns`.
pub open spec fn with_columns(b: BuilderView, columns: Seq<Seq<char>>) -> BuilderView {
    BuilderView { columns, ..b }
}

/// `b` with its values replaced by `values`.
pub open spec fn with_values(b: BuilderView, values: Seq<Seq<char>>) -> BuilderView {
    BuilderView { values, ..b }
}

/// `b` with `cond` as its only condition.
pub open spec fn with_condition(b: BuilderView, cond: Seq<char>) -> BuilderView {
    BuilderView { conditions: Some(cond), ..b }
}

/// `b` with `cond` joined to its condition by ` AND `.
pub open spec fn and_condition(b: BuilderView, cond: Seq<char>) -> BuilderView {
    BuilderView { conditions: chained(b.conditions, " AND "@, cond), ..b }
}

/// `b` with `cond` joined to its condition by ` OR `.
pub open spec fn or_condition(b: BuilderView, cond: Seq<char>) -> BuilderView {
    BuilderView { conditions: chained(b.conditions, " OR "@, cond), ..b }
}

/// ` WHERE <cond>` where a condition was set; nothing where none was.
pub open spec fn where_part(conditions: Option<Seq<char>>) -> Seq<char> {
    match conditions {
        Some(c) => " WHERE "@ + c,
        None => Seq::empty(),
    }
}

/// `parts` joined with `", "`.
pub open spec fn comma_list(parts: Seq<Seq<char>>) -> Seq<char> {
    joined(parts, ", "@)
}

/// `SELECT <cols or *> FROM <table>[ WHERE <cond>];`
pub open spec fn select_text(b: BuilderView) -> Seq<char> {
    let cols = if b.columns.len() == 0 {
        "*"@
    } else {
        comma_list(b.columns)
    };
    "SELECT "@ + cols + " FROM "@ + b.table + where_part(b.conditions) + ";"@
}

/// `DELETE FROM <table>[ WHERE <cond>];`
pub open spec fn delete_text(b: BuilderView) -> Seq<char> {
    "DELETE FROM "@ + b.table + where_part(b.conditions) + ";"@
}

/// `INSERT INTO <table> (<cols>) VALUES (<vals>);`
pub open spec fn insert_text(b: BuilderView) -> Seq<char> {
    "INSERT INTO "@ + b.table + " ("@ + comma_list(b.columns) + ") VALUES ("@ + comma_list(
        b.values,
    ) + ");"@
}

/// The pairs `col = val` of an UPDATE, one for each column.
pub open spec fn assignments(columns: Seq<Seq<char>>, values: Seq<Seq<char>>) -> Seq<Seq<char>> {
    Seq::new(columns.len(), |i: int| columns[i] + " = "@ + values[i])
}

/// `UPDATE <table> SET <col1 = val1, ...>[ WHERE <cond>];`
pub open spec fn update_text(b: BuilderView) -> Seq<char> {
    "UPDATE "@ + b.table + " SET "@ + comma_list(assignments(b.columns, b.values)) + where_part(
        b.conditions,
    ) + ";"@
}

/// `CREATE TABLE <table> (<column definitions>);`
pub open spec fn create_table_text(b: BuilderView) -> Seq<char> {
    "CREATE TABLE "@ + b.table + " ("@ + comma_list(b.columns) + ");"@
}

/// Gathers the fragments of a statement of kind `T`. Every step consumes the
/// builder and hands it back, so calls chain.
pub struct QueryBuilder<T> {
    table: String,
    columns: Vec<String>,
    conditions: Option<String>,
    values: Vec<String>,
    _type: PhantomData<T>,
}

impl<T> View for QueryBuilder<T> {
    type V = BuilderView;

    closed spec fn view(&self) -> BuilderView {
        BuilderView {
            table: self.table@,
            columns: texts(self.columns@),
            conditions: match self.conditions {
                Some(c) => Some(c@),
                None => None,
            },
            values: texts(self.values@),
        }
    }
}

impl<T> QueryBuilder<T> {
    fn empty() -> (r: Self)
        ensures
            r@ == empty_view(),
    {
        let r = QueryBuilder {
            table: String::new(),
            columns: Vec::new(),
            conditions: None,
            values: Vec::new(),
            _type: PhantomData,
        };
        assert(r@.columns =~= Seq::<Seq<char>>::empty());
        assert(r@.values =~= Seq::<Seq<char>>::empty());
        r
    }

    /// Sets the table name, replacing any earlier one.
    pub fn table(self, table: &str) -> (r: Self)
        ensures
            r@ == with_table(self@, table@),
    {
        let mut b = self;
        b.table = table.to_owned();
        b
    }

    /// Appends one column.
    pub fn column(self, column: &str) -> (r: Self)
        ensures
            r@ == with_column(self@, column@),
    {
        let mut b = self;
        let ghost before = b.columns@;
        b.columns.push(column.to_owned());
        assert(texts(b.columns@) =~= texts(before).push(column@));
        b
    }

    /// Replaces the whole column list.
    pub fn columns(self, columns: &[&str]) -> (r: Self)
        ensures
            r@ == with_columns(self@, strs(columns@)),
    {
        let mut b = self;
        b.columns = to_owned_all(columns);
        b
    }

    /// Sets the condition, dropping any earlier one.
    pub fn where_clause(self, condition: &str) -> (r: Self)
        ensures
            r@ == with_condition(self@, condition@),
    {
        let mut b = self;
        b.conditions = Some(condition.to_owned());
        b
    }

    /// Replaces the whole value list. Each value is literal text, used as given.
    pub fn values(self, values: &[&str]) -> (r: Self)
        ensures
            r@ == with_values(self@, strs(values@)),
    {
        let mut b = self;
        b.values = to_owned_all(values);
        b
    }

    /// Adds `condition` with ` AND ` to the condition there is, or sets it where
    /// there is none.
    pub fn and_where(self, condition: &str) -> (r: Self)
        ensures
            r@ == and_condition(self@, condition@),
    {
        self.chain(" AND ", condition)
    }

    /// Adds `condition` with ` OR ` to the condition there is, or sets it where
    /// there is none.
    pub fn or_where(self, condition: &str) -> (r: Self)
        ensures
            r@ == or_condition(self@, condition@),
    {
        self.chain(" OR ", condition)
    }

    fn chain(self, joiner: &str, condition: &str) -> (r: Self)
        ensures
            r@ == (BuilderView { conditions: chained(self@.conditions, joiner@, condition@), ..self@ }),
    {
        let mut b = self;
        match b.conditions {
            Some(existing) => {
                let mut c = existing;
                c.append(joiner);
                c.append(condition);
                b.conditions = Some(c);
                b
            },
            None => b.where_clause(condition),
        }
    }
}

impl QueryBuilder<Select> {
    /// A fresh builder for a SELECT statement.
    pub fn select() -> (r: Self)
        ensures
            r@ == empty_view(),
    {
        Self::empty()
    }
}

impl QueryBuilder<Insert> {
    /// A fresh builder for an INSERT statement.
    pub fn insert() -> (r: Self)
        ensures
            r@ == empty_view(),
    {
        Self::empty()
    }
}

impl QueryBuilder<Update> {
    /// A fresh builder for an UPDATE statement.
    pub fn update() -> (r: Self)
        ensures
            r@ == empty_view(),
    {
        Self::empty()
    }
}

impl QueryBuilder<Delete> {
    /// A fresh builder for a DELETE statement.
    pub fn delete() -> (r: Self)
        ensures
            r@ == empty_view(),
    {
        Self::empty()
    }
}

impl QueryBuilder<CreateTable> {
    /// A fresh builder for a CREATE TABLE statement.
    pub fn create_table() -> (r: Self)
        ensures
            r@ == empty_view(),
    {
        Self::empty()
    }
}

impl<T> QueryBuilder<T> {
    fn append_where(&self, query: &mut String)
        ensures
            final(query)@ == old(query)@ + where_part(self@.conditions),
    {
        match &self.conditions {
            Some(c) => {
                query.append(" WHERE ");
                query.append(c.as_str());
            },
            None => {
                assert(old(query)@ + Seq::<char>::empty() =~= old(query)@);
            },
        }
    }
}

impl QueryBuilder<Select> {
    /// Renders `SELECT <columns> FROM <table>[ WHERE <condition>];`, with `*`
    /// where no column was given.
    pub fn build(self) -> (r: Query<Select>)
        ensures
            r@ == select_text(self@),
    {
        let mut query = String::from_str("SELECT ");
        if self.columns.len() == 0 {
            query.append("*");
        } else {
            let cols = join(&self.columns, ", ");
            query.append(cols.as_str());
        }
        query.append(" FROM ");
        query.append(self.table.as_str());
        self.append_where(&mut query);
        query.append(";");
        Query::new(query)
    }
}

impl QueryBuilder<Delete> {
    /// Renders `DELETE FROM <table>[ WHERE <condition>];`.
    pub fn build(self) -> (r: Query<Delete>)
        ensures
            r@ == delete_text(self@),
    {
        let mut query = String::from_str("DELETE FROM ");
        query.append(self.table.as_str());
        self.append_where(&mut query);
        query.append(";");
        Query::new(query)
    }
}

impl QueryBuilder<Insert> {
    /// Renders `INSERT INTO <table> (<columns>) VALUES (<values>);`. The two
    /// lists are not compared.
    pub fn build(self) -> (r: Query<Insert>)
        ensures
            r@ == insert_text(self@),
    {
        let mut query = String::from_str("INSERT INTO ");
        query.append(self.table.as_str());
        query.append(" (");
        let cols = join(&self.columns, ", ");
        query.append(cols.as_str());
        query.append(") VALUES (");
        let vals = join(&self.values, ", ");
        query.append(vals.as_str());
        query.append(");");
        Query::new(query)
    }
}

impl QueryBuilder<Update> {
    /// Renders `UPDATE <table> SET <col = val, ...>[ WHERE <condition>];`. There
    /// must be at least one column, and as many values as columns.
    pub fn build(self) -> (r: Query<Update>)
        requires
            self@.columns.len() > 0,
            self@.columns.len() == self@.values.len(),
        ensures
            r@ == update_text(self@),
    {
        let n = self.columns.len();
        let mut pairs: Vec<String> = Vec::new();
        let mut i: usize = 0;
        while i < n
            invariant
                n == self.columns@.len(),
                n == self.values@.len(),
                i <= n,
                pairs@.len() == i,
                forall|j: int|
                    0 <= j < i ==> #[trigger] pairs@[j]@ == assignments(self@.columns, self@.values)[j],
            decreases n - i,
        {
            let mut p = self.columns[i].clone();
            p.append(" = ");
            p.append(self.values[i].as_str());
            pairs.push(p);
            i = i + 1;
        }
        assert(texts(pairs@) =~= assignments(self@.columns, self@.values));
        let mut query = String::from_str("UPDATE ");
        query.append(self.table.as_str());
        query.append(" SET ");
        let set_clause = join(&pairs, ", ");
        query.append(set_clause.as_str());
        self.append_where(&mut query);
        query.append(";");
        Query::new(query)
    }
}

impl QueryBuilder<CreateTable> {
    /// Renders `CREATE TABLE <table> (<column definitions>);`. There must be at
    /// least one column.
    pub fn build(self) -> (r: Query<CreateTable>)
        requires
            self@.columns.len() > 0,
        ensures
            r@ == create_table_text(self@),
    {
        let mut query = String::from_str("CREATE TABLE ");
        query.append(self.table.as_str());
        query.append(" (");
        let cols = join(&self.columns, ", ");
        query.append(cols.as_str());
        query.append(");");
        Query::new(query)
    }
}

} // verus!
