//! Laws of the builder, stated over the views its contracts speak of.
use crate::builder::{
    and_condition, create_table_text, delete_text, insert_text, or_condition, select_text,
    update_text, with_column, with_columns, with_condition, BuilderView,
};
use vstd::prelude::*;

verus! {

/// Rendering is deterministic: builders that gathered the same fragments
/// render the same text, whatever the statement kind.
pub proof fn lemma_rendering_deterministic(a: BuilderView, b: BuilderView)
    requires
        a == b,
    ensures
        select_text(a) == select_text(b),
        delete_text(a) == delete_text(b),
        insert_text(a) == insert_text(b),
        update_text(a) == update_text(b),
        create_table_text(a) == create_table_text(b),
{
}

/// Replacing the columns twice keeps only the second list.
pub proof fn lemma_columns_replace(b: BuilderView, first: Seq<Seq<char>>, second: Seq<Seq<char>>)
    ensures
        with_columns(with_columns(b, first), second) == with_columns(b, second),
{
}

/// Adding a column after replacing the columns appends to the new list.
pub proof fn lemma_column_after_columns(b: BuilderView, cols: Seq<Seq<char>>, col: Seq<char>)
    ensures
        with_column(with_columns(b, cols), col).columns == cols.push(col),
        with_column(with_columns(b, cols), col) == with_columns(b, cols.push(col)),
{
}

/// A condition set, then extended by AND, then by OR, reads
/// `a AND b OR c`, with one space on each side of each joiner and nothing more.
pub proof fn lemma_condition_chaining(b: BuilderView, a: Seq<char>, c1: Seq<char>, c2: Seq<char>)
    ensures
        or_condition(and_condition(with_condition(b, a), c1), c2).conditions == Some(
            a + " AND "@ + c1 + " OR "@ + c2,
        ),
{
}

} // verus!
