//! The finished statement.
use std::marker::PhantomData;
use vstd::prelude::*;

verus! {

/// A rendered statement, tagged with the kind that produced it.
/// Its view is the statement text.
pub struct Query<T> {
    inner: String,
    _type: PhantomData<T>,
}

impl<T> View for Query<T> {
    type V = Seq<char>;

    closed spec fn view(&self) -> Seq<char> {
        self.inner@
    }
}

impl<T> Query<T> {
    /// Wraps finished statement text.
    pub fn new(inner: String) -> (r: Self)
        ensures
            r@ == inner@,
    {
        Query { inner, _type: PhantomData }
    }

    /// Gives up the query and hands its text to the caller.
    pub fn get(self) -> (r: String)
        ensures
            r@ == self@,
    {
        self.inner
    }

    /// Renders the text without consuming the query.
    pub fn to_string(&self) -> (r: String)
        ensures
            r@ == self@,
    {
        self.inner.clone()
    }
}

} // verus!
