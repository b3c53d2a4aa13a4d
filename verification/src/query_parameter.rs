//! The query of a request, once it has been read into a value.

use vstd::prelude::*;

verus! {

/// A value that was read from the query string of a request.
#[derive(Debug, Clone, PartialEq, Eq, PartialOrd, Ord)]
pub struct Query<T>(pub T);

impl<T> Query<T> {
    /// The value itself.
    pub fn into_inner(self) -> (inner: T)
        ensures
            inner == self.0,
    {
        self.0
    }
}

} // verus!
