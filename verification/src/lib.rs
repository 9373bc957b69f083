//! A small todo service: a table of todo rows with a read layer, a write layer
//! and the request handlers that sit on top of them.

use vstd::prelude::*;

pub mod api;
pub mod error;
pub mod laws;
pub mod model;
pub mod mutation;
pub mod paging;
pub mod query;
pub mod store;

verus! {

/// Adds two counts whose sum fits in a `usize`.
pub fn add(left: usize, right: usize) -> (sum: usize)
    requires
        left + right <= usize::MAX,
    ensures
        sum == left + right,
{
    left + right
}

} // verus!
