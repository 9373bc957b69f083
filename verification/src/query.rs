//! The read layer of the todo table.

use vstd::prelude::*;
use crate::error::ServiceError;
use crate::model::{models, Todo};
use crate::paging::{
    lemma_page_bounds_are_in_range, page_count, page_of, page_range, total_pages,
};
use crate::store::TodoStore;

verus! {

/// Lookups on a table. None of them changes it.
pub struct Query;

impl Query {
    /// The row with this id, or `None` if the table has none. A missing row
    /// is an ordinary answer, not a failure.
    pub fn find_todo_by_id(store: &TodoStore, id: i32) -> (found: Option<Todo>)
        ensures
            (match found {
                Some(row) => store@.contains(id as int) && row@ == store@.row(id as int),
                None => !store@.contains(id as int),
            }),
    {
        match store.locate(id) {
            Some(i) => Some(store.row_at(i)),
            None => None,
        }
    }

    /// Every row, in ascending order of id.
    pub fn find_all_todos(store: &TodoStore) -> (rows: Vec<Todo>)
        ensures
            models(rows@) == store@.rows,
            rows.len() == store@.rows.len(),
    {
        let rows = store.rows_between(0, store.len());
        rows
    }

    /// The rows of page `page` (counted from 1) of the listing in ascending
    /// order of id, and the number of pages there are.
    ///
    /// Page 0 and pages after the last one hold no rows; asking for them is
    /// not an error. A page size of 0 is rejected as invalid input.
    pub fn find_todos_in_page(store: &TodoStore, page: u64, todos_per_page: u64) -> (result: Result<
        (Vec<Todo>, u64),
        ServiceError,
    >)
        ensures
            (match result {
                Ok((rows, pages)) => {
                    &&& todos_per_page > 0
                    &&& models(rows@) == page_of(store@.rows, page as nat, todos_per_page as nat)
                    &&& rows.len() <= todos_per_page
                    &&& pages == total_pages(store@.rows.len(), todos_per_page as nat)
                },
                Err(error) => todos_per_page == 0 && error == ServiceError::Validation,
            }),
    {
        if todos_per_page == 0 {
            return Err(ServiceError::Validation);
        }
        let total = store.len() as u64;
        let pages = page_count(total, todos_per_page);
        let (start, end) = page_range(total, page, todos_per_page);
        let rows = store.rows_between(start as usize, end as usize);
        proof {
            lemma_page_bounds_are_in_range(total as nat, page as nat, todos_per_page as nat);
        }
        Ok((rows, pages))
    }
}

} // verus!
