//! The write layer of the todo table.

use vstd::prelude::*;
use crate::error::ServiceError;
use crate::model::{DeleteResult, Todo, UpdateTodo};
use crate::store::TodoStore;

verus! {

/// Changes to a table. Each returns what it did.
pub struct Mutation;

impl Mutation {
    /// Adds a row with the given text. The row gets the next id, which no row
    /// ever had, and is not completed. Returns the row.
    ///
    /// Fails with a storage error, and leaves the table as it was, once the
    /// ids have run out.
    pub fn create_todo(store: &mut TodoStore, text: String) -> (result: Result<Todo, ServiceError>)
        ensures
            final(store)@.wf(),
            (match result {
                Ok(row) => {
                    &&& !old(store)@.exhausted()
                    &&& row@ == old(store)@.fresh_row(text@)
                    &&& final(store)@ == old(store)@.created(text@)
                },
                Err(error) => {
                    &&& old(store)@.exhausted()
                    &&& error == ServiceError::Storage
                    &&& final(store)@ == old(store)@
                },
            }),
    {
        if store.last_id() == i32::MAX {
            return Err(ServiceError::Storage);
        }
        Ok(store.append(text))
    }

    /// Writes the fields that `form_data` holds over those of the row with
    /// this id and returns the row as it now is. Fields that `form_data`
    /// leaves out keep their value.
    ///
    /// Fails with `NotFound`, and changes nothing, if there is no such row.
    pub fn update_todo_by_id(store: &mut TodoStore, id: i32, form_data: UpdateTodo) -> (result:
        Result<Todo, ServiceError>)
        ensures
            final(store)@.wf(),
            final(store)@ == old(store)@.updated(id as int, form_data@),
            (match result {
                Ok(row) => {
                    &&& old(store)@.contains(id as int)
                    &&& row@ == old(store)@.row(id as int).patched(form_data@)
                },
                Err(error) => !old(store)@.contains(id as int) && error == ServiceError::NotFound,
            }),
    {
        match store.locate(id) {
            None => Err(ServiceError::NotFound),
            Some(i) => {
                let row = form_data.apply(store.row_at(i));
                store.replace_at(i, row.clone());
                Ok(row)
            },
        }
    }

    /// Removes the row with this id.
    ///
    /// Fails with `NotFound`, and changes nothing, if there is no such row.
    pub fn delete_todo(store: &mut TodoStore, id: i32) -> (result: Result<DeleteResult, ServiceError>)
        ensures
            final(store)@.wf(),
            final(store)@ == old(store)@.deleted(id as int),
            (match result {
                Ok(done) => old(store)@.contains(id as int) && done.rows_affected == 1,
                Err(error) => !old(store)@.contains(id as int) && error == ServiceError::NotFound,
            }),
    {
        match store.locate(id) {
            None => Err(ServiceError::NotFound),
            Some(i) => {
                store.remove_at(i);
                Ok(DeleteResult { rows_affected: 1 })
            },
        }
    }

    /// Removes every row and returns how many there were. Ids that were given
    /// out stay used.
    pub fn delete_all_todos(store: &mut TodoStore) -> (done: DeleteResult)
        ensures
            final(store)@.wf(),
            final(store)@ == old(store)@.cleared(),
            done.rows_affected == old(store)@.rows.len(),
    {
        let count = store.len();
        store.clear();
        DeleteResult { rows_affected: count as u64 }
    }
}

} // verus!
