//! The todo row, the request payloads, and their mathematical views.

use vstd::prelude::*;

verus! {

/// One row of the todo table.
#[derive(Debug, PartialEq, Eq)]
pub struct Todo {
    pub id: i32,
    pub text: String,
    pub completed: bool,
}

/// What a [`Todo`] is in contracts: its id as an integer and its text as a
/// sequence of characters.
pub struct TodoModel {
    pub id: int,
    pub text: Seq<char>,
    pub completed: bool,
}

impl View for Todo {
    type V = TodoModel;

    open spec fn view(&self) -> TodoModel {
        TodoModel { id: self.id as int, text: self.text@, completed: self.completed }
    }
}

/// The views of a run of rows, in the same order.
pub open spec fn models(rows: Seq<Todo>) -> Seq<TodoModel> {
    rows.map_values(|row: Todo| row@)
}

impl Clone for Todo {
    fn clone(&self) -> (copy: Self)
        ensures
            copy == *self,
    {
        Todo { id: self.id, text: self.text.clone(), completed: self.completed }
    }
}

/// The body of a create request.
#[derive(Debug, PartialEq, Eq)]
pub struct CreateTodo {
    pub text: String,
}

impl CreateTodo {
    /// The row that the request asks for, before a table has given it an id:
    /// the text of the request, not completed, and 0 in place of the id.
    pub fn draft(self) -> (row: Todo)
        ensures
            row@ == (TodoModel { id: 0, text: self.text@, completed: false }),
    {
        Todo { id: 0, text: self.text, completed: false }
    }
}

/// The body of an update request. A field that is `None` leaves the row's
/// field as it is.
#[derive(Debug, PartialEq, Eq)]
pub struct UpdateTodo {
    pub text: Option<String>,
    pub completed: Option<bool>,
}

/// What an [`UpdateTodo`] is in contracts.
pub struct PatchModel {
    pub text: Option<Seq<char>>,
    pub completed: Option<bool>,
}

impl View for UpdateTodo {
    type V = PatchModel;

    open spec fn view(&self) -> PatchModel {
        PatchModel {
            text: match self.text {
                Some(text) => Some(text@),
                None => None,
            },
            completed: self.completed,
        }
    }
}

impl TodoModel {
    /// The row with the fields that `patch` holds written over its own. The id
    /// is never touched.
    pub open spec fn patched(self, patch: PatchModel) -> TodoModel {
        TodoModel {
            id: self.id,
            text: match patch.text {
                Some(text) => text,
                None => self.text,
            },
            completed: match patch.completed {
                Some(completed) => completed,
                None => self.completed,
            },
        }
    }
}

impl UpdateTodo {
    /// Applies the fields that are present to `row` and returns the result.
    pub fn apply(self, row: Todo) -> (patched: Todo)
        ensures
            patched@ == row@.patched(self@),
    {
        let text = match self.text {
            Some(text) => text,
            None => row.text,
        };
        let completed = match self.completed {
            Some(completed) => completed,
            None => row.completed,
        };
        Todo { id: row.id, text, completed }
    }
}

/// How many rows a delete removed.
#[derive(Debug, Clone, Copy, PartialEq, Eq)]
pub struct DeleteResult {
    pub rows_affected: u64,
}

} // verus!
