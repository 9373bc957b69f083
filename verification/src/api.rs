//! The request handlers: what each route does to the table and what it
//! answers.
//!
//! | Method | Path         | Handler          |
//! |--------|--------------|------------------|
//! | GET    | `/todos`     | [`todos_index`]  |
//! | POST   | `/todos`     | [`todos_create`] |
//! | PUT    | `/todos/:id` | [`todos_update`] |
//! | DELETE | `/todos/:id` | [`todos_delete`] |
//!
//! A handler gets the table and the parts of the request as far as they could
//! be parsed, `None` standing for a part that was malformed or missing, and
//! returns the status and the body to send. A request with such a part is
//! answered 400 and changes nothing.

use vstd::prelude::*;
use crate::error::{ServiceError, StatusCode};
use crate::model::{models, CreateTodo, Todo, TodoModel, UpdateTodo};
use crate::mutation::Mutation;
use crate::query::Query;
use crate::store::{Change, TodoStore};

verus! {

/// The body of an answer.
#[derive(Debug, PartialEq, Eq)]
pub enum Payload {
    /// No body.
    Empty,
    /// One row.
    Row(Todo),
    /// A list of rows.
    Rows(Vec<Todo>),
}

/// What a [`Payload`] is in contracts.
pub enum PayloadModel {
    Empty,
    Row(TodoModel),
    Rows(Seq<TodoModel>),
}

impl View for Payload {
    type V = PayloadModel;

    open spec fn view(&self) -> PayloadModel {
        match self {
            Payload::Empty => PayloadModel::Empty,
            Payload::Row(row) => PayloadModel::Row(row@),
            Payload::Rows(rows) => PayloadModel::Rows(models(rows@)),
        }
    }
}

/// An answer to a request: a status and a body.
#[derive(Debug, PartialEq, Eq)]
pub struct Reply {
    pub status: StatusCode,
    pub body: Payload,
}

/// What a [`Reply`] is in contracts.
pub struct ReplyModel {
    pub status: StatusCode,
    pub body: PayloadModel,
}

impl View for Reply {
    type V = ReplyModel;

    open spec fn view(&self) -> ReplyModel {
        ReplyModel { status: self.status, body: self.body@ }
    }
}

impl ReplyModel {
    /// The answer to a listing: 200 with the rows.
    pub open spec fn listed(rows: Seq<TodoModel>) -> ReplyModel {
        ReplyModel { status: StatusCode::Okay, body: PayloadModel::Rows(rows) }
    }

    /// The answer to a create that went through: 201 with the new row.
    pub open spec fn created(row: TodoModel) -> ReplyModel {
        ReplyModel { status: StatusCode::Created, body: PayloadModel::Row(row) }
    }

    /// The answer to an update that went through: 200 with the row as it now
    /// is.
    pub open spec fn updated(row: TodoModel) -> ReplyModel {
        ReplyModel { status: StatusCode::Okay, body: PayloadModel::Row(row) }
    }

    /// The answer to a delete that went through: 204 and no body.
    pub open spec fn deleted() -> ReplyModel {
        ReplyModel { status: StatusCode::NoContent, body: PayloadModel::Empty }
    }

    /// The answer to a request that failed: the status that stands for the
    /// failure, and no body.
    pub open spec fn failure(error: ServiceError) -> ReplyModel {
        ReplyModel { status: error.status_of(), body: PayloadModel::Empty }
    }
}

impl Reply {
    /// The answer to a listing.
    pub fn listed(rows: Vec<Todo>) -> (reply: Reply)
        ensures
            reply@ == ReplyModel::listed(models(rows@)),
    {
        Reply { status: StatusCode::Okay, body: Payload::Rows(rows) }
    }

    /// The answer to a create that went through.
    pub fn created(row: Todo) -> (reply: Reply)
        ensures
            reply@ == ReplyModel::created(row@),
    {
        Reply { status: StatusCode::Created, body: Payload::Row(row) }
    }

    /// The answer to an update that went through.
    pub fn updated(row: Todo) -> (reply: Reply)
        ensures
            reply@ == ReplyModel::updated(row@),
    {
        Reply { status: StatusCode::Okay, body: Payload::Row(row) }
    }

    /// The answer to a delete that went through.
    pub fn deleted() -> (reply: Reply)
        ensures
            reply@ == ReplyModel::deleted(),
    {
        Reply { status: StatusCode::NoContent, body: Payload::Empty }
    }

    /// The answer to a request that failed.
    pub fn failure(error: ServiceError) -> (reply: Reply)
        ensures
            reply@ == ReplyModel::failure(error),
    {
        Reply { status: error.status(), body: Payload::Empty }
    }
}

/// A part of a request that has to be there: the part, or a validation error
/// if it could not be parsed.
pub fn required<T>(part: Option<T>) -> (result: Result<T, ServiceError>)
    ensures
        (match part {
            Some(value) => result == Ok::<T, ServiceError>(value),
            None => result == Err::<T, ServiceError>(ServiceError::Validation),
        }),
{
    match part {
        Some(value) => Ok(value),
        None => Err(ServiceError::Validation),
    }
}

/// `GET /todos`: answers 200 with every row, in ascending order of id.
pub fn todos_index(store: &TodoStore) -> (reply: Reply)
    ensures
        reply@ == ReplyModel::listed(store@.rows),
{
    Reply::listed(Query::find_all_todos(store))
}

/// `POST /todos`: creates a row with the text of the request, not completed,
/// and answers 201 with the row.
///
/// Answers 400 if the body could not be parsed, and 500 if the table cannot
/// take another row. Both change nothing.
pub fn todos_create(store: &mut TodoStore, input: Option<CreateTodo>) -> (reply: Reply)
    ensures
        final(store)@.wf(),
        (match input {
            Some(body) => {
                &&& final(store)@ == old(store)@.apply(Change::Create { text: body.text@ })
                &&& reply@ == (if old(store)@.exhausted() {
                    ReplyModel::failure(ServiceError::Storage)
                } else {
                    ReplyModel::created(old(store)@.fresh_row(body.text@))
                })
            },
            None => {
                &&& final(store)@ == old(store)@
                &&& reply@ == ReplyModel::failure(ServiceError::Validation)
            },
        }),
{
    proof {
        store.lemma_valid();
    }
    let body = match required(input) {
        Ok(body) => body,
        Err(error) => {
            return Reply::failure(error);
        },
    };
    match Mutation::create_todo(store, body.text) {
        Ok(row) => Reply::created(row),
        Err(error) => Reply::failure(error),
    }
}

/// `PUT /todos/:id`: writes the fields that the request holds over those of
/// the row with this id and answers 200 with the row as it now is.
///
/// Answers 400 if the id or the body could not be parsed, and 404 if there is
/// no row with this id. Both change nothing.
pub fn todos_update(store: &mut TodoStore, id: Option<i32>, input: Option<UpdateTodo>) -> (reply:
    Reply)
    ensures
        final(store)@.wf(),
        (match (id, input) {
            (Some(id), Some(body)) => {
                &&& final(store)@ == old(store)@.updated(id as int, body@)
                &&& reply@ == (if old(store)@.contains(id as int) {
                    ReplyModel::updated(old(store)@.row(id as int).patched(body@))
                } else {
                    ReplyModel::failure(ServiceError::NotFound)
                })
            },
            _ => {
                &&& final(store)@ == old(store)@
                &&& reply@ == ReplyModel::failure(ServiceError::Validation)
            },
        }),
{
    proof {
        store.lemma_valid();
    }
    let id = match required(id) {
        Ok(id) => id,
        Err(error) => {
            return Reply::failure(error);
        },
    };
    let body = match required(input) {
        Ok(body) => body,
        Err(error) => {
            return Reply::failure(error);
        },
    };
    match Mutation::update_todo_by_id(store, id, body) {
        Ok(row) => Reply::updated(row),
        Err(error) => Reply::failure(error),
    }
}

/// `DELETE /todos/:id`: removes the row with this id and answers 204.
///
/// Answers 400 if the id could not be parsed, and 404 if there is no row with
/// this id. Both change nothing.
pub fn todos_delete(store: &mut TodoStore, id: Option<i32>) -> (reply: Reply)
    ensures
        final(store)@.wf(),
        (match id {
            Some(id) => {
                &&& final(store)@ == old(store)@.deleted(id as int)
                &&& reply@ == (if old(store)@.contains(id as int) {
                    ReplyModel::deleted()
                } else {
                    ReplyModel::failure(ServiceError::NotFound)
                })
            },
            None => {
                &&& final(store)@ == old(store)@
                &&& reply@ == ReplyModel::failure(ServiceError::Validation)
            },
        }),
{
    proof {
        store.lemma_valid();
    }
    let id = match required(id) {
        Ok(id) => id,
        Err(error) => {
            return Reply::failure(error);
        },
    };
    match Mutation::delete_todo(store, id) {
        Ok(_) => Reply::deleted(),
        Err(error) => Reply::failure(error),
    }
}

} // verus!
