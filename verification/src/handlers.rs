//! The five request handlers, each one store operation and the answer to
//! its outcome.

use vstd::prelude::*;
use crate::ident::is_random_uuid_text;
use crate::model::{
    after_create, after_delete, after_update, created, delete_outcome, found, update_outcome,
};
use crate::response::{
    create_reply, delete_reply, list_reply, todo_reply, Body, Response, STATUS_CREATED,
    STATUS_NO_CONTENT, STATUS_OK,
};
use crate::store::TodoStore;
use crate::todo::{CreateTodoRequest, UpdateTodoRequest};

verus! {

/// Lists every todo: status 200 with a snapshot of the store, in storage
/// order.
pub fn get_todos(store: &TodoStore) -> (response: Response)
    ensures
        response@ == list_reply(store@),
{
    Response { status: STATUS_OK, body: Body::Todos(store.list()) }
}

/// Looks up one todo: status 200 with the first todo that carries
/// `todo_id`, or status 404 with a line naming the id when none does.
pub fn get_todo(store: &TodoStore, todo_id: &String) -> (response: Response)
    ensures
        response@ == todo_reply(found(store@, todo_id@)),
{
    match store.get(todo_id) {
        Ok(todo) => Response { status: STATUS_OK, body: Body::Todo(todo) },
        Err(_) => Response::not_found(todo_id),
    }
}

/// Creates a todo with the requested title under a fresh random id and
/// appends it: status 201 with the new todo.
pub fn create_todo(store: &mut TodoStore, todo_req: CreateTodoRequest) -> (response: Response)
    ensures
        response.status == STATUS_CREATED,
        response@.body matches crate::response::BodyView::Todo(todo) && {
            &&& is_random_uuid_text(todo.id)
            &&& todo == created(todo.id, todo_req.title@)
            &&& final(store)@ == after_create(old(store)@, todo.id, todo_req.title@)
        },
{
    let todo = store.create(todo_req.title);
    Response { status: STATUS_CREATED, body: Body::Todo(todo) }
}

/// Replaces the title of the first todo that carries `todo_id`: status
/// 200 with the updated todo, or status 404 with a line naming the id,
/// and an unchanged store, when no todo carries it.
pub fn update_todo(store: &mut TodoStore, todo_id: &String, todo_req: UpdateTodoRequest) -> (response:
    Response)
    ensures
        final(store)@ == after_update(old(store)@, todo_id@, todo_req.title@),
        response@ == todo_reply(update_outcome(old(store)@, todo_id@, todo_req.title@)),
{
    match store.update(todo_id, todo_req.title) {
        Ok(todo) => Response { status: STATUS_OK, body: Body::Todo(todo) },
        Err(_) => Response::not_found(todo_id),
    }
}

/// Removes the first todo that carries `todo_id`: status 204 with no
/// body, or status 404 with a line naming the id, and an unchanged store,
/// when no todo carries it.
pub fn delete_todo(store: &mut TodoStore, todo_id: &String) -> (response: Response)
    ensures
        final(store)@ == after_delete(old(store)@, todo_id@),
        response@ == delete_reply(delete_outcome(old(store)@, todo_id@)),
{
    match store.delete(todo_id) {
        Ok(_) => Response { status: STATUS_NO_CONTENT, body: Body::Empty },
        Err(_) => Response::not_found(todo_id),
    }
}

} // verus!
