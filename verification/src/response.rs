//! What the service answers: a status code and a body, built from the
//! outcome of a store operation.

use vstd::prelude::*;
use crate::error::{not_found_message, not_found_text, StoreErrorView};
use crate::todo::{views, Todo, TodoView};

verus! {

/// The request succeeded and the body carries what was asked for.
pub const STATUS_OK: u16 = 200;

/// A todo was created; the body carries it.
pub const STATUS_CREATED: u16 = 201;

/// The request succeeded and there is nothing to send back.
pub const STATUS_NO_CONTENT: u16 = 204;

/// No todo carries the requested id; the body says so.
pub const STATUS_NOT_FOUND: u16 = 404;

/// The payload of a response.
#[derive(Debug, PartialEq)]
pub enum Body {
    /// Nothing.
    Empty,
    /// A line of plain text.
    Text(String),
    /// One todo.
    Todo(Todo),
    /// A list of todos.
    Todos(Vec<Todo>),
}

/// The mathematical value of a [`Body`].
pub enum BodyView {
    Empty,
    Text(Seq<char>),
    Todo(TodoView),
    Todos(Seq<TodoView>),
}

impl View for Body {
    type V = BodyView;

    open spec fn view(&self) -> BodyView {
        match self {
            Body::Empty => BodyView::Empty,
            Body::Text(text) => BodyView::Text(text@),
            Body::Todo(todo) => BodyView::Todo(todo@),
            Body::Todos(todos) => BodyView::Todos(views(todos@)),
        }
    }
}

/// An answer to one request.
#[derive(Debug, PartialEq)]
pub struct Response {
    pub status: u16,
    pub body: Body,
}

/// The mathematical value of a [`Response`].
pub struct ResponseView {
    pub status: u16,
    pub body: BodyView,
}

impl View for Response {
    type V = ResponseView;

    open spec fn view(&self) -> ResponseView {
        ResponseView { status: self.status, body: self.body@ }
    }
}

/// The answer that reports that no todo carries `id`.
pub open spec fn not_found_reply(id: Seq<char>) -> ResponseView {
    ResponseView { status: STATUS_NOT_FOUND, body: BodyView::Text(not_found_text(id)) }
}

/// The answer to a listing that yielded `todos`.
pub open spec fn list_reply(todos: Seq<TodoView>) -> ResponseView {
    ResponseView { status: STATUS_OK, body: BodyView::Todos(todos) }
}

/// The answer to a creation that yielded `todo`.
pub open spec fn create_reply(todo: TodoView) -> ResponseView {
    ResponseView { status: STATUS_CREATED, body: BodyView::Todo(todo) }
}

/// The answer to a lookup or an update with the given outcome.
pub open spec fn todo_reply(outcome: Result<TodoView, StoreErrorView>) -> ResponseView {
    match outcome {
        Ok(todo) => ResponseView { status: STATUS_OK, body: BodyView::Todo(todo) },
        Err(StoreErrorView::NotFound(id)) => not_found_reply(id),
    }
}

/// The answer to a deletion with the given outcome.
pub open spec fn delete_reply(outcome: Result<(), StoreErrorView>) -> ResponseView {
    match outcome {
        Ok(_) => ResponseView { status: STATUS_NO_CONTENT, body: BodyView::Empty },
        Err(StoreErrorView::NotFound(id)) => not_found_reply(id),
    }
}

impl Response {
    /// Answers a request for an id that no todo carries: status 404 and a
    /// line of text that names the id.
    pub fn not_found(id: &String) -> (response: Self)
        ensures
            response@ == not_found_reply(id@),
    {
        Response { status: STATUS_NOT_FOUND, body: Body::Text(not_found_message(id)) }
    }
}

} // verus!
