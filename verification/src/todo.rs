//! The todo record and the request payloads that create and retitle one.

use vstd::prelude::*;

verus! {

/// A single todo item.
///
/// The `id` is assigned when the item enters a store and never changes
/// afterwards; `title` is free-form text; `completed` starts out `false`.
#[derive(Debug)]
pub struct Todo {
    pub id: String,
    pub title: String,
    pub completed: bool,
}

/// The mathematical value of a [`Todo`]: its strings as character sequences.
pub struct TodoView {
    pub id: Seq<char>,
    pub title: Seq<char>,
    pub completed: bool,
}

impl View for Todo {
    type V = TodoView;

    open spec fn view(&self) -> TodoView {
        TodoView { id: self.id@, title: self.title@, completed: self.completed }
    }
}

impl Clone for Todo {
    fn clone(&self) -> (copy: Self)
        ensures
            copy@ == self@,
    {
        Todo { id: self.id.clone(), title: self.title.clone(), completed: self.completed }
    }
}

impl PartialEq for Todo {
    fn eq(&self, other: &Self) -> (same: bool) {
        self.id == other.id && self.title == other.title && self.completed == other.completed
    }
}

impl Eq for Todo {

}

impl vstd::std_specs::cmp::PartialEqSpecImpl for Todo {
    open spec fn obeys_eq_spec() -> bool {
        true
    }

    open spec fn eq_spec(&self, other: &Self) -> bool {
        self@ == other@
    }
}

/// The views of a sequence of todos, element by element.
pub open spec fn views(todos: Seq<Todo>) -> Seq<TodoView> {
    todos.map_values(|t: Todo| t@)
}

/// The body of a request that creates a todo.
#[derive(Debug)]
pub struct CreateTodoRequest {
    pub title: String,
}

/// The body of a request that replaces a todo's title.
#[derive(Debug)]
pub struct UpdateTodoRequest {
    pub title: String,
}

} // verus!
