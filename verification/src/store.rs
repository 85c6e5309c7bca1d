//! The store itself: a vector of todos in insertion order, with each
//! operation proved against the sequence model.

use vstd::prelude::*;
use crate::error::{StoreError, StoreErrorView};
use crate::ident::{is_random_uuid_text, random_uuid_text};
use crate::model::{
    after_create, after_delete, after_update, created, delete_outcome, found, is_first_match,
    lemma_first_match_is_position, lemma_no_match_is_none, position, update_outcome,
};
use crate::todo::{views, Todo, TodoView};

verus! {

/// An in-memory collection of todos, kept in the order they were added.
///
/// Operations that change the store take `&mut self`, so each one runs to
/// completion before the next can start; a caller that shares a store
/// between threads keeps it behind one exclusive lock.
pub struct TodoStore {
    todos: Vec<Todo>,
}

impl View for TodoStore {
    type V = Seq<TodoView>;

    closed spec fn view(&self) -> Seq<TodoView> {
        views(self.todos@)
    }
}

impl TodoStore {
    /// A store with nothing in it.
    pub fn new() -> (store: Self)
        ensures
            store@ == Seq::<TodoView>::empty(),
    {
        TodoStore { todos: Vec::new() }
    }

    /// A store that holds the given todos, in the given order.
    pub fn from_todos(todos: Vec<Todo>) -> (store: Self)
        ensures
            store@ == views(todos@),
    {
        TodoStore { todos }
    }

    /// The position of the first todo that carries `id`.
    fn find(&self, id: &String) -> (at: Option<usize>)
        ensures
            at matches Some(i) ==> is_first_match(self@, id@, i as int) && position(self@, id@)
                == Some(i as int),
            at is None ==> position(self@, id@) is None,
    {
        let mut i: usize = 0;
        while i < self.todos.len()
            invariant
                i <= self.todos.len(),
                forall|j: int| 0 <= j < i ==> (#[trigger] self@[j]).id != id@,
            decreases self.todos.len() - i,
        {
            if self.todos[i].id == *id {
                proof {
                    lemma_first_match_is_position(self@, id@, i as int);
                }
                return Some(i);
            }
            i += 1;
        }
        proof {
            lemma_no_match_is_none(self@, id@);
        }
        None
    }

    /// A snapshot of every todo, in storage order. The store is unchanged.
    pub fn list(&self) -> (todos: Vec<Todo>)
        ensures
            views(todos@) == self@,
    {
        let todos = self.todos.clone();
        assert(views(todos@) =~= self@);
        todos
    }

    /// The first todo that carries `id`, or `NotFound` with that id when
    /// none does. The store is unchanged.
    pub fn get(&self, id: &String) -> (result: Result<Todo, StoreError>)
        ensures
            match result {
                Ok(todo) => found(self@, id@) == Ok::<TodoView, StoreErrorView>(todo@),
                Err(e) => found(self@, id@) == Err::<TodoView, StoreErrorView>(e@),
            },
    {
        match self.find(id) {
            Some(i) => Ok(self.todos[i].clone()),
            None => Err(StoreError::NotFound(id.clone())),
        }
    }

    /// Appends a todo with the given id and title, not completed, and
    /// returns a copy of it. Every earlier todo stays as it was.
    ///
    /// The id is taken as given: it is the caller who keeps ids unique.
    pub fn create_with_id(&mut self, id: String, title: String) -> (todo: Todo)
        ensures
            todo@ == created(id@, title@),
            final(self)@ == after_create(old(self)@, id@, title@),
    {
        let todo = Todo { id, title, completed: false };
        let copy = todo.clone();
        self.todos.push(todo);
        assert(self@ =~= after_create(old(self)@, id@, title@));
        copy
    }

    /// Appends a todo with a freshly drawn random id and the given title,
    /// not completed, and returns a copy of it. Every earlier todo stays as
    /// it was.
    ///
    /// The id is a random UUID; the store does not compare it with the ids
    /// it already holds.
    pub fn create(&mut self, title: String) -> (todo: Todo)
        ensures
            is_random_uuid_text(todo.id@),
            todo@ == created(todo.id@, title@),
            final(self)@ == after_create(old(self)@, todo.id@, title@),
    {
        let id = random_uuid_text();
        self.create_with_id(id, title)
    }

    /// Replaces the title of the first todo that carries `id` and returns
    /// a copy of the updated todo; its id and its completed flag stay, and
    /// so does every other todo. Without a match the store is unchanged
    /// and the result is `NotFound` with that id.
    pub fn update(&mut self, id: &String, title: String) -> (result: Result<Todo, StoreError>)
        ensures
            final(self)@ == after_update(old(self)@, id@, title@),
            match result {
                Ok(todo) => update_outcome(old(self)@, id@, title@) == Ok::<
                    TodoView,
                    StoreErrorView,
                >(todo@),
                Err(e) => update_outcome(old(self)@, id@, title@) == Err::<
                    TodoView,
                    StoreErrorView,
                >(e@),
            },
    {
        match self.find(id) {
            Some(i) => {
                let updated = Todo {
                    id: self.todos[i].id.clone(),
                    title,
                    completed: self.todos[i].completed,
                };
                let copy = updated.clone();
                self.todos.set(i, updated);
                assert(self@ =~= after_update(old(self)@, id@, title@));
                Ok(copy)
            },
            None => Err(StoreError::NotFound(id.clone())),
        }
    }

    /// Removes the first todo that carries `id`; the others keep their
    /// order. Without a match the store is unchanged and the result is
    /// `NotFound` with that id.
    pub fn delete(&mut self, id: &String) -> (result: Result<(), StoreError>)
        ensures
            final(self)@ == after_delete(old(self)@, id@),
            match result {
                Ok(_) => delete_outcome(old(self)@, id@) == Ok::<(), StoreErrorView>(()),
                Err(e) => delete_outcome(old(self)@, id@) == Err::<(), StoreErrorView>(e@),
            },
    {
        match self.find(id) {
            Some(i) => {
                self.todos.remove(i);
                assert(self@ =~= after_delete(old(self)@, id@));
                Ok(())
            },
            None => Err(StoreError::NotFound(id.clone())),
        }
    }
}

} // verus!
