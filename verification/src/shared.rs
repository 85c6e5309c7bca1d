//! A store behind one exclusive lock, for callers on several threads.
//!
//! Every handler takes the lock, runs one operation on the store and lets
//! the lock go when it returns, so the handlers never interleave: each
//! sees the store as the handlers before it left it. What another thread
//! did in between is not known to a caller, so the contracts here state
//! what holds of the answer on every store; the handlers in
//! [`crate::handlers`] state the answer on a given one.

use vstd::prelude::*;
use std::sync::{LockResult, Mutex, MutexGuard, PoisonError};
use crate::handlers::{create_todo, delete_todo, get_todo, get_todos, update_todo};
use crate::ident::is_random_uuid_text;
use crate::model::lemma_position_is_first_match;
use crate::response::{
    not_found_reply, BodyView, Response, STATUS_CREATED, STATUS_NOT_FOUND, STATUS_NO_CONTENT,
    STATUS_OK,
};
use crate::store::TodoStore;
use crate::todo::{CreateTodoRequest, UpdateTodoRequest};

verus! {

/// `std::sync::Mutex`, carried as an opaque value.
#[verifier::external_type_specification]
#[verifier::external_body]
#[verifier::reject_recursive_types(T)]
pub struct ExMutex<T: ?Sized>(Mutex<T>);

/// `std::sync::MutexGuard`, carried as an opaque value.
#[verifier::external_type_specification]
#[verifier::external_body]
#[verifier::reject_recursive_types(T)]
pub struct ExMutexGuard<'a, T: ?Sized + 'a>(MutexGuard<'a, T>);

/// `std::sync::PoisonError`, carried as an opaque value.
#[verifier::external_type_specification]
#[verifier::external_body]
#[verifier::reject_recursive_types(T)]
pub struct ExPoisonError<T>(PoisonError<T>);

/// `Mutex::new` wraps a value in an unlocked mutex. Nothing is claimed of
/// the result.
pub assume_specification<T>[ Mutex::<T>::new ](t: T) -> (mutex: Mutex<T>)
;

/// `Mutex::lock` blocks until the calling thread holds the mutex. Nothing
/// is claimed of the result: it is a guard, or a poison error that holds
/// one when an earlier holder panicked. The call is documented to
/// possibly panic or never return when the calling thread already holds
/// the mutex; this module takes the lock once per handler and lets no
/// guard outlive the handler.
pub assume_specification<T: ?Sized>[ Mutex::<T>::lock ](mutex: &Mutex<T>) -> (result: LockResult<
    MutexGuard<'_, T>,
>)
;

/// `PoisonError::into_inner` hands out the guard that a poison error
/// holds. Nothing is claimed of the result.
pub assume_specification<T>[ PoisonError::<T>::into_inner ](error: PoisonError<T>) -> (inner: T)
;

/// `Deref::deref` of a guard borrows the locked value. Nothing is claimed
/// of the result.
pub assume_specification<'a, 'b, T: ?Sized>[ <MutexGuard<'a, T> as core::ops::Deref>::deref ](
    guard: &'b MutexGuard<'a, T>,
) -> (value: &'b T)
;

/// `DerefMut::deref_mut` of a guard borrows the locked value for writing.
/// Nothing is claimed of the result.
pub assume_specification<'a, 'b, T: ?Sized>[ <MutexGuard<'a, T> as core::ops::DerefMut>::deref_mut ](
    guard: &'b mut MutexGuard<'a, T>,
) -> (value: &'b mut T)
;

/// The state that all request handlers share: one store behind one lock.
pub struct AppState {
    todos: Mutex<TodoStore>,
}

impl AppState {
    /// Shared state that starts out with the given store.
    pub fn new(store: TodoStore) -> (state: Self) {
        AppState { todos: Mutex::new(store) }
    }

    /// Takes the lock. A poisoned lock is taken all the same: no handler
    /// leaves the store half-changed, so the store behind it is intact.
    fn lock(&self) -> (guard: MutexGuard<'_, TodoStore>) {
        match self.todos.lock() {
            Ok(guard) => guard,
            Err(poisoned) => poisoned.into_inner(),
        }
    }

    /// Lists every todo under the lock: status 200 with a snapshot of the
    /// store.
    pub fn get_todos(&self) -> (response: Response)
        ensures
            response.status == STATUS_OK,
            response@.body is Todos,
    {
        let guard = self.lock();
        get_todos(&*guard)
    }

    /// Looks up one todo under the lock: status 200 with a todo that
    /// carries `todo_id`, or status 404 with a line naming the id.
    pub fn get_todo(&self, todo_id: &String) -> (response: Response)
        ensures
            response.status == STATUS_OK || response.status == STATUS_NOT_FOUND,
            response.status == STATUS_OK ==> (response@.body matches BodyView::Todo(todo)
                && todo.id == todo_id@),
            response.status == STATUS_NOT_FOUND ==> response@ == not_found_reply(todo_id@),
    {
        let guard = self.lock();
        let store: &TodoStore = &*guard;
        proof {
            lemma_position_is_first_match(store@, todo_id@);
        }
        get_todo(store, todo_id)
    }

    /// Creates a todo under the lock: status 201 with the new todo, which
    /// has a fresh random id and the requested title and is not completed.
    pub fn create_todo(&self, todo_req: CreateTodoRequest) -> (response: Response)
        ensures
            response.status == STATUS_CREATED,
            response@.body matches BodyView::Todo(todo) && {
                &&& is_random_uuid_text(todo.id)
                &&& todo.title == todo_req.title@
                &&& !todo.completed
            },
    {
        let mut guard = self.lock();
        create_todo(&mut *guard, todo_req)
    }

    /// Retitles one todo under the lock: status 200 with a todo that
    /// carries `todo_id` and the requested title, or status 404 with a
    /// line naming the id.
    pub fn update_todo(&self, todo_id: &String, todo_req: UpdateTodoRequest) -> (response:
        Response)
        ensures
            response.status == STATUS_OK || response.status == STATUS_NOT_FOUND,
            response.status == STATUS_OK ==> (response@.body matches BodyView::Todo(todo)
                && todo.id == todo_id@ && todo.title == todo_req.title@),
            response.status == STATUS_NOT_FOUND ==> response@ == not_found_reply(todo_id@),
    {
        let mut guard = self.lock();
        let store: &mut TodoStore = &mut *guard;
        proof {
            lemma_position_is_first_match(store@, todo_id@);
        }
        update_todo(store, todo_id, todo_req)
    }

    /// Deletes one todo under the lock: status 204 with no body, or
    /// status 404 with a line naming the id.
    pub fn delete_todo(&self, todo_id: &String) -> (response: Response)
        ensures
            response.status == STATUS_NO_CONTENT || response.status == STATUS_NOT_FOUND,
            response.status == STATUS_NO_CONTENT ==> response@.body is Empty,
            response.status == STATUS_NOT_FOUND ==> response@ == not_found_reply(todo_id@),
    {
        let mut guard = self.lock();
        delete_todo(&mut *guard, todo_id)
    }
}

} // verus!
