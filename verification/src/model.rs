//! The sequence model of a store: what each operation does to the
//! collection, stated on `Seq<TodoView>` alone.
//!
//! A store is modelled by the sequence of its todos in insertion order.
//! Lookups resolve an id to the first todo that carries it.

use vstd::prelude::*;
use crate::error::StoreErrorView;
use crate::todo::TodoView;

verus! {

/// Some todo of `s` carries `id`.
pub open spec fn contains_id(s: Seq<TodoView>, id: Seq<char>) -> bool {
    exists|i: int| 0 <= i < s.len() && (#[trigger] s[i]).id == id
}

/// `i` is the first position of `s` whose todo carries `id`.
pub open spec fn is_first_match(s: Seq<TodoView>, id: Seq<char>, i: int) -> bool {
    &&& 0 <= i < s.len()
    &&& s[i].id == id
    &&& forall|j: int| 0 <= j < i ==> (#[trigger] s[j]).id != id
}

/// The first position of `s` whose todo carries `id`, if any does.
pub open spec fn position(s: Seq<TodoView>, id: Seq<char>) -> Option<int> {
    if contains_id(s, id) {
        Some(choose|i: int| is_first_match(s, id, i))
    } else {
        None
    }
}

/// No two todos of `s` carry the same id.
pub open spec fn unique_ids(s: Seq<TodoView>) -> bool {
    forall|i: int, j: int|
        0 <= i < j < s.len() ==> (#[trigger] s[i]).id != (#[trigger] s[j]).id
}

/// The todo that a creation with this id and title adds.
pub open spec fn created(id: Seq<char>, title: Seq<char>) -> TodoView {
    TodoView { id, title, completed: false }
}

/// `t` with its title replaced.
pub open spec fn retitled(t: TodoView, title: Seq<char>) -> TodoView {
    TodoView { id: t.id, title, completed: t.completed }
}

/// What a lookup of `id` yields.
pub open spec fn found(s: Seq<TodoView>, id: Seq<char>) -> Result<TodoView, StoreErrorView> {
    match position(s, id) {
        Some(i) => Ok(s[i]),
        None => Err(StoreErrorView::NotFound(id)),
    }
}

/// What an update of `id` yields: the first match with its new title.
pub open spec fn update_outcome(s: Seq<TodoView>, id: Seq<char>, title: Seq<char>) -> Result<
    TodoView,
    StoreErrorView,
> {
    match found(s, id) {
        Ok(todo) => Ok(retitled(todo, title)),
        Err(e) => Err(e),
    }
}

/// What a deletion of `id` yields.
pub open spec fn delete_outcome(s: Seq<TodoView>, id: Seq<char>) -> Result<(), StoreErrorView> {
    match found(s, id) {
        Ok(_) => Ok(()),
        Err(e) => Err(e),
    }
}

/// The collection after a creation: the new todo goes last.
pub open spec fn after_create(s: Seq<TodoView>, id: Seq<char>, title: Seq<char>) -> Seq<
    TodoView,
> {
    s.push(created(id, title))
}

/// The collection after an update of `id`: the first match is retitled in
/// place; without a match nothing changes.
pub open spec fn after_update(s: Seq<TodoView>, id: Seq<char>, title: Seq<char>) -> Seq<
    TodoView,
> {
    match position(s, id) {
        Some(i) => s.update(i, retitled(s[i], title)),
        None => s,
    }
}

/// The collection after a deletion of `id`: the first match leaves and the
/// rest keep their order; without a match nothing changes.
pub open spec fn after_delete(s: Seq<TodoView>, id: Seq<char>) -> Seq<TodoView> {
    match position(s, id) {
        Some(i) => s.remove(i),
        None => s,
    }
}

/// A change that a store can undergo.
pub enum Change {
    Create { id: Seq<char>, title: Seq<char> },
    Update { id: Seq<char>, title: Seq<char> },
    Delete { id: Seq<char> },
}

/// The collection after one change.
pub open spec fn after(s: Seq<TodoView>, change: Change) -> Seq<TodoView> {
    match change {
        Change::Create { id, title } => after_create(s, id, title),
        Change::Update { id, title } => after_update(s, id, title),
        Change::Delete { id } => after_delete(s, id),
    }
}

/// The collection after a run of changes, applied first to last.
pub open spec fn after_all(s: Seq<TodoView>, changes: Seq<Change>) -> Seq<TodoView>
    decreases changes.len(),
{
    if changes.len() == 0 {
        s
    } else {
        after(after_all(s, changes.drop_last()), changes.last())
    }
}

/// A first match is the position that lookups resolve to.
pub proof fn lemma_first_match_is_position(s: Seq<TodoView>, id: Seq<char>, i: int)
    requires
        is_first_match(s, id, i),
    ensures
        position(s, id) == Some(i),
{
    let k = choose|k: int| is_first_match(s, id, k);
    assert(is_first_match(s, id, k));
    if k < i {
        assert(s[k].id != id);
    }
    if i < k {
        assert(s[i].id != id);
    }
}

/// When no todo carries `id`, lookups resolve to nothing.
pub proof fn lemma_no_match_is_none(s: Seq<TodoView>, id: Seq<char>)
    requires
        forall|j: int| 0 <= j < s.len() ==> (#[trigger] s[j]).id != id,
    ensures
        !contains_id(s, id),
        position(s, id) is None,
{
}

/// Whenever some todo carries `id`, there is a first one, and `position`
/// names it.
pub proof fn lemma_position_is_first_match(s: Seq<TodoView>, id: Seq<char>)
    ensures
        contains_id(s, id) <==> position(s, id) is Some,
        position(s, id) matches Some(i) ==> is_first_match(s, id, i),
{
    if contains_id(s, id) {
        let w = choose|i: int| 0 <= i < s.len() && (#[trigger] s[i]).id == id;
        lemma_first_match_exists(s, id, w);
    }
}

/// Below any match there is a first match.
proof fn lemma_first_match_exists(s: Seq<TodoView>, id: Seq<char>, w: int)
    requires
        0 <= w < s.len(),
        s[w].id == id,
    ensures
        exists|i: int| is_first_match(s, id, i),
    decreases w,
{
    if exists|j: int| 0 <= j < w && (#[trigger] s[j]).id == id {
        let j = choose|j: int| 0 <= j < w && (#[trigger] s[j]).id == id;
        lemma_first_match_exists(s, id, j);
    } else {
        assert(is_first_match(s, id, w));
    }
}

} // verus!
