//! What holds of the store across calls, proved over the sequence model
//! that the operations' contracts are written in.

use vstd::prelude::*;
use crate::error::StoreErrorView;
use crate::model::{
    after, after_all, after_delete, after_update, contains_id, created, delete_outcome, found,
    is_first_match, lemma_first_match_is_position, lemma_position_is_first_match, position,
    retitled, unique_ids, update_outcome, Change,
};
use crate::todo::TodoView;

verus! {

/// The run of changes that creates one todo per `(id, title)` pair, in order.
pub open spec fn creations(news: Seq<(Seq<char>, Seq<char>)>) -> Seq<Change> {
    news.map_values(|n: (Seq<char>, Seq<char>)| Change::Create { id: n.0, title: n.1 })
}

/// The todos that those creations add, in order.
pub open spec fn created_all(news: Seq<(Seq<char>, Seq<char>)>) -> Seq<TodoView> {
    news.map_values(|n: (Seq<char>, Seq<char>)| created(n.0, n.1))
}

/// The ids of `news` differ pairwise.
pub open spec fn distinct_ids(news: Seq<(Seq<char>, Seq<char>)>) -> bool {
    forall|i: int, j: int|
        0 <= i < j < news.len() ==> (#[trigger] news[i]).0 != (#[trigger] news[j]).0
}

/// Creating todos one after another appends exactly those todos, one per
/// creation and in the order of the calls, each with the id and title it
/// was created with and none of them completed; what the store held
/// before stays in front.
pub proof fn law_creations_are_appended(s: Seq<TodoView>, news: Seq<(Seq<char>, Seq<char>)>)
    ensures
        after_all(s, creations(news)) == s + created_all(news),
        after_all(s, creations(news)).len() == s.len() + news.len(),
        forall|k: int|
            0 <= k < news.len() ==> !(#[trigger] created_all(news)[k]).completed && created_all(
                news,
            )[k].id == news[k].0 && created_all(news)[k].title == news[k].1,
    decreases news.len(),
{
    if news.len() > 0 {
        law_creations_are_appended(s, news.drop_last());
        assert(creations(news).drop_last() =~= creations(news.drop_last()));
    }
    assert(after_all(s, creations(news)) =~= s + created_all(news));
}

/// A store that was empty holds, after `n` creations and nothing else,
/// exactly `n` todos: the created ones, in the order of the calls.
pub proof fn law_listing_after_creations(news: Seq<(Seq<char>, Seq<char>)>)
    ensures
        after_all(Seq::empty(), creations(news)) == created_all(news),
        after_all(Seq::empty(), creations(news)).len() == news.len(),
{
    law_creations_are_appended(Seq::empty(), news);
    assert(Seq::<TodoView>::empty() + created_all(news) =~= created_all(news));
}

/// Creations whose ids differ from one another and from every id that the
/// store holds leave a store in which no two todos share an id, provided
/// none did before.
pub proof fn law_distinct_creations_have_distinct_ids(
    s: Seq<TodoView>,
    news: Seq<(Seq<char>, Seq<char>)>,
)
    requires
        unique_ids(s),
        distinct_ids(news),
        forall|k: int| 0 <= k < news.len() ==> !contains_id(s, (#[trigger] news[k]).0),
    ensures
        unique_ids(after_all(s, creations(news))),
{
    law_creations_are_appended(s, news);
    let t = s + created_all(news);
    assert forall|i: int, j: int| 0 <= i < j < t.len() implies (#[trigger] t[i]).id != (
    #[trigger] t[j]).id by {
        if j < s.len() {
            assert(t[i] == s[i] && t[j] == s[j]);
        } else if i < s.len() {
            assert(t[i] == s[i]);
            assert(t[j].id == news[j - s.len()].0);
            assert(!contains_id(s, news[j - s.len()].0));
        } else {
            assert(t[i].id == news[i - s.len()].0);
            assert(t[j].id == news[j - s.len()].0);
        }
    }
}

/// A change keeps ids unique, provided that a creation brings an id that
/// no todo of the store carries yet.
pub proof fn law_unique_ids_are_kept(s: Seq<TodoView>, change: Change)
    requires
        unique_ids(s),
        change matches Change::Create { id, .. } ==> !contains_id(s, id),
    ensures
        unique_ids(after(s, change)),
{
    lemma_position_is_first_match(s, change_id(change));
}

/// The id that a change names.
pub open spec fn change_id(change: Change) -> Seq<char> {
    match change {
        Change::Create { id, .. } => id,
        Change::Update { id, .. } => id,
        Change::Delete { id } => id,
    }
}

/// Only a creation can bring an id into a store.
pub proof fn law_ids_come_from_creations(s: Seq<TodoView>, change: Change, id: Seq<char>)
    requires
        !contains_id(s, id),
        change matches Change::Create { id: new_id, .. } ==> new_id != id,
    ensures
        !contains_id(after(s, change), id),
{
    lemma_position_is_first_match(s, change_id(change));
}

/// Looking up an id that no creation has brought fails with `NotFound`,
/// whatever else has happened to the store since it was empty.
pub proof fn law_never_created_is_not_found(changes: Seq<Change>, id: Seq<char>)
    requires
        forall|k: int|
            0 <= k < changes.len() ==> ((#[trigger] changes[k]) matches Change::Create {
                id: new_id,
                ..
            } ==> new_id != id),
    ensures
        found(after_all(Seq::empty(), changes), id) == Err::<TodoView, StoreErrorView>(
            StoreErrorView::NotFound(id),
        ),
{
    lemma_never_created_is_absent(changes, id);
}

proof fn lemma_never_created_is_absent(changes: Seq<Change>, id: Seq<char>)
    requires
        forall|k: int|
            0 <= k < changes.len() ==> ((#[trigger] changes[k]) matches Change::Create {
                id: new_id,
                ..
            } ==> new_id != id),
    ensures
        !contains_id(after_all(Seq::empty(), changes), id),
    decreases changes.len(),
{
    if changes.len() > 0 {
        let earlier = changes.drop_last();
        assert forall|k: int| 0 <= k < earlier.len() implies ((#[trigger] earlier[k]) matches Change::Create {
            id: new_id,
            ..
        } ==> new_id != id) by {
            assert(earlier[k] == changes[k]);
        }
        lemma_never_created_is_absent(earlier, id);
        law_ids_come_from_creations(after_all(Seq::empty(), earlier), changes.last(), id);
    }
}

/// In a store with unique ids, a deleted id is gone: looking it up fails
/// with `NotFound`, and so does deleting it a second time, which leaves
/// the store as the first deletion left it.
pub proof fn law_deleted_is_not_found(s: Seq<TodoView>, id: Seq<char>)
    requires
        unique_ids(s),
    ensures
        found(after_delete(s, id), id) == Err::<TodoView, StoreErrorView>(
            StoreErrorView::NotFound(id),
        ),
        delete_outcome(after_delete(s, id), id) == Err::<(), StoreErrorView>(
            StoreErrorView::NotFound(id),
        ),
        after_delete(after_delete(s, id), id) == after_delete(s, id),
{
    lemma_position_is_first_match(s, id);
}

/// An update of an id that the store holds changes the title of one todo
/// and nothing else: the length, every id and every completed flag stay,
/// and every other todo is untouched.
pub proof fn law_update_changes_only_title(s: Seq<TodoView>, id: Seq<char>, title: Seq<char>)
    requires
        contains_id(s, id),
    ensures
        after_update(s, id, title).len() == s.len(),
        forall|k: int|
            0 <= k < s.len() ==> (#[trigger] after_update(s, id, title)[k]).id == s[k].id,
        forall|k: int|
            0 <= k < s.len() ==> (#[trigger] after_update(s, id, title)[k]).completed
                == s[k].completed,
        forall|k: int|
            0 <= k < s.len() && position(s, id) != Some(k) ==> #[trigger] after_update(
                s,
                id,
                title,
            )[k] == s[k],
        position(s, id) matches Some(i) && after_update(s, id, title)[i] == retitled(s[i], title),
        update_outcome(s, id, title) is Ok,
        found(after_update(s, id, title), id) == update_outcome(s, id, title),
{
    lemma_position_is_first_match(s, id);
    let i = position(s, id)->Some_0;
    let t = after_update(s, id, title);
    assert(is_first_match(t, id, i));
    lemma_first_match_is_position(t, id, i);
}

/// An update of an id that the store does not hold fails with `NotFound`
/// and leaves the collection as it was.
pub proof fn law_update_of_missing_changes_nothing(
    s: Seq<TodoView>,
    id: Seq<char>,
    title: Seq<char>,
)
    requires
        !contains_id(s, id),
    ensures
        update_outcome(s, id, title) == Err::<TodoView, StoreErrorView>(
            StoreErrorView::NotFound(id),
        ),
        after_update(s, id, title) == s,
{
}

/// A deletion of an id that the store holds removes exactly one todo, the
/// first that carries the id: the collection is one shorter, and what was
/// before and behind that todo is still there, in order.
pub proof fn law_delete_removes_one(s: Seq<TodoView>, id: Seq<char>)
    requires
        contains_id(s, id),
    ensures
        delete_outcome(s, id) == Ok::<(), StoreErrorView>(()),
        after_delete(s, id).len() == s.len() - 1,
        position(s, id) matches Some(i) && is_first_match(s, id, i) && after_delete(s, id)
            == s.subrange(0, i) + s.subrange(i + 1, s.len() as int),
{
    lemma_position_is_first_match(s, id);
    let i = position(s, id)->Some_0;
    assert(s.remove(i) =~= s.subrange(0, i) + s.subrange(i + 1, s.len() as int));
}

} // verus!
