//! The one way a store operation can fail.

use vstd::prelude::*;

verus! {

/// Why an operation on a store did not succeed.
#[derive(Debug)]
pub enum StoreError {
    /// No todo in the store carries the requested id, which is kept here.
    NotFound(String),
}

/// The mathematical value of a [`StoreError`].
pub enum StoreErrorView {
    NotFound(Seq<char>),
}

impl View for StoreError {
    type V = StoreErrorView;

    open spec fn view(&self) -> StoreErrorView {
        match self {
            StoreError::NotFound(id) => StoreErrorView::NotFound(id@),
        }
    }
}

impl Clone for StoreError {
    fn clone(&self) -> (copy: Self)
        ensures
            copy@ == self@,
    {
        match self {
            StoreError::NotFound(id) => StoreError::NotFound(id.clone()),
        }
    }
}

impl PartialEq for StoreError {
    fn eq(&self, other: &Self) -> (same: bool) {
        match self {
            StoreError::NotFound(a) => match other {
                StoreError::NotFound(b) => *a == *b,
            },
        }
    }
}

impl Eq for StoreError {

}

impl vstd::std_specs::cmp::PartialEqSpecImpl for StoreError {
    open spec fn obeys_eq_spec() -> bool {
        true
    }

    open spec fn eq_spec(&self, other: &Self) -> bool {
        self@ == other@
    }
}

/// The text that reports a missing todo: the id between a fixed opening
/// and a fixed ending.
pub open spec fn not_found_text(id: Seq<char>) -> Seq<char> {
    "Todo with id "@ + id + " not found"@
}

/// Builds the text that reports that no todo carries `id`.
pub fn not_found_message(id: &String) -> (text: String)
    ensures
        text@ == not_found_text(id@),
{
    String::from_str("Todo with id ").concat(id.as_str()).concat(" not found")
}

impl StoreError {
    /// The id that the failed operation asked for.
    pub open spec fn missing_id(&self) -> Seq<char> {
        match self {
            StoreError::NotFound(id) => id@,
        }
    }

    /// A human-readable line naming the id that was not found.
    pub fn message(&self) -> (text: String)
        ensures
            text@ == not_found_text(self.missing_id()),
    {
        match self {
            StoreError::NotFound(id) => not_found_message(id),
        }
    }
}

} // verus!
