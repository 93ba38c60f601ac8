//! The todo service over a whole collection: each operation changes the
//! collection and answers with the list view.

use vstd::prelude::*;

use crate::error::TodoError;
use crate::item::items_view;
use crate::page::{Page, list_title};
use crate::store::{TodoList, added, has_index, seed_items, toggled};

verus! {

/// The list view of the collection.
pub fn todo(store: &TodoList) -> (r: Page)
    ensures
        r.title@ == list_title(),
        items_view(r.list@) == store@,
        !r.redirect_to_index,
        !r.not_found,
{
    Page::list_view(store.list())
}

/// The list view of the collection, sent as a redirect to `/`.
pub fn redirect(store: &TodoList) -> (r: Page)
    ensures
        r.title@ == list_title(),
        items_view(r.list@) == store@,
        r.redirect_to_index,
        !r.not_found,
{
    todo(store).redirected()
}

/// Adds an item and redirects to the list view. Fails with `Overflow`,
/// changing nothing, once the identifiers are used up.
pub fn add_todo(store: &mut TodoList, title: String, done: bool) -> (r: Result<Page, TodoError>)
    requires
        old(store).wf(),
    ensures
        final(store).wf(),
        old(store).next_index() < i32::MAX ==> r is Ok
            && final(store)@ == added(old(store)@, old(store).next_index(), title@, done)
            && items_view(r->Ok_0.list@) == final(store)@ && r->Ok_0.redirect_to_index,
        old(store).next_index() == i32::MAX ==> r == Err::<Page, TodoError>(TodoError::Overflow)
            && final(store)@ == old(store)@,
{
    match store.add(title, done) {
        Ok(_) => Ok(redirect(store)),
        Err(e) => Err(e),
    }
}

/// Flips the flag of the item `index` and redirects to the list view.
/// Fails with `NotFound`, changing nothing, when no item has that identifier.
pub fn toggle(store: &mut TodoList, index: i32) -> (r: Result<Page, TodoError>)
    requires
        old(store).wf(),
    ensures
        final(store).wf(),
        has_index(old(store)@, index as int) ==> r is Ok
            && final(store)@ == toggled(old(store)@, index as int)
            && items_view(r->Ok_0.list@) == final(store)@ && r->Ok_0.redirect_to_index,
        !has_index(old(store)@, index as int) ==> r == Err::<Page, TodoError>(TodoError::NotFound)
            && final(store)@ == old(store)@,
{
    match store.toggle(index) {
        Ok(()) => Ok(redirect(store)),
        Err(e) => Err(e),
    }
}

/// Removes the item `index` and redirects to the list view. Fails with
/// `NotFound`, changing nothing, when no item has that identifier.
pub fn delete(store: &mut TodoList, index: i32) -> (r: Result<Page, TodoError>)
    requires
        old(store).wf(),
    ensures
        final(store).wf(),
        has_index(old(store)@, index as int) ==> r is Ok
            && (exists|k: int| 0 <= k < old(store)@.len() && #[trigger] old(store)@[k].index == index as int
                && final(store)@ == old(store)@.remove(k))
            && items_view(r->Ok_0.list@) == final(store)@ && r->Ok_0.redirect_to_index,
        !has_index(old(store)@, index as int) ==> r == Err::<Page, TodoError>(TodoError::NotFound)
            && final(store)@ == old(store)@,
{
    match store.delete(index) {
        Ok(()) => Ok(redirect(store)),
        Err(e) => Err(e),
    }
}

/// Resets the collection to the seed set and redirects to the list view.
pub fn clear(store: &mut TodoList) -> (r: Page)
    ensures
        final(store).wf(),
        final(store)@ == seed_items(),
        items_view(r.list@) == seed_items(),
        r.redirect_to_index,
{
    store.clear();
    redirect(store)
}

} // verus!
