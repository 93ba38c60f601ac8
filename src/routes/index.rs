//! Pages of the relational variant, built from the items its rows hold.

use vstd::prelude::*;

use crate::item::Item;
use crate::page::{Page, list_title};

verus! {

/// The list view of the items.
pub fn todo(items: Vec<Item>) -> (r: Page)
    ensures
        r.title@ == list_title(),
        r.list@ == items@,
        !r.redirect_to_index,
        !r.not_found,
{
    Page::list_view(items)
}

/// The list view of the items, sent as a redirect to `/`.
pub fn redirect(items: Vec<Item>) -> (r: Page)
    ensures
        r.title@ == list_title(),
        r.list@ == items@,
        r.redirect_to_index,
        !r.not_found,
{
    todo(items).redirected()
}

} // verus!
