use vstd::prelude::*;

use crate::item::{Item, items_view};

verus! {

/// What a request renders: a title and the items to list, whether the
/// response redirects to the list view at `/`, and whether it is the
/// not-found page.
pub struct Page {
    pub title: String,
    pub list: Vec<Item>,
    pub redirect_to_index: bool,
    pub not_found: bool,
}

/// The title of the list view.
pub open spec fn list_title() -> Seq<char> {
    "ToDo List"@
}

impl Page {
    /// The list view of `items`.
    pub fn list_view(items: Vec<Item>) -> (r: Page)
        ensures
            r.title@ == list_title(),
            r.list@ == items@,
            !r.redirect_to_index,
            !r.not_found,
    {
        Page { title: "ToDo List".to_owned(), list: items, redirect_to_index: false, not_found: false }
    }

    /// The same page, sent as a redirect to the list view.
    pub fn redirected(self) -> (r: Page)
        ensures
            r.title == self.title,
            r.list == self.list,
            r.redirect_to_index,
            r.not_found == self.not_found,
    {
        Page { redirect_to_index: true, ..self }
    }
}

} // verus!
