use vstd::prelude::*;

use crate::error::TodoError;
use crate::item::{Item, ItemView, items_view};

verus! {

/// The item that a row `(id, title, done)` of the todo table stands for:
/// any non-zero `done` column means done.
pub open spec fn row_item(row: (i32, String, i32)) -> ItemView {
    ItemView { index: row.0 as int, title: row.1@, done: row.2 != 0 }
}

/// The item of each row, in order.
pub open spec fn rows_items(rows: Seq<(i32, String, i32)>) -> Seq<ItemView> {
    rows.map_values(|row: (i32, String, i32)| row_item(row))
}

/// The `done` column value stored for a flag.
pub open spec fn done_value(done: bool) -> i32 {
    if done { 1 } else { 0 }
}

/// The `done` column value to store for a flag: 1 for done, 0 otherwise.
pub fn done_column(done: bool) -> (r: i32)
    ensures
        r == done_value(done),
{
    if done { 1 } else { 0 }
}

/// The items that the rows of the todo table stand for, in row order.
pub fn get_all_db(rows: Vec<(i32, String, i32)>) -> (r: Vec<Item>)
    ensures
        items_view(r@) == rows_items(rows@),
{
    let mut r: Vec<Item> = Vec::new();
    let mut i: usize = 0;
    while i < rows.len()
        invariant
            i <= rows@.len(),
            r@.len() == i,
            forall|j: int| 0 <= j < i ==> (#[trigger] r@[j])@ == row_item(rows@[j]),
        decreases rows@.len() - i,
    {
        let title = rows[i].1.clone();
        r.push(Item { index: rows[i].0, title, done: rows[i].2 != 0 });
        i = i + 1;
    }
    assert(items_view(r@) =~= rows_items(rows@));
    r
}

/// The row to write back when toggling, given the rows that the lookup by
/// identifier selected: the first of them with its `done` column flipped
/// between 0 and 1. Fails with `NotFound` when the lookup selected nothing.
pub fn toggle_db(rows: Vec<(i32, String, i32)>) -> (r: Result<(i32, String, i32), TodoError>)
    ensures
        rows@.len() == 0 ==> r == Err::<(i32, String, i32), TodoError>(TodoError::NotFound),
        rows@.len() > 0 ==> r is Ok && r->Ok_0.0 == rows@[0].0 && r->Ok_0.1@ == rows@[0].1@
            && r->Ok_0.2 == done_value(rows@[0].2 == 0),
{
    if rows.len() == 0 {
        return Err(TodoError::NotFound);
    }
    let id = rows[0].0;
    let title = rows[0].1.clone();
    let done = done_column(rows[0].2 == 0);
    Ok((id, title, done))
}

/// The outcome of a delete by identifier, given how many rows it removed:
/// `NotFound` when it removed none.
pub fn delete_db(removed: usize) -> (r: Result<(), TodoError>)
    ensures
        removed > 0 ==> r is Ok,
        removed == 0 ==> r == Err::<(), TodoError>(TodoError::NotFound),
{
    if removed == 0 {
        Err(TodoError::NotFound)
    } else {
        Ok(())
    }
}

} // verus!
