use vstd::prelude::*;

verus! {

/// One todo entry: its identifier, its title and whether it is done.
#[derive(Debug, PartialEq, Eq)]
pub struct Item {
    pub index: i32,
    pub title: String,
    pub done: bool,
}

/// The mathematical value of an [`Item`].
pub struct ItemView {
    pub index: int,
    pub title: Seq<char>,
    pub done: bool,
}

impl View for Item {
    type V = ItemView;

    open spec fn view(&self) -> ItemView {
        ItemView { index: self.index as int, title: self.title@, done: self.done }
    }
}

/// The value of each item of a sequence.
pub open spec fn items_view(s: Seq<Item>) -> Seq<ItemView> {
    s.map_values(|it: Item| it@)
}

/// The same item with its `done` flag flipped.
pub open spec fn flipped(v: ItemView) -> ItemView {
    ItemView { done: !v.done, ..v }
}

impl Item {
    /// A copy of this item.
    pub fn duplicate(&self) -> (r: Item)
        ensures
            r@ == self@,
    {
        Item { index: self.index, title: self.title.clone(), done: self.done }
    }
}

/// A copy of each item, in order.
pub fn duplicate_all(items: &Vec<Item>) -> (r: Vec<Item>)
    ensures
        items_view(r@) == items_view(items@),
{
    let mut r: Vec<Item> = Vec::new();
    let mut i: usize = 0;
    while i < items.len()
        invariant
            i <= items@.len(),
            r@.len() == i,
            forall|j: int| 0 <= j < i ==> #[trigger] r@[j]@ == items@[j]@,
        decreases items@.len() - i,
    {
        let it = items[i].duplicate();
        r.push(it);
        i = i + 1;
    }
    assert(items_view(r@) =~= items_view(items@));
    r
}

} // verus!
