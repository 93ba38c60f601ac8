use vstd::prelude::*;

use crate::error::TodoError;
use crate::item::{Item, ItemView, items_view, flipped, duplicate_all};

verus! {

/// Identifiers are non-negative, below `next`, and strictly increasing
/// along the sequence (so no two items share one).
pub open spec fn indices_below(s: Seq<ItemView>, next: int) -> bool {
    &&& forall|i: int| 0 <= i < s.len() ==> 0 <= #[trigger] s[i].index < next
    &&& forall|i: int, j: int| 0 <= i < j < s.len() ==> #[trigger] s[i].index < #[trigger] s[j].index
}

/// No two items of the sequence share an identifier.
pub open spec fn distinct_indices(s: Seq<ItemView>) -> bool {
    forall|i: int, j: int|
        0 <= i < s.len() && 0 <= j < s.len() && i != j ==> #[trigger] s[i].index != #[trigger] s[j].index
}

/// Some item of the sequence has identifier `id`.
pub open spec fn has_index(s: Seq<ItemView>, id: int) -> bool {
    exists|k: int| 0 <= k < s.len() && #[trigger] s[k].index == id
}

/// The sequence after appending a new item.
pub open spec fn added(s: Seq<ItemView>, id: int, title: Seq<char>, done: bool) -> Seq<ItemView> {
    s.push(ItemView { index: id, title, done })
}

/// The sequence with the `done` flag of the items with identifier `id` flipped.
pub open spec fn toggled(s: Seq<ItemView>, id: int) -> Seq<ItemView> {
    s.map_values(|v: ItemView| if v.index == id { flipped(v) } else { v })
}

/// The seed set that `clear` installs.
pub open spec fn seed_items() -> Seq<ItemView> {
    seq![
        ItemView { index: 0, title: "hello one"@, done: false },
        ItemView { index: 1, title: "hello two"@, done: false },
        ItemView { index: 2, title: "hello three"@, done: false },
    ]
}

/// Title and flag of each entry of a persisted list.
pub open spec fn entries_view(e: Seq<(String, bool)>) -> Seq<(Seq<char>, bool)> {
    e.map_values(|p: (String, bool)| (p.0@, p.1))
}

/// Items numbered by their position in a persisted list.
pub open spec fn positional(e: Seq<(Seq<char>, bool)>) -> Seq<ItemView> {
    Seq::new(e.len(), |i: int| ItemView { index: i, title: e[i].0, done: e[i].1 })
}

/// Title and flag of each item, in order.
pub open spec fn titles_and_flags(s: Seq<ItemView>) -> Seq<(Seq<char>, bool)> {
    s.map_values(|v: ItemView| (v.title, v.done))
}

/// The whole collection of todo items, in insertion order, with the
/// identifier the next added item will get.
pub struct TodoList {
    items: Vec<Item>,
    next_id: i32,
}

impl View for TodoList {
    type V = Seq<ItemView>;

    closed spec fn view(&self) -> Seq<ItemView> {
        items_view(self.items@)
    }
}

impl TodoList {
    /// The identifier that the next added item gets.
    pub closed spec fn next_index(&self) -> int {
        self.next_id as int
    }

    pub open spec fn wf(&self) -> bool {
        &&& 0 <= self.next_index() <= i32::MAX
        &&& indices_below(self@, self.next_index())
    }

    /// An empty list.
    pub fn new() -> (r: TodoList)
        ensures
            r.wf(),
            r@ == Seq::<ItemView>::empty(),
            r.next_index() == 0,
    {
        let r = TodoList { items: Vec::new(), next_id: 0 };
        assert(r@ =~= Seq::<ItemView>::empty());
        r
    }

    /// The position of the item with identifier `id`, if any.
    fn position(&self, id: i32) -> (r: Option<usize>)
        requires
            self.wf(),
        ensures
            match r {
                Some(k) => k < self@.len() && self@[k as int].index == id as int,
                None => !has_index(self@, id as int),
            },
    {
        let mut k: usize = 0;
        while k < self.items.len()
            invariant
                k <= self@.len(),
                self@.len() == self.items@.len(),
                forall|j: int| 0 <= j < k ==> #[trigger] self@[j].index != id as int,
            decreases self.items@.len() - k,
        {
            if self.items[k].index == id {
                return Some(k);
            }
            k = k + 1;
        }
        None
    }

    /// A copy of every item, in store order.
    pub fn list(&self) -> (r: Vec<Item>)
        ensures
            items_view(r@) == self@,
    {
        duplicate_all(&self.items)
    }

    /// Appends an item with a fresh identifier, which it returns. Fails
    /// with `Overflow`, changing nothing, once the identifiers are used up.
    pub fn add(&mut self, title: String, done: bool) -> (r: Result<i32, TodoError>)
        requires
            old(self).wf(),
        ensures
            final(self).wf(),
            old(self).next_index() < i32::MAX ==> {
                &&& r == Ok::<i32, TodoError>(old(self).next_index() as i32)
                &&& final(self)@ == added(old(self)@, old(self).next_index(), title@, done)
                &&& final(self).next_index() == old(self).next_index() + 1
            },
            old(self).next_index() == i32::MAX ==> {
                &&& r == Err::<i32, TodoError>(TodoError::Overflow)
                &&& final(self)@ == old(self)@
                &&& final(self).next_index() == old(self).next_index()
            },
    {
        if self.next_id == i32::MAX {
            return Err(TodoError::Overflow);
        }
        let id = self.next_id;
        self.items.push(Item { index: id, title, done });
        self.next_id = id + 1;
        assert(self@ =~= added(old(self)@, id as int, title@, done));
        Ok(id)
    }

    /// Flips the `done` flag of the item with identifier `id`. Fails with
    /// `NotFound`, changing nothing, when no item has that identifier.
    pub fn toggle(&mut self, id: i32) -> (r: Result<(), TodoError>)
        requires
            old(self).wf(),
        ensures
            final(self).wf(),
            final(self).next_index() == old(self).next_index(),
            has_index(old(self)@, id as int) ==> r is Ok && final(self)@ == toggled(old(self)@, id as int),
            !has_index(old(self)@, id as int) ==> r == Err::<(), TodoError>(TodoError::NotFound)
                && final(self)@ == old(self)@,
    {
        match self.position(id) {
            None => Err(TodoError::NotFound),
            Some(k) => {
                let flag = self.items[k].done;
                self.items[k].done = !flag;
                assert(self@ =~= toggled(old(self)@, id as int)) by {
                    assert forall|j: int| 0 <= j < self@.len() && j != k implies
                        #[trigger] old(self)@[j].index != id as int by {
                        if j < k {
                            assert(old(self)@[j].index < old(self)@[k as int].index);
                        } else {
                            assert(old(self)@[k as int].index < old(self)@[j].index);
                        }
                    }
                }
                Ok(())
            },
        }
    }

    /// Removes the item with identifier `id`. Fails with `NotFound`,
    /// changing nothing, when no item has that identifier.
    pub fn delete(&mut self, id: i32) -> (r: Result<(), TodoError>)
        requires
            old(self).wf(),
        ensures
            final(self).wf(),
            final(self).next_index() == old(self).next_index(),
            has_index(old(self)@, id as int) ==> r is Ok && exists|k: int|
                0 <= k < old(self)@.len() && #[trigger] old(self)@[k].index == id as int
                    && final(self)@ == old(self)@.remove(k),
            !has_index(old(self)@, id as int) ==> r == Err::<(), TodoError>(TodoError::NotFound)
                && final(self)@ == old(self)@,
    {
        match self.position(id) {
            None => Err(TodoError::NotFound),
            Some(k) => {
                let _gone = self.items.remove(k);
                assert(self@ =~= old(self)@.remove(k as int));
                assert(old(self)@[k as int].index == id as int);
                Ok(())
            },
        }
    }

    /// Replaces the whole collection with the seed set.
    pub fn clear(&mut self)
        ensures
            final(self).wf(),
            final(self)@ == seed_items(),
            final(self).next_index() == 3,
    {
        let mut items: Vec<Item> = Vec::new();
        items.push(Item { index: 0, title: "hello one".to_owned(), done: false });
        items.push(Item { index: 1, title: "hello two".to_owned(), done: false });
        items.push(Item { index: 2, title: "hello three".to_owned(), done: false });
        self.items = items;
        self.next_id = 3;
        assert(self@ =~= seed_items());
    }

    /// Builds the collection from a persisted list, numbering the items
    /// by position from 0.
    pub fn from_entries(entries: &Vec<(String, bool)>) -> (r: TodoList)
        requires
            entries@.len() <= i32::MAX,
        ensures
            r.wf(),
            r@ == positional(entries_view(entries@)),
            r.next_index() == entries@.len(),
    {
        let mut items: Vec<Item> = Vec::new();
        let mut i: usize = 0;
        while i < entries.len()
            invariant
                i <= entries@.len() <= i32::MAX,
                items@.len() == i,
                forall|j: int| 0 <= j < i ==> (#[trigger] items@[j])@
                    == positional(entries_view(entries@))[j],
            decreases entries@.len() - i,
        {
            let title = entries[i].0.clone();
            items.push(Item { index: i as i32, title, done: entries[i].1 });
            i = i + 1;
        }
        let r = TodoList { items, next_id: i as i32 };
        assert(r@ =~= positional(entries_view(entries@)));
        r
    }

    /// Title and flag of every item, in store order: the persisted list.
    pub fn entries(&self) -> (r: Vec<(String, bool)>)
        ensures
            entries_view(r@) == titles_and_flags(self@),
    {
        let mut r: Vec<(String, bool)> = Vec::new();
        let mut i: usize = 0;
        while i < self.items.len()
            invariant
                i <= self.items@.len(),
                self@.len() == self.items@.len(),
                r@.len() == i,
                forall|j: int| 0 <= j < i ==> (#[trigger] r@[j]).0@ == self@[j].title
                    && r@[j].1 == self@[j].done,
            decreases self.items@.len() - i,
        {
            r.push((self.items[i].title.clone(), self.items[i].done));
            i = i + 1;
        }
        assert(entries_view(r@) =~= titles_and_flags(self@));
        r
    }
}

/// After `add`, the listed items hold one with the added title and flag.
pub proof fn lemma_add_then_list(s: Seq<ItemView>, id: int, title: Seq<char>, done: bool)
    ensures
        exists|k: int| 0 <= k < added(s, id, title, done).len()
            && (#[trigger] added(s, id, title, done)[k]).title == title
            && added(s, id, title, done)[k].done == done,
{
    let t = added(s, id, title, done);
    assert(t[s.len() as int].title == title);
}

/// Toggling an identifier that exactly one item holds flips that item's
/// flag, leaves every other item unchanged, and toggling it again gives
/// back the sequence it started from.
pub proof fn lemma_toggle_flips_one(s: Seq<ItemView>, k: int)
    requires
        distinct_indices(s),
        0 <= k < s.len(),
    ensures
        toggled(s, s[k].index).len() == s.len(),
        toggled(s, s[k].index)[k] == flipped(s[k]),
        forall|j: int| 0 <= j < s.len() && j != k ==> #[trigger] toggled(s, s[k].index)[j] == s[j],
        toggled(toggled(s, s[k].index), s[k].index) == s,
{
    let id = s[k].index;
    assert forall|j: int| 0 <= j < s.len() && j != k implies #[trigger] toggled(s, id)[j] == s[j] by {
        assert(s[j].index != id);
    }
    assert(toggled(toggled(s, id), id) =~= s);
}

/// The ordering kept by a well-formed list gives distinct identifiers.
pub proof fn lemma_ordered_distinct(s: Seq<ItemView>, next: int)
    requires
        indices_below(s, next),
    ensures
        distinct_indices(s),
{
    assert forall|i: int, j: int| 0 <= i < s.len() && 0 <= j < s.len() && i != j implies
        #[trigger] s[i].index != #[trigger] s[j].index by {
        if i < j {
            assert(s[i].index < s[j].index);
        } else {
            assert(s[j].index < s[i].index);
        }
    }
}

/// After a successful `delete` of `id`, one item fewer remains and none
/// of them holds `id`.
pub proof fn lemma_delete_excludes(s: Seq<ItemView>, k: int)
    requires
        distinct_indices(s),
        0 <= k < s.len(),
    ensures
        s.remove(k).len() == s.len() - 1,
        !has_index(s.remove(k), s[k].index),
{
    let t = s.remove(k);
    if has_index(t, s[k].index) {
        let m = choose|m: int| 0 <= m < t.len() && #[trigger] t[m].index == s[k].index;
        if m < k {
            assert(s[m].index == s[k].index);
        } else {
            assert(s[m + 1].index == s[k].index);
        }
    }
}

/// Loading a persisted list and writing it back gives the same list.
pub proof fn lemma_entries_round_trip(e: Seq<(Seq<char>, bool)>)
    ensures
        titles_and_flags(positional(e)) == e,
{
    assert(titles_and_flags(positional(e)) =~= e);
}

} // verus!
