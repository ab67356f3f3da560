use vstd::prelude::*;
use crate::color::{Color, next_color, spec_red, spec_blue, spec_green, spec_yellow};
use crate::item::{Item, ItemView};

verus! {

/// The one way a command can fail: it names a position outside the list.
#[derive(Clone, Copy, Debug, PartialEq, Eq, Structural)]
pub enum StoreError {
    IndexOutOfBounds,
}

/// The list that starts every session: Red, Blue, Green and Yellow items.
pub open spec fn initial_items() -> Seq<ItemView> {
    seq![
        ItemView { name: "Red Item"@, color: spec_red() },
        ItemView { name: "Blue Item"@, color: spec_blue() },
        ItemView { name: "Green Item"@, color: spec_green() },
        ItemView { name: "Yellow Item"@, color: spec_yellow() },
    ]
}

/// `s` with the entries at `i` and `j` exchanged.
pub open spec fn swapped<T>(s: Seq<T>, i: int, j: int) -> Seq<T> {
    s.update(i, s[j]).update(j, s[i])
}

/// The name that renaming gives to an item called `name`.
pub open spec fn renamed(name: Seq<char>) -> Seq<char> {
    name + " (Modified)"@
}

/// The name of a copy of an item called `name`.
pub open spec fn copy_name(name: Seq<char>) -> Seq<char> {
    name + " Copy"@
}

/// The ordered list of items; an item is known by its position.
#[derive(Debug)]
pub struct DragDropDemo {
    items: Vec<Item>,
}

impl View for DragDropDemo {
    type V = Seq<ItemView>;

    closed spec fn view(&self) -> Seq<ItemView> {
        self.items@.map_values(|it: Item| it@)
    }
}

impl Default for DragDropDemo {
    fn default() -> (d: DragDropDemo)
        ensures
            d@ == initial_items(),
    {
        DragDropDemo::new()
    }
}

impl DragDropDemo {
    pub fn new() -> (d: DragDropDemo)
        ensures
            d@ == initial_items(),
    {
        let items = vec![
            Item::new("Red Item", Color::red()),
            Item::new("Blue Item", Color::blue()),
            Item::new("Green Item", Color::green()),
            Item::new("Yellow Item", Color::yellow()),
        ];
        let d = DragDropDemo { items };
        assert(d@ =~= initial_items());
        d
    }

    pub fn len(&self) -> (n: usize)
        ensures
            n == self@.len(),
    {
        self.items.len()
    }

    pub fn is_empty(&self) -> (b: bool)
        ensures
            b == (self@.len() == 0),
    {
        self.items.len() == 0
    }

    /// The items, in display order.
    pub fn items(&self) -> (v: &Vec<Item>)
        ensures
            v@.map_values(|it: Item| it@) == self@,
    {
        &self.items
    }

    /// The item at position `index`.
    pub fn item(&self, index: usize) -> (it: &Item)
        requires
            index < self@.len(),
        ensures
            it@ == self@[index as int],
    {
        &self.items[index]
    }

    /// Exchanges the items at `from` and `to`; nothing changes when they are
    /// equal. Fails, changing nothing, when either is not a position of the list.
    pub fn reorder(&mut self, from: usize, to: usize) -> (r: Result<(), StoreError>)
        ensures
            r is Ok <==> (from < old(self)@.len() && to < old(self)@.len()),
            r is Ok ==> final(self)@ == swapped(old(self)@, from as int, to as int),
            r is Err ==> r == Err::<(), StoreError>(StoreError::IndexOutOfBounds) && final(self)@
                == old(self)@,
    {
        let n = self.items.len();
        if from >= n || to >= n {
            return Err(StoreError::IndexOutOfBounds);
        }
        if from == to {
            assert(self@ =~= swapped(self@, from as int, to as int));
            return Ok(());
        }
        let (lo, hi) = if from < to { (from, to) } else { (to, from) };
        let ghost before = self.items@;
        let mut moved = self.items.remove(hi);
        std::mem::swap(&mut self.items[lo], &mut moved);
        self.items.insert(hi, moved);
        assert(self.items@ =~= swapped(before, lo as int, hi as int));
        assert(self@ =~= swapped(old(self)@, from as int, to as int));
        Ok(())
    }

    /// Moves the color of the item at `index` one step along the palette.
    pub fn change_color(&mut self, index: usize) -> (r: Result<(), StoreError>)
        ensures
            r is Ok <==> index < old(self)@.len(),
            r is Ok ==> final(self)@ == old(self)@.update(
                index as int,
                ItemView {
                    name: old(self)@[index as int].name,
                    color: next_color(old(self)@[index as int].color),
                },
            ),
            r is Err ==> r == Err::<(), StoreError>(StoreError::IndexOutOfBounds) && final(self)@
                == old(self)@,
    {
        if index >= self.items.len() {
            return Err(StoreError::IndexOutOfBounds);
        }
        let item = &mut self.items[index];
        item.color = item.color.cycle();
        proof {
            assert(self@ =~= old(self)@.update(
                index as int,
                ItemView {
                    name: old(self)@[index as int].name,
                    color: next_color(old(self)@[index as int].color),
                },
            ));
        }
        Ok(())
    }

    /// Appends " (Modified)" to the name of the item at `index`.
    pub fn rename(&mut self, index: usize) -> (r: Result<(), StoreError>)
        ensures
            r is Ok <==> index < old(self)@.len(),
            r is Ok ==> final(self)@ == old(self)@.update(
                index as int,
                ItemView {
                    name: renamed(old(self)@[index as int].name),
                    color: old(self)@[index as int].color,
                },
            ),
            r is Err ==> r == Err::<(), StoreError>(StoreError::IndexOutOfBounds) && final(self)@
                == old(self)@,
    {
        if index >= self.items.len() {
            return Err(StoreError::IndexOutOfBounds);
        }
        let item = &mut self.items[index];
        let name = item.name.clone().concat(" (Modified)");
        item.name = name;
        proof {
            assert(self@ =~= old(self)@.update(
                index as int,
                ItemView {
                    name: renamed(old(self)@[index as int].name),
                    color: old(self)@[index as int].color,
                },
            ));
        }
        Ok(())
    }

    /// Appends a copy of the item at `index`, named with " Copy" after the
    /// original name, to the end of the list.
    pub fn duplicate(&mut self, index: usize) -> (r: Result<(), StoreError>)
        ensures
            r is Ok <==> index < old(self)@.len(),
            r is Ok ==> final(self)@ == old(self)@.push(
                ItemView {
                    name: copy_name(old(self)@[index as int].name),
                    color: old(self)@[index as int].color,
                },
            ),
            r is Err ==> r == Err::<(), StoreError>(StoreError::IndexOutOfBounds) && final(self)@
                == old(self)@,
    {
        if index >= self.items.len() {
            return Err(StoreError::IndexOutOfBounds);
        }
        let item = &self.items[index];
        let copy = Item { name: item.name.clone().concat(" Copy"), color: item.color };
        self.items.push(copy);
        proof {
            assert(self@ =~= old(self)@.push(
                ItemView {
                    name: copy_name(old(self)@[index as int].name),
                    color: old(self)@[index as int].color,
                },
            ));
        }
        Ok(())
    }

    /// Removes the item at `index`; the items after it move down one place.
    pub fn delete(&mut self, index: usize) -> (r: Result<(), StoreError>)
        ensures
            r is Ok <==> index < old(self)@.len(),
            r is Ok ==> final(self)@ == old(self)@.remove(index as int),
            r is Err ==> r == Err::<(), StoreError>(StoreError::IndexOutOfBounds) && final(self)@
                == old(self)@,
    {
        if index >= self.items.len() {
            return Err(StoreError::IndexOutOfBounds);
        }
        self.items.remove(index);
        assert(self@ =~= old(self)@.remove(index as int));
        Ok(())
    }
}

/// Reordering with the same two valid positions twice gives back the
/// original list: a swap undoes itself.
pub proof fn lemma_reorder_twice(s: Seq<ItemView>, from: int, to: int)
    requires
        0 <= from < s.len(),
        0 <= to < s.len(),
    ensures
        swapped(swapped(s, from, to), from, to) == s,
{
    assert(swapped(swapped(s, from, to), from, to) =~= s);
}

/// Renaming twice appends the suffix twice: the name keeps growing.
pub proof fn lemma_rename_twice(name: Seq<char>)
    ensures
        renamed(renamed(name)) == name + " (Modified) (Modified)"@,
{
    reveal_strlit(" (Modified)");
    reveal_strlit(" (Modified) (Modified)");
    assert(renamed(renamed(name)) =~= name + " (Modified) (Modified)"@);
}

/// Duplicating adds exactly one item, at the end, named after the original
/// with " Copy" and of the same color; the items before it stay in place.
pub proof fn lemma_duplicate_appends(s: Seq<ItemView>, index: int)
    requires
        0 <= index < s.len(),
    ensures
        ({
            let t = s.push(ItemView { name: copy_name(s[index].name), color: s[index].color });
            &&& t.len() == s.len() + 1
            &&& t[s.len() as int] == (ItemView { name: s[index].name + " Copy"@, color: s[index].color })
            &&& forall|j: int| 0 <= j < s.len() ==> t[j] == s[j]
        }),
{
}

/// Deleting removes exactly one item: those before it keep their positions,
/// those after it move down by one, and deleting the only item leaves the
/// list empty.
pub proof fn lemma_delete_shifts(s: Seq<ItemView>, index: int)
    requires
        0 <= index < s.len(),
    ensures
        s.remove(index).len() == s.len() - 1,
        forall|j: int| 0 <= j < index ==> s.remove(index)[j] == s[j],
        forall|j: int| index <= j < s.len() - 1 ==> s.remove(index)[j] == s[j + 1],
        s.len() == 1 ==> s.remove(index) == Seq::<ItemView>::empty(),
{
    if s.len() == 1 {
        assert(s.remove(index) =~= Seq::<ItemView>::empty());
    }
}

} // verus!
