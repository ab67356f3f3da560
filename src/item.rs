use vstd::prelude::*;
use crate::color::Color;

verus! {

/// What an item is: its name as characters, and its color.
pub ghost struct ItemView {
    pub name: Seq<char>,
    pub color: Color,
}

/// A named, colored entry of the list.
#[derive(Clone, Debug)]
pub struct Item {
    pub name: String,
    pub color: Color,
}

impl View for Item {
    type V = ItemView;

    open spec fn view(&self) -> ItemView {
        ItemView { name: self.name@, color: self.color }
    }
}

impl Item {
    pub fn new(name: &str, color: Color) -> (item: Item)
        ensures
            item@ == (ItemView { name: name@, color }),
    {
        Item { name: name.to_string(), color }
    }
}

} // verus!
