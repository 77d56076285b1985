use vstd::prelude::*;

use macroquad::color::Color;

verus! {

/// The colour type of the renderer, carried through as an opaque value.
#[verifier::external_type_specification]
#[verifier::external_body]
pub struct ExColor(Color);

/// A picked-up item, shown in the inventory bar in its colour.
pub struct InventoryItem {
    pub color: Color,
}

/// The items the player has picked up, in pick-up order.
pub struct Inventory {
    pub items: Vec<InventoryItem>,
}

impl Inventory {
    /// An empty inventory.
    pub fn new() -> (inventory: Self)
        ensures
            inventory.items@.len() == 0,
    {
        Self { items: Vec::new() }
    }

    /// Adds an item after those already held.
    pub fn add(&mut self, item: InventoryItem)
        ensures
            final(self).items@ == old(self).items@.push(item),
    {
        self.items.push(item);
    }
}

} // verus!
