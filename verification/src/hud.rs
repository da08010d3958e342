//! The inventory-bag widget's state and layout arithmetic.
//!
//! The widget's drawing itself is presentation glue for a retained-mode
//! GUI and stays outside this crate; what lives here is its persistent
//! state, the event it can emit, and the slot-grid placement that
//! decides where each inventory slot sits.

use vstd::prelude::*;

verus! {

/// The widget identifiers the bag keeps between frames; one per static
/// part, and one per inventory slot.
#[derive(Clone, Debug, PartialEq, Eq)]
pub struct Ids {
    pub bag_close: u64,
    pub bag_contents: u64,
    pub inv_alignment: u64,
    pub inv_grid_1: u64,
    pub inv_grid_2: u64,
    pub inv_scrollbar: u64,
    pub inv_slot_0: u64,
    pub map_title: u64,
    pub inv_slot: Vec<u64>,
    pub item1: u64,
}

/// The bag widget's persistent state.
#[derive(Clone, Debug, PartialEq, Eq)]
pub struct State {
    pub ids: Ids,
}

impl State {
    /// How many inventory-slot identifiers the state holds.
    pub fn slot_count(&self) -> (r: usize)
        ensures
            r == self.ids.inv_slot@.len(),
    {
        self.ids.inv_slot.len()
    }
}

/// What the bag widget can report back to its caller.
#[derive(Clone, Copy, Debug, PartialEq, Eq, Structural)]
pub enum Event {
    Close,
}

/// Whether the slot-identifier list must grow, and to what size: it is
/// resized to the inventory's size exactly when it holds fewer
/// identifiers, and left alone otherwise.
pub fn slots_needed(current: usize, inventory_space: usize) -> (r: Option<usize>)
    ensures
        r == (if current < inventory_space {
            Some(inventory_space)
        } else {
            None::<usize>
        }),
{
    if current < inventory_space {
        Some(inventory_space)
    } else {
        None
    }
}

/// Where slot `i` sits in the five-wide inventory grid.
pub fn slot_cell(i: usize) -> (r: (usize, usize))
    ensures
        r.0 == i % 5,
        r.1 == i / 5,
{
    (i % 5, i / 5)
}

/// The pixel margins of slot `i` from the grid's top-left corner: four
/// pixels of padding plus a 44-pixel pitch per row and column.
pub fn slot_margins(i: usize) -> (r: (usize, usize))
    requires
        i < 65_536,
    ensures
        r.0 == 4 + 44 * (i % 5),
        r.1 == 4 + 44 * (i / 5),
{
    (4 + 44 * (i % 5), 4 + 44 * (i / 5))
}

} // verus!
