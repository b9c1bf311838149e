//! Where each displayed key sits.
//!
//! The widget is laid out on a grid of square cells. A key occupies a
//! rectangle of that grid, given here in steps of a twentieth of a cell so
//! that the small gaps between rows are whole numbers.
use vstd::prelude::*;
use crate::input::Key;

verus! {

/// Side of one grid cell, in pixels.
pub const CELL_SIZE: u32 = 60;

/// Side of the square canvas, in pixels: eight cells.
pub const SIZE: u32 = CELL_SIZE * 8;

/// Grid steps per cell.
pub const STEPS_PER_CELL: u32 = 20;

/// The rectangle of the grid that one key occupies, in steps.
#[derive(Clone, Copy, Debug, PartialEq, Eq, Structural)]
pub struct KeyRegion {
    pub key: Key,
    pub left: u32,
    pub right: u32,
    pub top: u32,
    pub bottom: u32,
}

impl KeyRegion {
    /// The region is not empty and lies on the visible part of the grid,
    /// which is eight cells wide and four cells high.
    pub open spec fn on_grid(self) -> bool {
        &&& self.left < self.right <= 8 * STEPS_PER_CELL
        &&& self.top < self.bottom <= 4 * STEPS_PER_CELL
    }

    /// The two regions share no area; a common edge is allowed.
    pub open spec fn apart_from(self, other: KeyRegion) -> bool {
        ||| self.right <= other.left
        ||| other.right <= self.left
        ||| self.bottom <= other.top
        ||| other.bottom <= self.top
    }
}

/// The displayed keys in drawing order: W and R on the top row; left shift,
/// A, S and D on the middle row; left control and the space bar on the bottom
/// row.
pub open spec fn key_layout() -> Seq<KeyRegion> {
    seq![
        KeyRegion { key: Key::KeyW, left: 50, right: 70, top: 1, bottom: 19 },
        KeyRegion { key: Key::KeyR, left: 70, right: 90, top: 1, bottom: 19 },
        KeyRegion { key: Key::ShiftLeft, left: 0, right: 30, top: 21, bottom: 39 },
        KeyRegion { key: Key::KeyA, left: 30, right: 50, top: 21, bottom: 39 },
        KeyRegion { key: Key::KeyS, left: 50, right: 70, top: 21, bottom: 39 },
        KeyRegion { key: Key::KeyD, left: 70, right: 90, top: 21, bottom: 39 },
        KeyRegion { key: Key::ControlLeft, left: 0, right: 30, top: 41, bottom: 59 },
        KeyRegion { key: Key::Space, left: 30, right: 90, top: 41, bottom: 59 },
    ]
}

/// The layout table.
pub fn key_positions() -> (table: [KeyRegion; 8])
    ensures
        table@ == key_layout(),
{
    let table = [
        KeyRegion { key: Key::KeyW, left: 50, right: 70, top: 1, bottom: 19 },
        KeyRegion { key: Key::KeyR, left: 70, right: 90, top: 1, bottom: 19 },
        KeyRegion { key: Key::ShiftLeft, left: 0, right: 30, top: 21, bottom: 39 },
        KeyRegion { key: Key::KeyA, left: 30, right: 50, top: 21, bottom: 39 },
        KeyRegion { key: Key::KeyS, left: 50, right: 70, top: 21, bottom: 39 },
        KeyRegion { key: Key::KeyD, left: 70, right: 90, top: 21, bottom: 39 },
        KeyRegion { key: Key::ControlLeft, left: 0, right: 30, top: 41, bottom: 59 },
        KeyRegion { key: Key::Space, left: 30, right: 90, top: 41, bottom: 59 },
    ];
    assert(table@ =~= key_layout());
    table
}

/// Every region of the layout is non-empty and on the visible grid.
pub proof fn lemma_layout_on_grid(i: int)
    requires
        0 <= i < key_layout().len(),
    ensures
        key_layout()[i].on_grid(),
{
}

/// No key is displayed twice, and no two regions of the layout overlap.
pub proof fn lemma_layout_regions_distinct(i: int, j: int)
    requires
        0 <= i < key_layout().len(),
        0 <= j < key_layout().len(),
        i != j,
    ensures
        key_layout()[i].key != key_layout()[j].key,
        key_layout()[i].apart_from(key_layout()[j]),
{
}

} // verus!
