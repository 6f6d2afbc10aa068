//! How the LEDs of a board are wired to the chip.
//!
//! The chip numbers its 144 LEDs by the position of their PWM register. A
//! board places some of them on a grid, and which LED sits at which place is a
//! matter of the board's traces. A wiring tells the driver the size of the
//! grid and the LED behind each of its places.

use vstd::prelude::*;
use crate::registers::PIXELS;

verus! {

/// The wiring of one kind of board.
///
/// An implementation proves that its mapping stays on the chip and that no
/// two places of the grid share an LED, so the driver can rely on both for
/// every board.
pub trait PixelMap {
    /// Number of columns of the grid.
    spec fn width(&self) -> u8;

    /// Number of rows of the grid.
    spec fn height(&self) -> u8;

    /// The chip's number for the LED in column `x` and row `y`.
    spec fn index(&self, x: u8, y: u8) -> int;

    /// Every place of the grid has an LED of the chip behind it.
    proof fn index_on_chip(&self, x: u8, y: u8)
        requires
            x < self.width(),
            y < self.height(),
        ensures
            0 <= self.index(x, y) < PIXELS,
    ;

    /// Two places of the grid with the same LED behind them are the same
    /// place.
    proof fn index_injective(&self, x1: u8, y1: u8, x2: u8, y2: u8)
        requires
            x1 < self.width(),
            y1 < self.height(),
            x2 < self.width(),
            y2 < self.height(),
            self.index(x1, y1) == self.index(x2, y2),
        ensures
            x1 == x2,
            y1 == y2,
    ;

    /// Number of columns of the grid.
    fn columns(&self) -> (w: u8)
        ensures
            w == self.width(),
    ;

    /// Number of rows of the grid.
    fn rows(&self) -> (h: u8)
        ensures
            h == self.height(),
    ;

    /// The chip's number for the LED in column `x` and row `y`.
    fn locate(&self, x: u8, y: u8) -> (p: u8)
        requires
            x < self.width(),
            y < self.height(),
        ensures
            p == self.index(x, y),
    ;
}

/// The 16 by 8 CharliePlex bonnet.
///
/// The board is built from two halves of eight columns. Each column takes
/// half of a 16-LED line of the chip; the left half of the board runs through
/// its lines downwards from row 0, the right half upwards.
#[derive(Clone, Copy, Debug)]
pub struct CharlieBonnet;

/// Number of columns of the bonnet.
pub const BONNET_WIDTH: u8 = 16;

/// Number of rows of the bonnet.
pub const BONNET_HEIGHT: u8 = 8;

/// The LED behind column `x` and row `y` of the bonnet.
pub open spec fn bonnet_index(x: u8, y: u8) -> int {
    if x >= 8 {
        (x - 6) * 16 - (y + 1)
    } else {
        (x + 1) * 16 + (7 - y)
    }
}

impl PixelMap for CharlieBonnet {
    open spec fn width(&self) -> u8 {
        BONNET_WIDTH
    }

    open spec fn height(&self) -> u8 {
        BONNET_HEIGHT
    }

    open spec fn index(&self, x: u8, y: u8) -> int {
        bonnet_index(x, y)
    }

    proof fn index_on_chip(&self, x: u8, y: u8) {
    }

    proof fn index_injective(&self, x1: u8, y1: u8, x2: u8, y2: u8) {
    }

    fn columns(&self) -> (w: u8) {
        BONNET_WIDTH
    }

    fn rows(&self) -> (h: u8) {
        BONNET_HEIGHT
    }

    fn locate(&self, x: u8, y: u8) -> (p: u8) {
        if x >= 8 {
            (x - 6) * 16 - (y + 1)
        } else {
            (x + 1) * 16 + (7 - y)
        }
    }
}

} // verus!
