//! The terminal as the core sees it: a character grid of known
//! dimensions, with the bottom rows reserved for the status and message
//! bars already subtracted. Querying the real device and switching it
//! into raw mode happen outside the library, which only keeps the
//! resulting dimensions.

use vstd::prelude::*;

verus! {

/// Rows of the raw cell grid reserved for the status and message bars.
pub const RESERVED_ROWS: u16 = 2;

/// Character-grid dimensions, in cells.
#[derive(Clone, Copy)]
pub struct Size {
    pub width: u16,
    pub height: u16,
}

/// Holds the viewport dimensions the core navigates and renders against.
pub struct Terminal {
    size: Size,
}

impl Terminal {
    /// The viewport dimensions: `height` is the raw cell height less the
    /// reserved rows, floored at zero.
    pub closed spec fn spec_size(&self) -> Size {
        self.size
    }

    /// Packs the raw cell dimensions, reserving the bottom rows for the
    /// status and message bars.
    pub fn new(width: u16, height: u16) -> (t: Terminal)
        ensures
            t.spec_size().width == width,
            t.spec_size().height == if height >= RESERVED_ROWS {
                height - RESERVED_ROWS
            } else {
                0
            },
    {
        let visible = if height >= RESERVED_ROWS {
            height - RESERVED_ROWS
        } else {
            0
        };
        Terminal { size: Size { width, height: visible } }
    }

    /// The viewport dimensions.
    pub fn size(&self) -> (s: &Size)
        ensures
            *s == self.spec_size(),
    {
        &self.size
    }
}

} // verus!
