//! Constants describing the largest display the controller drives and the
//! layout of its display RAM.

use vstd::prelude::*;

verus! {

/// The maximum supported display width in pixels.
pub const NUM_PIXEL_COLS: u16 = 480;

/// The maximum supported display height in pixels.
pub const NUM_PIXEL_ROWS: u8 = 128;

/// The number of display RAM column addresses (four pixels per address).
pub const NUM_BUF_COLS: u8 = 120;

/// The highest valid pixel column index.
pub const PIXEL_COL_MAX: u16 = 479;

/// The highest valid pixel row index.
pub const PIXEL_ROW_MAX: u8 = 127;

/// The highest valid display RAM column address.
pub const BUF_COL_MAX: u8 = 119;

} // verus!
