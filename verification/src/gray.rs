//! The 4-bit grayscale colour of `embedded-graphics-core`, as far as the
//! frame buffer needs it: a colour is carried through unopened, and its
//! level is read back from the colour crate.

use vstd::prelude::*;
use embedded_graphics_core::pixelcolor::raw::{RawData, RawU4};
use embedded_graphics_core::pixelcolor::Gray4;
use embedded_graphics_core::geometry::{Point, Size};
use embedded_graphics_core::primitives::Rectangle;

verus! {

/// `embedded_graphics_core::pixelcolor::Gray4`, held as an opaque value.
#[verifier::external_type_specification]
#[verifier::external_body]
pub struct ExGray4(Gray4);

/// The luma that a `Gray4` colour stores.
pub uninterp spec fn gray4_luma(color: Gray4) -> u8;

/// Reads the level of a colour with `RawU4::from(color).into_inner()`.
///
/// Trusted: the result is the luma stored in the colour, which the colour
/// crate keeps within four bits (every `RawU4` is built by masking with
/// `0x0F`).
#[verifier::external_body]
pub(crate) fn level_of(color: Gray4) -> (level: u8)
    ensures
        level == gray4_luma(color),
        level <= 15,
{
    RawU4::from(color).into_inner()
}

/// Asks `Rectangle::contains` whether the point `(x, y)` lies in the
/// rectangle of the given size whose top left corner is the origin.
///
/// Trusted: such a rectangle holds the points with `0 <= x < width` and
/// `0 <= y < height`, and none when either side is zero.
#[verifier::external_body]
pub(crate) fn origin_box_contains(width: u16, height: u16, x: i32, y: i32) -> (inside: bool)
    ensures
        inside == (0 <= x < width && 0 <= y < height),
{
    let size = Size::new(u32::from(width), u32::from(height));
    Rectangle::new(Point::zero(), size).contains(Point::new(x, y))
}

} // verus!
