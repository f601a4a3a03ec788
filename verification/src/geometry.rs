//! The bounding box of a draw target and the anchor points taken from it.

use embedded_graphics::geometry::Point;
use embedded_graphics::geometry::Size;
use embedded_graphics::primitives::Rectangle;
use vstd::prelude::*;

verus! {

/// The bounding box that a draw target reports: its top-left corner in
/// signed pixels and its size in unsigned pixels.
#[derive(Clone, Copy, Debug, PartialEq, Eq, Structural)]
pub struct Bounds {
    /// Horizontal position of the top-left corner.
    pub x: i32,
    /// Vertical position of the top-left corner.
    pub y: i32,
    /// Width in pixels.
    pub width: u32,
    /// Height in pixels.
    pub height: u32,
}

/// The bottom-right pixel of a box, where it has one: the top-left corner
/// moved by the size less one pixel in each direction.
pub open spec fn corner_of(x: int, y: int, width: int, height: int) -> Option<(i32, i32)> {
    if width > 0 && height > 0 {
        Some(((x + width - 1) as i32, (y + height - 1) as i32))
    } else {
        None
    }
}

/// Calls `Rectangle::bottom_right` of `embedded-graphics` on the box with
/// the given corner and size. Trusted: an empty box has no corner; for any
/// other the result is the top-left corner plus the size minus one pixel in
/// each direction. The precondition keeps that sum inside `i32`, where the
/// outside code computes it.
#[verifier::external_body]
fn rectangle_bottom_right(x: i32, y: i32, width: u32, height: u32) -> (corner: Option<(i32, i32)>)
    requires
        width <= i32::MAX,
        height <= i32::MAX,
        x + width <= i32::MAX,
        y + height <= i32::MAX,
    ensures
        corner == corner_of(x as int, y as int, width as int, height as int),
{
    Rectangle::new(Point::new(x, y), Size::new(width, height)).bottom_right().map(|p| (p.x, p.y))
}

impl Bounds {
    /// Every pixel coordinate of the box fits a signed 32-bit integer.
    pub open spec fn fits(self) -> bool {
        &&& self.width <= i32::MAX
        &&& self.height <= i32::MAX
        &&& self.x + self.width <= i32::MAX
        &&& self.y + self.height <= i32::MAX
    }

    /// The box has at least one pixel and all of them are addressable.
    pub open spec fn drawable(self) -> bool {
        self.width > 0 && self.height > 0 && self.fits()
    }

    /// The horizontal anchor for centred content: half the width, rounded down.
    pub open spec fn center_x_spec(self) -> int {
        self.width as int / 2
    }

    /// The bottom-right pixel of a drawable box.
    pub open spec fn bottom_right_spec(self) -> (int, int) {
        (self.x + self.width - 1, self.y + self.height - 1)
    }

    /// A box of the given size with its top-left corner at the origin.
    pub fn with_size(width: u32, height: u32) -> (bounds: Bounds)
        ensures
            bounds == (Bounds { x: 0, y: 0, width, height }),
    {
        Bounds { x: 0, y: 0, width, height }
    }

    /// Tells whether the box can be drawn into.
    pub fn is_drawable(&self) -> (ok: bool)
        ensures
            ok == self.drawable(),
    {
        self.width > 0 && self.height > 0 && self.width <= 0x7fff_ffff && self.height
            <= 0x7fff_ffff && self.x <= 0x7fff_ffff - (self.width as i32) && self.y <= 0x7fff_ffff
            - (self.height as i32)
    }

    /// The horizontal anchor for centred content.
    pub fn center_x(&self) -> (x: i32)
        ensures
            x == self.center_x_spec(),
    {
        (self.width / 2) as i32
    }

    /// The bottom-right pixel of the box, or nothing where the box cannot be
    /// drawn into.
    pub fn bottom_right(&self) -> (corner: Option<(i32, i32)>)
        ensures
            corner is Some <==> self.drawable(),
            corner matches Some(c) ==> c.0 == self.bottom_right_spec().0 && c.1
                == self.bottom_right_spec().1,
    {
        if self.is_drawable() {
            rectangle_bottom_right(self.x, self.y, self.width, self.height)
        } else {
            None
        }
    }
}

} // verus!
