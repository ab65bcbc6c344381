//! Rectangles and sizes in pixels.

use vstd::prelude::*;
use crate::headroom::{scale, scaled};

verus! {

/// A rectangle on the desktop.
#[derive(Debug, Default, Clone, Copy, PartialEq, Eq, Structural)]
pub struct Rect {
    pub left: i32,
    pub top: i32,
    pub right: i32,
    pub bottom: i32,
}

/// By how much a border is moved away from each side of its window.
#[derive(Debug, Default, Clone, Copy, PartialEq, Eq, Structural)]
pub struct Offset {
    pub top: i32,
    pub left: i32,
    pub right: i32,
    pub bottom: i32,
}

/// The size of a renderer.
#[derive(Debug, Default, Clone, Copy, PartialEq, Eq, Structural)]
pub struct Size {
    pub width: u32,
    pub height: u32,
}

/// Where a border lies in its own window: `padding` away from every side of an area of `width`
/// by `height`.
#[derive(Debug, Default, Clone, Copy, PartialEq, Eq, Structural)]
pub struct Bounds {
    pub padding: i32,
    pub width: i32,
    pub height: i32,
}

/// What a border needs around its window on each side besides the offset.
#[derive(Debug, Default, Clone, Copy, PartialEq, Eq, Structural)]
pub struct Appearance {
    pub stroke_width: i32,
    pub offset: Offset,
    pub padding: i32,
}

/// Whether `n` is an `i32`.
pub open spec fn is_i32(n: int) -> bool {
    i32::MIN <= n <= i32::MAX
}

impl Rect {
    /// The extent of the rectangle from left to right.
    pub open spec fn across(self) -> int {
        self.right - self.left
    }

    /// The extent of the rectangle from top to bottom.
    pub open spec fn down(self) -> int {
        self.bottom - self.top
    }

    /// Both extents are representable.
    pub open spec fn measurable(self) -> bool {
        &&& is_i32(self.across())
        &&& is_i32(self.down())
    }

    /// Whether both extents are representable.
    pub fn is_measurable(self) -> (r: bool)
        ensures
            r == self.measurable(),
    {
        fits(self.right as i64 - self.left as i64) && fits(self.bottom as i64 - self.top as i64)
    }

    /// The extent of the rectangle from left to right.
    pub fn width(self) -> (r: i32)
        requires
            self.measurable(),
        ensures
            r == self.across(),
    {
        self.right - self.left
    }

    /// The extent of the rectangle from top to bottom.
    pub fn height(self) -> (r: i32)
        requires
            self.measurable(),
        ensures
            r == self.down(),
    {
        self.bottom - self.top
    }
}

/// Whether two rectangles have the same extents.
pub open spec fn same_size(a: Rect, b: Rect) -> bool {
    a.across() == b.across() && a.down() == b.down()
}

/// Whether two rectangles have the same extents.
pub fn are_rects_same_size(a: Rect, b: Rect) -> (r: bool)
    ensures
        r == same_size(a, b),
{
    a.right as i64 - a.left as i64 == b.right as i64 - b.left as i64 && a.bottom as i64
        - a.top as i64 == b.bottom as i64 - b.top as i64
}

/// `frame` with room for a border of the given appearance on each side.
pub open spec fn outset(frame: Rect, look: Appearance) -> Rect {
    Rect {
        left: (frame.left - (look.stroke_width + look.offset.left + look.padding)) as i32,
        top: (frame.top - (look.stroke_width + look.offset.top + look.padding)) as i32,
        right: (frame.right + (look.stroke_width + look.offset.right + look.padding)) as i32,
        bottom: (frame.bottom + (look.stroke_width + look.offset.bottom + look.padding)) as i32,
    }
}

/// Whether the margin that a border takes on one side is representable.
pub open spec fn margin_fits(stroke_width: i32, offset: i32, padding: i32) -> bool {
    &&& is_i32(stroke_width + offset)
    &&& is_i32(stroke_width + offset + padding)
}

/// Whether no step of the computation of `outset` leaves the integers of 32 bits, and its result
/// can be measured.
pub open spec fn outset_fits(frame: Rect, look: Appearance) -> bool {
    &&& margin_fits(look.stroke_width, look.offset.left, look.padding)
    &&& margin_fits(look.stroke_width, look.offset.top, look.padding)
    &&& margin_fits(look.stroke_width, look.offset.right, look.padding)
    &&& margin_fits(look.stroke_width, look.offset.bottom, look.padding)
    &&& is_i32(frame.left - (look.stroke_width + look.offset.left + look.padding))
    &&& is_i32(frame.top - (look.stroke_width + look.offset.top + look.padding))
    &&& is_i32(frame.right + (look.stroke_width + look.offset.right + look.padding))
    &&& is_i32(frame.bottom + (look.stroke_width + look.offset.bottom + look.padding))
    &&& outset(frame, look).measurable()
}

/// Makes room around `frame` for a border of the given appearance.
pub fn make_room(frame: Rect, look: Appearance) -> (r: Rect)
    requires
        outset_fits(frame, look),
    ensures
        r == outset(frame, look),
        r.measurable(),
{
    Rect {
        left: frame.left - (look.stroke_width + look.offset.left + look.padding),
        top: frame.top - (look.stroke_width + look.offset.top + look.padding),
        right: frame.right + (look.stroke_width + look.offset.right + look.padding),
        bottom: frame.bottom + (look.stroke_width + look.offset.bottom + look.padding),
    }
}

/// Whether `outset_fits` holds.
pub fn room_fits(frame: Rect, look: Appearance) -> (r: bool)
    ensures
        r == outset_fits(frame, look),
{
    let (fl, ft, fr, fb): (i64, i64, i64, i64) = (
        frame.left as i64,
        frame.top as i64,
        frame.right as i64,
        frame.bottom as i64,
    );
    let w: i64 = look.stroke_width as i64;
    let p: i64 = look.padding as i64;
    let (ol, ot, or, ob): (i64, i64, i64, i64) = (
        look.offset.left as i64,
        look.offset.top as i64,
        look.offset.right as i64,
        look.offset.bottom as i64,
    );
    let (left, top, right, bottom): (i64, i64, i64, i64) = (
        fl - (w + ol + p),
        ft - (w + ot + p),
        fr + (w + or + p),
        fb + (w + ob + p),
    );
    fits(w + ol) && fits(w + ol + p) && fits(w + ot) && fits(w + ot + p) && fits(w + or) && fits(
        w + or + p,
    ) && fits(w + ob) && fits(w + ob + p) && fits(left) && fits(top) && fits(right) && fits(bottom)
        && fits(right - left) && fits(bottom - top)
}

/// Whether a number is an `i32`.
fn fits(n: i64) -> (r: bool)
    ensures
        r == is_i32(n as int),
{
    -0x8000_0000 <= n && n <= 0x7fff_ffff
}

/// An extent as the side of a surface: at least one pixel.
pub open spec fn side(extent: int) -> nat {
    if extent < 1 {
        1
    } else {
        extent as nat
    }
}

/// The least multiple of 128, other than zero, that is not below `n`.
pub open spec fn quantized(n: nat) -> nat {
    if n == 0 {
        128
    } else {
        ((n + 127) / 128) * 128
    }
}

/// The length of one side of a composition surface for a window with that extent.
pub open spec fn surface_side(extent: int) -> nat {
    quantized(scaled(side(extent)))
}

/// An extent as the side of a surface: at least one pixel.
pub fn at_least_one(extent: i32) -> (r: u32)
    ensures
        r == side(extent as int),
        1 <= r <= 0x7fff_ffff,
{
    if extent < 1 {
        1
    } else {
        extent as u32
    }
}

/// The length of one side of a composition surface for a window with that extent: 20% of
/// headroom, in blocks of 128 pixels.
pub fn composition_side(extent: i32) -> (r: u32)
    ensures
        r == surface_side(extent as int),
        r % 128 == 0,
        r >= 128,
        r >= side(extent as int),
{
    let target: u32 = scale(at_least_one(extent));
    ((target + 127) / 128) * 128
}

/// The bits of a signed extent read as an unsigned number.
pub open spec fn unsigned(extent: int) -> int {
    if extent < 0 {
        extent + 0x1_0000_0000
    } else {
        extent
    }
}

/// The bits of a signed extent read as an unsigned number.
pub fn as_unsigned(extent: i32) -> (r: u32)
    ensures
        r == unsigned(extent as int),
{
    if extent < 0 {
        (extent as i64 + 0x1_0000_0000) as u32
    } else {
        extent as u32
    }
}

} // verus!
