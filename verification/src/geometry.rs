//! Points, sizes, rectangles and colours in whole layout units.

use vstd::prelude::*;

verus! {

/// A position in layout units.
#[derive(Clone, Copy, Debug, PartialEq, Eq, Structural)]
pub struct LayoutPoint {
    pub x: i32,
    pub y: i32,
}

/// An extent in layout units. Nothing keeps an extent from being negative.
#[derive(Clone, Copy, Debug, PartialEq, Eq, Structural)]
pub struct LayoutSize {
    pub width: i32,
    pub height: i32,
}

/// A rectangle, held as its top-left corner and its extent.
#[derive(Clone, Copy, Debug, PartialEq, Eq, Structural)]
pub struct LayoutRect {
    pub origin: LayoutPoint,
    pub size: LayoutSize,
}

/// A colour: red, green, blue and opacity, each in thousandths of full
/// intensity.
#[derive(Clone, Copy, Debug, PartialEq, Eq, Structural)]
pub struct Color {
    pub r: u16,
    pub g: u16,
    pub b: u16,
    pub a: u16,
}

/// Where a primitive is drawn, and the region it is clipped to, if any.
#[derive(Clone, Copy, Debug, PartialEq, Eq)]
pub struct LayoutPrimitiveInfo {
    pub rect: LayoutRect,
    pub local_clip: Option<LayoutRect>,
}

impl LayoutPoint {
    pub fn new(x: i32, y: i32) -> (p: LayoutPoint)
        ensures
            p == (LayoutPoint { x, y }),
    {
        LayoutPoint { x, y }
    }

    /// The origin of the coordinate system.
    pub fn zero() -> (p: LayoutPoint)
        ensures
            p == (LayoutPoint { x: 0, y: 0 }),
    {
        LayoutPoint { x: 0, y: 0 }
    }
}

impl LayoutSize {
    pub fn new(width: i32, height: i32) -> (s: LayoutSize)
        ensures
            s == (LayoutSize { width, height }),
    {
        LayoutSize { width, height }
    }
}

impl LayoutRect {
    pub fn new(origin: LayoutPoint, size: LayoutSize) -> (r: LayoutRect)
        ensures
            r == (LayoutRect { origin, size }),
    {
        LayoutRect { origin, size }
    }

    /// The left edge.
    pub open spec fn left(self) -> int {
        self.origin.x as int
    }

    /// The top edge.
    pub open spec fn top(self) -> int {
        self.origin.y as int
    }

    /// The right edge: the left edge plus the width.
    pub open spec fn right(self) -> int {
        self.origin.x + self.size.width
    }

    /// The bottom edge: the top edge plus the height.
    pub open spec fn bottom(self) -> int {
        self.origin.y + self.size.height
    }

    pub fn min_x(&self) -> (v: i32)
        ensures
            v == self.left(),
    {
        self.origin.x
    }

    pub fn min_y(&self) -> (v: i32)
        ensures
            v == self.top(),
    {
        self.origin.y
    }

    /// The right edge, or `None` where it lies beyond the coordinate range.
    pub fn max_x(&self) -> (v: Option<i32>)
        ensures
            v.is_some() <==> i32::MIN <= self.right() <= i32::MAX,
            v.is_some() ==> v.unwrap() == self.right(),
    {
        self.origin.x.checked_add(self.size.width)
    }

    /// The bottom edge, or `None` where it lies beyond the coordinate range.
    pub fn max_y(&self) -> (v: Option<i32>)
        ensures
            v.is_some() <==> i32::MIN <= self.bottom() <= i32::MAX,
            v.is_some() ==> v.unwrap() == self.bottom(),
    {
        self.origin.y.checked_add(self.size.height)
    }
}

impl Color {
    /// A colour from its four channels, in thousandths.
    pub fn new(r: u16, g: u16, b: u16, a: u16) -> (c: Color)
        ensures
            c == (Color { r, g, b, a }),
    {
        Color { r, g, b, a }
    }

    /// Opaque black.
    pub open spec fn spec_black() -> Color {
        Color { r: 0, g: 0, b: 0, a: 1000 }
    }

    #[verifier::when_used_as_spec(spec_black)]
    pub fn black() -> (c: Color)
        ensures
            c == Color::spec_black(),
    {
        Color { r: 0, g: 0, b: 0, a: 1000 }
    }
}

impl LayoutPrimitiveInfo {
    /// The placement of a primitive that fills `rect` and is not clipped.
    pub open spec fn spec_new(rect: LayoutRect) -> LayoutPrimitiveInfo {
        LayoutPrimitiveInfo { rect, local_clip: None }
    }

    #[verifier::when_used_as_spec(spec_new)]
    pub fn new(rect: LayoutRect) -> (info: LayoutPrimitiveInfo)
        ensures
            info == LayoutPrimitiveInfo::spec_new(rect),
    {
        LayoutPrimitiveInfo { rect, local_clip: None }
    }

    /// The placement of a primitive that fills `rect`, clipped to `clip`.
    pub fn with_clip_rect(rect: LayoutRect, clip: LayoutRect) -> (info: LayoutPrimitiveInfo)
        ensures
            info == (LayoutPrimitiveInfo { rect, local_clip: Some(clip) }),
    {
        LayoutPrimitiveInfo { rect, local_clip: Some(clip) }
    }
}

} // verus!
