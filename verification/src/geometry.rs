//! Points, rectangles and the border offset, with the arithmetic that
//! places an outline on the surface.
//!
//! What comes in (styles, rectangles, outline points) is 32 bits wide; what
//! is computed from it is 64 bits wide, so no sum or difference can
//! overflow, whatever the styles hold.

use crate::style_trait::BorderMode;
use vstd::prelude::*;

verus! {

/// A point of an outline, relative to the top-left corner of the rectangle
/// that the outline was generated for.
#[derive(Clone, Copy, Debug, PartialEq, Eq, Structural)]
pub struct OutlinePoint {
    pub x: i32,
    pub y: i32,
}

/// A point on the drawing surface.
#[derive(Clone, Copy, Debug, PartialEq, Eq, Structural)]
pub struct SurfacePoint {
    pub x: i64,
    pub y: i64,
}

/// A point of the plane, in thousandths of a pixel.
pub struct PlanePoint {
    pub x: int,
    pub y: int,
}

impl View for SurfacePoint {
    type V = PlanePoint;

    open spec fn view(&self) -> PlanePoint {
        PlanePoint { x: self.x as int, y: self.y as int }
    }
}

/// The rectangle that layout resolved for a shape: its origin on the
/// surface and its size.
#[derive(Clone, Copy, Debug, PartialEq, Eq, Structural)]
pub struct Bounds {
    pub origin_x: i32,
    pub origin_y: i32,
    pub width: i32,
    pub height: i32,
}

/// The border offset of a border of the given width: the distance by which
/// the stroke's outline is inset from the nominal edge. Negative for a
/// border outside the edge, zero for one centred on it.
pub open spec fn border_offset(mode: BorderMode, border_width: int) -> int {
    match mode {
        BorderMode::Outside => -border_width,
        BorderMode::Inside => border_width,
        BorderMode::Center => 0,
    }
}

/// Half of `v`, rounded toward zero.
pub open spec fn half(v: int) -> int {
    if v >= 0 {
        v / 2
    } else {
        -((-v) / 2)
    }
}

/// Where the outline coordinate `local` lies on the surface, for a
/// rectangle that starts at `origin` and an outline inset by
/// `border_offset`: half of the offset puts the inset rectangle back in
/// the middle of the rectangle it was inset from.
pub open spec fn translated(origin: int, border_offset: int, local: int) -> int {
    origin + half(border_offset) + local
}

/// The surface point of an outline point.
pub open spec fn surface_point(bounds: Bounds, border_offset: int, p: OutlinePoint) -> PlanePoint {
    PlanePoint {
        x: translated(bounds.origin_x as int, border_offset, p.x as int),
        y: translated(bounds.origin_y as int, border_offset, p.y as int),
    }
}

/// A border offset. It is made from a border mode and a 32-bit width, or
/// is zero, so its magnitude never exceeds 2^31.
#[derive(Clone, Copy, Debug)]
pub struct BorderOffset {
    value: i64,
}

impl View for BorderOffset {
    type V = int;

    closed spec fn view(&self) -> int {
        self.value as int
    }
}

impl BorderOffset {
    #[verifier::type_invariant]
    spec fn in_range(self) -> bool {
        -0x8000_0000 <= self.value <= 0x8000_0000
    }

    pub fn new(mode: BorderMode, border_width: i32) -> (offset: BorderOffset)
        ensures
            offset@ == border_offset(mode, border_width as int),
    {
        let width: i64 = border_width as i64;
        let value: i64 = match mode {
            BorderMode::Outside => -width,
            BorderMode::Inside => width,
            BorderMode::Center => 0,
        };
        BorderOffset { value }
    }

    pub fn zero() -> (offset: BorderOffset)
        ensures
            offset@ == 0,
    {
        BorderOffset { value: 0 }
    }

    pub fn get(&self) -> (value: i64)
        ensures
            value == self@,
    {
        self.value
    }

    pub fn is_zero(&self) -> (zero: bool)
        ensures
            zero == (self@ == 0),
    {
        self.value == 0
    }

    /// `length` less the offset: a side or a radius of the inset outline.
    pub fn inset(&self, length: i32) -> (shrunk: i64)
        ensures
            shrunk == length - self@,
    {
        proof {
            use_type_invariant(self);
        }
        length as i64 - self.value
    }

    /// The surface coordinate of the outline coordinate `local`.
    pub fn translate(&self, origin: i32, local: i32) -> (coordinate: i64)
        ensures
            coordinate == translated(origin as int, self@, local as int),
    {
        proof {
            use_type_invariant(self);
        }
        origin as i64 + self.value / 2 + local as i64
    }

    /// The surface point of the outline point `p`.
    pub fn place(&self, bounds: Bounds, p: OutlinePoint) -> (placed: SurfacePoint)
        ensures
            placed@ == surface_point(bounds, self@, p),
    {
        SurfacePoint {
            x: self.translate(bounds.origin_x, p.x),
            y: self.translate(bounds.origin_y, p.y),
        }
    }
}

} // verus!
