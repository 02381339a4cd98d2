//! What is asked of the outline generator, and what comes back from the
//! parser of its answer.
//!
//! The generator and the parser are the host's: the request goes out and
//! the parsed outline comes in, both as plain values.

use crate::geometry::border_offset;
use crate::geometry::BorderOffset;
use crate::geometry::Bounds;
use crate::geometry::OutlinePoint;
use crate::style_trait::BorderMode;
use crate::style_trait::SquircleStylable;
use crate::style_trait::SquircleStyles;
use crate::style_trait::UNIT;
use crate::Squircle;
use vstd::prelude::*;

verus! {

/// One request to the outline generator: the size of the rectangle to
/// outline, its corner radii as the generator takes them (a radius for all
/// corners and one for each, all optional), and the smoothing.
#[derive(Clone, Copy, Debug, PartialEq, Eq)]
pub struct OutlineRequest {
    pub width: i64,
    pub height: i64,
    pub corner_radius: Option<i64>,
    pub top_left_corner_radius: Option<i64>,
    pub top_right_corner_radius: Option<i64>,
    pub bottom_right_corner_radius: Option<i64>,
    pub bottom_left_corner_radius: Option<i64>,
    pub corner_smoothing: i32,
    pub preserve_smoothing: bool,
}

/// An outline request over the integers.
pub struct OutlineGeometry {
    pub width: int,
    pub height: int,
    pub corner_radius: Option<int>,
    pub top_left_corner_radius: Option<int>,
    pub top_right_corner_radius: Option<int>,
    pub bottom_right_corner_radius: Option<int>,
    pub bottom_left_corner_radius: Option<int>,
    pub corner_smoothing: int,
    pub preserve_smoothing: bool,
}

/// A corner of the rectangle.
#[derive(Clone, Copy, Debug, PartialEq, Eq, Structural)]
pub enum Corner {
    TopLeft,
    TopRight,
    BottomRight,
    BottomLeft,
}

/// The value of an optional length.
pub open spec fn length_of(length: Option<i64>) -> Option<int> {
    match length {
        Some(v) => Some(v as int),
        None => None,
    }
}

impl View for OutlineRequest {
    type V = OutlineGeometry;

    open spec fn view(&self) -> OutlineGeometry {
        OutlineGeometry {
            width: self.width as int,
            height: self.height as int,
            corner_radius: length_of(self.corner_radius),
            top_left_corner_radius: length_of(self.top_left_corner_radius),
            top_right_corner_radius: length_of(self.top_right_corner_radius),
            bottom_right_corner_radius: length_of(self.bottom_right_corner_radius),
            bottom_left_corner_radius: length_of(self.bottom_left_corner_radius),
            corner_smoothing: self.corner_smoothing as int,
            preserve_smoothing: self.preserve_smoothing,
        }
    }
}

/// A radius of the styles as it is asked for in an outline inset by
/// `border_offset`: shrunk by the offset where it is set, and left unset
/// where it is not. Nothing keeps it from going below zero.
pub open spec fn inset_radius(radius: Option<i32>, border_offset: int) -> Option<int> {
    match radius {
        Some(r) => Some(r - border_offset),
        None => None,
    }
}

/// The radius that the styles give the corner itself.
pub open spec fn own_radius(styles: SquircleStyles, corner: Corner) -> Option<i32> {
    match corner {
        Corner::TopLeft => styles.top_left_corner_radius,
        Corner::TopRight => styles.top_right_corner_radius,
        Corner::BottomRight => styles.bottom_right_corner_radius,
        Corner::BottomLeft => styles.bottom_left_corner_radius,
    }
}

/// Whether the styles give the corner a radius, its own or the one for
/// all corners.
pub open spec fn has_radius(styles: SquircleStyles, corner: Corner) -> bool {
    own_radius(styles, corner) is Some || styles.corner_radius is Some
}

/// The smoothing that an outline is generated with: `UNIT` unless set.
pub open spec fn resolved_smoothing(styles: SquircleStyles) -> int {
    match styles.corner_smoothing {
        Some(s) => s as int,
        None => UNIT as int,
    }
}

/// Whether smoothing is preserved: it is, unless set otherwise.
pub open spec fn resolved_preserve_smoothing(styles: SquircleStyles) -> bool {
    match styles.preserve_smoothing {
        Some(p) => p,
        None => true,
    }
}

/// The border mode in force: `Center` unless set.
pub open spec fn resolved_border_mode(styles: SquircleStyles) -> BorderMode {
    match styles.border_mode {
        Some(mode) => mode,
        None => BorderMode::Center,
    }
}

/// The request for an outline of the given size whose radii are inset by
/// `border_offset`.
pub open spec fn outline_params(
    styles: SquircleStyles,
    width: int,
    height: int,
    border_offset: int,
) -> OutlineGeometry {
    OutlineGeometry {
        width,
        height,
        corner_radius: inset_radius(styles.corner_radius, border_offset),
        top_left_corner_radius: inset_radius(styles.top_left_corner_radius, border_offset),
        top_right_corner_radius: inset_radius(styles.top_right_corner_radius, border_offset),
        bottom_right_corner_radius: inset_radius(styles.bottom_right_corner_radius, border_offset),
        bottom_left_corner_radius: inset_radius(styles.bottom_left_corner_radius, border_offset),
        corner_smoothing: resolved_smoothing(styles),
        preserve_smoothing: resolved_preserve_smoothing(styles),
    }
}

/// The request for the outline of `bounds` inset by `border_offset`: both
/// sides and every radius shrink by the offset.
pub open spec fn inset_outline(
    styles: SquircleStyles,
    bounds: Bounds,
    border_offset: int,
) -> OutlineGeometry {
    outline_params(
        styles,
        bounds.width - border_offset,
        bounds.height - border_offset,
        border_offset,
    )
}

/// The radius that a corner ends up with: its own, else the one for all
/// corners, else zero.
pub open spec fn effective_radius(own: Option<int>, uniform: Option<int>) -> int {
    match own {
        Some(r) => r,
        None => match uniform {
            Some(r) => r,
            None => 0,
        },
    }
}

impl OutlineGeometry {
    /// The corner's own radius, if it has one.
    pub open spec fn own_radius(self, corner: Corner) -> Option<int> {
        match corner {
            Corner::TopLeft => self.top_left_corner_radius,
            Corner::TopRight => self.top_right_corner_radius,
            Corner::BottomRight => self.bottom_right_corner_radius,
            Corner::BottomLeft => self.bottom_left_corner_radius,
        }
    }

    /// The radius that the corner ends up with.
    pub open spec fn radius(self, corner: Corner) -> int {
        effective_radius(self.own_radius(corner), self.corner_radius)
    }
}

impl OutlineRequest {
    /// The radius that the corner ends up with.
    pub fn radius(&self, corner: Corner) -> (radius: i64)
        ensures
            radius == self@.radius(corner),
    {
        let own = match corner {
            Corner::TopLeft => self.top_left_corner_radius,
            Corner::TopRight => self.top_right_corner_radius,
            Corner::BottomRight => self.bottom_right_corner_radius,
            Corner::BottomLeft => self.bottom_left_corner_radius,
        };
        match own {
            Some(r) => r,
            None => match self.corner_radius {
                Some(r) => r,
                None => 0,
            },
        }
    }
}

/// One command of a parsed outline. Points are relative to the outlined
/// rectangle's top-left corner.
#[derive(Clone, Copy, Debug, PartialEq, Eq, Structural)]
pub enum PathEvent {
    /// Starts a subpath.
    Begin { at: OutlinePoint },
    /// A straight segment.
    Line { to: OutlinePoint },
    /// A quadratic curve.
    Quadratic { ctrl: OutlinePoint, to: OutlinePoint },
    /// A cubic curve.
    Cubic { ctrl1: OutlinePoint, ctrl2: OutlinePoint, to: OutlinePoint },
    /// Ends the subpath, joining it back to its start if `close` is set.
    End { close: bool },
}

/// A parsed outline: its commands in order.
#[derive(Clone, Debug, PartialEq, Eq)]
pub struct Outline {
    pub events: Vec<PathEvent>,
}

impl View for Outline {
    type V = Seq<PathEvent>;

    open spec fn view(&self) -> Seq<PathEvent> {
        self.events@
    }
}

/// A set radius less the offset.
fn inset_length(radius: Option<i32>, border_offset: &BorderOffset) -> (inset: Option<i64>)
    ensures
        length_of(inset) == inset_radius(radius, border_offset@),
{
    match radius {
        Some(r) => Some(border_offset.inset(r)),
        None => None,
    }
}

impl Squircle {
    /// The offset of this squircle's border, were it `border_width` wide.
    pub fn get_border_offset(&self, border_width: i32) -> (offset: BorderOffset)
        ensures
            offset@ == border_offset(resolved_border_mode(self.styles()), border_width as int),
    {
        let mode = match self.get_squircle_styles().border_mode {
            Some(mode) => mode,
            None => BorderMode::Center,
        };
        BorderOffset::new(mode, border_width)
    }

    /// The request for an outline of the given size, its radii inset by
    /// `border_offset`. Absent smoothing fields are resolved here.
    pub fn to_params(
        &self,
        width: i64,
        height: i64,
        border_offset: &BorderOffset,
    ) -> (params: OutlineRequest)
        ensures
            params@ == outline_params(self.styles(), width as int, height as int, border_offset@),
    {
        let styles = self.get_squircle_styles();
        OutlineRequest {
            width,
            height,
            corner_radius: inset_length(styles.corner_radius, border_offset),
            top_left_corner_radius: inset_length(styles.top_left_corner_radius, border_offset),
            top_right_corner_radius: inset_length(styles.top_right_corner_radius, border_offset),
            bottom_right_corner_radius: inset_length(
                styles.bottom_right_corner_radius,
                border_offset,
            ),
            bottom_left_corner_radius: inset_length(
                styles.bottom_left_corner_radius,
                border_offset,
            ),
            corner_smoothing: match styles.corner_smoothing {
                Some(s) => s,
                None => UNIT,
            },
            preserve_smoothing: match styles.preserve_smoothing {
                Some(p) => p,
                None => true,
            },
        }
    }

    /// The request for the outline of `bounds` inset by `border_offset`.
    pub fn outline_request(
        &self,
        bounds: Bounds,
        border_offset: &BorderOffset,
    ) -> (params: OutlineRequest)
        ensures
            params@ == inset_outline(self.styles(), bounds, border_offset@),
    {
        self.to_params(
            border_offset.inset(bounds.width),
            border_offset.inset(bounds.height),
            border_offset,
        )
    }
}

} // verus!
