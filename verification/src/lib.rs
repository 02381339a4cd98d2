//! Squircles for a drawing surface: rectangles whose corners follow a
//! smoothed superellipse, with a fill and a border that sits inside,
//! outside or on the edge.
//!
//! The crate decides which outlines a set of styles needs, asks for them as
//! plain values, and replays each parsed outline into the paths that are to
//! be painted, in surface coordinates.

use vstd::prelude::*;

pub mod geometry;
pub mod laws;
pub mod outline;
pub mod path;
pub mod render;
pub mod style_trait;

pub use geometry::BorderOffset;
pub use geometry::Bounds;
pub use geometry::OutlinePoint;
pub use geometry::SurfacePoint;
pub use outline::Corner;
pub use outline::Outline;
pub use outline::OutlineRequest;
pub use outline::PathEvent;
pub use path::build_and_paint_paths;
pub use path::BuildAndPaintOptions;
pub use path::Path;
pub use path::PathBuilder;
pub use path::PathStyle;
pub use path::Segment;
pub use path::Submission;
pub use render::OutlineWalk;
pub use render::RenderReport;
pub use style_trait::BorderMode;
pub use style_trait::Paint;
pub use style_trait::SquircleStylable;
pub use style_trait::SquircleStyles;
pub use style_trait::UNIT;

verus! {

/// A squircle: its styles, set by chaining and read when it is rendered.
#[derive(Debug)]
pub struct Squircle {
    squircle_styles: SquircleStyles,
}

impl SquircleStylable for Squircle {
    closed spec fn styles(&self) -> SquircleStyles {
        self.squircle_styles
    }

    fn get_squircle_styles_mut(&mut self) -> (styles: &mut SquircleStyles) {
        &mut self.squircle_styles
    }
}

impl Squircle {
    pub fn new() -> (element: Squircle)
        ensures
            element.styles() == style_trait::unset(),
    {
        Squircle { squircle_styles: SquircleStyles::default() }
    }

    /// The styles as they stand.
    pub fn get_squircle_styles(&self) -> (styles: &SquircleStyles)
        ensures
            *styles == self.styles(),
    {
        &self.squircle_styles
    }
}

/// A squircle with no style set.
pub fn squircle() -> (element: Squircle)
    ensures
        element.styles() == style_trait::unset(),
{
    Squircle::new()
}

} // verus!
