//! The style store: the optional fields that describe one squircle, the
//! chainable setters that write them, and the merge of one set of styles
//! onto another.
//!
//! Every number is fixed-point, in whole thousandths: `50_000` is fifty
//! pixels, `1_000` is the factor one.

use crate::Squircle;
use vstd::prelude::*;

verus! {

/// One pixel, and the factor one, in thousandths.
pub const UNIT: i32 = 1000;

/// Where a border sits relative to the nominal edge of the shape.
#[derive(Clone, Copy, Debug, PartialEq, Eq, Structural)]
pub enum BorderMode {
    /// The stroke straddles the edge.
    Center,
    /// The stroke lies wholly outside the edge.
    Outside,
    /// The stroke lies wholly inside the edge.
    Inside,
}

impl Default for BorderMode {
    fn default() -> (mode: BorderMode)
        ensures
            mode == BorderMode::Center,
    {
        BorderMode::Center
    }
}

/// What a path is filled or stroked with: a colour, a gradient, a pattern.
/// The host keeps its paints and names each by a key of its choosing; the
/// engine carries the key from the styles to the submission and never
/// looks behind it.
#[derive(Clone, Copy, Debug, PartialEq, Eq, Structural)]
pub struct Paint {
    pub key: u32,
}

/// The styles of one squircle. An absent field is resolved to its default
/// only when an outline is requested, never on write.
#[derive(Clone, Copy, Debug, PartialEq, Eq)]
pub struct SquircleStyles {
    /// Radius of every corner that has no radius of its own.
    pub corner_radius: Option<i32>,
    pub top_left_corner_radius: Option<i32>,
    pub top_right_corner_radius: Option<i32>,
    pub bottom_right_corner_radius: Option<i32>,
    pub bottom_left_corner_radius: Option<i32>,
    /// Smoothing factor in `0..=UNIT`; `UNIT` when absent.
    pub corner_smoothing: Option<i32>,
    /// `true` when absent.
    pub preserve_smoothing: Option<bool>,
    pub bg: Option<Paint>,
    pub border_width: Option<i32>,
    pub border_color: Option<Paint>,
    /// `BorderMode::Center` when absent.
    pub border_mode: Option<BorderMode>,
}

/// The styles with no field set.
pub open spec fn unset() -> SquircleStyles {
    SquircleStyles {
        corner_radius: None,
        top_left_corner_radius: None,
        top_right_corner_radius: None,
        bottom_right_corner_radius: None,
        bottom_left_corner_radius: None,
        corner_smoothing: None,
        preserve_smoothing: None,
        bg: None,
        border_width: None,
        border_color: None,
        border_mode: None,
    }
}

/// `over` where it is present, else `under`.
pub open spec fn overriding<T>(over: Option<T>, under: Option<T>) -> Option<T> {
    if over is Some {
        over
    } else {
        under
    }
}

/// `source` laid over `target`, field by field: a field that `source` has
/// replaces the target's, a field that it lacks leaves the target's alone.
pub open spec fn merged(source: SquircleStyles, target: SquircleStyles) -> SquircleStyles {
    SquircleStyles {
        corner_radius: overriding(source.corner_radius, target.corner_radius),
        top_left_corner_radius: overriding(
            source.top_left_corner_radius,
            target.top_left_corner_radius,
        ),
        top_right_corner_radius: overriding(
            source.top_right_corner_radius,
            target.top_right_corner_radius,
        ),
        bottom_right_corner_radius: overriding(
            source.bottom_right_corner_radius,
            target.bottom_right_corner_radius,
        ),
        bottom_left_corner_radius: overriding(
            source.bottom_left_corner_radius,
            target.bottom_left_corner_radius,
        ),
        corner_smoothing: overriding(source.corner_smoothing, target.corner_smoothing),
        preserve_smoothing: overriding(source.preserve_smoothing, target.preserve_smoothing),
        bg: overriding(source.bg, target.bg),
        border_width: overriding(source.border_width, target.border_width),
        border_color: overriding(source.border_color, target.border_color),
        border_mode: overriding(source.border_mode, target.border_mode),
    }
}

/// `smoothing` brought into `0..=UNIT`.
pub open spec fn clamped_smoothing(smoothing: int) -> int {
    if smoothing < 0 {
        0
    } else if smoothing > UNIT {
        UNIT as int
    } else {
        smoothing
    }
}

impl Default for SquircleStyles {
    fn default() -> (styles: SquircleStyles)
        ensures
            styles == unset(),
    {
        SquircleStyles {
            corner_radius: None,
            top_left_corner_radius: None,
            top_right_corner_radius: None,
            bottom_right_corner_radius: None,
            bottom_left_corner_radius: None,
            corner_smoothing: None,
            preserve_smoothing: None,
            bg: None,
            border_width: None,
            border_color: None,
            border_mode: None,
        }
    }
}

impl SquircleStyles {
    /// Lays these styles over those of `element`.
    pub fn apply(&self, element: Squircle) -> (styled: Squircle)
        ensures
            styled.styles() == merged(*self, element.styles()),
    {
        let mut element = element;
        let styles = element.get_squircle_styles_mut();

        if let Some(corner_radius) = self.corner_radius {
            styles.corner_radius = Some(corner_radius);
        }
        if let Some(top_left_corner_radius) = self.top_left_corner_radius {
            styles.top_left_corner_radius = Some(top_left_corner_radius);
        }
        if let Some(top_right_corner_radius) = self.top_right_corner_radius {
            styles.top_right_corner_radius = Some(top_right_corner_radius);
        }
        if let Some(bottom_right_corner_radius) = self.bottom_right_corner_radius {
            styles.bottom_right_corner_radius = Some(bottom_right_corner_radius);
        }
        if let Some(bottom_left_corner_radius) = self.bottom_left_corner_radius {
            styles.bottom_left_corner_radius = Some(bottom_left_corner_radius);
        }
        if let Some(corner_smoothing) = self.corner_smoothing {
            styles.corner_smoothing = Some(corner_smoothing);
        }
        if let Some(preserve_smoothing) = self.preserve_smoothing {
            styles.preserve_smoothing = Some(preserve_smoothing);
        }
        if let Some(bg) = self.bg {
            styles.bg = Some(bg);
        }
        if let Some(border_width) = self.border_width {
            styles.border_width = Some(border_width);
        }
        if let Some(border_color) = self.border_color {
            styles.border_color = Some(border_color);
        }
        if let Some(border_mode) = self.border_mode {
            styles.border_mode = Some(border_mode);
        }
        element
    }
}

/// Something that carries squircle styles and can be styled by chaining.
/// An implementor hands out its styles; the setters come with the trait.
/// Each setter writes exactly one field and gives the owner back.
pub trait SquircleStylable: Sized {
    /// The styles that this value carries.
    spec fn styles(&self) -> SquircleStyles;

    fn get_squircle_styles_mut(&mut self) -> (styles: &mut SquircleStyles)
        ensures
            *styles == old(self).styles(),
            final(self).styles() == *final(styles),
    ;

    /// Sets the smoothing factor, clamped into `0..=UNIT`.
    fn rounded_smoothing(self, smoothing: i32) -> (styled: Self)
        ensures
            styled.styles() == (SquircleStyles {
                corner_smoothing: Some(clamped_smoothing(smoothing as int) as i32),
                ..self.styles()
            }),
    {
        let clamped: i32 = if smoothing < 0 {
            0
        } else if smoothing > UNIT {
            UNIT
        } else {
            smoothing
        };
        let mut element = self;
        element.get_squircle_styles_mut().corner_smoothing = Some(clamped);
        element
    }

    /// Sets the radius that corners without one of their own fall back to.
    fn rounded(self, length: i32) -> (styled: Self)
        ensures
            styled.styles() == (SquircleStyles { corner_radius: Some(length), ..self.styles() }),
    {
        let mut element = self;
        element.get_squircle_styles_mut().corner_radius = Some(length);
        element
    }

    fn rounded_tl(self, length: i32) -> (styled: Self)
        ensures
            styled.styles() == (SquircleStyles {
                top_left_corner_radius: Some(length),
                ..self.styles()
            }),
    {
        let mut element = self;
        element.get_squircle_styles_mut().top_left_corner_radius = Some(length);
        element
    }

    fn rounded_tr(self, length: i32) -> (styled: Self)
        ensures
            styled.styles() == (SquircleStyles {
                top_right_corner_radius: Some(length),
                ..self.styles()
            }),
    {
        let mut element = self;
        element.get_squircle_styles_mut().top_right_corner_radius = Some(length);
        element
    }

    fn rounded_bl(self, length: i32) -> (styled: Self)
        ensures
            styled.styles() == (SquircleStyles {
                bottom_left_corner_radius: Some(length),
                ..self.styles()
            }),
    {
        let mut element = self;
        element.get_squircle_styles_mut().bottom_left_corner_radius = Some(length);
        element
    }

    fn rounded_br(self, length: i32) -> (styled: Self)
        ensures
            styled.styles() == (SquircleStyles {
                bottom_right_corner_radius: Some(length),
                ..self.styles()
            }),
    {
        let mut element = self;
        element.get_squircle_styles_mut().bottom_right_corner_radius = Some(length);
        element
    }

    /// Sets the fill.
    fn bg(self, paint: Paint) -> (styled: Self)
        ensures
            styled.styles() == (SquircleStyles { bg: Some(paint), ..self.styles() }),
    {
        let mut element = self;
        element.get_squircle_styles_mut().bg = Some(paint);
        element
    }

    /// Sets the width of the border.
    fn border(self, length: i32) -> (styled: Self)
        ensures
            styled.styles() == (SquircleStyles { border_width: Some(length), ..self.styles() }),
    {
        let mut element = self;
        element.get_squircle_styles_mut().border_width = Some(length);
        element
    }

    fn border_color(self, paint: Paint) -> (styled: Self)
        ensures
            styled.styles() == (SquircleStyles { border_color: Some(paint), ..self.styles() }),
    {
        let mut element = self;
        element.get_squircle_styles_mut().border_color = Some(paint);
        element
    }

    fn border_outside(self) -> (styled: Self)
        ensures
            styled.styles() == (SquircleStyles {
                border_mode: Some(BorderMode::Outside),
                ..self.styles()
            }),
    {
        let mut element = self;
        element.get_squircle_styles_mut().border_mode = Some(BorderMode::Outside);
        element
    }

    fn border_inside(self) -> (styled: Self)
        ensures
            styled.styles() == (SquircleStyles {
                border_mode: Some(BorderMode::Inside),
                ..self.styles()
            }),
    {
        let mut element = self;
        element.get_squircle_styles_mut().border_mode = Some(BorderMode::Inside);
        element
    }

    fn border_center(self) -> (styled: Self)
        ensures
            styled.styles() == (SquircleStyles {
                border_mode: Some(BorderMode::Center),
                ..self.styles()
            }),
    {
        let mut element = self;
        element.get_squircle_styles_mut().border_mode = Some(BorderMode::Center);
        element
    }
}

} // verus!
