//! Path builders, and the replay of one outline into all the builders that
//! share it.

use crate::geometry::surface_point;
use crate::geometry::BorderOffset;
use crate::geometry::Bounds;
use crate::geometry::PlanePoint;
use crate::geometry::SurfacePoint;
use crate::outline::Outline;
use crate::outline::PathEvent;
use crate::style_trait::Paint;
use vstd::prelude::*;

verus! {

/// Whether a path is to be filled or stroked, and how wide the stroke is.
#[derive(Clone, Copy, Debug, PartialEq, Eq, Structural)]
pub enum PathStyle {
    Fill,
    Stroke { width: i32 },
}

/// One step of a path on the surface.
#[derive(Clone, Copy, Debug, PartialEq, Eq, Structural)]
pub enum Segment {
    /// Starts a new subpath.
    MoveTo { to: SurfacePoint },
    /// A straight segment.
    LineTo { to: SurfacePoint },
    /// A quadratic curve.
    CurveTo { to: SurfacePoint, ctrl: SurfacePoint },
    /// A cubic curve.
    CubicBezierTo { to: SurfacePoint, control_a: SurfacePoint, control_b: SurfacePoint },
    /// Joins the current subpath back to its start.
    Close,
}

/// One step of a path in the plane.
pub enum PlaneSegment {
    MoveTo { to: PlanePoint },
    LineTo { to: PlanePoint },
    CurveTo { to: PlanePoint, ctrl: PlanePoint },
    CubicBezierTo { to: PlanePoint, control_a: PlanePoint, control_b: PlanePoint },
    Close,
}

impl View for Segment {
    type V = PlaneSegment;

    open spec fn view(&self) -> PlaneSegment {
        match *self {
            Segment::MoveTo { to } => PlaneSegment::MoveTo { to: to@ },
            Segment::LineTo { to } => PlaneSegment::LineTo { to: to@ },
            Segment::CurveTo { to, ctrl } => PlaneSegment::CurveTo { to: to@, ctrl: ctrl@ },
            Segment::CubicBezierTo { to, control_a, control_b } => PlaneSegment::CubicBezierTo {
                to: to@,
                control_a: control_a@,
                control_b: control_b@,
            },
            Segment::Close => PlaneSegment::Close,
        }
    }
}

/// The steps in the plane that a run of segments stands for.
pub open spec fn plane_segments(segments: Seq<Segment>) -> Seq<PlaneSegment> {
    segments.map_values(|segment: Segment| segment@)
}

/// A path with its paint: what a builder has gathered, or what is handed
/// to the rasterizer.
pub struct PaintedPath {
    pub style: PathStyle,
    pub segments: Seq<PlaneSegment>,
    pub background: Paint,
}

impl PaintedPath {
    /// This path with `trace` appended.
    pub open spec fn extended(self, trace: Seq<PlaneSegment>) -> PaintedPath {
        PaintedPath { segments: self.segments + trace, ..self }
    }
}

/// Gathers the steps of one path.
#[derive(Clone, Debug, PartialEq, Eq)]
pub struct PathBuilder {
    style: PathStyle,
    segments: Vec<Segment>,
}

/// A finished path.
#[derive(Clone, Debug, PartialEq, Eq)]
pub struct Path {
    pub style: PathStyle,
    pub segments: Vec<Segment>,
}

/// The step that one outline command adds to a path, for an outline of
/// `bounds` inset by `border_offset`: the command with every point moved to
/// where it lies on the surface. An end closes the subpath or, if it does
/// not, adds nothing.
pub open spec fn step_of(event: PathEvent, bounds: Bounds, border_offset: int) -> Option<
    PlaneSegment,
> {
    match event {
        PathEvent::Begin { at } => Some(
            PlaneSegment::MoveTo { to: surface_point(bounds, border_offset, at) },
        ),
        PathEvent::Line { to } => Some(
            PlaneSegment::LineTo { to: surface_point(bounds, border_offset, to) },
        ),
        PathEvent::Quadratic { ctrl, to } => Some(
            PlaneSegment::CurveTo {
                to: surface_point(bounds, border_offset, to),
                ctrl: surface_point(bounds, border_offset, ctrl),
            },
        ),
        PathEvent::Cubic { ctrl1, ctrl2, to } => Some(
            PlaneSegment::CubicBezierTo {
                to: surface_point(bounds, border_offset, to),
                control_a: surface_point(bounds, border_offset, ctrl1),
                control_b: surface_point(bounds, border_offset, ctrl2),
            },
        ),
        PathEvent::End { close } => if close {
            Some(PlaneSegment::Close)
        } else {
            None
        },
    }
}

/// The steps that one outline command adds to a path: one, or none.
pub open spec fn segments_of(event: PathEvent, bounds: Bounds, border_offset: int) -> Seq<
    PlaneSegment,
> {
    match step_of(event, bounds, border_offset) {
        Some(step) => seq![step],
        None => Seq::empty(),
    }
}

/// What an optional segment stands for.
pub open spec fn plane_step(step: Option<Segment>) -> Option<PlaneSegment> {
    match step {
        Some(segment) => Some(segment@),
        None => None,
    }
}

/// The steps that a whole outline adds to a path: those of each command,
/// in order.
pub open spec fn replayed(events: Seq<PathEvent>, bounds: Bounds, border_offset: int) -> Seq<
    PlaneSegment,
>
    decreases events.len(),
{
    if events.len() == 0 {
        Seq::empty()
    } else {
        replayed(events.drop_last(), bounds, border_offset) + segments_of(
            events.last(),
            bounds,
            border_offset,
        )
    }
}

impl PathBuilder {
    pub closed spec fn style(&self) -> PathStyle {
        self.style
    }

    pub closed spec fn segments(&self) -> Seq<PlaneSegment> {
        plane_segments(self.segments@)
    }

    /// A builder of a path to fill, with no step yet.
    pub fn fill() -> (builder: PathBuilder)
        ensures
            builder.style() == PathStyle::Fill,
            builder.segments() == Seq::<PlaneSegment>::empty(),
    {
        PathBuilder { style: PathStyle::Fill, segments: Vec::new() }
    }

    /// A builder of a path to stroke `width` wide, with no step yet.
    pub fn stroke(width: i32) -> (builder: PathBuilder)
        ensures
            builder.style() == (PathStyle::Stroke { width }),
            builder.segments() == Seq::<PlaneSegment>::empty(),
    {
        PathBuilder { style: PathStyle::Stroke { width }, segments: Vec::new() }
    }

    /// Adds one step to the path.
    pub fn append(&mut self, segment: Segment)
        ensures
            final(self).style() == old(self).style(),
            final(self).segments() == old(self).segments().push(segment@),
    {
        self.segments.push(segment);
    }

    pub fn move_to(&mut self, to: SurfacePoint)
        ensures
            final(self).style() == old(self).style(),
            final(self).segments() == old(self).segments().push(PlaneSegment::MoveTo { to: to@ }),
    {
        self.append(Segment::MoveTo { to });
    }

    pub fn line_to(&mut self, to: SurfacePoint)
        ensures
            final(self).style() == old(self).style(),
            final(self).segments() == old(self).segments().push(PlaneSegment::LineTo { to: to@ }),
    {
        self.append(Segment::LineTo { to });
    }

    pub fn curve_to(&mut self, to: SurfacePoint, ctrl: SurfacePoint)
        ensures
            final(self).style() == old(self).style(),
            final(self).segments() == old(self).segments().push(
                PlaneSegment::CurveTo { to: to@, ctrl: ctrl@ },
            ),
    {
        self.append(Segment::CurveTo { to, ctrl });
    }

    pub fn cubic_bezier_to(
        &mut self,
        to: SurfacePoint,
        control_a: SurfacePoint,
        control_b: SurfacePoint,
    )
        ensures
            final(self).style() == old(self).style(),
            final(self).segments() == old(self).segments().push(
                PlaneSegment::CubicBezierTo {
                    to: to@,
                    control_a: control_a@,
                    control_b: control_b@,
                },
            ),
    {
        self.append(Segment::CubicBezierTo { to, control_a, control_b });
    }

    pub fn close(&mut self)
        ensures
            final(self).style() == old(self).style(),
            final(self).segments() == old(self).segments().push(PlaneSegment::Close),
    {
        self.append(Segment::Close);
    }

    /// The path gathered so far.
    pub fn build(self) -> (path: Path)
        ensures
            path.style == self.style(),
            plane_segments(path.segments@) == self.segments(),
    {
        Path { style: self.style, segments: self.segments }
    }
}

impl PathEvent {
    /// The step that this command adds to a path, every point moved to
    /// where it lies on the surface.
    pub fn placed(&self, bounds: Bounds, border_offset: &BorderOffset) -> (step: Option<Segment>)
        ensures
            plane_step(step) == step_of(*self, bounds, border_offset@),
    {
        match *self {
            PathEvent::Begin { at } => {
                let at = border_offset.place(bounds, at);
                Some(Segment::MoveTo { to: at })
            },
            PathEvent::Line { to } => {
                let to = border_offset.place(bounds, to);
                Some(Segment::LineTo { to })
            },
            PathEvent::Quadratic { ctrl, to } => {
                let to = border_offset.place(bounds, to);
                let ctrl = border_offset.place(bounds, ctrl);
                Some(Segment::CurveTo { to, ctrl })
            },
            PathEvent::Cubic { ctrl1, ctrl2, to } => {
                let to = border_offset.place(bounds, to);
                let ctrl1 = border_offset.place(bounds, ctrl1);
                let ctrl2 = border_offset.place(bounds, ctrl2);
                Some(Segment::CubicBezierTo { to, control_a: ctrl1, control_b: ctrl2 })
            },
            PathEvent::End { close } => {
                if close {
                    Some(Segment::Close)
                } else {
                    None
                }
            },
        }
    }
}

/// One paint operation in the making: the builder of its path, and the
/// paint to fill or stroke the path with.
#[derive(Clone, Debug, PartialEq, Eq)]
pub struct BuildAndPaintOptions {
    pub builder: PathBuilder,
    pub background: Paint,
}

impl View for BuildAndPaintOptions {
    type V = PaintedPath;

    open spec fn view(&self) -> PaintedPath {
        PaintedPath {
            style: self.builder.style(),
            segments: self.builder.segments(),
            background: self.background,
        }
    }
}

/// A fill with `background`, its path still empty.
pub open spec fn fill_request(background: Paint) -> PaintedPath {
    PaintedPath { style: PathStyle::Fill, segments: Seq::empty(), background }
}

/// A stroke with `background`, `border_width` wide, its path still empty.
pub open spec fn stroke_request(background: Paint, border_width: i32) -> PaintedPath {
    PaintedPath {
        style: PathStyle::Stroke { width: border_width },
        segments: Seq::empty(),
        background,
    }
}

impl BuildAndPaintOptions {
    pub fn fill(background: Paint) -> (options: BuildAndPaintOptions)
        ensures
            options@ == fill_request(background),
    {
        BuildAndPaintOptions { builder: PathBuilder::fill(), background }
    }

    pub fn stroke(background: Paint, border_width: i32) -> (options: BuildAndPaintOptions)
        ensures
            options@ == stroke_request(background, border_width),
    {
        BuildAndPaintOptions { builder: PathBuilder::stroke(border_width), background }
    }
}

/// A finished path and the paint it is submitted to the rasterizer with.
#[derive(Clone, Debug, PartialEq, Eq)]
pub struct Submission {
    pub path: Path,
    pub background: Paint,
}

impl View for Submission {
    type V = PaintedPath;

    open spec fn view(&self) -> PaintedPath {
        PaintedPath {
            style: self.path.style,
            segments: plane_segments(self.path.segments@),
            background: self.background,
        }
    }
}

/// What a run of paint operations stands for.
pub open spec fn painted_paths(options: Seq<BuildAndPaintOptions>) -> Seq<PaintedPath> {
    options.map_values(|o: BuildAndPaintOptions| o@)
}

/// What a run of submissions stands for.
pub open spec fn submitted_paths(submissions: Seq<Submission>) -> Seq<PaintedPath> {
    submissions.map_values(|s: Submission| s@)
}

/// The paths of one outline walk: every requested path, extended by the
/// same trace.
pub open spec fn walked(requests: Seq<PaintedPath>, trace: Seq<PlaneSegment>) -> Seq<PaintedPath> {
    requests.map_values(|request: PaintedPath| request.extended(trace))
}

/// `events[..upto]` replayed is `events[..upto - 1]` replayed and then
/// the last of them.
proof fn lemma_replayed_step(events: Seq<PathEvent>, upto: int, bounds: Bounds, border_offset: int)
    requires
        0 < upto <= events.len(),
    ensures
        replayed(events.take(upto), bounds, border_offset) == replayed(
            events.take(upto - 1),
            bounds,
            border_offset,
        ) + segments_of(events[upto - 1], bounds, border_offset),
{
    assert(events.take(upto).drop_last() =~= events.take(upto - 1));
}

/// Replays one outline into every paint operation that shares it, and
/// finishes their paths. The outline was generated for `bounds` inset by
/// `border_offset`; each of its points is moved to where it lies on the
/// surface. Every path receives the same steps in the same order.
///
/// An outline that could not be parsed is given as `None`: nothing is
/// painted for it, and `None` is the answer.
pub fn build_and_paint_paths(
    bounds: Bounds,
    border_offset: &BorderOffset,
    outline: Option<&Outline>,
    options: Vec<BuildAndPaintOptions>,
) -> (painted: Option<Vec<Submission>>)
    ensures
        painted is None <==> outline is None,
        outline is Some ==> submitted_paths(painted.unwrap()@) == walked(
            painted_paths(options@),
            replayed(outline.unwrap()@, bounds, border_offset@),
        ),
{
    let path = match outline {
        Some(path) => path,
        None => {
            return None;
        },
    };
    let ghost requests = painted_paths(options@);
    let mut options = options;
    let count: usize = options.len();
    let events: usize = path.events.len();

    let mut i: usize = 0;
    while i < events
        invariant
            i <= events,
            events == path.events@.len(),
            options@.len() == count,
            requests.len() == count,
            painted_paths(options@) =~= walked(
                requests,
                replayed(path@.take(i as int), bounds, border_offset@),
            ),
        decreases events - i,
    {
        let ghost before = replayed(path@.take(i as int), bounds, border_offset@);
        proof {
            lemma_replayed_step(path@, i + 1, bounds, border_offset@);
        }
        assert forall|j: int| 0 <= j < count implies (#[trigger] options@[j])@
            == requests[j].extended(before) by {
            assert(painted_paths(options@)[j] == options@[j]@);
        }

        match path.events[i].placed(bounds, border_offset) {
            Some(segment) => {
                let mut k: usize = 0;
                while k < count
                    invariant
                        k <= count,
                        options@.len() == count,
                        requests.len() == count,
                        forall|j: int|
                            0 <= j < k ==> (#[trigger] options@[j])@ == requests[j].extended(
                                before + seq![segment@],
                            ),
                        forall|j: int|
                            k <= j < count ==> (#[trigger] options@[j])@ == requests[j].extended(
                                before,
                            ),
                    decreases count - k,
                {
                    options[k].builder.append(segment);
                    proof {
                        let request = requests[k as int];
                        assert(request.segments.add(before).push(segment@) =~= request.segments
                            + (before + seq![segment@]));
                    }
                    k = k + 1;
                }
            },
            None => {},
        }
        i = i + 1;
    }
    assert(path@.take(events as int) =~= path@);

    let ghost trace = replayed(path@, bounds, border_offset@);
    let ghost replayed_options = options@;
    assert forall|j: int| 0 <= j < count implies (#[trigger] replayed_options[j])@
        == requests[j].extended(trace) by {
        assert(painted_paths(options@)[j] == options@[j]@);
    }

    let mut submissions: Vec<Submission> = Vec::new();
    for finished in it: options
        invariant
            it.seq() == replayed_options,
            replayed_options.len() == count,
            requests.len() == count,
            forall|j: int|
                0 <= j < count ==> (#[trigger] replayed_options[j])@ == requests[j].extended(
                    trace,
                ),
            submissions@.len() == it.index(),
            forall|j: int|
                0 <= j < it.index() ==> (#[trigger] submissions@[j])@ == requests[j].extended(
                    trace,
                ),
    {
        let background = finished.background;
        submissions.push(Submission { path: finished.builder.build(), background });
    }
    Some(submissions)
}

} // verus!
