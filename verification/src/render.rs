//! The render pass: which outlines a squircle needs, and what is painted
//! once they have come back from the generator and the parser.
//!
//! A pass has two halves. `outline_requests` says which outlines to
//! generate; `render` takes them parsed and hands back the paths to paint.
//! Neither keeps anything from one pass to the next.

use crate::geometry::border_offset;
use crate::geometry::BorderOffset;
use crate::geometry::Bounds;
use crate::outline::inset_outline;
use crate::outline::resolved_border_mode;
use crate::outline::Outline;
use crate::outline::OutlineGeometry;
use crate::outline::OutlineRequest;
use crate::outline::PathEvent;
use crate::path::build_and_paint_paths;
use crate::path::fill_request;
use crate::path::painted_paths;
use crate::path::replayed;
use crate::path::stroke_request;
use crate::path::submitted_paths;
use crate::path::walked;
use crate::path::BuildAndPaintOptions;
use crate::path::PaintedPath;
use crate::path::Submission;
use crate::style_trait::Paint;
use crate::style_trait::SquircleStylable;
use crate::style_trait::SquircleStyles;
use crate::Squircle;
use vstd::prelude::*;

verus! {

/// One walk of an outline, as planned: the offset that the outline is
/// inset by, and the paint operations that share it.
pub struct WalkPlan {
    pub border_offset: int,
    pub requests: Seq<PaintedPath>,
}

/// One walk of an outline, ready to run.
#[derive(Debug)]
pub struct OutlineWalk {
    pub border_offset: BorderOffset,
    pub options: Vec<BuildAndPaintOptions>,
}

impl View for OutlineWalk {
    type V = WalkPlan;

    open spec fn view(&self) -> WalkPlan {
        WalkPlan { border_offset: self.border_offset@, requests: painted_paths(self.options@) }
    }
}

/// What a run of walks stands for.
pub open spec fn walk_plans(walks: Seq<OutlineWalk>) -> Seq<WalkPlan> {
    walks.map_values(|walk: OutlineWalk| walk@)
}

/// The border of the styles: its width and paint. There is a border only
/// where both are set.
pub open spec fn border_of(styles: SquircleStyles) -> Option<(i32, Paint)> {
    match (styles.border_width, styles.border_color) {
        (Some(width), Some(color)) => Some((width, color)),
        _ => None,
    }
}

/// The offset of the styles' border; zero where there is no border.
pub open spec fn stroke_offset(styles: SquircleStyles) -> int {
    match border_of(styles) {
        Some((width, _)) => border_offset(resolved_border_mode(styles), width as int),
        None => 0,
    }
}

/// The walks that the styles call for, in the order they are run.
///
/// A fill alone is one walk at offset zero. A border alone is one walk at
/// the border's offset. A fill with a border whose offset is zero is one
/// walk that fill and stroke share; with any other offset the fill is
/// walked at zero and the stroke at the border's offset. With neither
/// there is nothing to walk.
pub open spec fn planned_walks(styles: SquircleStyles) -> Seq<WalkPlan> {
    match (styles.bg, border_of(styles)) {
        (Some(bg), None) => seq![WalkPlan { border_offset: 0, requests: seq![fill_request(bg)] }],
        (Some(bg), Some((width, color))) => if stroke_offset(styles) == 0 {
            seq![
                WalkPlan {
                    border_offset: 0,
                    requests: seq![fill_request(bg), stroke_request(color, width)],
                },
            ]
        } else {
            seq![
                WalkPlan { border_offset: 0, requests: seq![fill_request(bg)] },
                WalkPlan {
                    border_offset: stroke_offset(styles),
                    requests: seq![stroke_request(color, width)],
                },
            ]
        },
        (None, Some((width, color))) => seq![
            WalkPlan {
                border_offset: stroke_offset(styles),
                requests: seq![stroke_request(color, width)],
            },
        ],
        (None, None) => Seq::empty(),
    }
}

/// The outlines to generate for `bounds`: one for each planned walk, in
/// the same order.
pub open spec fn requested_outlines(styles: SquircleStyles, bounds: Bounds) -> Seq<
    OutlineGeometry,
> {
    planned_walks(styles).map_values(
        |walk: WalkPlan| inset_outline(styles, bounds, walk.border_offset),
    )
}

/// What a run of outline requests stands for.
pub open spec fn outline_geometries(requests: Seq<OutlineRequest>) -> Seq<OutlineGeometry> {
    requests.map_values(|request: OutlineRequest| request@)
}

/// The commands of the outline for walk `index`, if that outline is there
/// and was parsed.
pub open spec fn outline_at(outlines: Seq<Option<Outline>>, index: int) -> Option<Seq<PathEvent>> {
    if 0 <= index < outlines.len() {
        match outlines[index] {
            Some(outline) => Some(outline@),
            None => None,
        }
    } else {
        None
    }
}

/// The outcome of a render pass: the paths to paint, in order, and the
/// walks that painted nothing because their outline had not been parsed,
/// by index and in rising order.
pub struct Rendering {
    pub submissions: Seq<PaintedPath>,
    pub malformed: Seq<int>,
}

/// The outcome of running `walks` in order, walk `i` with outline `i`.
/// A walk whose outline is missing paints nothing and is reported by its
/// index; the other walks are not affected.
pub open spec fn rendered_walks(
    walks: Seq<WalkPlan>,
    bounds: Bounds,
    outlines: Seq<Option<Outline>>,
) -> Rendering
    decreases walks.len(),
{
    if walks.len() == 0 {
        Rendering { submissions: Seq::empty(), malformed: Seq::empty() }
    } else {
        let before = rendered_walks(walks.drop_last(), bounds, outlines);
        let walk = walks.last();
        match outline_at(outlines, walks.len() - 1) {
            Some(events) => Rendering {
                submissions: before.submissions + walked(
                    walk.requests,
                    replayed(events, bounds, walk.border_offset),
                ),
                malformed: before.malformed,
            },
            None => Rendering {
                submissions: before.submissions,
                malformed: before.malformed.push(walks.len() - 1),
            },
        }
    }
}

/// The outcome of rendering the styles into `bounds` with the given
/// outlines.
pub open spec fn rendered(
    styles: SquircleStyles,
    bounds: Bounds,
    outlines: Seq<Option<Outline>>,
) -> Rendering {
    rendered_walks(planned_walks(styles), bounds, outlines)
}

/// The outcome of a render pass.
#[derive(Debug)]
pub struct RenderReport {
    /// The paths to hand to the rasterizer, in order.
    pub submissions: Vec<Submission>,
    /// The outline requests, by index, whose outline had not been parsed
    /// and whose walk therefore painted nothing.
    pub malformed: Vec<usize>,
}

impl View for RenderReport {
    type V = Rendering;

    open spec fn view(&self) -> Rendering {
        Rendering {
            submissions: submitted_paths(self.submissions@),
            malformed: index_values(self.malformed@),
        }
    }
}

/// The indices below `count` that `finalized` marks, in rising order. An
/// index that `finalized` does not reach is not marked.
pub open spec fn finalized_indices(count: nat, finalized: Seq<bool>) -> Seq<int>
    decreases count,
{
    if count == 0 {
        Seq::empty()
    } else {
        let index = count - 1;
        let before = finalized_indices(index as nat, finalized);
        if index < finalized.len() && finalized[index] {
            before.push(index)
        } else {
            before
        }
    }
}

/// What a run of indices stands for.
pub open spec fn index_values(indices: Seq<usize>) -> Seq<int> {
    indices.map_values(|index: usize| index as int)
}

/// Running the first `upto` walks is running the first `upto - 1` and
/// then the last of them.
proof fn lemma_rendered_step(
    walks: Seq<WalkPlan>,
    upto: int,
    bounds: Bounds,
    outlines: Seq<Option<Outline>>,
)
    requires
        0 < upto <= walks.len(),
    ensures
        rendered_walks(walks.take(upto), bounds, outlines) == ({
            let before = rendered_walks(walks.take(upto - 1), bounds, outlines);
            let walk = walks[upto - 1];
            match outline_at(outlines, upto - 1) {
                Some(events) => Rendering {
                    submissions: before.submissions + walked(
                        walk.requests,
                        replayed(events, bounds, walk.border_offset),
                    ),
                    malformed: before.malformed,
                },
                None => Rendering {
                    submissions: before.submissions,
                    malformed: before.malformed.push(upto - 1),
                },
            }
        }),
{
    assert(walks.take(upto).drop_last() =~= walks.take(upto - 1));
}

impl Squircle {
    /// The walks that this squircle's styles call for, each with fresh
    /// builders.
    pub fn outline_walks(&self) -> (walks: Vec<OutlineWalk>)
        ensures
            walk_plans(walks@) == planned_walks(self.styles()),
    {
        let styles = self.get_squircle_styles();
        let border = match (styles.border_width, styles.border_color) {
            (Some(width), Some(color)) => Some((width, color)),
            _ => None,
        };
        let mut walks: Vec<OutlineWalk> = Vec::new();

        match (styles.bg, border) {
            (Some(bg), None) => {
                let mut options: Vec<BuildAndPaintOptions> = Vec::new();
                options.push(BuildAndPaintOptions::fill(bg));
                assert(painted_paths(options@) =~= seq![fill_request(bg)]);
                walks.push(OutlineWalk { border_offset: BorderOffset::zero(), options });
            },
            (Some(bg), Some((border_width, border_color))) => {
                let border_offset = self.get_border_offset(border_width);

                if border_offset.is_zero() {
                    // Fill and stroke have the same outline: one walk serves both.
                    let mut options: Vec<BuildAndPaintOptions> = Vec::new();
                    options.push(BuildAndPaintOptions::fill(bg));
                    options.push(BuildAndPaintOptions::stroke(border_color, border_width));
                    assert(painted_paths(options@) =~= seq![
                        fill_request(bg),
                        stroke_request(border_color, border_width),
                    ]);
                    walks.push(OutlineWalk { border_offset: BorderOffset::zero(), options });
                } else {
                    // The stroke's outline differs in size and radii: two walks.
                    let mut fill: Vec<BuildAndPaintOptions> = Vec::new();
                    fill.push(BuildAndPaintOptions::fill(bg));
                    assert(painted_paths(fill@) =~= seq![fill_request(bg)]);
                    walks.push(OutlineWalk { border_offset: BorderOffset::zero(), options: fill });

                    let mut stroke: Vec<BuildAndPaintOptions> = Vec::new();
                    stroke.push(BuildAndPaintOptions::stroke(border_color, border_width));
                    assert(painted_paths(stroke@) =~= seq![
                        stroke_request(border_color, border_width),
                    ]);
                    walks.push(OutlineWalk { border_offset, options: stroke });
                }
            },
            (None, Some((border_width, border_color))) => {
                let border_offset = self.get_border_offset(border_width);
                let mut options: Vec<BuildAndPaintOptions> = Vec::new();
                options.push(BuildAndPaintOptions::stroke(border_color, border_width));
                assert(painted_paths(options@) =~= seq![
                    stroke_request(border_color, border_width),
                ]);
                walks.push(OutlineWalk { border_offset, options });
            },
            (None, None) => {},
        }
        walks
    }

    /// The outlines to have generated and parsed before `render` is
    /// called for `bounds`, in the order `render` expects them.
    pub fn outline_requests(&self, bounds: Bounds) -> (requests: Vec<OutlineRequest>)
        ensures
            outline_geometries(requests@) == requested_outlines(self.styles(), bounds),
    {
        let walks = self.outline_walks();
        let ghost plans = planned_walks(self.styles());
        let mut requests: Vec<OutlineRequest> = Vec::new();
        let mut i: usize = 0;
        while i < walks.len()
            invariant
                i <= walks.len(),
                walk_plans(walks@) == plans,
                plans == planned_walks(self.styles()),
                requests@.len() == i,
                forall|j: int|
                    0 <= j < i ==> (#[trigger] requests@[j])@ == inset_outline(
                        self.styles(),
                        bounds,
                        plans[j].border_offset,
                    ),
            decreases walks.len() - i,
        {
            requests.push(self.outline_request(bounds, &walks[i].border_offset));
            i = i + 1;
        }
        requests
    }

    /// Renders this squircle into `bounds`.
    ///
    /// `outlines[i]` is the parsed outline for request `i` of
    /// `outline_requests(bounds)`, or `None` if the generator's answer could
    /// not be parsed; an outline that is not there at all counts as
    /// unparsed too. Each walk replays its outline into the paths that
    /// share it. A walk without an outline submits nothing and is named in
    /// `malformed`; no failure stops the pass.
    pub fn render(&self, bounds: Bounds, outlines: &Vec<Option<Outline>>) -> (report: RenderReport)
        ensures
            report@ == rendered(self.styles(), bounds, outlines@),
    {
        let walks = self.outline_walks();
        let ghost plans = planned_walks(self.styles());
        let ghost count = walks@.len();
        let mut submissions: Vec<Submission> = Vec::new();
        let mut malformed: Vec<usize> = Vec::new();
        let mut i: usize = 0;

        assert(plans.take(0) =~= Seq::<WalkPlan>::empty());
        assert(submitted_paths(submissions@) =~= Seq::<PaintedPath>::empty());
        assert(index_values(malformed@) =~= Seq::<int>::empty());
        for walk in it: walks
            invariant
                walk_plans(it.seq()) == plans,
                it.seq().len() == count,
                count <= usize::MAX,
                i == it.index(),
                (Rendering {
                    submissions: submitted_paths(submissions@),
                    malformed: index_values(malformed@),
                }) == rendered_walks(plans.take(i as int), bounds, outlines@),
        {
            proof {
                lemma_rendered_step(plans, i + 1, bounds, outlines@);
            }
            let outline = if i < outlines.len() {
                outlines[i].as_ref()
            } else {
                None
            };
            let ghost before = submitted_paths(submissions@);
            match build_and_paint_paths(bounds, &walk.border_offset, outline, walk.options) {
                Some(painted) => {
                    let mut painted = painted;
                    let ghost added = submitted_paths(painted@);
                    submissions.append(&mut painted);
                    assert(submitted_paths(submissions@) =~= before + added);
                },
                None => {
                    let ghost failed = index_values(malformed@);
                    malformed.push(i);
                    assert(index_values(malformed@) =~= failed.push(i as int));
                },
            }
            i = i + 1;
        }
        assert(plans.take(i as int) =~= plans);
        RenderReport { submissions, malformed }
    }
}

impl RenderReport {
    /// Which submissions reach the surface, by index and in order, once
    /// the rasterizer has tried to finalize each path: `finalized[i]` says
    /// whether it could finalize the path of submission `i`. A path that
    /// could not be finalized is skipped; the others are painted all the
    /// same.
    pub fn paintable(&self, finalized: &Vec<bool>) -> (indices: Vec<usize>)
        ensures
            index_values(indices@) == finalized_indices(
                self.submissions@.len(),
                finalized@,
            ),
    {
        let count: usize = self.submissions.len();
        let mut indices: Vec<usize> = Vec::new();
        let mut i: usize = 0;
        while i < count
            invariant
                i <= count,
                index_values(indices@) == finalized_indices(i as nat, finalized@),
            decreases count - i,
        {
            if i < finalized.len() && finalized[i] {
                indices.push(i);
            }
            i = i + 1;
        }
        indices
    }
}

} // verus!
