//! What holds of every squircle, stated over the models that the
//! functions' contracts use.

use crate::geometry::border_offset;
use crate::geometry::Bounds;
use crate::outline::has_radius;
use crate::outline::inset_outline;
use crate::outline::resolved_border_mode;
use crate::outline::Corner;
use crate::outline::Outline;
use crate::path::fill_request;
use crate::path::replayed;
use crate::path::stroke_request;
use crate::path::walked;
use crate::path::PaintedPath;
use crate::path::PlaneSegment;
use crate::render::border_of;
use crate::render::finalized_indices;
use crate::render::outline_at;
use crate::render::planned_walks;
use crate::render::rendered;
use crate::render::rendered_walks;
use crate::render::requested_outlines;
use crate::render::stroke_offset;
use crate::render::Rendering;
use crate::render::WalkPlan;
use crate::style_trait::clamped_smoothing;
use crate::style_trait::merged;
use crate::style_trait::unset;
use crate::style_trait::BorderMode;
use crate::style_trait::SquircleStyles;
use crate::style_trait::UNIT;
use vstd::prelude::*;

verus! {

/// A fill without a border is walked once, at offset zero, and the walk
/// has one paint operation: the fill. If its outline was parsed, exactly
/// that one path is submitted; if not, nothing is, and the one walk is
/// reported.
pub proof fn lemma_fill_alone(
    styles: SquircleStyles,
    bounds: Bounds,
    outlines: Seq<Option<Outline>>,
)
    requires
        styles.bg is Some,
        border_of(styles) is None,
    ensures
        planned_walks(styles) == seq![
            WalkPlan { border_offset: 0, requests: seq![fill_request(styles.bg.unwrap())] },
        ],
        outline_at(outlines, 0) is Some ==> rendered(styles, bounds, outlines) == (Rendering {
            submissions: seq![
                fill_request(styles.bg.unwrap()).extended(
                    replayed(outline_at(outlines, 0).unwrap(), bounds, 0),
                ),
            ],
            malformed: Seq::empty(),
        }),
        outline_at(outlines, 0) is None ==> rendered(styles, bounds, outlines) == (Rendering {
            submissions: Seq::empty(),
            malformed: seq![0int],
        }),
{
    let walks = planned_walks(styles);
    let before = rendered_walks(walks.drop_last(), bounds, outlines);
    if outline_at(outlines, 0) is Some {
        let trace = replayed(outline_at(outlines, 0).unwrap(), bounds, 0);
        assert(before.submissions + walked(walks[0].requests, trace) =~= seq![
            fill_request(styles.bg.unwrap()).extended(trace),
        ]);
    }
}

/// A fill with a border centred on the edge is walked once, at offset
/// zero, and fill and stroke share the walk. If the outline was parsed,
/// two paths are submitted, the fill and then the stroke, and both hold
/// the same steps.
pub proof fn lemma_centered_border_shares_the_walk(
    styles: SquircleStyles,
    bounds: Bounds,
    outlines: Seq<Option<Outline>>,
)
    requires
        styles.bg is Some,
        border_of(styles) is Some,
        resolved_border_mode(styles) == BorderMode::Center,
    ensures
        planned_walks(styles) == seq![
            WalkPlan {
                border_offset: 0,
                requests: seq![
                    fill_request(styles.bg.unwrap()),
                    stroke_request(styles.border_color.unwrap(), styles.border_width.unwrap()),
                ],
            },
        ],
        outline_at(outlines, 0) is Some ==> ({
            let trace = replayed(outline_at(outlines, 0).unwrap(), bounds, 0);
            let painted = rendered(styles, bounds, outlines);
            &&& painted.malformed.len() == 0
            &&& painted.submissions.len() == 2
            &&& painted.submissions[0] == fill_request(styles.bg.unwrap()).extended(trace)
            &&& painted.submissions[1] == stroke_request(
                styles.border_color.unwrap(),
                styles.border_width.unwrap(),
            ).extended(trace)
            &&& painted.submissions[0].segments == painted.submissions[1].segments
        }),
{
    let walks = planned_walks(styles);
    if outline_at(outlines, 0) is Some {
        let trace = replayed(outline_at(outlines, 0).unwrap(), bounds, 0);
        let before = rendered_walks(walks.drop_last(), bounds, outlines);
        assert(before.submissions + walked(walks[0].requests, trace) =~= walked(
            walks[0].requests,
            trace,
        ));
    }
}

/// A fill with a border inside or outside the edge, of a width other
/// than zero, is walked twice: the fill at offset zero, then the stroke at
/// the border's offset, which is not zero. Two outlines are asked for, the
/// stroke's with both sides shrunk by the offset, and in it a corner that
/// has a radius, its own or the one for all corners, ends up with the
/// radius it has in the fill's outline less the offset.
pub proof fn lemma_offset_border_walks_twice(
    styles: SquircleStyles,
    bounds: Bounds,
    corner: Corner,
)
    requires
        styles.bg is Some,
        border_of(styles) is Some,
        resolved_border_mode(styles) != BorderMode::Center,
        styles.border_width.unwrap() != 0,
    ensures
        stroke_offset(styles) != 0,
        stroke_offset(styles) == border_offset(
            resolved_border_mode(styles),
            styles.border_width.unwrap() as int,
        ),
        planned_walks(styles) == seq![
            WalkPlan { border_offset: 0, requests: seq![fill_request(styles.bg.unwrap())] },
            WalkPlan {
                border_offset: stroke_offset(styles),
                requests: seq![
                    stroke_request(styles.border_color.unwrap(), styles.border_width.unwrap()),
                ],
            },
        ],
        requested_outlines(styles, bounds) == seq![
            inset_outline(styles, bounds, 0),
            inset_outline(styles, bounds, stroke_offset(styles)),
        ],
        requested_outlines(styles, bounds)[1].width == requested_outlines(styles, bounds)[0].width
            - stroke_offset(styles),
        requested_outlines(styles, bounds)[1].height == requested_outlines(
            styles,
            bounds,
        )[0].height - stroke_offset(styles),
        has_radius(styles, corner) ==> requested_outlines(styles, bounds)[1].radius(corner)
            == requested_outlines(styles, bounds)[0].radius(corner) - stroke_offset(styles),
{
    assert(requested_outlines(styles, bounds) =~= seq![
        inset_outline(styles, bounds, 0),
        inset_outline(styles, bounds, stroke_offset(styles)),
    ]);
    lemma_inset_shrinks_radii(styles, bounds, stroke_offset(styles), corner);
}

/// In an outline inset by an offset, both sides are shorter by the
/// offset, and a corner that has a radius ends up with that radius less
/// the offset. A corner without any radius ends up with zero, whatever the
/// offset.
pub proof fn lemma_inset_shrinks_radii(
    styles: SquircleStyles,
    bounds: Bounds,
    border_offset: int,
    corner: Corner,
)
    ensures
        inset_outline(styles, bounds, border_offset).width == bounds.width - border_offset,
        inset_outline(styles, bounds, border_offset).height == bounds.height - border_offset,
        has_radius(styles, corner) ==> inset_outline(styles, bounds, border_offset).radius(corner)
            == inset_outline(styles, bounds, 0).radius(corner) - border_offset,
        !has_radius(styles, corner) ==> inset_outline(styles, bounds, border_offset).radius(corner)
            == 0,
{
}

/// Rendering keeps nothing between passes: with the same styles, the
/// same rectangle and outlines that hold the same commands, a second pass
/// asks for the same outlines and submits the same paths as the first.
pub proof fn lemma_render_is_repeatable(
    styles: SquircleStyles,
    bounds: Bounds,
    first: Seq<Option<Outline>>,
    second: Seq<Option<Outline>>,
)
    requires
        forall|i: int| outline_at(first, i) == outline_at(second, i),
    ensures
        rendered(styles, bounds, first) == rendered(styles, bounds, second),
{
    lemma_walks_are_repeatable(planned_walks(styles), bounds, first, second);
}

/// Running the same walks over outlines that hold the same commands has
/// the same outcome.
pub proof fn lemma_walks_are_repeatable(
    walks: Seq<WalkPlan>,
    bounds: Bounds,
    first: Seq<Option<Outline>>,
    second: Seq<Option<Outline>>,
)
    requires
        forall|i: int| outline_at(first, i) == outline_at(second, i),
    ensures
        rendered_walks(walks, bounds, first) == rendered_walks(walks, bounds, second),
    decreases walks.len(),
{
    if walks.len() > 0 {
        lemma_walks_are_repeatable(walks.drop_last(), bounds, first, second);
    }
}

/// A pass reports exactly the walks that got no outline, each once and
/// in rising order. Where every walk got its outline, none is reported;
/// where none did, nothing is submitted.
pub proof fn lemma_every_failed_walk_is_reported(
    walks: Seq<WalkPlan>,
    bounds: Bounds,
    outlines: Seq<Option<Outline>>,
)
    ensures
        rendered_walks(walks, bounds, outlines).malformed.len() <= walks.len(),
        forall|k: int|
            0 <= k < rendered_walks(walks, bounds, outlines).malformed.len() ==> {
                let index = #[trigger] rendered_walks(walks, bounds, outlines).malformed[k];
                0 <= index < walks.len() && outline_at(outlines, index) is None
            },
        forall|j: int, k: int|
            0 <= j < k < rendered_walks(walks, bounds, outlines).malformed.len()
                ==> rendered_walks(walks, bounds, outlines).malformed[j] < rendered_walks(
                walks,
                bounds,
                outlines,
            ).malformed[k],
        forall|index: int|
            0 <= index < walks.len() && outline_at(outlines, index) is None ==> rendered_walks(
                walks,
                bounds,
                outlines,
            ).malformed.contains(index),
        (forall|i: int| 0 <= i < walks.len() ==> outline_at(outlines, i) is Some)
            ==> rendered_walks(walks, bounds, outlines).malformed.len() == 0,
        (forall|i: int| 0 <= i < walks.len() ==> outline_at(outlines, i) is None)
            ==> rendered_walks(walks, bounds, outlines).submissions.len() == 0,
    decreases walks.len(),
{
    if walks.len() > 0 {
        let last = walks.len() - 1;
        let before = rendered_walks(walks.drop_last(), bounds, outlines).malformed;
        let now = rendered_walks(walks, bounds, outlines).malformed;
        lemma_every_failed_walk_is_reported(walks.drop_last(), bounds, outlines);
        assert forall|index: int|
            0 <= index < walks.len() && outline_at(outlines, index) is None implies now.contains(
            index,
        ) by {
            if index < last {
                assert(before.contains(index));
                let k = choose|k: int| 0 <= k < before.len() && before[k] == index;
                assert(now[k] == index);
            } else {
                assert(now[now.len() - 1] == index);
            }
        }
    }
}

/// Every path of one walk receives the same steps: each is what it was
/// before the walk, and then the trace of the outline.
pub proof fn lemma_walk_gives_every_path_the_trace(
    requests: Seq<PaintedPath>,
    trace: Seq<PlaneSegment>,
    index: int,
)
    requires
        0 <= index < requests.len(),
    ensures
        walked(requests, trace).len() == requests.len(),
        walked(requests, trace)[index].segments == requests[index].segments + trace,
        walked(requests, trace)[index].style == requests[index].style,
        walked(requests, trace)[index].background == requests[index].background,
{
}

/// Merging is field-wise: styles that set nothing but the radius for all
/// corners change that radius of the target and leave every other field
/// as it was.
pub proof fn lemma_merge_overrides_only_what_is_set(
    source: SquircleStyles,
    target: SquircleStyles,
)
    requires
        source.corner_radius is Some,
        source == (SquircleStyles { corner_radius: source.corner_radius, ..unset() }),
    ensures
        merged(source, target) == (SquircleStyles {
            corner_radius: source.corner_radius,
            ..target
        }),
{
}

/// Merging styles that set nothing changes nothing, and merging the same
/// styles a second time changes nothing more.
pub proof fn lemma_merge_unset_and_twice(source: SquircleStyles, target: SquircleStyles)
    ensures
        merged(unset(), target) == target,
        merged(source, unset()) == source,
        merged(source, merged(source, target)) == merged(source, target),
{
}

/// A stored smoothing factor lies between zero and one: what is written
/// below zero is stored as zero, what is written above one as one, and
/// anything between as it is.
pub proof fn lemma_smoothing_is_clamped(smoothing: int)
    ensures
        0 <= clamped_smoothing(smoothing) <= UNIT,
        smoothing < 0 ==> clamped_smoothing(smoothing) == 0,
        smoothing > UNIT ==> clamped_smoothing(smoothing) == UNIT,
        0 <= smoothing <= UNIT ==> clamped_smoothing(smoothing) == smoothing,
{
}

/// The submissions that are painted are exactly those whose path could
/// be finalized, each once and in rising order.
pub proof fn lemma_finalized_indices(count: nat, finalized: Seq<bool>)
    ensures
        forall|k: int|
            0 <= k < finalized_indices(count, finalized).len() ==> {
                let index = #[trigger] finalized_indices(count, finalized)[k];
                0 <= index < count && index < finalized.len() && finalized[index]
            },
        forall|j: int, k: int|
            0 <= j < k < finalized_indices(count, finalized).len() ==> finalized_indices(
                count,
                finalized,
            )[j] < finalized_indices(count, finalized)[k],
        forall|index: int|
            0 <= index < count && index < finalized.len() && finalized[index]
                ==> finalized_indices(count, finalized).contains(index),
    decreases count,
{
    if count > 0 {
        let last = (count - 1) as int;
        let before = finalized_indices(last as nat, finalized);
        lemma_finalized_indices(last as nat, finalized);
        let now = finalized_indices(count, finalized);
        assert forall|index: int|
            0 <= index < count && index < finalized.len() && finalized[index] implies now.contains(
            index,
        ) by {
            if index < last {
                let k = choose|k: int| 0 <= k < before.len() && before[k] == index;
                assert(now[k] == index);
            } else {
                assert(now[now.len() - 1] == index);
            }
        }
    }
}

} // verus!
