use figma_squircle::get_svg_path;
use figma_squircle::FigmaSquircleParams;
use gpui_squircle::squircle;
use gpui_squircle::Bounds;
use gpui_squircle::Outline;
use gpui_squircle::OutlinePoint;
use gpui_squircle::OutlineRequest;
use gpui_squircle::Paint;
use gpui_squircle::PathEvent;
use gpui_squircle::PathStyle;
use gpui_squircle::Segment;
use gpui_squircle::Squircle;
use gpui_squircle::SquircleStylable;
use gpui_squircle::Submission;
use gpui_squircle::SurfacePoint;
use lyon::extra::parser::ParserOptions;
use lyon::extra::parser::PathParser;
use lyon::extra::parser::Source;
use lyon::math::Point;
use lyon::path::Event;
use lyon::path::Path;

const RED: Paint = Paint { key: 1 };
const BLUE: Paint = Paint { key: 2 };

fn pixels(thousandths: i64) -> f32 {
    thousandths as f32 / 1000.0
}

fn thousandths(pixels: f32) -> i32 {
    (pixels * 1000.0).round() as i32
}

fn local(point: Point) -> OutlinePoint {
    OutlinePoint { x: thousandths(point.x), y: thousandths(point.y) }
}

/// Asks the generator for the outline that `request` describes.
fn describe(request: &OutlineRequest) -> String {
    get_svg_path(FigmaSquircleParams {
        width: pixels(request.width),
        height: pixels(request.height),
        corner_radius: request.corner_radius.map(pixels),
        top_left_corner_radius: request.top_left_corner_radius.map(pixels),
        top_right_corner_radius: request.top_right_corner_radius.map(pixels),
        bottom_right_corner_radius: request.bottom_right_corner_radius.map(pixels),
        bottom_left_corner_radius: request.bottom_left_corner_radius.map(pixels),
        corner_smoothing: pixels(request.corner_smoothing as i64),
        preserve_smoothing: request.preserve_smoothing,
    })
}

/// Parses a description into commands, or fails as the parser does.
fn parse(description: &str) -> Option<Outline> {
    let mut builder = Path::builder();
    let parsed = PathParser::new().parse(
        &ParserOptions::DEFAULT,
        &mut Source::new(description.chars()),
        &mut builder,
    );
    if parsed.is_err() {
        return None;
    }
    let mut events = Vec::new();
    for event in builder.build().iter() {
        events.push(match event {
            Event::Begin { at } => PathEvent::Begin { at: local(at) },
            Event::Line { to, .. } => PathEvent::Line { to: local(to) },
            Event::Quadratic { ctrl, to, .. } => {
                PathEvent::Quadratic { ctrl: local(ctrl), to: local(to) }
            }
            Event::Cubic { ctrl1, ctrl2, to, .. } => {
                PathEvent::Cubic { ctrl1: local(ctrl1), ctrl2: local(ctrl2), to: local(to) }
            }
            Event::End { close, .. } => PathEvent::End { close },
        });
    }
    Some(Outline { events })
}

/// Every outline that `element` asks for, generated and parsed.
fn outlines(element: &Squircle, bounds: Bounds) -> Vec<Option<Outline>> {
    element.outline_requests(bounds).iter().map(|request| parse(&describe(request))).collect()
}

fn bounds() -> Bounds {
    Bounds { origin_x: 10_000, origin_y: 20_000, width: 200_000, height: 200_000 }
}

fn end_point(segment: &Segment) -> Option<SurfacePoint> {
    match segment {
        Segment::MoveTo { to } => Some(*to),
        Segment::LineTo { to } => Some(*to),
        Segment::CurveTo { to, .. } => Some(*to),
        Segment::CubicBezierTo { to, .. } => Some(*to),
        Segment::Close => None,
    }
}

/// The smallest and largest coordinates among the end points of a path:
/// `(min x, min y, max x, max y)`.
fn extent(submission: &Submission) -> (i64, i64, i64, i64) {
    let points: Vec<SurfacePoint> = submission.path.segments.iter().filter_map(end_point).collect();
    assert!(!points.is_empty());
    (
        points.iter().map(|p| p.x).min().unwrap(),
        points.iter().map(|p| p.y).min().unwrap(),
        points.iter().map(|p| p.x).max().unwrap(),
        points.iter().map(|p| p.y).max().unwrap(),
    )
}

fn near(found: (i64, i64, i64, i64), expected: (i64, i64, i64, i64)) -> bool {
    (found.0 - expected.0).abs() <= 2
        && (found.1 - expected.1).abs() <= 2
        && (found.2 - expected.2).abs() <= 2
        && (found.3 - expected.3).abs() <= 2
}

#[test]
fn the_parsers_commands_become_events_one_for_one() {
    let outline = parse("M 1 2 L 10 0 Q 10 10 0 10.5 C 1 2 3 4 5 6 Z").unwrap();
    assert_eq!(
        outline.events,
        vec![
            PathEvent::Begin { at: OutlinePoint { x: 1_000, y: 2_000 } },
            PathEvent::Line { to: OutlinePoint { x: 10_000, y: 0 } },
            PathEvent::Quadratic {
                ctrl: OutlinePoint { x: 10_000, y: 10_000 },
                to: OutlinePoint { x: 0, y: 10_500 },
            },
            PathEvent::Cubic {
                ctrl1: OutlinePoint { x: 1_000, y: 2_000 },
                ctrl2: OutlinePoint { x: 3_000, y: 4_000 },
                to: OutlinePoint { x: 5_000, y: 6_000 },
            },
            PathEvent::End { close: true },
        ]
    );
}

#[test]
fn an_open_path_ends_without_closing() {
    let outline = parse("M 0 0 L 10 0").unwrap();
    assert_eq!(
        outline.events,
        vec![
            PathEvent::Begin { at: OutlinePoint { x: 0, y: 0 } },
            PathEvent::Line { to: OutlinePoint { x: 10_000, y: 0 } },
            PathEvent::End { close: false },
        ]
    );
    let report = squircle().bg(RED).render(bounds(), &vec![Some(outline)]);
    assert_eq!(
        report.submissions[0].path.segments,
        vec![
            Segment::MoveTo { to: SurfacePoint { x: 10_000, y: 20_000 } },
            Segment::LineTo { to: SurfacePoint { x: 20_000, y: 20_000 } },
        ]
    );
}

#[test]
fn the_request_reaches_the_generator_in_pixels() {
    let element = squircle().rounded(50_000).bg(RED);
    let requests = element.outline_requests(bounds());
    let description = describe(&requests[0]);
    let plain = get_svg_path(FigmaSquircleParams {
        width: 200.0,
        height: 200.0,
        corner_radius: Some(50.0),
        top_left_corner_radius: None,
        top_right_corner_radius: None,
        bottom_right_corner_radius: None,
        bottom_left_corner_radius: None,
        corner_smoothing: 1.0,
        preserve_smoothing: true,
    });
    assert_eq!(description, plain);
}

#[test]
fn a_generated_fill_is_one_closed_path_within_the_bounds() {
    let element = squircle().rounded(50_000).bg(RED);
    let outlines = outlines(&element, bounds());
    assert_eq!(outlines.len(), 1);
    assert!(outlines[0].is_some());

    let report = element.render(bounds(), &outlines);
    assert!(report.malformed.is_empty());
    assert_eq!(report.submissions.len(), 1);
    let fill = &report.submissions[0];
    assert_eq!(fill.path.style, PathStyle::Fill);
    assert_eq!(fill.background, RED);
    assert!(matches!(fill.path.segments.first(), Some(Segment::MoveTo { .. })));
    assert_eq!(fill.path.segments.last(), Some(&Segment::Close));
    assert!(near(extent(fill), (10_000, 20_000, 210_000, 220_000)));
    assert_eq!(report.paintable(&vec![true]), vec![0]);
}

#[test]
fn a_generated_path_has_one_step_for_each_command_but_an_open_end() {
    let element = squircle().rounded(50_000).bg(RED);
    let outlines = outlines(&element, bounds());
    let events = &outlines[0].as_ref().unwrap().events;
    let open_ends = events.iter().filter(|e| matches!(e, PathEvent::End { close: false })).count();
    let report = element.render(bounds(), &outlines);
    assert_eq!(report.submissions[0].path.segments.len(), events.len() - open_ends);
}

#[test]
fn a_generated_centered_border_shares_the_fills_steps() {
    let element = squircle().rounded(50_000).bg(RED).border(4_000).border_color(BLUE);
    let outlines = outlines(&element, bounds());
    assert_eq!(outlines.len(), 1);

    let report = element.render(bounds(), &outlines);
    assert!(report.malformed.is_empty());
    assert_eq!(report.submissions.len(), 2);
    assert_eq!(report.submissions[0].path.style, PathStyle::Fill);
    assert_eq!(report.submissions[0].background, RED);
    assert_eq!(report.submissions[1].path.style, PathStyle::Stroke { width: 4_000 });
    assert_eq!(report.submissions[1].background, BLUE);
    assert_eq!(report.submissions[0].path.segments, report.submissions[1].path.segments);
    assert!(!report.submissions[0].path.segments.is_empty());
}

#[test]
fn a_generated_outside_border_lies_around_the_fill() {
    let element =
        squircle().rounded(50_000).bg(RED).border(4_000).border_color(BLUE).border_outside();
    let outlines = outlines(&element, bounds());
    assert_eq!(outlines.len(), 2);

    let report = element.render(bounds(), &outlines);
    assert!(report.malformed.is_empty());
    assert_eq!(report.submissions.len(), 2);
    assert_eq!(report.submissions[0].path.style, PathStyle::Fill);
    assert_eq!(report.submissions[1].path.style, PathStyle::Stroke { width: 4_000 });
    assert!(near(extent(&report.submissions[0]), (10_000, 20_000, 210_000, 220_000)));
    assert!(near(extent(&report.submissions[1]), (8_000, 18_000, 212_000, 222_000)));
    assert_ne!(report.submissions[0].path.segments, report.submissions[1].path.segments);
}

#[test]
fn a_generated_inside_border_lies_within_the_fill() {
    let element =
        squircle().rounded(50_000).bg(RED).border(4_000).border_color(BLUE).border_inside();
    let outlines = outlines(&element, bounds());
    let report = element.render(bounds(), &outlines);
    assert_eq!(report.submissions.len(), 2);
    assert!(near(extent(&report.submissions[0]), (10_000, 20_000, 210_000, 220_000)));
    assert!(near(extent(&report.submissions[1]), (12_000, 22_000, 208_000, 218_000)));
}

#[test]
fn generating_twice_gives_the_same_paths() {
    let element =
        squircle().rounded(50_000).bg(RED).border(4_000).border_color(BLUE).border_outside();
    let first = element.render(bounds(), &outlines(&element, bounds()));
    let second = element.render(bounds(), &outlines(&element, bounds()));
    assert_eq!(first.submissions, second.submissions);
    assert_eq!(first.malformed, second.malformed);
}

#[test]
fn a_description_that_does_not_parse_paints_nothing() {
    let element = squircle().rounded(50_000).bg(RED);
    let outlines = vec![parse("M 150 0 c 12.5 zero 3 4 Z")];
    assert!(outlines[0].is_none());
    let report = element.render(bounds(), &outlines);
    assert!(report.submissions.is_empty());
    assert_eq!(report.malformed, vec![0]);
    assert_eq!(report.paintable(&vec![]), Vec::<usize>::new());
}

#[test]
fn a_radius_below_zero_is_passed_on_and_the_failure_absorbed() {
    let element = squircle().rounded(2_000).border(5_000).border_color(BLUE).border_inside();
    let requests = element.outline_requests(bounds());
    assert_eq!(requests.len(), 1);
    assert_eq!(requests[0].corner_radius, Some(-3_000));
    assert_eq!(requests[0].width, 195_000);

    let description = describe(&requests[0]);
    assert!(description.contains("--"));
    let outlines = outlines(&element, bounds());
    assert_eq!(outlines, vec![None]);
    let report = element.render(bounds(), &outlines);
    assert!(report.submissions.is_empty());
    assert_eq!(report.malformed, vec![0]);
}

#[test]
fn one_generated_outline_failing_leaves_the_other_painted() {
    let element = squircle()
        .rounded(2_000)
        .bg(RED)
        .border(5_000)
        .border_color(BLUE)
        .border_inside();
    let outlines = outlines(&element, bounds());
    assert_eq!(outlines.len(), 2);
    assert!(outlines[0].is_some());
    assert!(outlines[1].is_none());
    let report = element.render(bounds(), &outlines);
    assert_eq!(report.malformed, vec![1]);
    assert_eq!(report.submissions.len(), 1);
    assert_eq!(report.submissions[0].path.style, PathStyle::Fill);
    assert!(near(extent(&report.submissions[0]), (10_000, 20_000, 210_000, 220_000)));
}
