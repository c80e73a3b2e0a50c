//! Drawing a shape: its fill, then its stroke.

use vstd::prelude::*;
use crate::canvas::{Canvas, CanvasPath, DrawingView, PathView, PrimitiveView, State, Verb};
use crate::geom::{Point, Rect};
use crate::style::{
    fill_brush, reports, stroke_brush, BlendMode, BrushView, Definition, Diagnostic, Fill, Stroke,
};

verus! {

/// An element of a shape's outline.
#[derive(Clone, Copy, Debug, PartialEq, Eq, Structural)]
pub enum Segment {
    MoveTo { x: i64, y: i64 },
    LineTo { x: i64, y: i64 },
    CurveTo { x1: i64, y1: i64, x2: i64, y2: i64, x: i64, y: i64 },
    ClosePath,
}

#[derive(Clone, Copy, Debug, PartialEq, Eq, Structural)]
pub enum Visibility {
    Visible,
    Hidden,
    Collapse,
}

/// What matters most when a shape is rasterized.
#[derive(Clone, Copy, Debug, PartialEq, Eq, Structural)]
pub enum ShapeRendering {
    OptimizeSpeed,
    CrispEdges,
    GeometricPrecision,
}

/// A shape.
#[derive(Clone, Debug, PartialEq, Eq)]
pub struct PathNode {
    pub segments: Vec<Segment>,
    pub fill: Option<Fill>,
    pub stroke: Option<Stroke>,
    pub visibility: Visibility,
    pub rendering_mode: ShapeRendering,
}

/// The canvas's verb for a segment.
pub open spec fn verb_of(segment: Segment) -> Verb {
    match segment {
        Segment::MoveTo { .. } => Verb::Move,
        Segment::LineTo { .. } => Verb::Line,
        Segment::CurveTo { .. } => Verb::Cubic,
        Segment::ClosePath => Verb::Close,
    }
}

/// The points that a segment hands to the canvas.
pub open spec fn points_of(segment: Segment) -> Seq<Point> {
    match segment {
        Segment::MoveTo { x, y } => seq![Point { x, y }],
        Segment::LineTo { x, y } => seq![Point { x, y }],
        Segment::CurveTo { x1, y1, x2, y2, x, y } => seq![
            Point { x: x1, y: y1 },
            Point { x: x2, y: y2 },
            Point { x, y },
        ],
        Segment::ClosePath => Seq::empty(),
    }
}

/// The canvas path of a sequence of segments: the verb of each segment, and
/// the points of all segments one after the other.
pub open spec fn converted(segments: Seq<Segment>) -> PathView {
    PathView {
        verbs: segments.map_values(|s: Segment| verb_of(s)),
        points: segments.map_values(|s: Segment| points_of(s)).flatten(),
    }
}

/// One segment more gives one verb more, and that segment's points more.
proof fn lemma_converted_push(segments: Seq<Segment>, segment: Segment)
    ensures
        converted(segments.push(segment)).verbs == converted(segments).verbs.push(verb_of(segment)),
        converted(segments.push(segment)).points == converted(segments).points + points_of(segment),
{
    let verbs = segments.map_values(|s: Segment| verb_of(s));
    let points = segments.map_values(|s: Segment| points_of(s));
    assert(segments.push(segment).map_values(|s: Segment| verb_of(s)) =~= verbs.push(
        verb_of(segment),
    ));
    assert(segments.push(segment).map_values(|s: Segment| points_of(s)) =~= points.push(
        points_of(segment),
    ));
    points.lemma_flatten_push(points_of(segment));
}

/// Turns a shape's segments into a path of the canvas. Curves stay curves.
pub fn convert_path(segments: &Vec<Segment>) -> (path: CanvasPath)
    ensures
        path@ == converted(segments@),
{
    let mut path = CanvasPath::new();
    let mut i: usize = 0;
    assert(converted(segments@.take(0)).verbs =~= Seq::<Verb>::empty());
    assert(converted(segments@.take(0)).points =~= Seq::<Point>::empty());
    while i < segments.len()
        invariant
            i <= segments.len(),
            path@ == converted(segments@.take(i as int)),
        decreases segments.len() - i,
    {
        proof {
            assert(segments@.take(i + 1) =~= segments@.take(i as int).push(segments@[i as int]));
            lemma_converted_push(segments@.take(i as int), segments@[i as int]);
        }
        match segments[i] {
            Segment::MoveTo { x, y } => {
                path.move_to(x, y);
            },
            Segment::LineTo { x, y } => {
                path.line_to(x, y);
            },
            Segment::CurveTo { x1, y1, x2, y2, x, y } => {
                path.cubic_to(x1, y1, x2, y2, x, y);
            },
            Segment::ClosePath => {
                path.close();
            },
        }
        i += 1;
        assert(path@.points =~= converted(segments@.take(i as int)).points);
    }
    assert(segments@.take(i as int) =~= segments@);
    path
}

/// Shapes are antialiased unless crisp edges are asked for.
pub open spec fn spec_anti_aliased(mode: ShapeRendering) -> bool {
    !(mode is CrispEdges)
}

#[verifier::when_used_as_spec(spec_anti_aliased)]
pub fn anti_aliased(mode: ShapeRendering) -> (r: bool)
    ensures
        r == spec_anti_aliased(mode),
{
    match mode {
        ShapeRendering::CrispEdges => false,
        _ => true,
    }
}

/// The bounding box that gradients are resolved against: the shape's, or the
/// unit rectangle where it has none.
pub open spec fn style_bbox(bbox: Option<Rect>) -> Rect {
    match bbox {
        Some(rect) => rect,
        None => Rect::spec_unit(),
    }
}

/// The primitive that draws a shape's outline with a resolved brush.
pub open spec fn primitive_of(path: PathNode, brush: BrushView, state: State, blend_mode: BlendMode) -> PrimitiveView {
    PrimitiveView {
        drawing: DrawingView::Path {
            path: converted(path.segments@),
            brush: BrushView { anti_alias: anti_aliased(path.rendering_mode), blend_mode, ..brush },
        },
        transform: state.transform,
        clips: state.clips,
    }
}

/// What the fill of a shape draws: one primitive, or nothing where the shape
/// has no fill or the fill's paint leads nowhere.
pub open spec fn fill_drawn(
    defs: Seq<Definition>,
    path: PathNode,
    bbox: Option<Rect>,
    state: State,
    blend_mode: BlendMode,
) -> Seq<PrimitiveView> {
    match path.fill {
        Some(fill) => match fill_brush(defs, fill, style_bbox(bbox), state.transform) {
            Some(brush) => seq![primitive_of(path, brush, state, blend_mode)],
            None => Seq::empty(),
        },
        None => Seq::empty(),
    }
}

/// What the stroke of a shape draws: one primitive, or nothing where the
/// shape has no stroke or the stroke's paint leads nowhere.
pub open spec fn stroke_drawn(
    defs: Seq<Definition>,
    path: PathNode,
    bbox: Option<Rect>,
    state: State,
    blend_mode: BlendMode,
) -> Seq<PrimitiveView> {
    match path.stroke {
        Some(stroke) => match stroke_brush(defs, stroke, style_bbox(bbox), state.transform) {
            Some(brush) => seq![primitive_of(path, brush, state, blend_mode)],
            None => Seq::empty(),
        },
        None => Seq::empty(),
    }
}

/// What a shape draws in a given state: nothing unless it is visible, else
/// its fill and then its stroke.
pub open spec fn drawn_by(
    defs: Seq<Definition>,
    path: PathNode,
    bbox: Option<Rect>,
    state: State,
    blend_mode: BlendMode,
) -> Seq<PrimitiveView> {
    if path.visibility is Visible {
        fill_drawn(defs, path, bbox, state, blend_mode) + stroke_drawn(
            defs,
            path,
            bbox,
            state,
            blend_mode,
        )
    } else {
        Seq::empty()
    }
}

/// The primitive strokes its path.
pub open spec fn is_stroke(primitive: PrimitiveView) -> bool {
    primitive.drawing matches DrawingView::Path { brush, .. } && brush.style is Stroke
}

/// The primitive fills its path.
pub open spec fn is_fill(primitive: PrimitiveView) -> bool {
    primitive.drawing matches DrawingView::Path { brush, .. } && brush.style is Fill
}

/// A shape draws at most two primitives: at most one fill, and after it at
/// most one stroke.
pub proof fn fill_comes_first(
    defs: Seq<Definition>,
    path: PathNode,
    bbox: Option<Rect>,
    state: State,
    blend_mode: BlendMode,
)
    ensures
        ({
            let drawn = drawn_by(defs, path, bbox, state, blend_mode);
            &&& drawn.len() <= 2
            &&& drawn.len() == 2 ==> is_fill(drawn[0]) && is_stroke(drawn[1])
            &&& drawn.len() == 1 ==> is_fill(drawn[0]) || is_stroke(drawn[0])
        }),
{
}

/// A visible shape draws one primitive for its fill and one for its stroke,
/// as far as it has them and their paints lead somewhere: a fill alone
/// draws exactly one primitive, which fills; a fill and a stroke draw
/// exactly two, the fill before the stroke.
pub proof fn draws_what_is_set(
    defs: Seq<Definition>,
    path: PathNode,
    bbox: Option<Rect>,
    state: State,
    blend_mode: BlendMode,
)
    requires
        path.visibility is Visible,
        path.fill matches Some(fill) ==> fill_brush(
            defs,
            fill,
            style_bbox(bbox),
            state.transform,
        ) is Some,
        path.stroke matches Some(stroke) ==> stroke_brush(
            defs,
            stroke,
            style_bbox(bbox),
            state.transform,
        ) is Some,
    ensures
        ({
            let drawn = drawn_by(defs, path, bbox, state, blend_mode);
            &&& path.fill is None && path.stroke is None ==> drawn.len() == 0
            &&& path.fill is Some && path.stroke is None ==> drawn.len() == 1 && is_fill(drawn[0])
            &&& path.fill is None && path.stroke is Some ==> drawn.len() == 1 && is_stroke(
                drawn[0],
            )
            &&& path.fill is Some && path.stroke is Some ==> drawn.len() == 2 && is_fill(drawn[0])
                && is_stroke(drawn[1])
        }),
{
}

/// What is reported of a shape: the paints of a visible shape that lead
/// nowhere, the fill's first.
pub open spec fn reported_by(defs: Seq<Definition>, path: PathNode) -> Seq<Diagnostic> {
    if path.visibility is Visible {
        (match path.fill {
            Some(fill) => reports(defs, fill.paint),
            None => Seq::empty(),
        }) + (match path.stroke {
            Some(stroke) => reports(defs, stroke.paint),
            None => Seq::empty(),
        })
    } else {
        Seq::empty()
    }
}

/// Draws a shape on the canvas: the fill first, the stroke over it.
///
/// Nothing is drawn unless the shape is visible. A fill or a stroke whose
/// paint leads nowhere is left out and reported to `sink`. Gradients that are
/// relative to the bounding box are resolved against `bbox`, which comes back
/// as it went in. The canvas's transform, clips and saved states are left as
/// they were.
pub fn draw(
    defs: &Vec<Definition>,
    path: &PathNode,
    bbox: Option<Rect>,
    canvas: &mut Canvas,
    blend_mode: BlendMode,
    sink: &mut Vec<Diagnostic>,
) -> (r: Option<Rect>)
    requires
        old(canvas).wf(),
    ensures
        r == bbox,
        final(canvas).wf(),
        final(canvas)@.state == old(canvas)@.state,
        final(canvas)@.saved == old(canvas)@.saved,
        final(canvas)@.drawn == old(canvas)@.drawn + drawn_by(
            defs@,
            *path,
            bbox,
            old(canvas)@.state,
            blend_mode,
        ),
        final(sink)@ == old(sink)@ + reported_by(defs@, *path),
{
    match path.visibility {
        Visibility::Visible => {},
        _ => {
            assert(canvas@.drawn =~= old(canvas)@.drawn + Seq::<PrimitiveView>::empty());
            assert(sink@ =~= old(sink)@ + Seq::<Diagnostic>::empty());
            return bbox;
        },
    }
    let style_bbox = match bbox {
        Some(rect) => rect,
        None => Rect::unit(),
    };
    let anti_alias = anti_aliased(path.rendering_mode);
    let global_ts = canvas.transform();
    let outline = convert_path(&path.segments);

    match &path.fill {
        Some(style) => {
            match crate::style::fill(defs, style, style_bbox, &global_ts, sink) {
                Some(brush) => {
                    let mut brush = brush;
                    brush.set_anti_alias(anti_alias);
                    brush.set_blend_mode(blend_mode);
                    canvas.draw_path(outline.copy(), brush);
                },
                None => {},
            }
        },
        None => {},
    }
    assert(canvas@.drawn =~= old(canvas)@.drawn + fill_drawn(
        defs@,
        *path,
        bbox,
        old(canvas)@.state,
        blend_mode,
    ));

    match &path.stroke {
        Some(style) => {
            match crate::style::stroke(defs, style, style_bbox, &global_ts, sink) {
                Some(brush) => {
                    let mut brush = brush;
                    brush.set_anti_alias(anti_alias);
                    brush.set_blend_mode(blend_mode);
                    canvas.draw_path(outline.copy(), brush);
                },
                None => {},
            }
        },
        None => {},
    }
    assert(canvas@.drawn =~= old(canvas)@.drawn + drawn_by(
        defs@,
        *path,
        bbox,
        old(canvas)@.state,
        blend_mode,
    ));
    assert(sink@ =~= old(sink)@ + reported_by(defs@, *path));
    bbox
}

} // verus!
