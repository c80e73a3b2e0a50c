use raster_backend::canvas::{Canvas, Clip, Drawing, Primitive, Surface};
use raster_backend::geom::{AxisFit, FitTransform, Matrix, Rect, Size, Transform};
use raster_backend::image::{draw, draw_raster, draw_svg, ImageContent, ImageNode};
use raster_backend::path::{PathNode, Segment, ShapeRendering, Visibility};
use raster_backend::render::render_to_canvas;
use raster_backend::style::{Color, Diagnostic, Fill, Paint};
use raster_backend::tree::{Document, Node, NodeKind};
use raster_backend::viewbox::{fit, Align, AspectPolicy, AspectRatio, AxisAlign, ViewBox};

fn view_box(rect: Rect, policy: AspectPolicy) -> ViewBox {
    ViewBox { rect, aspect: AspectRatio { policy, align: Align { x: AxisAlign::Mid, y: AxisAlign::Mid } } }
}

fn viewport() -> Rect {
    Rect { x: 10, y: 10, width: 50, height: 50 }
}

fn identity() -> Transform {
    Transform::Matrix(Matrix::identity())
}

fn dot() -> Node {
    Node {
        transform: Matrix::identity(),
        kind: NodeKind::Path {
            path: PathNode {
                segments: vec![Segment::MoveTo { x: 0, y: 0 }, Segment::LineTo { x: 1, y: 1 }, Segment::ClosePath],
                fill: Some(Fill {
                    paint: Paint::Color { color: Color { red: 1, green: 2, blue: 3 }, alpha: 65535 },
                    rule: None,
                    opacity: 65535,
                }),
                stroke: None,
                visibility: Visibility::Visible,
                rendering_mode: ShapeRendering::GeometricPrecision,
            },
            bbox: None,
        },
    }
}

fn image(content: ImageContent, policy: AspectPolicy) -> Node {
    Node {
        transform: Matrix::identity(),
        kind: NodeKind::Image(ImageNode { content, view_box: view_box(viewport(), policy), visibility: Visibility::Visible }),
    }
}

fn document(size: u32, nodes: Vec<Node>) -> Document {
    Document { size: Size { width: size, height: size }, definitions: Vec::new(), nodes }
}

#[test]
fn sliced_raster_is_clipped_to_the_viewport() {
    let surface = Surface { id: 1, width: 200, height: 100 };
    let vb = view_box(viewport(), AspectPolicy::Slice);
    let mut canvas = Canvas::new();
    let mut sink = Vec::new();
    draw_raster(Some(surface), &vb, &mut canvas, &mut sink);
    // Scale 50/100: the image is 100 by 50 and reaches from x = -15 to x = 85.
    assert_eq!(
        *canvas.primitives(),
        vec![Primitive {
            drawing: Drawing::Surface {
                surface,
                dest: FitTransform {
                    x: AxisFit { scale: 100, offset: -3000, extent: 20000, den: 200 },
                    y: AxisFit { scale: 100, offset: 2000, extent: 10000, den: 200 },
                },
            },
            transform: vec![],
            clips: vec![Clip { rect: viewport(), depth: 0 }],
        }]
    );
    assert!(sink.is_empty());
    assert!(canvas.clips().is_empty());
    assert_eq!(canvas.depth(), 0);
}

#[test]
fn raster_under_meet_is_not_clipped() {
    let surface = Surface { id: 1, width: 200, height: 100 };
    for policy in [AspectPolicy::Meet, AspectPolicy::Stretch] {
        let vb = view_box(viewport(), policy);
        let mut canvas = Canvas::new();
        let mut sink = Vec::new();
        draw_raster(Some(surface), &vb, &mut canvas, &mut sink);
        assert_eq!(
            *canvas.primitives(),
            vec![Primitive {
                drawing: Drawing::Surface { surface, dest: fit(Size { width: 200, height: 100 }, &vb).transform },
                transform: vec![],
                clips: vec![],
            }]
        );
    }
}

#[test]
fn missing_raster_is_reported_and_skipped() {
    let mut canvas = Canvas::new();
    let mut sink = Vec::new();
    draw_raster(None, &view_box(viewport(), AspectPolicy::Slice), &mut canvas, &mut sink);
    assert!(canvas.primitives().is_empty());
    assert_eq!(sink, vec![Diagnostic::ImageUnavailable]);
}

#[test]
fn raster_without_area_is_skipped_silently() {
    for surface in [Surface { id: 1, width: 0, height: 9 }, Surface { id: 1, width: 9, height: 0 }] {
        let mut canvas = Canvas::new();
        let mut sink = Vec::new();
        draw_raster(Some(surface), &view_box(viewport(), AspectPolicy::Slice), &mut canvas, &mut sink);
        assert!(canvas.primitives().is_empty());
        assert!(sink.is_empty());
    }
}

#[test]
fn viewport_without_area_draws_nothing() {
    let empty = Rect { x: 0, y: 0, width: 0, height: 10 };
    let mut canvas = Canvas::new();
    let mut sink = Vec::new();
    draw_raster(Some(Surface { id: 1, width: 4, height: 4 }), &view_box(empty, AspectPolicy::Slice), &mut canvas, &mut sink);
    draw_svg(&Some(document(10, vec![dot()])), &view_box(empty, AspectPolicy::Meet), &mut canvas, &mut sink);
    assert!(canvas.primitives().is_empty());
    assert!(sink.is_empty());
    assert_eq!(canvas.depth(), 0);
}

#[test]
fn draw_returns_the_viewport_rect() {
    let mut canvas = Canvas::new();
    let mut sink = Vec::new();
    let shown = ImageNode {
        content: ImageContent::Raster(Some(Surface { id: 1, width: 4, height: 4 })),
        view_box: view_box(viewport(), AspectPolicy::Meet),
        visibility: Visibility::Visible,
    };
    assert_eq!(draw(&shown, &mut canvas, &mut sink), viewport());
    assert_eq!(canvas.primitives().len(), 1);

    let broken = ImageNode {
        content: ImageContent::Raster(None),
        view_box: view_box(viewport(), AspectPolicy::Meet),
        visibility: Visibility::Visible,
    };
    assert_eq!(draw(&broken, &mut canvas, &mut sink), viewport());
    assert_eq!(canvas.primitives().len(), 1);
    assert_eq!(sink, vec![Diagnostic::ImageUnavailable]);
}

#[test]
fn hidden_image_draws_nothing_and_reports_nothing() {
    for visibility in [Visibility::Hidden, Visibility::Collapse] {
        for content in [ImageContent::Raster(None), ImageContent::Document(None), ImageContent::Document(Some(document(10, vec![dot()])))] {
            let node = ImageNode { content, view_box: view_box(viewport(), AspectPolicy::Slice), visibility };
            let mut canvas = Canvas::new();
            let mut sink = Vec::new();
            assert_eq!(draw(&node, &mut canvas, &mut sink), viewport());
            assert!(canvas.primitives().is_empty());
            assert!(sink.is_empty());
        }
    }
}

#[test]
fn missing_document_is_reported_and_skipped() {
    let mut canvas = Canvas::new();
    let mut sink = Vec::new();
    draw_svg(&None, &view_box(viewport(), AspectPolicy::Meet), &mut canvas, &mut sink);
    assert!(canvas.primitives().is_empty());
    assert_eq!(sink, vec![Diagnostic::DocumentUnavailable]);
}

#[test]
fn nested_document_is_drawn_under_its_fit() {
    let vb = view_box(viewport(), AspectPolicy::Slice);
    let inner = document(100, vec![dot(), dot()]);
    let expected_fit = fit(Size { width: 100, height: 100 }, &vb);
    let mut canvas = Canvas::new();
    canvas.concat(identity());
    let mut sink = Vec::new();
    draw_svg(&Some(inner), &vb, &mut canvas, &mut sink);

    assert_eq!(canvas.primitives().len(), 2);
    for primitive in canvas.primitives() {
        assert_eq!(primitive.transform, vec![identity(), Transform::Fit(expected_fit.transform), identity()]);
        assert_eq!(primitive.clips, vec![Clip { rect: viewport(), depth: 1 }]);
        assert!(matches!(primitive.drawing, Drawing::Path { .. }));
    }
    assert_eq!(canvas.transform(), vec![identity()]);
    assert!(canvas.clips().is_empty());
    assert_eq!(canvas.depth(), 0);
}

#[test]
fn nested_document_under_meet_has_no_clip() {
    let vb = view_box(viewport(), AspectPolicy::Meet);
    let mut canvas = Canvas::new();
    let mut sink = Vec::new();
    draw_svg(&Some(document(100, vec![dot()])), &vb, &mut canvas, &mut sink);
    assert_eq!(canvas.primitives().len(), 1);
    assert!(canvas.primitives()[0].clips.is_empty());
    assert_eq!(
        canvas.primitives()[0].transform,
        vec![Transform::Fit(fit(Size { width: 100, height: 100 }, &vb).transform), identity()]
    );
}

#[test]
fn state_survives_two_levels_of_nesting() {
    let innermost = document(
        20,
        vec![dot(), image(ImageContent::Raster(Some(Surface { id: 9, width: 8, height: 4 })), AspectPolicy::Slice)],
    );
    let middle = document(
        40,
        vec![
            image(ImageContent::Document(Some(innermost)), AspectPolicy::Slice),
            image(ImageContent::Raster(None), AspectPolicy::Meet),
            dot(),
        ],
    );
    let outer = document(
        80,
        vec![dot(), image(ImageContent::Document(Some(middle)), AspectPolicy::Meet), image(ImageContent::Document(None), AspectPolicy::Meet), dot()],
    );

    let mut canvas = Canvas::new();
    let base = Transform::Matrix(Matrix { e: 100, f: 200, ..Matrix::identity() });
    canvas.concat(base);
    canvas.clip_rect(Rect { x: 0, y: 0, width: 500, height: 500 });
    canvas.save();
    canvas.concat(identity());
    let mut sink = Vec::new();
    render_to_canvas(&outer, &mut canvas, &mut sink);

    // The state is what it was.
    assert_eq!(canvas.transform(), vec![base, identity()]);
    assert_eq!(canvas.clips(), vec![Clip { rect: Rect { x: 0, y: 0, width: 500, height: 500 }, depth: 1 }]);
    assert_eq!(canvas.depth(), 1);
    canvas.restore();
    assert_eq!(canvas.transform(), vec![base]);
    assert_eq!(canvas.depth(), 0);

    // In drawing order: outer dot, innermost dot, innermost raster, middle dot, outer dot.
    let drawn = canvas.primitives();
    assert_eq!(drawn.len(), 5);
    let outer_fit = Transform::Fit(fit(Size { width: 40, height: 40 }, &view_box(viewport(), AspectPolicy::Meet)).transform);
    let inner_fit = Transform::Fit(fit(Size { width: 20, height: 20 }, &view_box(viewport(), AspectPolicy::Slice)).transform);
    let outer_clip = Clip { rect: Rect { x: 0, y: 0, width: 500, height: 500 }, depth: 1 };
    assert_eq!(drawn[0].transform, vec![base, identity(), identity()]);
    assert_eq!(drawn[0].clips, vec![outer_clip]);
    assert_eq!(drawn[1].transform, vec![base, identity(), identity(), outer_fit, identity(), inner_fit, identity()]);
    assert_eq!(drawn[1].clips, vec![outer_clip, Clip { rect: viewport(), depth: 5 }]);
    assert_eq!(drawn[2].transform, vec![base, identity(), identity(), outer_fit, identity(), inner_fit, identity()]);
    assert_eq!(
        drawn[2].clips,
        vec![outer_clip, Clip { rect: viewport(), depth: 5 }, Clip { rect: viewport(), depth: 7 }]
    );
    assert!(matches!(drawn[2].drawing, Drawing::Surface { surface: Surface { id: 9, .. }, .. }));
    assert_eq!(drawn[3].transform, vec![base, identity(), identity(), outer_fit, identity()]);
    assert_eq!(drawn[3].clips, vec![outer_clip]);
    assert_eq!(drawn[4].transform, vec![base, identity(), identity()]);
    assert_eq!(drawn[4].clips, vec![outer_clip]);

    assert_eq!(sink, vec![Diagnostic::ImageUnavailable, Diagnostic::DocumentUnavailable]);
}

#[test]
fn node_transform_comes_behind_the_canvas_transform() {
    let moved = Matrix { e: 7, f: -7, ..Matrix::identity() };
    let mut node = dot();
    node.transform = moved;
    let mut canvas = Canvas::new();
    canvas.concat(identity());
    let mut sink = Vec::new();
    render_to_canvas(&document(10, vec![node, dot()]), &mut canvas, &mut sink);
    assert_eq!(canvas.primitives()[0].transform, vec![identity(), Transform::Matrix(moved)]);
    assert_eq!(canvas.primitives()[1].transform, vec![identity(), identity()]);
    assert_eq!(canvas.transform(), vec![identity()]);
}

#[test]
fn empty_document_draws_nothing() {
    let mut canvas = Canvas::new();
    let mut sink = Vec::new();
    render_to_canvas(&document(10, Vec::new()), &mut canvas, &mut sink);
    assert!(canvas.primitives().is_empty());
    assert!(sink.is_empty());
}
