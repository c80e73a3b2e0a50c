use raster_backend::canvas::{Canvas, Drawing, Primitive, Verb};
use raster_backend::geom::{Matrix, Point, Rect, Size, Transform};
use raster_backend::path::{PathNode, Segment, ShapeRendering, Visibility};
use raster_backend::render::render_to_canvas;
use raster_backend::style::{
    BlendMode, Brush, BrushStyle, Color, Definition, DefinitionKind, Fill, FillRule, Ink, LinearGradient,
    Paint, Shader, SpreadMethod, Stop, Units,
};
use raster_backend::tree::{Document, Node, NodeKind};
use raster_backend::canvas::CanvasPath;

const GREEN: Color = Color { red: 0, green: 255, blue: 0 };

fn rect_segments(x: i64, y: i64, w: i64, h: i64) -> Vec<Segment> {
    vec![
        Segment::MoveTo { x, y },
        Segment::LineTo { x: x + w, y },
        Segment::LineTo { x: x + w, y: y + h },
        Segment::LineTo { x, y: y + h },
        Segment::ClosePath,
    ]
}

#[test]
fn gradient_filled_rectangle() {
    let bbox = Rect { x: 20, y: 20, width: 160, height: 160 };
    let stops = vec![
        Stop { offset: 0, color: GREEN, opacity: 65535 },
        Stop { offset: 65535, color: GREEN, opacity: 0 },
    ];
    let doc = Document {
        size: Size { width: 200, height: 200 },
        definitions: vec![Definition {
            id: String::from("lg1"),
            kind: DefinitionKind::LinearGradient(LinearGradient {
                start: Point { x: 0, y: 0 },
                end: Point { x: 65536, y: 0 },
                units: Units::ObjectBoundingBox,
                transform: Matrix::identity(),
                spread: SpreadMethod::Pad,
                stops: stops.clone(),
            }),
        }],
        nodes: vec![Node {
            transform: Matrix::identity(),
            kind: NodeKind::Path {
                path: PathNode {
                    segments: rect_segments(20, 20, 160, 160),
                    fill: Some(Fill { paint: Paint::Link(String::from("lg1")), rule: None, opacity: 65535 }),
                    stroke: None,
                    visibility: Visibility::Visible,
                    rendering_mode: ShapeRendering::GeometricPrecision,
                },
                bbox: Some(bbox),
            },
        }],
    };

    let mut canvas = Canvas::new();
    let mut sink = Vec::new();
    render_to_canvas(&doc, &mut canvas, &mut sink);

    let identity = Transform::Matrix(Matrix::identity());
    assert_eq!(
        *canvas.primitives(),
        vec![Primitive {
            drawing: Drawing::Path {
                path: CanvasPath {
                    verbs: vec![Verb::Move, Verb::Line, Verb::Line, Verb::Line, Verb::Close],
                    points: vec![
                        Point { x: 20, y: 20 },
                        Point { x: 180, y: 20 },
                        Point { x: 180, y: 180 },
                        Point { x: 20, y: 180 },
                    ],
                },
                brush: Brush {
                    ink: Ink::Gradient(Shader {
                        start: Point { x: 0, y: 0 },
                        end: Point { x: 65536, y: 0 },
                        spread: SpreadMethod::Pad,
                        stops,
                        transform: vec![identity, Transform::BoundingBox(bbox), identity],
                    }),
                    opacity: 65535,
                    style: BrushStyle::Fill(FillRule::NonZero),
                    anti_alias: true,
                    blend_mode: BlendMode::SourceOver,
                },
            },
            transform: vec![identity],
            clips: vec![],
        }]
    );
    assert!(sink.is_empty());
    assert!(canvas.transform().is_empty());
    assert!(canvas.clips().is_empty());
    assert_eq!(canvas.depth(), 0);
}
