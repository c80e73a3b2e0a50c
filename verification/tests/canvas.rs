use raster_backend::canvas::{Canvas, CanvasPath, Clip, Drawing, Primitive, Surface, Verb};
use raster_backend::geom::{FitTransform, Matrix, Point, Rect, Size, Transform};
use raster_backend::style::{BlendMode, Brush, BrushStyle, Color, FillRule, Ink};

fn red_brush() -> Brush {
    Brush {
        ink: Ink::Flat { color: Color { red: 255, green: 0, blue: 0 }, alpha: 65535 },
        opacity: 65535,
        style: BrushStyle::Fill(FillRule::NonZero),
        anti_alias: true,
        blend_mode: BlendMode::SourceOver,
    }
}

fn shift(e: i64, f: i64) -> Transform {
    Transform::Matrix(Matrix { e, f, ..Matrix::identity() })
}

#[test]
fn new_canvas_is_blank() {
    let canvas = Canvas::new();
    assert!(canvas.transform().is_empty());
    assert!(canvas.clips().is_empty());
    assert_eq!(canvas.depth(), 0);
    assert!(canvas.primitives().is_empty());
}

#[test]
fn restore_goes_back_to_the_saved_state() {
    let mut canvas = Canvas::new();
    canvas.concat(shift(1, 1));
    canvas.clip_rect(Rect { x: 0, y: 0, width: 5, height: 5 });
    canvas.save();
    canvas.concat(shift(2, 2));
    canvas.clip_rect(Rect { x: 1, y: 1, width: 2, height: 2 });
    canvas.save();
    canvas.concat(shift(3, 3));
    assert_eq!(canvas.depth(), 2);
    assert_eq!(canvas.transform(), vec![shift(1, 1), shift(2, 2), shift(3, 3)]);

    canvas.restore();
    assert_eq!(canvas.depth(), 1);
    assert_eq!(canvas.transform(), vec![shift(1, 1), shift(2, 2)]);
    assert_eq!(
        canvas.clips(),
        vec![
            Clip { rect: Rect { x: 0, y: 0, width: 5, height: 5 }, depth: 1 },
            Clip { rect: Rect { x: 1, y: 1, width: 2, height: 2 }, depth: 2 },
        ]
    );

    canvas.restore();
    assert_eq!(canvas.depth(), 0);
    assert_eq!(canvas.transform(), vec![shift(1, 1)]);
    assert_eq!(canvas.clips(), vec![Clip { rect: Rect { x: 0, y: 0, width: 5, height: 5 }, depth: 1 }]);
}

#[test]
fn restore_without_save_changes_nothing() {
    let mut canvas = Canvas::new();
    canvas.concat(shift(4, 5));
    canvas.clip_rect(Rect { x: 0, y: 0, width: 1, height: 1 });
    canvas.restore();
    assert_eq!(canvas.depth(), 0);
    assert_eq!(canvas.transform(), vec![shift(4, 5)]);
    assert_eq!(canvas.clips().len(), 1);
}

#[test]
fn primitives_keep_the_state_they_were_drawn_in() {
    let mut canvas = Canvas::new();
    let mut path = CanvasPath::new();
    path.move_to(0, 0);
    path.line_to(4, 0);
    path.close();

    canvas.draw_path(path.copy(), red_brush());
    canvas.save();
    canvas.concat(shift(7, 8));
    canvas.clip_rect(Rect { x: 0, y: 0, width: 9, height: 9 });
    let surface = Surface { id: 3, width: 2, height: 2 };
    let dest = FitTransform::identity(Size { width: 2, height: 2 });
    canvas.draw_surface_rect(surface, dest);
    canvas.restore();
    canvas.draw_path(path.copy(), red_brush());

    let drawn = canvas.primitives();
    assert_eq!(drawn.len(), 3);
    assert_eq!(
        drawn[0],
        Primitive { drawing: Drawing::Path { path: path.copy(), brush: red_brush() }, transform: vec![], clips: vec![] }
    );
    assert_eq!(
        drawn[1],
        Primitive {
            drawing: Drawing::Surface { surface, dest },
            transform: vec![shift(7, 8)],
            clips: vec![Clip { rect: Rect { x: 0, y: 0, width: 9, height: 9 }, depth: 1 }],
        }
    );
    assert_eq!(drawn[2], drawn[0]);
}

#[test]
fn path_builder_records_verbs_and_points() {
    let mut path = CanvasPath::new();
    assert!(path.verbs.is_empty() && path.points.is_empty());
    path.move_to(1, 2);
    path.line_to(3, 4);
    path.cubic_to(5, 6, 7, 8, 9, 10);
    path.close();
    assert_eq!(path.verbs, vec![Verb::Move, Verb::Line, Verb::Cubic, Verb::Close]);
    assert_eq!(
        path.points,
        vec![
            Point { x: 1, y: 2 },
            Point { x: 3, y: 4 },
            Point { x: 5, y: 6 },
            Point { x: 7, y: 8 },
            Point { x: 9, y: 10 },
        ]
    );
    assert_eq!(path.copy(), path);
}

#[test]
fn identity_matrix_has_unit_factors() {
    assert_eq!(Matrix::identity(), Matrix { a: 65536, b: 0, c: 0, d: 65536, e: 0, f: 0 });
}
