//! Paints, gradients and their resolution into brushes.
//!
//! Opacities and gradient offsets are fractions of 65535: 0 stands for zero
//! and 65535 for one.

use vstd::prelude::*;
use crate::geom::{Matrix, Point, Rect, Transform};
use crate::util::copy_of;

verus! {

#[derive(Clone, Copy, Debug, PartialEq, Eq, Structural)]
pub struct Color {
    pub red: u8,
    pub green: u8,
    pub blue: u8,
}

/// The source of a fill or a stroke.
#[derive(Clone, Debug, PartialEq, Eq)]
pub enum Paint {
    /// A single color with its own alpha.
    Color { color: Color, alpha: u16 },
    /// The definition with this id.
    Link(String),
}

#[derive(Clone, Copy, Debug, PartialEq, Eq, Structural)]
pub enum FillRule {
    NonZero,
    EvenOdd,
}

#[derive(Clone, Debug, PartialEq, Eq)]
pub struct Fill {
    pub paint: Paint,
    pub rule: Option<FillRule>,
    pub opacity: u16,
}

#[derive(Clone, Copy, Debug, PartialEq, Eq, Structural)]
pub enum LineCap {
    Butt,
    Round,
    Square,
}

#[derive(Clone, Copy, Debug, PartialEq, Eq, Structural)]
pub enum LineJoin {
    Miter,
    Round,
    Bevel,
}

/// The outline of a stroke. `width`, `dash_offset` and the entries of
/// `dashes` are in units; `miter_limit` is in 1/65536ths. No dashes means a
/// solid line.
#[derive(Clone, Debug, PartialEq, Eq)]
pub struct Outline {
    pub width: u64,
    pub cap: LineCap,
    pub join: LineJoin,
    pub miter_limit: u64,
    pub dashes: Vec<u64>,
    pub dash_offset: i64,
}

#[derive(Clone, Debug, PartialEq, Eq)]
pub struct Stroke {
    pub paint: Paint,
    pub outline: Outline,
    pub opacity: u16,
}

/// The coordinate system of a gradient's end points.
#[derive(Clone, Copy, Debug, PartialEq, Eq, Structural)]
pub enum Units {
    /// Relative to the bounding box of the shape that is painted, in
    /// 1/65536ths of its width and height.
    ObjectBoundingBox,
    /// That of the shape itself, in units.
    UserSpaceOnUse,
}

#[derive(Clone, Copy, Debug, PartialEq, Eq, Structural)]
pub enum SpreadMethod {
    Pad,
    Reflect,
    Repeat,
}

#[derive(Clone, Copy, Debug, PartialEq, Eq, Structural)]
pub struct Stop {
    pub offset: u16,
    pub color: Color,
    pub opacity: u16,
}

#[derive(Clone, Debug, PartialEq, Eq)]
pub struct LinearGradient {
    pub start: Point,
    pub end: Point,
    pub units: Units,
    pub transform: Matrix,
    pub spread: SpreadMethod,
    pub stops: Vec<Stop>,
}

impl LinearGradient {
    /// The stops come in the order of their offsets.
    pub open spec fn ordered(&self) -> bool {
        forall|i: int, j: int|
            0 <= i <= j < self.stops@.len() ==> self.stops@[i].offset <= self.stops@[j].offset
    }
}

#[derive(Clone, Debug, PartialEq, Eq)]
pub enum DefinitionKind {
    LinearGradient(LinearGradient),
    /// A definition that paints nothing: a clip path, a mask, a filter.
    Other,
}

/// An entry of a document's table of definitions.
#[derive(Clone, Debug, PartialEq, Eq)]
pub struct Definition {
    pub id: String,
    pub kind: DefinitionKind,
}

#[derive(Clone, Copy, Debug, PartialEq, Eq, Structural)]
pub enum BlendMode {
    Clear,
    SourceOver,
    DestinationOver,
    SourceIn,
    DestinationIn,
    SourceOut,
    DestinationOut,
    SourceAtop,
    Xor,
    Multiply,
    Screen,
    Darken,
    Lighten,
}

/// A linear gradient ready to be drawn: the gradient's own end points,
/// spread and stops, and the chain of transforms that carries its
/// coordinates to the device, outermost first.
#[derive(Clone, Debug, PartialEq, Eq)]
pub struct Shader {
    pub start: Point,
    pub end: Point,
    pub spread: SpreadMethod,
    pub stops: Vec<Stop>,
    pub transform: Vec<Transform>,
}

pub struct ShaderView {
    pub start: Point,
    pub end: Point,
    pub spread: SpreadMethod,
    pub stops: Seq<Stop>,
    pub transform: Seq<Transform>,
}

impl View for Shader {
    type V = ShaderView;

    open spec fn view(&self) -> ShaderView {
        ShaderView {
            start: self.start,
            end: self.end,
            spread: self.spread,
            stops: self.stops@,
            transform: self.transform@,
        }
    }
}

/// What a brush paints with.
#[derive(Clone, Debug, PartialEq, Eq)]
pub enum Ink {
    Flat { color: Color, alpha: u16 },
    Gradient(Shader),
}

pub enum InkView {
    Flat { color: Color, alpha: u16 },
    Gradient(ShaderView),
}

impl View for Ink {
    type V = InkView;

    open spec fn view(&self) -> InkView {
        match *self {
            Ink::Flat { color, alpha } => InkView::Flat { color, alpha },
            Ink::Gradient(shader) => InkView::Gradient(shader@),
        }
    }
}

pub struct OutlineView {
    pub width: u64,
    pub cap: LineCap,
    pub join: LineJoin,
    pub miter_limit: u64,
    pub dashes: Seq<u64>,
    pub dash_offset: i64,
}

impl View for Outline {
    type V = OutlineView;

    open spec fn view(&self) -> OutlineView {
        OutlineView {
            width: self.width,
            cap: self.cap,
            join: self.join,
            miter_limit: self.miter_limit,
            dashes: self.dashes@,
            dash_offset: self.dash_offset,
        }
    }
}

/// Whether a brush fills a path or strokes it.
#[derive(Clone, Debug, PartialEq, Eq)]
pub enum BrushStyle {
    Fill(FillRule),
    Stroke(Outline),
}

pub enum BrushStyleView {
    Fill(FillRule),
    Stroke(OutlineView),
}

impl View for BrushStyle {
    type V = BrushStyleView;

    open spec fn view(&self) -> BrushStyleView {
        match *self {
            BrushStyle::Fill(rule) => BrushStyleView::Fill(rule),
            BrushStyle::Stroke(outline) => BrushStyleView::Stroke(outline@),
        }
    }
}

/// A resolved paint, ready for a draw call.
#[derive(Clone, Debug, PartialEq, Eq)]
pub struct Brush {
    pub ink: Ink,
    pub opacity: u16,
    pub style: BrushStyle,
    pub anti_alias: bool,
    pub blend_mode: BlendMode,
}

pub struct BrushView {
    pub ink: InkView,
    pub opacity: u16,
    pub style: BrushStyleView,
    pub anti_alias: bool,
    pub blend_mode: BlendMode,
}

impl View for Brush {
    type V = BrushView;

    open spec fn view(&self) -> BrushView {
        BrushView {
            ink: self.ink@,
            opacity: self.opacity,
            style: self.style@,
            anti_alias: self.anti_alias,
            blend_mode: self.blend_mode,
        }
    }
}

impl Brush {
    pub fn set_anti_alias(&mut self, anti_alias: bool)
        ensures
            final(self)@ == (BrushView { anti_alias, ..old(self)@ }),
    {
        self.anti_alias = anti_alias;
    }

    pub fn set_blend_mode(&mut self, blend_mode: BlendMode)
        ensures
            final(self)@ == (BrushView { blend_mode, ..old(self)@ }),
    {
        self.blend_mode = blend_mode;
    }
}

/// Something that went wrong with a part of the scene. The part is left out
/// and the rest is drawn.
#[derive(Clone, Debug, PartialEq, Eq)]
pub enum Diagnostic {
    /// A paint links to this id, and no definition with the id yields a paint.
    UnresolvedPaint(String),
    /// The content of a raster image could not be loaded.
    ImageUnavailable,
    /// The content of a nested document could not be loaded.
    DocumentUnavailable,
}

/// The view of an optional brush.
pub open spec fn brush_view(brush: Option<Brush>) -> Option<BrushView> {
    match brush {
        Some(b) => Some(b@),
        None => None,
    }
}

/// The view of an optional ink.
pub open spec fn ink_view(ink: Option<Ink>) -> Option<InkView> {
    match ink {
        Some(i) => Some(i@),
        None => None,
    }
}

/// The index of the first definition at or after `from` with the given id.
pub open spec fn position_from(defs: Seq<Definition>, id: Seq<char>, from: int) -> Option<int>
    decreases defs.len() - from,
{
    if from < 0 || from >= defs.len() {
        None
    } else if defs[from].id@ == id {
        Some(from)
    } else {
        position_from(defs, id, from + 1)
    }
}

/// The index of the definition with the given id; of the first, should
/// there be several.
pub open spec fn position(defs: Seq<Definition>, id: Seq<char>) -> Option<int> {
    position_from(defs, id, 0)
}

/// The chain of transforms of a gradient's shader: the transform in force,
/// then the map onto the bounding box where the gradient is relative to it,
/// then the gradient's own transform.
pub open spec fn shader_transform(gradient: LinearGradient, bbox: Rect, global: Seq<Transform>) -> Seq<
    Transform,
> {
    match gradient.units {
        Units::ObjectBoundingBox => global.push(Transform::BoundingBox(bbox)).push(
            Transform::Matrix(gradient.transform),
        ),
        Units::UserSpaceOnUse => global.push(Transform::Matrix(gradient.transform)),
    }
}

/// A gradient cannot be drawn as such with fewer than two stops or with end
/// points that coincide.
pub open spec fn collapsed(gradient: LinearGradient) -> bool {
    gradient.stops@.len() <= 1 || gradient.start == gradient.end
}

/// What a gradient paints with: nothing without stops, the color of its last
/// stop where it has collapsed, else a shader with its stops as they are.
pub open spec fn gradient_ink(gradient: LinearGradient, bbox: Rect, global: Seq<Transform>) -> Option<
    InkView,
> {
    if gradient.stops@.len() == 0 {
        None
    } else if collapsed(gradient) {
        let last = gradient.stops@.last();
        Some(InkView::Flat { color: last.color, alpha: last.opacity })
    } else {
        Some(
            InkView::Gradient(
                ShaderView {
                    start: gradient.start,
                    end: gradient.end,
                    spread: gradient.spread,
                    stops: gradient.stops@,
                    transform: shader_transform(gradient, bbox, global),
                },
            ),
        )
    }
}

/// What a paint paints with, if anything. A link to an id that no definition
/// has, or to a definition that is no gradient, paints nothing.
pub open spec fn resolved(defs: Seq<Definition>, paint: Paint, bbox: Rect, global: Seq<Transform>) -> Option<
    InkView,
> {
    match paint {
        Paint::Color { color, alpha } => Some(InkView::Flat { color, alpha }),
        Paint::Link(id) => match position(defs, id@) {
            Some(i) => match defs[i].kind {
                DefinitionKind::LinearGradient(gradient) => gradient_ink(gradient, bbox, global),
                DefinitionKind::Other => None,
            },
            None => None,
        },
    }
}

/// The paint leads to no ink: a link to an id that no definition has, to a
/// definition that is no gradient, or to a gradient without stops.
pub open spec fn paints_nothing(defs: Seq<Definition>, paint: Paint) -> bool {
    match paint {
        Paint::Color { .. } => false,
        Paint::Link(id) => match position(defs, id@) {
            Some(i) => match defs[i].kind {
                DefinitionKind::LinearGradient(gradient) => gradient.stops@.len() == 0,
                DefinitionKind::Other => true,
            },
            None => true,
        },
    }
}

/// What is reported of a paint: a link that paints nothing.
pub open spec fn reports(defs: Seq<Definition>, paint: Paint) -> Seq<Diagnostic> {
    match paint {
        Paint::Link(id) if paints_nothing(defs, paint) => seq![Diagnostic::UnresolvedPaint(id)],
        _ => Seq::empty(),
    }
}

/// The rule by which a fill decides what is inside: its own, or `NonZero`
/// where it names none.
pub open spec fn rule_of(fill: Fill) -> FillRule {
    match fill.rule {
        Some(rule) => rule,
        None => FillRule::NonZero,
    }
}

/// The brush of a fill: its ink at the fill's opacity, antialiased and drawn
/// over what is there.
pub open spec fn fill_brush(defs: Seq<Definition>, fill: Fill, bbox: Rect, global: Seq<Transform>) -> Option<
    BrushView,
> {
    match resolved(defs, fill.paint, bbox, global) {
        Some(ink) => Some(
            BrushView {
                ink,
                opacity: fill.opacity,
                style: BrushStyleView::Fill(rule_of(fill)),
                anti_alias: true,
                blend_mode: BlendMode::SourceOver,
            },
        ),
        None => None,
    }
}

/// The brush of a stroke: its ink at the stroke's opacity with the stroke's
/// outline, antialiased and drawn over what is there.
pub open spec fn stroke_brush(
    defs: Seq<Definition>,
    stroke: Stroke,
    bbox: Rect,
    global: Seq<Transform>,
) -> Option<BrushView> {
    match resolved(defs, stroke.paint, bbox, global) {
        Some(ink) => Some(
            BrushView {
                ink,
                opacity: stroke.opacity,
                style: BrushStyleView::Stroke(stroke.outline@),
                anti_alias: true,
                blend_mode: BlendMode::SourceOver,
            },
        ),
        None => None,
    }
}

/// What `position_from` finds has the id, and nothing from `from` up to it
/// has; where it finds nothing, nothing from `from` on has the id.
pub proof fn position_from_is_first(defs: Seq<Definition>, id: Seq<char>, from: int)
    requires
        0 <= from,
    ensures
        match position_from(defs, id, from) {
            Some(i) => {
                &&& from <= i < defs.len()
                &&& defs[i].id@ == id
                &&& forall|j: int| from <= j < i ==> defs[j].id@ != id
            },
            None => forall|j: int| from <= j < defs.len() ==> defs[j].id@ != id,
        },
    decreases defs.len() - from,
{
    if from < defs.len() && defs[from].id@ != id {
        position_from_is_first(defs, id, from + 1);
    }
}

/// A link to an id that no definition has paints nothing, whatever the
/// bounding box and the transform, and is reported once.
pub proof fn missing_link_paints_nothing(
    defs: Seq<Definition>,
    id: String,
    bbox: Rect,
    global: Seq<Transform>,
)
    requires
        forall|j: int| 0 <= j < defs.len() ==> defs[j].id@ != id@,
    ensures
        paints_nothing(defs, Paint::Link(id)),
        resolved(defs, Paint::Link(id), bbox, global) is None,
        reports(defs, Paint::Link(id)) == seq![Diagnostic::UnresolvedPaint(id)],
{
    position_from_is_first(defs, id@, 0);
}

/// A gradient with two stops or more and distinct end points becomes a
/// shader with the gradient's own end points and spread, and with its stops
/// as they are: the same stops in the same order.
pub proof fn stops_are_kept(gradient: LinearGradient, bbox: Rect, global: Seq<Transform>)
    requires
        gradient.stops@.len() >= 2,
        gradient.start != gradient.end,
    ensures
        gradient_ink(gradient, bbox, global) matches Some(InkView::Gradient(shader)) && {
            &&& shader.stops == gradient.stops@
            &&& shader.start == gradient.start
            &&& shader.end == gradient.end
            &&& shader.spread == gradient.spread
        },
{
}

/// Looks a definition up by its id.
pub fn find(defs: &Vec<Definition>, id: &String) -> (found: Option<usize>)
    ensures
        match found {
            Some(i) => i < defs.len() && position(defs@, id@) == Some(i as int),
            None => position(defs@, id@) is None,
        },
{
    let mut i: usize = 0;
    while i < defs.len()
        invariant
            i <= defs.len(),
            position(defs@, id@) == position_from(defs@, id@, i as int),
        decreases defs.len() - i,
    {
        if defs[i].id == *id {
            return Some(i);
        }
        i += 1;
    }
    None
}

/// The ink of a gradient.
pub fn resolve_gradient(gradient: &LinearGradient, bbox: Rect, global_ts: &Vec<Transform>) -> (ink:
    Option<Ink>)
    ensures
        ink_view(ink) == gradient_ink(*gradient, bbox, global_ts@),
{
    let count: usize = gradient.stops.len();
    if count == 0 {
        return None;
    }
    if count == 1 || (gradient.start.x == gradient.end.x && gradient.start.y == gradient.end.y) {
        let last = gradient.stops[count - 1];
        return Some(Ink::Flat { color: last.color, alpha: last.opacity });
    }
    let mut transform = copy_of(global_ts);
    match gradient.units {
        Units::ObjectBoundingBox => {
            transform.push(Transform::BoundingBox(bbox));
        },
        Units::UserSpaceOnUse => {},
    }
    transform.push(Transform::Matrix(gradient.transform));
    Some(
        Ink::Gradient(
            Shader {
                start: gradient.start,
                end: gradient.end,
                spread: gradient.spread,
                stops: copy_of(&gradient.stops),
                transform,
            },
        ),
    )
}

/// Resolves a paint into what a brush paints with.
///
/// A color stays as it is. A link is looked up among `defs`: a linear
/// gradient gives a shader, or a flat color where it has collapsed. The
/// shader's transform is `global_ts`, followed by the map onto `bbox` where
/// the gradient is relative to the bounding box, followed by the gradient's
/// own transform. A link that leads to no paint gives `None`, and is
/// reported to `sink`.
pub fn resolve(
    defs: &Vec<Definition>,
    paint: &Paint,
    bbox: Rect,
    global_ts: &Vec<Transform>,
    sink: &mut Vec<Diagnostic>,
) -> (ink: Option<Ink>)
    ensures
        ink_view(ink) == resolved(defs@, *paint, bbox, global_ts@),
        final(sink)@ == old(sink)@ + reports(defs@, *paint),
{
    proof {
        resolved_unless_nothing(defs@, *paint, bbox, global_ts@);
    }
    let ink = match paint {
        Paint::Color { color, alpha } => Some(Ink::Flat { color: *color, alpha: *alpha }),
        Paint::Link(id) => {
            let ink = match find(defs, id) {
                Some(i) => match &defs[i].kind {
                    DefinitionKind::LinearGradient(gradient) => resolve_gradient(
                        gradient,
                        bbox,
                        global_ts,
                    ),
                    DefinitionKind::Other => None,
                },
                None => None,
            };
            if ink.is_none() {
                sink.push(Diagnostic::UnresolvedPaint(id.clone()));
            }
            ink
        },
    };
    assert(sink@ =~= old(sink)@ + reports(defs@, *paint));
    ink
}

/// A paint resolves to an ink unless it paints nothing, whatever the
/// bounding box and the transform in force.
pub proof fn resolved_unless_nothing(
    defs: Seq<Definition>,
    paint: Paint,
    bbox: Rect,
    global: Seq<Transform>,
)
    ensures
        resolved(defs, paint, bbox, global) is None <==> paints_nothing(defs, paint),
{
}

/// Resolves a fill into a brush. `None` means that nothing is to be drawn.
pub fn fill(
    defs: &Vec<Definition>,
    style: &Fill,
    bbox: Rect,
    global_ts: &Vec<Transform>,
    sink: &mut Vec<Diagnostic>,
) -> (brush: Option<Brush>)
    ensures
        brush_view(brush) == fill_brush(defs@, *style, bbox, global_ts@),
        final(sink)@ == old(sink)@ + reports(defs@, style.paint),
{
    let rule = match style.rule {
        Some(rule) => rule,
        None => FillRule::NonZero,
    };
    match resolve(defs, &style.paint, bbox, global_ts, sink) {
        Some(ink) => Some(
            Brush {
                ink,
                opacity: style.opacity,
                style: BrushStyle::Fill(rule),
                anti_alias: true,
                blend_mode: BlendMode::SourceOver,
            },
        ),
        None => None,
    }
}

/// Resolves a stroke into a brush. `None` means that nothing is to be drawn.
pub fn stroke(
    defs: &Vec<Definition>,
    style: &Stroke,
    bbox: Rect,
    global_ts: &Vec<Transform>,
    sink: &mut Vec<Diagnostic>,
) -> (brush: Option<Brush>)
    ensures
        brush_view(brush) == stroke_brush(defs@, *style, bbox, global_ts@),
        final(sink)@ == old(sink)@ + reports(defs@, style.paint),
{
    match resolve(defs, &style.paint, bbox, global_ts, sink) {
        Some(ink) => Some(
            Brush {
                ink,
                opacity: style.opacity,
                style: BrushStyle::Stroke(
                    Outline {
                        width: style.outline.width,
                        cap: style.outline.cap,
                        join: style.outline.join,
                        miter_limit: style.outline.miter_limit,
                        dashes: copy_of(&style.outline.dashes),
                        dash_offset: style.outline.dash_offset,
                    },
                ),
                anti_alias: true,
                blend_mode: BlendMode::SourceOver,
            },
        ),
        None => None,
    }
}

} // verus!
