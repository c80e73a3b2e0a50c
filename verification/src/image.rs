//! Drawing embedded content: raster images and nested documents, fitted
//! into their viewports.

use vstd::prelude::*;
use crate::canvas::{Canvas, Clip, DrawingView, PrimitiveView, State, Surface};
use crate::geom::{Rect, Size, Transform};
use crate::path::Visibility;
use crate::render::{document_drawn, document_reported, render_to_canvas};
use crate::style::Diagnostic;
use crate::tree::Document;
use crate::viewbox::{degenerate, fit, spec_fit, ViewBox};

verus! {

/// What an image node embeds, as far as it could be loaded.
#[derive(Debug, PartialEq, Eq)]
pub enum ImageContent {
    /// A raster image; `None` where it could not be loaded or decoded.
    Raster(Option<Surface>),
    /// A nested document; `None` where it could not be loaded or parsed.
    Document(Option<Document>),
}

/// An embedded image or document and the viewport it is shown in.
#[derive(Debug, PartialEq, Eq)]
pub struct ImageNode {
    pub content: ImageContent,
    pub view_box: ViewBox,
    pub visibility: Visibility,
}

/// The state with one more clip, if there is one.
pub open spec fn clipped(state: State, clip: Option<Rect>) -> State {
    match clip {
        Some(rect) => State {
            transform: state.transform,
            clips: state.clips.push(Clip { rect, depth: state.transform.len() as usize }),
        },
        None => state,
    }
}

/// The size of a surface.
pub open spec fn surface_size(surface: Surface) -> Size {
    Size { width: surface.width, height: surface.height }
}

/// What a raster image draws: the surface, placed by the fit of its size
/// into the viewport and clipped as the fit says. Nothing where there is no
/// surface, or nothing to fit.
pub open spec fn raster_drawn(surface: Option<Surface>, view_box: ViewBox, state: State) -> Seq<
    PrimitiveView,
> {
    match surface {
        Some(surface) if !degenerate(surface_size(surface), view_box.rect) => {
            let fit = spec_fit(surface_size(surface), view_box);
            seq![
                PrimitiveView {
                    drawing: DrawingView::Surface { surface, dest: fit.transform },
                    transform: state.transform,
                    clips: clipped(state, fit.clip).clips,
                },
            ]
        },
        _ => Seq::empty(),
    }
}

/// What is reported of a raster image: that there is no surface.
pub open spec fn raster_reported(surface: Option<Surface>) -> Seq<Diagnostic> {
    match surface {
        Some(_) => Seq::empty(),
        None => seq![Diagnostic::ImageUnavailable],
    }
}

/// The state in which a nested document of the given size is drawn: clipped
/// as the fit into the viewport says, with the fit behind the transform in
/// force.
pub open spec fn nested_state(size: Size, view_box: ViewBox, state: State) -> State {
    let fit = spec_fit(size, view_box);
    let clipped = clipped(state, fit.clip);
    State { transform: clipped.transform.push(Transform::Fit(fit.transform)), clips: clipped.clips }
}

/// What a nested document draws: its own nodes, in the nested state.
/// Nothing where there is no document, or nothing to fit.
pub open spec fn svg_drawn(document: Option<Document>, view_box: ViewBox, state: State) -> Seq<
    PrimitiveView,
>
    decreases document, 0int,
{
    match document {
        Some(doc) if !degenerate(doc.size, view_box.rect) => document_drawn(
            doc,
            nested_state(doc.size, view_box, state),
        ),
        _ => Seq::empty(),
    }
}

/// What is reported of a nested document: that there is none, or what is
/// reported of its nodes.
pub open spec fn svg_reported(document: Option<Document>, view_box: ViewBox) -> Seq<Diagnostic>
    decreases document, 0int,
{
    match document {
        Some(doc) => if degenerate(doc.size, view_box.rect) {
            Seq::empty()
        } else {
            document_reported(doc)
        },
        None => seq![Diagnostic::DocumentUnavailable],
    }
}

/// What an image node draws in a given state: nothing unless it is visible,
/// else its content.
pub open spec fn drawn_by(image: ImageNode, state: State) -> Seq<PrimitiveView>
    decreases image, 0int,
{
    if image.visibility is Visible {
        match image.content {
            ImageContent::Raster(surface) => raster_drawn(surface, image.view_box, state),
            ImageContent::Document(document) => svg_drawn(document, image.view_box, state),
        }
    } else {
        Seq::empty()
    }
}

/// What is reported of an image node.
pub open spec fn reported_by(image: ImageNode) -> Seq<Diagnostic>
    decreases image, 0int,
{
    if image.visibility is Visible {
        match image.content {
            ImageContent::Raster(surface) => raster_reported(surface),
            ImageContent::Document(document) => svg_reported(document, image.view_box),
        }
    } else {
        Seq::empty()
    }
}

/// Where the content or the viewport has no area there is nothing to fit,
/// and nothing is drawn, whatever the aspect policy.
pub proof fn nothing_to_fit_draws_nothing(image: ImageNode, state: State)
    requires
        match image.content {
            ImageContent::Raster(Some(surface)) => degenerate(
                surface_size(surface),
                image.view_box.rect,
            ),
            ImageContent::Raster(None) => true,
            ImageContent::Document(Some(doc)) => degenerate(doc.size, image.view_box.rect),
            ImageContent::Document(None) => true,
        },
    ensures
        drawn_by(image, state) == Seq::<PrimitiveView>::empty(),
{
}

/// A visible raster image under `Slice` is drawn as a single primitive,
/// clipped to the viewport, and the surface covers the viewport.
pub proof fn sliced_image_is_clipped(surface: Surface, view_box: ViewBox, state: State)
    requires
        view_box.aspect.policy is Slice,
        !degenerate(surface_size(surface), view_box.rect),
    ensures
        ({
            let drawn = raster_drawn(Some(surface), view_box, state);
            &&& drawn.len() == 1
            &&& drawn[0].clips == state.clips.push(
                Clip { rect: view_box.rect, depth: state.transform.len() as usize },
            )
            &&& drawn[0].drawing matches DrawingView::Surface { dest, .. } && dest.covers(
                view_box.rect,
            )
        }),
{
    crate::viewbox::slice_covers(surface_size(surface), view_box);
}

/// Draws an image node on the canvas and returns its viewport rectangle.
///
/// Nothing is drawn unless the node is visible. Content that could not be
/// loaded is left out and reported to `sink`. The canvas's transform, clips
/// and saved states are left as they were.
pub fn draw(image: &ImageNode, canvas: &mut Canvas, sink: &mut Vec<Diagnostic>) -> (rect: Rect)
    requires
        old(canvas).wf(),
    ensures
        rect == image.view_box.rect,
        final(canvas).wf(),
        final(canvas)@.state == old(canvas)@.state,
        final(canvas)@.saved == old(canvas)@.saved,
        final(canvas)@.drawn == old(canvas)@.drawn + drawn_by(*image, old(canvas)@.state),
        final(sink)@ == old(sink)@ + reported_by(*image),
    decreases *image, 0int,
{
    match image.visibility {
        Visibility::Visible => {},
        _ => {
            assert(canvas@.drawn =~= old(canvas)@.drawn + Seq::<PrimitiveView>::empty());
            assert(sink@ =~= old(sink)@ + Seq::<Diagnostic>::empty());
            return image.view_box.rect;
        },
    }
    match &image.content {
        ImageContent::Raster(surface) => {
            draw_raster(*surface, &image.view_box, canvas, sink);
        },
        ImageContent::Document(document) => {
            draw_svg(document, &image.view_box, canvas, sink);
        },
    }
    image.view_box.rect
}

/// Draws a raster image into a viewport.
///
/// The surface is copied into the rectangle that the fit of its size into
/// the viewport gives, under the clip of that fit. A missing surface is
/// reported to `sink`; a surface or a viewport without area draws nothing.
pub fn draw_raster(
    surface: Option<Surface>,
    view_box: &ViewBox,
    canvas: &mut Canvas,
    sink: &mut Vec<Diagnostic>,
)
    requires
        old(canvas).wf(),
    ensures
        final(canvas).wf(),
        final(canvas)@.state == old(canvas)@.state,
        final(canvas)@.saved == old(canvas)@.saved,
        final(canvas)@.drawn == old(canvas)@.drawn + raster_drawn(
            surface,
            *view_box,
            old(canvas)@.state,
        ),
        final(sink)@ == old(sink)@ + raster_reported(surface),
{
    let surface = match surface {
        Some(surface) => surface,
        None => {
            sink.push(Diagnostic::ImageUnavailable);
            assert(canvas@.drawn =~= old(canvas)@.drawn + Seq::<PrimitiveView>::empty());
            assert(sink@ =~= old(sink)@ + seq![Diagnostic::ImageUnavailable]);
            return ;
        },
    };
    assert(sink@ =~= old(sink)@ + Seq::<Diagnostic>::empty());
    let size = Size { width: surface.width, height: surface.height };
    if size.is_empty() || view_box.rect.is_empty() {
        assert(canvas@.drawn =~= old(canvas)@.drawn + Seq::<PrimitiveView>::empty());
        return ;
    }
    let fit = fit(size, view_box);

    canvas.save();
    match fit.clip {
        Some(rect) => {
            canvas.clip_rect(rect);
        },
        None => {},
    }
    canvas.draw_surface_rect(surface, fit.transform);
    canvas.restore();

    assert(canvas@.saved =~= old(canvas)@.saved);
    assert(canvas@.drawn =~= old(canvas)@.drawn + raster_drawn(
        Some(surface),
        *view_box,
        old(canvas)@.state,
    ));
}

/// Draws a nested document into a viewport.
///
/// The document is drawn by `render_to_canvas`, under the clip of the fit of
/// its size into the viewport and with that fit behind the canvas's
/// transform. A missing document is reported to `sink`; a document or a
/// viewport without area draws nothing.
pub fn draw_svg(
    document: &Option<Document>,
    view_box: &ViewBox,
    canvas: &mut Canvas,
    sink: &mut Vec<Diagnostic>,
)
    requires
        old(canvas).wf(),
    ensures
        final(canvas).wf(),
        final(canvas)@.state == old(canvas)@.state,
        final(canvas)@.saved == old(canvas)@.saved,
        final(canvas)@.drawn == old(canvas)@.drawn + svg_drawn(
            *document,
            *view_box,
            old(canvas)@.state,
        ),
        final(sink)@ == old(sink)@ + svg_reported(*document, *view_box),
    decreases *document, 0int,
{
    let doc = match document {
        Some(doc) => doc,
        None => {
            sink.push(Diagnostic::DocumentUnavailable);
            assert(canvas@.drawn =~= old(canvas)@.drawn + Seq::<PrimitiveView>::empty());
            assert(sink@ =~= old(sink)@ + seq![Diagnostic::DocumentUnavailable]);
            return ;
        },
    };
    if doc.size.is_empty() || view_box.rect.is_empty() {
        assert(canvas@.drawn =~= old(canvas)@.drawn + Seq::<PrimitiveView>::empty());
        assert(sink@ =~= old(sink)@ + Seq::<Diagnostic>::empty());
        return ;
    }
    let fit = fit(doc.size, view_box);

    canvas.save();
    match fit.clip {
        Some(rect) => {
            canvas.clip_rect(rect);
        },
        None => {},
    }
    canvas.concat(Transform::Fit(fit.transform));
    assert(canvas@.state == nested_state(doc.size, *view_box, old(canvas)@.state));
    render_to_canvas(doc, canvas, sink);
    canvas.restore();

    assert(canvas@.saved =~= old(canvas)@.saved);
}

} // verus!
