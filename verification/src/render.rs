//! Drawing a document: its nodes, one after the other.

use vstd::prelude::*;
use crate::canvas::{Canvas, PrimitiveView, State};
use crate::image::{ImageContent, ImageNode};
use crate::style::{BlendMode, Definition, Diagnostic};
use crate::geom::Transform;
use crate::tree::{Document, Node, NodeKind};

verus! {

/// The state in which a node is drawn: its own transform comes behind the
/// transform in force.
pub open spec fn node_state(node: Node, state: State) -> State {
    State { transform: state.transform.push(Transform::Matrix(node.transform)), clips: state.clips }
}

/// What a node draws in a given state. Shapes are drawn over what is there.
pub open spec fn node_drawn(node: Node, defs: Seq<Definition>, state: State) -> Seq<PrimitiveView>
    decreases node, 1int,
{
    match node.kind {
        NodeKind::Path { path, bbox } => crate::path::drawn_by(
            defs,
            path,
            bbox,
            node_state(node, state),
            BlendMode::SourceOver,
        ),
        NodeKind::Image(image) => crate::image::drawn_by(image, node_state(node, state)),
    }
}

/// What is reported of a node.
pub open spec fn node_reported(node: Node, defs: Seq<Definition>) -> Seq<Diagnostic>
    decreases node, 1int,
{
    match node.kind {
        NodeKind::Path { path, bbox } => crate::path::reported_by(defs, path),
        NodeKind::Image(image) => crate::image::reported_by(image),
    }
}

/// What the first `count` nodes of a document draw in a given state.
pub open spec fn nodes_drawn(doc: Document, count: nat, state: State) -> Seq<PrimitiveView>
    decreases doc, 1int, count,
{
    if count == 0 || count > doc.nodes.len() {
        Seq::empty()
    } else {
        nodes_drawn(doc, (count - 1) as nat, state) + node_drawn(
            doc.nodes[count - 1],
            doc.definitions@,
            state,
        )
    }
}

/// What is reported of the first `count` nodes of a document.
pub open spec fn nodes_reported(doc: Document, count: nat) -> Seq<Diagnostic>
    decreases doc, 1int, count,
{
    if count == 0 || count > doc.nodes.len() {
        Seq::empty()
    } else {
        nodes_reported(doc, (count - 1) as nat) + node_reported(
            doc.nodes[count - 1],
            doc.definitions@,
        )
    }
}

/// What a document draws in a given state: what its nodes draw, in their
/// order.
pub open spec fn document_drawn(doc: Document, state: State) -> Seq<PrimitiveView>
    decreases doc, 2int,
{
    nodes_drawn(doc, doc.nodes.len() as nat, state)
}

/// What is reported of a document: what is reported of its nodes, in their
/// order.
pub open spec fn document_reported(doc: Document) -> Seq<Diagnostic>
    decreases doc, 2int,
{
    nodes_reported(doc, doc.nodes.len() as nat)
}

/// The primitive was drawn in the given state or in one that grew out of
/// it: under its transform, perhaps with more behind it, and under its
/// clips, perhaps with more.
pub open spec fn drawn_within(primitive: PrimitiveView, state: State) -> bool {
    state.transform.is_prefix_of(primitive.transform) && state.clips.is_prefix_of(primitive.clips)
}

/// Every primitive of the sequence was drawn within the state.
pub open spec fn all_within(drawn: Seq<PrimitiveView>, state: State) -> bool {
    forall|i: int| 0 <= i < drawn.len() ==> drawn_within(#[trigger] drawn[i], state)
}

proof fn lemma_within_grown(drawn: Seq<PrimitiveView>, inner: State, outer: State)
    requires
        all_within(drawn, inner),
        outer.transform.is_prefix_of(inner.transform),
        outer.clips.is_prefix_of(inner.clips),
    ensures
        all_within(drawn, outer),
{
    assert forall|i: int| 0 <= i < drawn.len() implies drawn_within(#[trigger] drawn[i], outer) by {
        assert(drawn_within(drawn[i], inner));
        assert(outer.transform =~= drawn[i].transform.subrange(0, outer.transform.len() as int));
        assert(outer.clips =~= drawn[i].clips.subrange(0, outer.clips.len() as int));
    }
}

proof fn lemma_image_within(image: ImageNode, state: State)
    ensures
        all_within(crate::image::drawn_by(image, state), state),
    decreases image, 0int,
{
    if image.visibility is Visible {
        match image.content {
            ImageContent::Raster(surface) => {
                let drawn = crate::image::raster_drawn(surface, image.view_box, state);
                assert forall|i: int| 0 <= i < drawn.len() implies drawn_within(
                    #[trigger] drawn[i],
                    state,
                ) by {
                    assert(state.clips =~= drawn[i].clips.subrange(0, state.clips.len() as int));
                    assert(state.transform =~= drawn[i].transform.subrange(
                        0,
                        state.transform.len() as int,
                    ));
                }
            },
            ImageContent::Document(Some(doc)) => {
                if !crate::viewbox::degenerate(doc.size, image.view_box.rect) {
                    let inner = crate::image::nested_state(doc.size, image.view_box, state);
                    drawn_within_state(doc, inner);
                    assert(state.transform =~= inner.transform.subrange(
                        0,
                        state.transform.len() as int,
                    ));
                    assert(state.clips =~= inner.clips.subrange(0, state.clips.len() as int));
                    lemma_within_grown(document_drawn(doc, inner), inner, state);
                }
            },
            ImageContent::Document(None) => {},
        }
    }
}

proof fn lemma_node_within(node: Node, defs: Seq<Definition>, state: State)
    ensures
        all_within(node_drawn(node, defs, state), state),
    decreases node, 1int,
{
    let inner = node_state(node, state);
    assert(state.transform =~= inner.transform.subrange(0, state.transform.len() as int));
    assert(state.clips =~= inner.clips.subrange(0, state.clips.len() as int));
    match node.kind {
        NodeKind::Path { path, bbox } => {
            let drawn = crate::path::drawn_by(defs, path, bbox, inner, BlendMode::SourceOver);
            assert forall|i: int| 0 <= i < drawn.len() implies drawn_within(
                #[trigger] drawn[i],
                inner,
            ) by {
                assert(inner.transform =~= drawn[i].transform.subrange(
                    0,
                    inner.transform.len() as int,
                ));
                assert(inner.clips =~= drawn[i].clips.subrange(0, inner.clips.len() as int));
            }
            lemma_within_grown(drawn, inner, state);
        },
        NodeKind::Image(image) => {
            lemma_image_within(image, inner);
            lemma_within_grown(crate::image::drawn_by(image, inner), inner, state);
        },
    }
}

proof fn lemma_nodes_within(doc: Document, count: nat, state: State)
    ensures
        all_within(nodes_drawn(doc, count, state), state),
    decreases doc, 1int, count,
{
    if count != 0 && count <= doc.nodes.len() {
        lemma_nodes_within(doc, (count - 1) as nat, state);
        lemma_node_within(doc.nodes[count - 1], doc.definitions@, state);
    }
}

/// Whatever a document draws, at whatever depth of nesting, is drawn within
/// the state that the canvas was in: under its transform and under its
/// clips. Nodes and nested documents add to that state and take nothing
/// from it.
pub proof fn drawn_within_state(doc: Document, state: State)
    ensures
        all_within(document_drawn(doc, state), state),
    decreases doc, 2int,
{
    lemma_nodes_within(doc, doc.nodes.len() as nat, state);
}

/// Draws a document on the canvas, node by node, in the state that the
/// canvas is in; each node is drawn with its own transform behind the
/// canvas's. Parts that cannot be drawn are left out and reported to `sink`. The canvas's transform, clips and saved states are left as they
/// were.
pub fn render_to_canvas(doc: &Document, canvas: &mut Canvas, sink: &mut Vec<Diagnostic>)
    requires
        old(canvas).wf(),
    ensures
        final(canvas).wf(),
        final(canvas)@.state == old(canvas)@.state,
        final(canvas)@.saved == old(canvas)@.saved,
        final(canvas)@.drawn == old(canvas)@.drawn + document_drawn(*doc, old(canvas)@.state),
        final(sink)@ == old(sink)@ + document_reported(*doc),
    decreases *doc, 2int,
{
    let mut i: usize = 0;
    assert(canvas@.drawn =~= old(canvas)@.drawn + nodes_drawn(*doc, 0, old(canvas)@.state));
    assert(sink@ =~= old(sink)@ + nodes_reported(*doc, 0));
    while i < doc.nodes.len()
        invariant
            i <= doc.nodes.len(),
            canvas.wf(),
            canvas@.state == old(canvas)@.state,
            canvas@.saved == old(canvas)@.saved,
            canvas@.drawn == old(canvas)@.drawn + nodes_drawn(*doc, i as nat, old(canvas)@.state),
            sink@ == old(sink)@ + nodes_reported(*doc, i as nat),
        decreases doc.nodes.len() - i,
    {
        let ghost before = canvas@.drawn;
        let ghost told = sink@;
        let node = &doc.nodes[i];
        canvas.save();
        canvas.concat(Transform::Matrix(node.transform));
        assert(canvas@.state == node_state(*node, old(canvas)@.state));
        match &node.kind {
            NodeKind::Path { path, bbox } => {
                crate::path::draw(
                    &doc.definitions,
                    path,
                    *bbox,
                    canvas,
                    BlendMode::SourceOver,
                    sink,
                );
            },
            NodeKind::Image(image) => {
                crate::image::draw(image, canvas, sink);
            },
        }
        canvas.restore();
        assert(canvas@.saved =~= old(canvas)@.saved);
        proof {
            let state = old(canvas)@.state;
            let node = doc.nodes@[i as int];
            assert(canvas@.drawn == before + node_drawn(node, doc.definitions@, state));
            assert(sink@ == told + node_reported(node, doc.definitions@));
            assert(nodes_drawn(*doc, (i + 1) as nat, state) == nodes_drawn(*doc, i as nat, state)
                + node_drawn(node, doc.definitions@, state));
            assert(nodes_reported(*doc, (i + 1) as nat) == nodes_reported(*doc, i as nat)
                + node_reported(node, doc.definitions@));
        }
        i += 1;
        assert(canvas@.drawn =~= old(canvas)@.drawn + nodes_drawn(
            *doc,
            i as nat,
            old(canvas)@.state,
        ));
        assert(sink@ =~= old(sink)@ + nodes_reported(*doc, i as nat));
    }
}

} // verus!
