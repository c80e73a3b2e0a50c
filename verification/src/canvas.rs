//! The canvas: a stack of transform and clip states, and the primitives
//! drawn so far.
//!
//! The canvas rasterizes nothing. It keeps every primitive together with the
//! transform and the clips that were in force when it was drawn, in drawing
//! order, for a rasterizer to go through.

use vstd::prelude::*;
use crate::geom::{FitTransform, Point, Rect, Transform};
use crate::style::{Brush, BrushView};
use crate::util::copy_of;

verus! {

/// The kind of a path element. `Move` and `Line` take one point, `Cubic`
/// takes three (two control points, then the end point), `Close` none.
#[derive(Clone, Copy, Debug, PartialEq, Eq, Structural)]
pub enum Verb {
    Move,
    Line,
    Cubic,
    Close,
}

/// A path as the canvas draws it: the elements' kinds, and the points they
/// take, each in order.
#[derive(Clone, Debug, PartialEq, Eq)]
pub struct CanvasPath {
    pub verbs: Vec<Verb>,
    pub points: Vec<Point>,
}

pub struct PathView {
    pub verbs: Seq<Verb>,
    pub points: Seq<Point>,
}

impl View for CanvasPath {
    type V = PathView;

    open spec fn view(&self) -> PathView {
        PathView { verbs: self.verbs@, points: self.points@ }
    }
}

impl CanvasPath {
    /// A path without elements.
    pub fn new() -> (path: CanvasPath)
        ensures
            path@.verbs == Seq::<Verb>::empty(),
            path@.points == Seq::<Point>::empty(),
    {
        CanvasPath { verbs: Vec::new(), points: Vec::new() }
    }

    /// A path with the same elements.
    pub fn copy(&self) -> (path: CanvasPath)
        ensures
            path@ == self@,
    {
        CanvasPath { verbs: copy_of(&self.verbs), points: copy_of(&self.points) }
    }

    /// Starts a new subpath at the point.
    pub fn move_to(&mut self, x: i64, y: i64)
        ensures
            final(self)@.verbs == old(self)@.verbs.push(Verb::Move),
            final(self)@.points == old(self)@.points.push(Point { x, y }),
    {
        self.verbs.push(Verb::Move);
        self.points.push(Point { x, y });
    }

    /// Adds a straight line to the point.
    pub fn line_to(&mut self, x: i64, y: i64)
        ensures
            final(self)@.verbs == old(self)@.verbs.push(Verb::Line),
            final(self)@.points == old(self)@.points.push(Point { x, y }),
    {
        self.verbs.push(Verb::Line);
        self.points.push(Point { x, y });
    }

    /// Adds a cubic curve to `(x, y)` with the control points `(x1, y1)` and
    /// `(x2, y2)`.
    pub fn cubic_to(&mut self, x1: i64, y1: i64, x2: i64, y2: i64, x: i64, y: i64)
        ensures
            final(self)@.verbs == old(self)@.verbs.push(Verb::Cubic),
            final(self)@.points == old(self)@.points.push(Point { x: x1, y: y1 }).push(
                Point { x: x2, y: y2 },
            ).push(Point { x, y }),
    {
        self.verbs.push(Verb::Cubic);
        self.points.push(Point { x: x1, y: y1 });
        self.points.push(Point { x: x2, y: y2 });
        self.points.push(Point { x, y });
    }

    /// Closes the current subpath.
    pub fn close(&mut self)
        ensures
            final(self)@.verbs == old(self)@.verbs.push(Verb::Close),
            final(self)@.points == old(self)@.points,
    {
        self.verbs.push(Verb::Close);
    }
}

/// A decoded raster image: a handle by which the rasterizer finds the
/// pixels, and their dimensions.
#[derive(Clone, Copy, Debug, PartialEq, Eq, Structural)]
pub struct Surface {
    pub id: u64,
    pub width: u32,
    pub height: u32,
}

/// A clip rectangle. It is given in the coordinates that the first `depth`
/// transforms of the chain in force lead to.
#[derive(Clone, Copy, Debug, PartialEq, Eq, Structural)]
pub struct Clip {
    pub rect: Rect,
    pub depth: usize,
}

/// What a primitive draws.
#[derive(Clone, Debug, PartialEq, Eq)]
pub enum Drawing {
    /// A path, filled or stroked with a brush.
    Path { path: CanvasPath, brush: Brush },
    /// A surface, copied into the rectangle that `dest` gives to content of
    /// the surface's size.
    Surface { surface: Surface, dest: FitTransform },
}

pub enum DrawingView {
    Path { path: PathView, brush: BrushView },
    Surface { surface: Surface, dest: FitTransform },
}

impl View for Drawing {
    type V = DrawingView;

    open spec fn view(&self) -> DrawingView {
        match *self {
            Drawing::Path { path, brush } => DrawingView::Path { path: path@, brush: brush@ },
            Drawing::Surface { surface, dest } => DrawingView::Surface { surface, dest },
        }
    }
}

/// One draw call, with the state it was made in: the chain of transforms,
/// outermost first, and the clips, all of which apply.
#[derive(Clone, Debug, PartialEq, Eq)]
pub struct Primitive {
    pub drawing: Drawing,
    pub transform: Vec<Transform>,
    pub clips: Vec<Clip>,
}

pub struct PrimitiveView {
    pub drawing: DrawingView,
    pub transform: Seq<Transform>,
    pub clips: Seq<Clip>,
}

impl View for Primitive {
    type V = PrimitiveView;

    open spec fn view(&self) -> PrimitiveView {
        PrimitiveView { drawing: self.drawing@, transform: self.transform@, clips: self.clips@ }
    }
}

/// The transform and the clips in force.
pub struct State {
    pub transform: Seq<Transform>,
    pub clips: Seq<Clip>,
}

pub struct CanvasView {
    /// The state in force.
    pub state: State,
    /// The states to go back to, the oldest first.
    pub saved: Seq<State>,
    /// The primitives drawn, in drawing order.
    pub drawn: Seq<PrimitiveView>,
}

/// How long the transform chain and the clip list were at a save.
#[derive(Clone, Copy)]
struct Mark {
    transform: usize,
    clips: usize,
}

pub struct Canvas {
    transform: Vec<Transform>,
    clips: Vec<Clip>,
    saved: Vec<Mark>,
    drawn: Vec<Primitive>,
}

impl View for Canvas {
    type V = CanvasView;

    closed spec fn view(&self) -> CanvasView {
        CanvasView {
            state: State { transform: self.transform@, clips: self.clips@ },
            saved: Seq::new(
                self.saved@.len(),
                |i: int|
                    State {
                        transform: self.transform@.take(self.saved@[i].transform as int),
                        clips: self.clips@.take(self.saved@[i].clips as int),
                    },
            ),
            drawn: self.drawn@.map_values(|p: Primitive| p@),
        }
    }
}

impl Canvas {
    /// Each saved state is a prefix of the next, and the last of them a
    /// prefix of the state in force.
    pub closed spec fn wf(&self) -> bool {
        &&& forall|i: int|
            0 <= i < self.saved@.len() ==> (#[trigger] self.saved@[i]).transform
                <= self.transform@.len() && self.saved@[i].clips <= self.clips@.len()
        &&& forall|i: int, j: int|
            0 <= i <= j < self.saved@.len() ==> (#[trigger] self.saved@[i]).transform <= (
            #[trigger] self.saved@[j]).transform && self.saved@[i].clips <= self.saved@[j].clips
    }

    /// A canvas with the identity as transform, no clip, nothing saved and
    /// nothing drawn.
    pub fn new() -> (canvas: Canvas)
        ensures
            canvas.wf(),
            canvas@.state.transform == Seq::<Transform>::empty(),
            canvas@.state.clips == Seq::<Clip>::empty(),
            canvas@.saved == Seq::<State>::empty(),
            canvas@.drawn == Seq::<PrimitiveView>::empty(),
    {
        let canvas = Canvas {
            transform: Vec::new(),
            clips: Vec::new(),
            saved: Vec::new(),
            drawn: Vec::new(),
        };
        assert(canvas@.saved =~= Seq::<State>::empty());
        assert(canvas@.drawn =~= Seq::<PrimitiveView>::empty());
        canvas
    }

    /// Saves the state in force, for `restore` to go back to.
    pub fn save(&mut self)
        requires
            old(self).wf(),
        ensures
            final(self).wf(),
            final(self)@.state == old(self)@.state,
            final(self)@.saved == old(self)@.saved.push(old(self)@.state),
            final(self)@.drawn == old(self)@.drawn,
    {
        let mark = Mark { transform: self.transform.len(), clips: self.clips.len() };
        self.saved.push(mark);
        assert(self.transform@.take(self.transform@.len() as int) =~= self.transform@);
        assert(self.clips@.take(self.clips@.len() as int) =~= self.clips@);
        assert(self@.saved =~= old(self)@.saved.push(old(self)@.state));
    }

    /// Goes back to the state saved last, and forgets that save. With
    /// nothing saved, nothing happens.
    pub fn restore(&mut self)
        requires
            old(self).wf(),
        ensures
            final(self).wf(),
            old(self)@.saved.len() > 0 ==> final(self)@.state == old(self)@.saved.last()
                && final(self)@.saved == old(self)@.saved.drop_last(),
            old(self)@.saved.len() == 0 ==> final(self)@.state == old(self)@.state
                && final(self)@.saved == old(self)@.saved,
            final(self)@.drawn == old(self)@.drawn,
    {
        match self.saved.pop() {
            Some(mark) => {
                self.transform.truncate(mark.transform);
                self.clips.truncate(mark.clips);
                assert(self@.saved =~= old(self)@.saved.drop_last()) by {
                    assert forall|i: int| 0 <= i < self.saved@.len() implies self@.saved[i] == old(
                        self,
                    )@.saved[i] by {
                        assert(self.saved@[i] == old(self).saved@[i]);
                        assert(self.transform@.take(self.saved@[i].transform as int) =~= old(
                            self,
                        ).transform@.take(self.saved@[i].transform as int));
                        assert(self.clips@.take(self.saved@[i].clips as int) =~= old(
                            self,
                        ).clips@.take(self.saved@[i].clips as int));
                    }
                }
            },
            None => {
                assert(self@.saved =~= old(self)@.saved);
            },
        }
    }

    /// Puts a transform behind those in force: what is drawn from now on
    /// goes through it first.
    pub fn concat(&mut self, transform: Transform)
        requires
            old(self).wf(),
        ensures
            final(self).wf(),
            final(self)@.state.transform == old(self)@.state.transform.push(transform),
            final(self)@.state.clips == old(self)@.state.clips,
            final(self)@.saved == old(self)@.saved,
            final(self)@.drawn == old(self)@.drawn,
    {
        self.transform.push(transform);
        assert(self@.saved =~= old(self)@.saved) by {
            assert forall|i: int| 0 <= i < self.saved@.len() implies self@.saved[i] == old(
                self,
            )@.saved[i] by {
                assert(self.transform@.take(self.saved@[i].transform as int) =~= old(
                    self,
                ).transform@.take(self.saved@[i].transform as int));
            }
        }
    }

    /// Clips what is drawn from now on to the rectangle, given in the
    /// coordinates of the transform in force.
    pub fn clip_rect(&mut self, rect: Rect)
        requires
            old(self).wf(),
        ensures
            final(self).wf(),
            final(self)@.state.transform == old(self)@.state.transform,
            final(self)@.state.clips == old(self)@.state.clips.push(
                Clip { rect, depth: old(self)@.state.transform.len() as usize },
            ),
            final(self)@.saved == old(self)@.saved,
            final(self)@.drawn == old(self)@.drawn,
    {
        let depth: usize = self.transform.len();
        self.clips.push(Clip { rect, depth });
        assert(self@.saved =~= old(self)@.saved) by {
            assert forall|i: int| 0 <= i < self.saved@.len() implies self@.saved[i] == old(
                self,
            )@.saved[i] by {
                assert(self.clips@.take(self.saved@[i].clips as int) =~= old(self).clips@.take(
                    self.saved@[i].clips as int,
                ));
            }
        }
    }

    fn record(&mut self, drawing: Drawing)
        requires
            old(self).wf(),
        ensures
            final(self).wf(),
            final(self)@.state == old(self)@.state,
            final(self)@.saved == old(self)@.saved,
            final(self)@.drawn == old(self)@.drawn.push(
                PrimitiveView {
                    drawing: drawing@,
                    transform: old(self)@.state.transform,
                    clips: old(self)@.state.clips,
                },
            ),
    {
        let primitive = Primitive {
            drawing,
            transform: copy_of(&self.transform),
            clips: copy_of(&self.clips),
        };
        self.drawn.push(primitive);
        assert(self@.saved =~= old(self)@.saved);
        assert(self@.drawn =~= old(self)@.drawn.push(primitive@));
    }

    /// Draws a path with a brush, in the state in force.
    pub fn draw_path(&mut self, path: CanvasPath, brush: Brush)
        requires
            old(self).wf(),
        ensures
            final(self).wf(),
            final(self)@.state == old(self)@.state,
            final(self)@.saved == old(self)@.saved,
            final(self)@.drawn == old(self)@.drawn.push(
                PrimitiveView {
                    drawing: DrawingView::Path { path: path@, brush: brush@ },
                    transform: old(self)@.state.transform,
                    clips: old(self)@.state.clips,
                },
            ),
    {
        self.record(Drawing::Path { path, brush });
    }

    /// Copies a surface into the rectangle that `dest` gives to content of
    /// the surface's size, in the state in force.
    pub fn draw_surface_rect(&mut self, surface: Surface, dest: FitTransform)
        requires
            old(self).wf(),
        ensures
            final(self).wf(),
            final(self)@.state == old(self)@.state,
            final(self)@.saved == old(self)@.saved,
            final(self)@.drawn == old(self)@.drawn.push(
                PrimitiveView {
                    drawing: DrawingView::Surface { surface, dest },
                    transform: old(self)@.state.transform,
                    clips: old(self)@.state.clips,
                },
            ),
    {
        self.record(Drawing::Surface { surface, dest });
    }

    /// The chain of transforms in force, outermost first.
    pub fn transform(&self) -> (chain: Vec<Transform>)
        ensures
            chain@ == self@.state.transform,
    {
        copy_of(&self.transform)
    }

    /// The clips in force.
    pub fn clips(&self) -> (clips: Vec<Clip>)
        ensures
            clips@ == self@.state.clips,
    {
        copy_of(&self.clips)
    }

    /// The number of saved states.
    pub fn depth(&self) -> (depth: usize)
        ensures
            depth == self@.saved.len(),
    {
        self.saved.len()
    }

    /// The primitives drawn so far, in drawing order.
    pub fn primitives(&self) -> (drawn: &Vec<Primitive>)
        ensures
            drawn@.map_values(|p: Primitive| p@) == self@.drawn,
    {
        &self.drawn
    }
}

} // verus!
