//! The scene: a document with its definitions and its nodes.

use vstd::prelude::*;
use crate::geom::{Matrix, Rect, Size};
use crate::image::ImageNode;
use crate::path::PathNode;
use crate::style::Definition;

verus! {

/// What a node draws.
#[derive(Debug, PartialEq, Eq)]
pub enum NodeKind {
    /// A shape, with its bounding box where it has one. A shape whose paint
    /// may link to a gradient relative to the bounding box has one.
    Path { path: PathNode, bbox: Option<Rect> },
    /// An embedded image or document.
    Image(ImageNode),
}

/// Something to draw, in coordinates of its own: `transform` carries them to
/// those of the document.
#[derive(Debug, PartialEq, Eq)]
pub struct Node {
    pub transform: Matrix,
    pub kind: NodeKind,
}

/// A document: its size, the definitions that its paints link to, each
/// under an id of its own, and its nodes in drawing order.
#[derive(Debug, PartialEq, Eq)]
pub struct Document {
    pub size: Size,
    pub definitions: Vec<Definition>,
    pub nodes: Vec<Node>,
}

} // verus!
