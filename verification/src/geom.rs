//! Points, sizes, rectangles and affine maps.

use vstd::prelude::*;

verus! {

/// A position, in units.
#[derive(Clone, Copy, Debug, PartialEq, Eq, Structural)]
pub struct Point {
    pub x: i64,
    pub y: i64,
}

/// The intrinsic size of a piece of content, in units.
#[derive(Clone, Copy, Debug, PartialEq, Eq, Structural)]
pub struct Size {
    pub width: u32,
    pub height: u32,
}

impl Size {
    /// A size is empty when it encloses no area.
    pub open spec fn spec_is_empty(&self) -> bool {
        self.width == 0 || self.height == 0
    }

    #[verifier::when_used_as_spec(spec_is_empty)]
    pub fn is_empty(&self) -> (r: bool)
        ensures
            r == self.spec_is_empty(),
    {
        self.width == 0 || self.height == 0
    }
}

/// An axis-aligned rectangle, in units.
#[derive(Clone, Copy, Debug, PartialEq, Eq, Structural)]
pub struct Rect {
    pub x: i64,
    pub y: i64,
    pub width: u64,
    pub height: u64,
}

impl Rect {
    /// The rectangle used as bounding box where none is known: one unit wide
    /// and high, at the origin.
    pub open spec fn spec_unit() -> Rect {
        Rect { x: 0, y: 0, width: 1, height: 1 }
    }

    #[verifier::when_used_as_spec(spec_unit)]
    pub fn unit() -> (r: Rect)
        ensures
            r == Rect::spec_unit(),
    {
        Rect { x: 0, y: 0, width: 1, height: 1 }
    }

    /// A rectangle is empty when it encloses no area.
    pub open spec fn spec_is_empty(&self) -> bool {
        self.width == 0 || self.height == 0
    }

    #[verifier::when_used_as_spec(spec_is_empty)]
    pub fn is_empty(&self) -> (r: bool)
        ensures
            r == self.spec_is_empty(),
    {
        self.width == 0 || self.height == 0
    }

    pub open spec fn left(self) -> int {
        self.x as int
    }

    pub open spec fn right(self) -> int {
        self.x + self.width
    }

    pub open spec fn top(self) -> int {
        self.y as int
    }

    pub open spec fn bottom(self) -> int {
        self.y + self.height
    }
}

/// A general affine map `(x, y) -> (a*x + c*y + e, b*x + d*y + f)`.
///
/// The factors `a`, `b`, `c`, `d` are in 1/65536ths; the translation `e`,
/// `f` is in units.
#[derive(Clone, Copy, Debug, PartialEq, Eq, Structural)]
pub struct Matrix {
    pub a: i64,
    pub b: i64,
    pub c: i64,
    pub d: i64,
    pub e: i64,
    pub f: i64,
}

impl Matrix {
    pub open spec fn spec_identity() -> Matrix {
        Matrix { a: 0x1_0000, b: 0, c: 0, d: 0x1_0000, e: 0, f: 0 }
    }

    /// The map that moves nothing.
    #[verifier::when_used_as_spec(spec_identity)]
    pub fn identity() -> (m: Matrix)
        ensures
            m == Matrix::spec_identity(),
    {
        Matrix { a: 0x1_0000, b: 0, c: 0, d: 0x1_0000, e: 0, f: 0 }
    }
}

/// One axis of a viewport fit: the map `p -> (offset + scale * p) / den`,
/// together with the extent `scale * len` of the content under it, `len`
/// being the content's length along this axis.
///
/// The content therefore occupies the interval from `offset / den` to
/// `(offset + extent) / den`. All three numerators share the denominator
/// `den`, which is positive.
#[derive(Clone, Copy, Debug, PartialEq, Eq, Structural)]
pub struct AxisFit {
    pub scale: i128,
    pub offset: i128,
    pub extent: i128,
    pub den: i128,
}

impl AxisFit {
    /// The identity on an axis along which the content is `len` long.
    pub open spec fn spec_identity(len: u32) -> AxisFit {
        AxisFit { scale: 1, offset: 0, extent: len as i128, den: 1 }
    }

    #[verifier::when_used_as_spec(spec_identity)]
    pub fn identity(len: u32) -> (a: AxisFit)
        ensures
            a == AxisFit::spec_identity(len),
    {
        AxisFit { scale: 1, offset: 0, extent: len as i128, den: 1 }
    }

    /// The fit is one of content that is `len` long: the denominator is
    /// positive, the scale is not negative, and the extent is that of the
    /// content.
    pub open spec fn fits_length(self, len: int) -> bool {
        self.den > 0 && self.scale >= 0 && self.extent == self.scale * len
    }

    /// The map moves no point.
    pub open spec fn is_identity(self) -> bool {
        self.scale == self.den && self.offset == 0 && self.den > 0
    }

    /// The near edge of the content is at `lo`.
    pub open spec fn starts_at(self, lo: int) -> bool {
        self.offset == lo * self.den
    }

    /// The far edge of the content is at `hi`.
    pub open spec fn ends_at(self, hi: int) -> bool {
        self.offset + self.extent == hi * self.den
    }

    /// The content leaves the same gap to `lo` as to `hi`.
    pub open spec fn centered_in(self, lo: int, hi: int) -> bool {
        self.offset - lo * self.den == hi * self.den - (self.offset + self.extent)
    }

    /// The content lies between `lo` and `hi`.
    pub open spec fn within(self, lo: int, hi: int) -> bool {
        lo * self.den <= self.offset && self.offset + self.extent <= hi * self.den
    }

    /// The content reaches from `lo` or before to `hi` or beyond.
    pub open spec fn covers(self, lo: int, hi: int) -> bool {
        self.offset <= lo * self.den && hi * self.den <= self.offset + self.extent
    }
}

/// A viewport fit: an axis-aligned scaling and translation with exact
/// fractional coefficients.
#[derive(Clone, Copy, Debug, PartialEq, Eq, Structural)]
pub struct FitTransform {
    pub x: AxisFit,
    pub y: AxisFit,
}

impl FitTransform {
    pub open spec fn spec_identity(content: Size) -> FitTransform {
        FitTransform {
            x: AxisFit::spec_identity(content.width),
            y: AxisFit::spec_identity(content.height),
        }
    }

    /// The identity, for content of the given size.
    #[verifier::when_used_as_spec(spec_identity)]
    pub fn identity(content: Size) -> (t: FitTransform)
        ensures
            t == FitTransform::spec_identity(content),
    {
        FitTransform { x: AxisFit::identity(content.width), y: AxisFit::identity(content.height) }
    }

    pub open spec fn is_identity(self) -> bool {
        self.x.is_identity() && self.y.is_identity()
    }

    /// The fit is one of content of the given size.
    pub open spec fn fits_size(self, content: Size) -> bool {
        self.x.fits_length(content.width as int) && self.y.fits_length(content.height as int)
    }

    /// The rectangle that the content occupies lies inside `r`.
    pub open spec fn within(self, r: Rect) -> bool {
        self.x.within(r.left(), r.right()) && self.y.within(r.top(), r.bottom())
    }

    /// The rectangle that the content occupies contains `r`.
    pub open spec fn covers(self, r: Rect) -> bool {
        self.x.covers(r.left(), r.right()) && self.y.covers(r.top(), r.bottom())
    }

    /// Both axes scale by the same factor.
    pub open spec fn is_uniform(self) -> bool {
        self.x.scale * self.y.den == self.y.scale * self.x.den
    }
}

/// One factor of a coordinate transform.
#[derive(Clone, Copy, Debug, PartialEq, Eq, Structural)]
pub enum Transform {
    /// A general affine map.
    Matrix(Matrix),
    /// The map that carries the unit square onto the rectangle: a point
    /// `(u, v)`, in 1/65536ths of the rectangle's width and height, goes to
    /// `(x + width * u / 65536, y + height * v / 65536)`.
    BoundingBox(Rect),
    /// A viewport fit.
    Fit(FitTransform),
}

} // verus!
