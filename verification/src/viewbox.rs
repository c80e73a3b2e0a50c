//! Fitting content of a given size into a viewport.

use vstd::prelude::*;
use crate::geom::{AxisFit, FitTransform, Rect, Size};

verus! {

/// Where the content goes along one axis when it does not fill the viewport.
#[derive(Clone, Copy, Debug, PartialEq, Eq, Structural)]
pub enum AxisAlign {
    Min,
    Mid,
    Max,
}

/// Alignment of the content in the viewport.
#[derive(Clone, Copy, Debug, PartialEq, Eq, Structural)]
pub struct Align {
    pub x: AxisAlign,
    pub y: AxisAlign,
}

/// What happens to the content's aspect ratio.
#[derive(Clone, Copy, Debug, PartialEq, Eq, Structural)]
pub enum AspectPolicy {
    /// Each axis is scaled on its own, so that the content fills the viewport.
    Stretch,
    /// Uniform scale; the whole content is visible.
    Meet,
    /// Uniform scale; the whole viewport is covered.
    Slice,
}

#[derive(Clone, Copy, Debug, PartialEq, Eq, Structural)]
pub struct AspectRatio {
    pub policy: AspectPolicy,
    pub align: Align,
}

/// A viewport: the target rectangle and how content is fitted into it.
#[derive(Clone, Copy, Debug, PartialEq, Eq, Structural)]
pub struct ViewBox {
    pub rect: Rect,
    pub aspect: AspectRatio,
}

/// The result of fitting: the map from content to viewport coordinates, and
/// the rectangle to clip to, if any.
#[derive(Clone, Copy, Debug, PartialEq, Eq, Structural)]
pub struct ViewportFit {
    pub transform: FitTransform,
    pub clip: Option<Rect>,
}

/// Nothing can be fitted: the content or the viewport encloses no area.
pub open spec fn degenerate(content: Size, rect: Rect) -> bool {
    content.is_empty() || rect.is_empty()
}

/// The share of the free space that goes before the content, in halves.
pub open spec fn align_weight(align: AxisAlign) -> int {
    match align {
        AxisAlign::Min => 0,
        AxisAlign::Mid => 1,
        AxisAlign::Max => 2,
    }
}

/// One axis of a uniform fit with scale `num / den`. The viewport reaches
/// from `lo` over `len` units; the content is `content` long. The free space
/// `len - content * num / den` is shared out by `align`.
pub open spec fn uniform_axis(
    num: int,
    den: int,
    lo: int,
    len: int,
    content: int,
    align: AxisAlign,
) -> AxisFit {
    AxisFit {
        scale: (2 * num) as i128,
        offset: (2 * lo * den + align_weight(align) * (len * den - content * num)) as i128,
        extent: (2 * num * content) as i128,
        den: (2 * den) as i128,
    }
}

/// One axis of a fit that stretches the content over the viewport.
pub open spec fn stretch_axis(lo: int, len: int, content: int) -> AxisFit {
    AxisFit {
        scale: len as i128,
        offset: (lo * content) as i128,
        extent: (len * content) as i128,
        den: content as i128,
    }
}

/// Under `Meet` the smaller of the two scales `width / content.width` and
/// `height / content.height` is taken, under `Slice` the larger. This says
/// whether it is the horizontal one.
pub open spec fn scaled_by_width(content: Size, rect: Rect, policy: AspectPolicy) -> bool {
    if policy is Slice {
        rect.width * content.height >= rect.height * content.width
    } else {
        rect.width * content.height <= rect.height * content.width
    }
}

/// The transform of a fit with a uniform scale.
pub open spec fn uniform_transform(content: Size, view_box: ViewBox) -> FitTransform {
    let rect = view_box.rect;
    let align = view_box.aspect.align;
    let (num, den) = if scaled_by_width(content, rect, view_box.aspect.policy) {
        (rect.width as int, content.width as int)
    } else {
        (rect.height as int, content.height as int)
    };
    FitTransform {
        x: uniform_axis(num, den, rect.x as int, rect.width as int, content.width as int, align.x),
        y: uniform_axis(num, den, rect.y as int, rect.height as int, content.height as int, align.y),
    }
}

/// The fit of `content` into `view_box`.
pub open spec fn spec_fit(content: Size, view_box: ViewBox) -> ViewportFit {
    let rect = view_box.rect;
    if degenerate(content, rect) {
        ViewportFit { transform: FitTransform::spec_identity(content), clip: None }
    } else {
        match view_box.aspect.policy {
            AspectPolicy::Stretch => ViewportFit {
                transform: FitTransform {
                    x: stretch_axis(rect.x as int, rect.width as int, content.width as int),
                    y: stretch_axis(rect.y as int, rect.height as int, content.height as int),
                },
                clip: None,
            },
            AspectPolicy::Meet => ViewportFit {
                transform: uniform_transform(content, view_box),
                clip: None,
            },
            AspectPolicy::Slice => ViewportFit {
                transform: uniform_transform(content, view_box),
                clip: Some(rect),
            },
        }
    }
}

/// The content is placed between `lo` and `hi` as `align` asks: against
/// `lo`, in the middle, or against `hi`.
pub open spec fn aligned(axis: AxisFit, align: AxisAlign, lo: int, hi: int) -> bool {
    match align {
        AxisAlign::Min => axis.starts_at(lo),
        AxisAlign::Mid => axis.centered_in(lo, hi),
        AxisAlign::Max => axis.ends_at(hi),
    }
}

/// The content is aligned in the rectangle on both axes.
pub open spec fn aligned_in(t: FitTransform, align: Align, rect: Rect) -> bool {
    aligned(t.x, align.x, rect.left(), rect.right()) && aligned(t.y, align.y, rect.top(), rect.bottom())
}

/// The content touches both edges of the rectangle on at least one axis.
pub open spec fn spans_one_axis(t: FitTransform, rect: Rect) -> bool {
    ||| t.x.starts_at(rect.left()) && t.x.ends_at(rect.right())
    ||| t.y.starts_at(rect.top()) && t.y.ends_at(rect.bottom())
}

/// The gaps that a uniform axis leaves before and after the content, as
/// multiples of the free space `len * den - content * num`.
proof fn lemma_uniform_axis_gaps(num: int, den: int, lo: int, len: int, content: int, align: AxisAlign)
    requires
        0 <= num < 0x1_0000_0000_0000_0000,
        0 < den < 0x1_0000_0000,
        -0x8000_0000_0000_0000 <= lo < 0x8000_0000_0000_0000,
        0 <= len < 0x1_0000_0000_0000_0000,
        0 <= content < 0x1_0000_0000,
    ensures
        ({
            let a = uniform_axis(num, den, lo, len, content, align);
            let free = len * den - content * num;
            &&& a.den == 2 * den
            &&& a.scale == 2 * num
            &&& a.extent == a.scale * content
            &&& a.offset - lo * a.den == align_weight(align) * free
            &&& (lo + len) * a.den - (a.offset + a.extent) == (2 - align_weight(align)) * free
        }),
{
    let k = align_weight(align);
    let free = len * den - content * num;
    assert(-0x1_0000_0000_0000_0000_0000_0000 <= 2 * lo * den <= 0x1_0000_0000_0000_0000_0000_0000)
        by (nonlinear_arith)
        requires
            0 < den < 0x1_0000_0000,
            -0x8000_0000_0000_0000 <= lo < 0x8000_0000_0000_0000,
    ;
    assert(0 <= len * den <= 0x1_0000_0000_0000_0000_0000_0000) by (nonlinear_arith)
        requires
            0 < den < 0x1_0000_0000,
            0 <= len < 0x1_0000_0000_0000_0000,
    ;
    assert(0 <= content * num <= 0x1_0000_0000_0000_0000_0000_0000) by (nonlinear_arith)
        requires
            0 <= content < 0x1_0000_0000,
            0 <= num < 0x1_0000_0000_0000_0000,
    ;
    assert(2 * num * content == 2 * (content * num)) by (nonlinear_arith);
    assert((2 * num) * content == 2 * (content * num)) by (nonlinear_arith);
    assert(k * free == if k == 0 {
        0
    } else if k == 1 {
        free
    } else {
        2 * free
    }) by (nonlinear_arith)
        requires
            0 <= k <= 2,
    ;
    assert(lo * (2 * den) == 2 * lo * den) by (nonlinear_arith);
    assert((lo + len) * (2 * den) == 2 * lo * den + 2 * (len * den)) by (nonlinear_arith);
    assert((2 - k) * free == 2 * free - k * free) by (nonlinear_arith);
}

/// The free space that a uniform fit leaves on each axis: none on the axis
/// that gave the scale; on the other one it is not negative under `Meet` and
/// not positive under `Slice`.
proof fn lemma_free_space(content: Size, view_box: ViewBox)
    requires
        !degenerate(content, view_box.rect),
    ensures
        ({
            let rect = view_box.rect;
            let by_width = scaled_by_width(content, rect, view_box.aspect.policy);
            let num: int = if by_width { rect.width as int } else { rect.height as int };
            let den: int = if by_width { content.width as int } else { content.height as int };
            let free_x = rect.width * den - content.width * num;
            let free_y = rect.height * den - content.height * num;
            &&& by_width ==> free_x == 0
            &&& !by_width ==> free_y == 0
            &&& view_box.aspect.policy is Slice ==> free_x <= 0 && free_y <= 0
            &&& !(view_box.aspect.policy is Slice) ==> free_x >= 0 && free_y >= 0
        }),
{
    let rect = view_box.rect;
    assert(rect.width * content.width == content.width * rect.width) by (nonlinear_arith);
    assert(rect.height * content.height == content.height * rect.height) by (nonlinear_arith);
    assert(rect.width * content.height == content.height * rect.width) by (nonlinear_arith);
    assert(rect.height * content.width == content.width * rect.height) by (nonlinear_arith);
}

/// What holds of every uniform fit, with the sign of the free space left open.
proof fn lemma_uniform_fit(content: Size, view_box: ViewBox)
    requires
        !degenerate(content, view_box.rect),
    ensures
        ({
            let rect = view_box.rect;
            let t = uniform_transform(content, view_box);
            &&& t.is_uniform()
            &&& t.fits_size(content)
            &&& aligned_in(t, view_box.aspect.align, rect)
            &&& spans_one_axis(t, rect)
            &&& view_box.aspect.policy is Slice ==> t.covers(rect)
            &&& !(view_box.aspect.policy is Slice) ==> t.within(rect)
        }),
{
    let rect = view_box.rect;
    let align = view_box.aspect.align;
    let by_width = scaled_by_width(content, rect, view_box.aspect.policy);
    let num: int = if by_width { rect.width as int } else { rect.height as int };
    let den: int = if by_width { content.width as int } else { content.height as int };
    let t = uniform_transform(content, view_box);
    lemma_free_space(content, view_box);
    lemma_uniform_axis_gaps(num, den, rect.x as int, rect.width as int, content.width as int, align.x);
    lemma_uniform_axis_gaps(num, den, rect.y as int, rect.height as int, content.height as int, align.y);
    let free_x = rect.width * den - content.width * num;
    let free_y = rect.height * den - content.height * num;
    let kx = align_weight(align.x);
    let ky = align_weight(align.y);
    assert(kx * free_x == if kx == 0 { 0 } else if kx == 1 { free_x } else { 2 * free_x })
        by (nonlinear_arith)
        requires
            0 <= kx <= 2,
    ;
    assert(ky * free_y == if ky == 0 { 0 } else if ky == 1 { free_y } else { 2 * free_y })
        by (nonlinear_arith)
        requires
            0 <= ky <= 2,
    ;
    assert((2 - kx) * free_x == 2 * free_x - kx * free_x) by (nonlinear_arith);
    assert((2 - ky) * free_y == 2 * free_y - ky * free_y) by (nonlinear_arith);
}

/// Under `Meet` the fitted content lies inside the viewport, scaled alike on
/// both axes. It touches both edges of the viewport on one axis, and on each
/// axis it is placed as the alignment asks. Nothing is clipped.
pub proof fn meet_lies_inside(content: Size, view_box: ViewBox)
    requires
        view_box.aspect.policy is Meet,
        !degenerate(content, view_box.rect),
    ensures
        spec_fit(content, view_box).transform.within(view_box.rect),
        spec_fit(content, view_box).transform.is_uniform(),
        spans_one_axis(spec_fit(content, view_box).transform, view_box.rect),
        aligned_in(spec_fit(content, view_box).transform, view_box.aspect.align, view_box.rect),
        spec_fit(content, view_box).clip is None,
{
    lemma_uniform_fit(content, view_box);
}

/// Under `Slice` the fitted content covers the viewport, scaled alike on both
/// axes. It touches both edges of the viewport on one axis, and on each axis
/// it is placed as the alignment asks. The viewport itself is the clip.
pub proof fn slice_covers(content: Size, view_box: ViewBox)
    requires
        view_box.aspect.policy is Slice,
        !degenerate(content, view_box.rect),
    ensures
        spec_fit(content, view_box).transform.covers(view_box.rect),
        spec_fit(content, view_box).transform.is_uniform(),
        spans_one_axis(spec_fit(content, view_box).transform, view_box.rect),
        aligned_in(spec_fit(content, view_box).transform, view_box.aspect.align, view_box.rect),
        spec_fit(content, view_box).clip == Some(view_box.rect),
{
    lemma_uniform_fit(content, view_box);
}

/// Under `Meet` no larger uniform scale keeps the content inside the
/// viewport: a scale `num / den` under which the content is no wider and no
/// higher than the viewport is at most the scale of the fit.
pub proof fn meet_scale_is_largest(content: Size, view_box: ViewBox, num: int, den: int)
    requires
        view_box.aspect.policy is Meet,
        !degenerate(content, view_box.rect),
        den > 0,
        num * content.width <= view_box.rect.width * den,
        num * content.height <= view_box.rect.height * den,
    ensures
        num * spec_fit(content, view_box).transform.x.den <= spec_fit(
            content,
            view_box,
        ).transform.x.scale * den,
{
    let rect = view_box.rect;
    lemma_uniform_fit(content, view_box);
    let by_width = scaled_by_width(content, rect, view_box.aspect.policy);
    let n: int = if by_width { rect.width as int } else { rect.height as int };
    let d: int = if by_width { content.width as int } else { content.height as int };
    lemma_uniform_axis_gaps(n, d, rect.x as int, rect.width as int, content.width as int, view_box.aspect.align.x);
    assert(num * (2 * d) == 2 * (num * d)) by (nonlinear_arith);
    assert((2 * n) * den == 2 * (n * den)) by (nonlinear_arith);
}

/// Under `Slice` no smaller uniform scale covers the viewport: a scale
/// `num / den` under which the content is at least as wide and as high as
/// the viewport is at least the scale of the fit.
pub proof fn slice_scale_is_smallest(content: Size, view_box: ViewBox, num: int, den: int)
    requires
        view_box.aspect.policy is Slice,
        !degenerate(content, view_box.rect),
        den > 0,
        num * content.width >= view_box.rect.width * den,
        num * content.height >= view_box.rect.height * den,
    ensures
        num * spec_fit(content, view_box).transform.x.den >= spec_fit(
            content,
            view_box,
        ).transform.x.scale * den,
{
    let rect = view_box.rect;
    lemma_uniform_fit(content, view_box);
    let by_width = scaled_by_width(content, rect, view_box.aspect.policy);
    let n: int = if by_width { rect.width as int } else { rect.height as int };
    let d: int = if by_width { content.width as int } else { content.height as int };
    lemma_uniform_axis_gaps(n, d, rect.x as int, rect.width as int, content.width as int, view_box.aspect.align.x);
    assert(num * (2 * d) == 2 * (num * d)) by (nonlinear_arith);
    assert((2 * n) * den == 2 * (n * den)) by (nonlinear_arith);
}

/// Under `Stretch` the fitted content fills the viewport edge to edge on both
/// axes, and nothing is clipped.
pub proof fn stretch_fills(content: Size, view_box: ViewBox)
    requires
        view_box.aspect.policy is Stretch,
        !degenerate(content, view_box.rect),
    ensures
        spec_fit(content, view_box).transform.within(view_box.rect),
        spec_fit(content, view_box).transform.covers(view_box.rect),
        spec_fit(content, view_box).transform.fits_size(content),
        spec_fit(content, view_box).clip is None,
{
    let rect = view_box.rect;
    let cw = content.width as int;
    let ch = content.height as int;
    assert(-0x8000_0000_0000_0000_0000_0000 <= rect.x * cw <= 0x8000_0000_0000_0000_0000_0000)
        by (nonlinear_arith)
        requires
            0 < cw < 0x1_0000_0000,
            -0x8000_0000_0000_0000 <= rect.x < 0x8000_0000_0000_0000,
    ;
    assert(-0x8000_0000_0000_0000_0000_0000 <= rect.y * ch <= 0x8000_0000_0000_0000_0000_0000)
        by (nonlinear_arith)
        requires
            0 < ch < 0x1_0000_0000,
            -0x8000_0000_0000_0000 <= rect.y < 0x8000_0000_0000_0000,
    ;
    assert(0 <= rect.width * cw <= 0x1_0000_0000_0000_0000_0000_0000) by (nonlinear_arith)
        requires
            0 < cw < 0x1_0000_0000,
            0 <= rect.width < 0x1_0000_0000_0000_0000,
    ;
    assert(0 <= rect.height * ch <= 0x1_0000_0000_0000_0000_0000_0000) by (nonlinear_arith)
        requires
            0 < ch < 0x1_0000_0000,
            0 <= rect.height < 0x1_0000_0000_0000_0000,
    ;
    assert((rect.x + rect.width) * cw == rect.x * cw + rect.width * cw) by (nonlinear_arith);
    assert((rect.y + rect.height) * ch == rect.y * ch + rect.height * ch) by (nonlinear_arith);
}

/// Every fit is one of the content it was made for: on each axis the
/// denominator is positive, the scale is not negative, and the extent is the
/// content's length times the scale.
pub proof fn fit_is_of_content(content: Size, view_box: ViewBox)
    ensures
        spec_fit(content, view_box).transform.fits_size(content),
{
    let rect = view_box.rect;
    if !degenerate(content, rect) {
        match view_box.aspect.policy {
            AspectPolicy::Stretch => {
                stretch_fills(content, view_box);
            },
            _ => {
                lemma_uniform_fit(content, view_box);
            },
        }
    }
}

/// Content or a viewport without area is never scaled: whatever the policy,
/// the fit is the identity and clips nothing.
pub proof fn degenerate_is_identity(content: Size, view_box: ViewBox)
    requires
        degenerate(content, view_box.rect),
    ensures
        spec_fit(content, view_box).transform.is_identity(),
        spec_fit(content, view_box).clip is None,
{
}

/// A product of two numbers of which the first has at most 66 bits and the
/// second at most 33.
fn product(a: i128, b: i128) -> (r: i128)
    requires
        -0x4_0000_0000_0000_0000 <= a <= 0x4_0000_0000_0000_0000,
        -0x2_0000_0000 <= b <= 0x2_0000_0000,
    ensures
        r == a * b,
        -0x8_0000_0000_0000_0000_0000_0000 <= r <= 0x8_0000_0000_0000_0000_0000_0000,
{
    proof {
        assert(-0x8_0000_0000_0000_0000_0000_0000 <= a * b <= 0x8_0000_0000_0000_0000_0000_0000)
            by (nonlinear_arith)
            requires
                -0x4_0000_0000_0000_0000 <= a <= 0x4_0000_0000_0000_0000,
                -0x2_0000_0000 <= b <= 0x2_0000_0000,
        ;
    }
    a * b
}

fn fit_uniform_axis(num: u64, den: u32, lo: i64, len: u64, content: u32, align: AxisAlign) -> (r:
    AxisFit)
    ensures
        r == uniform_axis(num as int, den as int, lo as int, len as int, content as int, align),
        r.scale == 2 * num,
        r.offset == 2 * lo * den + align_weight(align) * (len * den - content * num),
        r.extent == 2 * num * content,
        r.den == 2 * den,
{
    let scale: i128 = 2 * (num as i128);
    let base: i128 = product(2 * (lo as i128), den as i128);
    let free: i128 = product(len as i128, den as i128) - product(num as i128, content as i128);
    let before: i128 = match align {
        AxisAlign::Min => 0,
        AxisAlign::Mid => free,
        AxisAlign::Max => free + free,
    };
    let extent: i128 = product(scale, content as i128);
    proof {
        assert(2 * lo * den == (2 * lo) * den) by (nonlinear_arith);
        assert(num * content == content * num) by (nonlinear_arith);
        assert(2 * num * content == (2 * num) * content) by (nonlinear_arith);
        assert(before == align_weight(align) * (len * den - content * num)) by (nonlinear_arith)
            requires
                free == len * den - content * num,
                before == align_weight(align) * free,
        ;
    }
    AxisFit { scale, offset: base + before, extent, den: 2 * (den as i128) }
}

fn fit_stretch_axis(lo: i64, len: u64, content: u32) -> (r: AxisFit)
    ensures
        r == stretch_axis(lo as int, len as int, content as int),
        r.scale == len,
        r.offset == lo * content,
        r.extent == len * content,
        r.den == content,
{
    AxisFit {
        scale: len as i128,
        offset: product(lo as i128, content as i128),
        extent: product(len as i128, content as i128),
        den: content as i128,
    }
}

/// Fits content of size `content` into `view_box`.
///
/// With `Meet` the content is scaled uniformly by the largest factor with
/// which it stays inside the viewport, with `Slice` by the smallest factor
/// with which it covers the viewport, and the result is then clipped to the
/// viewport. With `Stretch` each axis is scaled on its own and the content
/// fills the viewport exactly. Content or a viewport without area gives the
/// identity and no clip; there is then nothing to draw.
pub fn fit(content: Size, view_box: &ViewBox) -> (r: ViewportFit)
    ensures
        r == spec_fit(content, *view_box),
{
    let rect = view_box.rect;
    if content.is_empty() || rect.is_empty() {
        return ViewportFit { transform: FitTransform::identity(content), clip: None };
    }
    let align = view_box.aspect.align;
    match view_box.aspect.policy {
        AspectPolicy::Stretch => ViewportFit {
            transform: FitTransform {
                x: fit_stretch_axis(rect.x, rect.width, content.width),
                y: fit_stretch_axis(rect.y, rect.height, content.height),
            },
            clip: None,
        },
        policy => {
            let across: i128 = product(rect.width as i128, content.height as i128);
            let along: i128 = product(rect.height as i128, content.width as i128);
            let (by_width, clip) = match policy {
                AspectPolicy::Slice => (across >= along, Some(rect)),
                _ => (across <= along, None),
            };
            let (num, den): (u64, u32) = if by_width {
                (rect.width, content.width)
            } else {
                (rect.height, content.height)
            };
            ViewportFit {
                transform: FitTransform {
                    x: fit_uniform_axis(num, den, rect.x, rect.width, content.width, align.x),
                    y: fit_uniform_axis(num, den, rect.y, rect.height, content.height, align.y),
                },
                clip,
            }
        },
    }
}

} // verus!
