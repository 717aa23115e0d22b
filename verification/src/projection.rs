//! The pixel-to-clip-space projection, kept in exact arithmetic.
//!
//! Every entry of the matrix is a quotient of two integers that has not been
//! carried out. Whoever hands the matrix to the graphics API divides each
//! numerator by its denominator in the API's own number format; up to that
//! point nothing is rounded.

use vstd::prelude::*;

verus! {

/// A quotient `num / den` of two integers, not yet carried out.
///
/// A zero denominator is allowed: an empty framebuffer has width zero, and the
/// division is then left to the number format the matrix is finally stored in.
#[derive(Clone, Copy, Debug, PartialEq, Eq, Structural)]
pub struct Quotient {
    pub num: i32,
    pub den: i32,
}

impl Quotient {
    /// `self` stands for the rational number `a / b`.
    pub open spec fn is_ratio(self, a: int, b: int) -> bool {
        self.den != 0 && b != 0 && self.num * b == a * self.den
    }
}

/// One row of the projection: the clip coordinate it yields for the pixel
/// `(px, py)` is `x * px + y * py + t`.
#[derive(Clone, Copy, Debug, PartialEq, Eq, Structural)]
pub struct Row {
    /// Coefficient of the pixel's x coordinate.
    pub x: Quotient,
    /// Coefficient of the pixel's y coordinate.
    pub y: Quotient,
    /// Constant term.
    pub t: Quotient,
}

impl Row {
    /// The common denominator over which `numerator` is taken.
    pub open spec fn denominator(self) -> int {
        self.x.den * self.y.den * self.t.den
    }

    /// The row applied to the pixel `(px, py)`, times `denominator()`.
    pub open spec fn numerator(self, px: int, py: int) -> int {
        self.x.num * px * (self.y.den * self.t.den)
            + self.y.num * py * (self.x.den * self.t.den)
            + self.t.num * (self.x.den * self.y.den)
    }
}

/// The two-row projection matrix: `row0` yields clip x, `row1` yields clip y.
#[derive(Clone, Copy, Debug, PartialEq, Eq, Structural)]
pub struct ProjectionMatrix {
    pub row0: Row,
    pub row1: Row,
}

/// The projection for a framebuffer of `width` by `height` pixels:
/// `[[2/width, 0, -1], [0, -2/height, 1]]`.
pub open spec fn projection(width: i32, height: i32) -> ProjectionMatrix {
    ProjectionMatrix {
        row0: Row {
            x: Quotient { num: 2, den: width },
            y: Quotient { num: 0, den: 1 },
            t: Quotient { num: -1i32, den: 1 },
        },
        row1: Row {
            x: Quotient { num: 0, den: 1 },
            y: Quotient { num: -2i32, den: height },
            t: Quotient { num: 1, den: 1 },
        },
    }
}

/// Computes the projection for a framebuffer of `width` by `height` pixels.
///
/// Pixel `(0, 0)` is the top-left corner and lands on clip `(-1, 1)`; pixel
/// `(width, height)` lands on clip `(1, -1)`.
pub fn projection_matrix(width: i32, height: i32) -> (m: ProjectionMatrix)
    ensures
        m == projection(width, height),
{
    ProjectionMatrix {
        row0: Row {
            x: Quotient { num: 2, den: width },
            y: Quotient { num: 0, den: 1 },
            t: Quotient { num: -1, den: 1 },
        },
        row1: Row {
            x: Quotient { num: 0, den: 1 },
            y: Quotient { num: -2, den: height },
            t: Quotient { num: 1, den: 1 },
        },
    }
}

/// For a framebuffer with positive sides, the entries of the projection are
/// the rationals `2/width`, `0`, `-1` in the first row and `0`, `-2/height`,
/// `1` in the second.
pub proof fn lemma_projection_entries(width: i32, height: i32)
    requires
        width > 0,
        height > 0,
    ensures
        ({
            let m = projection(width, height);
            &&& m.row0.x.is_ratio(2, width as int)
            &&& m.row0.y.is_ratio(0, 1)
            &&& m.row0.t.is_ratio(-1, 1)
            &&& m.row1.x.is_ratio(0, 1)
            &&& m.row1.y.is_ratio(-2, height as int)
            &&& m.row1.t.is_ratio(1, 1)
        }),
{
}

/// The projection scales by `2/width` and `2/height`, moves the origin to
/// the top-left corner and flips the y axis: over the common denominators
/// `width` and `height`, pixel `(px, py)` has the clip coordinates
/// `(2 px - width) / width` and `(height - 2 py) / height`.
pub proof fn lemma_projection_maps_pixel(width: i32, height: i32, px: int, py: int)
    requires
        width > 0,
        height > 0,
    ensures
        ({
            let m = projection(width, height);
            &&& m.row0.denominator() == width
            &&& m.row0.numerator(px, py) == 2 * px - width
            &&& m.row1.denominator() == height
            &&& m.row1.numerator(px, py) == height - 2 * py
        }),
{
    let m = projection(width, height);
    let w: int = width as int;
    let h: int = height as int;
    assert(m.row0.denominator() == w && m.row0.numerator(px, py) == 2 * px - w)
        by (nonlinear_arith)
        requires
            m.row0.denominator() == w * 1 * 1,
            m.row0.numerator(px, py) == 2 * px * (1 * 1) + 0 * py * (w * 1) + (-1) * (w * 1),
    ;
    assert(m.row1.denominator() == h && m.row1.numerator(px, py) == h - 2 * py)
        by (nonlinear_arith)
        requires
            m.row1.denominator() == 1 * h * 1,
            m.row1.numerator(px, py) == 0 * px * (h * 1) + (-2) * py * (1 * 1) + 1 * (1 * h),
    ;
}

/// Every pixel of the framebuffer lands inside the clip square, and the
/// corners land on its corners: the top-left pixel on `(-1, 1)`, the
/// bottom-right one on `(1, -1)`.
pub proof fn lemma_projection_fills_clip_square(width: i32, height: i32, px: int, py: int)
    requires
        width > 0,
        height > 0,
        0 <= px <= width,
        0 <= py <= height,
    ensures
        ({
            let m = projection(width, height);
            let x: int = m.row0.numerator(px, py);
            let y: int = m.row1.numerator(px, py);
            &&& -m.row0.denominator() <= x <= m.row0.denominator()
            &&& -m.row1.denominator() <= y <= m.row1.denominator()
            &&& px == 0 ==> x == -m.row0.denominator()
            &&& px == width ==> x == m.row0.denominator()
            &&& py == 0 ==> y == m.row1.denominator()
            &&& py == height ==> y == -m.row1.denominator()
        }),
{
    lemma_projection_maps_pixel(width, height, px, py);
}

} // verus!
