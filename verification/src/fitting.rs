//! Uniform scaling of an image into a box interior, as an exact rational.
//!
//! The scale that fits an image of `w x h` pixels into an `iw x ih` interior
//! while preserving aspect ratio is `min(iw / w, ih / h)`. Carrying it as a
//! fraction keeps it exact; the drawing layer divides it out only at the
//! moment it hands the transform to the canvas.

use vstd::prelude::*;

verus! {

/// Largest image or interior side accepted, so that the cross products used
/// to compare the two candidate ratios fit in a `u64`.
pub const MAX_FIT_SIDE: u64 = 0xFFFF_FFFF;

/// An exact nonnegative rational `num / den`, `den > 0`.
#[derive(Clone, Copy, PartialEq, Eq, Structural, Debug)]
pub struct Frac {
    pub num: u64,
    pub den: u64,
}

impl Frac {
    /// The value `num / den`, as a comparison against another fraction:
    /// `self <= b/a` with `a > 0`.
    pub open spec fn le_ratio(self, b: int, a: int) -> bool {
        self.num * a <= b * self.den
    }
}

/// Everything that can abort a run: the required input directory is absent,
/// a referenced image is missing or undecodable, or an image reports a
/// degenerate (zero) dimension so no scale is defined.
#[derive(Clone, Copy, PartialEq, Eq, Structural, Debug)]
pub enum GenError {
    DirectoryNotFound,
    ImageLoadError,
    DegenerateGeometryError,
}

/// The uniform scale fitting a `width x height` image into an
/// `inner_width x inner_height` interior: the smaller of the two axis
/// ratios, kept as the exact fraction it came from.
pub open spec fn spec_fit_scale(
    width: int,
    height: int,
    inner_width: int,
    inner_height: int,
) -> Frac {
    if inner_width * height <= inner_height * width {
        Frac { num: inner_width as u64, den: width as u64 }
    } else {
        Frac { num: inner_height as u64, den: height as u64 }
    }
}

/// Compute the uniform aspect-preserving scale that fits an image of the
/// given pixel dimensions into a box interior. A zero dimension leaves the
/// scale undefined and is rejected.
pub fn fit_scale(width: u64, height: u64, inner_width: u64, inner_height: u64) -> (r: Result<
    Frac,
    GenError,
>)
    requires
        width <= MAX_FIT_SIDE,
        height <= MAX_FIT_SIDE,
        inner_width <= MAX_FIT_SIDE,
        inner_height <= MAX_FIT_SIDE,
    ensures
        r is Ok <==> (width > 0 && height > 0),
        r matches Err(e) ==> e == GenError::DegenerateGeometryError,
        r matches Ok(f) ==> f == spec_fit_scale(
            width as int,
            height as int,
            inner_width as int,
            inner_height as int,
        ),
{
    if width == 0 || height == 0 {
        return Err(GenError::DegenerateGeometryError);
    }
    proof {
        assert(inner_width * height <= MAX_FIT_SIDE * MAX_FIT_SIDE) by (nonlinear_arith)
            requires inner_width <= MAX_FIT_SIDE && height <= MAX_FIT_SIDE;
        assert(inner_height * width <= MAX_FIT_SIDE * MAX_FIT_SIDE) by (nonlinear_arith)
            requires inner_height <= MAX_FIT_SIDE && width <= MAX_FIT_SIDE;
    }
    if inner_width * height <= inner_height * width {
        Ok(Frac { num: inner_width, den: width })
    } else {
        Ok(Frac { num: inner_height, den: height })
    }
}

/// The fitted scale is sound: it has a positive denominator, it is no larger
/// than either axis ratio (so the scaled image is fully contained in the
/// interior), and it equals one of them (so the scaled image touches at
/// least one interior edge).
pub proof fn lemma_fit_scale_contains(width: int, height: int, inner_width: int, inner_height: int)
    requires
        0 < width,
        0 < height,
        0 <= inner_width,
        0 <= inner_height,
        width <= MAX_FIT_SIDE,
        height <= MAX_FIT_SIDE,
        inner_width <= MAX_FIT_SIDE,
        inner_height <= MAX_FIT_SIDE,
    ensures
        spec_fit_scale(width, height, inner_width, inner_height).den > 0,
        spec_fit_scale(width, height, inner_width, inner_height).le_ratio(inner_width, width),
        spec_fit_scale(width, height, inner_width, inner_height).le_ratio(inner_height, height),
        spec_fit_scale(width, height, inner_width, inner_height) == (Frac {
            num: inner_width as u64,
            den: width as u64,
        }) || spec_fit_scale(width, height, inner_width, inner_height) == (Frac {
            num: inner_height as u64,
            den: height as u64,
        }),
{
    let f = spec_fit_scale(width, height, inner_width, inner_height);
    if inner_width * height <= inner_height * width {
        assert(f.num * width <= inner_width * f.den);
        assert(f.num * height <= inner_height * f.den) by (nonlinear_arith)
            requires
                f.num == inner_width,
                f.den == width,
                inner_width * height <= inner_height * width;
    } else {
        assert(f.num * height <= inner_height * f.den);
        assert(f.num * width <= inner_width * f.den) by (nonlinear_arith)
            requires
                f.num == inner_height,
                f.den == height,
                inner_height * width <= inner_width * height;
    }
}

} // verus!
