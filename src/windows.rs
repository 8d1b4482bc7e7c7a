//! Periodic tapering windows in fixed-point arithmetic.
//!
//! A window of `npoints` coefficients is computed from its cosine table: entry `x` is
//! `cos(2*pi*x/npoints)` times `COS_ONE`. Using `npoints` rather than `npoints - 1` as the
//! denominator makes the window periodic. The higher harmonics follow exactly from
//! `cos(2t) = 2*cos(t)^2 - 1` and `cos(3t) = 4*cos(t)^3 - 3*cos(t)`, so every coefficient
//! is an exact integer function of its cosine. An empty table gives an empty window.

use vstd::prelude::*;

verus! {

/// Different window functions that can be used to window the sinc function.
#[derive(Clone, Copy, Debug, PartialEq, Eq, Structural)]
pub enum WindowFunction {
    /// Blackman. Intermediate rolloff and intermediate attenuation.
    Blackman,
    /// Squared Blackman. Slower rolloff but better attenuation than Blackman.
    Blackman2,
    /// Blackman-Harris. Slow rolloff but good attenuation.
    BlackmanHarris,
    /// Squared Blackman-Harris. Slower rolloff but better attenuation than Blackman-Harris.
    BlackmanHarris2,
    /// Hann. Fast rolloff but not very high attenuation.
    Hann,
    /// Squared Hann. Slower rolloff and higher attenuation than simple Hann.
    Hann2,
}

/// Fixed-point scale of a cosine: the value `1.0` is `COS_ONE`.
pub const COS_ONE: i64 = 1_000_000_000;

/// Fixed-point scale of a window coefficient: the value `1.0` is `UNIT`.
pub const UNIT: i64 = 1_000_000_000_000_000_000;

/// `COS_ONE` squared.
pub const COS_ONE_2: i128 = 1_000_000_000_000_000_000;

/// `COS_ONE` cubed.
pub const COS_ONE_3: i128 = 1_000_000_000_000_000_000_000_000_000;

/// A raw coefficient has scale `10^5 * COS_ONE^3 = 10^32`; this brings it to `UNIT`.
pub const RAW_PER_UNIT: u128 = 100_000_000_000_000;

/// The base shape of a window, without the squaring.
#[derive(Clone, Copy, Debug, PartialEq, Eq, Structural)]
pub enum WindowShape {
    Hann,
    Blackman,
    BlackmanHarris,
}

/// The base shape that a window function starts from.
pub open spec fn shape_of(windowfunc: WindowFunction) -> WindowShape {
    match windowfunc {
        WindowFunction::Hann | WindowFunction::Hann2 => WindowShape::Hann,
        WindowFunction::Blackman | WindowFunction::Blackman2 => WindowShape::Blackman,
        WindowFunction::BlackmanHarris | WindowFunction::BlackmanHarris2 => WindowShape::BlackmanHarris,
    }
}

/// Whether a window function squares its base shape.
pub open spec fn is_squared(windowfunc: WindowFunction) -> bool {
    match windowfunc {
        WindowFunction::Hann2 | WindowFunction::Blackman2 | WindowFunction::BlackmanHarris2 => true,
        _ => false,
    }
}

/// The cosine series `a0 - a1*cos(t) + a2*cos(2t) - a3*cos(3t)` of a shape, in units of 10^-5.
pub open spec fn series(shape: WindowShape) -> (int, int, int, int) {
    match shape {
        WindowShape::Hann => (50000, 50000, 0, 0),
        WindowShape::Blackman => (42000, 50000, 8000, 0),
        WindowShape::BlackmanHarris => (35875, 48829, 14128, 1168),
    }
}

/// `cos(2t) * COS_ONE^2`, for `c = cos(t) * COS_ONE`.
pub open spec fn cos_double(c: int) -> int {
    2 * (c * c) - COS_ONE_2
}

/// `cos(3t) * COS_ONE^3`, for `c = cos(t) * COS_ONE`.
pub open spec fn cos_triple(c: int) -> int {
    4 * (c * (c * c)) - 3 * (c * COS_ONE_2)
}

/// The series of a shape at `c = cos(t) * COS_ONE`, with scale `10^32`.
pub open spec fn raw_sample(shape: WindowShape, c: int) -> int {
    let (a0, a1, a2, a3) = series(shape);
    a0 * COS_ONE_3 - a1 * (c * COS_ONE_2) + a2 * (cos_double(c) * COS_ONE) - a3 * cos_triple(c)
}

/// Division rounding toward zero.
pub open spec fn div_toward_zero(a: int, d: int) -> int {
    if a >= 0 {
        a / d
    } else {
        -((-a) / d)
    }
}

/// The coefficient of a shape at `c = cos(t) * COS_ONE`, with scale `UNIT`.
pub open spec fn shape_sample(shape: WindowShape, c: int) -> int {
    div_toward_zero(raw_sample(shape, c), RAW_PER_UNIT as int)
}

/// A coefficient squared, with scale `UNIT`.
pub open spec fn square(w: int) -> int {
    (w * w) / (UNIT as int)
}

/// The coefficient of a window function at `c = cos(t) * COS_ONE`, with scale `UNIT`.
pub open spec fn window_sample(windowfunc: WindowFunction, c: int) -> int {
    let w = shape_sample(shape_of(windowfunc), c);
    if is_squared(windowfunc) {
        square(w)
    } else {
        w
    }
}

/// Every entry is a cosine, `-COS_ONE <= c <= COS_ONE`.
pub open spec fn valid_cosines(cosines: Seq<i64>) -> bool {
    forall|i: int| 0 <= i < cosines.len() ==> -COS_ONE <= #[trigger] cosines[i] <= COS_ONE
}

/// The window of a shape over a table of cosines, coefficient by coefficient.
pub open spec fn shape_window(shape: WindowShape, cosines: Seq<i64>) -> Seq<int> {
    Seq::new(cosines.len(), |i: int| shape_sample(shape, cosines[i] as int))
}

/// The window of a window function over a table of cosines, coefficient by coefficient.
pub open spec fn window_of(windowfunc: WindowFunction, cosines: Seq<i64>) -> Seq<int> {
    Seq::new(cosines.len(), |i: int| window_sample(windowfunc, cosines[i] as int))
}

proof fn lemma_mul_bound(a: int, b: int, x: int, y: int)
    requires
        -x <= a <= x,
        -y <= b <= y,
    ensures
        -(x * y) <= a * b <= x * y,
{
    assert(-(x * y) <= a * b <= x * y) by (nonlinear_arith)
        requires
            -x <= a <= x,
            -y <= b <= y,
    ;
}

/// The terms of the series stay within `COS_ONE^3` times a small factor.
proof fn lemma_sample_bound(shape: WindowShape, c: int)
    requires
        -COS_ONE <= c <= COS_ONE,
    ensures
        0 <= c * c <= COS_ONE_2,
        -COS_ONE_3 <= c * (c * c) <= COS_ONE_3,
        -COS_ONE_3 <= c * COS_ONE_2 <= COS_ONE_3,
        -COS_ONE_3 <= cos_double(c) * COS_ONE <= COS_ONE_3,
        -7 * COS_ONE_3 <= cos_triple(c) <= 7 * COS_ONE_3,
        -200_000 * COS_ONE_3 <= raw_sample(shape, c) <= 200_000 * COS_ONE_3,
        -2 * UNIT <= shape_sample(shape, c) <= 2 * UNIT,
{
    lemma_mul_bound(c, c, COS_ONE as int, COS_ONE as int);
    assert(0 <= c * c) by (nonlinear_arith);
    lemma_mul_bound(c, c * c, COS_ONE as int, COS_ONE_2 as int);
    lemma_mul_bound(c, COS_ONE_2 as int, COS_ONE as int, COS_ONE_2 as int);
    lemma_mul_bound(cos_double(c), COS_ONE as int, COS_ONE_2 as int, COS_ONE as int);
    let (a0, a1, a2, a3) = series(shape);
    lemma_mul_bound(a1, c * COS_ONE_2, 50000, COS_ONE_3 as int);
    lemma_mul_bound(a2, cos_double(c) * COS_ONE, 15000, COS_ONE_3 as int);
    lemma_mul_bound(a3, cos_triple(c), 1200, 7 * COS_ONE_3);
    let raw = raw_sample(shape, c);
    if raw >= 0 {
        assert(raw / (RAW_PER_UNIT as int) <= 2 * UNIT) by (nonlinear_arith)
            requires 0 <= raw <= 200_000 * COS_ONE_3;
        assert(raw / (RAW_PER_UNIT as int) >= 0) by (nonlinear_arith)
            requires 0 <= raw;
    } else {
        assert((-raw) / (RAW_PER_UNIT as int) <= 2 * UNIT) by (nonlinear_arith)
            requires 0 <= -raw <= 200_000 * COS_ONE_3;
        assert((-raw) / (RAW_PER_UNIT as int) >= 0) by (nonlinear_arith)
            requires 0 <= -raw;
    }
}

/// The series of a shape at one cosine, in fixed point.
fn sample_of(shape: WindowShape, c: i64) -> (r: i64)
    requires
        -COS_ONE <= c <= COS_ONE,
    ensures
        r == shape_sample(shape, c as int),
        -2 * UNIT <= r <= 2 * UNIT,
{
    proof {
        lemma_sample_bound(shape, c as int);
    }
    let (a0, a1, a2, a3): (i128, i128, i128, i128) = match shape {
        WindowShape::Hann => (50000, 50000, 0, 0),
        WindowShape::Blackman => (42000, 50000, 8000, 0),
        WindowShape::BlackmanHarris => (35875, 48829, 14128, 1168),
    };
    assert((a0 as int, a1 as int, a2 as int, a3 as int) == series(shape));
    let c = c as i128;
    let c_sq = c * c;
    let c_cube = c * c_sq;
    let c_scaled = c * COS_ONE_2;
    let double = 2 * c_sq - COS_ONE_2;
    let triple = 4 * c_cube - 3 * c_scaled;
    let double_scaled = double * (COS_ONE as i128);
    proof {
        lemma_mul_bound(a1 as int, c_scaled as int, 50000, COS_ONE_3 as int);
        lemma_mul_bound(a2 as int, double_scaled as int, 15000, COS_ONE_3 as int);
        lemma_mul_bound(a3 as int, triple as int, 1200, 7 * COS_ONE_3);
    }
    let raw = a0 * COS_ONE_3 - a1 * c_scaled + a2 * double_scaled - a3 * triple;
    if raw >= 0 {
        ((raw as u128) / RAW_PER_UNIT) as i64
    } else {
        -(((-raw) as u128 / RAW_PER_UNIT) as i64)
    }
}

/// The window of a shape over a table of cosines.
fn generate(shape: WindowShape, cosines: &Vec<i64>) -> (r: Vec<i64>)
    requires
        valid_cosines(cosines@),
    ensures
        r@.len() == cosines@.len(),
        forall|i: int| 0 <= i < r@.len() ==> r@[i] == #[trigger] shape_window(shape, cosines@)[i],
        forall|i: int| 0 <= i < r@.len() ==> -2 * UNIT <= #[trigger] r@[i] <= 2 * UNIT,
{
    let mut window: Vec<i64> = Vec::new();
    let mut x: usize = 0;
    while x < cosines.len()
        invariant
            x <= cosines@.len(),
            valid_cosines(cosines@),
            window@.len() == x,
            forall|i: int| 0 <= i < x ==> window@[i] == #[trigger] shape_window(shape, cosines@)[i],
            forall|i: int| 0 <= i < x ==> -2 * UNIT <= #[trigger] window@[i] <= 2 * UNIT,
        decreases cosines@.len() - x,
    {
        let w = sample_of(shape, cosines[x]);
        window.push(w);
        x = x + 1;
    }
    window
}

/// Standard Blackman-Harris window,
/// `0.35875 - 0.48829*cos(t) + 0.14128*cos(2t) - 0.01168*cos(3t)`.
/// Entry `x` of `cosines` is `cos(t)` for `t = 2*pi*x/npoints`, times `COS_ONE`; with that
/// table the window created is periodic. Each coefficient comes out times `UNIT`.
pub fn blackman_harris(cosines: &Vec<i64>) -> (r: Vec<i64>)
    requires
        valid_cosines(cosines@),
    ensures
        r@.len() == cosines@.len(),
        forall|i: int| 0 <= i < r@.len() ==> r@[i] == #[trigger] shape_window(WindowShape::BlackmanHarris, cosines@)[i],
{
    generate(WindowShape::BlackmanHarris, cosines)
}

/// Standard Blackman window, `0.42 - 0.5*cos(t) + 0.08*cos(2t)`.
/// The cosine table and the scale are as for `blackman_harris`.
pub fn blackman(cosines: &Vec<i64>) -> (r: Vec<i64>)
    requires
        valid_cosines(cosines@),
    ensures
        r@.len() == cosines@.len(),
        forall|i: int| 0 <= i < r@.len() ==> r@[i] == #[trigger] shape_window(WindowShape::Blackman, cosines@)[i],
{
    generate(WindowShape::Blackman, cosines)
}

/// Standard Hann window, `0.5 - 0.5*cos(t)`.
/// The cosine table and the scale are as for `blackman_harris`.
pub fn hann(cosines: &Vec<i64>) -> (r: Vec<i64>)
    requires
        valid_cosines(cosines@),
    ensures
        r@.len() == cosines@.len(),
        forall|i: int| 0 <= i < r@.len() ==> r@[i] == #[trigger] shape_window(WindowShape::Hann, cosines@)[i],
{
    generate(WindowShape::Hann, cosines)
}

/// Make the selected window function: its base shape, squared coefficient by coefficient
/// for the squared variants.
pub fn make_window(cosines: &Vec<i64>, windowfunc: WindowFunction) -> (r: Vec<i64>)
    requires
        valid_cosines(cosines@),
    ensures
        r@.len() == cosines@.len(),
        forall|i: int| 0 <= i < r@.len() ==> r@[i] == #[trigger] window_of(windowfunc, cosines@)[i],
{
    let shape = match windowfunc {
        WindowFunction::BlackmanHarris | WindowFunction::BlackmanHarris2 => WindowShape::BlackmanHarris,
        WindowFunction::Blackman | WindowFunction::Blackman2 => WindowShape::Blackman,
        WindowFunction::Hann | WindowFunction::Hann2 => WindowShape::Hann,
    };
    let mut window = generate(shape, cosines);
    let squared = match windowfunc {
        WindowFunction::Blackman2 | WindowFunction::BlackmanHarris2 | WindowFunction::Hann2 => true,
        _ => false,
    };
    assert(squared == is_squared(windowfunc));
    assert(shape == shape_of(windowfunc));
    if squared {
        let ghost base = window@;
        let mut x: usize = 0;
        while x < window.len()
            invariant
                window@.len() == base.len(),
                base.len() == cosines@.len(),
                x <= base.len(),
                is_squared(windowfunc),
                shape == shape_of(windowfunc),
                forall|i: int| 0 <= i < base.len() ==> base[i] == #[trigger] shape_window(shape, cosines@)[i],
                forall|i: int| 0 <= i < base.len() ==> -2 * UNIT <= #[trigger] base[i] <= 2 * UNIT,
                forall|i: int| 0 <= i < x ==> window@[i] == #[trigger] square(base[i] as int),
                forall|i: int| x <= i < base.len() ==> window@[i] == #[trigger] base[i],
            decreases base.len() - x,
        {
            let w = window[x] as i128;
            proof {
                assert(window@[x as int] == base[x as int]);
                lemma_mul_bound(w as int, w as int, 2 * UNIT, 2 * UNIT);
                assert(0 <= w * w) by (nonlinear_arith);
            }
            let sq = ((w * w) as u128 / (UNIT as u128)) as i64;
            window.set(x, sq);
            x = x + 1;
        }
    }
    assert forall|i: int| 0 <= i < window@.len() implies window@[i] == #[trigger] window_of(
        windowfunc,
        cosines@,
    )[i] by {
        assert(shape_window(shape, cosines@)[i] == shape_sample(shape, cosines@[i] as int));
    }
    window
}

/// The squared variant of a base window function.
pub open spec fn squared_of(windowfunc: WindowFunction) -> WindowFunction {
    match windowfunc {
        WindowFunction::Hann | WindowFunction::Hann2 => WindowFunction::Hann2,
        WindowFunction::Blackman | WindowFunction::Blackman2 => WindowFunction::Blackman2,
        WindowFunction::BlackmanHarris | WindowFunction::BlackmanHarris2 => WindowFunction::BlackmanHarris2,
    }
}

/// Every window function yields exactly one coefficient per entry of the cosine table,
/// that is `npoints` coefficients for a table of `npoints` cosines.
pub proof fn lemma_window_length(windowfunc: WindowFunction, cosines: Seq<i64>)
    ensures
        window_of(windowfunc, cosines).len() == cosines.len(),
{
}

/// Every base shape peaks at exactly 1.0 where `cos(t) = -1`, which is index `npoints/2`
/// of a periodic window of even length; so do the squared variants.
pub proof fn lemma_peak(windowfunc: WindowFunction)
    ensures
        shape_sample(shape_of(windowfunc), -COS_ONE as int) == UNIT,
        window_sample(windowfunc, -COS_ONE as int) == UNIT,
{
    let c = -COS_ONE as int;
    assert(c * c == COS_ONE_2 && c * (c * c) == -COS_ONE_3 && c * COS_ONE_2 == -COS_ONE_3)
        by (nonlinear_arith)
        requires c == -1_000_000_000;
    assert(cos_double(c) == COS_ONE_2 && cos_triple(c) == -COS_ONE_3);
    assert(cos_double(c) * COS_ONE == COS_ONE_3);
    assert(50000 * (c * COS_ONE_2) == -50000 * COS_ONE_3);
    assert(series(WindowShape::Hann) == (50000int, 50000int, 0int, 0int));
    assert(raw_sample(WindowShape::Hann, c) == 100_000 * COS_ONE_3);
    assert(raw_sample(WindowShape::Blackman, c) == 100_000 * COS_ONE_3);
    assert(raw_sample(WindowShape::BlackmanHarris, c) == 100_000 * COS_ONE_3);
    assert((UNIT as int) * (UNIT as int) / (UNIT as int) == UNIT) by (nonlinear_arith);
}

/// At index 0, where `cos(t) = 1`, Hann and Blackman are exactly 0 and Blackman-Harris is
/// 0.00006, well below 0.001.
pub proof fn lemma_boundary()
    ensures
        shape_sample(WindowShape::Hann, COS_ONE as int) == 0,
        shape_sample(WindowShape::Blackman, COS_ONE as int) == 0,
        shape_sample(WindowShape::BlackmanHarris, COS_ONE as int) == 60_000_000_000_000,
        60_000_000_000_000 < UNIT / 1000,
{
}

/// A squared window is the base window with every coefficient squared.
pub proof fn lemma_squared_window(windowfunc: WindowFunction, cosines: Seq<i64>, i: int)
    requires
        0 <= i < cosines.len(),
    ensures
        window_of(squared_of(windowfunc), cosines)[i] == square(
            shape_window(shape_of(windowfunc), cosines)[i],
        ),
        !is_squared(windowfunc) ==> window_of(squared_of(windowfunc), cosines)[i] == square(
            window_of(windowfunc, cosines)[i],
        ),
{
}

} // verus!
