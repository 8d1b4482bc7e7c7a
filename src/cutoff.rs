//! The relative cutoff frequency of a windowed sinc, from a cubic fit in `1/n`.

use vstd::prelude::*;

use crate::windows::WindowFunction;

verus! {

/// Scale of the fit constants: each constant is stored as its value times 10^16.
pub const FIT_SCALE: u128 = 10_000_000_000_000_000;

/// Largest sinc length for which the exact cutoff fraction fits in `u128`.
/// The fit itself is only meaningful for lengths of about 32 to 2048.
pub const MAX_CUTOFF_POINTS: usize = 1_000_000;

/// The fitted constants `(k1, k2, k3)` of a window function, each times 10^16.
pub open spec fn fit_constants(windowfunc: WindowFunction) -> (int, int, int) {
    match windowfunc {
        WindowFunction::BlackmanHarris => (80414436777164760, 559506779343387000, 8980287985384213000),
        WindowFunction::BlackmanHarris2 => (137452029407838230, 1217353258637493400, 59641632796120510000),
        WindowFunction::Blackman => (61595980462011730, 189264150976068780, 6534247430458968000),
        WindowFunction::Blackman2 => (95062351021293980, 791312063495374200, 15022316160588925000),
        WindowFunction::Hann => (33481080887677166, 101065194348750380, 789634524902441400),
        WindowFunction::Hann2 => (53875114837873400, 296945191548950100, 1848211746226623700),
    }
}

/// Numerator of the cutoff `1 / (k1/n + k2/n^2 + k3/n^3 + 1)`, written as
/// `n^3 / (n^3 + k1*n^2 + k2*n + k3)` and scaled by 10^16 on both sides.
pub open spec fn cutoff_num(n: int) -> int {
    FIT_SCALE * (n * n * n)
}

/// Denominator of the cutoff fraction; see `cutoff_num`.
pub open spec fn cutoff_den(n: int, windowfunc: WindowFunction) -> int {
    let (k1, k2, k3) = fit_constants(windowfunc);
    FIT_SCALE * (n * n * n) + k1 * (n * n) + k2 * n + k3
}

/// A relative cutoff frequency, as the exact fraction `num / den` of the Nyquist frequency.
#[derive(Clone, Copy, Debug, PartialEq, Eq, Structural)]
pub struct Cutoff {
    pub num: u128,
    pub den: u128,
}

/// The fitted constants of a window function, each times 10^16.
fn fit_constants_of(windowfunc: WindowFunction) -> (r: (u128, u128, u128))
    ensures
        (r.0 as int, r.1 as int, r.2 as int) == fit_constants(windowfunc),
{
    match windowfunc {
        WindowFunction::BlackmanHarris => (80414436777164760, 559506779343387000, 8980287985384213000),
        WindowFunction::BlackmanHarris2 => (137452029407838230, 1217353258637493400, 59641632796120510000),
        WindowFunction::Blackman => (61595980462011730, 189264150976068780, 6534247430458968000),
        WindowFunction::Blackman2 => (95062351021293980, 791312063495374200, 15022316160588925000),
        WindowFunction::Hann => (33481080887677166, 101065194348750380, 789634524902441400),
        WindowFunction::Hann2 => (53875114837873400, 296945191548950100, 1848211746226623700),
    }
}

/// Calculate a suitable relative cutoff frequency for the given sinc length using the given
/// window function. The result is based on an approximation, which gives good results for
/// sinc lengths from 32 to 2048. It is returned as the exact fraction
/// `n^3 / (n^3 + k1*n^2 + k2*n + k3)`, which equals `1 / (k1/n + k2/n^2 + k3/n^3 + 1)`.
/// For a length of 0 the fraction is 0, the limit of that expression.
pub fn calculate_cutoff(npoints: usize, windowfunc: WindowFunction) -> (r: Cutoff)
    requires
        npoints <= MAX_CUTOFF_POINTS,
    ensures
        r.num == cutoff_num(npoints as int),
        r.den == cutoff_den(npoints as int, windowfunc),
{
    let (k1, k2, k3) = fit_constants_of(windowfunc);
    let n = npoints as u128;
    proof {
        assert(n * n <= 1_000_000_000_000) by (nonlinear_arith)
            requires n <= 1_000_000;
        assert(n * n * n <= 1_000_000_000_000_000_000) by (nonlinear_arith)
            requires n <= 1_000_000, n * n <= 1_000_000_000_000;
        assert(FIT_SCALE * (n * n * n) <= 10_000_000_000_000_000_000_000_000_000_000_000)
            by (nonlinear_arith)
            requires n * n * n <= 1_000_000_000_000_000_000;
        assert(k1 * (n * n) <= 1_000_000_000_000_000_000_000_000_000_000) by (nonlinear_arith)
            requires k1 <= 1_000_000_000_000_000_000, n * n <= 1_000_000_000_000;
        assert(k2 * n <= 10_000_000_000_000_000_000_000_000) by (nonlinear_arith)
            requires k2 <= 10_000_000_000_000_000_000, n <= 1_000_000;
    }
    let cube = FIT_SCALE * (n * n * n);
    Cutoff { num: cube, den: cube + k1 * (n * n) + k2 * n + k3 }
}

proof fn distribute(x: int, a: int, b: int, c: int, d: int)
    ensures
        x * (a + b + c + d) == x * a + x * b + x * c + x * d,
{
    assert(x * (a + b + c + d) == x * a + x * b + x * c + x * d) by (nonlinear_arith);
}

/// For every positive length the cutoff lies strictly between 0 and 1.
pub proof fn lemma_cutoff_in_unit_interval(n: int, windowfunc: WindowFunction)
    requires
        n >= 1,
    ensures
        0 < cutoff_num(n) < cutoff_den(n, windowfunc),
{
    let (k1, k2, k3) = fit_constants(windowfunc);
    assert(n * n * n >= 1) by (nonlinear_arith)
        requires n >= 1;
    assert(k1 * (n * n) >= 0 && k2 * n >= 0) by (nonlinear_arith)
        requires k1 >= 0, k2 >= 0, n >= 1;
}

/// For a fixed window function the cutoff increases with the length: `n < m` gives
/// `num(n) / den(n) < num(m) / den(m)`.
pub proof fn lemma_cutoff_increases(n: int, m: int, windowfunc: WindowFunction)
    requires
        1 <= n < m,
    ensures
        cutoff_num(n) * cutoff_den(m, windowfunc) < cutoff_num(m) * cutoff_den(n, windowfunc),
{
    let (k1, k2, k3) = fit_constants(windowfunc);
    let s = FIT_SCALE as int;
    let n3 = n * n * n;
    let m3 = m * m * m;
    assert(n3 * (m * m) < m3 * (n * n)) by (nonlinear_arith)
        requires 1 <= n < m, n3 == n * n * n, m3 == m * m * m;
    assert(n3 * m <= m3 * n) by (nonlinear_arith)
        requires 1 <= n < m, n3 == n * n * n, m3 == m * m * m;
    assert(n3 < m3) by (nonlinear_arith)
        requires 1 <= n < m, n3 == n * n * n, m3 == m * m * m;
    assert(k1 * (n3 * (m * m)) < k1 * (m3 * (n * n))) by (nonlinear_arith)
        requires k1 > 0, n3 * (m * m) < m3 * (n * n);
    assert(k2 * (n3 * m) <= k2 * (m3 * n)) by (nonlinear_arith)
        requires k2 > 0, n3 * m <= m3 * n;
    assert(k3 * n3 < k3 * m3) by (nonlinear_arith)
        requires k3 > 0, n3 < m3;
    let a = n3 * (m * m);
    let b = m3 * (n * n);
    assert(s * (k1 * a) < s * (k1 * b)) by (nonlinear_arith)
        requires s > 0, k1 * a < k1 * b;
    assert(s * (k2 * (n3 * m)) <= s * (k2 * (m3 * n))) by (nonlinear_arith)
        requires s > 0, k2 * (n3 * m) <= k2 * (m3 * n);
    assert(s * (k3 * n3) < s * (k3 * m3)) by (nonlinear_arith)
        requires s > 0, k3 * n3 < k3 * m3;
    let lhs = s * n3 * (s * m3 + k1 * (m * m) + k2 * m + k3);
    let rhs = s * m3 * (s * n3 + k1 * (n * n) + k2 * n + k3);
    distribute(s * n3, s * m3, k1 * (m * m), k2 * m, k3);
    distribute(s * m3, s * n3, k1 * (n * n), k2 * n, k3);
    assert((s * n3) * (k1 * (m * m)) == s * (k1 * a)) by (nonlinear_arith)
        requires a == n3 * (m * m);
    assert((s * n3) * (k2 * m) == s * (k2 * (n3 * m))) by (nonlinear_arith);
    assert((s * n3) * k3 == s * (k3 * n3)) by (nonlinear_arith);
    assert((s * m3) * (k1 * (n * n)) == s * (k1 * b)) by (nonlinear_arith)
        requires b == m3 * (n * n);
    assert((s * m3) * (k2 * n) == s * (k2 * (m3 * n))) by (nonlinear_arith);
    assert((s * m3) * k3 == s * (k3 * m3)) by (nonlinear_arith);
    assert((s * n3) * (s * m3) == (s * m3) * (s * n3)) by (nonlinear_arith);
}

} // verus!
