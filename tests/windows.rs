use sinc_window::{
    blackman, blackman_harris, calculate_cutoff, hann, make_window, Cutoff, WindowFunction,
    COS_ONE, MAX_CUTOFF_POINTS, UNIT,
};

const ALL: [WindowFunction; 6] = [
    WindowFunction::Blackman,
    WindowFunction::Blackman2,
    WindowFunction::BlackmanHarris,
    WindowFunction::BlackmanHarris2,
    WindowFunction::Hann,
    WindowFunction::Hann2,
];

/// The cosine table of a periodic window: entry `x` is `cos(2*pi*x/npoints)`, times `COS_ONE`.
fn cosines(npoints: usize) -> Vec<i64> {
    (0..npoints)
        .map(|x| {
            let t = 2.0 * std::f64::consts::PI * x as f64 / npoints as f64;
            (t.cos() * COS_ONE as f64).round() as i64
        })
        .collect()
}

fn value(w: i64) -> f64 {
    w as f64 / UNIT as f64
}

fn ratio(c: Cutoff) -> f64 {
    c.num as f64 / c.den as f64
}

fn assert_close(a: f64, b: f64, epsilon: f64) {
    assert!((a - b).abs() <= epsilon, "{} and {} differ by more than {}", a, b, epsilon);
}

#[test]
fn test_blackman_harris() {
    let wnd = blackman_harris(&cosines(16));
    assert_close(value(wnd[8]), 1.0, 0.000001);
    assert!(value(wnd[0]) < 0.001);
    assert!(value(wnd[15]) < 0.1);
}

#[test]
fn test_blackman() {
    let wnd = blackman(&cosines(16));
    assert_close(value(wnd[8]), 1.0, 0.000001);
    assert!(value(wnd[0]) < 0.000001);
    assert!(value(wnd[15]) < 0.1);
}

#[test]
fn test_blackman2() {
    let table = cosines(16);
    let wnd: Vec<f64> = make_window(&table, WindowFunction::Blackman).into_iter().map(value).collect();
    let wnd2: Vec<f64> = make_window(&table, WindowFunction::Blackman2).into_iter().map(value).collect();
    assert_close(wnd[1] * wnd[1], wnd2[1], 0.000001);
    assert_close(wnd[4] * wnd[4], wnd2[4], 0.000001);
    assert_close(wnd[7] * wnd[7], wnd2[7], 0.000001);
    assert!(wnd2[1] > 0.000001);
    assert!(wnd2[4] > 0.000001);
    assert!(wnd2[7] > 0.000001);
}

#[test]
fn test_hann() {
    let wnd = hann(&cosines(16));
    assert_close(value(wnd[8]), 1.0, 0.000001);
    assert!(value(wnd[0]) < 0.000001);
    assert!(value(wnd[15]) < 0.1);
}

#[test]
fn test_cutoff() {
    let cases = [
        (128, WindowFunction::Blackman, 0.953),
        (256, WindowFunction::Blackman, 0.976),
        (128, WindowFunction::Blackman2, 0.926),
        (256, WindowFunction::Blackman2, 0.963),
        (128, WindowFunction::BlackmanHarris, 0.937),
        (256, WindowFunction::BlackmanHarris, 0.969),
        (128, WindowFunction::BlackmanHarris2, 0.894),
        (256, WindowFunction::BlackmanHarris2, 0.947),
        (128, WindowFunction::Hann, 0.974),
        (256, WindowFunction::Hann, 0.987),
        (128, WindowFunction::Hann2, 0.958),
        (256, WindowFunction::Hann2, 0.979),
    ];
    for (npoints, windowfunc, expected) in cases {
        let cutoff = calculate_cutoff(npoints, windowfunc);
        assert_close(ratio(cutoff), expected, 0.001);
    }
}

#[test]
fn window_length_matches_table() {
    for npoints in [0usize, 1, 2, 7, 16, 33, 256] {
        let table = cosines(npoints);
        for windowfunc in ALL {
            assert_eq!(make_window(&table, windowfunc).len(), npoints);
        }
        assert_eq!(hann(&table).len(), npoints);
        assert_eq!(blackman(&table).len(), npoints);
        assert_eq!(blackman_harris(&table).len(), npoints);
    }
}

#[test]
fn peak_is_one_at_half_length() {
    for npoints in [8usize, 16, 64, 1024] {
        let table = cosines(npoints);
        for windowfunc in ALL {
            let wnd = make_window(&table, windowfunc);
            assert_eq!(wnd[npoints / 2], UNIT);
        }
    }
}

#[test]
fn boundary_values_are_exact() {
    let table = cosines(16);
    assert_eq!(hann(&table)[0], 0);
    assert_eq!(blackman(&table)[0], 0);
    assert_eq!(blackman_harris(&table)[0], 60_000_000_000_000);
    for windowfunc in ALL {
        assert!(value(make_window(&table, windowfunc)[0]) < 0.1);
    }
}

#[test]
fn squared_variants_square_every_coefficient() {
    let pairs = [
        (WindowFunction::Hann, WindowFunction::Hann2),
        (WindowFunction::Blackman, WindowFunction::Blackman2),
        (WindowFunction::BlackmanHarris, WindowFunction::BlackmanHarris2),
    ];
    for npoints in [1usize, 16, 100] {
        let table = cosines(npoints);
        for (base, squared) in pairs {
            let wnd = make_window(&table, base);
            let wnd2 = make_window(&table, squared);
            for i in 0..npoints {
                assert_close(value(wnd[i]) * value(wnd[i]), value(wnd2[i]), 0.000001);
            }
        }
    }
}

#[test]
fn coefficients_at_quarter_turn() {
    let table = vec![0i64];
    assert_eq!(hann(&table), vec![500_000_000_000_000_000]);
    assert_eq!(blackman(&table), vec![340_000_000_000_000_000]);
    assert_eq!(blackman_harris(&table), vec![217_470_000_000_000_000]);
    assert_eq!(make_window(&table, WindowFunction::Hann2), vec![250_000_000_000_000_000]);
    assert_eq!(make_window(&table, WindowFunction::Blackman2), vec![115_600_000_000_000_000]);
}

#[test]
fn coefficients_follow_the_float_formulas() {
    let npoints = 37usize;
    let table = cosines(npoints);
    let h = hann(&table);
    let b = blackman(&table);
    let bh = blackman_harris(&table);
    for x in 0..npoints {
        let t = 2.0 * std::f64::consts::PI * x as f64 / npoints as f64;
        assert_close(value(h[x]), 0.5 - 0.5 * t.cos(), 1e-8);
        assert_close(value(b[x]), 0.42 - 0.5 * t.cos() + 0.08 * (2.0 * t).cos(), 1e-8);
        let expected = 0.35875 - 0.48829 * t.cos() + 0.14128 * (2.0 * t).cos()
            - 0.01168 * (3.0 * t).cos();
        assert_close(value(bh[x]), expected, 1e-8);
    }
}

#[test]
fn cutoff_fraction_is_exact() {
    let one = calculate_cutoff(1, WindowFunction::Hann);
    assert_eq!(one.num, 10_000_000_000_000_000);
    assert_eq!(
        one.den,
        10_000_000_000_000_000 + 33481080887677166 + 101065194348750380 + 789634524902441400
    );
    let two = calculate_cutoff(2, WindowFunction::BlackmanHarris2);
    assert_eq!(two.num, 80_000_000_000_000_000);
    assert_eq!(
        two.den,
        80_000_000_000_000_000
            + 4 * 137452029407838230
            + 2 * 1217353258637493400
            + 59641632796120510000
    );
}

#[test]
fn cutoff_of_empty_length_is_zero() {
    for windowfunc in ALL {
        let cutoff = calculate_cutoff(0, windowfunc);
        assert_eq!(cutoff.num, 0);
        assert!(cutoff.den > 0);
    }
}

#[test]
fn cutoff_at_largest_length() {
    for windowfunc in ALL {
        let cutoff = calculate_cutoff(MAX_CUTOFF_POINTS, windowfunc);
        assert!(cutoff.num < cutoff.den);
        assert!(ratio(cutoff) > 0.9999);
    }
}

#[test]
fn cutoff_increases_toward_one() {
    for windowfunc in ALL {
        let mut previous = calculate_cutoff(32, windowfunc);
        for npoints in 33..=2048usize {
            let cutoff = calculate_cutoff(npoints, windowfunc);
            assert!(cutoff.num < cutoff.den);
            assert!(ratio(previous) < ratio(cutoff));
            previous = cutoff;
        }
        assert!(ratio(calculate_cutoff(128, windowfunc)) < ratio(calculate_cutoff(256, windowfunc)));
    }
}
