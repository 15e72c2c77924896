use approx::UlpsEq;
use bokeh_lib::spline::{pad_points, tessellate, tessellate_axis, SplineError};

type Tag = (i64, i64, i64, i64, i64);

fn tag(v: i64) -> Tag {
    (v, 0, 0, 0, 0)
}

fn record(a: Tag, b: Tag, c: Tag, d: Tag, j: usize) -> Tag {
    (a.0, b.0, c.0, d.0, j as i64)
}

fn hermite(tension: f64, segments: usize) -> impl Fn(f64, f64, f64, f64, usize) -> f64 {
    move |prev: f64, p0: f64, p1: f64, next: f64, j: usize| {
        let t = (j as f64) / (segments as f64);
        let t2 = t * t;
        let t3 = t * t2;
        let h00 = 2.0 * t3 - 3.0 * t2 + 1.0;
        let h01 = -2.0 * t3 + 3.0 * t2;
        let h10 = t3 - 2.0 * t2 + t;
        let h11 = t3 - t2;
        h00 * p0 + h01 * p1 + h10 * ((p1 - prev) * tension) + h11 * ((next - p0) * tension)
    }
}

#[test]
fn pad_open_repeats_end_points() {
    assert_eq!(pad_points(&vec![1, 2, 3], false), vec![1, 1, 2, 3, 3]);
    assert_eq!(pad_points(&vec![7], false), vec![7, 7, 7]);
}

#[test]
fn pad_closed_wraps_around() {
    assert_eq!(pad_points(&vec![1, 2, 3], true), vec![3, 1, 2, 3, 1, 2]);
    assert_eq!(pad_points(&vec![4, 5], true), vec![5, 4, 5, 4, 5]);
}

#[test]
fn open_layout_walks_spans_in_order() {
    let pts = vec![tag(1), tag(2), tag(3)];
    let out = tessellate_axis(&pts, 2, false, &record).unwrap();
    assert_eq!(
        out,
        vec![
            (1, 1, 2, 3, 0),
            (1, 1, 2, 3, 1),
            (1, 1, 2, 3, 2),
            (1, 2, 3, 3, 0),
            (1, 2, 3, 3, 1),
            (1, 2, 3, 3, 2),
        ]
    );
}

#[test]
fn closed_layout_adds_closing_span() {
    let pts = vec![tag(1), tag(2), tag(3)];
    let out = tessellate_axis(&pts, 1, true, &record).unwrap();
    assert_eq!(
        out,
        vec![
            (3, 1, 2, 3, 0),
            (3, 1, 2, 3, 1),
            (1, 2, 3, 1, 0),
            (1, 2, 3, 1, 1),
            (2, 3, 1, 2, 0),
            (2, 3, 1, 2, 1),
        ]
    );
}

#[test]
fn single_point_open_curve_is_empty() {
    let out = tessellate_axis(&vec![tag(5)], 4, false, &record).unwrap();
    assert!(out.is_empty());
}

#[test]
fn zero_segments_gives_one_sample_per_span() {
    let out = tessellate_axis(&vec![tag(1), tag(2), tag(3)], 0, false, &record).unwrap();
    assert_eq!(out, vec![(1, 1, 2, 3, 0), (1, 2, 3, 3, 0)]);
}

#[test]
fn too_few_points_is_refused() {
    assert_eq!(
        tessellate_axis(&Vec::<Tag>::new(), 3, false, &record),
        Err(SplineError::TooFewPoints)
    );
    assert_eq!(
        tessellate_axis(&vec![tag(1)], 3, true, &record),
        Err(SplineError::TooFewPoints)
    );
    assert_eq!(
        tessellate(&vec![tag(1)], &vec![tag(2)], 3, true, &record),
        Err(SplineError::TooFewPoints)
    );
}

#[test]
fn mismatched_lengths_are_refused() {
    let xs = vec![1.0, 3.0, 7.0];
    let ys = vec![1.0, 8.0];
    assert_eq!(
        tessellate(&xs, &ys, 10, false, &hermite(0.5, 10)),
        Err(SplineError::LengthMismatch)
    );
}

#[test]
fn catmullrom_reference_curve() {
    let x = vec![1.0, 3.0, 7.0, 8.0];
    let y = vec![1.0, 8.0, 3.0, 5.0];
    let (xt, yt) = tessellate(&x, &y, 20, false, &hermite(0.5, 20)).unwrap();

    let _xt = [
      1.0, 1.0525, 1.11, 1.1725, 1.24, 1.3125, 1.39, 1.4725, 1.56, 1.6525, 1.75, 1.8525, 1.96,
      2.0725, 2.19, 2.3125, 2.44, 2.5725, 2.71, 2.8525, 3.0, 3.0, 3.1584375, 3.3325, 3.5203125,
      3.72, 3.9296875, 4.1475, 4.3715625, 4.6, 4.8309375, 5.0625, 5.2928125, 5.52, 5.7421875,
      5.9575, 6.1640625, 6.36, 6.5434375, 6.7125, 6.8653125, 7.0, 7.0, 7.118875, 7.226,
      7.322124999999999, 7.408, 7.484375, 7.552, 7.611625, 7.664, 7.709874999999999, 7.75,
      7.785125, 7.816, 7.843375, 7.868, 7.890625, 7.912, 7.932874999999999, 7.954, 7.976125, 8.0,
    ];
    let _yt = [
      1.0, 1.2063125, 1.4705, 1.7854375, 2.144, 2.5390625, 2.9635, 3.4101874999999997, 3.872,
      4.3418125, 4.8125, 5.2769375, 5.728, 6.1585624999999995, 6.5615, 6.9296875, 7.256,
      7.533312499999998, 7.7545, 7.9124375, 8.0, 8.0, 8.012437499999999, 7.9545, 7.8333125,
      7.656, 7.4296875, 7.1615, 6.8585625, 6.528, 6.176937499999999, 5.8125, 5.441812499999999,
      5.072, 4.7101875, 4.3635, 4.0390625, 3.744, 3.4854375, 3.2705, 3.1063124999999987, 3.0,
      3.0, 2.9444375, 2.9255, 2.9398125, 2.984, 3.0546875, 3.1485, 3.2620624999999994, 3.392,
      3.5349375, 3.6875, 3.8463125, 4.008, 4.1691875, 4.3265, 4.4765625, 4.616, 4.741437499999999,
      4.8495, 4.9368125, 5.0,
    ];

    assert_eq!(xt.len(), 63);
    assert_eq!(yt.len(), 63);
    for (xi, xj) in xt.iter().zip(_xt.iter()) {
        assert!(xi.ulps_eq(xj, f64::EPSILON, 4), "{} != {}", xi, xj);
    }
    for (yi, yj) in yt.iter().zip(_yt.iter()) {
        assert!(yi.ulps_eq(yj, f64::EPSILON, 4), "{} != {}", yi, yj);
    }
}

#[test]
fn open_curve_ends_on_input_end_points() {
    let x = vec![1.0, 3.0, 7.0, 8.0];
    let y = vec![1.0, 8.0, 3.0, 5.0];
    let (xt, yt) = tessellate(&x, &y, 20, false, &hermite(0.5, 20)).unwrap();
    assert_eq!(xt.len(), 3 * 21);
    assert_eq!((xt[0], yt[0]), (1.0, 1.0));
    assert_eq!((xt[xt.len() - 1], yt[yt.len() - 1]), (8.0, 5.0));
}

#[test]
fn closed_curve_returns_to_first_point() {
    let x = vec![0.0, 4.0, 4.0, 0.0];
    let y = vec![0.0, 0.0, 3.0, 3.0];
    let (xt, yt) = tessellate(&x, &y, 5, true, &hermite(0.5, 5)).unwrap();
    assert_eq!(xt.len(), 4 * 6);
    assert_eq!(yt.len(), 4 * 6);
    assert_eq!((xt[0], yt[0]), (0.0, 0.0));
    assert_eq!((xt[23], yt[23]), (0.0, 0.0));
    assert_eq!((xt[6], yt[6]), (4.0, 0.0));
}
