use rusty_ref::geometry::{quad_vertices, upload_layout, PixelPoint, Ratio, TextureUpload, ViewportState};

fn value(r: Ratio) -> f64 {
    r.num as f64 / r.den as f64
}

fn viewport(w: u32, h: u32) -> ViewportState {
    ViewportState::new(w, h).unwrap()
}

#[test]
fn new_refuses_zero_sides() {
    assert!(ViewportState::new(0, 600).is_none());
    assert!(ViewportState::new(800, 0).is_none());
    assert_eq!(ViewportState::new(800, 600), Some(ViewportState { width: 800, height: 600 }));
}

#[test]
fn to_ndc_corners_and_centre() {
    let vp = viewport(800, 600);
    let tl = vp.to_ndc(PixelPoint { x: 0, y: 0 });
    assert_eq!((value(tl.x), value(tl.y)), (-1.0, 1.0));
    let br = vp.to_ndc(PixelPoint { x: 800, y: 600 });
    assert_eq!((value(br.x), value(br.y)), (1.0, -1.0));
    let c = vp.to_ndc(PixelPoint { x: 400, y: 300 });
    assert_eq!((value(c.x), value(c.y)), (0.0, 0.0));
}

#[test]
fn to_ndc_distinct_pixels_distinct_points() {
    let vp = viewport(7, 5);
    let mut seen: Vec<(f64, f64)> = Vec::new();
    for x in 0..=7u32 {
        for y in 0..=5u32 {
            let p = vp.to_ndc(PixelPoint { x, y });
            let v = (value(p.x), value(p.y));
            assert!(!seen.contains(&v));
            seen.push(v);
        }
    }
}

#[test]
fn resize_ignores_zero_sides() {
    let mut vp = viewport(800, 600);
    vp.resize(0, 300);
    assert_eq!(vp, ViewportState { width: 800, height: 600 });
    vp.resize(1024, 0);
    assert_eq!(vp, ViewportState { width: 800, height: 600 });
    vp.resize(1024, 768);
    assert_eq!(vp, ViewportState { width: 1024, height: 768 });
}

#[test]
fn drop_scenario_placement() {
    let vp = viewport(800, 600);
    let a = vp.to_ndc(PixelPoint { x: 100, y: 50 });
    assert!((value(a.x) - -0.75).abs() < 1e-4);
    assert!((value(a.y) - 0.8333).abs() < 1e-4);
    let (rw, rh) = vp.size_ratio(2, 2);
    assert!((value(rw) - 0.0025).abs() < 1e-4);
    assert!((value(rh) - 0.0033).abs() < 1e-4);
    assert_eq!(rw, Ratio { num: 2, den: 800 });
    assert_eq!(rh, Ratio { num: 2, den: 600 });
    let quad = quad_vertices(PixelPoint { x: 100, y: 50 }, 2, 2, &vp);
    assert_eq!(quad.len(), 6);
    for v in &quad {
        assert!((-1.0..=1.0).contains(&value(v.position.x)));
        assert!((-1.0..=1.0).contains(&value(v.position.y)));
    }
}

#[test]
fn quad_corners_and_texture_coordinates() {
    let vp = viewport(800, 600);
    let quad = quad_vertices(PixelPoint { x: 100, y: 50 }, 2, 2, &vp);
    let corners: Vec<(i64, i64, u32, u32)> =
        quad.iter().map(|v| (v.position.x.num, v.position.y.num, v.tex_u, v.tex_v)).collect();
    assert_eq!(
        corners,
        vec![
            (-600, 500, 0, 0),
            (-598, 500, 1, 0),
            (-600, 498, 0, 1),
            (-598, 500, 1, 0),
            (-598, 498, 1, 1),
            (-600, 498, 0, 1),
        ]
    );
    assert!(quad.iter().all(|v| v.position.x.den == 800 && v.position.y.den == 600));
}

#[test]
fn upload_layout_rows_without_padding() {
    assert_eq!(
        upload_layout(3, 2),
        Some(TextureUpload { width: 3, height: 2, bytes_per_row: 12, rows_per_image: 2 })
    );
    assert_eq!(upload_layout(u32::MAX / 4, 1).map(|u| u.bytes_per_row), Some(u32::MAX - 3));
    assert_eq!(upload_layout(u32::MAX / 4 + 1, 1), None);
}

#[test]
fn to_ndc_centre_of_odd_viewport() {
    let vp = viewport(801, 601);
    let c = vp.to_ndc(PixelPoint { x: 400, y: 300 });
    assert_eq!(c.x, Ratio { num: -1, den: 801 });
    assert_eq!(c.y, Ratio { num: 1, den: 601 });
}
