use strahl::frame::{render, validate, RenderError};
use strahl::hit::{f32_lt, Hit, Vec3Bits, INFINITY_BITS};
use strahl::occlusion::{ambient_occlusion, occlusion, Ratio};
use strahl::raster::{display_rows, raster_order};
use strahl::trace::nearest;

fn bits(x: f32, y: f32, z: f32) -> Vec3Bits {
    Vec3Bits { x: x.to_bits(), y: y.to_bits(), z: z.to_bits() }
}

fn hit_at(t: f32) -> Hit {
    Hit::new(t.to_bits(), bits(0.0, 0.0, 1.0), bits(0.0, 0.0, t))
}

#[test]
fn miss_is_miss() {
    let m = Hit::miss();
    assert!(m.is_miss());
    assert_eq!(m.t, f32::INFINITY.to_bits());
    assert_eq!(m.t, INFINITY_BITS);
    assert_eq!(m.normal, bits(0.0, 0.0, 0.0));
    assert_eq!(m.point, bits(0.0, 0.0, 0.0));
}

#[test]
fn finite_hit_is_not_miss() {
    assert!(!hit_at(3.5).is_miss());
}

#[test]
fn update_of_miss_takes_hit() {
    let h = hit_at(4.0);
    let mut m = Hit::miss();
    m.update(&h);
    assert_eq!(m, h);
    assert_eq!(f32::from_bits(m.t), 4.0);
}

#[test]
fn update_keeps_closer_hit() {
    let near = hit_at(2.0);
    let far = hit_at(7.25);
    let mut a = near;
    a.update(&far);
    assert_eq!(a, near);
    let mut b = far;
    b.update(&near);
    assert_eq!(b, near);
}

#[test]
fn update_with_miss_keeps_hit() {
    let h = hit_at(1.5);
    let mut a = h;
    a.update(&Hit::miss());
    assert_eq!(a, h);
}

#[test]
fn update_with_equal_distance_keeps_first() {
    let first = Hit::new(3.0f32.to_bits(), bits(1.0, 0.0, 0.0), bits(3.0, 0.0, 0.0));
    let second = Hit::new(3.0f32.to_bits(), bits(0.0, 1.0, 0.0), bits(0.0, 3.0, 0.0));
    let mut a = first;
    a.update(&second);
    assert_eq!(a, first);
}

#[test]
fn distance_bits_order_as_values() {
    let ts = [0.0f32, 1e-6, 0.5, 1.0, 3.75, 1e30, f32::INFINITY];
    for w in ts.windows(2) {
        assert!(w[0].to_bits() < w[1].to_bits());
    }
}

#[test]
fn nearest_of_no_candidates_is_miss() {
    let r = nearest(&vec![]);
    assert!(r.is_miss());
    assert_eq!(r, Hit::miss());
}

#[test]
fn nearest_of_all_misses_is_miss() {
    let r = nearest(&vec![Hit::miss(), Hit::miss(), Hit::miss()]);
    assert_eq!(r, Hit::miss());
}

#[test]
fn nearest_picks_smallest_distance() {
    let c = vec![hit_at(5.0), Hit::miss(), hit_at(2.5), hit_at(9.0), hit_at(2.75)];
    assert_eq!(nearest(&c), hit_at(2.5));
}

#[test]
fn occlusion_of_no_hits_is_zero() {
    let r = occlusion(&vec![Hit::miss(); 8]);
    assert_eq!(r, Ratio { num: 0, den: 80 });
}

#[test]
fn occlusion_scales_by_eleven_tenths() {
    let mut hits = vec![Hit::miss(); 10];
    hits[0] = hit_at(1.0);
    hits[4] = hit_at(2.0);
    let r = occlusion(&hits);
    assert_eq!(r, Ratio { num: 22, den: 100 });
}

#[test]
fn occlusion_clamps_to_one() {
    // ten of eleven rays hit: 1.1 * 10 / 11 is exactly one
    let mut hits = vec![hit_at(1.0); 11];
    hits[3] = Hit::miss();
    let r = occlusion(&hits);
    assert_eq!(r, Ratio { num: 110, den: 110 });

    // every ray hits
    let r = occlusion(&vec![hit_at(1.0); 4]);
    assert_eq!(r, Ratio { num: 40, den: 40 });

    // 19 of 20 rays hit, above ten in eleven
    let mut hits = vec![hit_at(1.0); 20];
    hits[0] = Hit::miss();
    let r = occlusion(&hits);
    assert_eq!(r, Ratio { num: 200, den: 200 });
}

#[test]
fn occlusion_just_below_clamp() {
    // 9 of 11 rays hit: 99 / 110
    let mut hits = vec![hit_at(1.0); 11];
    hits[0] = Hit::miss();
    hits[1] = Hit::miss();
    let r = occlusion(&hits);
    assert_eq!(r, Ratio { num: 99, den: 110 });
    assert!(r.num < r.den);
}

#[test]
fn ambient_occlusion_per_hit() {
    let hits = vec![Hit::miss(), hit_at(2.0), hit_at(3.0)];
    let bundles = vec![vec![], vec![Hit::miss(), hit_at(0.5)], vec![Hit::miss(); 3]];
    let r = ambient_occlusion(&hits, &bundles);
    assert_eq!(
        r,
        vec![Ratio { num: 0, den: 1 }, Ratio { num: 11, den: 20 }, Ratio { num: 0, den: 30 }]
    );
}

#[test]
fn raster_order_is_row_major() {
    let r = raster_order(3, 2);
    assert_eq!(r, vec![(0, 0), (1, 0), (2, 0), (0, 1), (1, 1), (2, 1)]);
}

#[test]
fn raster_order_empty() {
    assert!(raster_order(0, 5).is_empty());
    assert!(raster_order(4, 0).is_empty());
}

#[test]
fn validate_accepts_and_rejects() {
    assert_eq!(validate(2, 2, 1), Ok(()));
    assert_eq!(validate(900, 700, 16), Ok(()));
    assert_eq!(validate(1, 5, 1), Err(RenderError::RasterTooSmall));
    assert_eq!(validate(5, 1, 1), Err(RenderError::RasterTooSmall));
    assert_eq!(validate(0, 0, 0), Err(RenderError::RasterTooSmall));
    assert_eq!(validate(2, 2, 0), Err(RenderError::NoSamples));
    assert_eq!(validate(u32::MAX, u32::MAX, 1), Err(RenderError::RasterTooLarge));
}

#[test]
fn render_rejects_raster_too_large() {
    assert_eq!(render(u32::MAX, u32::MAX, &vec![], &vec![]), Err(RenderError::RasterTooLarge));
}

#[test]
fn f32_lt_follows_float_order() {
    let values = [f32::NEG_INFINITY, -1e30, -2.5, -1.0, -1e-6, -0.0, 0.0, 1e-6, 1.0, 3.75, 1e30, f32::INFINITY, f32::NAN, -f32::NAN];
    for a in values.iter() {
        for b in values.iter() {
            assert_eq!(f32_lt(a.to_bits(), b.to_bits()), *a < *b, "{} < {}", a, b);
        }
    }
}

#[test]
fn update_of_miss_takes_negative_hit() {
    let h = hit_at(-1.0);
    let mut m = Hit::miss();
    m.update(&h);
    assert_eq!(m, h);
}

#[test]
fn update_takes_negative_over_positive() {
    let mut a = hit_at(1.0);
    a.update(&hit_at(-1.0));
    assert_eq!(a, hit_at(-1.0));
    let mut b = hit_at(-1.0);
    b.update(&hit_at(1.0));
    assert_eq!(b, hit_at(-1.0));
    let mut c = hit_at(-1.0);
    c.update(&hit_at(-3.0));
    assert_eq!(c, hit_at(-3.0));
}

#[test]
fn update_ignores_nan_and_signed_zero_ties() {
    let mut a = hit_at(2.0);
    a.update(&hit_at(f32::NAN));
    assert_eq!(a, hit_at(2.0));
    let mut z = hit_at(0.0);
    z.update(&hit_at(-0.0));
    assert_eq!(z, hit_at(0.0));
}

#[test]
fn nearest_is_order_independent_on_distinct_distances() {
    let a = hit_at(-1.0);
    let b = hit_at(1.0);
    assert_eq!(nearest(&vec![a, b]), a);
    assert_eq!(nearest(&vec![b, a]), a);
}

#[test]
fn render_misses_are_black() {
    let hits = vec![Hit::miss(), hit_at(1.0), Hit::miss(), hit_at(2.0)];
    let shades = vec![(9, 9, 9), (10, 20, 30), (40, 50, 60), (255, 0, 7)];
    let fb = render(2, 2, &hits, &shades).unwrap();
    assert_eq!(fb, vec![0, 0, 0, 10, 20, 30, 0, 0, 0, 255, 0, 7]);
}

#[test]
fn render_empty_scene_is_black() {
    let w: u32 = 4;
    let h: u32 = 3;
    let hits: Vec<Hit> = (0..w * h).map(|_| nearest(&vec![])).collect();
    let shades = vec![(200, 100, 50); (w * h) as usize];
    let fb = render(w, h, &hits, &shades).unwrap();
    assert_eq!(fb.len(), 3 * 12);
    assert!(fb.iter().all(|b| *b == 0));
}

#[test]
fn render_rejects_small_raster() {
    assert_eq!(render(1, 3, &vec![Hit::miss(); 3], &vec![(0, 0, 0); 3]), Err(RenderError::RasterTooSmall));
    assert_eq!(render(3, 1, &vec![Hit::miss(); 3], &vec![(0, 0, 0); 3]), Err(RenderError::RasterTooSmall));
}

#[test]
fn render_rejects_size_mismatch() {
    assert_eq!(render(2, 2, &vec![Hit::miss(); 3], &vec![(0, 0, 0); 3]), Err(RenderError::SizeMismatch));
    assert_eq!(render(2, 2, &vec![Hit::miss(); 4], &vec![(0, 0, 0); 5]), Err(RenderError::SizeMismatch));
}

#[test]
fn display_rows_flips_and_pads() {
    // two pixels wide, two rows
    let fb: Vec<u8> = (1..=12).collect();
    let r = display_rows(&fb, 2, 2, 8);
    assert_eq!(r, vec![7, 8, 9, 10, 11, 12, 0, 0, 1, 2, 3, 4, 5, 6, 0, 0]);
}

#[test]
fn display_rows_without_padding() {
    let fb: Vec<u8> = (0..18).collect();
    let r = display_rows(&fb, 2, 3, 6);
    assert_eq!(r, vec![12, 13, 14, 15, 16, 17, 6, 7, 8, 9, 10, 11, 0, 1, 2, 3, 4, 5]);
}

#[test]
fn trace_keeps_ray_order() {
    let candidates = vec![
        vec![hit_at(3.0), hit_at(1.0)],
        vec![],
        vec![Hit::miss(), hit_at(6.0)],
    ];
    assert_eq!(strahl::trace::trace(&candidates), vec![hit_at(1.0), Hit::miss(), hit_at(6.0)]);
}
