use raytracer::camera::Camera;
use raytracer::color;
use raytracer::fixed::Fx;
use raytracer::hit::{HittableList, Surface};
use raytracer::material::{Material, schlick};
use raytracer::ppm::{decimal_bytes, ppm_bytes};
use raytracer::samples::Samples;
use raytracer::sphere::Sphere;
use raytracer::ray::Ray;
use raytracer::tile::{RenderProgress, Tile, composite_tile, render_tile, tiles};
use raytracer::trace::{TRACE_DEPTH_BOUND, background, brightness_of, pixel_color, quantize_channel, trace};
use raytracer::vec3::Vec3;

fn fx(units: i64) -> Fx {
    Fx { raw: units * 65536 }
}

fn v(x: i64, y: i64, z: i64) -> Vec3 {
    Vec3(fx(x), fx(y), fx(z))
}

/// A table whose every draw is the lowest offset: unit draws become 0.
fn zero_jitter_samples() -> Samples {
    Samples::from_vals(vec![Fx { raw: -65536 }; 64])
}

fn demo_world() -> HittableList {
    let albedo = Vec3(Fx { raw: 32768 }, Fx { raw: 32768 }, Fx { raw: 32768 });
    let s = Sphere::new(v(0, 0, 0), Fx { raw: 32768 }, Material::Lambertian { albedo });
    HittableList::new(vec![Surface::Sphere(s)])
}

fn demo_camera() -> Camera {
    Camera::new(v(0, 0, 2), v(0, 0, 0), v(0, 1, 0), fx(90), fx(0), 2, 2)
}

#[test]
fn test_color_packs_channels() {
    assert_eq!(color(255, 0, 0), 0x00ff_0000);
    assert_eq!(color(0, 255, 0), 0x0000_ff00);
    assert_eq!(color(0, 0, 255), 0x0000_00ff);
    assert_eq!(color(0x12, 0x34, 0x56), 0x0012_3456);
}

#[test]
fn test_quantize_channel() {
    let one = Fx { raw: 65536 };
    assert_eq!(quantize_channel(one, one), 255);
    assert_eq!(quantize_channel(Fx { raw: 0 }, one), 0);
    assert_eq!(quantize_channel(fx(-1), one), 0);
    assert_eq!(quantize_channel(fx(4), one), 255);
    assert_eq!(quantize_channel(Fx { raw: 32768 }, one), 127);
}

#[test]
fn test_brightness_of() {
    assert_eq!(brightness_of(50).raw, 32768);
    assert_eq!(brightness_of(100).raw, 65536);
    assert_eq!(brightness_of(0).raw, 65536);
    assert_eq!(brightness_of(101).raw, 65536);
    assert_eq!(brightness_of(-3).raw, 65536);
}

#[test]
fn schlick_normal_incidence_is_base_reflectance() {
    // At cosine = 1 the reflectance is exactly ((1-n)/(1+n))^2; for
    // n = 1.5 that value on the Q16.16 grid is 2621 raw units.
    let n = Fx { raw: 98304 };
    let r = schlick(Fx { raw: 65536 }, n);
    let q = Fx { raw: 65536 }.sub(n).div(Fx { raw: 65536 }.add(n));
    assert_eq!(r, q.mul(q));
    assert_eq!(r.raw, 2621);
}

#[test]
fn trace_at_depth_bound_returns_background() {
    // The scene has a sphere straight ahead, but at the depth bound the
    // integrator must not even look.
    let world = demo_world();
    let ray = Ray::new(v(0, 0, 2), v(0, 0, -1));
    let mut samples = zero_jitter_samples();
    let at_bound = trace(&world, &ray, TRACE_DEPTH_BOUND, &mut samples);
    assert_eq!(at_bound, background(&ray));
    assert_eq!(samples.pos, 0);
    let below_bound = trace(&world, &ray, 0, &mut samples);
    assert_ne!(below_bound, background(&ray));
}

#[test]
fn pinhole_camera_ignores_the_sample_pool() {
    // With a zero aperture the lens offset is the zero vector, so two
    // pools full of different offsets give the same ray.
    let cam = demo_camera();
    let mut a = Samples::from_vals(vec![Fx { raw: -65536 }; 16]);
    let mut b = Samples::from_vals(vec![Fx { raw: 21212 }; 16]);
    let s = Fx { raw: 32768 };
    let t = Fx { raw: 16384 };
    assert_eq!(cam.get_ray(s, t, &mut a), cam.get_ray(s, t, &mut b));
}

#[test]
fn rendering_twice_gives_identical_pixels() {
    let world = demo_world();
    let cam = demo_camera();
    let tile = Tile { min_x: 0, min_y: 0, max_x: 2, max_y: 2 };
    let mut s1 = zero_jitter_samples();
    let mut s2 = zero_jitter_samples();
    let one = Fx { raw: 65536 };
    let b1 = render_tile(&world, &cam, &tile, 2, 2, 1, one, &mut s1);
    let b2 = render_tile(&world, &cam, &tile, 2, 2, 1, one, &mut s2);
    assert_eq!(b1, b2);
    assert_eq!(s1.pos, s2.pos);
}

#[test]
fn center_pixel_differs_from_corner_pixel() {
    // One diffuse sphere of radius one half at the origin, the camera two
    // units away on the axis, one sample per pixel, two by two: with zero
    // jitter the pixel at (1,1) looks straight at the sphere while the
    // pixel at (0,0) slips past it into the background.
    let world = demo_world();
    let cam = demo_camera();
    let mut samples = zero_jitter_samples();
    let corner = pixel_color(&world, &cam, 0, 0, 2, 2, 1, &mut samples);
    let mut samples = zero_jitter_samples();
    let center = pixel_color(&world, &cam, 1, 1, 2, 2, 1, &mut samples);
    assert_ne!(center, corner);
    // The shaded sphere is darker than the sky behind the corner ray.
    assert!(center.g().raw < corner.g().raw);
}

#[test]
fn wide_camera_has_wide_viewport() {
    // A raster twice as wide as high: the viewport must be twice as wide
    // as high too (aspect = width / height), up to the tangent's grid
    // error. With vfov 90 and focus distance 2 the spans are about 8 by 4.
    let cam = Camera::new(v(0, 0, 2), v(0, 0, 0), v(0, 1, 0), fx(90), fx(0), 2, 4);
    let h_span = cam.horizontal.0.raw;
    let v_span = cam.vertical.1.raw;
    assert!((h_span - 8 * 65536).abs() < 256, "horizontal span was {}", h_span);
    assert!((v_span - 4 * 65536).abs() < 256, "vertical span was {}", v_span);
    assert!(h_span > v_span);
}

#[test]
fn tiles_cover_the_raster() {
    let ts = tiles(7, 5, 3);
    assert_eq!(ts.len(), 6);
    assert_eq!(ts[0], Tile { min_x: 0, min_y: 0, max_x: 3, max_y: 3 });
    assert_eq!(ts[2], Tile { min_x: 6, min_y: 0, max_x: 7, max_y: 3 });
    assert_eq!(ts[5], Tile { min_x: 6, min_y: 3, max_x: 7, max_y: 5 });
    // Every pixel lies in exactly one tile.
    for x in 0..7usize {
        for y in 0..5usize {
            let holders = ts
                .iter()
                .filter(|t| t.min_x <= x && x < t.max_x && t.min_y <= y && y < t.max_y)
                .count();
            assert_eq!(holders, 1);
        }
    }
}

#[test]
fn tiles_match_the_original_raster() {
    let ts = tiles(880, 800, 96);
    assert_eq!(ts.len(), 90);
    assert_eq!(ts[89], Tile { min_x: 864, min_y: 768, max_x: 880, max_y: 800 });
}

#[test]
fn composite_places_tile_pixels() {
    let mut fb: Vec<u32> = vec![9; 16];
    let tile = Tile { min_x: 1, min_y: 1, max_x: 3, max_y: 3 };
    let buf: Vec<u32> = vec![1, 2, 3, 4];
    composite_tile(&mut fb, &tile, &buf, 4);
    let expected: Vec<u32> = vec![
        9, 9, 9, 9,
        9, 1, 2, 9,
        9, 3, 4, 9,
        9, 9, 9, 9,
    ];
    assert_eq!(fb, expected);
}

#[test]
fn progress_counts_down_to_persistence() {
    let mut p = RenderProgress::new(3);
    assert!(!p.done());
    assert!(!p.tile_done());
    assert!(!p.tile_done());
    assert!(p.tile_done());
    assert!(p.done());
}

#[test]
fn ppm_framing() {
    assert_eq!(decimal_bytes(880), b"880".to_vec());
    assert_eq!(decimal_bytes(0), b"0".to_vec());
    let bytes = ppm_bytes(&vec![0x00ff_8040], 1, 1);
    assert_eq!(bytes, b"P6\n1 1\n255\n\xff\x80\x40".to_vec());
}

#[test]
fn random_table_has_requested_size() {
    let s = Samples::random_table(10);
    assert_eq!(s.vals.len(), 10);
    assert!(s.vals.iter().all(|f| -65536 <= f.raw && f.raw < 65536));
}
