use raytracer::fixed::Fx;
use raytracer::ray::Ray;
use raytracer::raytracer::cube::Cube;
use raytracer::raytracer::cylinder::Cylinder;
use raytracer::raytracer::geometry::Geometry;
use raytracer::raytracer::light::PointLight;
use raytracer::raytracer::scene::{Scene, Shape};
use raytracer::vec3::Vec3;

fn fx(units: i64) -> Fx {
    Fx { raw: units * 65536 }
}

fn v(x: i64, y: i64, z: i64) -> Vec3 {
    Vec3(fx(x), fx(y), fx(z))
}

#[test]
fn factors_below_threshold_are_dropped() {
    let c = Cube::new(v(0, 0, 0), v(1, 1, 1), v(1, 0, 0), Fx { raw: 65 }, Fx { raw: 66 });
    assert_eq!(c.get_reflection_factor(), None);
    assert_eq!(c.get_transparency_factor(), Some(Fx { raw: 66 }));
    assert_eq!(c.get_center(), v(0, 0, 0));
    assert_eq!(c.get_color(), v(1, 0, 0));
    assert_eq!(c.get_half_size(), v(1, 1, 1));
}

#[test]
fn cube_reports_entry_and_exit() {
    let c = Cube::new(v(0, 0, -5), v(1, 1, 1), v(1, 1, 0), fx(0), fx(0));
    let r = Ray::new(v(0, 0, 0), v(0, 0, -1));
    let h = c.compute_hit(&r).expect("hit");
    assert_eq!(h.distance, fx(4));
    assert_eq!(h.exit_distance, fx(6));
    assert_eq!(h.info.position, v(0, 0, -4));
    assert_eq!(h.info.normal, v(0, 0, 1));
}

#[test]
fn cube_behind_the_ray_is_missed() {
    let c = Cube::new(v(0, 0, 5), v(1, 1, 1), v(1, 1, 0), fx(0), fx(0));
    let r = Ray::new(v(0, 0, 0), v(0, 0, -1));
    assert!(c.compute_hit(&r).is_none());
}

#[test]
fn cylinder_reports_entry_and_exit() {
    // Axis along the third coordinate: base at the origin, radius 1,
    // height 2; a horizontal ray at height 1 enters at t = 2, leaves at 4.
    let c = Cylinder::new(v(0, 0, 0), fx(1), fx(2), v(1, 0, 0), fx(0), fx(0));
    let r = Ray::new(v(-3, 0, 1), v(1, 0, 0));
    let h = c.compute_hit(&r).expect("hit");
    assert_eq!(h.distance, fx(2));
    assert_eq!(h.exit_distance, fx(4));
    assert_eq!(h.info.position, v(-1, 0, 1));
    assert_eq!(h.info.normal, v(-1, 0, 0));
    assert_eq!(c.get_radius(), fx(1));
    assert_eq!(c.get_height(), fx(2));
}

#[test]
fn blend_trace_lights_a_face() {
    // A red cube straight ahead, a light exactly behind the camera: the
    // diffuse cosine is 1, so the traced color is the light intensity on
    // the red channel, exactly.
    let mut scene = Scene::new();
    scene.add_object(Shape::Cube(Cube::new(v(0, 0, -5), v(1, 1, 1), v(1, 0, 0), fx(0), fx(0))));
    scene.add_light(PointLight::new(
        v(0, 0, 0),
        (fx(1), fx(1), fx(1)),
        Fx { raw: 58982 },
        fx(15),
    ));
    let r = Ray::new(v(0, 0, 0), v(0, 0, -1));
    let c = scene.trace(&r, 3);
    assert_eq!(c, Vec3(Fx { raw: 58982 }, Fx { raw: 0 }, Fx { raw: 0 }));
}

#[test]
fn blend_trace_miss_is_sky() {
    let scene = Scene::new();
    let r = Ray::new(v(0, 0, 0), v(0, 0, -1));
    let sky = Vec3(Fx { raw: 32768 }, Fx { raw: 45875 }, Fx { raw: 65536 });
    assert_eq!(scene.trace(&r, 3), sky);
    // At the recursion bound the sky comes back without any scene query.
    let mut lit = Scene::new();
    lit.add_object(Shape::Cube(Cube::new(v(0, 0, -5), v(1, 1, 1), v(1, 0, 0), fx(0), fx(0))));
    assert_eq!(lit.trace(&r, 0), sky);
}

#[test]
fn blend_trace_shadowed_face_is_black() {
    // A blocker sits between the light and the lit face, off the view
    // line: the local term vanishes.
    let mut scene = Scene::new();
    scene.add_object(Shape::Cube(Cube::new(v(0, 0, -5), v(1, 1, 1), v(1, 0, 0), fx(0), fx(0))));
    scene.add_object(Shape::Cube(Cube::new(v(2, 2, -5), v(1, 1, 1), v(0, 1, 0), fx(0), fx(0))));
    scene.add_light(PointLight::new(
        v(3, 2, -5),
        (fx(1), fx(1), fx(1)),
        Fx { raw: 58982 },
        fx(15),
    ));
    let r = Ray::new(v(4, 0, -5), v(-1, 0, 0));
    let h = scene.closest_hit(&r).expect("hit");
    assert_eq!(h.0.info.position, v(1, 0, -5));
    assert_eq!(h.0.info.normal, v(1, 0, 0));
    let c = scene.trace(&r, 3);
    assert_eq!(c, v(0, 0, 0));
}
