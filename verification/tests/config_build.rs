use raytracer::config::{
    Config, UnprocessedCamera, UnprocessedCube, UnprocessedData, UnprocessedShape,
    UnprocessedSphere,
};
use raytracer::fixed::Fx;
use raytracer::flags::Flags;
use raytracer::hit::Surface;
use raytracer::material::Material;
use raytracer::vec3::Vec3;

fn fx(units: i64) -> Fx {
    Fx { raw: units * 65536 }
}

fn v(x: i64, y: i64, z: i64) -> Vec3 {
    Vec3(fx(x), fx(y), fx(z))
}

#[test]
fn config_elaborates_descriptors_in_order() {
    let mat = Material::Metal { albedo: v(1, 1, 0) };
    let config = Config {
        unprocessed_data: vec![
            UnprocessedShape::Sphere(UnprocessedSphere { center: v(0, 0, -1), radius: fx(1), material: mat }),
            UnprocessedShape::Cube(UnprocessedCube { p0: v(-1, -1, -1), p1: v(1, 1, 1), mat }),
        ],
        cam: UnprocessedCamera {
            look_from: v(0, 0, 2),
            look_at: v(0, 0, 0),
            vup: v(0, 1, 0),
            vfov: fx(90),
            aperture: fx(0),
        },
        light: 80,
        samples: 4,
        width: 16,
        height: 16,
    };
    let app = config.process();
    assert_eq!(app.world.0.len(), 2);
    match app.world.0[0] {
        Surface::Sphere(s) => {
            assert_eq!(s.center, v(0, 0, -1));
            assert_eq!(s.radius, fx(1));
        },
        _ => panic!("first descriptor should elaborate to a sphere"),
    }
    match app.world.0[1] {
        Surface::Cube(c) => {
            assert_eq!(c.min, v(-1, -1, -1));
            assert_eq!(c.max, v(1, 1, 1));
        },
        _ => panic!("second descriptor should elaborate to a box"),
    }
    assert_eq!(app.light, 80);
    assert_eq!(app.samples, 4);
    assert_eq!(app.width, 16);
    assert_eq!(app.height, 16);
    assert_eq!(app.camera.origin, v(0, 0, 2));
    // vfov 90 degrees: the half-height tangent is 1 up to the grid, so
    // the viewport spans almost exactly 4 units at focus distance 2.
    let span = app.camera.horizontal;
    assert!((span.0.raw - 4 * 65536).abs() < 64, "span was {}", span.0.raw);
}

#[test]
fn flags_store_the_config_path() {
    let f = Flags::new(String::from("scene.ron"));
    assert_eq!(f.config, "scene.ron");
}
