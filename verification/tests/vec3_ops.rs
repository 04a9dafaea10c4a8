use raytracer::fixed::Fx;
use raytracer::vec3::Vec3;

fn fx(units: i64) -> Fx {
    Fx { raw: units * 65536 }
}

fn v(x: i64, y: i64, z: i64) -> Vec3 {
    Vec3(fx(x), fx(y), fx(z))
}

#[test]
fn test_vec3_add() {
    assert_eq!(v(1, 2, 3).add(v(4, 5, 6)), v(5, 7, 9));
}

#[test]
fn test_vec3_mul() {
    assert_eq!(v(5, 4, 1).scale(fx(2)), v(10, 8, 2));
}

#[test]
fn test_vec3_div() {
    assert_eq!(v(10, 8, 2).div_scalar(fx(2)), v(5, 4, 1));
}

#[test]
fn test_vec3_negate() {
    assert_eq!(v(1, 2, 3).neg(), v(-1, -2, -3));
}

#[test]
fn test_vec3_dot_cross() {
    assert_eq!(Vec3::dot(&v(1, 2, 3), &v(4, 5, 6)), fx(32));
    assert_eq!(Vec3::cross(&v(1, 0, 0), &v(0, 1, 0)), v(0, 0, 1));
    assert_eq!(v(1, 2, 3).dot_xz(&v(4, 5, 6)), fx(22));
    assert_eq!(v(1, 2, 3).dot_xy(&v(4, 5, 6)), fx(14));
    assert_eq!(v(1, 2, 3).dot_yz(&v(4, 5, 6)), fx(28));
    assert_eq!(v(1, 2, 3).dot_y(&v(4, 5, 6)), fx(10));
    assert_eq!(v(1, 2, 3).dot_j(&v(4, 5, 6)), fx(32));
}

#[test]
fn test_vec3_length_unit() {
    assert_eq!(v(3, 4, 0).squared_length(), fx(25));
    assert_eq!(v(3, 4, 0).length(), fx(5));
    assert_eq!(Vec3::unit_vector(&v(0, 0, 4)), v(0, 0, 1));
    assert_eq!(v(0, 8, 0).unit(), v(0, 1, 0));
}

#[test]
fn test_fx_saturation() {
    let big = Fx { raw: raytracer::fixed::FX_RAW_BOUND };
    assert_eq!(big.add(big).raw, raytracer::fixed::FX_RAW_BOUND);
    assert_eq!(big.neg().sub(big).raw, -raytracer::fixed::FX_RAW_BOUND);
    assert_eq!(fx(1).div(Fx { raw: 0 }).raw, raytracer::fixed::FX_RAW_BOUND);
    assert_eq!(fx(-1).div(Fx { raw: 0 }).raw, -raytracer::fixed::FX_RAW_BOUND);
    assert_eq!(Fx { raw: 0 }.div(Fx { raw: 0 }).raw, 0);
}

#[test]
fn test_fx_sqrt_exact() {
    assert_eq!(fx(16).sqrt(), fx(4));
    assert_eq!(fx(1).sqrt(), fx(1));
    assert_eq!(fx(-4).sqrt(), Fx { raw: 0 });
    // floor semantics: sqrt(2) in Q16.16 is 92681/65536
    assert_eq!(fx(2).sqrt().raw, 92681);
}
