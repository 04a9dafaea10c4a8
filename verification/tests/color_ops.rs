use raytracer::color::Color;
use raytracer::fixed::Fx;

// 1.0, 0.5, 0.25, 0.125 and their sums are exact in Q16.16.
fn c(r: i64, g: i64, b: i64) -> Color {
    Color::new(Fx { raw: r }, Fx { raw: g }, Fx { raw: b })
}

const ONE: i64 = 65536;
const HALF: i64 = 32768;
const QUARTER: i64 = 16384;
const EIGHTH: i64 = 8192;

#[test]
fn test_color_new() {
    let color = Color::new(Fx { raw: ONE }, Fx { raw: HALF }, Fx { raw: QUARTER });
    assert_eq!(color.r().raw, ONE);
    assert_eq!(color.g().raw, HALF);
    assert_eq!(color.b().raw, QUARTER);
}

#[test]
fn test_add() {
    let color1 = c(ONE, HALF, QUARTER);
    let color2 = c(HALF, QUARTER, EIGHTH);
    let result = color1.add(color2);
    assert_eq!(result.r().raw, ONE + HALF);
    assert_eq!(result.g().raw, HALF + QUARTER);
    assert_eq!(result.b().raw, QUARTER + EIGHTH);
}

#[test]
fn test_sub() {
    let color1 = c(ONE, HALF, QUARTER);
    let color2 = c(HALF, QUARTER, EIGHTH);
    let result = color1.sub(color2);
    assert_eq!(result.r().raw, HALF);
    assert_eq!(result.g().raw, QUARTER);
    assert_eq!(result.b().raw, EIGHTH);
}

#[test]
fn test_neg() {
    let color = c(ONE, HALF, QUARTER);
    let result = color.neg();
    assert_eq!(result.r().raw, -ONE);
    assert_eq!(result.g().raw, -HALF);
    assert_eq!(result.b().raw, -QUARTER);
}

#[test]
fn test_mul_colors() {
    let color1 = c(ONE, HALF, QUARTER);
    let color2 = c(HALF, QUARTER, 4 * ONE);
    let result = color1.mul(color2);
    assert_eq!(result.r().raw, HALF);
    assert_eq!(result.g().raw, EIGHTH);
    assert_eq!(result.b().raw, ONE);
}

#[test]
fn test_mul_color() {
    let color = c(ONE, HALF, QUARTER);
    let result = color.scale(Fx { raw: 2 * ONE });
    assert_eq!(result.r().raw, 2 * ONE);
    assert_eq!(result.g().raw, ONE);
    assert_eq!(result.b().raw, HALF);
}

#[test]
fn test_div_color() {
    let color = c(ONE, HALF, QUARTER);
    let result = color.div_scalar(Fx { raw: 2 * ONE });
    assert_eq!(result.r().raw, HALF);
    assert_eq!(result.g().raw, QUARTER);
    assert_eq!(result.b().raw, EIGHTH);
}
