use ray_tracer::numeric::Elementary;
use ray_tracer::vector::cross;
use ray_tracer::vector::dot;
use ray_tracer::vector::Vector;

struct Std;

impl Elementary<f64> for Std {
    fn sqrt(&self, x: f64) -> f64 {
        x.sqrt()
    }
    fn powf(&self, base: f64, exponent: f64) -> f64 {
        base.powf(exponent)
    }
    fn sin(&self, x: f64) -> f64 {
        x.sin()
    }
    fn cos(&self, x: f64) -> f64 {
        x.cos()
    }
    fn tan(&self, x: f64) -> f64 {
        x.tan()
    }
    fn floor(&self, x: f64) -> f64 {
        x.floor()
    }
    fn fract(&self, x: f64) -> f64 {
        x.fract()
    }
    fn round(&self, x: f64) -> f64 {
        x.round()
    }
    fn to_index(&self, x: f64) -> usize {
        x as usize
    }
}

fn xyz(a: Vector<f64>) -> (f64, f64, f64) {
    (a.x(), a.y(), a.z())
}

fn close(a: f64, b: f64) -> bool {
    (a - b).abs() < 0.00001
}

#[test]
fn vector_test_new() {
    let new_vec = Vector::new(4.3, -4.2, 3.1);
    assert!(close(new_vec.x(), 4.3));
    assert!(close(new_vec.y(), -4.2));
    assert!(close(new_vec.z(), 3.1));
    assert!(close(new_vec.w(), 0.0));
}

#[test]
fn test_negate() {
    let v = Vector::new(4.3, -4.2, 3.1);
    assert_eq!(xyz(-v), xyz(Vector::new(-4.3, 4.2, -3.1)))
}

#[test]
fn test_scalar_multiplication() {
    let v = Vector::new(1.0, 2.0, -3.0);
    let res_1 = v * 3.0;
    assert_eq!(xyz(res_1), xyz(Vector::new(3.0, 6.0, -9.0)));

    let res_2 = Vector::scale(0.5, v);
    assert_eq!(xyz(res_2), xyz(Vector::new(0.5, 1.0, -1.5)));
}

#[test]
fn test_division() {
    let v = Vector::new(1.0, 2.0, -3.0);
    let res_1 = v / 2.0;
    assert_eq!(xyz(res_1), xyz(Vector::new(0.5, 1.0, -1.5)));
}

#[test]
fn test_magnitude() {
    let v_1 = Vector::new(3.0, 4.0, 5.0);
    let magnitude = v_1.magnitude(&Std);
    assert!(close(magnitude, 50.0_f64.sqrt()));

    let v_2 = Vector::new(0.0, 1.0, 0.0);
    let magnitude = v_2.magnitude(&Std);
    assert!(close(magnitude, 1.0_f64.sqrt()));

    let v_3 = Vector::new(-2.0, -1.0, -3.0);
    let magnitude = v_3.magnitude(&Std);
    assert!(close(magnitude, 14.0_f64.sqrt()));
}

#[test]
fn test_normalize() {
    let v = Vector::new(4.0, 0.0, 0.0);
    let normal = v.norm(&Std);
    assert_eq!(xyz(normal), xyz(Vector::new(1.0, 0.0, 0.0)));

    let v = Vector::new(1.0, 2.0, 3.0);
    let normal = v.norm(&Std);
    let length = 14.0_f64.sqrt();
    assert_eq!(xyz(normal), xyz(Vector::new(1.0 / length, 2.0 / length, 3.0 / length)))
}

#[test]
fn test_dot_product() {
    let v_1 = Vector::new(1.0, 2.0, 3.0);
    let v_2 = Vector::new(2.0, 3.0, 4.0);
    assert!(close(dot(v_1, v_2), 20.0));
}

#[test]
fn test_cross_product() {
    let v_1 = Vector::new(1.0, 2.0, 3.0);
    let v_2 = Vector::new(2.0, 3.0, 4.0);
    let res_1 = cross(v_1, v_2);
    let res_2 = cross(v_2, v_1);

    assert_eq!(xyz(res_1), xyz(Vector::new(-1.0, 2.0, -1.0)));
    assert_eq!(xyz(res_2), xyz(Vector::new(1.0, -2.0, 1.0)));
}

#[test]
fn reflect_at_45_degrees() {
    let v = Vector::new(1.0, -1.0, 0.0);
    let n = Vector::new(0.0, 1.0, 0.0);
    assert_eq!(xyz(v.reflect(n)), xyz(Vector::new(1.0, 1.0, 0.0)));
}

#[test]
fn reflect_off_a_slanted_surface() {
    let v = Vector::new(0.0, -1.0, 0.0);
    let s = 2.0_f64.sqrt() / 2.0;
    let r = v.reflect(Vector::new(s, s, 0.0));
    assert!(close(r.x(), 1.0));
    assert!(close(r.y(), 0.0));
    assert!(close(r.z(), 0.0));
}

#[test]
fn vector_sum_and_difference() {
    let a = Vector::new(3.0, 2.0, 1.0);
    let b = Vector::new(5.0, 6.0, 7.0);
    assert_eq!(xyz(a + b), xyz(Vector::new(8.0, 8.0, 8.0)));
    assert_eq!(xyz(a - b), xyz(Vector::new(-2.0, -4.0, -6.0)));
    assert_eq!(xyz(Vector::<f64>::zero()), xyz(Vector::new(0.0, 0.0, 0.0)));
}
