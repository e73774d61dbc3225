use ray_tracer::material::material;
use ray_tracer::scalar::Scalar;
use ray_tracer::shape::Shape;
use ray_tracer::transformation::translation;
use ray_tracer::tuple::{normalize, Point, Vector};

fn s(v: f64) -> Scalar {
    Scalar::from_raw((v * 4294967296.0).round() as i64)
}

fn f(x: Scalar) -> f64 {
    (x.raw as f64) / 4294967296.0
}

fn assert_vector_close(a: Vector, b: Vector) {
    assert!((f(a.x) - f(b.x)).abs() < 1e-5, "x {} differs from {}", f(a.x), f(b.x));
    assert!((f(a.y) - f(b.y)).abs() < 1e-5, "y {} differs from {}", f(a.y), f(b.y));
    assert!((f(a.z) - f(b.z)).abs() < 1e-5, "z {} differs from {}", f(a.z), f(b.z));
    assert!((f(a.w) - f(b.w)).abs() < 1e-5, "w {} differs from {}", f(a.w), f(b.w));
}

#[test]
fn test_normal_on_a_sphere_on_the_x() {
    let sphere = Shape::default_sphere();

    let normal = sphere.normal_at(Point::new(s(1.0), s(0.0), s(0.0)));

    let expected = Vector::new(s(1.0), s(0.0), s(0.0));
    assert_eq!(expected, normal);
}

#[test]
fn test_normal_on_a_sphere_on_the_y() {
    let sphere = Shape::default_sphere();

    let normal = sphere.normal_at(Point::new(s(0.0), s(1.0), s(0.0)));

    let expected = Vector::new(s(0.0), s(1.0), s(0.0));
    assert_eq!(expected, normal);
}

#[test]
fn test_normal_on_a_sphere_on_the_z() {
    let sphere = Shape::default_sphere();

    let normal = sphere.normal_at(Point::new(s(0.0), s(0.0), s(1.0)));

    let expected = Vector::new(s(0.0), s(0.0), s(1.0));
    assert_eq!(expected, normal);
}

#[test]
fn test_normal_on_a_sphere_at_a_nonaxial_point() {
    let sphere = Shape::default_sphere();
    let c = 3.0_f64.sqrt() / 3.0;

    let normal = sphere.normal_at(Point::new(s(c), s(c), s(c)));

    let expected = Vector::new(s(c), s(c), s(c));
    assert_vector_close(expected, normal);
}

#[test]
fn test_normal_is_nornalized_vector() {
    let sphere = Shape::default_sphere();
    let c = 3.0_f64.sqrt() / 3.0;

    let normal = sphere.normal_at(Point::new(s(c), s(c), s(c)));

    assert_vector_close(normalize(&normal), normal);
}

#[test]
fn test_normal_on_a_translated_sphere() {
    let mut sphere = Shape::default_sphere();
    sphere.set_transformation_matrix(translation(s(0.0), s(1.0), s(0.0))).unwrap();

    let normal = sphere.normal_at(Point::new(s(0.0), s(1.707107), s(-0.707107)));

    let expected = Vector::new(s(0.0), s(0.707107), s(-0.707107));
    assert_vector_close(expected, normal);
}

#[test]
fn test_normal_on_a_transformed_sphere() {
    let mut sphere = Shape::default_sphere();
    let fifth = std::f64::consts::PI / 5.0;
    let transform = ray_tracer::matrix::Matrix4::identity()
        .rotation_x(s(fifth.cos()), s(fifth.sin()))
        .scaling(s(1.0), s(0.5), s(1.0));
    sphere.set_transformation_matrix(transform).unwrap();

    let normal = sphere.normal_at(
        Point::new(s(0.0), s(2.0_f64.sqrt() / 2.0), s(-(2.0_f64.sqrt()) / 2.0)),
    );

    let expected = Vector::new(s(0.0), s(0.97014), s(-0.24254));
    assert_vector_close(expected, normal);
}

#[test]
fn test_sphere_has_a_default_material() {
    let sphere = Shape::default_sphere();
    assert_eq!(sphere.material, material());
}

#[test]
fn test_spheres_material_can_be_set() {
    let mut sphere = Shape::default_sphere();
    let mut material1 = material();
    material1.ambient = s(1.0);

    sphere.material = material1;

    assert_eq!(sphere.material.ambient, s(1.0));
}

#[test]
fn test_normal_on_a_plane_is_constant() {
    let plane = Shape::default_plane();

    assert_eq!(
        plane.normal_at(Point::new(s(0.0), s(0.0), s(0.0))),
        Vector::new(s(0.0), s(1.0), s(0.0)),
    );
    assert_eq!(
        plane.normal_at(Point::new(s(10.0), s(0.0), s(-10.0))),
        Vector::new(s(0.0), s(1.0), s(0.0)),
    );
    assert_eq!(
        plane.normal_at(Point::new(s(-5.0), s(0.0), s(150.0))),
        Vector::new(s(0.0), s(1.0), s(0.0)),
    );
}

#[test]
fn the_normal_of_a_flipped_plane_points_down() {
    let mut plane = Shape::default_plane();
    plane
        .set_transformation_matrix(
            ray_tracer::transformation::scaling(s(1.0), s(-1.0), s(1.0)),
        )
        .unwrap();

    let normal = plane.normal_at(Point::new(s(3.0), s(0.0), s(-7.0)));

    assert_eq!(normal, Vector::new(s(0.0), s(-1.0), s(0.0)));
}

#[test]
fn the_normal_of_a_rotated_plane_follows_the_rotation() {
    let mut plane = Shape::default_plane();
    let quarter = std::f64::consts::PI / 2.0;
    plane
        .set_transformation_matrix(
            ray_tracer::transformation::rotation_x(s(quarter.cos()), s(quarter.sin())),
        )
        .unwrap();

    let normal = plane.normal_at(Point::new(s(0.0), s(0.0), s(0.0)));

    assert_vector_close(normal, Vector::new(s(0.0), s(0.0), s(1.0)));
}

#[test]
fn default_material_has_the_canonical_phong_coefficients() {
    let m = material();

    assert_eq!(m.color, ray_tracer::color::white());
    assert!((f(m.ambient) - 0.1).abs() < 1e-5);
    assert!((f(m.diffuse) - 0.9).abs() < 1e-5);
    assert!((f(m.specular) - 0.9).abs() < 1e-5);
    assert_eq!(m.shininess, s(200.0));
    assert!(m.pattern.is_none());
    assert_eq!(m.reflective, s(0.0));
    assert_eq!(m.transparency, s(0.0));
    assert_eq!(m.refractive_index, s(1.0));
}
