use ray_tracer::camera::Camera;
use ray_tracer::color::{color, Color};
use ray_tracer::matrix::Matrix4;
use ray_tracer::scalar::Scalar;
use ray_tracer::transformation::view_transform;
use ray_tracer::tuple::{Point, Vector};
use ray_tracer::world::default_world;

fn s(v: f64) -> Scalar {
    Scalar::from_raw((v * 4294967296.0).round() as i64)
}

fn f(x: Scalar) -> f64 {
    (x.raw as f64) / 4294967296.0
}

fn half_view(field_of_view: f64) -> Scalar {
    s((field_of_view / 2.0).tan())
}

fn assert_point_close(a: Point, b: Point) {
    assert!((f(a.x) - f(b.x)).abs() < 1e-5, "x {} differs from {}", f(a.x), f(b.x));
    assert!((f(a.y) - f(b.y)).abs() < 1e-5, "y {} differs from {}", f(a.y), f(b.y));
    assert!((f(a.z) - f(b.z)).abs() < 1e-5, "z {} differs from {}", f(a.z), f(b.z));
}

fn assert_vector_close(a: Vector, b: Vector) {
    assert!((f(a.x) - f(b.x)).abs() < 1e-5, "x {} differs from {}", f(a.x), f(b.x));
    assert!((f(a.y) - f(b.y)).abs() < 1e-5, "y {} differs from {}", f(a.y), f(b.y));
    assert!((f(a.z) - f(b.z)).abs() < 1e-5, "z {} differs from {}", f(a.z), f(b.z));
}

fn assert_color_close(a: Color, b: Color) {
    assert!((f(a.r) - f(b.r)).abs() < 1e-5, "red {} differs from {}", f(a.r), f(b.r));
    assert!((f(a.g) - f(b.g)).abs() < 1e-5, "green {} differs from {}", f(a.g), f(b.g));
    assert!((f(a.b) - f(b.b)).abs() < 1e-5, "blue {} differs from {}", f(a.b), f(b.b));
}

#[test]
fn test_camera_constructor() {
    let hsize: u32 = 160;
    let vsize: u32 = 160;
    let fov = std::f64::consts::PI / 2.0;

    let camera = Camera::new(hsize, vsize, half_view(fov));

    assert_eq!(camera.hsize, hsize);
    assert_eq!(camera.vsize, vsize);
    assert_eq!(camera.transform, Matrix4::identity());
}

#[test]
fn test_pixel_size_for_a_horizontal_canvas() {
    let camera = Camera::new(200, 125, half_view(std::f64::consts::PI / 2.0));
    assert!((f(camera.pixel_size) - 0.01).abs() < 1e-6);
}

#[test]
fn test_pixel_size_for_a_vertical_canvas() {
    let camera = Camera::new(125, 200, half_view(std::f64::consts::PI / 2.0));
    assert!((f(camera.pixel_size) - 0.01).abs() < 1e-6);
}

#[test]
fn test_a_ray_through_the_center_of_the_canvas() {
    let camera = Camera::new(201, 101, half_view(std::f64::consts::PI / 2.0));

    let r = camera.ray_for_pixel(100, 50);

    assert_point_close(r.origin, Point::new(s(0.0), s(0.0), s(0.0)));
    assert_vector_close(r.direction, Vector::new(s(0.0), s(0.0), s(-1.0)));
}

#[test]
fn test_a_ray_through_the_near_corner_of_the_canvas() {
    let camera = Camera::new(201, 101, half_view(std::f64::consts::PI / 2.0));

    let r = camera.ray_for_pixel(0, 0);

    assert_point_close(r.origin, Point::new(s(0.0), s(0.0), s(0.0)));
    assert_vector_close(r.direction, Vector::new(s(0.66519), s(0.33259), s(-0.66851)));
}

#[test]
fn test_a_ray_through_the_far_corner_of_the_canvas() {
    let camera = Camera::new(201, 101, half_view(std::f64::consts::PI / 2.0));

    let r = camera.ray_for_pixel(200, 100);

    assert_point_close(r.origin, Point::new(s(0.0), s(0.0), s(0.0)));
    assert_vector_close(r.direction, Vector::new(s(-0.66519), s(-0.33259), s(-0.66851)));
}

#[test]
fn test_a_ray_when_the_camera_is_transformed() {
    let mut camera = Camera::new(201, 101, half_view(std::f64::consts::PI / 2.0));
    let quarter = std::f64::consts::PI / 4.0;
    let transform = Matrix4::identity()
        .translation(s(0.0), s(-2.0), s(5.0))
        .rotation_y(s(quarter.cos()), s(quarter.sin()));
    camera.transform = transform;

    let r = camera.ray_for_pixel(100, 50);

    assert_point_close(r.origin, Point::new(s(0.0), s(2.0), s(-5.0)));
    assert_vector_close(
        r.direction,
        Vector::new(s(2.0_f64.sqrt() / 2.0), s(0.0), s(-(2.0_f64.sqrt()) / 2.0)),
    );
}

#[test]
fn test_rendering_a_world_with_a_camera() {
    let world = default_world();
    let mut camera = Camera::new(11, 11, half_view(std::f64::consts::PI / 2.0));
    let from = Point::new(s(0.0), s(0.0), s(-5.0));
    let to = Point::new(s(0.0), s(0.0), s(0.0));
    let up = Vector::new(s(0.0), s(1.0), s(0.0));
    camera.transform = view_transform(&from, &to, &up);

    let image = camera.render(&world, 5);

    assert_color_close(*image.pixel_at(5, 5), color(s(0.38066), s(0.47583), s(0.2855)));
}
