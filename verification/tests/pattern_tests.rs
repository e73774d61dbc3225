use ray_tracer::color::{black, color, white, Color};
use ray_tracer::patterns::Pattern;
use ray_tracer::scalar::Scalar;
use ray_tracer::shape::Shape;
use ray_tracer::transformation::{scaling, translation};
use ray_tracer::tuple::Point;

fn s(v: f64) -> Scalar {
    Scalar::from_raw((v * 4294967296.0).round() as i64)
}

fn f(x: Scalar) -> f64 {
    (x.raw as f64) / 4294967296.0
}

fn assert_color_close(a: Color, b: Color) {
    assert!((f(a.r) - f(b.r)).abs() < 1e-5, "red {} differs from {}", f(a.r), f(b.r));
    assert!((f(a.g) - f(b.g)).abs() < 1e-5, "green {} differs from {}", f(a.g), f(b.g));
    assert!((f(a.b) - f(b.b)).abs() < 1e-5, "blue {} differs from {}", f(a.b), f(b.b));
}

#[test]
fn test_stripe_pattern_can_be_created() {
    let pattern = Pattern::stripe(white(), black());

    assert_color_close(pattern.a, white());
    assert_color_close(pattern.b, black());
}

#[test]
fn test_pattern_at_is_constant_in_y() {
    let pattern = Pattern::stripe(white(), black());

    assert_color_close(pattern.pattern_at(&Point::new(s(0.0), s(0.0), s(0.0))), white());
    assert_color_close(pattern.pattern_at(&Point::new(s(0.0), s(1.0), s(0.0))), white());
    assert_color_close(pattern.pattern_at(&Point::new(s(0.0), s(2.0), s(0.0))), white());
}

#[test]
fn test_pattern_at_is_constant_in_z() {
    let pattern = Pattern::stripe(white(), black());

    assert_color_close(pattern.pattern_at(&Point::new(s(0.0), s(0.0), s(0.0))), white());
    assert_color_close(pattern.pattern_at(&Point::new(s(0.0), s(0.0), s(1.0))), white());
    assert_color_close(pattern.pattern_at(&Point::new(s(0.0), s(0.0), s(2.0))), white());
}

#[test]
fn test_pattern_at_alternates_in_x() {
    let pattern = Pattern::stripe(white(), black());

    assert_color_close(pattern.pattern_at(&Point::new(s(0.0), s(0.0), s(0.0))), white());
    assert_color_close(pattern.pattern_at(&Point::new(s(0.9), s(0.0), s(0.0))), white());
    assert_color_close(pattern.pattern_at(&Point::new(s(1.0), s(0.0), s(0.0))), black());
    assert_color_close(pattern.pattern_at(&Point::new(s(-0.1), s(0.0), s(0.0))), black());
    assert_color_close(pattern.pattern_at(&Point::new(s(-1.0), s(0.0), s(0.0))), black());
    assert_color_close(pattern.pattern_at(&Point::new(s(-1.1), s(0.0), s(0.0))), white());
}

#[test]
fn test_stripes_with_an_object_transformation() {
    let mut object = Shape::default_sphere();
    object.set_transformation_matrix(scaling(s(2.0), s(2.0), s(2.0))).unwrap();
    let pattern = Pattern::stripe(white(), black());

    assert_color_close(
        pattern.pattern_at_object(&object, &Point::new(s(1.5), s(0.0), s(0.0))),
        white(),
    );
}

#[test]
fn test_stripes_with_a_pattern_transformation() {
    let object = Shape::default_sphere();
    let mut pattern = Pattern::stripe(white(), black());
    pattern.set_transform(scaling(s(2.0), s(2.0), s(2.0))).unwrap();

    assert_color_close(
        pattern.pattern_at_object(&object, &Point::new(s(1.5), s(0.0), s(0.0))),
        white(),
    );
}

#[test]
fn test_stripes_with_both_an_object_and_a_pattern_transformation() {
    let mut object = Shape::default_sphere();
    object.set_transformation_matrix(scaling(s(2.0), s(2.0), s(2.0))).unwrap();
    let mut pattern = Pattern::stripe(white(), black());
    pattern.set_transform(translation(s(0.5), s(0.0), s(0.0))).unwrap();

    assert_color_close(
        pattern.pattern_at_object(&object, &Point::new(s(2.5), s(0.0), s(0.0))),
        white(),
    );
}

#[test]
fn test_a_gradient_linerly_interpolates_between_colors() {
    let pattern = Pattern::gradient(white(), black());
    assert_color_close(pattern.pattern_at(&Point::new(s(0.0), s(0.0), s(0.0))), white());
    assert_color_close(
        pattern.pattern_at(&Point::new(s(0.25), s(0.0), s(0.0))),
        color(s(0.75), s(0.75), s(0.75)),
    );
    assert_color_close(
        pattern.pattern_at(&Point::new(s(0.5), s(0.0), s(0.0))),
        color(s(0.5), s(0.5), s(0.5)),
    );
    assert_color_close(
        pattern.pattern_at(&Point::new(s(0.75), s(0.0), s(0.0))),
        color(s(0.25), s(0.25), s(0.25)),
    );
}

#[test]
fn test_a_ring_should_extend_in_both_x_and_z() {
    let pattern = Pattern::ring(white(), black());
    assert_color_close(pattern.pattern_at(&Point::new(s(0.0), s(0.0), s(0.0))), white());
    assert_color_close(pattern.pattern_at(&Point::new(s(1.0), s(0.0), s(0.0))), black());
    assert_color_close(pattern.pattern_at(&Point::new(s(0.0), s(0.0), s(1.0))), black());
    // 0.708 is a hair more than sqrt(2) / 2, so the radius just passes 1
    assert_color_close(pattern.pattern_at(&Point::new(s(0.708), s(0.0), s(0.708))), black());
}

#[test]
fn test_checkers_should_repeat_in_x() {
    let pattern = Pattern::checkers(white(), black());
    assert_color_close(pattern.pattern_at(&Point::new(s(0.0), s(0.0), s(0.0))), white());
    assert_color_close(pattern.pattern_at(&Point::new(s(0.99), s(0.0), s(0.0))), white());
    assert_color_close(pattern.pattern_at(&Point::new(s(1.01), s(0.0), s(0.0))), black());
}

#[test]
fn test_checkers_should_repeat_in_y() {
    let pattern = Pattern::checkers(white(), black());
    assert_color_close(pattern.pattern_at(&Point::new(s(0.0), s(0.0), s(0.0))), white());
    assert_color_close(pattern.pattern_at(&Point::new(s(0.0), s(0.99), s(0.0))), white());
    assert_color_close(pattern.pattern_at(&Point::new(s(0.0), s(1.01), s(0.0))), black());
}

#[test]
fn test_checkers_should_repeat_in_z() {
    let pattern = Pattern::checkers(white(), black());
    assert_color_close(pattern.pattern_at(&Point::new(s(0.0), s(0.0), s(0.0))), white());
    assert_color_close(pattern.pattern_at(&Point::new(s(0.0), s(0.0), s(0.99))), white());
    assert_color_close(pattern.pattern_at(&Point::new(s(0.0), s(0.0), s(1.01))), black());
}

#[test]
fn a_singular_pattern_transform_is_rejected() {
    let mut pattern = Pattern::ring(white(), black());
    let result = pattern.set_transform(scaling(s(0.0), s(0.0), s(0.0)));
    assert!(result.is_err());
}
