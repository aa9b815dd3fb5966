use oscilloscope_graphics::curve::{arc_point, lerp, Curve};
use oscilloscope_graphics::numeric::{Coordinate, Parameter, ONE, TAU};

fn at(x: i32, y: i32) -> (Coordinate, Coordinate) {
    (Coordinate::from_bits(x), Coordinate::from_bits(y))
}

fn units(p: (Coordinate, Coordinate)) -> (f64, f64) {
    (f64::from(p.0.to_bits()) / 256.0, f64::from(p.1.to_bits()) / 256.0)
}

#[test]
fn segment_starts_at_its_first_end_and_ends_at_its_second() {
    let ends = [
        at(0, 0),
        at(1024, 0),
        at(-1024, 768),
        at(1, -1),
        at(i32::MAX, i32::MIN),
        at(i32::MIN, i32::MAX),
        at(123_456, -654_321),
    ];
    for a in ends {
        for b in ends {
            let segment = Curve::Segment { a, b };
            assert_eq!(segment.evaluate(Parameter::from_bits(0)), a);
            assert_eq!(segment.evaluate(Parameter::from_bits(ONE)), b);
        }
    }
}

#[test]
fn segment_interpolates_linearly() {
    let segment = Curve::Segment { a: at(0, -768), b: at(1024, 768) };
    assert_eq!(segment.evaluate(Parameter::from_bits(128)), at(512, 0));
    assert_eq!(segment.evaluate(Parameter::from_bits(64)), at(256, -384));
    assert_eq!(segment.evaluate(Parameter::from_bits(1)), at(4, -762));
    assert_eq!(segment.evaluate(Parameter::from_bits(512)), at(2048, 2304));
    assert_eq!(segment.evaluate(Parameter::from_bits(-256)), at(-1024, -2304));
    assert_eq!(lerp(Coordinate::from_bits(0), Coordinate::from_bits(3), Parameter::from_bits(128)).to_bits(), 1);
    assert_eq!(lerp(Coordinate::from_bits(0), Coordinate::from_bits(-3), Parameter::from_bits(128)).to_bits(), -2);
}

#[test]
fn segment_far_outside_its_ends_saturates() {
    let segment = Curve::Segment { a: at(0, 0), b: at(1024, -1024) };
    assert_eq!(segment.evaluate(Parameter::from_bits(i32::MAX)), at(i32::MAX, i32::MIN));
    assert_eq!(segment.evaluate(Parameter::from_bits(i32::MIN)), at(i32::MIN, i32::MAX));
    let widest = Curve::Segment { a: at(i32::MIN, 0), b: at(i32::MAX, 0) };
    assert_eq!(widest.evaluate(Parameter::from_bits(i32::MIN)).0.to_bits(), i32::MIN);
    assert_eq!(widest.evaluate(Parameter::from_bits(128)).0.to_bits(), -1);
}

#[test]
fn arc_point_moves_the_centre_by_radius_times_cosine_and_sine() {
    let one = Parameter::from_bits(256);
    let zero = Parameter::from_bits(0);
    let r = Coordinate::from_bits(512);
    assert_eq!(arc_point(at(256, -256), r, zero, one), at(768, -256));
    assert_eq!(arc_point(at(256, -256), r, one, zero), at(256, 256));
    assert_eq!(arc_point(at(0, 0), r, Parameter::from_bits(-128), Parameter::from_bits(181)), at(362, -256));
    assert_eq!(arc_point(at(0, 0), Coordinate::from_bits(3), Parameter::from_bits(-128), Parameter::from_bits(128)), at(1, -2));
    assert_eq!(
        arc_point(at(i32::MAX, i32::MIN), r, Parameter::from_bits(-256), one),
        at(i32::MAX, i32::MIN)
    );
}

#[test]
fn negative_radius_mirrors_in_the_centre() {
    let centre = at(300, -200);
    for (sin, cos) in [(0, 256), (256, 0), (181, 181), (-100, 236), (25, -253)] {
        let s = Parameter::from_bits(sin);
        let c = Parameter::from_bits(cos);
        let p = arc_point(centre, Coordinate::from_bits(512), s, c);
        let q = arc_point(centre, Coordinate::from_bits(-512), s, c);
        assert_eq!(p.0.to_bits() - 300, -(q.0.to_bits() - 300));
        assert_eq!(p.1.to_bits() + 200, -(q.1.to_bits() + 200));
    }
}

#[test]
fn arc_closes_after_a_full_turn() {
    for (centre, radius) in [(at(0, 0), 512), (at(256, -768), 256), (at(-1024, 1024), -700), (at(5, 5), 1)] {
        let arc = Curve::Arc {
            center: centre,
            radius: Coordinate::from_bits(radius),
            t_0: Parameter::from_bits(0),
            t_1: Parameter::from_bits(TAU),
        };
        let start = arc.evaluate(Parameter::from_bits(0));
        let end = arc.evaluate(Parameter::from_bits(TAU));
        assert!((start.0.to_bits() - end.0.to_bits()).abs() <= 1);
        assert!((start.1.to_bits() - end.1.to_bits()).abs() <= 1);
    }
}

#[test]
fn circle_points_keep_their_distance_from_the_centre() {
    let circle = Curve::Circle { center: at(0, 0), radius: Coordinate::saturating_from_int(2) };
    for i in 0..1000 {
        let t = Parameter::from_bits(i * TAU / 1000);
        let (x, y) = units(circle.evaluate(t));
        let distance = (x * x + y * y).sqrt();
        assert!((distance - 2.0).abs() < 0.1, "distance {} at sample {}", distance, i);
    }
}

#[test]
fn circle_sample_after_thirty_two_steps() {
    let circle = Curve::Circle { center: at(0, 0), radius: Coordinate::saturating_from_int(2) };
    let step = 26;
    let t = Parameter::from_bits(32 * step);
    let (x, y) = units(circle.evaluate(t));
    let angle = f64::from(32 * step) / 256.0;
    assert!((angle - 3.2).abs() < 0.06);
    assert!((x - 2.0 * angle.cos()).abs() < 0.1, "x {}", x);
    assert!((y - 2.0 * angle.sin()).abs() < 0.1, "y {}", y);
    assert!((x + 1.96).abs() < 0.1, "x {}", x);
}

#[test]
fn circle_is_the_arc_over_a_full_turn() {
    let centre = at(100, -50);
    let radius = Coordinate::from_bits(700);
    let circle = Curve::Circle { center: centre, radius };
    let arc = Curve::Arc {
        center: centre,
        radius,
        t_0: Parameter::from_bits(0),
        t_1: Parameter::from_bits(TAU),
    };
    assert_eq!(circle.domain(), arc.domain());
    for bits in [0, 1, 200, 402, 900, 1608, -77] {
        let t = Parameter::from_bits(bits);
        assert_eq!(circle.evaluate(t), arc.evaluate(t));
    }
}

#[test]
fn point_is_the_same_at_every_parameter() {
    let point = Curve::Point { p: at(17, -4) };
    for bits in [0, 1, -1, 1608, i32::MAX, i32::MIN] {
        assert_eq!(point.evaluate(Parameter::from_bits(bits)), at(17, -4));
    }
}

#[test]
fn curves_know_where_they_start_and_end() {
    let zero = Parameter::from_bits(0);
    assert_eq!(Curve::Segment { a: at(0, 0), b: at(1, 1) }.domain(), (zero, Parameter::from_bits(256)));
    assert_eq!(
        Curve::Circle { center: at(0, 0), radius: Coordinate::from_bits(1) }.domain(),
        (zero, Parameter::from_bits(1608))
    );
    assert_eq!(Curve::Point { p: at(0, 0) }.domain(), (zero, zero));
    let arc = Curve::Arc {
        center: at(0, 0),
        radius: Coordinate::from_bits(1),
        t_0: Parameter::from_bits(804),
        t_1: Parameter::from_bits(-5),
    };
    assert_eq!(arc.domain(), (Parameter::from_bits(804), Parameter::from_bits(-5)));
}
