use fixed::types::I3F5;
use oscilloscope_graphics::error::ConfigError;
use oscilloscope_graphics::mapper::Axis;
use oscilloscope_graphics::numeric::Coordinate;
use oscilloscope_graphics::{TOP, X_MAX, X_MIN, Y_MAX, Y_MIN};

fn x_axis() -> Axis {
    Axis::from_units(X_MIN, X_MAX, TOP).unwrap()
}

fn y_axis() -> Axis {
    Axis::from_units(Y_MIN, Y_MAX, TOP).unwrap()
}

#[test]
fn codes_of_the_standard_axes() {
    let x = x_axis();
    assert_eq!(x.code(Coordinate::saturating_from_int(-4)), 0);
    assert_eq!(x.code(Coordinate::saturating_from_int(4)), 255);
    assert_eq!(x.code(Coordinate::saturating_from_int(0)), 128);
    assert_eq!(x.code(Coordinate::saturating_from_int(1)), 160);
    assert_eq!(x.code(Coordinate::saturating_from_int(2)), 192);
    assert_eq!(x.code(Coordinate::saturating_from_int(-1)), 96);
    assert_eq!(x.code(Coordinate::saturating_from_int(-2)), 64);
    assert_eq!(x.code(Coordinate::from_bits(1)), 128);
    assert_eq!(x.code(Coordinate::from_bits(-1)), 127);
    let y = y_axis();
    assert_eq!(y.code(Coordinate::saturating_from_int(-3)), 0);
    assert_eq!(y.code(Coordinate::saturating_from_int(3)), 255);
    assert_eq!(y.code(Coordinate::saturating_from_int(0)), 128);
    assert_eq!(y.code(Coordinate::saturating_from_int(1)), 170);
}

#[test]
fn code_counts_equal_shares_of_the_range() {
    let axis = Axis::new(Coordinate::from_bits(0), Coordinate::from_bits(4), 2).unwrap();
    assert_eq!(axis.code(Coordinate::from_bits(0)), 0);
    assert_eq!(axis.code(Coordinate::from_bits(1)), 0);
    assert_eq!(axis.code(Coordinate::from_bits(2)), 1);
    assert_eq!(axis.code(Coordinate::from_bits(3)), 2);
    assert_eq!(axis.code(Coordinate::from_bits(4)), 2);
    let halves = Axis::new(Coordinate::from_bits(0), Coordinate::from_bits(3), 1).unwrap();
    assert_eq!(halves.code(Coordinate::from_bits(1)), 0);
    assert_eq!(halves.code(Coordinate::from_bits(2)), 1);
    assert_eq!(halves.code(Coordinate::from_bits(3)), 1);
}

#[test]
fn standard_horizontal_code_is_the_eighth_bit_pattern_plus_half_scale() {
    let x = x_axis();
    let mut last = None;
    for bits in i8::MIN..=i8::MAX {
        let narrow = I3F5::from_bits(bits);
        let wide = Coordinate::from_bits(i32::from(narrow.to_bits()) * 8);
        let code = x.code(wide);
        assert_eq!(i32::from(code), i32::from(narrow.to_bits()) + 128);
        assert!(last < Some(code));
        last = Some(code);
    }
    assert_eq!(x.code(Coordinate::from_bits(8)), 129);
    assert_eq!(x.code(Coordinate::from_bits(7)), 128);
    assert_eq!(x.code(Coordinate::from_bits(-8)), 127);
    assert_eq!(x.code(Coordinate::from_bits(-1024)), 0);
    assert_eq!(x.code(Coordinate::from_bits(1016)), 255);
}

#[test]
fn code_never_decreases_along_the_axis() {
    for axis in [x_axis(), y_axis(), Axis::from_units(-1, 1, 1024).unwrap()] {
        let mut last = axis.code(Coordinate::from_bits(-3000));
        for bits in -2999..3000 {
            let code = axis.code(Coordinate::from_bits(bits));
            assert!(last <= code, "code falls at {}", bits);
            assert!(code <= axis.full_scale());
            last = code;
        }
    }
}

#[test]
fn code_saturates_outside_the_logical_range() {
    let y = y_axis();
    assert_eq!(y.code(Coordinate::from_bits(-769)), 0);
    assert_eq!(y.code(Coordinate::saturating_from_int(-4)), 0);
    assert_eq!(y.code(Coordinate::from_bits(i32::MIN)), 0);
    assert_eq!(y.code(Coordinate::from_bits(769)), 255);
    assert_eq!(y.code(Coordinate::saturating_from_int(4)), 255);
    assert_eq!(y.code(Coordinate::from_bits(i32::MAX)), 255);
}

#[test]
fn code_of_the_widest_axis() {
    let axis =
        Axis::new(Coordinate::from_bits(i32::MIN), Coordinate::from_bits(i32::MAX), u16::MAX).unwrap();
    assert_eq!(axis.code(Coordinate::from_bits(i32::MIN)), 0);
    assert_eq!(axis.code(Coordinate::from_bits(i32::MAX)), u16::MAX);
    assert_eq!(axis.code(Coordinate::from_bits(0)), 32768);
    assert_eq!(axis.code(Coordinate::from_bits(-1)), 32767);
}

#[test]
fn axis_with_full_scale_zero_has_one_code() {
    let axis = Axis::from_units(-1, 1, 0).unwrap();
    assert_eq!(axis.code(Coordinate::from_bits(-256)), 0);
    assert_eq!(axis.code(Coordinate::from_bits(0)), 0);
    assert_eq!(axis.code(Coordinate::from_bits(256)), 0);
}

#[test]
fn empty_logical_range_is_rejected() {
    let five = Coordinate::from_bits(5);
    let four = Coordinate::from_bits(4);
    assert_eq!(Axis::new(five, five, 255).err(), Some(ConfigError::EmptyRange));
    assert_eq!(Axis::new(five, four, 255).err(), Some(ConfigError::EmptyRange));
    assert!(Axis::new(four, five, 255).is_ok());
    assert_eq!(Axis::from_units(3, 3, 255).err(), Some(ConfigError::EmptyRange));
    assert_eq!(Axis::from_units(3, -3, 255).err(), Some(ConfigError::EmptyRange));
}

#[test]
fn axis_keeps_its_configuration() {
    let axis = Axis::from_units(-128, 127, 1024).unwrap();
    assert_eq!(axis.min().to_bits(), -32768);
    assert_eq!(axis.max().to_bits(), 32512);
    assert_eq!(axis.full_scale(), 1024);
}
