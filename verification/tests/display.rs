use oscilloscope_graphics::display::{Display, Event, INPUT_MAX};
use oscilloscope_graphics::mapper::Axis;
use oscilloscope_graphics::numeric::Coordinate;

fn screen() -> Display {
    Display::default()
}

#[test]
fn knob_has_no_data_until_a_sample_arrives() {
    let mut display = screen();
    assert_eq!(display.read_knob(), None);
    display.feed(2048);
    let half = display.read_knob().unwrap();
    assert_eq!(half.to_bits(), 2048);
    assert_eq!(f64::from(half.to_bits()) / 4096.0, 0.5);
    assert_eq!(half.to_parameter().to_bits(), 128);
    assert_eq!(display.read_knob(), None);
}

#[test]
fn knob_hands_out_one_sample_per_read_oldest_first() {
    let mut display = screen();
    display.feed(16);
    display.feed(4095);
    display.feed(0);
    assert_eq!(display.read_knob().map(|f| f.to_bits()), Some(16));
    assert_eq!(display.read_knob().map(|f| f.to_bits()), Some(4095));
    display.feed(1600);
    assert_eq!(display.read_knob().map(|f| f.to_bits()), Some(0));
    assert_eq!(display.read_knob().map(|f| f.to_bits()), Some(1600));
    assert_eq!(display.read_knob(), None);
}

#[test]
fn knob_keeps_every_bit_of_the_sample() {
    let mut display = screen();
    let mut last = None;
    for raw in 0..=INPUT_MAX {
        display.feed(raw);
        let read = display.read_knob().unwrap();
        assert_eq!(read.to_bits(), raw);
        assert_eq!(f32::from(read.to_bits()) / 4096.0 * 4096.0, f32::from(raw));
        assert!(last < Some(read.to_bits()));
        last = Some(read.to_bits());
    }
    display.feed(0);
    display.feed(1);
    let zero = display.read_knob().unwrap();
    let one = display.read_knob().unwrap();
    assert_ne!(zero, one);
}

#[test]
fn knob_stays_below_one() {
    let mut display = screen();
    for raw in [INPUT_MAX, INPUT_MAX + 1, 5000, u16::MAX] {
        display.feed(raw);
        let read = display.read_knob().unwrap();
        assert_eq!(read.to_bits(), 4095);
        assert!(f64::from(read.to_bits()) / 4096.0 < 1.0);
    }
    display.feed(15);
    assert_eq!(display.read_knob().map(|f| f.to_bits()), Some(15));
}

#[test]
fn set_position_issues_the_codes_of_both_axes() {
    let mut display = screen();
    display.set_position(Coordinate::saturating_from_int(2), Coordinate::saturating_from_int(1));
    display.set_position(Coordinate::saturating_from_int(9), Coordinate::saturating_from_int(-9));
    assert_eq!(
        display.events().as_slice(),
        &[Event::Position { x: 192, y: 170 }, Event::Position { x: 255, y: 0 }]
    );
}

#[test]
fn wait_issues_a_dwell_even_of_zero() {
    let mut display = screen();
    display.wait_us(0);
    display.wait_us(u32::MAX);
    assert_eq!(display.events().as_slice(), &[Event::Dwell { us: 0 }, Event::Dwell { us: u32::MAX }]);
}

#[test]
fn taking_the_events_empties_the_list_and_keeps_the_rest() {
    let mut display = screen();
    display.feed(7);
    display.wait_us(3);
    let taken = display.take_events();
    assert_eq!(taken, vec![Event::Dwell { us: 3 }]);
    assert!(display.events().is_empty());
    assert!(display.take_events().is_empty());
    display.wait_us(4);
    assert_eq!(display.take_events(), vec![Event::Dwell { us: 4 }]);
    assert_eq!(display.read_knob().map(|f| f.to_bits()), Some(7));
}

#[test]
fn display_keeps_its_axes() {
    let x = Axis::from_units(-1, 1, 1024).unwrap();
    let y = Axis::from_units(-2, 2, 512).unwrap();
    let mut display = Display::new(x, y);
    assert!(display.events().is_empty());
    assert_eq!(display.read_knob(), None);
    assert_eq!(display.x_axis().full_scale(), 1024);
    assert_eq!(display.y_axis().max().to_bits(), 512);
    display.set_position(Coordinate::from_bits(0), Coordinate::from_bits(512));
    assert_eq!(display.events().as_slice(), &[Event::Position { x: 512, y: 512 }]);
    let standard = Display::default();
    assert_eq!(standard.x_axis().min().to_bits(), -1024);
    assert_eq!(standard.x_axis().max().to_bits(), 1024);
    assert_eq!(standard.y_axis().min().to_bits(), -768);
    assert_eq!(standard.y_axis().max().to_bits(), 768);
    assert_eq!(standard.x_axis().full_scale(), 255);
    assert_eq!(standard.y_axis().full_scale(), 255);
}
