use is31fl3729::addresses;
use is31fl3729::bus::{NoopDelay, RegisterFileBus};
use is31fl3729::devices::SevenSegment;
use is31fl3729::Error;

fn new_display() -> SevenSegment<RegisterFileBus> {
    SevenSegment::configure(RegisterFileBus::new())
}

/// The register holding segment row `seg` of character position `pos`.
fn seg_reg(pos: u8, seg: u8) -> u8 {
    0x01 + pos + 16 * seg
}

/// Read back the seven segment rows of a character position as booleans.
fn read_segments(d: &SevenSegment<RegisterFileBus>, pos: u8) -> [bool; 7] {
    let mut out = [false; 7];
    for (seg, o) in out.iter_mut().enumerate() {
        let v = d.device.i2c.reg(seg_reg(pos, seg as u8));
        assert!(v == 0x00 || v == 0xFF);
        *o = v == 0xFF;
    }
    out
}

fn read_point(d: &SevenSegment<RegisterFileBus>, pos: u8) -> bool {
    let v = d.device.i2c.reg(seg_reg(pos, 7));
    assert!(v == 0x00 || v == 0xFF);
    v == 0xFF
}

/// The documented patterns for the digits 0-9, segments A through G.
const DIGITS: [[bool; 7]; 10] = [
    [true, true, true, true, true, true, false],
    [false, true, true, false, false, false, false],
    [true, true, false, true, true, false, true],
    [true, true, true, true, false, false, true],
    [false, true, true, false, false, true, true],
    [true, false, true, true, false, true, true],
    [true, false, true, true, true, true, true],
    [true, true, true, false, false, false, false],
    [true, true, true, true, true, true, true],
    [true, true, true, false, false, true, true],
];

#[test]
fn configure_uses_default_layout() {
    let d = new_display();
    assert_eq!(d.device.address, 0x34);
    assert_eq!(d.device.width, 9);
    assert_eq!(d.device.height, 8);
}

#[test]
fn digits_render_documented_patterns() {
    for (v, expected) in DIGITS.iter().enumerate() {
        let mut d = new_display();
        d.set_digit(0, v as u8, true).unwrap();
        assert_eq!(read_segments(&d, 0), *expected, "digit {}", v);
        assert!(read_point(&d, 0));
    }
}

#[test]
fn digit_zero_segments_exactly() {
    // 0 lights A-F and leaves G off
    let mut d = new_display();
    d.set_digit(2, 0, false).unwrap();
    assert_eq!(read_segments(&d, 2), [true, true, true, true, true, true, false]);
    assert!(!read_point(&d, 2));
}

#[test]
fn digit_one_segments_exactly() {
    // 1 lights B and C only
    let mut d = new_display();
    d.set_digit(1, 1, true).unwrap();
    assert_eq!(read_segments(&d, 1), [false, true, true, false, false, false, false]);
    assert!(read_point(&d, 1));
}

#[test]
fn set_digit_wraps_modulo_36() {
    let mut a = new_display();
    let mut b = new_display();
    a.set_digit(0, 36, false).unwrap();
    b.set_digit(0, 0, false).unwrap();
    for r in 0..=255u8 {
        assert_eq!(a.device.i2c.reg(r), b.device.i2c.reg(r));
    }
}

#[test]
fn set_digit_rejects_out_of_range_position() {
    let mut d = new_display();
    let r = d.set_digit(10, 0, false);
    assert!(matches!(r, Err(Error::InvalidLocation(10))));
    for a in 0..=255u8 {
        assert_eq!(d.device.i2c.reg(a), 0x00);
    }
}

#[test]
fn percent_clamps_at_one_hundred() {
    for tenths in [1000u16, 1234, u16::MAX] {
        let mut d = new_display();
        d.set_percent(0, tenths).unwrap();
        assert_eq!(read_segments(&d, 0), DIGITS[1]);
        assert_eq!(read_segments(&d, 1), DIGITS[0]);
        assert_eq!(read_segments(&d, 2), DIGITS[0]);
        assert!(!read_point(&d, 0));
        assert!(!read_point(&d, 1));
        assert!(!read_point(&d, 2));
    }
}

#[test]
fn percent_zero_blanks_leading_digit() {
    let mut d = new_display();
    d.set_percent(0, 0).unwrap();
    assert_eq!(read_segments(&d, 0), [false; 7]);
    assert!(!read_point(&d, 0));
    assert_eq!(read_segments(&d, 1), DIGITS[0]);
    assert!(read_point(&d, 1));
    assert_eq!(read_segments(&d, 2), DIGITS[0]);
    assert!(!read_point(&d, 2));
}

#[test]
fn percent_five_point_five() {
    let mut d = new_display();
    d.set_percent(0, 55).unwrap();
    assert_eq!(read_segments(&d, 0), [false; 7]);
    assert_eq!(read_segments(&d, 1), DIGITS[5]);
    assert!(read_point(&d, 1));
    assert_eq!(read_segments(&d, 2), DIGITS[5]);
    assert!(!read_point(&d, 2));
}

#[test]
fn percent_mid_range_overwrites_leading_position() {
    // 30.5%: tens, units and tenths digits all land on the leading position,
    // so only the tenths digit (5, decimal point off) persists there.
    let mut d = new_display();
    d.set_percent(0, 305).unwrap();
    assert_eq!(read_segments(&d, 0), DIGITS[5]);
    assert!(!read_point(&d, 0));
    assert_eq!(read_segments(&d, 1), [false; 7]);
    assert_eq!(read_segments(&d, 2), [false; 7]);
}

#[test]
fn percent_renders_in_higher_group() {
    let mut d = new_display();
    d.set_percent(1, 1000).unwrap();
    assert_eq!(read_segments(&d, 3), DIGITS[1]);
    assert_eq!(read_segments(&d, 4), DIGITS[0]);
    assert_eq!(read_segments(&d, 5), DIGITS[0]);
    assert_eq!(read_segments(&d, 0), [false; 7]);
}

#[test]
fn display_set_scaling_forwards() {
    let mut d = new_display();
    d.set_scaling(4, 0x99).unwrap();
    assert_eq!(d.device.i2c.reg(0x90 + 4), 0x99);
}

#[test]
fn display_setup_configures_chip() {
    let mut d = new_display();
    let mut delay = NoopDelay;
    d.setup(&mut delay).unwrap();
    assert_eq!(d.device.i2c.reg(addresses::GCC_REGISTER), 0x40);
    assert_eq!(d.device.i2c.reg(addresses::CONFIG_REGISTER), 0x01);
}

#[test]
fn unwrap_returns_the_bus() {
    let mut d = new_display();
    d.set_digit(0, 8, false).unwrap();
    let bus = d.unwrap();
    assert_eq!(bus.reg(seg_reg(0, 0)), 0xFF);
}
