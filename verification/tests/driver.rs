use is31fl3729::addresses;
use is31fl3729::bus::{I2cBus, NoopDelay, RegisterFileBus};
use is31fl3729::devices::SevenSegmentMap;
use is31fl3729::{Error, PwmFreq, SspCycleTime, SspRange, SwSetting, IS31FL3729};

fn new_device() -> IS31FL3729<RegisterFileBus, SevenSegmentMap> {
    IS31FL3729 {
        i2c: RegisterFileBus::new(),
        address: 0x34,
        width: 9,
        height: 8,
        calc_pixel: SevenSegmentMap,
    }
}

/// Preload a register of the in-memory bus by a plain bus write.
fn preload(bus: &mut RegisterFileBus, reg: u8, value: u8) {
    bus.write(0x34, &[reg, value]).unwrap();
}

#[test]
fn pixel_writes_one_register() {
    let mut d = new_device();
    d.pixel(3, 2, 0x80).unwrap();
    // offset = 3 + 16 * 2 = 35, register = PWM base + 35
    assert_eq!(d.i2c.reg(0x01 + 35), 0x80);
    for a in 0..=255u8 {
        if a != 0x01 + 35 {
            assert_eq!(d.i2c.reg(a), 0x00);
        }
    }
}

#[test]
fn pixel_rejects_x_out_of_range() {
    let mut d = new_device();
    let r = d.pixel(10, 0, 0xFF);
    assert!(matches!(r, Err(Error::InvalidLocation(10))));
    for a in 0..=255u8 {
        assert_eq!(d.i2c.reg(a), 0x00);
    }
}

#[test]
fn pixel_rejects_y_out_of_range() {
    let mut d = new_device();
    let r = d.pixel(0, 9, 0xFF);
    assert!(matches!(r, Err(Error::InvalidLocation(9))));
    for a in 0..=255u8 {
        assert_eq!(d.i2c.reg(a), 0x00);
    }
}

#[test]
fn pixel_accepts_stored_dimension_boundary() {
    // The coordinate check is strict-greater, so x == width and y == height
    // still pass; the mapped offsets stay inside the PWM table here.
    let mut d = new_device();
    d.pixel(9, 0, 0x11).unwrap();
    assert_eq!(d.i2c.reg(0x01 + 9), 0x11);
    d.pixel(0, 8, 0x22).unwrap();
    assert_eq!(d.i2c.reg(0x01 + 128), 0x22);
}

#[test]
fn pixel_rejects_offset_beyond_pwm_table() {
    let mut d = new_device();
    d.width = 200;
    let r = d.pixel(150, 0, 0xFF);
    assert!(matches!(r, Err(Error::InvalidLocation(150))));
    for a in 0..=255u8 {
        assert_eq!(d.i2c.reg(a), 0x00);
    }
}

#[test]
fn fill_sets_whole_pwm_table() {
    let mut d = new_device();
    d.fill(0x42).unwrap();
    for a in 0..=255u8 {
        if (0x01..0x01 + addresses::PWM_LEN as u8).contains(&a) {
            assert_eq!(d.i2c.reg(a), 0x42);
        } else {
            assert_eq!(d.i2c.reg(a), 0x00);
        }
    }
}

#[test]
fn fill_matrix_writes_buffer() {
    let mut d = new_device();
    let mut buf = [0u8; 200];
    for (i, b) in buf.iter_mut().enumerate() {
        *b = i as u8;
    }
    d.fill_matrix(&buf).unwrap();
    for i in 0..addresses::PWM_LEN {
        assert_eq!(d.i2c.reg(0x01 + i as u8), i as u8);
    }
    // bytes past the PWM table length are not sent
    assert_eq!(d.i2c.reg(0x01 + addresses::PWM_LEN as u8), 0x00);
}

#[test]
fn set_scaling_writes_one_register() {
    let mut d = new_device();
    d.set_scaling(3, 0x55).unwrap();
    assert_eq!(d.i2c.reg(0x90 + 3), 0x55);
    assert_eq!(d.i2c.reg(0x90), 0x00);
}

#[test]
fn shutdown_round_trip_restores_config() {
    let mut d = new_device();
    preload(&mut d.i2c, addresses::CONFIG_REGISTER, 0xA5);
    d.shutdown(true).unwrap();
    assert_eq!(d.i2c.reg(addresses::CONFIG_REGISTER), 0xA4);
    d.shutdown(false).unwrap();
    assert_eq!(d.i2c.reg(addresses::CONFIG_REGISTER), 0xA5);
}

#[test]
fn shutdown_touches_only_bit_zero() {
    let mut d = new_device();
    d.shutdown(false).unwrap();
    assert_eq!(d.i2c.reg(addresses::CONFIG_REGISTER), 0x01);
    d.shutdown(true).unwrap();
    assert_eq!(d.i2c.reg(addresses::CONFIG_REGISTER), 0x00);
}

#[test]
fn sw_enablement_sets_high_nibble() {
    let mut d = new_device();
    preload(&mut d.i2c, addresses::CONFIG_REGISTER, 0xFF);
    d.sw_enablement(SwSetting::NoScan).unwrap();
    assert_eq!(d.i2c.reg(addresses::CONFIG_REGISTER), 0x8F);
    d.sw_enablement(SwSetting::Sw1Sw9).unwrap();
    assert_eq!(d.i2c.reg(addresses::CONFIG_REGISTER), 0x0F);
    d.sw_enablement(SwSetting::Sw1Sw7).unwrap();
    assert_eq!(d.i2c.reg(addresses::CONFIG_REGISTER), 0x2F);
}

#[test]
fn set_pwm_freq_writes_code() {
    let mut d = new_device();
    d.set_pwm_freq(PwmFreq::P80k).unwrap();
    assert_eq!(d.i2c.reg(addresses::PWM_FREQ_REGISTER), 0b111);
    d.set_pwm_freq(PwmFreq::P55k).unwrap();
    assert_eq!(d.i2c.reg(addresses::PWM_FREQ_REGISTER), 0b000);
    d.set_pwm_freq(PwmFreq::P500).unwrap();
    assert_eq!(d.i2c.reg(addresses::PWM_FREQ_REGISTER), 0b101);
}

#[test]
fn set_spread_spectrum_packs_fields() {
    let mut d = new_device();
    d.set_spread_spectrum(true, SspRange::Range34, SspCycleTime::Cycle660).unwrap();
    assert_eq!(d.i2c.reg(addresses::SPREAD_SPECTRUM_REGISTER), 0x1F);
    d.set_spread_spectrum(false, SspRange::Range15, SspCycleTime::Cycle820).unwrap();
    assert_eq!(d.i2c.reg(addresses::SPREAD_SPECTRUM_REGISTER), 0b0000_0110);
}

#[test]
fn setup_configures_the_chip() {
    let mut d = new_device();
    let mut delay = NoopDelay;
    d.setup(&mut delay).unwrap();
    assert_eq!(d.i2c.reg(addresses::RESET_REGISTER), 0xAE);
    assert_eq!(d.i2c.reg(addresses::CONFIG_REGISTER), 0x01);
    assert_eq!(d.i2c.reg(addresses::GCC_REGISTER), 0x40);
    for i in 0..addresses::SCALING_LEN {
        assert_eq!(d.i2c.reg(0x90 + i as u8), 0xFF);
    }
    // the PWM table is untouched by setup
    for i in 0..addresses::PWM_LEN {
        assert_eq!(d.i2c.reg(0x01 + i as u8), 0x00);
    }
}

#[test]
fn reset_writes_reset_code() {
    let mut d = new_device();
    let mut delay = NoopDelay;
    d.reset(&mut delay).unwrap();
    assert_eq!(d.i2c.reg(addresses::RESET_REGISTER), 0xAE);
}

#[test]
fn check_opens_restores_registers_and_returns_block() {
    let mut d = new_device();
    preload(&mut d.i2c, addresses::CONFIG_REGISTER, 0x81);
    preload(&mut d.i2c, addresses::GCC_REGISTER, 0x33);
    for i in 0..addresses::OPEN_SHORT_LEN {
        preload(&mut d.i2c, addresses::OPEN_SHORT_BASE_REGISTER + i as u8, i as u8 + 1);
    }
    let diag = d.check_opens().unwrap();
    let expected: Vec<u8> = (1..=addresses::OPEN_SHORT_LEN as u8).collect();
    assert_eq!(diag, expected);
    // 0x81 has a clear OSDE field, so the config byte comes back exactly
    assert_eq!(d.i2c.reg(addresses::CONFIG_REGISTER), 0x81);
    assert_eq!(d.i2c.reg(addresses::GCC_REGISTER), 0x33);
}

#[test]
fn check_opens_clears_osde_field() {
    let mut d = new_device();
    preload(&mut d.i2c, addresses::CONFIG_REGISTER, 0x87);
    d.check_opens().unwrap();
    assert_eq!(d.i2c.reg(addresses::CONFIG_REGISTER), 0x81);
}

#[test]
fn check_shorts_restores_registers() {
    let mut d = new_device();
    preload(&mut d.i2c, addresses::CONFIG_REGISTER, 0x51);
    preload(&mut d.i2c, addresses::GCC_REGISTER, 0x12);
    let diag = d.check_shorts().unwrap();
    assert_eq!(diag, vec![0u8; addresses::OPEN_SHORT_LEN]);
    assert_eq!(d.i2c.reg(addresses::CONFIG_REGISTER), 0x51);
    assert_eq!(d.i2c.reg(addresses::GCC_REGISTER), 0x12);
}

#[test]
fn set_address_changes_only_the_address() {
    let mut d = new_device();
    d.set_address(0x77);
    assert_eq!(d.address, 0x77);
    assert_eq!(d.width, 9);
    assert_eq!(d.height, 8);
}

#[test]
fn transport_error_converts_to_i2c_error() {
    let e: Error<u8> = Error::from(7u8);
    assert!(matches!(e, Error::I2cError(7)));
}
