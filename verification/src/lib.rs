//! A driver for the IS31FL3729 I2C LED matrix controller: pixel-level
//! brightness control, device configuration, open/short diagnostics, and a
//! seven-segment numeric display built on top of the pixel interface.
//!
//! The raw transport is consumed through the [`bus::I2cBus`] and
//! [`bus::DelayProvider`] capabilities; every driver operation's effect on the
//! peripheral's registers is stated against the register-file model of
//! [`bus`].

pub mod addresses;
pub mod bus;
pub mod devices;

use vstd::prelude::*;

use crate::bus::{lemma_write_regs, read_regs, write_regs, DelayProvider, I2cBus, Txn};

verus! {

/// A struct to integrate with a new IS31FL3729 powered device.
pub struct IS31FL3729<I2C, M> {
    /// The i2c bus that is used to interact with the device.
    pub i2c: I2C,
    /// The 7-bit i2c slave address of the device. By default on most devices
    /// this is `0x34`.
    pub address: u8,
    /// Width of the LED matrix
    pub width: u8,
    /// Height of the LED matrix
    pub height: u8,
    /// Strategy to convert an x,y coordinate pair to a register offset that
    /// can be accessed using the bus.
    pub calc_pixel: M,
}

/// A pluggable coordinate-to-channel mapping, one per device layout.
pub trait PixelMap: Sized {
    /// The register offset for coordinate (`x`, `y`).
    spec fn map_spec(&self, x: u8, y: u8) -> u8;

    /// Compute the register offset for coordinate (`x`, `y`).
    fn map(&self, x: u8, y: u8) -> (r: u8)
        ensures
            r == self.map_spec(x, y),
    ;
}

#[derive(Clone, Copy, Debug)]
pub enum Error<I2cError> {
    I2cError(I2cError),
    InvalidLocation(u8),
    InvalidFrame(u8),
}

impl<E> From<E> for Error<E> {
    fn from(error: E) -> (r: Self)
        ensures
            r == Error::<E>::I2cError(error),
    {
        Error::I2cError(error)
    }
}

impl<E> vstd::std_specs::convert::FromSpecImpl<E> for Error<E> {
    open spec fn obeys_from_spec() -> bool {
        true
    }

    open spec fn from_spec(error: E) -> Self {
        Error::I2cError(error)
    }
}

/// The config-register byte after toggling software shutdown: bit 0 is the
/// shutdown-disable bit (1 means the chip is running).
pub open spec fn shutdown_value(config: u8, yes: bool) -> u8 {
    (config & 0xFE) | (if yes {
        0u8
    } else {
        1u8
    })
}

/// Entering and then leaving software shutdown restores the config register,
/// provided the chip was not already shut down (its shutdown-disable bit was
/// set); no other bit is touched by either transition.
pub proof fn lemma_shutdown_round_trip(config: u8)
    requires
        config & 0x01 == 1,
    ensures
        shutdown_value(shutdown_value(config, true), false) == config,
{
    assert(((config & 0xFE) | 0) & 0xFE | 1 == config) by (bit_vector)
        requires
            config & 0x01 == 1,
    ;
}

/// The config-register byte after setting the scan topology in bits 4-7.
pub open spec fn sw_config_value(config: u8, setting: SwSetting) -> u8 {
    (config & 0x0F) | (setting.encoding() << 4)
}

/// The config-register byte while an open/short probe runs: the OSDE field
/// (bits 1-2) selects the requested mode.
pub open spec fn osde_probe_config(config: u8, open: bool) -> u8 {
    (config & 0xF9) | (osde_for_probe(open).encoding() << 1)
}

/// The OSDE mode that an open (respectively short) probe requests.
pub open spec fn osde_for_probe(open: bool) -> OSDE {
    if open {
        OSDE::EnableOpen
    } else {
        OSDE::EnableShort
    }
}

/// A config byte whose OSDE field is clear is restored exactly by the
/// diagnostic sequence, which rewrites it with that field cleared.
pub proof fn lemma_diag_restores_exactly(config: u8)
    requires
        config & 0x06 == 0,
    ensures
        config & 0xF9 == config,
{
    assert(config & 0xF9 == config) by (bit_vector)
        requires
            config & 0x06 == 0,
    ;
}

/// The spread-spectrum register byte: bit 4 enables, bits 3:2 hold the range,
/// bits 1:0 the cycle time.
pub open spec fn spread_spectrum_value(enable: bool, range: SspRange, cycle: SspCycleTime) -> u8 {
    (if enable {
        0x10u8
    } else {
        0x00u8
    }) | (range.encoding() << 2) | cycle.encoding()
}

/// PWM frequency selection, a 3-bit code.
#[derive(Clone, Copy, Debug)]
pub enum PwmFreq {
    /// 55kHz
    P55k,
    /// 32kHz
    P32k,
    /// 4kHz
    P4k,
    /// 2kHz
    P2k,
    /// 1kHz
    P1k,
    /// 500Hz
    P500,
    /// 250Hz
    P250,
    /// 80kHz
    P80k,
}

impl PwmFreq {
    /// The 3-bit code written to the PWM frequency register.
    pub open spec fn encoding(self) -> u8 {
        match self {
            PwmFreq::P55k => 0b000,
            PwmFreq::P32k => 0b001,
            PwmFreq::P4k => 0b010,
            PwmFreq::P2k => 0b011,
            PwmFreq::P1k => 0b100,
            PwmFreq::P500 => 0b101,
            PwmFreq::P250 => 0b110,
            PwmFreq::P80k => 0b111,
        }
    }

    /// Compute [`Self::encoding`].
    pub fn value(self) -> (v: u8)
        ensures
            v == self.encoding(),
    {
        match self {
            PwmFreq::P55k => 0b000,
            PwmFreq::P32k => 0b001,
            PwmFreq::P4k => 0b010,
            PwmFreq::P2k => 0b011,
            PwmFreq::P1k => 0b100,
            PwmFreq::P500 => 0b101,
            PwmFreq::P250 => 0b110,
            PwmFreq::P80k => 0b111,
        }
    }
}

/// How many SW rows to enable.
#[derive(Clone, Copy, Debug)]
pub enum SwSetting {
    /// SW1-SW9 active, 9SWx15CS matrix
    Sw1Sw9,
    /// SW1-SW8 active, 8SWx16CS matrix
    Sw1Sw8,
    /// SW1-SW7 active, 7SWx16CS matrix, SW8 not active
    Sw1Sw7,
    /// SW1-SW6 active, 6SWx16CS matrix, SW7-SW8 not active
    Sw1Sw6,
    /// SW1-SW5 active, 5SWx16CS matrix, SW6-SW8 not active
    Sw1Sw5,
    /// SW1-SW4 active, 4SWx16CS matrix, SW5-SW8 not active
    Sw1Sw4,
    /// SW1-SW3 active, 3SWx16CS matrix, SW4-SW8 not active
    Sw1Sw3,
    /// SW1-SW2 active, 2SWx16CS matrix, SW3-SW8 not active
    Sw1Sw2,
    /// All CSx pins only act as current sink, no scanning
    NoScan,
}

impl SwSetting {
    /// The 4-bit code held in bits 4-7 of the config register.
    pub open spec fn encoding(self) -> u8 {
        match self {
            SwSetting::Sw1Sw9 => 0b0000,
            SwSetting::Sw1Sw8 => 0b0001,
            SwSetting::Sw1Sw7 => 0b0010,
            SwSetting::Sw1Sw6 => 0b0011,
            SwSetting::Sw1Sw5 => 0b0100,
            SwSetting::Sw1Sw4 => 0b0101,
            SwSetting::Sw1Sw3 => 0b0110,
            SwSetting::Sw1Sw2 => 0b0111,
            SwSetting::NoScan => 0b1000,
        }
    }

    /// Compute [`Self::encoding`].
    pub fn value(self) -> (v: u8)
        ensures
            v == self.encoding(),
    {
        match self {
            SwSetting::Sw1Sw9 => 0b0000,
            SwSetting::Sw1Sw8 => 0b0001,
            SwSetting::Sw1Sw7 => 0b0010,
            SwSetting::Sw1Sw6 => 0b0011,
            SwSetting::Sw1Sw5 => 0b0100,
            SwSetting::Sw1Sw4 => 0b0101,
            SwSetting::Sw1Sw3 => 0b0110,
            SwSetting::Sw1Sw2 => 0b0111,
            SwSetting::NoScan => 0b1000,
        }
    }
}

/// Open/short detection enable, the OSDE field of the config register.
#[derive(Clone, Copy, Debug)]
pub enum OSDE {
    DisableOSD,
    EnableOpen,
    EnableShort,
}

impl OSDE {
    /// The 2-bit code held in bits 1-2 of the config register.
    pub open spec fn encoding(self) -> u8 {
        match self {
            OSDE::DisableOSD => 0b00,
            OSDE::EnableOpen => 0b01,
            OSDE::EnableShort => 0b10,
        }
    }

    /// Compute [`Self::encoding`].
    pub fn value(self) -> (v: u8)
        ensures
            v == self.encoding(),
    {
        match self {
            OSDE::DisableOSD => 0b00,
            OSDE::EnableOpen => 0b01,
            OSDE::EnableShort => 0b10,
        }
    }
}

/// Spread-spectrum modulation range.
#[derive(Clone, Copy, Debug)]
pub enum SspRange {
    /// +/- 5%
    Range5,
    /// +/- 15%
    Range15,
    /// +/- 24%
    Range24,
    /// +/- 34%
    Range34,
}

impl SspRange {
    /// The 2-bit code held in bits 3:2 of the spread-spectrum register.
    pub open spec fn encoding(self) -> u8 {
        match self {
            SspRange::Range5 => 0b00,
            SspRange::Range15 => 0b01,
            SspRange::Range24 => 0b10,
            SspRange::Range34 => 0b11,
        }
    }

    /// Compute [`Self::encoding`].
    pub fn value(self) -> (v: u8)
        ensures
            v == self.encoding(),
    {
        match self {
            SspRange::Range5 => 0b00,
            SspRange::Range15 => 0b01,
            SspRange::Range24 => 0b10,
            SspRange::Range34 => 0b11,
        }
    }
}

/// Spread-spectrum cycle time.
#[derive(Clone, Copy, Debug)]
pub enum SspCycleTime {
    /// 1980us
    Cycle1980,
    /// 1200us
    Cycle1200,
    /// 820us
    Cycle820,
    /// 660us
    Cycle660,
}

impl SspCycleTime {
    /// The 2-bit code held in bits 1:0 of the spread-spectrum register.
    pub open spec fn encoding(self) -> u8 {
        match self {
            SspCycleTime::Cycle1980 => 0b00,
            SspCycleTime::Cycle1200 => 0b01,
            SspCycleTime::Cycle820 => 0b10,
            SspCycleTime::Cycle660 => 0b11,
        }
    }

    /// Compute [`Self::encoding`].
    pub fn value(self) -> (v: u8)
        ensures
            v == self.encoding(),
    {
        match self {
            SspCycleTime::Cycle1980 => 0b00,
            SspCycleTime::Cycle1200 => 0b01,
            SspCycleTime::Cycle820 => 0b10,
            SspCycleTime::Cycle660 => 0b11,
        }
    }
}

/// The buffer of a block write: the start register followed by the payload.
pub open spec fn block_data(reg: u8, data: Seq<u8>) -> Seq<u8> {
    seq![reg] + data
}

impl<I2C: I2cBus, M: PixelMap> IS31FL3729<I2C, M> {
    /// The bus handle aside, the device settings are untouched.
    pub open spec fn settings_unchanged(pre: Self, post: Self) -> bool {
        &&& post.address == pre.address
        &&& post.width == pre.width
        &&& post.height == pre.height
        &&& post.calc_pixel == pre.calc_pixel
    }

    /// The transactions of a fault-free open/short diagnostic sequence on a
    /// device whose registers held `pre`: save config and global current
    /// control, probe with minimal current and the requested OSDE mode, fetch
    /// the diagnostic block, then restore both saved registers (the config
    /// with its OSDE field cleared).
    pub open spec fn diag_txns(addr: u8, pre: Map<u8, u8>, open: bool) -> Seq<Txn> {
        seq![
            Txn::WriteRead { addr, reg: addresses::CONFIG_REGISTER, n: 1 },
            Txn::WriteRead { addr, reg: addresses::GCC_REGISTER, n: 1 },
            Txn::Write { addr, data: seq![addresses::GCC_REGISTER, 0x01u8] },
            Txn::Write {
                addr,
                data: seq![
                    addresses::CONFIG_REGISTER,
                    osde_probe_config(pre[addresses::CONFIG_REGISTER], open),
                ],
            },
            Txn::WriteRead {
                addr,
                reg: addresses::OPEN_SHORT_BASE_REGISTER,
                n: addresses::OPEN_SHORT_LEN as nat,
            },
            Txn::Write {
                addr,
                data: seq![
                    addresses::CONFIG_REGISTER,
                    (pre[addresses::CONFIG_REGISTER] & 0xF9) as u8,
                ],
            },
            Txn::Write { addr, data: seq![addresses::GCC_REGISTER, pre[addresses::GCC_REGISTER]] },
        ]
    }

    /// What a fault-free diagnostic run leaves behind: `out` is the raw
    /// diagnostic block exactly as stored before the run, the global current
    /// control register is restored, the config register is restored with its
    /// OSDE field cleared, every other register is untouched, and the bus saw
    /// exactly the transactions of [`Self::diag_txns`].
    pub open spec fn diag_effect(pre: Self, post: Self, open: bool, out: Seq<u8>) -> bool {
        &&& out.len() == addresses::OPEN_SHORT_LEN
        &&& out == read_regs(
            pre.i2c.regs(),
            addresses::OPEN_SHORT_BASE_REGISTER as int,
            addresses::OPEN_SHORT_LEN as nat,
        )
        &&& post.i2c.regs()[addresses::CONFIG_REGISTER]
            == pre.i2c.regs()[addresses::CONFIG_REGISTER] & 0xF9
        &&& post.i2c.regs()[addresses::GCC_REGISTER] == pre.i2c.regs()[addresses::GCC_REGISTER]
        &&& forall|a: u8|
            a != addresses::CONFIG_REGISTER && a != addresses::GCC_REGISTER
                ==> post.i2c.regs()[a] == pre.i2c.regs()[a]
        &&& post.i2c.log() == pre.i2c.log() + Self::diag_txns(pre.address, pre.i2c.regs(), open)
    }

    /// The transactions of a fault-free setup sequence on a device whose
    /// registers held `pre`, in order: the reset code, entering shutdown by a
    /// read-modify-write of the config register, the maximum current code,
    /// the scaling block at its maximum, and leaving shutdown by a second
    /// read-modify-write.
    pub open spec fn setup_txns(addr: u8, pre: Map<u8, u8>) -> Seq<Txn> {
        let c0 = pre[addresses::CONFIG_REGISTER];
        seq![
            Txn::Write { addr, data: seq![addresses::RESET_REGISTER, addresses::RESET] },
            Txn::WriteRead { addr, reg: addresses::CONFIG_REGISTER, n: 1 },
            Txn::Write { addr, data: seq![addresses::CONFIG_REGISTER, (c0 & 0xFE) as u8] },
            Txn::Write { addr, data: seq![addresses::GCC_REGISTER, 0x40u8] },
            Txn::Write {
                addr,
                data: block_data(
                    addresses::SCALING_BASE_REGISTER,
                    Seq::new(addresses::SCALING_LEN as nat, |i: int| 0xFFu8),
                ),
            },
            Txn::WriteRead { addr, reg: addresses::CONFIG_REGISTER, n: 1 },
            Txn::Write { addr, data: seq![addresses::CONFIG_REGISTER, ((c0 & 0xFE) | 1) as u8] },
        ]
    }

    fn write(&mut self, buf: &[u8]) -> (r: Result<(), I2C::BusError>)
        requires
            buf@.len() >= 1,
            buf@[0] as int + buf@.len() as int <= 257,
        ensures
            Self::settings_unchanged(*old(self), *final (self)),
            r is Ok ==> final (self).i2c.regs() == write_regs(
                old(self).i2c.regs(),
                buf@[0] as int,
                buf@.skip(1),
            ),
            r is Ok ==> final (self).i2c.log() == old(self).i2c.log().push(
                Txn::Write { addr: old(self).address, data: buf@ },
            ),
    {
        let addr = self.address;
        self.i2c.write(addr, buf)
    }

    fn write_u8(&mut self, register: u8, value: u8) -> (r: Result<(), I2C::BusError>)
        ensures
            Self::settings_unchanged(*old(self), *final (self)),
            r is Ok ==> final (self).i2c.regs() == old(self).i2c.regs().insert(register, value),
            r is Ok ==> final (self).i2c.log() == old(self).i2c.log().push(
                Txn::Write { addr: old(self).address, data: seq![register, value] },
            ),
    {
        let mut buf: Vec<u8> = Vec::new();
        buf.push(register);
        buf.push(value);
        let r = self.write(buf.as_slice());
        proof {
            assert(buf@ =~= seq![register, value]);
            assert(buf@.skip(1) =~= seq![value]);
            bus::lemma_write_one(old(self).i2c.regs(), register, value);
        }
        r
    }

    fn read_u8(&mut self, register: u8) -> (r: Result<u8, I2C::BusError>)
        ensures
            Self::settings_unchanged(*old(self), *final (self)),
            r is Ok ==> final (self).i2c.regs() == old(self).i2c.regs(),
            r is Ok ==> r->Ok_0 == old(self).i2c.regs()[register],
            r is Ok ==> final (self).i2c.log() == old(self).i2c.log().push(
                Txn::WriteRead { addr: old(self).address, reg: register, n: 1 },
            ),
    {
        let addr = self.address;
        match self.i2c.write_read(addr, register, 1) {
            Ok(v) => Ok(v[0]),
            Err(e) => Err(e),
        }
    }

    /// Set the brightness at a specific x,y coordinate. The brightness ranges
    /// from 0 to 255. An out-of-range coordinate, or a mapped offset beyond
    /// the PWM table, is rejected with [`Error::InvalidLocation`] before any
    /// bus access; note that the stored dimension value itself still passes
    /// the coordinate check (a boundary quirk of this driver). A valid pixel
    /// write issues exactly one register write.
    pub fn pixel(&mut self, x: u8, y: u8, brightness: u8) -> (r: Result<(), Error<I2C::BusError>>)
        ensures
            Self::settings_unchanged(*old(self), *final (self)),
            ({
                let w = old(self).width;
                let h = old(self).height;
                let off = old(self).calc_pixel.map_spec(x, y);
                &&& x > w ==> r == Err::<(), Error<I2C::BusError>>(Error::InvalidLocation(x))
                    && *final (self) == *old(self)
                &&& x <= w && y > h ==> r == Err::<(), Error<I2C::BusError>>(
                    Error::InvalidLocation(y),
                ) && *final (self) == *old(self)
                &&& x <= w && y <= h && off as int >= addresses::PWM_LEN as int ==> r == Err::<
                    (),
                    Error<I2C::BusError>,
                >(Error::InvalidLocation(off)) && *final (self) == *old(self)
                &&& x <= w && y <= h && (off as int) < addresses::PWM_LEN as int ==> {
                    &&& r is Ok ==> final (self).i2c.regs() == old(self).i2c.regs().insert(
                        (addresses::PWM_BASE_REGISTER + off) as u8,
                        brightness,
                    )
                    &&& r is Ok ==> final (self).i2c.log() == old(self).i2c.log().push(
                        Txn::Write {
                            addr: old(self).address,
                            data: seq![(addresses::PWM_BASE_REGISTER + off) as u8, brightness],
                        },
                    )
                    &&& r is Err ==> r->Err_0 is I2cError
                }
            }),
    {
        if x > self.width {
            return Err(Error::InvalidLocation(x));
        }
        if y > self.height {
            return Err(Error::InvalidLocation(y));
        }
        let pixel = self.calc_pixel.map(x, y);
        if pixel as usize >= addresses::PWM_LEN {
            return Err(Error::InvalidLocation(pixel));
        }
        match self.write_u8(addresses::PWM_BASE_REGISTER + pixel, brightness) {
            Ok(_) => Ok(()),
            Err(e) => Err(Error::I2cError(e)),
        }
    }

    /// Change the slave address to a new 7-bit address. Should be configured
    /// before calling [`Self::setup`]; changing it afterwards does not resend
    /// the configuration.
    pub fn set_address(&mut self, address: u8)
        ensures
            final (self).address == address,
            final (self).width == old(self).width,
            final (self).height == old(self).height,
            final (self).calc_pixel == old(self).calc_pixel,
            final (self).i2c == old(self).i2c,
    {
        self.address = address;
    }

    /// Send a reset message to the slave device, then block for the 10 ms the
    /// chip needs to perform the reset. Required before re-initialization
    /// after address changes or error recovery.
    pub fn reset<DEL: DelayProvider>(&mut self, delay: &mut DEL) -> (r: Result<
        (),
        I2C::BusError,
    >)
        ensures
            Self::settings_unchanged(*old(self), *final (self)),
            r is Ok ==> final (self).i2c.regs() == old(self).i2c.regs().insert(
                addresses::RESET_REGISTER,
                addresses::RESET,
            ),
            r is Ok ==> final (self).i2c.log() == old(self).i2c.log().push(
                Txn::Write {
                    addr: old(self).address,
                    data: seq![addresses::RESET_REGISTER, addresses::RESET],
                },
            ),
    {
        let r = self.write_u8(addresses::RESET_REGISTER, addresses::RESET);
        match r {
            Ok(_) => {
                delay.delay_ms(10);
                Ok(())
            },
            Err(e) => Err(e),
        }
    }

    /// Set the current available to each CSy of LEDs. `cs` is the current
    /// sink, between 0 and 15 inclusive; `scale` ranges from 0 (none) to 255
    /// (the maximum available).
    pub fn set_scaling(&mut self, cs: u8, scale: u8) -> (r: Result<(), I2C::BusError>)
        requires
            cs < 16,
        ensures
            Self::settings_unchanged(*old(self), *final (self)),
            r is Ok ==> final (self).i2c.regs() == old(self).i2c.regs().insert(
                (addresses::SCALING_BASE_REGISTER + cs) as u8,
                scale,
            ),
            r is Ok ==> final (self).i2c.log() == old(self).i2c.log().push(
                Txn::Write {
                    addr: old(self).address,
                    data: seq![(addresses::SCALING_BASE_REGISTER + cs) as u8, scale],
                },
            ),
    {
        self.write_u8(addresses::SCALING_BASE_REGISTER + cs, scale)
    }

    /// Put the device into (or take it out of) software shutdown mode by a
    /// read-modify-write of the config register's low bit. The chip's bit is
    /// inverted: 1 means *not* shut down.
    pub fn shutdown(&mut self, yes: bool) -> (r: Result<(), I2C::BusError>)
        ensures
            Self::settings_unchanged(*old(self), *final (self)),
            r is Ok ==> final (self).i2c.regs() == old(self).i2c.regs().insert(
                addresses::CONFIG_REGISTER,
                shutdown_value(old(self).i2c.regs()[addresses::CONFIG_REGISTER], yes),
            ),
            r is Ok ==> final (self).i2c.log() == old(self).i2c.log().push(
                Txn::WriteRead { addr: old(self).address, reg: addresses::CONFIG_REGISTER, n: 1 },
            ).push(
                Txn::Write {
                    addr: old(self).address,
                    data: seq![
                        addresses::CONFIG_REGISTER,
                        shutdown_value(old(self).i2c.regs()[addresses::CONFIG_REGISTER], yes),
                    ],
                },
            ),
    {
        let config_val = match self.read_u8(addresses::CONFIG_REGISTER) {
            Ok(v) => v,
            Err(e) => {
                return Err(e);
            },
        };
        let new_val = (config_val & 0xFE) | (if yes {
            0
        } else {
            1
        });
        self.write_u8(addresses::CONFIG_REGISTER, new_val)
    }

    /// Select how many SW rows to enable, by a read-modify-write of the
    /// config register's bits 4-7.
    pub fn sw_enablement(&mut self, setting: SwSetting) -> (r: Result<(), I2C::BusError>)
        ensures
            Self::settings_unchanged(*old(self), *final (self)),
            r is Ok ==> final (self).i2c.regs() == old(self).i2c.regs().insert(
                addresses::CONFIG_REGISTER,
                sw_config_value(old(self).i2c.regs()[addresses::CONFIG_REGISTER], setting),
            ),
            r is Ok ==> final (self).i2c.log() == old(self).i2c.log().push(
                Txn::WriteRead { addr: old(self).address, reg: addresses::CONFIG_REGISTER, n: 1 },
            ).push(
                Txn::Write {
                    addr: old(self).address,
                    data: seq![
                        addresses::CONFIG_REGISTER,
                        sw_config_value(old(self).i2c.regs()[addresses::CONFIG_REGISTER], setting),
                    ],
                },
            ),
    {
        let config_register = match self.read_u8(addresses::CONFIG_REGISTER) {
            Ok(v) => v,
            Err(e) => {
                return Err(e);
            },
        };
        let new_val = (config_register & 0x0F) | (setting.value() << 4);
        self.write_u8(addresses::CONFIG_REGISTER, new_val)
    }

    /// Set the PWM frequency.
    pub fn set_pwm_freq(&mut self, pwm: PwmFreq) -> (r: Result<(), I2C::BusError>)
        ensures
            Self::settings_unchanged(*old(self), *final (self)),
            r is Ok ==> final (self).i2c.regs() == old(self).i2c.regs().insert(
                addresses::PWM_FREQ_REGISTER,
                pwm.encoding(),
            ),
            r is Ok ==> final (self).i2c.log() == old(self).i2c.log().push(
                Txn::Write {
                    addr: old(self).address,
                    data: seq![addresses::PWM_FREQ_REGISTER, pwm.encoding()],
                },
            ),
    {
        self.write_u8(addresses::PWM_FREQ_REGISTER, pwm.value())
    }

    /// Set the spread spectrum properties.
    pub fn set_spread_spectrum(&mut self, enable: bool, range: SspRange, cycle: SspCycleTime) -> (r:
        Result<(), I2C::BusError>)
        ensures
            Self::settings_unchanged(*old(self), *final (self)),
            r is Ok ==> final (self).i2c.regs() == old(self).i2c.regs().insert(
                addresses::SPREAD_SPECTRUM_REGISTER,
                spread_spectrum_value(enable, range, cycle),
            ),
            r is Ok ==> final (self).i2c.log() == old(self).i2c.log().push(
                Txn::Write {
                    addr: old(self).address,
                    data: seq![
                        addresses::SPREAD_SPECTRUM_REGISTER,
                        spread_spectrum_value(enable, range, cycle),
                    ],
                },
            ),
    {
        let v = (if enable {
            0x10
        } else {
            0x00
        }) | (range.value() << 2) | cycle.value();
        self.write_u8(addresses::SPREAD_SPECTRUM_REGISTER, v)
    }

    /// Fill the display with a single brightness, in one block write across
    /// the whole PWM table. The brightness ranges from 0 to 255.
    pub fn fill(&mut self, brightness: u8) -> (r: Result<(), I2C::BusError>)
        ensures
            Self::settings_unchanged(*old(self), *final (self)),
            r is Ok ==> forall|a: u8|
                addresses::PWM_BASE_REGISTER <= a < addresses::PWM_BASE_REGISTER
                    + addresses::PWM_LEN ==> final (self).i2c.regs()[a] == brightness,
            r is Ok ==> forall|a: u8|
                !(addresses::PWM_BASE_REGISTER <= a < addresses::PWM_BASE_REGISTER
                    + addresses::PWM_LEN) ==> final (self).i2c.regs()[a] == old(self).i2c.regs()[a],
            r is Ok ==> final (self).i2c.log() == old(self).i2c.log().push(
                Txn::Write {
                    addr: old(self).address,
                    data: block_data(
                        addresses::PWM_BASE_REGISTER,
                        Seq::new(addresses::PWM_LEN as nat, |i: int| brightness),
                    ),
                },
            ),
    {
        let mut buf: Vec<u8> = Vec::new();
        buf.push(addresses::PWM_BASE_REGISTER);
        let mut i: usize = 0;
        while i < addresses::PWM_LEN
            invariant
                0 <= i <= addresses::PWM_LEN,
                buf@.len() == i + 1,
                buf@[0] == addresses::PWM_BASE_REGISTER,
                forall|j: int| 1 <= j <= i ==> #[trigger] buf@[j] == brightness,
            decreases addresses::PWM_LEN - i,
        {
            buf.push(brightness);
            i += 1;
        }
        let r = self.write(buf.as_slice());
        proof {
            let data = Seq::new(addresses::PWM_LEN as nat, |i: int| brightness);
            assert(buf@ =~= block_data(addresses::PWM_BASE_REGISTER, data));
            assert(buf@.skip(1) =~= data);
            lemma_write_regs(old(self).i2c.regs(), addresses::PWM_BASE_REGISTER as int, data);
        }
        r
    }

    /// Fill all pixels of the display at once from an explicit per-offset
    /// buffer, which must supply at least the full PWM table length. Each
    /// brightness ranges from 0 to 255.
    pub fn fill_matrix(&mut self, brightnesses: &[u8]) -> (r: Result<(), I2C::BusError>)
        requires
            brightnesses@.len() >= addresses::PWM_LEN,
        ensures
            Self::settings_unchanged(*old(self), *final (self)),
            r is Ok ==> forall|a: u8|
                addresses::PWM_BASE_REGISTER <= a < addresses::PWM_BASE_REGISTER
                    + addresses::PWM_LEN ==> final (self).i2c.regs()[a] == brightnesses@[a
                    - addresses::PWM_BASE_REGISTER],
            r is Ok ==> forall|a: u8|
                !(addresses::PWM_BASE_REGISTER <= a < addresses::PWM_BASE_REGISTER
                    + addresses::PWM_LEN) ==> final (self).i2c.regs()[a] == old(self).i2c.regs()[a],
            r is Ok ==> final (self).i2c.log() == old(self).i2c.log().push(
                Txn::Write {
                    addr: old(self).address,
                    data: block_data(
                        addresses::PWM_BASE_REGISTER,
                        brightnesses@.take(addresses::PWM_LEN as int),
                    ),
                },
            ),
    {
        let mut buf: Vec<u8> = Vec::new();
        buf.push(addresses::PWM_BASE_REGISTER);
        let mut i: usize = 0;
        while i < addresses::PWM_LEN
            invariant
                0 <= i <= addresses::PWM_LEN,
                brightnesses@.len() >= addresses::PWM_LEN,
                buf@.len() == i + 1,
                buf@[0] == addresses::PWM_BASE_REGISTER,
                forall|j: int| 1 <= j <= i ==> #[trigger] buf@[j] == brightnesses@[j - 1],
            decreases addresses::PWM_LEN - i,
        {
            buf.push(brightnesses[i]);
            i += 1;
        }
        let r = self.write(buf.as_slice());
        proof {
            let data = brightnesses@.take(addresses::PWM_LEN as int);
            assert(buf@ =~= block_data(addresses::PWM_BASE_REGISTER, data));
            assert(buf@.skip(1) =~= data);
            lemma_write_regs(old(self).i2c.regs(), addresses::PWM_BASE_REGISTER as int, data);
        }
        r
    }

    /// Setup the display. Should be called once before interacting with the
    /// device; the chip's power-on state is otherwise undefined.
    ///
    /// When you run this function the following steps occur:
    /// 1. The chip is told that it is being reset, and given 10 ms to do so.
    /// 2. The chip is put in shutdown mode, and given 10 ms to settle.
    /// 3. Global current control is set to the maximum current code.
    /// 4. Every scaling register is set to the maximum (0xFF) in one block
    ///    write.
    /// 5. The chip is taken out of shutdown mode.
    ///
    /// On a transport failure the chip is left partially configured; re-run
    /// this function before relying on it.
    pub fn setup<DEL: DelayProvider>(&mut self, delay: &mut DEL) -> (r: Result<
        (),
        Error<I2C::BusError>,
    >)
        ensures
            Self::settings_unchanged(*old(self), *final (self)),
            r is Ok ==> ({
                let pre = old(self).i2c.regs();
                let post = final (self).i2c.regs();
                &&& post[addresses::RESET_REGISTER] == addresses::RESET
                &&& post[addresses::CONFIG_REGISTER] == (pre[addresses::CONFIG_REGISTER] & 0xFE) | 1
                &&& post[addresses::GCC_REGISTER] == 0x40
                &&& forall|a: u8|
                    addresses::SCALING_BASE_REGISTER <= a < addresses::SCALING_BASE_REGISTER
                        + addresses::SCALING_LEN ==> post[a] == 0xFF
                &&& forall|a: u8|
                    !(a == addresses::RESET_REGISTER || a == addresses::CONFIG_REGISTER || a
                        == addresses::GCC_REGISTER || (addresses::SCALING_BASE_REGISTER <= a
                        < addresses::SCALING_BASE_REGISTER + addresses::SCALING_LEN)) ==> post[a]
                        == pre[a]
            }),
            r is Ok ==> final (self).i2c.log() == old(self).i2c.log() + Self::setup_txns(
                old(self).address,
                old(self).i2c.regs(),
            ),
            r is Err ==> r->Err_0 is I2cError,
    {
        match self.reset(delay) {
            Ok(_) => {},
            Err(e) => {
                return Err(Error::I2cError(e));
            },
        }
        let ghost regs_a = self.i2c.regs();
        match self.shutdown(true) {
            Ok(_) => {},
            Err(e) => {
                return Err(Error::I2cError(e));
            },
        }
        let ghost regs_b = self.i2c.regs();
        delay.delay_ms(10);
        // maximum current limiting
        match self.write_u8(addresses::GCC_REGISTER, 0x40) {
            Ok(_) => {},
            Err(e) => {
                return Err(Error::I2cError(e));
            },
        }
        let ghost regs_c = self.i2c.regs();
        // scaling registers at max
        let mut buf: Vec<u8> = Vec::new();
        buf.push(addresses::SCALING_BASE_REGISTER);
        let mut i: usize = 0;
        while i < addresses::SCALING_LEN
            invariant
                0 <= i <= addresses::SCALING_LEN,
                buf@.len() == i + 1,
                buf@[0] == addresses::SCALING_BASE_REGISTER,
                forall|j: int| 1 <= j <= i ==> #[trigger] buf@[j] == 0xFFu8,
            decreases addresses::SCALING_LEN - i,
        {
            buf.push(0xFF);
            i += 1;
        }
        match self.write(buf.as_slice()) {
            Ok(_) => {},
            Err(e) => {
                return Err(Error::I2cError(e));
            },
        }
        let ghost regs_d = self.i2c.regs();
        proof {
            let data = Seq::new(addresses::SCALING_LEN as nat, |j: int| 0xFFu8);
            assert(buf@ =~= block_data(addresses::SCALING_BASE_REGISTER, data));
            assert(buf@.skip(1) =~= data);
            lemma_write_regs(regs_c, addresses::SCALING_BASE_REGISTER as int, data);
        }
        match self.shutdown(false) {
            Ok(_) => {},
            Err(e) => {
                return Err(Error::I2cError(e));
            },
        }
        proof {
            let pre = old(self).i2c.regs();
            let post = self.i2c.regs();
            let data = Seq::new(addresses::SCALING_LEN as nat, |j: int| 0xFFu8);
            let c0 = pre[addresses::CONFIG_REGISTER];
            assert(regs_d == write_regs(regs_c, addresses::SCALING_BASE_REGISTER as int, data));
            assert(regs_d[addresses::CONFIG_REGISTER] == regs_c[addresses::CONFIG_REGISTER]);
            assert(regs_a[addresses::CONFIG_REGISTER] == c0);
            assert((c0 & 0xFE) | 0 == c0 & 0xFE) by (bit_vector);
            assert(regs_b[addresses::CONFIG_REGISTER] == (c0 & 0xFE));
            assert(regs_c[addresses::CONFIG_REGISTER] == (c0 & 0xFE));
            assert((c0 & 0xFE) & 0xFE == c0 & 0xFE) by (bit_vector);
            assert(post[addresses::CONFIG_REGISTER] == (c0 & 0xFE) | 1);
            assert(regs_d[addresses::RESET_REGISTER] == regs_c[addresses::RESET_REGISTER]);
            assert(post[addresses::RESET_REGISTER] == addresses::RESET);
            assert(regs_d[addresses::GCC_REGISTER] == regs_c[addresses::GCC_REGISTER]);
            assert(post[addresses::GCC_REGISTER] == 0x40);
            assert forall|a: u8|
                addresses::SCALING_BASE_REGISTER <= a < addresses::SCALING_BASE_REGISTER
                    + addresses::SCALING_LEN implies post[a] == 0xFF by {
                assert(regs_d[a] == data[a - addresses::SCALING_BASE_REGISTER]);
            }
            assert forall|a: u8|
                !(a == addresses::RESET_REGISTER || a == addresses::CONFIG_REGISTER || a
                    == addresses::GCC_REGISTER || (addresses::SCALING_BASE_REGISTER <= a
                    < addresses::SCALING_BASE_REGISTER + addresses::SCALING_LEN)) implies post[a]
                == pre[a] by {
                assert(regs_d[a] == regs_c[a]);
            }
            assert(self.i2c.log() =~= old(self).i2c.log() + Self::setup_txns(
                old(self).address,
                pre,
            ));
        }
        Ok(())
    }

    /// Check for opens. See [`Self::diag_effect`] for what a fault-free run
    /// does; on a transport failure mid-sequence the saved registers are left
    /// unrestored.
    pub fn check_opens(&mut self) -> (r: Result<Vec<u8>, I2C::BusError>)
        ensures
            Self::settings_unchanged(*old(self), *final (self)),
            r is Ok ==> Self::diag_effect(*old(self), *final (self), true, r->Ok_0@),
    {
        self.check_open_short(true)
    }

    /// Check for shorts. See [`Self::diag_effect`] for what a fault-free run
    /// does; on a transport failure mid-sequence the saved registers are left
    /// unrestored.
    pub fn check_shorts(&mut self) -> (r: Result<Vec<u8>, I2C::BusError>)
        ensures
            Self::settings_unchanged(*old(self), *final (self)),
            r is Ok ==> Self::diag_effect(*old(self), *final (self), false, r->Ok_0@),
    {
        self.check_open_short(false)
    }

    fn check_open_short(&mut self, open: bool) -> (r: Result<Vec<u8>, I2C::BusError>)
        ensures
            Self::settings_unchanged(*old(self), *final (self)),
            r is Ok ==> Self::diag_effect(*old(self), *final (self), open, r->Ok_0@),
    {
        let old_config = match self.read_u8(addresses::CONFIG_REGISTER) {
            Ok(v) => v,
            Err(e) => {
                return Err(e);
            },
        };
        let old_gcc = match self.read_u8(addresses::GCC_REGISTER) {
            Ok(v) => v,
            Err(e) => {
                return Err(e);
            },
        };
        let osde = if open {
            OSDE::EnableOpen
        } else {
            OSDE::EnableShort
        };
        match self.write_u8(addresses::GCC_REGISTER, 0x01) {
            Ok(_) => {},
            Err(e) => {
                return Err(e);
            },
        }
        match self.write_u8(addresses::CONFIG_REGISTER, (old_config & 0xF9) | (osde.value() << 1)) {
            Ok(_) => {},
            Err(e) => {
                return Err(e);
            },
        }
        let addr = self.address;
        let buf = match self.i2c.write_read(
            addr,
            addresses::OPEN_SHORT_BASE_REGISTER,
            addresses::OPEN_SHORT_LEN,
        ) {
            Ok(v) => v,
            Err(e) => {
                return Err(e);
            },
        };
        match self.write_u8(addresses::CONFIG_REGISTER, old_config & 0xF9) {
            Ok(_) => {},
            Err(e) => {
                return Err(e);
            },
        }
        match self.write_u8(addresses::GCC_REGISTER, old_gcc) {
            Ok(_) => {},
            Err(e) => {
                return Err(e);
            },
        }
        proof {
            let pre = old(self).i2c.regs();
            assert(buf@ =~= read_regs(
                pre,
                addresses::OPEN_SHORT_BASE_REGISTER as int,
                addresses::OPEN_SHORT_LEN as nat,
            ));
            assert(self.i2c.log() =~= old(self).i2c.log() + Self::diag_txns(
                old(self).address,
                pre,
                open,
            ));
        }
        Ok(buf)
    }
}

} // verus!
