//! Preconfigured devices: a seven-segment numeric display built on the raw
//! pixel interface.
//!
//! The display is a row of seven-segment characters, one logical column per
//! character. Rows 0 to 6 are the segments A to G of the standard
//! seven-segment convention, row 7 the decimal point; the coordinate mapping
//! places each row 16 register offsets apart to align with the chip's PWM
//! layout.

use vstd::prelude::*;

use crate::addresses;
use crate::bus::{DelayProvider, I2cBus, Txn};
use crate::{Error, IS31FL3729, PixelMap};

verus! {

/// The seven-segment coordinate mapping: `offset = x + 16 * y`, taken modulo
/// 256. In the valid domain (9 columns, 8 rows) no wrap-around occurs.
pub struct SevenSegmentMap;

impl PixelMap for SevenSegmentMap {
    open spec fn map_spec(&self, x: u8, y: u8) -> u8 {
        ((x as int + 16 * (y as int)) % 256) as u8
    }

    fn map(&self, x: u8, y: u8) -> (r: u8) {
        (((x as u32) + 16 * (y as u32)) % 256) as u8
    }
}

/// The glyph table: the seven segments of value `v` (taken modulo 36), as a
/// mask with segment A in bit 0 through segment G in bit 6. Entries 0-9 are
/// the digits, 10-35 the letters A-Z with a lone G segment standing in for
/// the shapes a seven-segment character cannot form.
pub open spec fn glyph_mask(v: int) -> u32 {
    let d = v % 36;
    if d == 0 {
        0x3F  // 0: ABCDEF
    } else if d == 1 {
        0x06  // 1: BC
    } else if d == 2 {
        0x5B  // 2: ABDEG
    } else if d == 3 {
        0x4F  // 3: ABCDG
    } else if d == 4 {
        0x66  // 4: BCFG
    } else if d == 5 {
        0x6D  // 5: ACDFG
    } else if d == 6 {
        0x7D  // 6: ACDEFG
    } else if d == 7 {
        0x07  // 7: ABC
    } else if d == 8 {
        0x7F  // 8: ABCDEFG
    } else if d == 9 {
        0x67  // 9: ABCFG
    } else if d == 10 {
        0x77  // A: ABCEFG
    } else if d == 11 {
        0x7C  // b: CDEFG
    } else if d == 12 {
        0x39  // C: ADEF
    } else if d == 13 {
        0x5E  // d: BCDEG
    } else if d == 14 {
        0x79  // E: ADEFG
    } else if d == 15 {
        0x71  // F: AEFG
    } else if d == 16 {
        0x3D  // G: ACDEF
    } else if d == 17 {
        0x76  // H: BCEFG
    } else if d == 18 {
        0x04  // i: C
    } else if d == 19 {
        0x1E  // J: BCDE
    } else if d == 20 {
        0x40  // K: n/a
    } else if d == 21 {
        0x38  // L: DEF
    } else if d == 22 {
        0x40  // M: n/a
    } else if d == 23 {
        0x54  // n: CEG
    } else if d == 24 {
        0x5C  // o: CDEG
    } else if d == 25 {
        0x73  // P: ABEFG
    } else if d == 26 {
        0x40  // q: n/a
    } else if d == 27 {
        0x50  // r: EG
    } else if d == 28 {
        0x6D  // S: same as 5
    } else if d == 29 {
        0x78  // t: DEFG
    } else if d == 30 {
        0x1C  // u: CDE
    } else if d == 31 {
        0x40  // v: n/a
    } else if d == 32 {
        0x40  // w: n/a
    } else if d == 33 {
        0x40  // x: n/a
    } else if d == 34 {
        0x6E  // Y: BCDFG
    } else {
        0x5B  // Z: same as 2
    }
}

/// Whether segment `seg` (A is 0, ..., G is 6) is lit for value `v`.
pub open spec fn glyph_seg(v: int, seg: int) -> bool {
    (glyph_mask(v) >> (seg as u32)) & 1 == 1
}

/// Compute [`glyph_mask`].
fn glyph_lookup(val: u8) -> (m: u32)
    ensures
        m == glyph_mask(val as int),
{
    let d = val % 36;
    if d == 0 {
        0x3F
    } else if d == 1 {
        0x06
    } else if d == 2 {
        0x5B
    } else if d == 3 {
        0x4F
    } else if d == 4 {
        0x66
    } else if d == 5 {
        0x6D
    } else if d == 6 {
        0x7D
    } else if d == 7 {
        0x07
    } else if d == 8 {
        0x7F
    } else if d == 9 {
        0x67
    } else if d == 10 {
        0x77
    } else if d == 11 {
        0x7C
    } else if d == 12 {
        0x39
    } else if d == 13 {
        0x5E
    } else if d == 14 {
        0x79
    } else if d == 15 {
        0x71
    } else if d == 16 {
        0x3D
    } else if d == 17 {
        0x76
    } else if d == 18 {
        0x04
    } else if d == 19 {
        0x1E
    } else if d == 20 {
        0x40
    } else if d == 21 {
        0x38
    } else if d == 22 {
        0x40
    } else if d == 23 {
        0x54
    } else if d == 24 {
        0x5C
    } else if d == 25 {
        0x73
    } else if d == 26 {
        0x40
    } else if d == 27 {
        0x50
    } else if d == 28 {
        0x6D
    } else if d == 29 {
        0x78
    } else if d == 30 {
        0x1C
    } else if d == 31 {
        0x40
    } else if d == 32 {
        0x40
    } else if d == 33 {
        0x40
    } else if d == 34 {
        0x6E
    } else {
        0x5B
    }
}

/// The PWM register holding segment row `seg` of character position `which`.
pub open spec fn seg_addr(which: u8, seg: int) -> u8 {
    (addresses::PWM_BASE_REGISTER as int + (which as int + 16 * seg) % 256) as u8
}

/// The brightness a lit (respectively unlit) segment is driven with.
pub open spec fn seg_brightness(on: bool) -> u8 {
    if on {
        0xFF
    } else {
        0x00
    }
}

/// The register file after writing the first `n` glyph segments of `val` at
/// position `which`.
pub open spec fn digit_update_upto(regs: Map<u8, u8>, which: u8, val: u8, n: int) -> Map<u8, u8>
    decreases n,
{
    if n <= 0 {
        regs
    } else {
        digit_update_upto(regs, which, val, n - 1).insert(
            seg_addr(which, n - 1),
            seg_brightness(glyph_seg(val as int, n - 1)),
        )
    }
}

/// The register file after `set_digit(which, val, point)`: the seven glyph
/// segments of `val`, then the decimal point at row 7.
pub open spec fn digit_update(regs: Map<u8, u8>, which: u8, val: u8, point: bool) -> Map<u8, u8> {
    digit_update_upto(regs, which, val, 7).insert(seg_addr(which, 7), seg_brightness(point))
}

/// The register file after blanking the first `n` segment rows of position
/// `which`.
pub open spec fn blank_upto(regs: Map<u8, u8>, which: u8, n: int) -> Map<u8, u8>
    decreases n,
{
    if n <= 0 {
        regs
    } else {
        blank_upto(regs, which, n - 1).insert(seg_addr(which, n - 1), 0x00)
    }
}

/// The register file after blanking all eight rows (seven segments and the
/// decimal point) of position `which`.
pub open spec fn blank_update(regs: Map<u8, u8>, which: u8) -> Map<u8, u8> {
    blank_upto(regs, which, 8)
}

/// The bus transactions writing the first `n` glyph segments of `val` at
/// position `which`, one single-register write per segment row, in row
/// order.
pub open spec fn digit_txns_upto(addr: u8, which: u8, val: u8, n: int) -> Seq<Txn>
    decreases n,
{
    if n <= 0 {
        Seq::empty()
    } else {
        digit_txns_upto(addr, which, val, n - 1).push(
            Txn::Write {
                addr,
                data: seq![
                    seg_addr(which, n - 1),
                    seg_brightness(glyph_seg(val as int, n - 1)),
                ],
            },
        )
    }
}

/// The bus transactions of `set_digit(which, val, point)`: exactly eight
/// single-register writes, the seven glyph segments in row order, then the
/// decimal point row.
pub open spec fn digit_txns(addr: u8, which: u8, val: u8, point: bool) -> Seq<Txn> {
    digit_txns_upto(addr, which, val, 7).push(
        Txn::Write {
            addr,
            data: seq![seg_addr(which, 7), seg_brightness(point)],
        },
    )
}

/// The bus transactions blanking the first `n` segment rows of position
/// `which`, in row order.
pub open spec fn blank_txns_upto(addr: u8, which: u8, n: int) -> Seq<Txn>
    decreases n,
{
    if n <= 0 {
        Seq::empty()
    } else {
        blank_txns_upto(addr, which, n - 1).push(
            Txn::Write { addr, data: seq![seg_addr(which, n - 1), 0x00u8] },
        )
    }
}

/// The bus transactions blanking all eight rows of position `which`.
pub open spec fn blank_txns(addr: u8, which: u8) -> Seq<Txn> {
    blank_txns_upto(addr, which, 8)
}

/// The bus transactions of `set_percent(which, tenths)` on the group whose
/// first character position is `base`: three digits for the clamped "100", a
/// blanking of the leading position followed by the units and tenths digits
/// for values under ten percent, and three digits all at the leading
/// position for the values between.
pub open spec fn percent_txns(addr: u8, base: u8, tenths: u16) -> Seq<Txn> {
    if tenths >= 1000 {
        digit_txns(addr, base, 1, false) + digit_txns(addr, (base + 1) as u8, 0, false)
            + digit_txns(addr, (base + 2) as u8, 0, false)
    } else if tenths < 100 {
        blank_txns(addr, base) + (if tenths > 0 {
            digit_txns(addr, (base + 1) as u8, ((tenths / 10) % 10) as u8, true) + digit_txns(
                addr,
                (base + 2) as u8,
                (tenths % 10) as u8,
                false,
            )
        } else {
            digit_txns(addr, (base + 1) as u8, 0, true) + digit_txns(
                addr,
                (base + 2) as u8,
                0,
                false,
            )
        })
    } else {
        digit_txns(addr, base, ((tenths / 100) % 10) as u8, false) + digit_txns(
            addr,
            base,
            ((tenths / 10) % 10) as u8,
            true,
        ) + digit_txns(addr, base, (tenths % 10) as u8, false)
    }
}

/// The register file after `set_percent(which, tenths)` on the group whose
/// first character position is `base`: a clamped "100" for values of one
/// hundred percent or more; a blanked leading position, the units digit with
/// its decimal point lit, and the tenths digit for values under ten percent;
/// and, for the values between, three writes that all land on the leading
/// position, of which only the last (the tenths digit) persists.
pub open spec fn percent_update(regs: Map<u8, u8>, base: u8, tenths: u16) -> Map<u8, u8> {
    if tenths >= 1000 {
        digit_update(
            digit_update(digit_update(regs, base, 1, false), (base + 1) as u8, 0, false),
            (base + 2) as u8,
            0,
            false,
        )
    } else if tenths < 100 {
        let blanked = blank_update(regs, base);
        if tenths > 0 {
            digit_update(
                digit_update(blanked, (base + 1) as u8, ((tenths / 10) % 10) as u8, true),
                (base + 2) as u8,
                (tenths % 10) as u8,
                false,
            )
        } else {
            digit_update(
                digit_update(blanked, (base + 1) as u8, 0, true),
                (base + 2) as u8,
                0,
                false,
            )
        }
    } else {
        digit_update(
            digit_update(
                digit_update(regs, base, ((tenths / 100) % 10) as u8, false),
                base,
                ((tenths / 10) % 10) as u8,
                true,
            ),
            base,
            (tenths % 10) as u8,
            false,
        )
    }
}

/// The glyph a digit position shows depends on its value only modulo 36:
/// writing value 36 lights the same segments as writing value 0, and issues
/// a byte-identical bus-transaction sequence.
pub proof fn lemma_set_digit_wraps(regs: Map<u8, u8>, addr: u8, which: u8, val: u8, point: bool)
    ensures
        digit_update(regs, which, val, point) == digit_update(
            regs,
            which,
            (val % 36) as u8,
            point,
        ),
        digit_txns(addr, which, val, point) == digit_txns(addr, which, (val % 36) as u8, point),
{
    lemma_digit_upto_mod(regs, which, val, 7);
    lemma_digit_txns_upto_mod(addr, which, val, 7);
}

proof fn lemma_glyph_mod(val: u8)
    ensures
        forall|s: int| glyph_seg(val as int, s) == glyph_seg((val % 36) as int, s),
{
    assert(0 <= (val as int) % 36 < 36);
    assert(((val as int) % 36) % 36 == (val as int) % 36);
    assert(glyph_mask(val as int) == glyph_mask((val % 36) as int));
}

proof fn lemma_digit_txns_upto_mod(addr: u8, which: u8, val: u8, n: int)
    requires
        0 <= n <= 7,
    ensures
        digit_txns_upto(addr, which, val, n) == digit_txns_upto(
            addr,
            which,
            (val % 36) as u8,
            n,
        ),
    decreases n,
{
    if n > 0 {
        lemma_digit_txns_upto_mod(addr, which, val, n - 1);
        lemma_glyph_mod(val);
    }
}

proof fn lemma_digit_upto_mod(regs: Map<u8, u8>, which: u8, val: u8, n: int)
    requires
        0 <= n <= 7,
    ensures
        digit_update_upto(regs, which, val, n) == digit_update_upto(
            regs,
            which,
            (val % 36) as u8,
            n,
        ),
    decreases n,
{
    if n > 0 {
        lemma_digit_upto_mod(regs, which, val, n - 1);
        lemma_glyph_mod(val);
    }
}

pub struct SevenSegment<I2C> {
    pub device: IS31FL3729<I2C, SevenSegmentMap>,
}

impl<I2C: I2cBus> SevenSegment<I2C> {
    /// The device settings (everything but the bus handle) are untouched.
    pub open spec fn settings_unchanged(pre: Self, post: Self) -> bool {
        IS31FL3729::settings_unchanged(pre.device, post.device)
    }

    /// Give the bus handle back, consuming the display.
    pub fn unwrap(self) -> (r: I2C)
        ensures
            r == self.device.i2c,
    {
        self.device.i2c
    }

    /// Set the current available to current sink `which`, between 0 and 15
    /// inclusive; `scale` ranges from 0 (none) to 255 (the maximum).
    pub fn set_scaling(&mut self, which: u8, scale: u8) -> (r: Result<(), I2C::BusError>)
        requires
            which < 16,
        ensures
            Self::settings_unchanged(*old(self), *final (self)),
            r is Ok ==> final (self).device.i2c.regs() == old(self).device.i2c.regs().insert(
                (addresses::SCALING_BASE_REGISTER + which) as u8,
                scale,
            ),
            r is Ok ==> final (self).device.i2c.log() == old(self).device.i2c.log().push(
                Txn::Write {
                    addr: old(self).device.address,
                    data: seq![(addresses::SCALING_BASE_REGISTER + which) as u8, scale],
                },
            ),
    {
        self.device.set_scaling(which, scale)
    }

    /// A seven-segment display at the default slave address: 9 logical
    /// columns of characters, 8 rows (7 segments plus a decimal point).
    pub fn configure(i2c: I2C) -> (r: SevenSegment<I2C>)
        ensures
            r.device.i2c == i2c,
            r.device.address == 0x34,
            r.device.width == 9,
            r.device.height == 8,
    {
        SevenSegment {
            device: IS31FL3729 {
                i2c,
                address: 0x34,
                // logically there are 9 "columns" of 7-segment displays
                width: 9,
                height: 8,  // 7 segments plus a decimal point
                calc_pixel: SevenSegmentMap,
            },
        }
    }

    /// Render the glyph of `val` (taken modulo 36) at character position
    /// `which`, then drive the decimal point per `point`. Each of the eight
    /// rows is one pixel write; see [`digit_update`] for the exact register
    /// image.
    pub fn set_digit(&mut self, which: u8, val: u8, point: bool) -> (r: Result<
        (),
        Error<I2C::BusError>,
    >)
        ensures
            Self::settings_unchanged(*old(self), *final (self)),
            which > old(self).device.width ==> r == Err::<(), Error<I2C::BusError>>(
                Error::InvalidLocation(which),
            ) && *final (self) == *old(self),
            r is Ok ==> final (self).device.i2c.regs() == digit_update(
                old(self).device.i2c.regs(),
                which,
                val,
                point,
            ),
            r is Ok ==> final (self).device.i2c.log() == old(self).device.i2c.log() + digit_txns(
                old(self).device.address,
                which,
                val,
                point,
            ),
            (which <= old(self).device.width && old(self).device.height >= 7 && which <= 30) ==> (r
                is Err ==> r->Err_0 is I2cError),
    {
        let m = glyph_lookup(val);
        proof {
            assert(old(self).device.i2c.log() + digit_txns_upto(
                old(self).device.address,
                which,
                val,
                0,
            ) =~= old(self).device.i2c.log());
        }
        let mut seg: u8 = 0;
        while seg < 7
            invariant
                0 <= seg <= 7,
                m == glyph_mask(val as int),
                Self::settings_unchanged(*old(self), *self),
                seg == 0 ==> *self == *old(self),
                seg > 0 ==> which <= old(self).device.width,
                self.device.i2c.regs() == digit_update_upto(
                    old(self).device.i2c.regs(),
                    which,
                    val,
                    seg as int,
                ),
                self.device.i2c.log() == old(self).device.i2c.log() + digit_txns_upto(
                    old(self).device.address,
                    which,
                    val,
                    seg as int,
                ),
            decreases 7 - seg,
        {
            let on = ((m >> (seg as u32)) & 1) == 1;
            let brightness = if on {
                0xFF
            } else {
                0x00
            };
            match self.device.pixel(which, seg, brightness) {
                Ok(_) => {},
                Err(e) => {
                    return Err(e);
                },
            }
            proof {
                assert(self.device.i2c.log() =~= old(self).device.i2c.log() + digit_txns_upto(
                    old(self).device.address,
                    which,
                    val,
                    seg as int + 1,
                ));
            }
            seg += 1;
        }
        match self.device.pixel(which, 7, if point {
            0xFF
        } else {
            0x00
        }) {
            Ok(_) => {
                proof {
                    assert(self.device.i2c.log() =~= old(self).device.i2c.log() + digit_txns(
                        old(self).device.address,
                        which,
                        val,
                        point,
                    ));
                }
                Ok(())
            },
            Err(e) => Err(e),
        }
    }

    /// Render a 0-100 percentage with one decimal of precision across the
    /// three character positions of group `which` (base index `which * 3`).
    /// `tenths` carries the value in tenths of a percent, so 1000 stands for
    /// 100%. Values of 100% and over render as a clamped "100" with no
    /// decimal points; values under 10% blank the leading position and show
    /// units and tenths digits; the values between write all three digits to
    /// the leading position, of which only the last persists (see
    /// [`percent_update`]).
    pub fn set_percent(&mut self, which: u8, tenths: u16) -> (r: Result<
        (),
        Error<I2C::BusError>,
    >)
        requires
            which <= 84,
        ensures
            Self::settings_unchanged(*old(self), *final (self)),
            r is Ok ==> final (self).device.i2c.regs() == percent_update(
                old(self).device.i2c.regs(),
                (3 * which) as u8,
                tenths,
            ),
            r is Ok ==> final (self).device.i2c.log() == old(self).device.i2c.log()
                + percent_txns(old(self).device.address, (3 * which) as u8, tenths),
            (3 * which + 2 <= old(self).device.width && old(self).device.height >= 7 && 3 * which
                + 2 <= 30) ==> (r is Err ==> r->Err_0 is I2cError),
    {
        let base = which * 3;
        if tenths >= 1000 {
            match self.set_digit(base, 1, false) {
                Ok(_) => {},
                Err(e) => {
                    return Err(e);
                },
            }
            match self.set_digit(base + 1, 0, false) {
                Ok(_) => {},
                Err(e) => {
                    return Err(e);
                },
            }
            match self.set_digit(base + 2, 0, false) {
                Ok(_) => {},
                Err(e) => {
                    return Err(e);
                },
            }
            proof {
                assert(self.device.i2c.log() =~= old(self).device.i2c.log() + percent_txns(
                    old(self).device.address,
                    base,
                    tenths,
                ));
            }
        } else if tenths < 100 {
            // Blank the first digit
            proof {
                assert(old(self).device.i2c.log() + blank_txns_upto(
                    old(self).device.address,
                    base,
                    0,
                ) =~= old(self).device.i2c.log());
            }
            let mut seg: u8 = 0;
            while seg < 8
                invariant
                    0 <= seg <= 8,
                    which <= 84,
                    base == 3 * which,
                    tenths < 100,
                    Self::settings_unchanged(*old(self), *self),
                    seg > 0 ==> base <= old(self).device.width,
                    self.device.i2c.regs() == blank_upto(
                        old(self).device.i2c.regs(),
                        base,
                        seg as int,
                    ),
                    self.device.i2c.log() == old(self).device.i2c.log() + blank_txns_upto(
                        old(self).device.address,
                        base,
                        seg as int,
                    ),
                decreases 8 - seg,
            {
                match self.device.pixel(base, seg, 0x00) {
                    Ok(_) => {},
                    Err(e) => {
                        return Err(e);
                    },
                }
                proof {
                    assert(self.device.i2c.log() =~= old(self).device.i2c.log() + blank_txns_upto(
                        old(self).device.address,
                        base,
                        seg as int + 1,
                    ));
                }
                seg += 1;
            }
            if tenths > 0 {
                match self.set_digit(base + 1, ((tenths / 10) % 10) as u8, true) {
                    Ok(_) => {},
                    Err(e) => {
                        return Err(e);
                    },
                }
                match self.set_digit(base + 2, (tenths % 10) as u8, false) {
                    Ok(_) => {},
                    Err(e) => {
                        return Err(e);
                    },
                }
                proof {
                    assert(self.device.i2c.log() =~= old(self).device.i2c.log() + percent_txns(
                        old(self).device.address,
                        base,
                        tenths,
                    ));
                }
            } else {
                match self.set_digit(base + 1, 0, true) {
                    Ok(_) => {},
                    Err(e) => {
                        return Err(e);
                    },
                }
                match self.set_digit(base + 2, 0, false) {
                    Ok(_) => {},
                    Err(e) => {
                        return Err(e);
                    },
                }
                proof {
                    assert(self.device.i2c.log() =~= old(self).device.i2c.log() + percent_txns(
                        old(self).device.address,
                        base,
                        tenths,
                    ));
                }
            }
        } else {
            match self.set_digit(base, ((tenths / 100) % 10) as u8, false) {
                Ok(_) => {},
                Err(e) => {
                    return Err(e);
                },
            }
            match self.set_digit(base, ((tenths / 10) % 10) as u8, true) {
                Ok(_) => {},
                Err(e) => {
                    return Err(e);
                },
            }
            match self.set_digit(base, (tenths % 10) as u8, false) {
                Ok(_) => {},
                Err(e) => {
                    return Err(e);
                },
            }
            proof {
                assert(self.device.i2c.log() =~= old(self).device.i2c.log() + percent_txns(
                    old(self).device.address,
                    base,
                    tenths,
                ));
            }
        }
        Ok(())
    }

    /// Setup the display; see [`IS31FL3729::setup`].
    pub fn setup<DEL: DelayProvider>(&mut self, delay: &mut DEL) -> (r: Result<
        (),
        Error<I2C::BusError>,
    >)
        ensures
            Self::settings_unchanged(*old(self), *final (self)),
            r is Ok ==> ({
                let pre = old(self).device.i2c.regs();
                let post = final (self).device.i2c.regs();
                &&& post[addresses::RESET_REGISTER] == addresses::RESET
                &&& post[addresses::CONFIG_REGISTER] == (pre[addresses::CONFIG_REGISTER] & 0xFE)
                    | 1
                &&& post[addresses::GCC_REGISTER] == 0x40
                &&& forall|a: u8|
                    addresses::SCALING_BASE_REGISTER <= a < addresses::SCALING_BASE_REGISTER
                        + addresses::SCALING_LEN ==> post[a] == 0xFF
                &&& forall|a: u8|
                    !(a == addresses::RESET_REGISTER || a == addresses::CONFIG_REGISTER || a
                        == addresses::GCC_REGISTER || (addresses::SCALING_BASE_REGISTER <= a
                        < addresses::SCALING_BASE_REGISTER + addresses::SCALING_LEN)) ==> post[a]
                        == pre[a]
            }),
            r is Ok ==> final (self).device.i2c.log() == old(self).device.i2c.log()
                + IS31FL3729::<I2C, SevenSegmentMap>::setup_txns(
                old(self).device.address,
                old(self).device.i2c.regs(),
            ),
            r is Err ==> r->Err_0 is I2cError,
    {
        self.device.setup(delay)
    }
}

} // verus!
