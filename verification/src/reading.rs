//! Decoding of conversion results and of the status register.
//!
//! A result register holds one error/status byte followed by a 24-bit
//! two's-complement fixed-point magnitude with ten fractional bits (Q21.10).
//! Temperatures are carried as the raw fixed-point integer, in units of
//! 1/1024 degree Celsius.

use vstd::prelude::*;

verus! {

/// The signed value stored in three big-endian two's-complement bytes:
/// the 24-bit pattern sign-extended to a mathematical integer.
pub open spec fn sign_extended_raw(b0: u8, b1: u8, b2: u8) -> int {
    let mag = (b0 as int) * 0x10000 + (b1 as int) * 0x100 + (b2 as int);
    if b0 >= 0x80 {
        mag - 0x1000000
    } else {
        mag
    }
}

/// Widen a 24-bit two's-complement register value to four bytes by
/// replicating the sign bit into a new leading byte.
pub fn reformat_fixedf24_to_fixed_f32(bytes_f24: &[u8; 3]) -> (r: [u8; 4])
    ensures
        r@ == seq![
            if bytes_f24@[0] >= 0x80 { 0xffu8 } else { 0x00u8 },
            bytes_f24@[0],
            bytes_f24@[1],
            bytes_f24@[2],
        ],
{
    proof {
        let b = bytes_f24@[0];
        assert((b & 0x80 == 0x80) == (b >= 0x80)) by (bit_vector);
    }
    if bytes_f24[0] & 0x80 == 0x80 {
        let r = [0xff, bytes_f24[0], bytes_f24[1], bytes_f24[2]];
        assert(r@ =~= seq![0xffu8, bytes_f24@[0], bytes_f24@[1], bytes_f24@[2]]);
        r
    } else {
        let r = [0x00, bytes_f24[0], bytes_f24[1], bytes_f24[2]];
        assert(r@ =~= seq![0x00u8, bytes_f24@[0], bytes_f24@[1], bytes_f24@[2]]);
        r
    }
}

/// Decode the three magnitude bytes of a result register into the raw
/// signed Q21.10 fixed-point value (the temperature in 1/1024 °C steps).
pub fn decode_signed_q21_10(bytes: &[u8; 3]) -> (r: i32)
    ensures
        r as int == sign_extended_raw(bytes@[0], bytes@[1], bytes@[2]),
        -0x800000 <= r < 0x800000,
{
    let wide = reformat_fixedf24_to_fixed_f32(bytes);
    let x: u32 = wide[0] as u32;
    let y: u32 = wide[1] as u32;
    let z: u32 = wide[2] as u32;
    let t: u32 = wide[3] as u32;
    let val: u32 = (x << 24) | (y << 16) | (z << 8) | t;
    proof {
        assert((x << 24) | (y << 16) | (z << 8) | t == x * 0x1000000 + y * 0x10000 + z * 0x100
            + t) by (bit_vector)
            requires
                x < 256 && y < 256 && z < 256 && t < 256,
        ;
    }
    if wide[0] == 0xff {
        ((val as i64) - 0x1_0000_0000) as i32
    } else {
        val as i32
    }
}

/// Whether the first byte of a channel's configuration register shows a
/// configured channel: the 5-bit type identifier occupies its top five
/// bits, and an unconfigured channel reads back all zeroes there.
pub fn config_type_field_nonzero(byte: u8) -> (r: bool)
    ensures
        r == (byte & 0xf8 != 0),
{
    byte & 0xf8 != 0
}

/// A snapshot of the device status register: bit 7 reports a requested
/// conversion start, bit 6 reports completion, and the low five bits echo
/// the selected channel in single-channel mode.
#[derive(Debug)]
pub struct LTC2983Status {
    pub start: bool,
    pub done: bool,
    pub channel_selection: u8,
}

impl LTC2983Status {
    pub fn done(&self) -> (r: bool)
        ensures
            r == self.done,
    {
        self.done
    }
}

impl From<u8> for LTC2983Status {
    fn from(data: u8) -> (r: LTC2983Status) {
        LTC2983Status {
            start: data & 0x80 == 0x80,
            done: data & 0x40 == 0x40,
            channel_selection: data & 0x1f,
        }
    }
}

impl vstd::std_specs::convert::FromSpecImpl<u8> for LTC2983Status {
    open spec fn obeys_from_spec() -> bool {
        true
    }

    open spec fn from_spec(data: u8) -> LTC2983Status {
        LTC2983Status {
            start: data & 0x80 == 0x80,
            done: data & 0x40 == 0x40,
            channel_selection: data & 0x1f,
        }
    }
}

/// One decoded conversion reading. `Valid` carries the raw Q21.10
/// temperature; `Suspect` keeps both the temperature and the error byte,
/// since the magnitude may still carry diagnostic meaning; `Invalid` keeps
/// only the error byte.
#[derive(Debug, Copy, Clone, PartialEq, Eq, Structural)]
pub enum LTC2983Result {
    Invalid(u8),
    Suspect(i32, u8),
    Valid(i32),
}

/// How a raw 4-byte result register value classifies: error byte `0x01`
/// means valid; any of error bits 1-3 set means invalid whatever the
/// magnitude; every other error byte leaves the reading suspect with its
/// magnitude preserved.
pub open spec fn classify_reading(err: u8, b0: u8, b1: u8, b2: u8) -> LTC2983Result {
    if err == 0x01 {
        LTC2983Result::Valid(sign_extended_raw(b0, b1, b2) as i32)
    } else if err & 0xe != 0 {
        LTC2983Result::Invalid(err)
    } else {
        LTC2983Result::Suspect(sign_extended_raw(b0, b1, b2) as i32, err)
    }
}

/// The temperature magnitudes that three bytes can decode to.
pub open spec fn reading_in_range(r: LTC2983Result) -> bool {
    match r {
        LTC2983Result::Valid(v) => -0x800000 <= v < 0x800000,
        LTC2983Result::Suspect(v, _) => -0x800000 <= v < 0x800000,
        LTC2983Result::Invalid(_) => true,
    }
}

impl From<[u8; 4]> for LTC2983Result {
    fn from(bytes: [u8; 4]) -> (r: LTC2983Result) {
        let value = decode_signed_q21_10(&[bytes[1], bytes[2], bytes[3]]);
        let error_code = bytes[0];
        if error_code == 0x01 {
            LTC2983Result::Valid(value)
        } else if error_code & 0xe != 0 {
            LTC2983Result::Invalid(error_code)
        } else {
            LTC2983Result::Suspect(value, error_code)
        }
    }
}

impl vstd::std_specs::convert::FromSpecImpl<[u8; 4]> for LTC2983Result {
    open spec fn obeys_from_spec() -> bool {
        true
    }

    open spec fn from_spec(bytes: [u8; 4]) -> LTC2983Result {
        classify_reading(bytes@[0], bytes@[1], bytes@[2], bytes@[3])
    }
}

} // verus!
