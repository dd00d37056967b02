//! The transaction framer: byte sequences for the device's register read
//! and write transactions.
//!
//! Every transaction starts with an operation code (write `0x02`, read
//! `0x03`) and a big-endian 16-bit register address. A write transaction
//! then carries its payload bit fields packed most-significant first into a
//! byte-aligned stream; a read transaction carries one zero filler byte per
//! response byte the device will shift out.

use crate::bits::{
    be16_bytes, be32_bytes, bits_to_bytes, lemma_bits_to_bytes_concat, lemma_bits_to_bytes_u8,
    lemma_low_bits_split, lemma_u16_bits_bytes, lemma_u32_bits_bytes, low_bits, u16_bits, u32_bits,
    u8_bits,
};
use crate::bytebuf::{
    buffer_bits, buffer_new, buffer_to_bytes, buffer_write_bits, buffer_write_u16,
    buffer_write_u32, buffer_write_u8,
};
use crate::channel::LTC2983Channel;
use crate::config::{
    lemma_five_bit_header_field_bits, lemma_rtd_field_bits, lemma_thermocouple_field_bits,
    ThermalProbeType,
};
use vstd::prelude::*;

verus! {

pub(crate) const LTC2983_WRITE: u8 = 0x2;

pub(crate) const LTC2983_READ: u8 = 0x3;

pub(crate) const STATUS_REGISTER: u16 = 0x000;

pub(crate) const MULTI_CHANNEL_MASK_REGISTER: u16 = 0x0F4;

/// The bytes of a write transaction carrying the 32-bit word `w` to
/// register `addr`.
pub open spec fn write_transaction_bytes(addr: u16, w: u32) -> Seq<u8> {
    seq![0x2u8] + be16_bytes(addr) + be32_bytes(w)
}

/// The bytes of a read transaction of register `addr`, with one zero filler
/// byte per byte of expected response.
pub open spec fn read_transaction_bytes(addr: u16, dummy_byte_count: nat) -> Seq<u8> {
    seq![0x3u8] + be16_bytes(addr) + Seq::new(dummy_byte_count, |i: int| 0u8)
}

/// The conversion-start command byte: the 3-bit start opcode over a 5-bit
/// channel field (0 selects the multi-channel mask).
pub open spec fn start_command_byte(channel_field: u64) -> u8 {
    (0x80u64 | (channel_field & 0x1f)) as u8
}

/// The bytes that start a conversion: a write of the command byte to the
/// status register.
pub open spec fn conversion_start_bytes(channel_field: u64) -> Seq<u8> {
    seq![0x2u8, 0x0u8, 0x0u8, start_command_byte(channel_field)]
}

/// An opcode and a 16-bit address followed by a byte-aligned payload frame
/// as the payload's bytes after the three header bytes.
proof fn lemma_wire_frame(op: u8, addr: u16, body: Seq<bool>, body_bytes: Seq<u8>)
    requires
        bits_to_bytes(body) == body_bytes,
    ensures
        bits_to_bytes(u8_bits(op) + u16_bits(addr) + body) == seq![op] + be16_bytes(addr)
            + body_bytes,
{
    lemma_bits_to_bytes_u8(op);
    lemma_u16_bits_bytes(addr);
    lemma_bits_to_bytes_concat(u16_bits(addr), body);
    lemma_bits_to_bytes_concat(u8_bits(op), u16_bits(addr) + body);
    assert(u8_bits(op) + u16_bits(addr) + body =~= u8_bits(op) + (u16_bits(addr) + body));
    assert(bits_to_bytes(u8_bits(op) + u16_bits(addr) + body) =~= seq![op] + be16_bytes(addr)
        + body_bytes);
}

/// The 3-bit start opcode over a 5-bit channel field packs into the start
/// command byte.
proof fn lemma_start_command_bits(channel_field: u64)
    ensures
        low_bits(0x4, 3) + low_bits(channel_field, 5) == u8_bits(start_command_byte(channel_field)),
{
    let w = start_command_byte(channel_field) as u64;
    assert((w >> 5) & vstd::prelude::sub(1u64 << 3, 1) == 0x4u64 & vstd::prelude::sub(1u64 << 3, 1)
        && w & vstd::prelude::sub(1u64 << 5, 1) == channel_field & vstd::prelude::sub(
        1u64 << 5,
        1,
    ) && w < 256) by (bit_vector)
        requires
            w == ((0x80u64 | (channel_field & 0x1f)) as u8) as u64,
    ;
    lemma_low_bits_split(w, 8, 5);
    crate::bits::lemma_low_bits_agree(w >> 5, 0x4, 3);
    crate::bits::lemma_low_bits_agree(w, channel_field, 5);
    assert(low_bits(0x4, 3) + low_bits(channel_field, 5) =~= u8_bits(
        start_command_byte(channel_field),
    ));
}

/// Build the write transaction that loads a probe's configuration word into
/// a channel's configuration register.
#[verifier::rlimit(60)]
pub fn configuration_frame(probe: &ThermalProbeType, channel: &LTC2983Channel) -> (r: Vec<u8>)
    requires
        probe.is_implemented(),
    ensures
        r@ == write_transaction_bytes(channel.spec_start_address(), probe.spec_config_word()),
{
    let mut frame = buffer_new();
    // the first byte of the transaction selects a read or write operation,
    // the next two hold the register address to write to
    buffer_write_u8(&mut frame, LTC2983_WRITE);
    buffer_write_u16(&mut frame, channel.start_address());
    let ghost header: Seq<bool> = u8_bits(LTC2983_WRITE) + u16_bits(channel.spec_start_address());
    match probe {
        ThermalProbeType::Thermocouple_J(param)
        | ThermalProbeType::Thermocouple_K(param)
        | ThermalProbeType::Thermocouple_E(param)
        | ThermalProbeType::Thermocouple_N(param)
        | ThermalProbeType::Thermocouple_R(param)
        | ThermalProbeType::Thermocouple_S(param)
        | ThermalProbeType::Thermocouple_T(param)
        | ThermalProbeType::Thermocouple_B(param) => {
            // |31:27| thermocouple type
            buffer_write_bits(&mut frame, probe.identifier(), 5);
            // |26:22| cold junction channel; 0 when no compensation is used
            let cj = match &param.cold_junction_channel {
                None => 0,
                Some(chan) => chan.identifier(),
            };
            buffer_write_bits(&mut frame, cj, 5);
            // |21:18| sensor configuration
            buffer_write_bits(&mut frame, param.config_to_bits(), 4);
            // |17:12| unused, zero
            buffer_write_bits(&mut frame, 0, 6);
            // |11:0| custom thermocouple data pointer
            let custom = match &param.custom_address {
                None => 0,
                Some(addr) => *addr,
            };
            buffer_write_bits(&mut frame, custom as u64, 12);
            proof {
                lemma_thermocouple_field_bits(
                    probe.spec_identifier(),
                    param.spec_cold_junction_field(),
                    param.spec_config_to_bits(),
                    param.spec_custom_field(),
                );
                assert(buffer_bits(frame) =~= header + (low_bits(probe.spec_identifier(), 5)
                    + low_bits(param.spec_cold_junction_field(), 5) + low_bits(
                    param.spec_config_to_bits(),
                    4,
                ) + low_bits(0, 6) + low_bits(param.spec_custom_field(), 12)));
                lemma_u32_bits_bytes(probe.spec_config_word());
                lemma_wire_frame(
                    LTC2983_WRITE,
                    channel.spec_start_address(),
                    u32_bits(probe.spec_config_word()),
                    be32_bytes(probe.spec_config_word()),
                );
            }
        },
        ThermalProbeType::RTD_PT10(param)
        | ThermalProbeType::RTD_PT50(param)
        | ThermalProbeType::RTD_PT100(param)
        | ThermalProbeType::RTD_PT200(param)
        | ThermalProbeType::RTD_PT500(param)
        | ThermalProbeType::RTD_PT1000(param)
        | ThermalProbeType::RTD_1000(param)
        | ThermalProbeType::RTD_NI120(param) => {
            // |31:27| RTD type
            buffer_write_bits(&mut frame, probe.identifier(), 5);
            // |26:22| sense resistor channel assignment
            buffer_write_bits(&mut frame, param.r_sense_channel_value().identifier(), 5);
            // |21:18| sensor configuration
            buffer_write_bits(&mut frame, param.sensor_configuration_value().to_bits(), 4);
            // |17:14| excitation current
            buffer_write_bits(&mut frame, param.excitation_current_value().identifier(), 4);
            // |13:12| curve
            buffer_write_bits(&mut frame, param.curve_value().identifier(), 2);
            // |11:0| custom RTD data pointer
            let custom = match param.custom_address_value() {
                None => 0,
                Some(addr) => addr,
            };
            buffer_write_bits(&mut frame, custom as u64, 12);
            proof {
                lemma_rtd_field_bits(
                    probe.spec_identifier(),
                    param.spec_r_sense_channel().spec_identifier(),
                    param.spec_sensor_configuration().spec_to_bits(),
                    param.spec_excitation_current().spec_identifier(),
                    param.spec_curve().spec_identifier(),
                    param.spec_custom_field(),
                );
                assert(buffer_bits(frame) =~= header + (low_bits(probe.spec_identifier(), 5)
                    + low_bits(param.spec_r_sense_channel().spec_identifier(), 5) + low_bits(
                    param.spec_sensor_configuration().spec_to_bits(),
                    4,
                ) + low_bits(param.spec_excitation_current().spec_identifier(), 4) + low_bits(
                    param.spec_curve().spec_identifier(),
                    2,
                ) + low_bits(param.spec_custom_field(), 12)));
                lemma_u32_bits_bytes(probe.spec_config_word());
                lemma_wire_frame(
                    LTC2983_WRITE,
                    channel.spec_start_address(),
                    u32_bits(probe.spec_config_word()),
                    be32_bytes(probe.spec_config_word()),
                );
            }
        },
        ThermalProbeType::Diode(param) => {
            // |31:27| diode type identifier, then the 27 diode parameter bits
            buffer_write_bits(&mut frame, probe.identifier(), 5);
            buffer_write_bits(&mut frame, param.to_bits(), 27);
            proof {
                lemma_five_bit_header_field_bits(probe.spec_identifier(), param.spec_to_bits());
                assert(buffer_bits(frame) =~= header + (low_bits(probe.spec_identifier(), 5)
                    + low_bits(param.spec_to_bits(), 27)));
                lemma_u32_bits_bytes(probe.spec_config_word());
                lemma_wire_frame(
                    LTC2983_WRITE,
                    channel.spec_start_address(),
                    u32_bits(probe.spec_config_word()),
                    be32_bytes(probe.spec_config_word()),
                );
            }
        },
        ThermalProbeType::SenseResistor(resistance) => {
            // |31:27| sense resistor type identifier
            buffer_write_bits(&mut frame, probe.identifier(), 5);
            // |26:0| unsigned 17.10 fixed-point resistance
            buffer_write_bits(&mut frame, *resistance as u64, 27);
            proof {
                lemma_five_bit_header_field_bits(probe.spec_identifier(), *resistance as u64);
                assert(buffer_bits(frame) =~= header + (low_bits(probe.spec_identifier(), 5)
                    + low_bits(*resistance as u64, 27)));
                lemma_u32_bits_bytes(probe.spec_config_word());
                lemma_wire_frame(
                    LTC2983_WRITE,
                    channel.spec_start_address(),
                    u32_bits(probe.spec_config_word()),
                    be32_bytes(probe.spec_config_word()),
                );
            }
        },
        _ => {
            proof {
                assert(false);
            }
            return vstd::pervasive::unreached();
        },
    }
    buffer_to_bytes(&frame)
}

/// Build the read transaction that fetches `dummy_byte_count` response
/// bytes from register `addr`.
pub fn read_frame(addr: u16, dummy_byte_count: usize) -> (r: Vec<u8>)
    ensures
        r@ == read_transaction_bytes(addr, dummy_byte_count as nat),
        r@.len() == 3 + dummy_byte_count,
{
    let mut frame = buffer_new();
    buffer_write_u8(&mut frame, LTC2983_READ);
    buffer_write_u16(&mut frame, addr);
    proof {
        assert(buffer_bits(frame) =~= u8_bits(LTC2983_READ) + u16_bits(addr) + dummy_bits(0));
    }
    let mut i: usize = 0;
    while i < dummy_byte_count
        invariant
            i <= dummy_byte_count,
            buffer_bits(frame) == u8_bits(LTC2983_READ) + u16_bits(addr) + dummy_bits(i as nat),
        decreases dummy_byte_count - i,
    {
        buffer_write_u8(&mut frame, 0x0);
        proof {
            lemma_u8_zero_bits();
            assert(buffer_bits(frame) =~= u8_bits(LTC2983_READ) + u16_bits(addr) + dummy_bits(
                i as nat + 1,
            ));
        }
        i = i + 1;
    }
    proof {
        lemma_dummy_bits_bytes(dummy_byte_count as nat);
        lemma_wire_frame(
            LTC2983_READ,
            addr,
            dummy_bits(dummy_byte_count as nat),
            Seq::new(dummy_byte_count as nat, |k: int| 0u8),
        );
        assert(buffer_bits(frame) =~= u8_bits(LTC2983_READ) + u16_bits(addr) + dummy_bits(
            dummy_byte_count as nat,
        ));
    }
    buffer_to_bytes(&frame)
}

/// `n` zero filler bytes as a bit stream.
spec fn dummy_bits(n: nat) -> Seq<bool> {
    Seq::new(n * 8, |i: int| false)
}

proof fn lemma_u8_zero_bits()
    ensures
        u8_bits(0) == Seq::new(8, |i: int| false),
{
    assert forall|i: int| 0 <= i < 8 implies u8_bits(0)[i] == false by {
        let j = (7 - i) as u64;
        assert((0u64 >> j) & 1 == 0) by (bit_vector);
    }
    assert(u8_bits(0) =~= Seq::new(8, |i: int| false));
}

proof fn lemma_dummy_bits_bytes(n: nat)
    ensures
        bits_to_bytes(dummy_bits(n)) == Seq::new(n, |k: int| 0u8),
    decreases n,
{
    if n == 0 {
        assert(bits_to_bytes(dummy_bits(0)) =~= Seq::new(0, |k: int| 0u8));
    } else {
        lemma_dummy_bits_bytes((n - 1) as nat);
        lemma_bits_to_bytes_u8(0);
        lemma_u8_zero_bits();
        assert(dummy_bits(n) =~= u8_bits(0) + dummy_bits((n - 1) as nat));
        lemma_bits_to_bytes_concat(u8_bits(0), dummy_bits((n - 1) as nat));
        assert(bits_to_bytes(dummy_bits(n)) =~= Seq::new(n, |k: int| 0u8));
    }
}

/// Build the write transaction that loads the multi-channel selection mask
/// register.
pub fn channel_mask_frame(mask: u32) -> (r: Vec<u8>)
    ensures
        r@ == write_transaction_bytes(0x0F4, mask),
{
    let mut frame = buffer_new();
    buffer_write_u8(&mut frame, LTC2983_WRITE);
    buffer_write_u16(&mut frame, MULTI_CHANNEL_MASK_REGISTER);
    buffer_write_u32(&mut frame, mask);
    proof {
        lemma_u32_bits_bytes(mask);
        lemma_wire_frame(LTC2983_WRITE, MULTI_CHANNEL_MASK_REGISTER, u32_bits(mask), be32_bytes(
            mask,
        ));
        assert(buffer_bits(frame) =~= u8_bits(LTC2983_WRITE) + u16_bits(MULTI_CHANNEL_MASK_REGISTER)
            + u32_bits(mask));
    }
    buffer_to_bytes(&frame)
}

/// Build the write transaction that starts a conversion: the start command
/// byte, carrying the channel number (or 0 for "use the mask"), written to
/// the status register.
pub fn conversion_start_frame(channel_field: u64) -> (r: Vec<u8>)
    ensures
        r@ == conversion_start_bytes(channel_field),
{
    let mut frame = buffer_new();
    buffer_write_u8(&mut frame, LTC2983_WRITE);
    buffer_write_u16(&mut frame, STATUS_REGISTER);
    buffer_write_bits(&mut frame, 0x4, 3);
    buffer_write_bits(&mut frame, channel_field, 5);
    proof {
        lemma_start_command_bits(channel_field);
        lemma_bits_to_bytes_u8(start_command_byte(channel_field));
        lemma_wire_frame(
            LTC2983_WRITE,
            STATUS_REGISTER,
            u8_bits(start_command_byte(channel_field)),
            seq![start_command_byte(channel_field)],
        );
        assert(buffer_bits(frame) =~= u8_bits(LTC2983_WRITE) + u16_bits(STATUS_REGISTER) + u8_bits(
            start_command_byte(channel_field),
        ));
        assert((0x000u16 >> 8) & 0xff == 0 && 0x000u16 & 0xff == 0) by (bit_vector);
        assert(seq![LTC2983_WRITE] + be16_bytes(STATUS_REGISTER) + seq![
            start_command_byte(channel_field),
        ] =~= conversion_start_bytes(channel_field));
    }
    buffer_to_bytes(&frame)
}

} // verus!
