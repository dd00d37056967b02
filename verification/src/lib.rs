//! Register-level driver logic for the LTC2983 multi-sensor high accuracy
//! digital temperature measurement system, spoken to over a full-duplex
//! synchronous serial bus.
//!
//! The crate covers the bit-exact encoding of per-channel sensor
//! configurations (thermocouples, RTDs, diodes, sense resistors), the framing
//! of register read and write transactions, conversion start and status
//! polling, and the decoding of the device's signed 24-bit fixed-point
//! results into valid / suspect / invalid readings, including multi-round
//! averaging with retry on bad readings.
//!
//! The bus itself is abstracted by the [`SpiTransport`] trait; an adapter for
//! a concrete bus implementation lives outside this crate. Temperatures are
//! carried as raw Q21.10 fixed-point integers (units of 1/1024 degree
//! Celsius), so no floating point is involved here.

mod average;
mod bits;
mod bytebuf;
mod channel;
mod config;
mod driver;
mod framing;
mod reading;
mod transport;

pub use average::{
    accepted_multi_rounds, accepted_rounds, accumulate_reading, accumulate_round,
    average_outcomes, column_sum, outcome_valid, outcome_value, round_entry_valid,
    round_entry_value, valid_count, valid_sum, MultiTemperatureAverage, TemperatureAverage,
};
pub use bits::{be16_bytes, be32_bytes, bits_to_bytes, low_bits, u16_bits, u32_bits, u8_bits};
pub use channel::{
    channels_mask, lemma_channel_address_map, lemma_channel_identifier_range, selection_mask,
    LTC2983Channel,
};
pub use config::{
    DiodeExcitationCurrent, DiodeParameters, DiodeReadingCount, LTC2983OcCurrent, RTDCurve,
    RTDExcitationCurrent, RTDParameters, RTDSensorConfiguration, RTDWireCount,
    SensorConfiguration, ThermalProbeType, ThermocoupleParameters,
};
pub use config::{
    five_bit_header_word, lemma_config_word_type_identifier, lemma_diode_bits_roundtrip,
    lemma_five_bit_header_field_bits, lemma_rtd_field_bits, lemma_rtd_word_roundtrip,
    lemma_thermocouple_field_bits, lemma_thermocouple_word_roundtrip, rtd_word, thermocouple_word,
};
pub use driver::{LTC2983, MAX_AVERAGING_ROUNDS, MAX_DISCARDED_ROUNDS};
pub use framing::{
    channel_mask_frame, configuration_frame, conversion_start_frame, read_frame,
    read_transaction_bytes, start_command_byte, write_transaction_bytes,
};
pub use reading::{
    classify_reading, config_type_field_nonzero, decode_signed_q21_10, reading_in_range,
    reformat_fixedf24_to_fixed_f32, sign_extended_raw, LTC2983Result, LTC2983Status,
};
pub use transport::{LTC2983Error, SpiTransport};
