//! The sensor configuration model: a closed set of probe variants, each
//! carrying a parameter record that serializes into the fixed bit layout of
//! the device's 32-bit channel-configuration word.
//!
//! The universal layout puts the 5-bit sensor type identifier in bits
//! [31:27]; the remaining bits are family specific. The `*_word` spec
//! functions below are the single source of truth for those layouts, and the
//! `lemma_*_field_bits` lemmas connect them to the bit-field sequences that
//! the transaction framer actually emits.

use crate::bits::{low_bits, u32_bits};
use crate::channel::LTC2983Channel;
use vstd::prelude::*;

verus! {

/// Wiring mode of a thermocouple or diode input.
#[derive(Debug)]
pub enum SensorConfiguration {
    SingleEnded,
    Differential,
}

impl Default for SensorConfiguration {
    fn default() -> (r: Self)
        ensures
            r == SensorConfiguration::SingleEnded,
    {
        Self::SingleEnded
    }
}

impl SensorConfiguration {
    pub open spec fn spec_identifier(self) -> u64 {
        match self {
            SensorConfiguration::SingleEnded => 1,
            SensorConfiguration::Differential => 0,
        }
    }

    pub fn identifier(&self) -> (r: u64)
        ensures
            r == self.spec_identifier(),
            r <= 1,
    {
        match self {
            SensorConfiguration::SingleEnded => 1,
            SensorConfiguration::Differential => 0,
        }
    }
}

/// Open-circuit detect excitation current of a thermocouple input.
#[derive(Debug)]
pub enum LTC2983OcCurrent {
    External,
    I10uA,
    I100uA,
    I500uA,
    I1mA,
}

impl Default for LTC2983OcCurrent {
    fn default() -> (r: Self)
        ensures
            r == LTC2983OcCurrent::I10uA,
    {
        Self::I10uA
    }
}

impl LTC2983OcCurrent {
    pub open spec fn spec_identifier(self) -> u64 {
        match self {
            LTC2983OcCurrent::External => 0,
            LTC2983OcCurrent::I10uA => 4,
            LTC2983OcCurrent::I100uA => 5,
            LTC2983OcCurrent::I500uA => 6,
            LTC2983OcCurrent::I1mA => 7,
        }
    }

    pub fn identifier(&self) -> (r: u64)
        ensures
            r == self.spec_identifier(),
            r <= 7,
    {
        match self {
            LTC2983OcCurrent::External => 0,
            LTC2983OcCurrent::I10uA => 4,
            LTC2983OcCurrent::I100uA => 5,
            LTC2983OcCurrent::I500uA => 6,
            LTC2983OcCurrent::I1mA => 7,
        }
    }
}

/// Parameters of a thermocouple channel. A missing cold-junction channel
/// encodes as field value 0, the device's "no compensation" marker, which is
/// indistinguishable on the wire from an absent channel.
#[derive(Debug)]
pub struct ThermocoupleParameters {
    pub cold_junction_channel: Option<LTC2983Channel>,
    pub sensor_configuration: SensorConfiguration,
    pub oc_current: LTC2983OcCurrent,
    pub custom_address: Option<u16>,
}

impl Default for ThermocoupleParameters {
    fn default() -> (r: Self)
        ensures
            r.cold_junction_channel is None,
            r.sensor_configuration == SensorConfiguration::SingleEnded,
            r.oc_current == LTC2983OcCurrent::I10uA,
            r.custom_address is None,
    {
        Self {
            cold_junction_channel: None,
            sensor_configuration: Default::default(),
            oc_current: Default::default(),
            custom_address: None,
        }
    }
}

impl ThermocoupleParameters {
    /// The cold-junction field: the reference channel number, or 0 when no
    /// compensation channel is set.
    pub open spec fn spec_cold_junction_field(self) -> u64 {
        match self.cold_junction_channel {
            None => 0,
            Some(chan) => chan.spec_identifier(),
        }
    }

    /// The custom thermocouple table pointer field, 0 when unused.
    pub open spec fn spec_custom_field(self) -> u64 {
        match self.custom_address {
            None => 0,
            Some(addr) => addr as u64,
        }
    }

    /// The 4-bit sensor configuration field: wiring mode above the
    /// open-circuit current selection.
    pub open spec fn spec_config_to_bits(self) -> u64 {
        (self.sensor_configuration.spec_identifier() << 3) | self.oc_current.spec_identifier()
    }

    pub fn cold_junction(self, chan: LTC2983Channel) -> (r: Self)
        ensures
            r.cold_junction_channel == Some(chan),
            r.sensor_configuration == self.sensor_configuration,
            r.oc_current == self.oc_current,
            r.custom_address == self.custom_address,
    {
        let mut updated = self;
        updated.cold_junction_channel = Some(chan);
        updated
    }

    pub fn sensor_configuration(self, config: SensorConfiguration) -> (r: Self)
        ensures
            r.cold_junction_channel == self.cold_junction_channel,
            r.sensor_configuration == config,
            r.oc_current == self.oc_current,
            r.custom_address == self.custom_address,
    {
        let mut updated = self;
        updated.sensor_configuration = config;
        updated
    }

    pub fn custom_address(self, addr: u16) -> (r: Self)
        ensures
            r.cold_junction_channel == self.cold_junction_channel,
            r.sensor_configuration == self.sensor_configuration,
            r.oc_current == self.oc_current,
            r.custom_address == Some(addr),
    {
        let mut updated = self;
        updated.custom_address = Some(addr);
        updated
    }

    pub fn oc_current(self, oc_current: LTC2983OcCurrent) -> (r: Self)
        ensures
            r.cold_junction_channel == self.cold_junction_channel,
            r.sensor_configuration == self.sensor_configuration,
            r.oc_current == oc_current,
            r.custom_address == self.custom_address,
    {
        let mut updated = self;
        updated.oc_current = oc_current;
        updated
    }

    pub fn config_to_bits(&self) -> (r: u64)
        ensures
            r == self.spec_config_to_bits(),
            r < 16,
    {
        let sc = self.sensor_configuration.identifier();
        let oc = self.oc_current.identifier();
        proof {
            assert(sc <= 1 && oc <= 7 ==> ((sc << 3) | oc) < 16) by (bit_vector);
        }
        (sc << 3) | oc
    }
}

/// Calibration curve of an RTD.
#[derive(Debug)]
#[allow(non_camel_case_types)]
pub enum RTDCurve {
    EuropeanStandard,
    American,
    Japanese,
    ITS_90,
}

impl Default for RTDCurve {
    fn default() -> (r: Self)
        ensures
            r == RTDCurve::EuropeanStandard,
    {
        Self::EuropeanStandard
    }
}

impl RTDCurve {
    pub open spec fn spec_identifier(self) -> u64 {
        match self {
            RTDCurve::EuropeanStandard => 0,
            RTDCurve::American => 1,
            RTDCurve::Japanese => 2,
            RTDCurve::ITS_90 => 3,
        }
    }

    pub fn identifier(&self) -> (r: u64)
        ensures
            r == self.spec_identifier(),
            r <= 3,
    {
        match self {
            RTDCurve::EuropeanStandard => 0,
            RTDCurve::American => 1,
            RTDCurve::Japanese => 2,
            RTDCurve::ITS_90 => 3,
        }
    }
}

/// Wiring configuration of an RTD.
#[derive(Debug, PartialEq, Eq, Structural)]
pub enum RTDWireCount {
    Wire2,
    Wire3,
    Wire4,
    Wire4KelvinRsense,
}

impl Default for RTDWireCount {
    fn default() -> (r: Self)
        ensures
            r == RTDWireCount::Wire2,
    {
        Self::Wire2
    }
}

impl RTDWireCount {
    pub open spec fn spec_identifier(self) -> u64 {
        match self {
            RTDWireCount::Wire2 => 0,
            RTDWireCount::Wire3 => 1,
            RTDWireCount::Wire4 => 2,
            RTDWireCount::Wire4KelvinRsense => 3,
        }
    }

    pub fn identifier(&self) -> (r: u64)
        ensures
            r == self.spec_identifier(),
            r <= 3,
    {
        match self {
            RTDWireCount::Wire2 => 0,
            RTDWireCount::Wire3 => 1,
            RTDWireCount::Wire4 => 2,
            RTDWireCount::Wire4KelvinRsense => 3,
        }
    }
}

/// Wiring, sensing and excitation-rotation options of an RTD channel.
/// Current source rotation only takes effect in the 4-wire modes; in 2- and
/// 3-wire modes it is silently ignored.
#[derive(Debug)]
pub struct RTDSensorConfiguration {
    pub wire_cnt: RTDWireCount,
    pub external: bool,
    pub current_source_rotation: bool,
}

impl Default for RTDSensorConfiguration {
    fn default() -> (r: Self)
        ensures
            r.wire_cnt == RTDWireCount::Wire2,
            !r.external,
            !r.current_source_rotation,
    {
        Self { wire_cnt: Default::default(), external: false, current_source_rotation: false }
    }
}

impl RTDSensorConfiguration {
    /// The 4-bit sensor configuration field. Rotation (4-wire modes only)
    /// shifts the wire count up one place and sets the rotation bit; without
    /// rotation, an internal sense resistor sets the sharing bit instead.
    pub open spec fn spec_to_bits(self) -> u64 {
        let wire = self.wire_cnt.spec_identifier();
        if self.current_source_rotation && self.wire_cnt != RTDWireCount::Wire2 && self.wire_cnt
            != RTDWireCount::Wire3 {
            ((wire << 2) | 0x1) << 1
        } else if !self.external {
            (wire << 2) | 0x1
        } else {
            wire << 2
        }
    }

    pub fn wire_cnt(self, wire_cnt: RTDWireCount) -> (r: Self)
        ensures
            r.wire_cnt == wire_cnt,
            r.external == self.external,
            r.current_source_rotation == self.current_source_rotation,
    {
        let mut updated = self;
        updated.wire_cnt = wire_cnt;
        updated
    }

    pub fn external(self, external: bool) -> (r: Self)
        ensures
            r.wire_cnt == self.wire_cnt,
            r.external == external,
            r.current_source_rotation == self.current_source_rotation,
    {
        let mut updated = self;
        updated.external = external;
        updated
    }

    pub fn current_source_rotation(self, current_src_rotation: bool) -> (r: Self)
        ensures
            r.wire_cnt == self.wire_cnt,
            r.external == self.external,
            r.current_source_rotation == current_src_rotation,
    {
        let mut updated = self;
        updated.current_source_rotation = current_src_rotation;
        updated
    }

    pub fn to_bits(&self) -> (r: u64)
        ensures
            r == self.spec_to_bits(),
    {
        let wire = self.wire_cnt.identifier();
        let mut bits: u64 = wire << 2;
        // current source rotation is not supported in 2- or 3-wire RTDs
        if self.current_source_rotation && self.wire_cnt != RTDWireCount::Wire2 && self.wire_cnt
            != RTDWireCount::Wire3 {
            bits = (bits | 0x1) << 1;
        } else {
            if !self.external {
                bits = bits | 0x1
            }
        }
        bits
    }
}

/// Excitation current of an RTD channel.
#[derive(Debug)]
pub enum RTDExcitationCurrent {
    I5uA,
    I10uA,
    I25uA,
    I50uA,
    I100uA,
    I250uA,
    I500uA,
    I1mA,
}

impl Default for RTDExcitationCurrent {
    fn default() -> (r: Self)
        ensures
            r == RTDExcitationCurrent::I5uA,
    {
        Self::I5uA
    }
}

impl RTDExcitationCurrent {
    pub open spec fn spec_identifier(self) -> u64 {
        match self {
            RTDExcitationCurrent::I5uA => 1,
            RTDExcitationCurrent::I10uA => 2,
            RTDExcitationCurrent::I25uA => 3,
            RTDExcitationCurrent::I50uA => 4,
            RTDExcitationCurrent::I100uA => 5,
            RTDExcitationCurrent::I250uA => 6,
            RTDExcitationCurrent::I500uA => 7,
            RTDExcitationCurrent::I1mA => 8,
        }
    }

    pub fn identifier(&self) -> (r: u64)
        ensures
            r == self.spec_identifier(),
            1 <= r <= 8,
    {
        match self {
            RTDExcitationCurrent::I5uA => 1,
            RTDExcitationCurrent::I10uA => 2,
            RTDExcitationCurrent::I25uA => 3,
            RTDExcitationCurrent::I50uA => 4,
            RTDExcitationCurrent::I100uA => 5,
            RTDExcitationCurrent::I250uA => 6,
            RTDExcitationCurrent::I500uA => 7,
            RTDExcitationCurrent::I1mA => 8,
        }
    }
}

/// Parameters of an RTD channel. The sense-resistor reference channel can
/// never be channel 1: the encoded value names the channel pair (x, x-1)
/// and there is no channel 0. The fields stay private so that every value
/// built through this API keeps that invariant.
#[derive(Debug)]
pub struct RTDParameters {
    r_sense_channel: LTC2983Channel,
    sensor_configuration: RTDSensorConfiguration,
    excitation_current: RTDExcitationCurrent,
    curve: RTDCurve,
    custom_address: Option<u16>,
}

impl Default for RTDParameters {
    fn default() -> (r: Self)
        ensures
            r.spec_r_sense_channel() == LTC2983Channel::CH2,
            r.spec_sensor_configuration().wire_cnt == RTDWireCount::Wire2,
            !r.spec_sensor_configuration().external,
            !r.spec_sensor_configuration().current_source_rotation,
            r.spec_excitation_current() == RTDExcitationCurrent::I5uA,
            r.spec_curve() == RTDCurve::EuropeanStandard,
            r.spec_custom_address() is None,
            r.wf(),
    {
        Self {
            r_sense_channel: LTC2983Channel::CH2,
            sensor_configuration: Default::default(),
            excitation_current: Default::default(),
            curve: Default::default(),
            custom_address: None,
        }
    }
}

impl RTDParameters {
    pub closed spec fn spec_r_sense_channel(self) -> LTC2983Channel {
        self.r_sense_channel
    }

    pub closed spec fn spec_sensor_configuration(self) -> RTDSensorConfiguration {
        self.sensor_configuration
    }

    pub closed spec fn spec_excitation_current(self) -> RTDExcitationCurrent {
        self.excitation_current
    }

    pub closed spec fn spec_curve(self) -> RTDCurve {
        self.curve
    }

    pub closed spec fn spec_custom_address(self) -> Option<u16> {
        self.custom_address
    }

    /// The custom RTD table pointer field, 0 when unused.
    pub open spec fn spec_custom_field(self) -> u64 {
        match self.spec_custom_address() {
            None => 0,
            Some(addr) => addr as u64,
        }
    }

    /// The reference channel is never channel 1; every constructor
    /// establishes this and every builder preserves it.
    pub open spec fn wf(self) -> bool {
        self.spec_r_sense_channel() != LTC2983Channel::CH1
    }

    pub fn curve(self, curve: RTDCurve) -> (r: Self)
        ensures
            r.spec_r_sense_channel() == self.spec_r_sense_channel(),
            r.spec_sensor_configuration() == self.spec_sensor_configuration(),
            r.spec_excitation_current() == self.spec_excitation_current(),
            r.spec_curve() == curve,
            r.spec_custom_address() == self.spec_custom_address(),
            self.wf() ==> r.wf(),
    {
        let mut updated = self;
        updated.curve = curve;
        updated
    }

    pub fn excitation_current(self, excitation_current: RTDExcitationCurrent) -> (r: Self)
        ensures
            r.spec_r_sense_channel() == self.spec_r_sense_channel(),
            r.spec_sensor_configuration() == self.spec_sensor_configuration(),
            r.spec_excitation_current() == excitation_current,
            r.spec_curve() == self.spec_curve(),
            r.spec_custom_address() == self.spec_custom_address(),
            self.wf() ==> r.wf(),
    {
        let mut updated = self;
        updated.excitation_current = excitation_current;
        updated
    }

    pub fn sensor_configuration(self, config: RTDSensorConfiguration) -> (r: Self)
        ensures
            r.spec_r_sense_channel() == self.spec_r_sense_channel(),
            r.spec_sensor_configuration() == config,
            r.spec_excitation_current() == self.spec_excitation_current(),
            r.spec_curve() == self.spec_curve(),
            r.spec_custom_address() == self.spec_custom_address(),
            self.wf() ==> r.wf(),
    {
        let mut updated = self;
        updated.sensor_configuration = config;
        updated
    }

    pub(crate) fn r_sense_channel_value(&self) -> (r: LTC2983Channel)
        ensures
            r == self.spec_r_sense_channel(),
    {
        self.r_sense_channel
    }

    pub(crate) fn sensor_configuration_value(&self) -> (r: &RTDSensorConfiguration)
        ensures
            *r == self.spec_sensor_configuration(),
    {
        &self.sensor_configuration
    }

    pub(crate) fn excitation_current_value(&self) -> (r: &RTDExcitationCurrent)
        ensures
            *r == self.spec_excitation_current(),
    {
        &self.excitation_current
    }

    pub(crate) fn curve_value(&self) -> (r: &RTDCurve)
        ensures
            *r == self.spec_curve(),
    {
        &self.curve
    }

    pub(crate) fn custom_address_value(&self) -> (r: Option<u16>)
        ensures
            r == self.spec_custom_address(),
    {
        self.custom_address
    }

    /// Assign the sense-resistor reference channel. Channel 1 is rejected at
    /// build time: it cannot stand for a channel pair (x, x-1).
    pub fn channel(self, channel: LTC2983Channel) -> (r: Self)
        requires
            channel != LTC2983Channel::CH1,
        ensures
            r.spec_r_sense_channel() == channel,
            r.spec_sensor_configuration() == self.spec_sensor_configuration(),
            r.spec_excitation_current() == self.spec_excitation_current(),
            r.spec_curve() == self.spec_curve(),
            r.spec_custom_address() == self.spec_custom_address(),
            r.wf(),
    {
        let mut updated = self;
        updated.r_sense_channel = channel;
        updated
    }
}

/// How many readings a diode measurement integrates.
#[derive(Debug)]
pub enum DiodeReadingCount {
    READ2,
    READ3,
}

impl Default for DiodeReadingCount {
    fn default() -> (r: Self)
        ensures
            r == DiodeReadingCount::READ2,
    {
        Self::READ2
    }
}

impl DiodeReadingCount {
    pub open spec fn spec_identifier(self) -> u64 {
        match self {
            DiodeReadingCount::READ2 => 0,
            DiodeReadingCount::READ3 => 1,
        }
    }

    pub fn identifier(&self) -> (r: u64)
        ensures
            r == self.spec_identifier(),
            r <= 1,
    {
        match self {
            DiodeReadingCount::READ2 => 0,
            DiodeReadingCount::READ3 => 1,
        }
    }
}

/// Excitation current of a diode channel.
#[derive(Debug)]
pub enum DiodeExcitationCurrent {
    I10uA,
    I20uA,
    I40uA,
    I80uA,
}

impl Default for DiodeExcitationCurrent {
    fn default() -> (r: Self)
        ensures
            r == DiodeExcitationCurrent::I10uA,
    {
        Self::I10uA
    }
}

impl DiodeExcitationCurrent {
    pub open spec fn spec_identifier(self) -> u64 {
        match self {
            DiodeExcitationCurrent::I10uA => 0,
            DiodeExcitationCurrent::I20uA => 1,
            DiodeExcitationCurrent::I40uA => 2,
            DiodeExcitationCurrent::I80uA => 3,
        }
    }

    pub fn identifier(&self) -> (r: u64)
        ensures
            r == self.spec_identifier(),
            r <= 3,
    {
        match self {
            DiodeExcitationCurrent::I10uA => 0,
            DiodeExcitationCurrent::I20uA => 1,
            DiodeExcitationCurrent::I40uA => 2,
            DiodeExcitationCurrent::I80uA => 3,
        }
    }
}

/// Parameters of a diode channel. The optional ideality factor is carried
/// as a raw unsigned fixed-point value with twenty fractional bits; when
/// encoded, only its low 22 bits fit the register field, so values at or
/// above 4.0 alias silently.
#[derive(Debug)]
pub struct DiodeParameters {
    pub sensor_configuration: SensorConfiguration,
    pub num_reading: DiodeReadingCount,
    pub avg: bool,
    pub excitation_current: DiodeExcitationCurrent,
    pub ideality_factor: Option<u32>,
}

impl Default for DiodeParameters {
    fn default() -> (r: Self)
        ensures
            r.sensor_configuration == SensorConfiguration::SingleEnded,
            r.num_reading == DiodeReadingCount::READ2,
            r.avg,
            r.excitation_current == DiodeExcitationCurrent::I10uA,
            r.ideality_factor is None,
    {
        Self {
            sensor_configuration: Default::default(),
            num_reading: Default::default(),
            excitation_current: Default::default(),
            ideality_factor: None,
            avg: true,
        }
    }
}

impl DiodeParameters {
    /// The 27 bits below the type identifier: wiring mode, reading count,
    /// averaging flag, excitation current, then the low 22 bits of the
    /// ideality factor.
    pub open spec fn spec_to_bits(self) -> u64 {
        (self.sensor_configuration.spec_identifier() << 26) | (self.num_reading.spec_identifier()
            << 25) | ((if self.avg {
            1u64
        } else {
            0u64
        }) << 24) | (self.excitation_current.spec_identifier() << 22) | (match self
            .ideality_factor {
            None => 0u64,
            Some(raw) => (raw as u64) & 0x3fffff,
        })
    }

    pub fn sensor_configuration(self, config: SensorConfiguration) -> (r: Self)
        ensures
            r.sensor_configuration == config,
            r.num_reading == self.num_reading,
            r.avg == self.avg,
            r.excitation_current == self.excitation_current,
            r.ideality_factor == self.ideality_factor,
    {
        let mut updated = self;
        updated.sensor_configuration = config;
        updated
    }

    pub fn num_reading(self, cnt: DiodeReadingCount) -> (r: Self)
        ensures
            r.sensor_configuration == self.sensor_configuration,
            r.num_reading == cnt,
            r.avg == self.avg,
            r.excitation_current == self.excitation_current,
            r.ideality_factor == self.ideality_factor,
    {
        let mut updated = self;
        updated.num_reading = cnt;
        updated
    }

    pub fn excitation_current(self, current: DiodeExcitationCurrent) -> (r: Self)
        ensures
            r.sensor_configuration == self.sensor_configuration,
            r.num_reading == self.num_reading,
            r.avg == self.avg,
            r.excitation_current == current,
            r.ideality_factor == self.ideality_factor,
    {
        let mut updated = self;
        updated.excitation_current = current;
        updated
    }

    pub fn use_avg(self, flag: bool) -> (r: Self)
        ensures
            r.sensor_configuration == self.sensor_configuration,
            r.num_reading == self.num_reading,
            r.avg == flag,
            r.excitation_current == self.excitation_current,
            r.ideality_factor == self.ideality_factor,
    {
        let mut updated = self;
        updated.avg = flag;
        updated
    }

    /// Set the ideality factor as a raw unsigned fixed-point value with
    /// twenty fractional bits (so 1.0 is `1 << 20`).
    pub fn ideality_factor(self, factor: u32) -> (r: Self)
        ensures
            r.sensor_configuration == self.sensor_configuration,
            r.num_reading == self.num_reading,
            r.avg == self.avg,
            r.excitation_current == self.excitation_current,
            r.ideality_factor == Some(factor),
    {
        let mut updated = self;
        updated.ideality_factor = Some(factor);
        updated
    }

    pub fn to_bits(&self) -> (r: u64)
        ensures
            r == self.spec_to_bits(),
    {
        let avg_bit: u64 = if self.avg {
            1
        } else {
            0
        };
        let ideality: u64 = match self.ideality_factor {
            None => 0x0,
            // mask the upper bits to only include the lower 22 bits
            Some(raw) => (raw as u64) & 0x3fffff,
        };
        (self.sensor_configuration.identifier() << 26) | (self.num_reading.identifier() << 25) | (
        avg_bit << 24) | (self.excitation_current.identifier() << 22) | ideality
    }
}

/// The closed set of probe types the device knows, each with its fixed
/// 5-bit catalog identifier. The sense resistor carries its resistance as a
/// raw unsigned 17.10 fixed-point value (so 1 ohm is `1 << 10`); the
/// thermistor variants are declared but their encoding is not implemented.
#[allow(non_camel_case_types)]
#[derive(Debug)]
pub enum ThermalProbeType {
    Thermocouple_J(ThermocoupleParameters),
    Thermocouple_K(ThermocoupleParameters),
    Thermocouple_E(ThermocoupleParameters),
    Thermocouple_N(ThermocoupleParameters),
    Thermocouple_R(ThermocoupleParameters),
    Thermocouple_S(ThermocoupleParameters),
    Thermocouple_T(ThermocoupleParameters),
    Thermocouple_B(ThermocoupleParameters),
    RTD_PT10(RTDParameters),
    RTD_PT50(RTDParameters),
    RTD_PT100(RTDParameters),
    RTD_PT200(RTDParameters),
    RTD_PT500(RTDParameters),
    RTD_PT1000(RTDParameters),
    RTD_1000(RTDParameters),
    RTD_NI120(RTDParameters),
    Thermistor_44004_44033,
    Thermistor_44005_44030,
    Thermistor_44007_44034,
    Thermistor_44006_44031,
    Thermistor_44008_44032,
    Thermistor_YSI400,
    Thermistor_Spectrum,
    Diode(DiodeParameters),
    SenseResistor(u32),
}

impl ThermalProbeType {
    pub open spec fn spec_identifier(self) -> u64 {
        match self {
            ThermalProbeType::Thermocouple_J(_) => 1,
            ThermalProbeType::Thermocouple_K(_) => 2,
            ThermalProbeType::Thermocouple_E(_) => 3,
            ThermalProbeType::Thermocouple_N(_) => 4,
            ThermalProbeType::Thermocouple_R(_) => 5,
            ThermalProbeType::Thermocouple_S(_) => 6,
            ThermalProbeType::Thermocouple_T(_) => 7,
            ThermalProbeType::Thermocouple_B(_) => 8,
            ThermalProbeType::RTD_PT10(_) => 10,
            ThermalProbeType::RTD_PT50(_) => 11,
            ThermalProbeType::RTD_PT100(_) => 12,
            ThermalProbeType::RTD_PT200(_) => 13,
            ThermalProbeType::RTD_PT500(_) => 14,
            ThermalProbeType::RTD_PT1000(_) => 15,
            ThermalProbeType::RTD_1000(_) => 16,
            ThermalProbeType::RTD_NI120(_) => 17,
            ThermalProbeType::Thermistor_44004_44033 => 19,
            ThermalProbeType::Thermistor_44005_44030 => 20,
            ThermalProbeType::Thermistor_44007_44034 => 21,
            ThermalProbeType::Thermistor_44006_44031 => 22,
            ThermalProbeType::Thermistor_44008_44032 => 23,
            ThermalProbeType::Thermistor_YSI400 => 24,
            ThermalProbeType::Thermistor_Spectrum => 25,
            ThermalProbeType::Diode(_) => 28,
            ThermalProbeType::SenseResistor(_) => 29,
        }
    }

    pub fn identifier(&self) -> (r: u64)
        ensures
            r == self.spec_identifier(),
            1 <= r <= 29,
    {
        match self {
            ThermalProbeType::Thermocouple_J(_) => 1,
            ThermalProbeType::Thermocouple_K(_) => 2,
            ThermalProbeType::Thermocouple_E(_) => 3,
            ThermalProbeType::Thermocouple_N(_) => 4,
            ThermalProbeType::Thermocouple_R(_) => 5,
            ThermalProbeType::Thermocouple_S(_) => 6,
            ThermalProbeType::Thermocouple_T(_) => 7,
            ThermalProbeType::Thermocouple_B(_) => 8,
            ThermalProbeType::RTD_PT10(_) => 10,
            ThermalProbeType::RTD_PT50(_) => 11,
            ThermalProbeType::RTD_PT100(_) => 12,
            ThermalProbeType::RTD_PT200(_) => 13,
            ThermalProbeType::RTD_PT500(_) => 14,
            ThermalProbeType::RTD_PT1000(_) => 15,
            ThermalProbeType::RTD_1000(_) => 16,
            ThermalProbeType::RTD_NI120(_) => 17,
            ThermalProbeType::Thermistor_44004_44033 => 19,
            ThermalProbeType::Thermistor_44005_44030 => 20,
            ThermalProbeType::Thermistor_44007_44034 => 21,
            ThermalProbeType::Thermistor_44006_44031 => 22,
            ThermalProbeType::Thermistor_44008_44032 => 23,
            ThermalProbeType::Thermistor_YSI400 => 24,
            ThermalProbeType::Thermistor_Spectrum => 25,
            ThermalProbeType::Diode(_) => 28,
            ThermalProbeType::SenseResistor(_) => 29,
        }
    }

    /// Probe families whose register encoding this driver implements;
    /// thermistors are catalogued but not yet encodable.
    pub open spec fn is_implemented(self) -> bool {
        match self {
            ThermalProbeType::Thermistor_44004_44033 => false,
            ThermalProbeType::Thermistor_44005_44030 => false,
            ThermalProbeType::Thermistor_44007_44034 => false,
            ThermalProbeType::Thermistor_44006_44031 => false,
            ThermalProbeType::Thermistor_44008_44032 => false,
            ThermalProbeType::Thermistor_YSI400 => false,
            ThermalProbeType::Thermistor_Spectrum => false,
            _ => true,
        }
    }

    /// The 32-bit configuration register word for this probe.
    pub open spec fn spec_config_word(self) -> u32 {
        match self {
            ThermalProbeType::Thermocouple_J(p)
            | ThermalProbeType::Thermocouple_K(p)
            | ThermalProbeType::Thermocouple_E(p)
            | ThermalProbeType::Thermocouple_N(p)
            | ThermalProbeType::Thermocouple_R(p)
            | ThermalProbeType::Thermocouple_S(p)
            | ThermalProbeType::Thermocouple_T(p)
            | ThermalProbeType::Thermocouple_B(p) => thermocouple_word(
                self.spec_identifier(),
                p.spec_cold_junction_field(),
                p.spec_config_to_bits(),
                p.spec_custom_field(),
            ),
            ThermalProbeType::RTD_PT10(p)
            | ThermalProbeType::RTD_PT50(p)
            | ThermalProbeType::RTD_PT100(p)
            | ThermalProbeType::RTD_PT200(p)
            | ThermalProbeType::RTD_PT500(p)
            | ThermalProbeType::RTD_PT1000(p)
            | ThermalProbeType::RTD_1000(p)
            | ThermalProbeType::RTD_NI120(p) => rtd_word(
                self.spec_identifier(),
                p.spec_r_sense_channel().spec_identifier(),
                p.spec_sensor_configuration().spec_to_bits(),
                p.spec_excitation_current().spec_identifier(),
                p.spec_curve().spec_identifier(),
                p.spec_custom_field(),
            ),
            ThermalProbeType::Diode(p) => five_bit_header_word(
                self.spec_identifier(),
                p.spec_to_bits(),
            ),
            ThermalProbeType::SenseResistor(raw) => five_bit_header_word(
                self.spec_identifier(),
                raw as u64,
            ),
            _ => 0,
        }
    }
}

/// The thermocouple configuration word: type identifier [31:27], cold
/// junction channel [26:22], sensor configuration [21:18], six reserved zero
/// bits [17:12], custom table pointer [11:0].
pub open spec fn thermocouple_word(id: u64, cj: u64, cfg: u64, custom: u64) -> u32 {
    (((id & 0x1f) as u32) << 27) | (((cj & 0x1f) as u32) << 22) | (((cfg & 0xf) as u32) << 18) | ((
    custom & 0xfff) as u32)
}

/// The RTD configuration word: type identifier [31:27], sense-resistor
/// channel [26:22], sensor configuration [21:18], excitation current
/// [17:14], curve [13:12], custom table pointer [11:0].
pub open spec fn rtd_word(id: u64, rsense: u64, cfg: u64, exc: u64, curve: u64, custom: u64) -> u32 {
    (((id & 0x1f) as u32) << 27) | (((rsense & 0x1f) as u32) << 22) | (((cfg & 0xf) as u32) << 18)
        | (((exc & 0xf) as u32) << 14) | (((curve & 0x3) as u32) << 12) | ((custom & 0xfff) as u32)
}

/// A configuration word made of the 5-bit type identifier over a single
/// 27-bit body (diode parameters, or a sense-resistor value).
pub open spec fn five_bit_header_word(id: u64, body: u64) -> u32 {
    (((id & 0x1f) as u32) << 27) | ((body & 0x7ffffff) as u32)
}

/// The thermocouple bit fields, concatenated most-significant first, form
/// exactly the 32 bits of the thermocouple configuration word.
pub proof fn lemma_thermocouple_field_bits(id: u64, cj: u64, cfg: u64, custom: u64)
    ensures
        low_bits(id, 5) + low_bits(cj, 5) + low_bits(cfg, 4) + low_bits(0, 6) + low_bits(custom, 12)
            == u32_bits(thermocouple_word(id, cj, cfg, custom)),
{
    let w = thermocouple_word(id, cj, cfg, custom) as u64;
    assert((w >> 27) & vstd::prelude::sub(1u64 << 5, 1) == id & vstd::prelude::sub(1u64 << 5, 1)
        && (w >> 22) & vstd::prelude::sub(1u64 << 5, 1) == cj & vstd::prelude::sub(1u64 << 5, 1)
        && (w >> 18) & vstd::prelude::sub(1u64 << 4, 1) == cfg & vstd::prelude::sub(1u64 << 4, 1)
        && (w >> 12) & vstd::prelude::sub(1u64 << 6, 1) == 0u64 & vstd::prelude::sub(1u64 << 6, 1)
        && w & vstd::prelude::sub(1u64 << 12, 1) == custom & vstd::prelude::sub(1u64 << 12, 1)
        && w < 0x1_0000_0000) by (bit_vector)
        requires
            w == ((((id & 0x1f) as u32) << 27) | (((cj & 0x1f) as u32) << 22) | (((cfg
                & 0xf) as u32) << 18) | ((custom & 0xfff) as u32)) as u64,
    ;
    crate::bits::lemma_low_bits_split(w, 32, 27);
    crate::bits::lemma_low_bits_split(w, 27, 22);
    crate::bits::lemma_low_bits_split(w, 22, 18);
    crate::bits::lemma_low_bits_split(w, 18, 12);
    crate::bits::lemma_low_bits_agree(w >> 27, id, 5);
    crate::bits::lemma_low_bits_agree(w >> 22, cj, 5);
    crate::bits::lemma_low_bits_agree(w >> 18, cfg, 4);
    crate::bits::lemma_low_bits_agree(w >> 12, 0, 6);
    crate::bits::lemma_low_bits_agree(w, custom, 12);
    assert(low_bits(id, 5) + low_bits(cj, 5) + low_bits(cfg, 4) + low_bits(0, 6) + low_bits(
        custom,
        12,
    ) =~= u32_bits(thermocouple_word(id, cj, cfg, custom)));
}

/// The RTD bit fields, concatenated most-significant first, form exactly the
/// 32 bits of the RTD configuration word.
pub proof fn lemma_rtd_field_bits(id: u64, rsense: u64, cfg: u64, exc: u64, curve: u64, custom: u64)
    ensures
        low_bits(id, 5) + low_bits(rsense, 5) + low_bits(cfg, 4) + low_bits(exc, 4) + low_bits(
            curve,
            2,
        ) + low_bits(custom, 12) == u32_bits(rtd_word(id, rsense, cfg, exc, curve, custom)),
{
    let w = rtd_word(id, rsense, cfg, exc, curve, custom) as u64;
    assert((w >> 27) & vstd::prelude::sub(1u64 << 5, 1) == id & vstd::prelude::sub(1u64 << 5, 1)
        && (w >> 22) & vstd::prelude::sub(1u64 << 5, 1) == rsense & vstd::prelude::sub(
        1u64 << 5,
        1,
    ) && (w >> 18) & vstd::prelude::sub(1u64 << 4, 1) == cfg & vstd::prelude::sub(1u64 << 4, 1) && (
    w >> 14) & vstd::prelude::sub(1u64 << 4, 1) == exc & vstd::prelude::sub(1u64 << 4, 1) && (w
        >> 12) & vstd::prelude::sub(1u64 << 2, 1) == curve & vstd::prelude::sub(1u64 << 2, 1) && w
        & vstd::prelude::sub(1u64 << 12, 1) == custom & vstd::prelude::sub(1u64 << 12, 1))
        by (bit_vector)
        requires
            w == ((((id & 0x1f) as u32) << 27) | (((rsense & 0x1f) as u32) << 22) | (((cfg
                & 0xf) as u32) << 18) | (((exc & 0xf) as u32) << 14) | (((curve & 0x3) as u32)
                << 12) | ((custom & 0xfff) as u32)) as u64,
    ;
    crate::bits::lemma_low_bits_split(w, 32, 27);
    crate::bits::lemma_low_bits_split(w, 27, 22);
    crate::bits::lemma_low_bits_split(w, 22, 18);
    crate::bits::lemma_low_bits_split(w, 18, 14);
    crate::bits::lemma_low_bits_split(w, 14, 12);
    crate::bits::lemma_low_bits_agree(w >> 27, id, 5);
    crate::bits::lemma_low_bits_agree(w >> 22, rsense, 5);
    crate::bits::lemma_low_bits_agree(w >> 18, cfg, 4);
    crate::bits::lemma_low_bits_agree(w >> 14, exc, 4);
    crate::bits::lemma_low_bits_agree(w >> 12, curve, 2);
    crate::bits::lemma_low_bits_agree(w, custom, 12);
    assert(low_bits(id, 5) + low_bits(rsense, 5) + low_bits(cfg, 4) + low_bits(exc, 4) + low_bits(
        curve,
        2,
    ) + low_bits(custom, 12) =~= u32_bits(rtd_word(id, rsense, cfg, exc, curve, custom)));
}

/// A 5-bit identifier field over a 27-bit body forms exactly the 32 bits of
/// the corresponding configuration word.
pub proof fn lemma_five_bit_header_field_bits(id: u64, body: u64)
    ensures
        low_bits(id, 5) + low_bits(body, 27) == u32_bits(five_bit_header_word(id, body)),
{
    let w = five_bit_header_word(id, body) as u64;
    assert((w >> 27) & vstd::prelude::sub(1u64 << 5, 1) == id & vstd::prelude::sub(1u64 << 5, 1)
        && w & vstd::prelude::sub(1u64 << 27, 1) == body & vstd::prelude::sub(1u64 << 27, 1))
        by (bit_vector)
        requires
            w == ((((id & 0x1f) as u32) << 27) | ((body & 0x7ffffff) as u32)) as u64,
    ;
    crate::bits::lemma_low_bits_split(w, 32, 27);
    crate::bits::lemma_low_bits_agree(w >> 27, id, 5);
    crate::bits::lemma_low_bits_agree(w, body, 27);
    assert(low_bits(id, 5) + low_bits(body, 27) =~= u32_bits(five_bit_header_word(id, body)));
}


/// Re-decoding the fixed fields of an encoded thermocouple word recovers
/// the original choices exactly: type identifier, cold-junction channel and
/// sensor configuration come back unchanged, and the custom table pointer
/// keeps its low 12 bits (larger pointers alias by construction).
pub proof fn lemma_thermocouple_word_roundtrip(id: u64, cj: u64, cfg: u64, custom: u64)
    requires
        id < 32,
        cj < 32,
        cfg < 16,
    ensures
        ((thermocouple_word(id, cj, cfg, custom) >> 27) & 0x1f) as u64 == id,
        ((thermocouple_word(id, cj, cfg, custom) >> 22) & 0x1f) as u64 == cj,
        ((thermocouple_word(id, cj, cfg, custom) >> 18) & 0xf) as u64 == cfg,
        (thermocouple_word(id, cj, cfg, custom) & 0xfff) as u64 == custom & 0xfff,
{
    let w = thermocouple_word(id, cj, cfg, custom);
    assert(((w >> 27) & 0x1f) as u64 == id && ((w >> 22) & 0x1f) as u64 == cj && ((w >> 18)
        & 0xf) as u64 == cfg && (w & 0xfff) as u64 == custom & 0xfff) by (bit_vector)
        requires
            id < 32 && cj < 32 && cfg < 16 && w == (((id & 0x1f) as u32) << 27) | (((cj
                & 0x1f) as u32) << 22) | (((cfg & 0xf) as u32) << 18) | ((custom & 0xfff) as u32),
    ;
}

/// Re-decoding the fixed fields of an encoded RTD word recovers the
/// original choices exactly: type identifier, sense-resistor channel,
/// sensor configuration, excitation current and curve come back unchanged,
/// and the custom table pointer keeps its low 12 bits.
pub proof fn lemma_rtd_word_roundtrip(id: u64, rsense: u64, cfg: u64, exc: u64, curve: u64, custom: u64)
    requires
        id < 32,
        rsense < 32,
        cfg < 16,
        exc < 16,
        curve < 4,
    ensures
        ((rtd_word(id, rsense, cfg, exc, curve, custom) >> 27) & 0x1f) as u64 == id,
        ((rtd_word(id, rsense, cfg, exc, curve, custom) >> 22) & 0x1f) as u64 == rsense,
        ((rtd_word(id, rsense, cfg, exc, curve, custom) >> 18) & 0xf) as u64 == cfg,
        ((rtd_word(id, rsense, cfg, exc, curve, custom) >> 14) & 0xf) as u64 == exc,
        ((rtd_word(id, rsense, cfg, exc, curve, custom) >> 12) & 0x3) as u64 == curve,
        (rtd_word(id, rsense, cfg, exc, curve, custom) & 0xfff) as u64 == custom & 0xfff,
{
    let w = rtd_word(id, rsense, cfg, exc, curve, custom);
    assert(((w >> 27) & 0x1f) as u64 == id && ((w >> 22) & 0x1f) as u64 == rsense && ((w >> 18)
        & 0xf) as u64 == cfg && ((w >> 14) & 0xf) as u64 == exc && ((w >> 12) & 0x3) as u64
        == curve && (w & 0xfff) as u64 == custom & 0xfff) by (bit_vector)
        requires
            id < 32 && rsense < 32 && cfg < 16 && exc < 16 && curve < 4 && w == (((id
                & 0x1f) as u32) << 27) | (((rsense & 0x1f) as u32) << 22) | (((cfg & 0xf) as u32)
                << 18) | (((exc & 0xf) as u32) << 14) | (((curve & 0x3) as u32) << 12) | ((custom
                & 0xfff) as u32),
    ;
}

/// Re-decoding the fields of an encoded diode parameter record recovers the
/// original choices exactly: wiring mode, reading count, averaging flag and
/// excitation current come back unchanged, and the ideality factor keeps
/// its low 22 bits (values of 4.0 and above alias by construction).
pub proof fn lemma_diode_bits_roundtrip(p: DiodeParameters)
    ensures
        (p.spec_to_bits() >> 26) & 0x1 == p.sensor_configuration.spec_identifier(),
        (p.spec_to_bits() >> 25) & 0x1 == p.num_reading.spec_identifier(),
        (p.spec_to_bits() >> 24) & 0x1 == (if p.avg { 1u64 } else { 0u64 }),
        (p.spec_to_bits() >> 22) & 0x3 == p.excitation_current.spec_identifier(),
        p.spec_to_bits() & 0x3fffff == (match p.ideality_factor {
            None => 0u64,
            Some(raw) => (raw as u64) & 0x3fffff,
        }),
        p.spec_to_bits() < 0x8000000,
{
    let sc = p.sensor_configuration.spec_identifier();
    let nr = p.num_reading.spec_identifier();
    let av: u64 = if p.avg { 1 } else { 0 };
    let exc = p.excitation_current.spec_identifier();
    let ideality: u64 = match p.ideality_factor {
        None => 0u64,
        Some(raw) => (raw as u64) & 0x3fffff,
    };
    if let Some(raw) = p.ideality_factor {
        assert((raw as u64) & 0x3fffff < 0x400000) by (bit_vector);
    }
    let b = p.spec_to_bits();
    assert((b >> 26) & 0x1 == sc && (b >> 25) & 0x1 == nr && (b >> 24) & 0x1 == av && (b >> 22)
        & 0x3 == exc && b & 0x3fffff == ideality && b < 0x8000000) by (bit_vector)
        requires
            sc < 2 && nr < 2 && av < 2 && exc < 4 && ideality < 0x400000 && b == (sc << 26) | (nr
                << 25) | (av << 24) | (exc << 22) | ideality,
    ;
}

/// Whatever the probe family, the 5-bit type identifier written to bits
/// [31:27] of the configuration word reads back as the probe's catalog
/// identifier.
pub proof fn lemma_config_word_type_identifier(probe: ThermalProbeType)
    requires
        probe.is_implemented(),
    ensures
        ((probe.spec_config_word() >> 27) & 0x1f) as u64 == probe.spec_identifier(),
{
    let w = probe.spec_config_word();
    let id = probe.spec_identifier();
    match probe {
        ThermalProbeType::Thermocouple_J(p)
        | ThermalProbeType::Thermocouple_K(p)
        | ThermalProbeType::Thermocouple_E(p)
        | ThermalProbeType::Thermocouple_N(p)
        | ThermalProbeType::Thermocouple_R(p)
        | ThermalProbeType::Thermocouple_S(p)
        | ThermalProbeType::Thermocouple_T(p)
        | ThermalProbeType::Thermocouple_B(p) => {
            let cj = p.spec_cold_junction_field();
            let cfg = p.spec_config_to_bits();
            let custom = p.spec_custom_field();
            assert(((w >> 27) & 0x1f) as u64 == id) by (bit_vector)
                requires
                    id < 32 && w == (((id & 0x1f) as u32) << 27) | (((cj & 0x1f) as u32) << 22) | ((
                    (cfg & 0xf) as u32) << 18) | ((custom & 0xfff) as u32),
            ;
        },
        ThermalProbeType::RTD_PT10(p)
        | ThermalProbeType::RTD_PT50(p)
        | ThermalProbeType::RTD_PT100(p)
        | ThermalProbeType::RTD_PT200(p)
        | ThermalProbeType::RTD_PT500(p)
        | ThermalProbeType::RTD_PT1000(p)
        | ThermalProbeType::RTD_1000(p)
        | ThermalProbeType::RTD_NI120(p) => {
            let rs = p.spec_r_sense_channel().spec_identifier();
            let cfg = p.spec_sensor_configuration().spec_to_bits();
            let exc = p.spec_excitation_current().spec_identifier();
            let curve = p.spec_curve().spec_identifier();
            let custom = p.spec_custom_field();
            assert(((w >> 27) & 0x1f) as u64 == id) by (bit_vector)
                requires
                    id < 32 && w == (((id & 0x1f) as u32) << 27) | (((rs & 0x1f) as u32) << 22) | ((
                    (cfg & 0xf) as u32) << 18) | (((exc & 0xf) as u32) << 14) | (((curve
                        & 0x3) as u32) << 12) | ((custom & 0xfff) as u32),
            ;
        },
        ThermalProbeType::Diode(p) => {
            let body = p.spec_to_bits();
            assert(((w >> 27) & 0x1f) as u64 == id) by (bit_vector)
                requires
                    id < 32 && w == (((id & 0x1f) as u32) << 27) | ((body & 0x7ffffff) as u32),
            ;
        },
        ThermalProbeType::SenseResistor(raw) => {
            let body = raw as u64;
            assert(((w >> 27) & 0x1f) as u64 == id) by (bit_vector)
                requires
                    id < 32 && w == (((id & 0x1f) as u32) << 27) | ((body & 0x7ffffff) as u32),
            ;
        },
        _ => {},
    }
}

} // verus!
