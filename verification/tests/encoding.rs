use ltc2983::{
    configuration_frame, selection_mask, DiodeExcitationCurrent, DiodeParameters,
    DiodeReadingCount, LTC2983Channel, LTC2983OcCurrent, RTDCurve, RTDExcitationCurrent,
    RTDParameters, RTDSensorConfiguration, RTDWireCount, SensorConfiguration, ThermalProbeType,
    ThermocoupleParameters,
};

fn all_channels() -> Vec<LTC2983Channel> {
    vec![
        LTC2983Channel::CH1,
        LTC2983Channel::CH2,
        LTC2983Channel::CH3,
        LTC2983Channel::CH4,
        LTC2983Channel::CH5,
        LTC2983Channel::CH6,
        LTC2983Channel::CH7,
        LTC2983Channel::CH8,
        LTC2983Channel::CH9,
        LTC2983Channel::CH10,
        LTC2983Channel::CH11,
        LTC2983Channel::CH12,
        LTC2983Channel::CH13,
        LTC2983Channel::CH14,
        LTC2983Channel::CH15,
        LTC2983Channel::CH16,
        LTC2983Channel::CH17,
        LTC2983Channel::CH18,
        LTC2983Channel::CH19,
        LTC2983Channel::CH20,
    ]
}

#[test]
fn register_map_follows_the_affine_formulas() {
    for (i, chan) in all_channels().iter().enumerate() {
        let n = (i + 1) as u64;
        assert_eq!(chan.identifier(), n);
        assert_eq!(chan.start_address() as u64, 0x200 + 4 * (n - 1));
        assert_eq!(chan.result_address() as u64, 0x010 + 4 * (n - 1));
        assert_eq!(chan.mask(), 1u32 << (n - 1));
    }
}

#[test]
fn register_addresses_are_distinct_and_increasing() {
    let chans = all_channels();
    let mut last_start = 0u16;
    let mut last_result = 0u16;
    for (i, chan) in chans.iter().enumerate() {
        if i > 0 {
            assert!(chan.start_address() > last_start);
            assert!(chan.result_address() > last_result);
        }
        last_start = chan.start_address();
        last_result = chan.result_address();
        // the two maps never collide
        for other in chans.iter() {
            assert_ne!(chan.start_address(), other.result_address());
        }
    }
}

fn word_of_frame(frame: &[u8]) -> u32 {
    assert_eq!(frame.len(), 7);
    ((frame[3] as u32) << 24) | ((frame[4] as u32) << 16) | ((frame[5] as u32) << 8)
        | (frame[6] as u32)
}

#[test]
fn thermocouple_word_fields_decode_back() {
    let params = ThermocoupleParameters::default()
        .cold_junction(LTC2983Channel::CH2)
        .sensor_configuration(SensorConfiguration::Differential)
        .oc_current(LTC2983OcCurrent::I500uA)
        .custom_address(0x123);
    let probe = ThermalProbeType::Thermocouple_K(params);
    let frame = configuration_frame(&probe, &LTC2983Channel::CH5);
    // opcode and big-endian address of CH5's configuration register
    assert_eq!(&frame[0..3], &[0x02, 0x02, 0x10]);
    let word = word_of_frame(&frame);
    assert_eq!((word >> 27) & 0x1f, 2); // type K
    assert_eq!((word >> 22) & 0x1f, 2); // cold junction on CH2
    assert_eq!((word >> 18) & 0xf, 0x6); // differential (0) over I500uA (6)
    assert_eq!((word >> 12) & 0x3f, 0); // reserved bits stay clear
    assert_eq!(word & 0xfff, 0x123); // custom table pointer
}

#[test]
fn thermocouple_defaults_encode_no_compensation() {
    let probe = ThermalProbeType::Thermocouple_T(ThermocoupleParameters::default());
    let frame = configuration_frame(&probe, &LTC2983Channel::CH1);
    assert_eq!(&frame[0..3], &[0x02, 0x02, 0x00]);
    let word = word_of_frame(&frame);
    assert_eq!((word >> 27) & 0x1f, 7); // type T
    assert_eq!((word >> 22) & 0x1f, 0); // no cold junction channel
    assert_eq!((word >> 18) & 0xf, 0xc); // single-ended (1) over I10uA (4)
    assert_eq!(word & 0xfff, 0); // no custom table
}

#[test]
fn rtd_word_fields_decode_back() {
    let params = RTDParameters::default()
        .channel(LTC2983Channel::CH4)
        .sensor_configuration(
            RTDSensorConfiguration::default().wire_cnt(RTDWireCount::Wire3),
        )
        .excitation_current(RTDExcitationCurrent::I50uA)
        .curve(RTDCurve::American);
    let probe = ThermalProbeType::RTD_PT100(params);
    let frame = configuration_frame(&probe, &LTC2983Channel::CH2);
    assert_eq!(&frame[0..3], &[0x02, 0x02, 0x04]);
    let word = word_of_frame(&frame);
    assert_eq!((word >> 27) & 0x1f, 12); // PT-100
    assert_eq!((word >> 22) & 0x1f, 4); // sense resistor on CH4
    assert_eq!((word >> 18) & 0xf, 0x5); // 3-wire (1) shifted, internal sense bit
    assert_eq!((word >> 14) & 0xf, 4); // I50uA
    assert_eq!((word >> 12) & 0x3, 1); // American curve
    assert_eq!(word & 0xfff, 0);
}

#[test]
fn rtd_rotation_is_ignored_for_two_and_three_wire() {
    let cfg = RTDSensorConfiguration::default()
        .wire_cnt(RTDWireCount::Wire2)
        .current_source_rotation(true);
    let probe = ThermalProbeType::RTD_PT1000(RTDParameters::default().sensor_configuration(cfg));
    let word = word_of_frame(&configuration_frame(&probe, &LTC2983Channel::CH1));
    // rotation has no effect: 2-wire (0) shifted up two, internal sense bit set
    assert_eq!((word >> 18) & 0xf, 0x1);

    let cfg = RTDSensorConfiguration::default()
        .wire_cnt(RTDWireCount::Wire4)
        .current_source_rotation(true);
    let probe = ThermalProbeType::RTD_PT1000(RTDParameters::default().sensor_configuration(cfg));
    let word = word_of_frame(&configuration_frame(&probe, &LTC2983Channel::CH1));
    // 4-wire rotation: wire count shifted up three with the rotation bit
    assert_eq!((word >> 18) & 0xf, ((2 << 3) | 2) & 0xf);
}

#[test]
fn diode_word_fields_decode_back() {
    let params = DiodeParameters::default()
        .sensor_configuration(SensorConfiguration::Differential)
        .num_reading(DiodeReadingCount::READ3)
        .use_avg(false)
        .excitation_current(DiodeExcitationCurrent::I40uA)
        .ideality_factor(1 << 20); // 1.0 in unsigned 12.20 fixed point
    let probe = ThermalProbeType::Diode(params);
    let frame = configuration_frame(&probe, &LTC2983Channel::CH20);
    assert_eq!(&frame[0..3], &[0x02, 0x02, 0x4C]);
    let word = word_of_frame(&frame);
    assert_eq!((word >> 27) & 0x1f, 28); // diode
    assert_eq!((word >> 26) & 0x1, 0); // differential
    assert_eq!((word >> 25) & 0x1, 1); // three readings
    assert_eq!((word >> 24) & 0x1, 0); // averaging off
    assert_eq!((word >> 22) & 0x3, 2); // I40uA
    assert_eq!(word & 0x3fffff, 0x100000); // low 22 bits of the ideality factor
}

#[test]
fn sense_resistor_word_carries_the_fixed_point_value() {
    // 1000.5 ohms in unsigned 17.10 fixed point
    let raw: u32 = (1000 << 10) + 512;
    let probe = ThermalProbeType::SenseResistor(raw);
    let frame = configuration_frame(&probe, &LTC2983Channel::CH3);
    assert_eq!(&frame[0..3], &[0x02, 0x02, 0x08]);
    let word = word_of_frame(&frame);
    assert_eq!((word >> 27) & 0x1f, 29); // sense resistor
    assert_eq!(word & 0x7ffffff, raw);
}

#[test]
fn multi_channel_selection_mask_combines_bits() {
    let mask = selection_mask(&vec![
        LTC2983Channel::CH1,
        LTC2983Channel::CH3,
        LTC2983Channel::CH20,
    ]);
    assert_eq!(mask, (1 << 0) | (1 << 2) | (1 << 19));
    assert_eq!(selection_mask(&vec![]), 0);
    assert_eq!(selection_mask(&vec![LTC2983Channel::CH8, LTC2983Channel::CH8]), 1 << 7);
}
