use ltc2983::{
    accumulate_reading, average_outcomes, LTC2983Channel, LTC2983Error, LTC2983Result,
    SpiTransport, LTC2983,
};

/// A scripted bus: writes are recorded, status reads always report done,
/// and each temperature read answers with the next scripted result
/// register value.
struct ScriptedBus {
    temp_responses: Vec<[u8; 4]>,
    next_temp: usize,
    status_byte: u8,
    writes: Vec<Vec<u8>>,
    transfers: Vec<Vec<u8>>,
}

impl ScriptedBus {
    fn new(status_byte: u8, temp_responses: Vec<[u8; 4]>) -> Self {
        ScriptedBus { temp_responses, next_temp: 0, status_byte, writes: vec![], transfers: vec![] }
    }
}

impl SpiTransport for ScriptedBus {
    type BusError = u8;

    fn write(&mut self, tx: &Vec<u8>) -> Result<(), u8> {
        self.writes.push(tx.clone());
        Ok(())
    }

    fn transfer(&mut self, tx: &Vec<u8>) -> Result<Vec<u8>, u8> {
        self.transfers.push(tx.clone());
        if tx.len() == 4 {
            // a status (or configuration) read: three framing bytes echo back,
            // then the register byte
            Ok(vec![0, 0, 0, self.status_byte])
        } else {
            // a 4-byte result register read behind three framing bytes
            let r = self.temp_responses[self.next_temp % self.temp_responses.len()];
            self.next_temp += 1;
            Ok(vec![0, 0, 0, r[0], r[1], r[2], r[3]])
        }
    }

    fn poll_delay(&mut self) {}
}

/// A bus whose every transaction fails.
struct FailingBus;

impl SpiTransport for FailingBus {
    type BusError = u8;

    fn write(&mut self, _tx: &Vec<u8>) -> Result<(), u8> {
        Err(7)
    }

    fn transfer(&mut self, _tx: &Vec<u8>) -> Result<Vec<u8>, u8> {
        Err(7)
    }

    fn poll_delay(&mut self) {}
}

#[test]
fn start_conversion_writes_the_command_byte() {
    let mut ltc = LTC2983::new(ScriptedBus::new(0x40, vec![]));
    ltc.start_conversion(&LTC2983Channel::CH5).unwrap();
    let bus = ltc.release();
    assert_eq!(bus.writes, vec![vec![0x02, 0x00, 0x00, 0x85]]);
}

#[test]
fn start_multi_conversion_writes_mask_then_start() {
    let mut ltc = LTC2983::new(ScriptedBus::new(0x40, vec![]));
    ltc.start_multi_conversion(&vec![
        LTC2983Channel::CH1,
        LTC2983Channel::CH3,
        LTC2983Channel::CH20,
    ])
    .unwrap();
    let bus = ltc.release();
    assert_eq!(bus.writes.len(), 2);
    // mask register 0x0F4 loaded with (1<<0)|(1<<2)|(1<<19)
    assert_eq!(bus.writes[0], vec![0x02, 0x00, 0xF4, 0x00, 0x08, 0x00, 0x05]);
    // start command with channel field 0: use the mask
    assert_eq!(bus.writes[1], vec![0x02, 0x00, 0x00, 0x80]);
}

#[test]
fn status_reads_the_status_register() {
    let mut ltc = LTC2983::new(ScriptedBus::new(0xC3, vec![]));
    let st = ltc.status().unwrap();
    assert!(st.done());
    let bus = ltc.release();
    assert_eq!(bus.transfers, vec![vec![0x03, 0x00, 0x00, 0x00]]);
}

#[test]
fn read_temperature_frames_and_classifies() {
    let mut ltc = LTC2983::new(ScriptedBus::new(0x40, vec![[0x01, 0x00, 0x04, 0x00]]));
    let res = ltc.read_temperature(&LTC2983Channel::CH1).unwrap();
    assert_eq!(res, LTC2983Result::Valid(1024));
    let bus = ltc.release();
    assert_eq!(bus.transfers, vec![vec![0x03, 0x00, 0x10, 0x00, 0x00, 0x00, 0x00]]);
}

#[test]
fn read_multi_temperature_reads_each_channel() {
    let mut ltc = LTC2983::new(ScriptedBus::new(
        0x40,
        vec![[0x01, 0x00, 0x04, 0x00], [0x02, 0x00, 0x00, 0x00]],
    ));
    let results =
        ltc.read_multi_temperature(&vec![LTC2983Channel::CH1, LTC2983Channel::CH2]);
    assert_eq!(results.len(), 2);
    assert!(matches!(results[0], Ok(LTC2983Result::Valid(1024))));
    assert!(matches!(results[1], Ok(LTC2983Result::Invalid(0x02))));
}

#[test]
fn channel_enabled_tests_the_type_identifier_bits() {
    let mut ltc = LTC2983::new(ScriptedBus::new(0x38, vec![]));
    assert!(ltc.channel_enabled(&LTC2983Channel::CH1));
    let mut ltc = LTC2983::new(ScriptedBus::new(0x07, vec![]));
    assert!(!ltc.channel_enabled(&LTC2983Channel::CH1));
    let mut ltc = LTC2983::new(FailingBus);
    assert!(!ltc.channel_enabled(&LTC2983Channel::CH1));
}

#[test]
fn averaging_consumes_exactly_the_needed_rounds() {
    let script = vec![
        LTC2983Result::Valid(1000),
        LTC2983Result::Invalid(2),
        LTC2983Result::Suspect(5, 0),
        LTC2983Result::Valid(500),
        LTC2983Result::Valid(100),
    ];
    // two valid rounds: consumes four outcomes, sums only the valid ones
    assert_eq!(average_outcomes(&script, 2), Some((1500, 4)));
    // three valid rounds: consumes the whole script
    assert_eq!(average_outcomes(&script, 3), Some((1600, 5)));
    // more than the script holds
    assert_eq!(average_outcomes(&script, 4), None);
    // nothing asked for, nothing consumed
    assert_eq!(average_outcomes(&script, 0), Some((0, 0)));
}

#[test]
fn averaging_mean_is_over_valid_readings_only() {
    let script = vec![
        LTC2983Result::Valid(2048),
        LTC2983Result::Invalid(4),
        LTC2983Result::Valid(1024),
    ];
    let (sum, used) = average_outcomes(&script, 2).unwrap();
    assert_eq!(used, 3);
    // mean of the two valid readings: (2.0 + 1.0) / 2 in degrees
    let mean = sum as f32 / 1024.0 / 2.0;
    assert!((mean - 1.5).abs() < 1e-6);
}

#[test]
fn get_temperature_avg_discards_bad_rounds() {
    let mut ltc = LTC2983::new(ScriptedBus::new(
        0x40,
        vec![
            [0x01, 0x00, 0x04, 0x00], // valid, 1.0 degree
            [0x04, 0x00, 0x00, 0x00], // invalid, discarded
            [0x01, 0x00, 0x08, 0x00], // valid, 2.0 degrees
        ],
    ));
    let avg = ltc.get_temperature_avg(&LTC2983Channel::CH2, 2).unwrap();
    assert_eq!(avg.rounds, 2);
    assert_eq!(avg.sum_raw, 3072);
    // three conversions were started: the invalid round was retried
    let bus = ltc.release();
    assert_eq!(bus.writes.len(), 3);
}

#[test]
fn get_temperature_avg_zero_rounds_is_an_error() {
    let mut ltc = LTC2983::new(ScriptedBus::new(0x40, vec![[0x01, 0x00, 0x04, 0x00]]));
    let r = ltc.get_temperature_avg(&LTC2983Channel::CH2, 0);
    assert!(matches!(r, Err(LTC2983Error::AvgCalculationError)));
}

#[test]
fn get_temperature_avg_gives_up_when_never_done() {
    // status never reports done: the bounded poll window runs out
    let mut ltc = LTC2983::new(ScriptedBus::new(0x80, vec![[0x01, 0x00, 0x04, 0x00]]));
    let r = ltc.get_temperature_avg(&LTC2983Channel::CH2, 1);
    assert!(matches!(r, Err(LTC2983Error::AvgCalculationError)));
}

#[test]
fn get_multi_temperature_avg_accumulates_per_channel() {
    let mut ltc = LTC2983::new(ScriptedBus::new(
        0x40,
        vec![
            // round 1: CH1 valid, CH3 invalid -> whole round discarded
            [0x01, 0x00, 0x04, 0x00],
            [0x08, 0x00, 0x00, 0x00],
            // round 2: both valid
            [0x01, 0x00, 0x04, 0x00],
            [0x01, 0x00, 0x08, 0x00],
            // round 3: both valid
            [0x01, 0x00, 0x0C, 0x00],
            [0x01, 0x00, 0x10, 0x00],
        ],
    ));
    let channels = vec![LTC2983Channel::CH1, LTC2983Channel::CH3];
    let avg = ltc.get_multi_temperature_avg(&channels, 2).unwrap();
    assert_eq!(avg.rounds, 2);
    assert_eq!(avg.sums_raw, vec![1024 + 3072, 2048 + 4096]);
}

#[test]
fn bus_errors_propagate_unchanged() {
    let mut ltc = LTC2983::new(FailingBus);
    assert!(matches!(ltc.status(), Err(LTC2983Error::SpiError(7))));
    assert!(matches!(
        ltc.start_conversion(&LTC2983Channel::CH1),
        Err(LTC2983Error::SpiError(7))
    ));
    assert!(matches!(
        ltc.read_temperature(&LTC2983Channel::CH1),
        Err(LTC2983Error::SpiError(7))
    ));
    assert!(matches!(
        ltc.get_temperature_avg(&LTC2983Channel::CH1, 1),
        Err(LTC2983Error::SpiError(7))
    ));
}

#[test]
fn channel_unconfigured_carries_its_channel() {
    let e: LTC2983Error<u8> = LTC2983Error::ChannelUnconfigured(LTC2983Channel::CH6);
    assert!(matches!(e, LTC2983Error::ChannelUnconfigured(LTC2983Channel::CH6)));
}

#[test]
fn accumulate_reading_takes_only_valid_readings() {
    let mut sum: i64 = 100;
    assert!(accumulate_reading(&mut sum, &Ok::<_, u8>(LTC2983Result::Valid(1024))));
    assert_eq!(sum, 1124);
    assert!(!accumulate_reading(&mut sum, &Ok::<_, u8>(LTC2983Result::Suspect(50, 0x10))));
    assert_eq!(sum, 1124);
    assert!(!accumulate_reading(&mut sum, &Ok::<_, u8>(LTC2983Result::Invalid(0x04))));
    assert_eq!(sum, 1124);
    assert!(!accumulate_reading(&mut sum, &Err::<LTC2983Result, u8>(9)));
    assert_eq!(sum, 1124);
    assert!(accumulate_reading(&mut sum, &Ok::<_, u8>(LTC2983Result::Valid(-24))));
    assert_eq!(sum, 1100);
}
