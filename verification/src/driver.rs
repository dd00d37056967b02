//! The conversion and status orchestrator: configuring channels, starting
//! single- and multi-channel conversions, polling the status register, and
//! reading and averaging temperature results.

use crate::average::{
    accepted_multi_rounds, accepted_rounds, accumulate_reading, accumulate_round, column_sum,
    lemma_column_sum_push, lemma_valid_push, outcome_valid, outcome_value, valid_count, valid_sum,
    MultiTemperatureAverage, TemperatureAverage,
};
use crate::channel::{selection_mask, LTC2983Channel};
use crate::config::ThermalProbeType;
use crate::framing::{
    channel_mask_frame, configuration_frame, conversion_start_frame, read_frame, STATUS_REGISTER,
};
use crate::reading::{config_type_field_nonzero, reading_in_range, LTC2983Result, LTC2983Status};
use crate::transport::{LTC2983Error, SpiTransport};
use vstd::prelude::*;

verus! {

/// The most averaging rounds one call may request; keeps the raw Q21.10
/// accumulators comfortably inside an `i64`.
pub const MAX_AVERAGING_ROUNDS: usize = 0x4000_0000;

/// How many discarded rounds (suspect or invalid readings, or unreadable
/// results) the averaging loops tolerate before giving up.
pub const MAX_DISCARDED_ROUNDS: usize = 16;

/// The driver. It owns its bus transport exclusively; every operation is a
/// direct, blocking bus transaction.
pub struct LTC2983<SPI> {
    spi_device: SPI,
}

impl<SPI> LTC2983<SPI> where SPI: SpiTransport {
    pub fn new(spi_device: SPI) -> Self {
        LTC2983 { spi_device }
    }

    /// Give the bus transport back, consuming the driver.
    pub fn release(self) -> SPI {
        self.spi_device
    }

    /// Read the device status register.
    pub fn status(&mut self) -> (r: Result<LTC2983Status, LTC2983Error<SPI::BusError>>)
        ensures
            r matches Err(e) ==> e is SpiError,
    {
        let tx = read_frame(STATUS_REGISTER, 1);
        match self.spi_device.transfer(&tx) {
            Ok(recv) => Ok(LTC2983Status::from(recv[3])),
            Err(err) => Err(LTC2983Error::SpiError(err)),
        }
    }

    /// Write a probe's configuration word into a channel's configuration
    /// register. Thermistor probes are catalogued but not encodable, so no
    /// call can pass one here.
    pub fn setup_channel(&mut self, probe: ThermalProbeType, channel: &LTC2983Channel) -> (r:
        Result<(), LTC2983Error<SPI::BusError>>)
        requires
            probe.is_implemented(),
        ensures
            r matches Err(e) ==> e is SpiError,
    {
        let frame = configuration_frame(&probe, channel);
        match self.spi_device.write(&frame) {
            Ok(()) => Ok(()),
            Err(err) => Err(LTC2983Error::SpiError(err)),
        }
    }

    /// Check whether a channel holds a configuration, by reading its
    /// configuration register and testing the 5-bit type identifier for
    /// zero (see [`config_type_field_nonzero`]). On a bus error the channel
    /// counts as unconfigured.
    pub fn channel_enabled(&mut self, channel: &LTC2983Channel) -> bool {
        let tx = read_frame(channel.start_address(), 1);
        match self.spi_device.transfer(&tx) {
            Ok(recv) => config_type_field_nonzero(recv[3]),
            Err(_err) => false,
        }
    }

    /// Start a conversion on one channel.
    pub fn start_conversion(&mut self, channel: &LTC2983Channel) -> (r: Result<
        (),
        LTC2983Error<SPI::BusError>,
    >)
        ensures
            r matches Err(e) ==> e is SpiError,
    {
        let frame = conversion_start_frame(channel.identifier());
        match self.spi_device.write(&frame) {
            Ok(()) => Ok(()),
            Err(err) => Err(LTC2983Error::SpiError(err)),
        }
    }

    /// Start a simultaneous conversion on a set of channels: load the
    /// multi-channel selection mask, then issue the start command with
    /// channel field 0, the device's "use the mask" sentinel.
    pub fn start_multi_conversion(&mut self, channels: &Vec<LTC2983Channel>) -> (r: Result<
        (),
        LTC2983Error<SPI::BusError>,
    >)
        ensures
            r matches Err(e) ==> e is SpiError,
    {
        let mask = selection_mask(channels);
        let mask_frame = channel_mask_frame(mask);
        match self.spi_device.write(&mask_frame) {
            Ok(()) => {},
            Err(err) => {
                return Err(LTC2983Error::SpiError(err));
            },
        }
        let start_frame = conversion_start_frame(0x0);
        match self.spi_device.write(&start_frame) {
            Ok(()) => Ok(()),
            Err(err) => Err(LTC2983Error::SpiError(err)),
        }
    }

    /// Read and classify one channel's conversion result: one error byte
    /// followed by the 24-bit signed Q21.10 magnitude.
    pub fn read_temperature(&mut self, channel: &LTC2983Channel) -> (r: Result<
        LTC2983Result,
        LTC2983Error<SPI::BusError>,
    >)
        ensures
            r matches Ok(res) ==> reading_in_range(res),
            r matches Err(e) ==> e is SpiError,
    {
        let tx = read_frame(channel.result_address(), 4);
        match self.spi_device.transfer(&tx) {
            Ok(recv) => {
                let raw: [u8; 4] = [recv[3], recv[4], recv[5], recv[6]];
                Ok(LTC2983Result::from(raw))
            },
            Err(err) => Err(LTC2983Error::SpiError(err)),
        }
    }

    /// Read every requested channel's result in sequence. The device gives
    /// no atomicity beyond the original simultaneous conversion, so each
    /// entry succeeds or fails on its own.
    pub fn read_multi_temperature(&mut self, channels: &Vec<LTC2983Channel>) -> (r: Vec<
        Result<LTC2983Result, LTC2983Error<SPI::BusError>>,
    >)
        ensures
            r@.len() == channels@.len(),
            forall|k: int|
                0 <= k < r@.len() ==> (#[trigger] r@[k] matches Ok(res) ==> reading_in_range(res)),
    {
        let mut results: Vec<Result<LTC2983Result, LTC2983Error<SPI::BusError>>> = Vec::new();
        let mut i: usize = 0;
        while i < channels.len()
            invariant
                i <= channels@.len(),
                results@.len() == i,
                forall|k: int|
                    0 <= k < results@.len() ==> (#[trigger] results@[k] matches Ok(res)
                        ==> reading_in_range(res)),
            decreases channels@.len() - i,
        {
            let one = self.read_temperature(&channels[i]);
            results.push(one);
            i = i + 1;
        }
        results
    }

    /// Run `rounds` rounds of conversion on one channel and accumulate the
    /// raw temperatures of the valid readings. Rounds whose reading is
    /// suspect, invalid or unreadable are discarded and retried; the call
    /// gives up with `AvgCalculationError` when polling exhausts its window,
    /// when too many rounds were discarded, or when zero rounds were asked
    /// for. Bus errors on the write path propagate unchanged.
    pub fn get_temperature_avg(&mut self, channel: &LTC2983Channel, rounds: usize) -> (r: Result<
        TemperatureAverage,
        LTC2983Error<SPI::BusError>,
    >)
        requires
            rounds <= MAX_AVERAGING_ROUNDS,
        ensures
            r matches Ok(avg) ==> {
                &&& avg.rounds == rounds
                &&& rounds > 0
                &&& -(rounds as int) * 0x800000 <= avg.sum_raw as int <= (rounds as int) * 0x800000
                &&& exists|s: Seq<LTC2983Result>|
                    #[trigger] accepted_rounds(s, rounds as int, avg.sum_raw as int)
            },
            r matches Err(e) ==> (e is SpiError || e is AvgCalculationError),
            rounds == 0 ==> r matches Err(LTC2983Error::AvgCalculationError),
    {
        if rounds == 0 {
            return Err(LTC2983Error::AvgCalculationError);
        }
        let mut sum: i64 = 0;
        let mut r: usize = 0;
        let mut discarded: usize = 0;
        let ghost mut taken_rounds: Seq<LTC2983Result> = Seq::empty();
        while r < rounds
            invariant
                r <= rounds,
                rounds <= MAX_AVERAGING_ROUNDS,
                discarded <= MAX_DISCARDED_ROUNDS,
                taken_rounds.len() == r,
                valid_count(taken_rounds) == r,
                forall|i: int|
                    0 <= i < taken_rounds.len() ==> outcome_valid(#[trigger] taken_rounds[i])
                        && reading_in_range(taken_rounds[i]),
                valid_sum(taken_rounds) == sum as int,
                -(r as int) * 0x800000 <= sum as int <= (r as int) * 0x800000,
            decreases rounds - r + (MAX_DISCARDED_ROUNDS - discarded),
        {
            match self.start_conversion(channel) {
                Ok(()) => {},
                Err(err) => {
                    return Err(err);
                },
            }
            match self.poll_until_done(rounds) {
                Ok(()) => {},
                Err(err) => {
                    return Err(err);
                },
            }
            let outcome = self.read_temperature(channel);
            let taken = accumulate_reading(&mut sum, &outcome);
            if taken {
                proof {
                    let res = outcome->Ok_0;
                    lemma_valid_push(taken_rounds, res);
                    taken_rounds = taken_rounds.push(res);
                }
                r = r + 1;
            } else {
                if discarded >= MAX_DISCARDED_ROUNDS {
                    return Err(LTC2983Error::AvgCalculationError);
                }
                discarded = discarded + 1;
            }
        }
        proof {
            assert(accepted_rounds(taken_rounds, rounds as int, sum as int));
            assert(exists|s: Seq<LTC2983Result>|
                #[trigger] accepted_rounds(s, rounds as int, sum as int));
        }
        Ok(TemperatureAverage { sum_raw: sum, rounds })
    }

    /// Run `rounds` rounds of simultaneous conversion on a set of channels
    /// and accumulate each channel's raw temperature, taking a round only
    /// when every channel's reading is valid. Gives up with
    /// `AvgCalculationError` exactly as the single-channel loop does.
    #[verifier::rlimit(60)]
    pub fn get_multi_temperature_avg(&mut self, channels: &Vec<LTC2983Channel>, rounds: usize) -> (r:
        Result<MultiTemperatureAverage, LTC2983Error<SPI::BusError>>)
        requires
            rounds <= MAX_AVERAGING_ROUNDS,
        ensures
            r matches Ok(avg) ==> {
                &&& avg.rounds == rounds
                &&& rounds > 0
                &&& avg.sums_raw@.len() == channels@.len()
                &&& (forall|k: int|
                    0 <= k < avg.sums_raw@.len() ==> -(rounds as int) * 0x800000
                        <= #[trigger] avg.sums_raw@[k] <= (rounds as int) * 0x800000)
                &&& exists|s: Seq<Seq<LTC2983Result>>|
                    #[trigger] accepted_multi_rounds(
                        s,
                        channels@.len() as int,
                        rounds as int,
                        avg.sums_raw@,
                    )
            },
            r matches Err(e) ==> (e is SpiError || e is AvgCalculationError),
            rounds == 0 ==> r matches Err(LTC2983Error::AvgCalculationError),
    {
        if rounds == 0 {
            return Err(LTC2983Error::AvgCalculationError);
        }
        let mut sums: Vec<i64> = Vec::new();
        let mut k: usize = 0;
        while k < channels.len()
            invariant
                k <= channels@.len(),
                sums@.len() == k,
                forall|j: int| 0 <= j < sums@.len() ==> #[trigger] sums@[j] == 0,
            decreases channels@.len() - k,
        {
            sums.push(0);
            k = k + 1;
        }
        let mut r: usize = 0;
        let mut discarded: usize = 0;
        let ghost mut taken_matrix: Seq<Seq<LTC2983Result>> = Seq::empty();
        while r < rounds
            invariant
                sums@.len() == channels@.len(),
                r <= rounds,
                rounds <= MAX_AVERAGING_ROUNDS,
                discarded <= MAX_DISCARDED_ROUNDS,
                taken_matrix.len() == r,
                forall|i: int|
                    0 <= i < taken_matrix.len() ==> (#[trigger] taken_matrix[i]).len()
                        == channels@.len(),
                forall|i: int, j: int|
                    0 <= i < taken_matrix.len() && 0 <= j < channels@.len() ==> outcome_valid(
                        #[trigger] taken_matrix[i][j],
                    ) && reading_in_range(taken_matrix[i][j]),
                forall|j: int|
                    0 <= j < sums@.len() ==> sums@[j] == #[trigger] column_sum(taken_matrix, j),
                forall|j: int|
                    0 <= j < sums@.len() ==> -(r as int) * 0x800000 <= #[trigger] sums@[j] <= (
                    r as int) * 0x800000,
            decreases rounds - r + (MAX_DISCARDED_ROUNDS - discarded),
        {
            match self.start_multi_conversion(channels) {
                Ok(()) => {},
                Err(err) => {
                    return Err(err);
                },
            }
            match self.poll_until_done(rounds) {
                Ok(()) => {},
                Err(err) => {
                    return Err(err);
                },
            }
            let outcomes = self.read_multi_temperature(channels);
            let taken = accumulate_round(&mut sums, &outcomes);
            if taken {
                proof {
                    let row: Seq<LTC2983Result> = Seq::new(
                        channels@.len(),
                        |j: int| outcomes@[j]->Ok_0,
                    );
                    assert forall|j: int| 0 <= j < channels@.len() implies #[trigger] column_sum(
                        taken_matrix.push(row),
                        j,
                    ) == column_sum(taken_matrix, j) + outcome_value(row[j]) by {
                        lemma_column_sum_push(taken_matrix, row, j);
                    }
                    taken_matrix = taken_matrix.push(row);
                }
                r = r + 1;
            } else {
                if discarded >= MAX_DISCARDED_ROUNDS {
                    return Err(LTC2983Error::AvgCalculationError);
                }
                discarded = discarded + 1;
            }
        }
        proof {
            assert(accepted_multi_rounds(
                taken_matrix,
                channels@.len() as int,
                rounds as int,
                sums@,
            ));
            assert(exists|s: Seq<Seq<LTC2983Result>>|
                #[trigger] accepted_multi_rounds(s, channels@.len() as int, rounds as int, sums@));
        }
        Ok(MultiTemperatureAverage { sums_raw: sums, rounds })
    }

    /// Poll the status register until the done flag is observed, waiting
    /// between unsuccessful polls, for at most `rounds + 3` polls.
    fn poll_until_done(&mut self, rounds: usize) -> (r: Result<(), LTC2983Error<SPI::BusError>>)
        requires
            rounds <= MAX_AVERAGING_ROUNDS,
        ensures
            r matches Err(e) ==> (e is SpiError || e is AvgCalculationError),
    {
        let limit: usize = rounds + 3;
        let mut attempts: usize = 0;
        let mut done = false;
        while !done && attempts < limit
            invariant
                attempts <= limit,
            decreases limit - attempts,
        {
            match self.status() {
                Ok(st) => {
                    if st.done() {
                        done = true;
                    } else {
                        self.spi_device.poll_delay();
                    }
                },
                Err(err) => {
                    return Err(err);
                },
            }
            attempts = attempts + 1;
        }
        if done {
            Ok(())
        } else {
            Err(LTC2983Error::AvgCalculationError)
        }
    }
}

} // verus!
