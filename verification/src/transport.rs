//! The bus abstraction the driver is generic over, and the driver's error
//! taxonomy.

use crate::channel::LTC2983Channel;
use vstd::prelude::*;

verus! {

/// A full-duplex synchronous serial bus, together with the backoff delay
/// used between status polls. The driver owns its transport exclusively;
/// implementations live outside this crate (an adapter over a concrete SPI
/// device) or in tests (a scripted bus).
pub trait SpiTransport {
    /// The transport's own error type; the driver propagates it unchanged
    /// and never retries a failed bus transaction.
    type BusError;

    /// Send the bytes of `tx` on the bus.
    fn write(&mut self, tx: &Vec<u8>) -> Result<(), Self::BusError>;

    /// Full-duplex exchange: clock out `tx` while reading back exactly one
    /// byte for every byte sent.
    fn transfer(&mut self, tx: &Vec<u8>) -> (r: Result<Vec<u8>, Self::BusError>)
        ensures
            r matches Ok(rx) ==> rx@.len() == tx@.len(),
    ;

    /// Wait briefly before the next status poll.
    fn poll_delay(&mut self);
}

/// Everything that can go wrong below or inside the driver.
#[derive(Debug)]
pub enum LTC2983Error<SPI> {
    /// A bus-level failure, carrying the transport's error unchanged.
    SpiError(SPI),
    /// An operation was attempted on a channel that was never configured.
    ChannelUnconfigured(LTC2983Channel),
    /// The averaging loop could not assemble the requested number of valid
    /// rounds within its bounded attempt window.
    AvgCalculationError,
}

} // verus!
