//! The channel and register map: each of the twenty logical sensor channels
//! owns a configuration-register address, a result-register address, and a
//! selection-mask bit for multi-channel conversion starts.

use vstd::prelude::*;

verus! {

/// One of the twenty independently configurable sensor input channels.
#[derive(Debug, Copy, Clone, PartialEq, Eq, Structural)]
pub enum LTC2983Channel {
    CH1,
    CH2,
    CH3,
    CH4,
    CH5,
    CH6,
    CH7,
    CH8,
    CH9,
    CH10,
    CH11,
    CH12,
    CH13,
    CH14,
    CH15,
    CH16,
    CH17,
    CH18,
    CH19,
    CH20,
}

impl LTC2983Channel {
    /// The 1-based channel number.
    pub open spec fn spec_identifier(self) -> u64 {
        match self {
            LTC2983Channel::CH1 => 1,
            LTC2983Channel::CH2 => 2,
            LTC2983Channel::CH3 => 3,
            LTC2983Channel::CH4 => 4,
            LTC2983Channel::CH5 => 5,
            LTC2983Channel::CH6 => 6,
            LTC2983Channel::CH7 => 7,
            LTC2983Channel::CH8 => 8,
            LTC2983Channel::CH9 => 9,
            LTC2983Channel::CH10 => 10,
            LTC2983Channel::CH11 => 11,
            LTC2983Channel::CH12 => 12,
            LTC2983Channel::CH13 => 13,
            LTC2983Channel::CH14 => 14,
            LTC2983Channel::CH15 => 15,
            LTC2983Channel::CH16 => 16,
            LTC2983Channel::CH17 => 17,
            LTC2983Channel::CH18 => 18,
            LTC2983Channel::CH19 => 19,
            LTC2983Channel::CH20 => 20,
        }
    }

    /// Address of the channel's 32-bit configuration register.
    pub open spec fn spec_start_address(self) -> u16 {
        (0x200 + 4 * (self.spec_identifier() - 1)) as u16
    }

    /// Address of the channel's 4-byte conversion result register.
    pub open spec fn spec_result_address(self) -> u16 {
        (0x010 + 4 * (self.spec_identifier() - 1)) as u16
    }

    /// The channel's bit in the multi-channel selection mask register.
    pub open spec fn spec_mask(self) -> u32 {
        1u32 << ((self.spec_identifier() - 1) as u32)
    }

    pub fn identifier(&self) -> (r: u64)
        ensures
            r == self.spec_identifier(),
            1 <= r <= 20,
    {
        match self {
            LTC2983Channel::CH1 => 1,
            LTC2983Channel::CH2 => 2,
            LTC2983Channel::CH3 => 3,
            LTC2983Channel::CH4 => 4,
            LTC2983Channel::CH5 => 5,
            LTC2983Channel::CH6 => 6,
            LTC2983Channel::CH7 => 7,
            LTC2983Channel::CH8 => 8,
            LTC2983Channel::CH9 => 9,
            LTC2983Channel::CH10 => 10,
            LTC2983Channel::CH11 => 11,
            LTC2983Channel::CH12 => 12,
            LTC2983Channel::CH13 => 13,
            LTC2983Channel::CH14 => 14,
            LTC2983Channel::CH15 => 15,
            LTC2983Channel::CH16 => 16,
            LTC2983Channel::CH17 => 17,
            LTC2983Channel::CH18 => 18,
            LTC2983Channel::CH19 => 19,
            LTC2983Channel::CH20 => 20,
        }
    }

    pub fn start_address(&self) -> (r: u16)
        ensures
            r == self.spec_start_address(),
    {
        match self {
            LTC2983Channel::CH1 => 0x200,
            LTC2983Channel::CH2 => 0x204,
            LTC2983Channel::CH3 => 0x208,
            LTC2983Channel::CH4 => 0x20C,
            LTC2983Channel::CH5 => 0x210,
            LTC2983Channel::CH6 => 0x214,
            LTC2983Channel::CH7 => 0x218,
            LTC2983Channel::CH8 => 0x21C,
            LTC2983Channel::CH9 => 0x220,
            LTC2983Channel::CH10 => 0x224,
            LTC2983Channel::CH11 => 0x228,
            LTC2983Channel::CH12 => 0x22C,
            LTC2983Channel::CH13 => 0x230,
            LTC2983Channel::CH14 => 0x234,
            LTC2983Channel::CH15 => 0x238,
            LTC2983Channel::CH16 => 0x23C,
            LTC2983Channel::CH17 => 0x240,
            LTC2983Channel::CH18 => 0x244,
            LTC2983Channel::CH19 => 0x248,
            LTC2983Channel::CH20 => 0x24C,
        }
    }

    pub fn result_address(&self) -> (r: u16)
        ensures
            r == self.spec_result_address(),
    {
        match self {
            LTC2983Channel::CH1 => 0x010,
            LTC2983Channel::CH2 => 0x014,
            LTC2983Channel::CH3 => 0x018,
            LTC2983Channel::CH4 => 0x01C,
            LTC2983Channel::CH5 => 0x020,
            LTC2983Channel::CH6 => 0x024,
            LTC2983Channel::CH7 => 0x028,
            LTC2983Channel::CH8 => 0x02C,
            LTC2983Channel::CH9 => 0x030,
            LTC2983Channel::CH10 => 0x034,
            LTC2983Channel::CH11 => 0x038,
            LTC2983Channel::CH12 => 0x03C,
            LTC2983Channel::CH13 => 0x040,
            LTC2983Channel::CH14 => 0x044,
            LTC2983Channel::CH15 => 0x048,
            LTC2983Channel::CH16 => 0x04C,
            LTC2983Channel::CH17 => 0x050,
            LTC2983Channel::CH18 => 0x054,
            LTC2983Channel::CH19 => 0x058,
            LTC2983Channel::CH20 => 0x05C,
        }
    }

    pub fn mask(&self) -> (r: u32)
        ensures
            r == self.spec_mask(),
    {
        let id = self.identifier();
        0x1u32 << ((id - 1) as u32)
    }
}

/// Channel numbers run from 1 to 20; there is no channel 0.
pub proof fn lemma_channel_identifier_range(c: LTC2983Channel)
    ensures
        1 <= c.spec_identifier() <= 20,
{
    match c {
        LTC2983Channel::CH1 => {},
        LTC2983Channel::CH2 => {},
        LTC2983Channel::CH3 => {},
        LTC2983Channel::CH4 => {},
        LTC2983Channel::CH5 => {},
        LTC2983Channel::CH6 => {},
        LTC2983Channel::CH7 => {},
        LTC2983Channel::CH8 => {},
        LTC2983Channel::CH9 => {},
        LTC2983Channel::CH10 => {},
        LTC2983Channel::CH11 => {},
        LTC2983Channel::CH12 => {},
        LTC2983Channel::CH13 => {},
        LTC2983Channel::CH14 => {},
        LTC2983Channel::CH15 => {},
        LTC2983Channel::CH16 => {},
        LTC2983Channel::CH17 => {},
        LTC2983Channel::CH18 => {},
        LTC2983Channel::CH19 => {},
        LTC2983Channel::CH20 => {},
    }
}

/// The combined selection mask of a set of channels: the bitwise OR of each
/// channel's mask bit `1 << (n - 1)`.
pub open spec fn channels_mask(s: Seq<LTC2983Channel>) -> u32
    decreases s.len(),
{
    if s.len() == 0 {
        0
    } else {
        channels_mask(s.drop_last()) | s.last().spec_mask()
    }
}

/// Compute the multi-channel selection mask register value for a set of
/// channels.
pub fn selection_mask(channels: &Vec<LTC2983Channel>) -> (r: u32)
    ensures
        r == channels_mask(channels@),
{
    let mut mask: u32 = 0x0;
    let mut i: usize = 0;
    while i < channels.len()
        invariant
            i <= channels@.len(),
            mask == channels_mask(channels@.take(i as int)),
        decreases channels@.len() - i,
    {
        proof {
            assert(channels@.take(i as int + 1).drop_last() =~= channels@.take(i as int));
            assert(channels@.take(i as int + 1).last() == channels@[i as int]);
        }
        mask |= channels[i].mask();
        i = i + 1;
    }
    proof {
        assert(channels@.take(channels@.len() as int) =~= channels@);
    }
    mask
}

/// The register map is an affine function of the channel number: channel `n`
/// configures at `0x200 + 4 (n - 1)` and reports at `0x010 + 4 (n - 1)`.
/// Configuration and result addresses occupy disjoint ranges, and both maps
/// are strictly increasing in `n`, so all register addresses are pairwise
/// distinct.
pub proof fn lemma_channel_address_map()
    ensures
        forall|c: LTC2983Channel| #[trigger] c.spec_start_address()
            == 0x200 + 4 * (c.spec_identifier() - 1),
        forall|c: LTC2983Channel| #[trigger] c.spec_result_address()
            == 0x010 + 4 * (c.spec_identifier() - 1),
        forall|c: LTC2983Channel| 0x010 <= #[trigger] c.spec_result_address() <= 0x05C,
        forall|c: LTC2983Channel| 0x200 <= #[trigger] c.spec_start_address() <= 0x24C,
        forall|c1: LTC2983Channel, c2: LTC2983Channel|
            #![trigger c1.spec_identifier(), c2.spec_identifier()]
            c1.spec_identifier() < c2.spec_identifier()
                ==> c1.spec_start_address() < c2.spec_start_address()
                    && c1.spec_result_address() < c2.spec_result_address(),
{
    assert forall|c: LTC2983Channel| 1 <= #[trigger] c.spec_identifier() <= 20 by {
        match c {
            LTC2983Channel::CH1 => {},
            LTC2983Channel::CH2 => {},
            LTC2983Channel::CH3 => {},
            LTC2983Channel::CH4 => {},
            LTC2983Channel::CH5 => {},
            LTC2983Channel::CH6 => {},
            LTC2983Channel::CH7 => {},
            LTC2983Channel::CH8 => {},
            LTC2983Channel::CH9 => {},
            LTC2983Channel::CH10 => {},
            LTC2983Channel::CH11 => {},
            LTC2983Channel::CH12 => {},
            LTC2983Channel::CH13 => {},
            LTC2983Channel::CH14 => {},
            LTC2983Channel::CH15 => {},
            LTC2983Channel::CH16 => {},
            LTC2983Channel::CH17 => {},
            LTC2983Channel::CH18 => {},
            LTC2983Channel::CH19 => {},
            LTC2983Channel::CH20 => {},
        }
    }
}

} // verus!
