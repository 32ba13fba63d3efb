//! The register map: fixed registers and the three per-channel families.

use vstd::prelude::*;
use crate::types::RegisterError;

verus! {

/// Number of output channels, and so of valid channel offsets.
pub const NUM_OFFSETS: u8 = 16;

/// Register slots that one channel occupies: current, PWM low, PWM high.
pub const CHANNEL_STRIDE: u8 = 3;

/// A logical register of the chip.
///
/// The first ten are single registers with a fixed address. The last three
/// name a family of sixteen registers, one per channel.
#[derive(Copy, Clone, PartialEq, Eq, Debug, Structural)]
pub enum Register {
    DimmingFreq,
    Control,
    OtpAndRefreshFreq,
    RefreshFreq,
    ChannelEnable0,
    ChannelEnable1,
    ChannelOpenFault0,
    ChannelOpenFault1,
    ChannelShortFault0,
    ChannelShortFault1,
    ChannelCurrentStart,
    ChannelPwmDutyLsbStart,
    ChannelPwmDutyMsbStart,
}

impl Register {
    /// Whether this identity names a per-channel family.
    pub open spec fn is_channel_family(self) -> bool {
        self is ChannelCurrentStart || self is ChannelPwmDutyLsbStart
            || self is ChannelPwmDutyMsbStart
    }

    /// The address of a single register, or the address of channel 0 for a
    /// family.
    pub open spec fn base(self) -> int {
        match self {
            Register::DimmingFreq => 0x00,
            Register::Control => 0x01,
            Register::OtpAndRefreshFreq => 0x02,
            Register::RefreshFreq => 0x03,
            Register::ChannelEnable0 => 0x04,
            Register::ChannelEnable1 => 0x05,
            Register::ChannelOpenFault0 => 0x06,
            Register::ChannelOpenFault1 => 0x07,
            Register::ChannelShortFault0 => 0x08,
            Register::ChannelShortFault1 => 0x09,
            Register::ChannelCurrentStart => 0x0a,
            Register::ChannelPwmDutyLsbStart => 0x0b,
            Register::ChannelPwmDutyMsbStart => 0x0c,
        }
    }

    /// What `addr` returns.
    pub open spec fn addr_spec(self) -> Result<u8, RegisterError> {
        if self.is_channel_family() {
            Err(RegisterError::InvalidConversion)
        } else {
            Ok(self.base() as u8)
        }
    }

    /// What `offset_addr` returns. The offset is judged before the identity.
    pub open spec fn offset_addr_spec(self, offset: u8) -> Result<u8, RegisterError> {
        if offset >= NUM_OFFSETS {
            Err(RegisterError::InvalidOffset)
        } else if !self.is_channel_family() {
            Err(RegisterError::InvalidConversion)
        } else {
            Ok((self.base() + CHANNEL_STRIDE * offset) as u8)
        }
    }

    /// The fixed address of a single register.
    ///
    /// Fails with `InvalidConversion` exactly on the per-channel families.
    pub fn addr(&self) -> (r: Result<u8, RegisterError>)
        ensures
            r == self.addr_spec(),
            self.is_channel_family() ==> r == Err::<u8, RegisterError>(
                RegisterError::InvalidConversion,
            ),
            !self.is_channel_family() ==> r is Ok && r->Ok_0 == self.base(),
    {
        match self {
            Register::DimmingFreq => Ok(0x00),
            Register::Control => Ok(0x01),
            Register::OtpAndRefreshFreq => Ok(0x02),
            Register::RefreshFreq => Ok(0x03),
            Register::ChannelEnable0 => Ok(0x04),
            Register::ChannelEnable1 => Ok(0x05),
            Register::ChannelOpenFault0 => Ok(0x06),
            Register::ChannelOpenFault1 => Ok(0x07),
            Register::ChannelShortFault0 => Ok(0x08),
            Register::ChannelShortFault1 => Ok(0x09),
            _ => Err(RegisterError::InvalidConversion),
        }
    }

    /// The address of one channel's register in a per-channel family: the
    /// family's base plus three times the offset.
    ///
    /// Fails with `InvalidOffset` when `offset` is 16 or more, whatever the
    /// identity, and otherwise with `InvalidConversion` on a single register.
    pub fn offset_addr(&self, offset: u8) -> (r: Result<u8, RegisterError>)
        ensures
            r == self.offset_addr_spec(offset),
            offset >= NUM_OFFSETS ==> r == Err::<u8, RegisterError>(RegisterError::InvalidOffset),
            offset < NUM_OFFSETS && !self.is_channel_family() ==> r == Err::<u8, RegisterError>(
                RegisterError::InvalidConversion,
            ),
            offset < NUM_OFFSETS && self.is_channel_family() ==> r is Ok && r->Ok_0
                == self.base() + 3 * offset,
    {
        if offset >= NUM_OFFSETS {
            return Err(RegisterError::InvalidOffset);
        }
        match self {
            Register::ChannelCurrentStart => Ok(0x0a + CHANNEL_STRIDE * offset),
            Register::ChannelPwmDutyLsbStart => Ok(0x0b + CHANNEL_STRIDE * offset),
            Register::ChannelPwmDutyMsbStart => Ok(0x0c + CHANNEL_STRIDE * offset),
            _ => Err(RegisterError::InvalidConversion),
        }
    }
}

/// Within the sixteen channels, a family's address is its base plus three
/// times the offset, and it fits in a byte above every single register.
pub proof fn lemma_channel_addr_formula(family: Register, offset: u8)
    requires
        family.is_channel_family(),
        offset < NUM_OFFSETS,
    ensures
        family.offset_addr_spec(offset) == Ok::<u8, RegisterError>(
            (family.base() + 3 * offset) as u8,
        ),
        0x0a <= family.base() + 3 * offset <= 0x39,
{
}

/// No two channel registers share an address: within the sixteen channels the
/// address decides both the family and the offset.
pub proof fn lemma_channel_addrs_distinct(f1: Register, o1: u8, f2: Register, o2: u8)
    requires
        f1.is_channel_family(),
        f2.is_channel_family(),
        o1 < NUM_OFFSETS,
        o2 < NUM_OFFSETS,
        f1.offset_addr_spec(o1) == f2.offset_addr_spec(o2),
    ensures
        f1 == f2,
        o1 == o2,
{
}

/// An offset of sixteen or more is refused with `InvalidOffset`, whatever
/// the identity.
pub proof fn lemma_offset_out_of_range(reg: Register, offset: u8)
    requires
        offset >= NUM_OFFSETS,
    ensures
        reg.offset_addr_spec(offset) == Err::<u8, RegisterError>(RegisterError::InvalidOffset),
{
}

/// Each identity resolves in exactly one of the two ways: a single register
/// has a fixed address and no channel address, a family has channel addresses
/// and no fixed address.
pub proof fn lemma_kinds_exclusive(reg: Register, offset: u8)
    requires
        offset < NUM_OFFSETS,
    ensures
        !reg.is_channel_family() ==> reg.addr_spec() is Ok && reg.offset_addr_spec(offset)
            == Err::<u8, RegisterError>(RegisterError::InvalidConversion),
        reg.is_channel_family() ==> reg.offset_addr_spec(offset) is Ok && reg.addr_spec()
            == Err::<u8, RegisterError>(RegisterError::InvalidConversion),
{
}

/// Single registers have distinct addresses, all below the channel registers.
pub proof fn lemma_single_addrs_distinct(r1: Register, r2: Register)
    requires
        !r1.is_channel_family(),
        !r2.is_channel_family(),
        r1.addr_spec() == r2.addr_spec(),
    ensures
        r1 == r2,
        r1.base() < 0x0a,
{
}

} // verus!
