use vstd::prelude::*;

verus! {

/// Conversion resolution of the sensor's analog-to-digital converter, from
/// lowest to highest.
#[derive(Clone, Copy, Debug, PartialEq, Eq, Structural)]
pub enum OversampleRatio {
    Osr256,
    Osr512,
    Osr1024,
    Osr2048,
    Osr4096,
}

/// Added to a pressure conversion command to select the temperature channel.
pub const TEMPERATURE_CHANNEL: u8 = 0x10;

/// Rank of a resolution, 0 for the lowest.
pub open spec fn level(osr: OversampleRatio) -> nat {
    match osr {
        OversampleRatio::Osr256 => 0,
        OversampleRatio::Osr512 => 1,
        OversampleRatio::Osr1024 => 2,
        OversampleRatio::Osr2048 => 3,
        OversampleRatio::Osr4096 => 4,
    }
}

/// Command byte that starts a pressure conversion at this resolution.
pub open spec fn command_spec(osr: OversampleRatio) -> u8 {
    (0x40 + 2 * level(osr)) as u8
}

/// Minimum wait, in milliseconds, before a conversion at this resolution is ready.
pub open spec fn delay_spec(osr: OversampleRatio) -> u32 {
    match osr {
        OversampleRatio::Osr256 => 1,
        OversampleRatio::Osr512 => 2,
        OversampleRatio::Osr1024 => 3,
        OversampleRatio::Osr2048 => 5,
        OversampleRatio::Osr4096 => 10,
    }
}

impl OversampleRatio {
    /// Minimum conversion wait in milliseconds.
    pub fn delay_ms(&self) -> (r: u32)
        ensures
            r == delay_spec(*self),
    {
        match self {
            OversampleRatio::Osr256 => 1,
            OversampleRatio::Osr512 => 2,
            OversampleRatio::Osr1024 => 3,
            OversampleRatio::Osr2048 => 5,
            OversampleRatio::Osr4096 => 10,
        }
    }

    /// Command byte that starts a pressure conversion.
    pub fn pressure_command(&self) -> (r: u8)
        ensures
            r == command_spec(*self),
    {
        match self {
            OversampleRatio::Osr256 => 0x40,
            OversampleRatio::Osr512 => 0x42,
            OversampleRatio::Osr1024 => 0x44,
            OversampleRatio::Osr2048 => 0x46,
            OversampleRatio::Osr4096 => 0x48,
        }
    }

    /// Command byte that starts a temperature conversion.
    pub fn temperature_command(&self) -> (r: u8)
        ensures
            r == command_spec(*self) + TEMPERATURE_CHANNEL,
    {
        self.pressure_command() + TEMPERATURE_CHANNEL
    }
}

/// A higher resolution never waits less: the conversion delay does not
/// decrease as the resolution level rises.
pub proof fn lemma_delay_monotonic(a: OversampleRatio, b: OversampleRatio)
    requires
        level(a) <= level(b),
    ensures
        delay_spec(a) <= delay_spec(b),
{
}

} // verus!
