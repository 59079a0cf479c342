use vstd::prelude::*;
use crate::compensation::RAW_LIMIT;
use crate::osr::{command_spec, delay_spec, OversampleRatio, TEMPERATURE_CHANNEL};

verus! {

/// Command byte that asks for the result of the last conversion.
pub const READ_ADC_COMMAND: u8 = 0x00;

/// Number of bytes of a conversion result.
pub const RAW_LEN: usize = 3;

/// One channel conversion for the bus to run: write `command`, wait at least
/// `delay_ms` milliseconds, write the read-result command, then read three
/// bytes.
#[derive(Clone, Copy, Debug, PartialEq, Eq, Structural)]
pub struct ConversionStep {
    pub command: u8,
    pub delay_ms: u32,
}

/// Where a paired conversion stands.
#[derive(Clone, Copy, Debug, PartialEq, Eq, Structural)]
pub enum Phase {
    Pressure,
    Temperature,
    Finished,
}

/// What a paired conversion asks for next.
#[derive(Debug)]
pub enum Progress<E> {
    /// Run this conversion and hand back what it read.
    Next(ConversionStep),
    /// Both channels were read: raw pressure, raw temperature.
    Done(u32, u32),
    /// The bus failed; the pair is abandoned.
    Failed(E),
}

/// The pressure-then-temperature conversion protocol at one resolution.
#[derive(Clone, Copy, Debug)]
pub struct Conversion {
    osr: OversampleRatio,
    phase: Phase,
    raw_pressure: u32,
}

/// Big-endian value of a three-byte conversion result.
pub open spec fn be24(b: Seq<u8>) -> int {
    b[0] as int * 65536 + b[1] as int * 256 + b[2] as int
}

/// The pressure channel's conversion at resolution `osr`.
pub open spec fn pressure_step_spec(osr: OversampleRatio) -> ConversionStep {
    ConversionStep { command: command_spec(osr), delay_ms: delay_spec(osr) }
}

/// The temperature channel's conversion at resolution `osr`.
pub open spec fn temperature_step_spec(osr: OversampleRatio) -> ConversionStep {
    ConversionStep {
        command: (command_spec(osr) + TEMPERATURE_CHANNEL) as u8,
        delay_ms: delay_spec(osr),
    }
}

/// Reads a three-byte big-endian conversion result.
pub fn raw_from_bytes(b: [u8; 3]) -> (r: u32)
    ensures
        r as int == be24(b@),
        r < RAW_LIMIT,
{
    (b[0] as u32) * 65536 + (b[1] as u32) * 256 + (b[2] as u32)
}

/// The conversion that samples the pressure channel.
pub fn pressure_step(osr: OversampleRatio) -> (r: ConversionStep)
    ensures
        r == pressure_step_spec(osr),
{
    ConversionStep { command: osr.pressure_command(), delay_ms: osr.delay_ms() }
}

/// The conversion that samples the temperature channel.
pub fn temperature_step(osr: OversampleRatio) -> (r: ConversionStep)
    ensures
        r == temperature_step_spec(osr),
{
    ConversionStep { command: osr.temperature_command(), delay_ms: osr.delay_ms() }
}

impl Conversion {
    pub closed spec fn osr_spec(&self) -> OversampleRatio {
        self.osr
    }

    pub closed spec fn phase_spec(&self) -> Phase {
        self.phase
    }

    /// The raw pressure, once the pressure channel has been read.
    pub closed spec fn raw_pressure_spec(&self) -> u32 {
        self.raw_pressure
    }

    /// The state and the request after handing `outcome` to a conversion in
    /// state `self`.
    pub closed spec fn advance_spec<E>(self, outcome: Result<[u8; 3], E>) -> (Conversion, Progress<E>) {
        match outcome {
            Err(e) => (Conversion { phase: Phase::Finished, ..self }, Progress::Failed(e)),
            Ok(b) => match self.phase {
                Phase::Pressure => (
                    Conversion { phase: Phase::Temperature, raw_pressure: be24(b@) as u32, ..self },
                    Progress::Next(temperature_step_spec(self.osr)),
                ),
                _ => (
                    Conversion { phase: Phase::Finished, ..self },
                    Progress::Done(self.raw_pressure, be24(b@) as u32),
                ),
            },
        }
    }

    /// A conversion at resolution `osr`, waiting for its pressure reading.
    pub fn new(osr: OversampleRatio) -> (r: Conversion)
        ensures
            r.osr_spec() == osr,
            r.phase_spec() == Phase::Pressure,
    {
        Conversion { osr, phase: Phase::Pressure, raw_pressure: 0 }
    }

    pub fn phase(&self) -> (r: Phase)
        ensures
            r == self.phase_spec(),
    {
        self.phase
    }

    /// The conversion to run now; `None` once the pair is finished.
    pub fn step(&self) -> (r: Option<ConversionStep>)
        ensures
            self.phase_spec() == Phase::Pressure ==> r == Some(pressure_step_spec(self.osr_spec())),
            self.phase_spec() == Phase::Temperature ==> r == Some(
                temperature_step_spec(self.osr_spec()),
            ),
            self.phase_spec() == Phase::Finished ==> r is None,
    {
        match self.phase {
            Phase::Pressure => Some(pressure_step(self.osr)),
            Phase::Temperature => Some(temperature_step(self.osr)),
            Phase::Finished => None,
        }
    }

    /// Takes the outcome of the conversion that `step` asked for. A bus
    /// error abandons the pair; the pressure reading is handed out only
    /// together with a temperature reading.
    pub fn advance<E>(&mut self, outcome: Result<[u8; 3], E>) -> (r: Progress<E>)
        requires
            old(self).phase_spec() != Phase::Finished,
        ensures
            (*final(self), r) == old(self).advance_spec(outcome),
    {
        match outcome {
            Err(e) => {
                self.phase = Phase::Finished;
                Progress::Failed(e)
            },
            Ok(b) => match self.phase {
                Phase::Pressure => {
                    self.raw_pressure = raw_from_bytes(b);
                    self.phase = Phase::Temperature;
                    Progress::Next(temperature_step(self.osr))
                },
                _ => {
                    let raw_temperature = raw_from_bytes(b);
                    self.phase = Phase::Finished;
                    Progress::Done(self.raw_pressure, raw_temperature)
                },
            },
        }
    }
}

/// A paired conversion hands out readings only when both channel reads
/// succeeded, and a failed temperature read fails the whole pair with that
/// read's error: the pressure reading already taken is never returned alone.
pub proof fn lemma_pair_fails_together<E>(
    c0: Conversion,
    first: Result<[u8; 3], E>,
    second: Result<[u8; 3], E>,
)
    requires
        c0.phase_spec() == Phase::Pressure,
    ensures
        ({
            let osr = c0.osr_spec();
            let (c1, p1) = c0.advance_spec(first);
            let (c2, p2) = c1.advance_spec(second);
            &&& (first is Err ==> p1 is Failed && c1.phase_spec() == Phase::Finished)
            &&& (first is Ok ==> p1 == Progress::<E>::Next(temperature_step_spec(osr)))
            &&& (first is Ok && second is Err ==> p2 == Progress::Failed(second->Err_0))
            &&& (first is Ok && second is Ok ==> p2 == Progress::<E>::Done(
                be24(first->Ok_0@) as u32,
                be24(second->Ok_0@) as u32,
            ))
        }),
{
}

} // verus!
