use vstd::prelude::*;
use crate::compensation::{compensate, pressure_spec, temperature_spec, Prom, RAW_LIMIT};
use crate::crc::{computed_crc, prom_checksum_matches, stored_crc, PROM_IMAGE_LEN};
use crate::osr::OversampleRatio;
use crate::sequencer::Conversion;

verus! {

/// Command byte that restarts the sensor.
pub const RESET_COMMAND: u8 = 0x1e;

/// First calibration memory read command of the checksummed layout.
pub const PROM_READ_VALIDATED: u8 = 0xa0;

/// First calibration memory read command of the unchecked layout.
pub const PROM_READ_UNCHECKED: u8 = 0xa6;

/// Bytes of the unchecked layout's image: the six coefficients alone.
pub const UNCHECKED_IMAGE_LEN: usize = 12;

/// How the calibration memory is laid out and whether it carries a checksum.
#[derive(Clone, Copy, Debug, PartialEq, Eq, Structural)]
pub enum ChecksumPolicy {
    /// Eight words from the first read command: a reserved word, the six
    /// coefficients, and a word whose low nibble is the checksum.
    Validated,
    /// The six coefficients alone, from the other read command, unchecked.
    Unchecked,
}

/// Why a driver operation failed.
#[derive(Debug, PartialEq, Eq)]
pub enum Error<E> {
    /// The bus failed; its error is handed on unchanged.
    Transport(E),
    /// The calibration memory's checksum did not match.
    CalibrationIntegrity,
    /// No calibration has been loaded.
    NotCalibrated,
}

/// Number of bytes of the calibration image under `policy`.
pub open spec fn image_len(policy: ChecksumPolicy) -> nat {
    match policy {
        ChecksumPolicy::Validated => PROM_IMAGE_LEN as nat,
        ChecksumPolicy::Unchecked => UNCHECKED_IMAGE_LEN as nat,
    }
}

/// The read command of the image's first word under `policy`.
pub open spec fn prom_base(policy: ChecksumPolicy) -> u8 {
    match policy {
        ChecksumPolicy::Validated => PROM_READ_VALIDATED,
        ChecksumPolicy::Unchecked => PROM_READ_UNCHECKED,
    }
}

/// Index of the word that holds the first coefficient under `policy`.
pub open spec fn first_coefficient(policy: ChecksumPolicy) -> int {
    match policy {
        ChecksumPolicy::Validated => 1,
        ChecksumPolicy::Unchecked => 0,
    }
}

/// The big-endian word at index `i` of an image.
pub open spec fn word_spec(image: Seq<u8>, i: int) -> u16 {
    (image[2 * i] as int * 256 + image[2 * i + 1] as int) as u16
}

/// The coefficients that an image holds under `policy`.
pub open spec fn prom_of(image: Seq<u8>, policy: ChecksumPolicy) -> Prom {
    let k = first_coefficient(policy);
    Prom {
        pressure_sensitivity: word_spec(image, k),
        pressure_offset: word_spec(image, k + 1),
        temp_coef_pressure_sensitivity: word_spec(image, k + 2),
        temp_coef_pressure_offset: word_spec(image, k + 3),
        temp_ref: word_spec(image, k + 4),
        temp_coef_temp: word_spec(image, k + 5),
    }
}

/// Whether an image may be trusted under `policy`.
pub open spec fn image_accepted(image: Seq<u8>, policy: ChecksumPolicy) -> bool {
    match policy {
        ChecksumPolicy::Validated => computed_crc(image) == stored_crc(image),
        ChecksumPolicy::Unchecked => true,
    }
}

/// Reads the big-endian word at index `i` of an image.
fn word_at(image: &[u8], i: usize) -> (r: u16)
    requires
        i < 8,
        2 * i + 1 < image@.len(),
    ensures
        r == word_spec(image@, i as int),
{
    (image[2 * i] as u16) * 256 + (image[2 * i + 1] as u16)
}

/// The coefficients that an image holds under `policy`.
pub fn parse_prom(image: &[u8], policy: ChecksumPolicy) -> (r: Prom)
    requires
        image@.len() == image_len(policy),
    ensures
        r == prom_of(image@, policy),
{
    let k: usize = match policy {
        ChecksumPolicy::Validated => 1,
        ChecksumPolicy::Unchecked => 0,
    };
    Prom {
        pressure_sensitivity: word_at(image, k),
        pressure_offset: word_at(image, k + 1),
        temp_coef_pressure_sensitivity: word_at(image, k + 2),
        temp_coef_pressure_offset: word_at(image, k + 3),
        temp_ref: word_at(image, k + 4),
        temp_coef_temp: word_at(image, k + 5),
    }
}

/// The bus-independent state of one sensor at a fixed 7-bit address: its
/// memory layout and, once loaded and accepted, its calibration.
#[derive(Clone, Copy, Debug)]
pub struct Ms5611 {
    address: u8,
    policy: ChecksumPolicy,
    prom: Option<Prom>,
}

impl Ms5611 {
    pub closed spec fn address_spec(&self) -> u8 {
        self.address
    }

    pub closed spec fn policy_spec(&self) -> ChecksumPolicy {
        self.policy
    }

    /// The loaded calibration; `None` while uncalibrated.
    pub closed spec fn prom_spec(&self) -> Option<Prom> {
        self.prom
    }

    /// An uncalibrated driver for the checksummed layout.
    pub fn new(address: u8) -> (r: Ms5611)
        ensures
            r.address_spec() == address,
            r.policy_spec() == ChecksumPolicy::Validated,
            r.prom_spec() is None,
    {
        Ms5611 { address, policy: ChecksumPolicy::Validated, prom: None }
    }

    /// An uncalibrated driver for the layout that `policy` names.
    pub fn with_policy(address: u8, policy: ChecksumPolicy) -> (r: Ms5611)
        ensures
            r.address_spec() == address,
            r.policy_spec() == policy,
            r.prom_spec() is None,
    {
        Ms5611 { address, policy, prom: None }
    }

    pub fn address(&self) -> (r: u8)
        ensures
            r == self.address_spec(),
    {
        self.address
    }

    pub fn policy(&self) -> (r: ChecksumPolicy)
        ensures
            r == self.policy_spec(),
    {
        self.policy
    }

    pub fn calibration(&self) -> (r: Option<Prom>)
        ensures
            r == self.prom_spec(),
    {
        self.prom
    }

    pub fn is_calibrated(&self) -> (r: bool)
        ensures
            r == self.prom_spec() is Some,
    {
        self.prom.is_some()
    }

    /// The command byte to write to restart the sensor.
    pub fn reset(&self) -> (r: u8)
        ensures
            r == RESET_COMMAND,
    {
        RESET_COMMAND
    }

    /// Number of bytes of calibration memory to read: two per word.
    pub fn prom_len(&self) -> (r: usize)
        ensures
            r == image_len(self.policy_spec()),
    {
        match self.policy {
            ChecksumPolicy::Validated => PROM_IMAGE_LEN,
            ChecksumPolicy::Unchecked => UNCHECKED_IMAGE_LEN,
        }
    }

    /// The command byte that reads word `index` of the calibration memory.
    pub fn prom_command(&self, index: usize) -> (r: u8)
        requires
            2 * index < image_len(self.policy_spec()),
        ensures
            r == prom_base(self.policy_spec()) + 2 * index,
    {
        let base: u8 = match self.policy {
            ChecksumPolicy::Validated => PROM_READ_VALIDATED,
            ChecksumPolicy::Unchecked => PROM_READ_UNCHECKED,
        };
        base + 2 * (index as u8)
    }

    /// Loads the calibration from what the bus read of the calibration
    /// memory: the words in order, two big-endian bytes each. A bus error is
    /// handed on; under the checksummed layout a checksum mismatch is
    /// refused. Either failure leaves the driver uncalibrated.
    pub fn read_prom<E>(&mut self, image: Result<Vec<u8>, E>) -> (r: Result<(), Error<E>>)
        requires
            image is Ok ==> image->Ok_0@.len() == image_len(old(self).policy_spec()),
        ensures
            final(self).address_spec() == old(self).address_spec(),
            final(self).policy_spec() == old(self).policy_spec(),
            match image {
                Err(e) => r == Err::<(), Error<E>>(Error::Transport(e))
                    && final(self).prom_spec() is None,
                Ok(bytes) => if image_accepted(bytes@, old(self).policy_spec()) {
                    r is Ok && final(self).prom_spec() == Some(
                        prom_of(bytes@, old(self).policy_spec()),
                    )
                } else {
                    r == Err::<(), Error<E>>(Error::CalibrationIntegrity)
                        && final(self).prom_spec() is None
                },
            },
    {
        match image {
            Err(e) => {
                self.prom = None;
                Err(Error::Transport(e))
            },
            Ok(bytes) => {
                let accepted = match self.policy {
                    ChecksumPolicy::Validated => prom_checksum_matches(bytes.as_slice()),
                    ChecksumPolicy::Unchecked => true,
                };
                if accepted {
                    self.prom = Some(parse_prom(bytes.as_slice(), self.policy));
                    Ok(())
                } else {
                    self.prom = None;
                    Err(Error::CalibrationIntegrity)
                }
            },
        }
    }

    /// Starts a measurement at resolution `osr`: the conversions to run, or
    /// `NotCalibrated` before any calibration was loaded.
    pub fn begin_read<E>(&self, osr: OversampleRatio) -> (r: Result<Conversion, Error<E>>)
        ensures
            self.prom_spec() is None ==> r == Err::<Conversion, Error<E>>(Error::NotCalibrated),
            self.prom_spec() is Some ==> r is Ok && r->Ok_0.osr_spec() == osr
                && r->Ok_0.phase_spec() == crate::sequencer::Phase::Pressure,
    {
        if self.prom.is_none() {
            return Err(Error::NotCalibrated);
        }
        Ok(Conversion::new(osr))
    }

    /// Finishes a measurement: the compensated pressure (hundredths of a
    /// millibar) and temperature (hundredths of a degree Celsius) from the
    /// raw pair that the conversions read. `NotCalibrated` comes first, then
    /// a bus error is handed on unchanged.
    pub fn read<E>(&self, raw: Result<(u32, u32), E>) -> (r: Result<(i32, i32), Error<E>>)
        requires
            raw is Ok ==> raw->Ok_0.0 < RAW_LIMIT && raw->Ok_0.1 < RAW_LIMIT,
        ensures
            self.prom_spec() is None ==> r == Err::<(i32, i32), Error<E>>(Error::NotCalibrated),
            self.prom_spec() is Some ==> match raw {
                Err(e) => r == Err::<(i32, i32), Error<E>>(Error::Transport(e)),
                Ok((p, t)) => r is Ok && r->Ok_0.0 as int == pressure_spec(
                    self.prom_spec()->Some_0,
                    p as int,
                    t as int,
                ) && r->Ok_0.1 as int == temperature_spec(self.prom_spec()->Some_0, t as int),
            },
    {
        match &self.prom {
            None => Err(Error::NotCalibrated),
            Some(prom) => match raw {
                Err(e) => Err(Error::Transport(e)),
                Ok((raw_pressure, raw_temperature)) => Ok(
                    compensate(prom, raw_pressure, raw_temperature),
                ),
            },
        }
    }
}

} // verus!
