use vstd::prelude::*;

verus! {

/// Number of bytes in the checksummed calibration memory image: eight
/// big-endian words (a reserved word, six coefficients, the checksum word).
pub const PROM_IMAGE_LEN: usize = 16;

/// The polynomial that the register folds in when its top bit leaves.
pub const CRC_POLY: u16 = 0x3000;

/// One shift round of the 16-bit checksum register.
pub open spec fn crc_round(c: u16) -> u16 {
    if c & 0x8000 != 0 {
        ((c << 1u16) ^ CRC_POLY) as u16
    } else {
        (c << 1u16) as u16
    }
}

/// `n` shift rounds applied to the register value `c`.
pub open spec fn crc_rounds(c: u16, n: nat) -> u16
    decreases n,
{
    if n == 0 {
        c
    } else {
        crc_round(crc_rounds(c, (n - 1) as nat))
    }
}

/// The register after folding in one byte: XOR it into the low end, then
/// eight shift rounds.
pub open spec fn crc_byte(c: u16, b: u8) -> u16 {
    crc_rounds(c ^ (b as u16), 8)
}

/// The register after folding in every byte of `bytes`, in order, from zero.
pub open spec fn crc_fold(bytes: Seq<u8>) -> u16
    decreases bytes.len(),
{
    if bytes.len() == 0 {
        0
    } else {
        crc_byte(crc_fold(bytes.drop_last()), bytes.last())
    }
}

/// The 4-bit checksum computed over a calibration memory image: all of its
/// bytes, with the checksum word's low byte taken as zero, then the top
/// nibble of the register.
pub open spec fn computed_crc(image: Seq<u8>) -> u16
    recommends
        image.len() == PROM_IMAGE_LEN,
{
    crc_fold(image.update(image.len() - 1, 0)) >> 12u16
}

/// The 4-bit checksum stored in the low nibble of the image's last word.
pub open spec fn stored_crc(image: Seq<u8>) -> u16
    recommends
        image.len() == PROM_IMAGE_LEN,
{
    (image.last() & 0x0f) as u16
}

/// Folds one byte into the checksum register.
pub fn crc_accumulate_byte(crc: &mut u16, byte: u8)
    ensures
        *final(crc) == crc_byte(*old(crc), byte),
{
    let start: u16 = *crc ^ (byte as u16);
    *crc = start;
    let mut i: u32 = 0;
    while i < 8
        invariant
            i <= 8,
            *crc == crc_rounds(start, i as nat),
        decreases 8 - i,
    {
        if (*crc & 0x8000) > 0 {
            *crc = (*crc << 1u16) ^ CRC_POLY;
        } else {
            *crc = *crc << 1u16;
        }
        i += 1;
    }
}

/// Computes the 4-bit checksum of a calibration memory image.
pub fn prom_checksum(image: &[u8]) -> (r: u16)
    requires
        image@.len() == PROM_IMAGE_LEN,
    ensures
        r == computed_crc(image@),
        r < 16,
{
    let mut crc: u16 = 0;
    let mut i: usize = 0;
    while i < PROM_IMAGE_LEN - 1
        invariant
            image@.len() == PROM_IMAGE_LEN,
            i <= PROM_IMAGE_LEN - 1,
            crc == crc_fold(image@.subrange(0, i as int)),
        decreases PROM_IMAGE_LEN - i,
    {
        proof {
            let s = image@.subrange(0, i as int + 1);
            assert(s.drop_last() =~= image@.subrange(0, i as int));
        }
        crc_accumulate_byte(&mut crc, image[i]);
        i += 1;
    }
    crc_accumulate_byte(&mut crc, 0);
    proof {
        let z = image@.update(PROM_IMAGE_LEN - 1, 0);
        assert(z.drop_last() =~= image@.subrange(0, PROM_IMAGE_LEN - 1));
    }
    let r: u16 = crc >> 12u16;
    assert(crc >> 12u16 < 16) by (bit_vector);
    r
}

/// Whether the checksum stored in a calibration memory image matches the one
/// computed over it.
pub fn prom_checksum_matches(image: &[u8]) -> (r: bool)
    requires
        image@.len() == PROM_IMAGE_LEN,
    ensures
        r == (computed_crc(image@) == stored_crc(image@)),
{
    let stored: u16 = (image[PROM_IMAGE_LEN - 1] & 0x0f) as u16;
    prom_checksum(image) == stored
}

} // verus!
