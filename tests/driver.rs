use ms5611::compensation::{compensate, shift_right, Prom};
use ms5611::crc::{prom_checksum, prom_checksum_matches};
use ms5611::driver::{ChecksumPolicy, Error, Ms5611};
use ms5611::osr::OversampleRatio;
use ms5611::sequencer::{raw_from_bytes, Conversion, ConversionStep, Phase, Progress};

const ALL_OSR: [OversampleRatio; 5] = [
    OversampleRatio::Osr256,
    OversampleRatio::Osr512,
    OversampleRatio::Osr1024,
    OversampleRatio::Osr2048,
    OversampleRatio::Osr4096,
];

fn datasheet_prom() -> Prom {
    Prom {
        pressure_sensitivity: 40127,
        pressure_offset: 36924,
        temp_coef_pressure_sensitivity: 23317,
        temp_coef_pressure_offset: 23282,
        temp_ref: 33464,
        temp_coef_temp: 28312,
    }
}

/// Reserved word 0x1234, the datasheet coefficients, checksum nibble 6.
fn datasheet_image() -> Vec<u8> {
    vec![18, 52, 156, 191, 144, 60, 91, 21, 90, 242, 130, 184, 110, 152, 0, 6]
}

fn with_coefficients(temp_ref: u16, c6: u16) -> Prom {
    Prom { temp_ref, temp_coef_temp: c6, ..datasheet_prom() }
}

#[test]
fn datasheet_example_compensates_exactly() {
    assert_eq!(compensate(&datasheet_prom(), 9085466, 8569150), (100009, 2007));
}

#[test]
fn compensation_repeats_bit_identically() {
    let p = datasheet_prom();
    let first = compensate(&p, 9085466, 8569150);
    for _ in 0..10 {
        assert_eq!(compensate(&p, 9085466, 8569150), first);
    }
}

#[test]
fn correction_boundary_at_2000_and_1999() {
    assert_eq!(compensate(&with_coefficients(1, 0), 9085466, 255), (99993, 2000));
    assert_eq!(compensate(&with_coefficients(1, 1), 9085466, 255), (99993, 1999));
}

#[test]
fn correction_boundary_at_minus_1500_and_1501() {
    assert_eq!(compensate(&with_coefficients(32768, 3500), 9085466, 0), (44451, -1500));
    assert_eq!(compensate(&with_coefficients(32768, 3501), 9085466, 0), (44451, -1501));
}

#[test]
fn compensation_at_the_extremes_does_not_overflow() {
    let max = Prom {
        pressure_sensitivity: 65535,
        pressure_offset: 65535,
        temp_coef_pressure_sensitivity: 65535,
        temp_coef_pressure_offset: 65535,
        temp_ref: 65535,
        temp_coef_temp: 65535,
    };
    assert_eq!(compensate(&max, 0xff_ffff, 0), (-22700801, -129069));
    let cold = Prom { pressure_offset: 0, temp_coef_pressure_offset: 0, ..max };
    assert_eq!(compensate(&cold, 0xff_ffff, 0xff_ffff), (524295, 2001));
    let hot = Prom {
        pressure_sensitivity: 0,
        temp_coef_pressure_sensitivity: 0,
        temp_ref: 0,
        ..max
    };
    assert_eq!(compensate(&hot, 0, 0xff_ffff), (-393210, 133069));
}

#[test]
fn shift_right_rounds_toward_negative_infinity() {
    assert_eq!(shift_right(-1, 23), -1);
    assert_eq!(shift_right(-8388608, 23), -1);
    assert_eq!(shift_right(-8388609, 23), -2);
    assert_eq!(shift_right(8388607, 23), 0);
    assert_eq!(shift_right(5, 1), 2);
}

#[test]
fn checksum_of_datasheet_image() {
    let image = datasheet_image();
    assert_eq!(prom_checksum(&image), 6);
    assert!(prom_checksum_matches(&image));
}

#[test]
fn checksum_ignores_high_nibble_of_last_byte() {
    let mut image = datasheet_image();
    image[15] = 0xa6;
    assert!(prom_checksum_matches(&image));
    image[15] = 0x05;
    assert!(!prom_checksum_matches(&image));
}

#[test]
fn every_single_bit_flip_is_detected() {
    let image = datasheet_image();
    for byte in 0..14 {
        for bit in 0..8 {
            let mut flipped = image.clone();
            flipped[byte] ^= 1 << bit;
            assert!(!prom_checksum_matches(&flipped), "byte {} bit {}", byte, bit);
        }
    }
}

#[test]
fn read_prom_accepts_matching_checksum() {
    let mut m = Ms5611::new(0x77);
    assert_eq!(m.read_prom::<()>(Ok(datasheet_image())), Ok(()));
    assert!(m.is_calibrated());
    assert_eq!(m.calibration(), Some(datasheet_prom()));
    assert_eq!(m.address(), 0x77);
}

#[test]
fn read_prom_refuses_checksum_mismatch() {
    let mut image = datasheet_image();
    image[15] = 7;
    let mut m = Ms5611::new(0x77);
    assert_eq!(m.read_prom::<()>(Ok(image)), Err(Error::CalibrationIntegrity));
    assert!(!m.is_calibrated());
}

#[test]
fn failed_reload_discards_calibration() {
    let mut m = Ms5611::new(0x77);
    assert_eq!(m.read_prom::<()>(Ok(datasheet_image())), Ok(()));
    assert_eq!(m.read_prom::<u8>(Err(3)), Err(Error::Transport(3)));
    assert_eq!(m.calibration(), None);
}

#[test]
fn unchecked_layout_reads_six_words() {
    let mut m = Ms5611::with_policy(0x76, ChecksumPolicy::Unchecked);
    assert_eq!(m.prom_len(), 12);
    assert_eq!(m.prom_command(0), 0xa6);
    assert_eq!(m.prom_command(5), 0xb0);
    let image = datasheet_image()[2..14].to_vec();
    assert_eq!(m.read_prom::<()>(Ok(image)), Ok(()));
    assert_eq!(m.calibration(), Some(datasheet_prom()));
}

#[test]
fn validated_layout_commands() {
    let m = Ms5611::new(0x77);
    assert_eq!(m.policy(), ChecksumPolicy::Validated);
    assert_eq!(m.prom_len(), 16);
    let commands: Vec<u8> = (0..8).map(|i| m.prom_command(i)).collect();
    assert_eq!(commands, vec![0xa0, 0xa2, 0xa4, 0xa6, 0xa8, 0xaa, 0xac, 0xae]);
    assert_eq!(m.reset(), 0x1e);
}

#[test]
fn uncalibrated_read_is_refused() {
    let m = Ms5611::new(0x77);
    assert_eq!(m.read::<()>(Ok((9085466, 8569150))), Err(Error::NotCalibrated));
    assert!(matches!(m.begin_read::<()>(OversampleRatio::Osr4096), Err(Error::NotCalibrated)));
}

#[test]
fn calibrated_read_compensates() {
    let mut m = Ms5611::new(0x77);
    m.read_prom::<()>(Ok(datasheet_image())).unwrap();
    assert_eq!(m.read::<()>(Ok((9085466, 8569150))), Ok((100009, 2007)));
    assert_eq!(m.read::<u8>(Err(9)), Err(Error::Transport(9)));
}

#[test]
fn oversampling_commands_and_delays() {
    let commands: Vec<u8> = ALL_OSR.iter().map(|o| o.pressure_command()).collect();
    assert_eq!(commands, vec![0x40, 0x42, 0x44, 0x46, 0x48]);
    let temperature: Vec<u8> = ALL_OSR.iter().map(|o| o.temperature_command()).collect();
    assert_eq!(temperature, vec![0x50, 0x52, 0x54, 0x56, 0x58]);
    let delays: Vec<u32> = ALL_OSR.iter().map(|o| o.delay_ms()).collect();
    assert_eq!(delays, vec![1, 2, 3, 5, 10]);
}

#[test]
fn delays_never_decrease_with_resolution() {
    for pair in ALL_OSR.windows(2) {
        assert!(pair[0].delay_ms() <= pair[1].delay_ms());
    }
}

#[test]
fn raw_bytes_are_big_endian() {
    assert_eq!(raw_from_bytes([0x8a, 0xa2, 0x1a]), 9085466);
    assert_eq!(raw_from_bytes([0xff, 0xff, 0xff]), 0xff_ffff);
}

#[test]
fn paired_conversion_reads_pressure_then_temperature() {
    let mut c = Conversion::new(OversampleRatio::Osr1024);
    assert_eq!(c.step(), Some(ConversionStep { command: 0x44, delay_ms: 3 }));
    match c.advance::<()>(Ok([0x8a, 0xa2, 0x1a])) {
        Progress::Next(step) => assert_eq!(step, ConversionStep { command: 0x54, delay_ms: 3 }),
        other => panic!("unexpected {:?}", other),
    }
    assert_eq!(c.phase(), Phase::Temperature);
    match c.advance::<()>(Ok([0x82, 0xc1, 0x3e])) {
        Progress::Done(p, t) => assert_eq!((p, t), (9085466, 8569150)),
        other => panic!("unexpected {:?}", other),
    }
    assert_eq!(c.phase(), Phase::Finished);
    assert_eq!(c.step(), None);
}

#[test]
fn failed_temperature_read_fails_the_pair() {
    let mut c = Conversion::new(OversampleRatio::Osr256);
    assert!(matches!(c.advance::<&str>(Ok([0x8a, 0xa2, 0x1a])), Progress::Next(_)));
    assert!(matches!(c.advance::<&str>(Err("nack")), Progress::Failed("nack")));
    assert_eq!(c.phase(), Phase::Finished);
}

#[test]
fn failed_pressure_read_fails_the_pair() {
    let mut c = Conversion::new(OversampleRatio::Osr2048);
    assert!(matches!(c.advance::<u8>(Err(1)), Progress::Failed(1)));
    assert_eq!(c.step(), None);
}

#[test]
fn full_measurement_cycle() {
    let mut m = Ms5611::new(0x77);
    m.read_prom::<()>(Ok(datasheet_image())).unwrap();
    let mut c = m.begin_read::<()>(OversampleRatio::Osr4096).unwrap();
    assert!(matches!(c.advance::<()>(Ok([0x8a, 0xa2, 0x1a])), Progress::Next(_)));
    let raw = match c.advance::<()>(Ok([0x82, 0xc1, 0x3e])) {
        Progress::Done(p, t) => (p, t),
        other => panic!("unexpected {:?}", other),
    };
    assert_eq!(m.read::<()>(Ok(raw)), Ok((100009, 2007)));
}
