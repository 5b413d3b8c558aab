use autosar_e2e::profile7::{Profile7, Profile7Config};
use autosar_e2e::{E2EError, E2EProfile, E2EStatus};

#[test]
fn test_profile7_basic_example() {
    let mut profile_tx = Profile7::new(Profile7Config::default()).unwrap();
    let mut profile_rx = Profile7::new(Profile7Config::default()).unwrap();

    let mut data = vec![
        0x00, 0x00, 0x00, 0x00, 0x00, 0x00, 0x00, 0x00, 0x00, 0x00, 0x00, 0x00, 0x00, 0x00, 0x00,
        0x00, 0x00, 0x00, 0x00, 0x00, 0x00, 0x00, 0x00, 0x00,
    ];
    profile_tx.protect(&mut data).unwrap();
    // CRC check
    assert_eq!(data[0], 0x1f);
    assert_eq!(data[1], 0xb2);
    assert_eq!(data[2], 0xe7);
    assert_eq!(data[3], 0x37);
    assert_eq!(data[4], 0xfc);
    assert_eq!(data[5], 0xed);
    assert_eq!(data[6], 0xbc);
    assert_eq!(data[7], 0xd9);
    // length check
    assert_eq!(data[8], 0x00);
    assert_eq!(data[9], 0x00);
    assert_eq!(data[10], 0x00);
    assert_eq!(data[11], 0x18);
    // counter check
    assert_eq!(data[12], 0x00);
    assert_eq!(data[13], 0x00);
    assert_eq!(data[14], 0x00);
    assert_eq!(data[15], 0x00);
    // data id check
    assert_eq!(data[16], 0x0a);
    assert_eq!(data[17], 0x0b);
    assert_eq!(data[18], 0x0c);
    assert_eq!(data[19], 0x0d);
    assert_eq!(profile_rx.check(&data).unwrap(), E2EStatus::StatusOk);
}

#[test]
fn test_profile7_offset_example() {
    let config = Profile7Config {
        offset: 64,
        ..Default::default()
    };

    let mut profile_tx = Profile7::new(config.clone()).unwrap();
    let mut profile_rx = Profile7::new(config).unwrap();

    let mut data = vec![
        0x00, 0x00, 0x00, 0x00, 0x00, 0x00, 0x00, 0x00, 0x00, 0x00, 0x00, 0x00, 0x00, 0x00, 0x00,
        0x00, 0x00, 0x00, 0x00, 0x00, 0x00, 0x00, 0x00, 0x00, 0x00, 0x00, 0x00, 0x00, 0x00, 0x00,
        0x00, 0x00,
    ];
    profile_tx.protect(&mut data).unwrap();
    // CRC check
    assert_eq!(data[8], 0x17);
    assert_eq!(data[9], 0xf7);
    assert_eq!(data[10], 0xc8);
    assert_eq!(data[11], 0x17);
    assert_eq!(data[12], 0x32);
    assert_eq!(data[13], 0x38);
    assert_eq!(data[14], 0x65);
    assert_eq!(data[15], 0xa8);
    // length check
    assert_eq!(data[16], 0x00);
    assert_eq!(data[17], 0x00);
    assert_eq!(data[18], 0x00);
    assert_eq!(data[19], 0x20);
    // counter check
    assert_eq!(data[20], 0x00);
    assert_eq!(data[21], 0x00);
    assert_eq!(data[22], 0x00);
    assert_eq!(data[23], 0x00);
    // data id check
    assert_eq!(data[24], 0x0a);
    assert_eq!(data[25], 0x0b);
    assert_eq!(data[26], 0x0c);
    assert_eq!(data[27], 0x0d);
    assert_eq!(profile_rx.check(&data).unwrap(), E2EStatus::StatusOk);
}

#[test]
fn test_profile7_counter_wraparound() {
    let config = Profile7Config {
        offset: 64,
        ..Default::default()
    };

    let mut profile_tx = Profile7::new(config.clone()).unwrap();
    let mut profile_rx = Profile7::new(config).unwrap();

    let mut data = vec![
        0x00, 0x00, 0x00, 0x00, 0x00, 0x00, 0x00, 0x00, 0x00, 0x00, 0x00, 0x00, 0x00, 0x00, 0x00,
        0x00, 0x00, 0x00, 0x00, 0x00, 0x00, 0x00, 0x00, 0x00, 0x00, 0x00, 0x00, 0x00, 0x00, 0x00,
        0x00, 0x00,
    ];
    profile_tx.protect(&mut data).unwrap();
    // counter check
    assert_eq!(data[20], 0x00);
    assert_eq!(data[21], 0x00);
    assert_eq!(data[22], 0x00);
    assert_eq!(data[23], 0x00);
    assert_eq!(profile_rx.check(&data).unwrap(), E2EStatus::StatusOk);
    profile_tx.protect(&mut data).unwrap();
    // counter check
    assert_eq!(data[20], 0x00);
    assert_eq!(data[21], 0x00);
    assert_eq!(data[22], 0x00);
    assert_eq!(data[23], 0x01);
    assert_eq!(profile_rx.check(&data).unwrap(), E2EStatus::StatusOk);
    profile_rx.counter = 0xFFFFFFFE;
    profile_tx.counter = 0xFFFFFFFF;
    profile_tx.protect(&mut data).unwrap();
    // counter check
    assert_eq!(data[20], 0xFF);
    assert_eq!(data[21], 0xFF);
    assert_eq!(data[22], 0xFF);
    assert_eq!(data[23], 0xFF);
    assert_eq!(profile_rx.check(&data).unwrap(), E2EStatus::StatusOk);
    profile_tx.protect(&mut data).unwrap();
    // counter check
    assert_eq!(data[20], 0x00);
    assert_eq!(data[21], 0x00);
    assert_eq!(data[22], 0x00);
    assert_eq!(data[23], 0x00);
    assert_eq!(profile_rx.check(&data).unwrap(), E2EStatus::StatusOk);
}

#[test]
fn test_profile7_data_id_mismatch() {
    let mut profile_tx = Profile7::new(Profile7Config::default()).unwrap();
    let rx_config = Profile7Config {
        data_id: 0x01020304,
        ..Default::default()
    };
    let mut profile_rx = Profile7::new(rx_config).unwrap();

    let mut data = vec![0x00; 24];
    profile_tx.protect(&mut data).unwrap();
    assert_eq!(profile_rx.check(&data).unwrap(), E2EStatus::DataIdError);
}

#[test]
fn test_profile7_length_errors() {
    let mut profile = Profile7::new(Profile7Config::default()).unwrap();
    let mut short = vec![0x00; 19];
    assert!(matches!(
        profile.protect(&mut short),
        Err(E2EError::InvalidDataFormat(_))
    ));
    assert!(matches!(
        profile.check(&short),
        Err(E2EError::InvalidDataFormat(_))
    ));
}
