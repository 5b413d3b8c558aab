use autosar_e2e::profile6::{Profile6, Profile6Config};
use autosar_e2e::{E2EError, E2EProfile, E2EStatus};

#[test]
fn test_profile6_basic_example() {
    let mut profile_tx = Profile6::new(Profile6Config::default()).unwrap();
    let mut profile_rx = Profile6::new(Profile6Config::default()).unwrap();

    let mut data = vec![0x00, 0x00, 0x00, 0x00, 0x00, 0x00, 0x00, 0x00];
    profile_tx.protect(&mut data).unwrap();
    // CRC check
    assert_eq!(data[0], 0xb1);
    assert_eq!(data[1], 0x55);
    // length check
    assert_eq!(data[2], 0x00);
    assert_eq!(data[3], 0x08);
    // counter check
    assert_eq!(data[4], 0x00);
    assert_eq!(profile_rx.check(&data).unwrap(), E2EStatus::StatusOk);
}

#[test]
fn test_profile6_offset_example() {
    let config = Profile6Config {
        offset: 64,
        ..Default::default()
    };

    let mut profile_tx = Profile6::new(config.clone()).unwrap();
    let mut profile_rx = Profile6::new(config).unwrap();

    let mut data = vec![
        0x00, 0x00, 0x00, 0x00, 0x00, 0x00, 0x00, 0x00, 0x00, 0x00, 0x00, 0x00, 0x00, 0x00, 0x00,
        0x00,
    ];
    profile_tx.protect(&mut data).unwrap();
    // crc check
    assert_eq!(data[8], 0x4e);
    assert_eq!(data[9], 0xb7);
    // length check
    assert_eq!(data[10], 0x00);
    assert_eq!(data[11], 0x10);
    // counter check
    assert_eq!(data[12], 0x00);
    assert_eq!(profile_rx.check(&data).unwrap(), E2EStatus::StatusOk);
}

#[test]
fn test_profile6_counter_wraparound() {
    let mut profile_tx = Profile6::new(Profile6Config::default()).unwrap();
    let mut profile_rx = Profile6::new(Profile6Config::default()).unwrap();

    let mut data = vec![0x00, 0x00, 0x00, 0x00, 0x00, 0x00, 0x00, 0x00];
    profile_tx.protect(&mut data).unwrap();
    // counter check
    assert_eq!(data[4], 0x00);
    assert_eq!(profile_rx.check(&data).unwrap(), E2EStatus::StatusOk);
    profile_tx.protect(&mut data).unwrap();
    // counter check
    assert_eq!(data[4], 0x01);
    assert_eq!(profile_rx.check(&data).unwrap(), E2EStatus::StatusOk);
    profile_rx.counter = 0xFE;
    profile_tx.counter = 0xFF;
    profile_tx.protect(&mut data).unwrap();
    // counter check
    assert_eq!(data[4], 0xFF);
    assert_eq!(profile_rx.check(&data).unwrap(), E2EStatus::StatusOk);
    profile_tx.protect(&mut data).unwrap();
    // counter check
    assert_eq!(data[4], 0x00);
    assert_eq!(profile_rx.check(&data).unwrap(), E2EStatus::StatusOk);
    profile_tx.protect(&mut data).unwrap();
}

#[test]
fn test_profile6_implicit_id_mismatch() {
    // the Data ID only enters the CRC, so a foreign ID surfaces as CrcError
    let mut profile_tx = Profile6::new(Profile6Config::default()).unwrap();
    let rx_config = Profile6Config {
        data_id: 0x4321,
        ..Default::default()
    };
    let mut profile_rx = Profile6::new(rx_config).unwrap();

    let mut data = vec![0x00; 8];
    profile_tx.protect(&mut data).unwrap();
    assert_eq!(profile_rx.check(&data).unwrap(), E2EStatus::CrcError);
}

#[test]
fn test_profile6_length_errors() {
    let mut profile = Profile6::new(Profile6Config::default()).unwrap();
    let mut short = vec![0x00; 4];
    assert!(matches!(
        profile.protect(&mut short),
        Err(E2EError::InvalidDataFormat(_))
    ));
    assert!(matches!(
        profile.check(&short),
        Err(E2EError::InvalidDataFormat(_))
    ));
}
