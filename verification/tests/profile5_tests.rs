use autosar_e2e::profile5::{Profile5, Profile5Config};
use autosar_e2e::{E2EError, E2EProfile, E2EStatus};

#[test]
fn test_profile5_basic_example() {
    let config = Profile5Config {
        data_length: 8 * 8,
        ..Default::default()
    };

    let mut profile_tx = Profile5::new(config.clone()).unwrap();
    let mut profile_rx = Profile5::new(config).unwrap();

    let mut data = vec![0x00, 0x00, 0x00, 0x00, 0x00, 0x00, 0x00, 0x00];
    profile_tx.protect(&mut data).unwrap();
    // crc check
    assert_eq!(data[0], 0x1c);
    assert_eq!(data[1], 0xca);
    // counter check
    assert_eq!(data[2], 0x00);
    assert_eq!(profile_rx.check(&data).unwrap(), E2EStatus::StatusOk);
}

#[test]
fn test_profile5_offset_example() {
    let config = Profile5Config {
        offset: 8 * 8,
        data_length: 16 * 8,
        ..Default::default()
    };

    let mut profile_tx = Profile5::new(config.clone()).unwrap();
    let mut profile_rx = Profile5::new(config).unwrap();

    let mut data = vec![
        0x00, 0x00, 0x00, 0x00, 0x00, 0x00, 0x00, 0x00, 0x00, 0x00, 0x00, 0x00, 0x00, 0x00, 0x00,
        0x00,
    ];
    profile_tx.protect(&mut data).unwrap();
    // crc check
    assert_eq!(data[8], 0x28);
    assert_eq!(data[9], 0x91);
    // counter check
    assert_eq!(data[10], 0x00);
    assert_eq!(profile_rx.check(&data).unwrap(), E2EStatus::StatusOk);
}

#[test]
fn test_profile5_counter_wraparound() {
    let config = Profile5Config {
        offset: 8 * 8,
        data_length: 16 * 8,
        ..Default::default()
    };

    let mut profile_tx = Profile5::new(config.clone()).unwrap();
    let mut profile_rx = Profile5::new(config).unwrap();

    let mut data = vec![
        0x00, 0x00, 0x00, 0x00, 0x00, 0x00, 0x00, 0x00, 0x00, 0x00, 0x00, 0x00, 0x00, 0x00, 0x00,
        0x00,
    ];
    profile_tx.protect(&mut data).unwrap();
    // crc check
    assert_eq!(data[8], 0x28);
    assert_eq!(data[9], 0x91);
    // counter check
    assert_eq!(data[10], 0x00);
    assert_eq!(profile_rx.check(&data).unwrap(), E2EStatus::StatusOk);
    for i in 1u8..=0xFF {
        profile_tx.protect(&mut data).unwrap();
        // counter check
        assert_eq!(data[10], i);
        assert_eq!(profile_rx.check(&data).unwrap(), E2EStatus::StatusOk);
    }
    profile_tx.protect(&mut data).unwrap();
    // counter check
    assert_eq!(data[10], 0x00);
    assert_eq!(profile_rx.check(&data).unwrap(), E2EStatus::StatusOk);
}

#[test]
fn test_profile5_implicit_id_mismatch() {
    // the Data ID only enters the CRC, so a foreign ID surfaces as CrcError
    let mut profile_tx = Profile5::new(Profile5Config::default()).unwrap();
    let rx_config = Profile5Config {
        data_id: 0x4321,
        ..Default::default()
    };
    let mut profile_rx = Profile5::new(rx_config).unwrap();

    let mut data = vec![0x00, 0x00, 0x00];
    profile_tx.protect(&mut data).unwrap();
    assert_eq!(profile_rx.check(&data).unwrap(), E2EStatus::CrcError);
}

#[test]
fn test_profile5_length_errors() {
    let mut profile = Profile5::new(Profile5Config::default()).unwrap();
    let mut wrong = vec![0x00; 4];
    assert!(matches!(
        profile.protect(&mut wrong),
        Err(E2EError::InvalidDataFormat(_))
    ));
    assert!(matches!(
        profile.check(&wrong),
        Err(E2EError::InvalidDataFormat(_))
    ));
}

#[test]
fn test_profile5_invalid_configuration() {
    let config = Profile5Config {
        data_length: 16,
        ..Default::default()
    };
    assert!(matches!(
        Profile5::new(config),
        Err(E2EError::InvalidConfiguration(_))
    ));
    let config = Profile5Config {
        offset: 8,
        data_length: 24,
        ..Default::default()
    };
    assert!(matches!(
        Profile5::new(config),
        Err(E2EError::InvalidConfiguration(_))
    ));
}
