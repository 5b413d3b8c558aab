use autosar_e2e::profile8::{Profile8, Profile8Config};
use autosar_e2e::{E2EError, E2EProfile, E2EStatus};

#[test]
fn profile8_test_profile4_basic_example() {
    let mut profile_tx = Profile8::new(Profile8Config::default()).unwrap();
    let mut profile_rx = Profile8::new(Profile8Config::default()).unwrap();

    let mut data = vec![
        0x00, 0x00, 0x00, 0x00, 0x00, 0x00, 0x00, 0x00, 0x00, 0x00, 0x00, 0x00, 0x00, 0x00, 0x00,
        0x00, 0x00, 0x00, 0x00, 0x00,
    ];
    profile_tx.protect(&mut data).unwrap();
    // CRC check
    assert_eq!(data[0], 0x41);
    assert_eq!(data[1], 0x49);
    assert_eq!(data[2], 0x4e);
    assert_eq!(data[3], 0x52);
    // length check
    assert_eq!(data[4], 0x00);
    assert_eq!(data[5], 0x00);
    assert_eq!(data[6], 0x00);
    assert_eq!(data[7], 0x14);
    // counter check
    assert_eq!(data[8], 0x00);
    assert_eq!(data[9], 0x00);
    assert_eq!(data[10], 0x00);
    assert_eq!(data[11], 0x00);
    // data id check
    assert_eq!(data[12], 0x0a);
    assert_eq!(data[13], 0x0b);
    assert_eq!(data[14], 0x0c);
    assert_eq!(data[15], 0x0d);
    assert_eq!(profile_rx.check(&data).unwrap(), E2EStatus::StatusOk);
}

#[test]
fn profile8_test_profile8_offset_example() {
    let config = Profile8Config {
        offset: 64,
        ..Default::default()
    };

    let mut profile_tx = Profile8::new(config.clone()).unwrap();
    let mut profile_rx = Profile8::new(config).unwrap();

    let mut data = vec![
        0x00, 0x00, 0x00, 0x00, 0x00, 0x00, 0x00, 0x00, 0x00, 0x00, 0x00, 0x00, 0x00, 0x00, 0x00,
        0x00, 0x00, 0x00, 0x00, 0x00, 0x00, 0x00, 0x00, 0x00, 0x00, 0x00, 0x00, 0x00,
    ];
    profile_tx.protect(&mut data).unwrap();
    // CRC check
    assert_eq!(data[8], 0xe8);
    assert_eq!(data[9], 0x91);
    assert_eq!(data[10], 0xe5);
    assert_eq!(data[11], 0xa8);
    // length check
    assert_eq!(data[12], 0x00);
    assert_eq!(data[13], 0x00);
    assert_eq!(data[14], 0x00);
    assert_eq!(data[15], 0x1c);
    // counter check
    assert_eq!(data[16], 0x00);
    assert_eq!(data[17], 0x00);
    assert_eq!(data[18], 0x00);
    assert_eq!(data[19], 0x00);
    // data id check
    assert_eq!(data[20], 0x0a);
    assert_eq!(data[21], 0x0b);
    assert_eq!(data[22], 0x0c);
    assert_eq!(data[23], 0x0d);
    assert_eq!(profile_rx.check(&data).unwrap(), E2EStatus::StatusOk);
}

#[test]
fn profile8_test_profile8_counter_wraparound() {
    let config = Profile8Config {
        offset: 64,
        ..Default::default()
    };

    let mut profile_tx = Profile8::new(config.clone()).unwrap();
    let mut profile_rx = Profile8::new(config).unwrap();

    let mut data = vec![
        0x00, 0x00, 0x00, 0x00, 0x00, 0x00, 0x00, 0x00, 0x00, 0x00, 0x00, 0x00, 0x00, 0x00, 0x00,
        0x00, 0x00, 0x00, 0x00, 0x00, 0x00, 0x00, 0x00, 0x00,
    ];
    profile_tx.protect(&mut data).unwrap();
    // counter check
    assert_eq!(data[16], 0x00);
    assert_eq!(data[17], 0x00);
    assert_eq!(data[18], 0x00);
    assert_eq!(data[19], 0x00);
    assert_eq!(profile_rx.check(&data).unwrap(), E2EStatus::StatusOk);
    profile_tx.protect(&mut data).unwrap();
    // counter check
    assert_eq!(data[16], 0x00);
    assert_eq!(data[17], 0x00);
    assert_eq!(data[18], 0x00);
    assert_eq!(data[19], 0x01);
    assert_eq!(profile_rx.check(&data).unwrap(), E2EStatus::StatusOk);
    profile_rx.counter = 0xFFFFFFFE;
    profile_tx.counter = 0xFFFFFFFF;
    profile_tx.protect(&mut data).unwrap();
    // counter check
    assert_eq!(data[16], 0xFF);
    assert_eq!(data[17], 0xFF);
    assert_eq!(data[18], 0xFF);
    assert_eq!(data[19], 0xFF);
    assert_eq!(profile_rx.check(&data).unwrap(), E2EStatus::StatusOk);
    profile_tx.protect(&mut data).unwrap();
    // counter check
    assert_eq!(data[16], 0x00);
    assert_eq!(data[17], 0x00);
    assert_eq!(data[18], 0x00);
    assert_eq!(data[19], 0x00);
    assert_eq!(profile_rx.check(&data).unwrap(), E2EStatus::StatusOk);
}

#[test]
fn test_profile8_data_id_mismatch() {
    let mut profile_tx = Profile8::new(Profile8Config::default()).unwrap();
    let rx_config = Profile8Config {
        data_id: 0x01020304,
        ..Default::default()
    };
    let mut profile_rx = Profile8::new(rx_config).unwrap();

    let mut data = vec![0x00; 20];
    profile_tx.protect(&mut data).unwrap();
    assert_eq!(profile_rx.check(&data).unwrap(), E2EStatus::DataIdError);
}

#[test]
fn test_profile8_length_errors() {
    let mut profile = Profile8::new(Profile8Config::default()).unwrap();
    let mut short = vec![0x00; 15];
    assert!(matches!(
        profile.protect(&mut short),
        Err(E2EError::InvalidDataFormat(_))
    ));
    assert!(matches!(
        profile.check(&short),
        Err(E2EError::InvalidDataFormat(_))
    ));
}

#[test]
fn test_profile8_invalid_configuration() {
    let config = Profile8Config {
        min_data_length: 64,
        ..Default::default()
    };
    assert!(matches!(
        Profile8::new(config),
        Err(E2EError::InvalidConfiguration(_))
    ));
    let config = Profile8Config {
        max_data_length: 64,
        ..Default::default()
    };
    assert!(matches!(
        Profile8::new(config),
        Err(E2EError::InvalidConfiguration(_))
    ));
}
