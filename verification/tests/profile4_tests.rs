use autosar_e2e::profile4::{Profile4, Profile4Config};
use autosar_e2e::{E2EError, E2EProfile, E2EStatus};

#[test]
fn profile4_test_profile4_basic_example() {
    let mut profile_tx = Profile4::new(Profile4Config::default()).unwrap();
    let mut profile_rx = Profile4::new(Profile4Config::default()).unwrap();

    let mut data = vec![
        0x00, 0x00, 0x00, 0x00, 0x00, 0x00, 0x00, 0x00, 0x00, 0x00, 0x00, 0x00, 0x00, 0x00, 0x00,
        0x00,
    ];
    profile_tx.protect(&mut data).unwrap();
    // length check
    assert_eq!(data[0], 0x00);
    assert_eq!(data[1], 0x10);
    // counter check
    assert_eq!(data[2], 0x00);
    assert_eq!(data[3], 0x00);
    // data id check
    assert_eq!(data[4], 0x0a);
    assert_eq!(data[5], 0x0b);
    assert_eq!(data[6], 0x0c);
    assert_eq!(data[7], 0x0d);
    // crc check
    assert_eq!(data[8], 0x86);
    assert_eq!(data[9], 0x2b);
    assert_eq!(data[10], 0x05);
    assert_eq!(data[11], 0x56);
    // data check
    assert_eq!(data[12], 0x00);
    assert_eq!(data[13], 0x00);
    assert_eq!(data[14], 0x00);
    assert_eq!(data[15], 0x00);
    assert_eq!(profile_rx.check(&data).unwrap(), E2EStatus::StatusOk);
}

#[test]
fn test_profile4_offset_example() {
    let config = Profile4Config {
        offset: 64,
        ..Default::default()
    };

    let mut profile_tx = Profile4::new(config.clone()).unwrap();
    let mut profile_rx = Profile4::new(config).unwrap();

    let mut data = vec![
        0x00, 0x00, 0x00, 0x00, 0x00, 0x00, 0x00, 0x00, 0x00, 0x00, 0x00, 0x00, 0x00, 0x00, 0x00,
        0x00, 0x00, 0x00, 0x00, 0x00, 0x00, 0x00, 0x00, 0x00,
    ];
    profile_tx.protect(&mut data).unwrap();
    // length check
    assert_eq!(data[8], 0x00);
    assert_eq!(data[9], 0x18);
    // counter check
    assert_eq!(data[10], 0x00);
    assert_eq!(data[11], 0x00);
    // data id check
    assert_eq!(data[12], 0x0a);
    assert_eq!(data[13], 0x0b);
    assert_eq!(data[14], 0x0c);
    assert_eq!(data[15], 0x0d);
    // crc check
    assert_eq!(data[16], 0x69);
    assert_eq!(data[17], 0xd7);
    assert_eq!(data[18], 0x50);
    assert_eq!(data[19], 0x2e);
    assert_eq!(profile_rx.check(&data).unwrap(), E2EStatus::StatusOk);
}

#[test]
fn test_profile4_counter_wraparound() {
    let config = Profile4Config {
        offset: 64,
        ..Default::default()
    };

    let mut profile_tx = Profile4::new(config.clone()).unwrap();
    let mut profile_rx = Profile4::new(config).unwrap();

    let mut data = vec![
        0x00, 0x00, 0x00, 0x00, 0x00, 0x00, 0x00, 0x00, 0x00, 0x00, 0x00, 0x00, 0x00, 0x00, 0x00,
        0x00, 0x00, 0x00, 0x00, 0x00, 0x00, 0x00, 0x00, 0x00,
    ];
    profile_tx.protect(&mut data).unwrap();
    // counter check
    assert_eq!(data[10], 0x00);
    assert_eq!(data[11], 0x00);
    assert_eq!(profile_rx.check(&data).unwrap(), E2EStatus::StatusOk);
    for i in 1u16..=0xFFFF {
        profile_tx.protect(&mut data).unwrap();
        // counter check
        assert_eq!(data[10], i.to_be_bytes()[0]);
        assert_eq!(data[11], i.to_be_bytes()[1]);
        assert_eq!(profile_rx.check(&data).unwrap(), E2EStatus::StatusOk);
    }
    profile_tx.protect(&mut data).unwrap();
    // counter check
    assert_eq!(data[10], 0x00);
    assert_eq!(data[11], 0x00);
    assert_eq!(profile_rx.check(&data).unwrap(), E2EStatus::StatusOk);
}

#[test]
fn test_profile4_tamper_detection() {
    let mut profile_tx = Profile4::new(Profile4Config::default()).unwrap();
    let mut profile_rx = Profile4::new(Profile4Config::default()).unwrap();

    let mut data = vec![0x00; 16];
    data[13] = 0x5a;
    profile_tx.protect(&mut data).unwrap();
    for bit in 0..data.len() * 8 {
        let mut tampered = data.clone();
        tampered[bit / 8] ^= 1u8 << (bit % 8);
        assert_eq!(profile_rx.check(&tampered).unwrap(), E2EStatus::CrcError);
    }
    assert_eq!(profile_rx.check(&data).unwrap(), E2EStatus::StatusOk);
}

#[test]
fn test_profile4_data_id_mismatch() {
    let mut profile_tx = Profile4::new(Profile4Config::default()).unwrap();
    let rx_config = Profile4Config {
        data_id: 0x01020304,
        ..Default::default()
    };
    let mut profile_rx = Profile4::new(rx_config).unwrap();

    let mut data = vec![0x00; 16];
    profile_tx.protect(&mut data).unwrap();
    assert_eq!(profile_rx.check(&data).unwrap(), E2EStatus::DataIdError);
}

#[test]
fn test_profile4_sequence_classification() {
    let config = Profile4Config {
        max_delta_counter: 3,
        ..Default::default()
    };
    let mut profile_tx = Profile4::new(config.clone()).unwrap();
    let mut profile_rx = Profile4::new(config.clone()).unwrap();

    let mut data = vec![0x00; 16];
    profile_tx.protect(&mut data).unwrap();
    assert_eq!(profile_rx.check(&data).unwrap(), E2EStatus::StatusOk);
    // a repeated frame after initialization
    assert_eq!(profile_rx.check(&data).unwrap(), E2EStatus::Repeated);
    // two frames lost: delta 3 is still within max_delta_counter
    profile_tx.protect(&mut data).unwrap();
    profile_tx.protect(&mut data).unwrap();
    profile_tx.protect(&mut data).unwrap();
    assert_eq!(profile_rx.check(&data).unwrap(), E2EStatus::OkSomeLost);
    // four frames lost: delta 4 exceeds max_delta_counter
    for _ in 0..4 {
        profile_tx.protect(&mut data).unwrap();
    }
    assert_eq!(profile_rx.check(&data).unwrap(), E2EStatus::WrongSequence);
}

#[test]
fn test_profile4_length_errors() {
    let mut profile = Profile4::new(Profile4Config::default()).unwrap();
    let mut short = vec![0x00; 11];
    assert!(matches!(
        profile.protect(&mut short),
        Err(E2EError::InvalidDataFormat(_))
    ));
    assert!(matches!(
        profile.check(&short),
        Err(E2EError::InvalidDataFormat(_))
    ));
    let mut long = vec![0x00; 4097];
    assert!(matches!(
        profile.protect(&mut long),
        Err(E2EError::InvalidDataFormat(_))
    ));
}

#[test]
fn test_profile4_data_length_error() {
    // a buffer whose CRC is consistent but whose length field lies about
    // the buffer's size
    let mut data = vec![0x00u8; 16];
    data[0] = 0x00;
    data[1] = 0x11; // length field claims 17 bytes
    data[4] = 0x0a;
    data[5] = 0x0b;
    data[6] = 0x0c;
    data[7] = 0x0d;
    let crc = crc::Crc::<u32>::new(&crc::CRC_32_AUTOSAR);
    let mut digest = crc.digest();
    digest.update(&data[0..8]);
    digest.update(&data[12..]);
    let value = digest.finalize();
    data[8..12].copy_from_slice(&value.to_be_bytes());

    let mut profile_rx = Profile4::new(Profile4Config::default()).unwrap();
    assert_eq!(profile_rx.check(&data).unwrap(), E2EStatus::DataLengthError);
}

#[test]
fn test_profile4_invalid_configuration() {
    let config = Profile4Config {
        max_delta_counter: 0,
        ..Default::default()
    };
    assert!(matches!(
        Profile4::new(config),
        Err(E2EError::InvalidConfiguration(_))
    ));
    let config = Profile4Config {
        min_data_length: 8,
        ..Default::default()
    };
    assert!(matches!(
        Profile4::new(config),
        Err(E2EError::InvalidConfiguration(_))
    ));
    // the header offset must be byte-aligned
    let config = Profile4Config {
        offset: 4,
        ..Default::default()
    };
    assert!(matches!(
        Profile4::new(config),
        Err(E2EError::InvalidConfiguration(_))
    ));
}
