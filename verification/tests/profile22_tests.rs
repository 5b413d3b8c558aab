use autosar_e2e::profile22::{Profile22, Profile22Config};
use autosar_e2e::{E2EError, E2EProfile, E2EStatus};

#[test]
fn test_profile22_basic_example() {
    let mut profile_tx = Profile22::new(Profile22Config::default()).unwrap();
    let mut profile_rx = Profile22::new(Profile22Config::default()).unwrap();

    let mut data = vec![0x00, 0x00, 0x00, 0x00, 0x00, 0x00, 0x00, 0x00];
    profile_tx.protect(&mut data).unwrap();
    assert_eq!(data[0], 0x1b);
    assert_eq!(data[1], 0x01);
    assert_eq!(profile_rx.check(&data).unwrap(), E2EStatus::StatusOk);
    profile_tx.protect(&mut data).unwrap();
    assert_eq!(data[0], 0x98);
    assert_eq!(data[1], 0x02);
    assert_eq!(profile_rx.check(&data).unwrap(), E2EStatus::StatusOk);
    profile_tx.protect(&mut data).unwrap();
    assert_eq!(data[0], 0x31);
    assert_eq!(data[1], 0x03);
    assert_eq!(profile_rx.check(&data).unwrap(), E2EStatus::StatusOk);
    profile_tx.protect(&mut data).unwrap();
    assert_eq!(data[0], 0x0d);
    assert_eq!(data[1], 0x04);
    assert_eq!(profile_rx.check(&data).unwrap(), E2EStatus::StatusOk);
    profile_tx.protect(&mut data).unwrap();
    assert_eq!(data[0], 0x18);
    assert_eq!(data[1], 0x05);
    assert_eq!(profile_rx.check(&data).unwrap(), E2EStatus::StatusOk);
    profile_tx.protect(&mut data).unwrap();
    assert_eq!(data[0], 0x9b);
    assert_eq!(data[1], 0x06);
    assert_eq!(profile_rx.check(&data).unwrap(), E2EStatus::StatusOk);
    profile_tx.protect(&mut data).unwrap();
    assert_eq!(data[0], 0x65);
    assert_eq!(data[1], 0x07);
    assert_eq!(profile_rx.check(&data).unwrap(), E2EStatus::StatusOk);
    profile_tx.protect(&mut data).unwrap();
    assert_eq!(data[0], 0x08);
    assert_eq!(data[1], 0x08);
    assert_eq!(profile_rx.check(&data).unwrap(), E2EStatus::StatusOk);
    profile_tx.protect(&mut data).unwrap();
    assert_eq!(data[0], 0x1d);
    assert_eq!(data[1], 0x09);
    assert_eq!(profile_rx.check(&data).unwrap(), E2EStatus::StatusOk);
    profile_tx.protect(&mut data).unwrap();
    assert_eq!(data[0], 0x9e);
    assert_eq!(data[1], 0x0a);
    assert_eq!(profile_rx.check(&data).unwrap(), E2EStatus::StatusOk);
    profile_tx.protect(&mut data).unwrap();
    assert_eq!(data[0], 0x37);
    assert_eq!(data[1], 0x0b);
    assert_eq!(profile_rx.check(&data).unwrap(), E2EStatus::StatusOk);
    profile_tx.protect(&mut data).unwrap();
    assert_eq!(data[0], 0x0b);
    assert_eq!(data[1], 0x0c);
    assert_eq!(profile_rx.check(&data).unwrap(), E2EStatus::StatusOk);
    profile_tx.protect(&mut data).unwrap();
    assert_eq!(data[0], 0x1e);
    assert_eq!(data[1], 0x0d);
    assert_eq!(profile_rx.check(&data).unwrap(), E2EStatus::StatusOk);
    profile_tx.protect(&mut data).unwrap();
    assert_eq!(data[0], 0x9d);
    assert_eq!(data[1], 0x0e);
    assert_eq!(profile_rx.check(&data).unwrap(), E2EStatus::StatusOk);
    profile_tx.protect(&mut data).unwrap();
    assert_eq!(data[0], 0xcd);
    assert_eq!(data[1], 0x0f);
    assert_eq!(profile_rx.check(&data).unwrap(), E2EStatus::StatusOk);
    profile_tx.protect(&mut data).unwrap();
    assert_eq!(data[0], 0x0e);
    assert_eq!(data[1], 0x00);
    assert_eq!(profile_rx.check(&data).unwrap(), E2EStatus::StatusOk);
}

#[test]
fn test_profile22_offset_example() {
    let config = Profile22Config {
        offset: 64,
        data_length: 128,
        ..Default::default()
    };

    let mut profile_tx = Profile22::new(config.clone()).unwrap();
    let mut profile_rx = Profile22::new(config).unwrap();

    let mut data1 = vec![
        0x00, 0x00, 0x00, 0x00, 0x00, 0x00, 0x00, 0x00, 0x00, 0x00, 0x00, 0x00, 0x00, 0x00, 0x00,
        0x00,
    ];
    profile_tx.protect(&mut data1).unwrap();
    assert_eq!(data1[8], 0x14);
    assert_eq!(data1[9], 0x01);
    assert_eq!(profile_rx.check(&data1).unwrap(), E2EStatus::StatusOk);
}

#[test]
fn test_profile22_repeated_on_first_reception() {
    // a zero delta reports Repeated even before any successful reception
    let mut profile_tx = Profile22::new(Profile22Config::default()).unwrap();
    let mut profile_rx = Profile22::new(Profile22Config::default()).unwrap();

    profile_tx.counter = 15;  // the next protect writes counter 0
    let mut data = vec![0x00; 8];
    profile_tx.protect(&mut data).unwrap();
    assert_eq!(data[1], 0x00);
    assert_eq!(profile_rx.check(&data).unwrap(), E2EStatus::Repeated);
}

#[test]
fn test_profile22_tamper_detection() {
    let mut profile_tx = Profile22::new(Profile22Config::default()).unwrap();
    let mut profile_rx = Profile22::new(Profile22Config::default()).unwrap();

    let mut data = vec![0x00; 8];
    profile_tx.protect(&mut data).unwrap();
    for bit in 0..data.len() * 8 {
        if bit / 4 == 2 {
            // a flip inside the counter nibble also reselects the Data ID,
            // so the CRC comparison is not guaranteed to catch it
            continue;
        }
        let mut tampered = data.clone();
        tampered[bit / 8] ^= 1u8 << (bit % 8);
        assert_eq!(profile_rx.check(&tampered).unwrap(), E2EStatus::CrcError);
    }
}

#[test]
fn test_profile22_length_errors() {
    let mut profile = Profile22::new(Profile22Config::default()).unwrap();
    let mut wrong = vec![0x00; 7];
    assert!(matches!(
        profile.protect(&mut wrong),
        Err(E2EError::InvalidDataFormat(_))
    ));
    let config = Profile22Config {
        offset: 56,
        data_length: 64,
        ..Default::default()
    };
    let mut profile = Profile22::new(config).unwrap();
    let mut data = vec![0x00; 8];
    // the header does not fit behind the offset
    assert!(matches!(
        profile.protect(&mut data),
        Err(E2EError::InvalidDataFormat(_))
    ));
}

#[test]
fn test_profile22_invalid_configuration() {
    let config = Profile22Config {
        data_length: 65,
        ..Default::default()
    };
    assert!(matches!(
        Profile22::new(config),
        Err(E2EError::InvalidConfiguration(_))
    ));
    // the counter domain's maximum would make WrongSequence unreachable
    let config = Profile22Config {
        max_delta_counter: 15,
        ..Default::default()
    };
    assert!(matches!(
        Profile22::new(config),
        Err(E2EError::InvalidConfiguration(_))
    ));
    let config = Profile22Config {
        max_delta_counter: 14,
        ..Default::default()
    };
    assert!(Profile22::new(config).is_ok());
}
