use autosar_e2e::profile7::Profile7Config;
use autosar_e2e::profile7m::Profile7m;
use autosar_e2e::{E2EProfile, E2EStatus};

#[test]
fn test_profile7m_basic_request_example() {
    let config = Profile7Config {
        min_data_length: 192,
        ..Default::default()
    };

    let mut profile_tx = Profile7m::new(config.clone()).unwrap();
    let mut profile_rx = Profile7m::new(config).unwrap();

    let mut data = vec![
        0x00, 0x00, 0x00, 0x00, 0x00, 0x00, 0x00, 0x00, 0x00, 0x00, 0x00, 0x00, 0x00, 0x00, 0x00,
        0x00, 0x00, 0x00, 0x00, 0x00, 0x00, 0x00, 0x00, 0x00, 0x00, 0x00, 0x00, 0x00,
    ];
    profile_tx.source_id = 0x00123456;
    profile_tx.message_result = 0;
    profile_tx.message_type = 0;
    profile_tx.protect(&mut data).unwrap();
    // CRC check
    assert_eq!(data[0], 0xae);
    assert_eq!(data[1], 0x96);
    assert_eq!(data[2], 0xa7);
    assert_eq!(data[3], 0xd0);
    assert_eq!(data[4], 0xa5);
    assert_eq!(data[5], 0x01);
    assert_eq!(data[6], 0x75);
    assert_eq!(data[7], 0x94);
    // length check
    assert_eq!(data[8], 0x00);
    assert_eq!(data[9], 0x00);
    assert_eq!(data[10], 0x00);
    assert_eq!(data[11], 0x1c);
    // counter check
    assert_eq!(data[12], 0x00);
    assert_eq!(data[13], 0x00);
    assert_eq!(data[14], 0x00);
    assert_eq!(data[15], 0x00);
    // data id check
    assert_eq!(data[16], 0x0a);
    assert_eq!(data[17], 0x0b);
    assert_eq!(data[18], 0x0c);
    assert_eq!(data[19], 0x0d);
    // message type/result/source id check
    assert_eq!(data[20], 0x00);
    assert_eq!(data[21], 0x12);
    assert_eq!(data[22], 0x34);
    assert_eq!(data[23], 0x56);
    profile_rx.source_id = 0x00123456;
    profile_rx.message_result = 0;
    profile_rx.message_type = 0;
    assert_eq!(profile_rx.check(&data).unwrap(), E2EStatus::StatusOk);
}

#[test]
fn test_profile7m_basic_response_example() {
    let config = Profile7Config {
        min_data_length: 192,
        ..Default::default()
    };

    let mut profile_tx = Profile7m::new(config.clone()).unwrap();
    let mut profile_rx = Profile7m::new(config).unwrap();

    let mut data = vec![
        0x00, 0x00, 0x00, 0x00, 0x00, 0x00, 0x00, 0x00, 0x00, 0x00, 0x00, 0x00, 0x00, 0x00, 0x00,
        0x00, 0x00, 0x00, 0x00, 0x00, 0x00, 0x00, 0x00, 0x00, 0x00, 0x00, 0x00, 0x00,
    ];
    profile_tx.source_id = 0x00123456;
    profile_tx.message_result = 0;
    profile_tx.message_type = 1;
    profile_tx.protect(&mut data).unwrap();
    // CRC check
    assert_eq!(data[0], 0xa6);
    assert_eq!(data[1], 0x2d);
    assert_eq!(data[2], 0x64);
    assert_eq!(data[3], 0x86);
    assert_eq!(data[4], 0xe8);
    assert_eq!(data[5], 0x3f);
    assert_eq!(data[6], 0x2c);
    assert_eq!(data[7], 0xaf);
    // length check
    assert_eq!(data[8], 0x00);
    assert_eq!(data[9], 0x00);
    assert_eq!(data[10], 0x00);
    assert_eq!(data[11], 0x1c);
    // counter check
    assert_eq!(data[12], 0x00);
    assert_eq!(data[13], 0x00);
    assert_eq!(data[14], 0x00);
    assert_eq!(data[15], 0x00);
    // data id check
    assert_eq!(data[16], 0x0a);
    assert_eq!(data[17], 0x0b);
    assert_eq!(data[18], 0x0c);
    assert_eq!(data[19], 0x0d);
    // message type/result/source id check
    assert_eq!(data[20], 0x40);
    assert_eq!(data[21], 0x12);
    assert_eq!(data[22], 0x34);
    assert_eq!(data[23], 0x56);
    profile_rx.source_id = 0x00123456;
    profile_rx.message_result = 0;
    profile_rx.message_type = 1;
    assert_eq!(profile_rx.check(&data).unwrap(), E2EStatus::StatusOk);
}

#[test]
fn test_profile7m_basic_error_example() {
    let config = Profile7Config {
        min_data_length: 192,
        ..Default::default()
    };

    let mut profile_tx = Profile7m::new(config.clone()).unwrap();
    let mut profile_rx = Profile7m::new(config).unwrap();

    let mut data = vec![
        0x00, 0x00, 0x00, 0x00, 0x00, 0x00, 0x00, 0x00, 0x00, 0x00, 0x00, 0x00, 0x00, 0x00, 0x00,
        0x00, 0x00, 0x00, 0x00, 0x00, 0x00, 0x00, 0x00, 0x00, 0x00, 0x00, 0x00, 0x00,
    ];
    profile_tx.source_id = 0x00123456;
    profile_tx.message_result = 1;
    profile_tx.message_type = 1;
    profile_tx.protect(&mut data).unwrap();
    // CRC check
    assert_eq!(data[0], 0x09);
    assert_eq!(data[1], 0xd9);
    assert_eq!(data[2], 0xe8);
    assert_eq!(data[3], 0x0c);
    assert_eq!(data[4], 0x47);
    assert_eq!(data[5], 0x34);
    assert_eq!(data[6], 0x32);
    assert_eq!(data[7], 0x02);
    // length check
    assert_eq!(data[8], 0x00);
    assert_eq!(data[9], 0x00);
    assert_eq!(data[10], 0x00);
    assert_eq!(data[11], 0x1c);
    // counter check
    assert_eq!(data[12], 0x00);
    assert_eq!(data[13], 0x00);
    assert_eq!(data[14], 0x00);
    assert_eq!(data[15], 0x00);
    // data id check
    assert_eq!(data[16], 0x0a);
    assert_eq!(data[17], 0x0b);
    assert_eq!(data[18], 0x0c);
    assert_eq!(data[19], 0x0d);
    // message type/result/source id check
    assert_eq!(data[20], 0x50);
    assert_eq!(data[21], 0x12);
    assert_eq!(data[22], 0x34);
    assert_eq!(data[23], 0x56);
    profile_rx.source_id = 0x00123456;
    profile_rx.message_result = 1;
    profile_rx.message_type = 1;
    assert_eq!(profile_rx.check(&data).unwrap(), E2EStatus::StatusOk);
}

#[test]
fn test_profile7m_source_id_mismatch() {
    let config = Profile7Config {
        min_data_length: 192,
        ..Default::default()
    };
    let mut profile_tx = Profile7m::new(config.clone()).unwrap();
    let mut profile_rx = Profile7m::new(config).unwrap();

    let mut data = vec![0x00; 28];
    profile_tx.source_id = 0x00123456;
    profile_tx.protect(&mut data).unwrap();
    profile_rx.source_id = 0x00654321;
    assert_eq!(profile_rx.check(&data).unwrap(), E2EStatus::SourceIdError);
}
