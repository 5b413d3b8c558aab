use autosar_e2e::validation::{
    validate_counter_config_u16, validate_counter_config_u32, validate_counter_config_u8,
    validate_data_length_exact, validate_data_length_range, validate_data_length_range_u32,
    validate_max_data_length_u32, validate_min_data_length, validate_min_data_length_u32,
    validate_offset_within_data,
};
use autosar_e2e::E2EError;

#[test]
fn test_validate_data_length_range() {
    assert!(validate_data_length_range(12, 12, 4096).is_ok());
    assert!(validate_data_length_range(4096, 12, 4096).is_ok());
    assert!(matches!(
        validate_data_length_range(11, 12, 4096),
        Err(E2EError::InvalidDataFormat(_))
    ));
    assert!(matches!(
        validate_data_length_range(4097, 12, 4096),
        Err(E2EError::InvalidDataFormat(_))
    ));
    assert!(validate_data_length_range_u32(100, 16, 536870911).is_ok());
    assert!(validate_data_length_range_u32(15, 16, 536870911).is_err());
}

#[test]
fn test_validate_data_length_exact() {
    assert!(validate_data_length_exact(8, 8).is_ok());
    assert!(matches!(
        validate_data_length_exact(9, 8),
        Err(E2EError::InvalidDataFormat(_))
    ));
}

#[test]
fn test_validate_configured_lengths() {
    assert!(validate_min_data_length(96, 96, 32768).is_ok());
    assert!(matches!(
        validate_min_data_length(95, 96, 32768),
        Err(E2EError::InvalidConfiguration(_))
    ));
    assert!(validate_min_data_length_u32(128, 128).is_ok());
    assert!(validate_min_data_length_u32(127, 128).is_err());
    assert!(validate_max_data_length_u32(256, 128).is_ok());
    assert!(matches!(
        validate_max_data_length_u32(127, 128),
        Err(E2EError::InvalidConfiguration(_))
    ));
}

#[test]
fn test_validate_counter_config() {
    assert!(validate_counter_config_u8(1).is_ok());
    assert!(validate_counter_config_u8(0xFE).is_ok());
    assert!(validate_counter_config_u8(0).is_err());
    assert!(validate_counter_config_u8(0xFF).is_err());
    assert!(validate_counter_config_u16(1).is_ok());
    assert!(validate_counter_config_u16(0xFFFF).is_err());
    assert!(validate_counter_config_u32(1).is_ok());
    assert!(validate_counter_config_u32(0xFFFFFFFF).is_err());
}

#[test]
fn test_validate_offset_within_data() {
    assert!(validate_offset_within_data(0, 64, 24).is_ok());
    assert!(validate_offset_within_data(40, 64, 24).is_ok());
    assert!(matches!(
        validate_offset_within_data(41, 64, 24),
        Err(E2EError::InvalidConfiguration(_))
    ));
    assert!(validate_offset_within_data(0, 16, 24).is_err());
}
