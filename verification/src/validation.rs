//! Configuration and buffer-length validators shared by the profiles.

use vstd::prelude::*;

use crate::{E2EError, E2EResult};

verus! {

/// Accepts a buffer length inside the inclusive range `[min, max]`.
pub fn validate_data_length_range(len: u16, min: u16, max: u16) -> (r: E2EResult<()>)
    ensures
        r is Ok <==> min <= len && len <= max,
        r matches Err(e) ==> e matches E2EError::InvalidDataFormat(_),
{
    if len < min || len > max {
        return Err(E2EError::InvalidDataFormat("buffer length outside the configured range"));
    }
    Ok(())
}

/// Accepts a buffer length inside the inclusive range `[min, max]`.
pub fn validate_data_length_range_u32(len: u32, min: u32, max: u32) -> (r: E2EResult<()>)
    ensures
        r is Ok <==> min <= len && len <= max,
        r matches Err(e) ==> e matches E2EError::InvalidDataFormat(_),
{
    if len < min || len > max {
        return Err(E2EError::InvalidDataFormat("buffer length outside the configured range"));
    }
    Ok(())
}

/// Accepts only a buffer length equal to `expected`.
pub fn validate_data_length_exact(len: u16, expected: u16) -> (r: E2EResult<()>)
    ensures
        r is Ok <==> len == expected,
        r matches Err(e) ==> e matches E2EError::InvalidDataFormat(_),
{
    if len != expected {
        return Err(E2EError::InvalidDataFormat("buffer length differs from the configured length"));
    }
    Ok(())
}

/// Accepts a configured data length (in bits) inside `[min_bits, max_bits]`.
pub fn validate_min_data_length(data_length: u16, min_bits: u16, max_bits: u16) -> (r: E2EResult<()>)
    ensures
        r is Ok <==> min_bits <= data_length && data_length <= max_bits,
        r matches Err(e) ==> e matches E2EError::InvalidConfiguration(_),
{
    if data_length < min_bits || data_length > max_bits {
        return Err(E2EError::InvalidConfiguration("data length outside the profile's range"));
    }
    Ok(())
}

/// Accepts a configured minimum data length (in bits) of at least `min_bits`.
pub fn validate_min_data_length_u32(data_length: u32, min_bits: u32) -> (r: E2EResult<()>)
    ensures
        r is Ok <==> data_length >= min_bits,
        r matches Err(e) ==> e matches E2EError::InvalidConfiguration(_),
{
    if data_length < min_bits {
        return Err(E2EError::InvalidConfiguration("minimum data length below the profile's floor"));
    }
    Ok(())
}

/// Accepts a configured maximum data length of at least the minimum.
pub fn validate_max_data_length_u32(max_data_length: u32, min_data_length: u32) -> (r: E2EResult<()>)
    ensures
        r is Ok <==> max_data_length >= min_data_length,
        r matches Err(e) ==> e matches E2EError::InvalidConfiguration(_),
{
    if max_data_length < min_data_length {
        return Err(E2EError::InvalidConfiguration(
            "maximum data length below the minimum data length",
        ));
    }
    Ok(())
}

/// Accepts a maximum counter delta strictly between 0 and the counter's
/// largest value.
pub fn validate_counter_config_u8(max_delta_counter: u8) -> (r: E2EResult<()>)
    ensures
        r is Ok <==> 0 < max_delta_counter && max_delta_counter < 0xFF,
        r matches Err(e) ==> e matches E2EError::InvalidConfiguration(_),
{
    if max_delta_counter == 0 || max_delta_counter == 0xFF {
        return Err(E2EError::InvalidConfiguration("max delta counter outside the counter domain"));
    }
    Ok(())
}

/// Accepts a maximum counter delta strictly between 0 and the counter's
/// largest value.
pub fn validate_counter_config_u16(max_delta_counter: u16) -> (r: E2EResult<()>)
    ensures
        r is Ok <==> 0 < max_delta_counter && max_delta_counter < 0xFFFF,
        r matches Err(e) ==> e matches E2EError::InvalidConfiguration(_),
{
    if max_delta_counter == 0 || max_delta_counter == 0xFFFF {
        return Err(E2EError::InvalidConfiguration("max delta counter outside the counter domain"));
    }
    Ok(())
}

/// Accepts a maximum counter delta strictly between 0 and the counter's
/// largest value.
pub fn validate_counter_config_u32(max_delta_counter: u32) -> (r: E2EResult<()>)
    ensures
        r is Ok <==> 0 < max_delta_counter && max_delta_counter < 0xFFFFFFFF,
        r matches Err(e) ==> e matches E2EError::InvalidConfiguration(_),
{
    if max_delta_counter == 0 || max_delta_counter == 0xFFFFFFFF {
        return Err(E2EError::InvalidConfiguration("max delta counter outside the counter domain"));
    }
    Ok(())
}

/// Accepts a header bit offset that leaves room for a header of
/// `header_size` bits inside a buffer of `data_length` bits.
pub fn validate_offset_within_data(offset: u16, data_length: u16, header_size: u16) -> (r:
    E2EResult<()>)
    ensures
        r is Ok <==> data_length >= header_size && offset <= data_length - header_size,
        r matches Err(e) ==> e matches E2EError::InvalidConfiguration(_),
{
    if data_length < header_size || offset > data_length - header_size {
        return Err(E2EError::InvalidConfiguration("header offset does not fit inside the data"));
    }
    Ok(())
}

} // verus!
