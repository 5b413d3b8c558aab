//! E2E profile 8.
//!
//! Protects large data packets with:
//! - a 32-bit AUTOSAR CRC for data integrity,
//! - a 32-bit counter for sequence checking,
//! - a 32-bit explicit Data ID against masquerading,
//! - a 32-bit length field for dynamic-size data.
//!
//! Header layout at the configured byte offset:
//! `CRC(4B) | LENGTH(4B) | COUNTER(4B) | ID(4B)`, all fields big-endian.
//! The CRC covers every buffer byte except the CRC field itself.

use vstd::prelude::*;
use vstd::slice::slice_subrange;

use crate::counter::{spec_classify, spec_delta, Counter32, CounterOps};
use crate::crc_ops::{compute_crc32_autosar, crc32_autosar_of};
use crate::field_ops::{
    be32_at, calculate_offset_bytes_u32, read_be_u32_at, unchanged_outside, write_be_u32_at,
};
use crate::validation;
use crate::{E2EError, E2EProfile, E2EResult, E2EStatus};

verus! {

/// Configuration for E2E profile 8.
#[derive(Debug, Clone, Copy)]
pub struct Profile8Config {
    /// Data ID, written into the header and checked on reception.
    pub data_id: u32,
    /// Bit offset of the first bit of the E2E header from the beginning of
    /// the data; shall be a multiple of 8.
    pub offset: u32,
    /// Minimal length of the data, in bits.
    pub min_data_length: u32,
    /// Maximal length of the data, in bits.
    pub max_data_length: u32,
    /// Maximum allowed delta between consecutive counters.
    pub max_delta_counter: u32,
}

impl Default for Profile8Config {
    /// The profile's default parameter set.
    fn default() -> (c: Self)
        ensures
            c == (Profile8Config {
                data_id: 0x0a0b0c0d,
                offset: 0,
                min_data_length: 128,
                max_data_length: 4294967295,
                max_delta_counter: 1,
            }),
    {
        Profile8Config {
            data_id: 0x0a0b0c0d,
            offset: 0x00000000,
            min_data_length: 128,  // 16 bytes
            max_data_length: 4294967295,  // u32 maximum
            max_delta_counter: 1,
        }
    }
}

/// Fields gathered from one received buffer before classification.
pub struct Profile8Check {
    /// Length field read from the buffer.
    pub rx_data_length: u32,
    /// Counter field read from the buffer.
    pub rx_counter: u32,
    /// Data ID field read from the buffer.
    pub rx_data_id: u32,
    /// CRC field read from the buffer.
    pub rx_crc: u32,
    /// CRC recomputed over the received buffer.
    pub calculated_crc: u32,
    /// Actual length of the received buffer.
    pub data_len: u32,
}

/// E2E profile 8 engine: configuration plus mutable sequence state.
#[derive(Clone)]
pub struct Profile8 {
    /// Immutable configuration.
    pub config: Profile8Config,
    /// Last sent counter (sender role) or last accepted counter (receiver role).
    pub counter: u32,
    /// Whether a reception has succeeded since construction.
    pub initialized: bool,
}

/// Byte offset of the header.
pub open spec fn spec_header_offset(cfg: Profile8Config) -> int {
    cfg.offset as int / 8
}

/// The configurations that construction accepts.
pub open spec fn spec_config_valid(cfg: Profile8Config) -> bool {
    &&& 128 <= cfg.min_data_length
    &&& cfg.min_data_length <= cfg.max_data_length
    &&& 0 < cfg.max_delta_counter < 0xFFFFFFFF
    &&& cfg.offset % 8 == 0
}

/// The buffer lengths (in bytes) that `protect` and `check` accept.
pub open spec fn spec_length_ok(cfg: Profile8Config, len: int) -> bool {
    cfg.min_data_length as int / 8 <= len <= cfg.max_data_length as int / 8
}

/// Whether the 16-byte header fits into a buffer of `len` bytes.
pub open spec fn spec_header_fits(cfg: Profile8Config, len: int) -> bool {
    spec_header_offset(cfg) + 16 <= len
}

/// The bytes covered by the CRC: the whole buffer except the CRC field.
pub open spec fn spec_crc_input(s: Seq<u8>, off: int) -> Seq<u8> {
    s.subrange(0, off) + s.subrange(off + 4, s.len() as int)
}

/// A buffer as `protect` leaves it behind, for an engine with counter
/// `counter`: header fields stamped and the CRC consistent.
pub open spec fn spec_protected(cfg: Profile8Config, counter: u32, s: Seq<u8>) -> bool {
    let off = spec_header_offset(cfg);
    &&& spec_length_ok(cfg, s.len() as int)
    &&& spec_header_fits(cfg, s.len() as int)
    &&& be32_at(s, off) == crc32_autosar_of(spec_crc_input(s, off))
    &&& be32_at(s, off + 4) == s.len()
    &&& be32_at(s, off + 8) == counter
    &&& be32_at(s, off + 12) == cfg.data_id
}

/// The status `check` reports for a buffer of accepted length.
pub open spec fn spec_check_status(pre: Profile8, s: Seq<u8>) -> E2EStatus {
    let off = spec_header_offset(pre.config);
    if crc32_autosar_of(spec_crc_input(s, off)) != be32_at(s, off) {
        E2EStatus::CrcError
    } else if be32_at(s, off + 12) != pre.config.data_id {
        E2EStatus::DataIdError
    } else if be32_at(s, off + 4) != s.len() {
        E2EStatus::DataLengthError
    } else {
        spec_classify(
            spec_delta(pre.counter as int, be32_at(s, off + 8), 0x100000000),
            pre.config.max_delta_counter as int,
            pre.initialized,
        )
    }
}

/// The engine state `check` leaves behind: resynchronized to the received
/// counter exactly when CRC, ID and length all matched.
pub open spec fn spec_check_state(pre: Profile8, s: Seq<u8>) -> Profile8 {
    let off = spec_header_offset(pre.config);
    let status = spec_check_status(pre, s);
    if status == E2EStatus::CrcError || status == E2EStatus::DataIdError || status
        == E2EStatus::DataLengthError {
        pre
    } else {
        Profile8 {
            counter: be32_at(s, off + 8) as u32,
            initialized: pre.initialized || status == E2EStatus::StatusOk || status
                == E2EStatus::OkSomeLost,
            config: pre.config,
        }
    }
}

impl Profile8 {
    /// Accepts exactly the valid configurations.
    pub fn validate_config(config: &Profile8Config) -> (r: E2EResult<()>)
        ensures
            r is Ok <==> spec_config_valid(*config),
            r matches Err(e) ==> e matches E2EError::InvalidConfiguration(_),
    {
        match validation::validate_min_data_length_u32(config.min_data_length, 16 * 8) {
            Err(e) => {
                return Err(e);
            },
            Ok(_) => {},
        }
        match validation::validate_max_data_length_u32(
            config.max_data_length,
            config.min_data_length,
        ) {
            Err(e) => {
                return Err(e);
            },
            Ok(_) => {},
        }
        match validation::validate_counter_config_u32(config.max_delta_counter) {
            Err(e) => {
                return Err(e);
            },
            Ok(_) => {},
        }
        if config.offset % 8 != 0 {
            return Err(E2EError::InvalidConfiguration(
                "header offset shall be a multiple of 8",
            ));
        }
        Ok(())
    }

    /// Accepts exactly the buffer lengths inside the configured range.
    pub fn validate_length(&self, len: usize) -> (r: E2EResult<()>)
        ensures
            r is Ok <==> spec_length_ok(self.config, len as int),
            r matches Err(e) ==> e matches E2EError::InvalidDataFormat(_),
    {
        let min_bytes = (self.config.min_data_length / 8) as usize;
        let max_bytes = (self.config.max_data_length / 8) as usize;
        if len < min_bytes || max_bytes < len {
            return Err(E2EError::InvalidDataFormat("buffer length outside the configured range"));
        }
        Ok(())
    }

    /// Writes the buffer's length into the 32-bit length field.
    pub fn write_data_length(&self, data: &mut Vec<u8>)
        requires
            spec_header_fits(self.config, old(data)@.len() as int),
            old(data)@.len() <= 0xFFFFFFFF,
        ensures
            unchanged_outside(
                old(data)@,
                final(data)@,
                spec_header_offset(self.config) + 4,
                spec_header_offset(self.config) + 8,
            ),
            be32_at(final(data)@, spec_header_offset(self.config) + 4) == old(data)@.len(),
    {
        let offset = calculate_offset_bytes_u32(self.config.offset);
        let len32 = data.len() as u32;
        write_be_u32_at(data, offset + 4, len32);
    }

    /// Writes the engine's counter into the 32-bit counter field.
    pub fn write_counter(&self, data: &mut Vec<u8>)
        requires
            spec_header_fits(self.config, old(data)@.len() as int),
        ensures
            unchanged_outside(
                old(data)@,
                final(data)@,
                spec_header_offset(self.config) + 8,
                spec_header_offset(self.config) + 12,
            ),
            be32_at(final(data)@, spec_header_offset(self.config) + 8) == self.counter,
    {
        let offset = calculate_offset_bytes_u32(self.config.offset);
        write_be_u32_at(data, offset + 8, self.counter);
    }

    /// Writes the configured Data ID into the 32-bit ID field.
    pub fn write_data_id(&self, data: &mut Vec<u8>)
        requires
            spec_header_fits(self.config, old(data)@.len() as int),
        ensures
            unchanged_outside(
                old(data)@,
                final(data)@,
                spec_header_offset(self.config) + 12,
                spec_header_offset(self.config) + 16,
            ),
            be32_at(final(data)@, spec_header_offset(self.config) + 12) == self.config.data_id,
    {
        let offset = calculate_offset_bytes_u32(self.config.offset);
        write_be_u32_at(data, offset + 12, self.config.data_id);
    }

    /// Computes the CRC over the buffer with the CRC field excluded.
    pub fn compute_crc(&self, data: &[u8]) -> (r: u32)
        requires
            spec_header_fits(self.config, data@.len() as int),
        ensures
            r == crc32_autosar_of(spec_crc_input(data@, spec_header_offset(self.config))),
    {
        let offset = calculate_offset_bytes_u32(self.config.offset);
        let n = data.len();
        let before = slice_subrange(data, 0, offset);
        let after = slice_subrange(data, offset + 4, n);
        compute_crc32_autosar(before, after)
    }

    /// Writes a computed CRC into the 32-bit CRC field.
    pub fn write_crc(&self, calculated_crc: u32, data: &mut Vec<u8>)
        requires
            spec_header_fits(self.config, old(data)@.len() as int),
        ensures
            unchanged_outside(
                old(data)@,
                final(data)@,
                spec_header_offset(self.config),
                spec_header_offset(self.config) + 4,
            ),
            be32_at(final(data)@, spec_header_offset(self.config)) == calculated_crc,
    {
        let offset = calculate_offset_bytes_u32(self.config.offset);
        write_be_u32_at(data, offset, calculated_crc);
    }

    /// Advances the counter one step, wrapping at the domain's end.
    pub fn increment_counter(&mut self)
        ensures
            final(self).counter == (old(self).counter + 1) % 0x100000000,
            final(self).config == old(self).config,
            final(self).initialized == old(self).initialized,
    {
        self.counter = Counter32::increment_counter(self.counter);
    }

    /// Reads the 32-bit length field.
    pub fn read_data_length(&self, data: &[u8]) -> (r: u32)
        requires
            spec_header_fits(self.config, data@.len() as int),
        ensures
            r == be32_at(data@, spec_header_offset(self.config) + 4),
    {
        let offset = calculate_offset_bytes_u32(self.config.offset);
        read_be_u32_at(data, offset + 4)
    }

    /// Reads the 32-bit counter field.
    pub fn read_counter(&self, data: &[u8]) -> (r: u32)
        requires
            spec_header_fits(self.config, data@.len() as int),
        ensures
            r == be32_at(data@, spec_header_offset(self.config) + 8),
    {
        let offset = calculate_offset_bytes_u32(self.config.offset);
        read_be_u32_at(data, offset + 8)
    }

    /// Reads the 32-bit Data ID field.
    pub fn read_data_id(&self, data: &[u8]) -> (r: u32)
        requires
            spec_header_fits(self.config, data@.len() as int),
        ensures
            r == be32_at(data@, spec_header_offset(self.config) + 12),
    {
        let offset = calculate_offset_bytes_u32(self.config.offset);
        read_be_u32_at(data, offset + 12)
    }

    /// Reads the 32-bit CRC field.
    pub fn read_crc(&self, data: &[u8]) -> (r: u32)
        requires
            spec_header_fits(self.config, data@.len() as int),
        ensures
            r == be32_at(data@, spec_header_offset(self.config)),
    {
        let offset = calculate_offset_bytes_u32(self.config.offset);
        read_be_u32_at(data, offset)
    }

    /// Runs the receive-side checks in order: CRC, Data ID, length field,
    /// then counter classification; resynchronizes the counter exactly when
    /// the first three pass.
    pub fn do_checks(&mut self, check_items: Profile8Check) -> (status: E2EStatus)
        requires
            old(self).wf(),
        ensures
            ({
                let pre = *old(self);
                if check_items.calculated_crc != check_items.rx_crc {
                    status == E2EStatus::CrcError && *final(self) == pre
                } else if check_items.rx_data_id != pre.config.data_id {
                    status == E2EStatus::DataIdError && *final(self) == pre
                } else if check_items.rx_data_length != check_items.data_len {
                    status == E2EStatus::DataLengthError && *final(self) == pre
                } else {
                    status == spec_classify(
                        spec_delta(pre.counter as int, check_items.rx_counter as int, 0x100000000),
                        pre.config.max_delta_counter as int,
                        pre.initialized,
                    ) && *final(self) == (Profile8 { counter: check_items.rx_counter, ..pre })
                }
            }),
    {
        if check_items.calculated_crc != check_items.rx_crc {
            return E2EStatus::CrcError;
        }
        if check_items.rx_data_id != self.config.data_id {
            return E2EStatus::DataIdError;
        }
        if check_items.rx_data_length != check_items.data_len {
            return E2EStatus::DataLengthError;
        }
        let status = self.validate_counter(check_items.rx_counter);
        self.counter = check_items.rx_counter;
        status
    }

    /// Classifies one received counter against the engine's state.
    pub fn validate_counter(&self, rx_counter: u32) -> (status: E2EStatus)
        ensures
            status == spec_classify(
                spec_delta(self.counter as int, rx_counter as int, 0x100000000),
                self.config.max_delta_counter as int,
                self.initialized,
            ),
    {
        Counter32::validate_counter(
            self.counter,
            rx_counter,
            self.config.max_delta_counter,
            self.initialized,
        )
    }
}

impl E2EProfile for Profile8 {
    type Config = Profile8Config;

    open spec fn wf(&self) -> bool {
        spec_config_valid(self.config)
    }

    open spec fn protect_req(&self, data: Seq<u8>) -> bool {
        spec_length_ok(self.config, data.len() as int) ==> spec_header_fits(
            self.config,
            data.len() as int,
        )
    }

    open spec fn check_req(&self, data: Seq<u8>) -> bool {
        spec_length_ok(self.config, data.len() as int) ==> spec_header_fits(
            self.config,
            data.len() as int,
        )
    }

    open spec fn new_ens(config: Profile8Config, r: E2EResult<Profile8>) -> bool {
        match r {
            Ok(p) => spec_config_valid(config) && p == (Profile8 {
                config,
                counter: 0,
                initialized: false,
            }),
            Err(e) => !spec_config_valid(config) && e matches E2EError::InvalidConfiguration(_),
        }
    }

    open spec fn protect_ens(
        pre: Profile8,
        post: Profile8,
        data_pre: Seq<u8>,
        data_post: Seq<u8>,
        r: E2EResult<()>,
    ) -> bool {
        match r {
            Ok(_) => {
                let off = spec_header_offset(pre.config);
                &&& spec_length_ok(pre.config, data_pre.len() as int)
                &&& unchanged_outside(data_pre, data_post, off, off + 16)
                &&& spec_protected(pre.config, pre.counter, data_post)
                &&& post == (Profile8 {
                    counter: ((pre.counter + 1) % 0x100000000) as u32,
                    ..pre
                })
            },
            Err(e) => {
                &&& !spec_length_ok(pre.config, data_pre.len() as int)
                &&& data_post == data_pre
                &&& post == pre
                &&& e matches E2EError::InvalidDataFormat(_)
            },
        }
    }

    open spec fn check_ens(
        pre: Profile8,
        post: Profile8,
        data: Seq<u8>,
        r: E2EResult<E2EStatus>,
    ) -> bool {
        match r {
            Ok(status) => {
                &&& spec_length_ok(pre.config, data.len() as int)
                &&& status == spec_check_status(pre, data)
                &&& post == spec_check_state(pre, data)
            },
            Err(e) => {
                &&& !spec_length_ok(pre.config, data.len() as int)
                &&& post == pre
                &&& e matches E2EError::InvalidDataFormat(_)
            },
        }
    }

    fn new(config: Profile8Config) -> (r: E2EResult<Self>) {
        match Self::validate_config(&config) {
            Err(e) => Err(e),
            Ok(_) => Ok(Profile8 { config, counter: 0, initialized: false }),
        }
    }

    fn protect(&mut self, data: &mut Vec<u8>) -> (r: E2EResult<()>) {
        match self.validate_length(data.len()) {
            Err(e) => {
                return Err(e);
            },
            Ok(_) => {},
        }
        self.write_data_length(data);
        self.write_counter(data);
        self.write_data_id(data);
        let calculated_crc = self.compute_crc(data.as_slice());
        let ghost before_crc = data@;
        self.write_crc(calculated_crc, data);
        proof {
            let off = spec_header_offset(self.config);
            let len = data@.len() as int;
            assert(data@.subrange(0, off) =~= before_crc.subrange(0, off));
            assert(data@.subrange(off + 4, len) =~= before_crc.subrange(off + 4, len));
        }
        self.increment_counter();
        Ok(())
    }

    fn check(&mut self, data: &[u8]) -> (r: E2EResult<E2EStatus>) {
        match self.validate_length(data.len()) {
            Err(e) => {
                return Err(e);
            },
            Ok(_) => {},
        }
        let check_items = Profile8Check {
            rx_data_length: self.read_data_length(data),
            rx_counter: self.read_counter(data),
            rx_crc: self.read_crc(data),
            rx_data_id: self.read_data_id(data),
            calculated_crc: self.compute_crc(data),
            data_len: data.len() as u32,
        };
        let status = self.do_checks(check_items);
        if !self.initialized && matches!(status, E2EStatus::StatusOk | E2EStatus::OkSomeLost) {
            self.initialized = true;
        }
        Ok(status)
    }
}

/// Law (round trip): a buffer freshly protected with the receiver's own
/// configuration is classified `StatusOk`, both on the very first reception
/// (equal counters, engine not yet initialized) and whenever the received
/// counter is one step ahead; the receiver resynchronizes to the sender's
/// counter and counts as initialized.
pub proof fn lemma_check_accepts_protected(rx: Profile8, tx_counter: u32, s: Seq<u8>)
    requires
        rx.wf(),
        spec_protected(rx.config, tx_counter, s),
        (spec_delta(rx.counter as int, tx_counter as int, 0x100000000) == 0 && !rx.initialized)
            || spec_delta(rx.counter as int, tx_counter as int, 0x100000000) == 1,
    ensures
        spec_check_status(rx, s) == E2EStatus::StatusOk,
        spec_check_state(rx, s) == (Profile8 {
            counter: tx_counter,
            initialized: true,
            config: rx.config,
        }),
{
}

/// Law (ID mismatch): a buffer protected by a sender whose configuration
/// agrees with the receiver's in everything but the Data ID is classified
/// `DataIdError`, and the receiver's state does not move.
pub proof fn lemma_check_rejects_foreign_id(
    rx: Profile8,
    tx_config: Profile8Config,
    tx_counter: u32,
    s: Seq<u8>,
)
    requires
        rx.wf(),
        spec_protected(tx_config, tx_counter, s),
        tx_config.offset == rx.config.offset,
        tx_config.min_data_length == rx.config.min_data_length,
        tx_config.max_data_length == rx.config.max_data_length,
        tx_config.max_delta_counter == rx.config.max_delta_counter,
        tx_config.data_id != rx.config.data_id,
    ensures
        spec_check_status(rx, s) == E2EStatus::DataIdError,
        spec_check_state(rx, s) == rx,
{
}

} // verus!
