//! E2E profile 6.
//!
//! Protects data packets with:
//! - a 16-bit CRC (CRC-16/IBM-3740) for data integrity,
//! - an 8-bit counter for sequence checking,
//! - a 16-bit implicit Data ID, folded big-endian into the CRC only,
//! - a 16-bit length field for dynamic-size data.
//!
//! Header layout at the configured byte offset:
//! `CRC(2B) | LENGTH(2B) | COUNTER(1B)`, multi-byte fields big-endian.
//! The CRC covers every buffer byte except the CRC field itself, followed
//! by the two big-endian Data ID bytes.

use vstd::prelude::*;
use vstd::slice::slice_subrange;

use crate::counter::{spec_classify, spec_delta, Counter8, CounterOps};
use crate::crc_ops::{compute_crc16_ibm3740_with_data_id, crc16_ibm3740_of};
use crate::field_ops::{
    be16_at, read_be_u16_at, read_be_u8_at, unchanged_outside, write_be_u16_at, write_be_u8_at,
};
use crate::{E2EError, E2EProfile, E2EResult, E2EStatus};

verus! {

/// Configuration for E2E profile 6.
#[derive(Debug, Clone, Copy)]
pub struct Profile6Config {
    /// Data ID, folded into the CRC and never transmitted.
    pub data_id: u16,
    /// Bit offset of the first bit of the E2E header from the beginning of
    /// the data; shall be a multiple of 8.
    pub offset: u16,
    /// Minimal length of the data, in bits.
    pub min_data_length: u16,
    /// Maximal length of the data, in bits.
    pub max_data_length: u16,
    /// Maximum allowed delta between consecutive counters.
    pub max_delta_counter: u8,
}

impl Default for Profile6Config {
    /// The profile's default parameter set.
    fn default() -> (c: Self)
        ensures
            c == (Profile6Config {
                data_id: 0x1234,
                offset: 0,
                min_data_length: 40,
                max_data_length: 32768,
                max_delta_counter: 1,
            }),
    {
        Profile6Config {
            data_id: 0x1234,
            offset: 0x0000,
            min_data_length: 40,  // 5 bytes
            max_data_length: 32768,  // 4096 bytes
            max_delta_counter: 1,
        }
    }
}

/// Fields gathered from one received buffer before classification.
pub struct Profile6Check {
    /// Length field read from the buffer.
    pub rx_data_length: u16,
    /// Counter field read from the buffer.
    pub rx_counter: u8,
    /// CRC field read from the buffer.
    pub rx_crc: u16,
    /// CRC recomputed over the received buffer.
    pub calculated_crc: u16,
    /// Actual length of the received buffer.
    pub data_len: u16,
}

/// E2E profile 6 engine: configuration plus mutable sequence state.
#[derive(Clone)]
pub struct Profile6 {
    /// Immutable configuration.
    pub config: Profile6Config,
    /// Last sent counter (sender role) or last accepted counter (receiver role).
    pub counter: u8,
    /// Whether a reception has succeeded since construction.
    pub initialized: bool,
}

/// Byte offset of the header.
pub open spec fn spec_header_offset(cfg: Profile6Config) -> int {
    cfg.offset as int / 8
}

/// The configurations that construction accepts.
pub open spec fn spec_config_valid(cfg: Profile6Config) -> bool {
    &&& 40 <= cfg.min_data_length <= 32768
    &&& cfg.min_data_length <= cfg.max_data_length <= 32768
    &&& 0 < cfg.max_delta_counter < 0xFF
    &&& cfg.offset % 8 == 0
}

/// The buffer lengths (in bytes) that `protect` and `check` accept.
pub open spec fn spec_length_ok(cfg: Profile6Config, len: int) -> bool {
    cfg.min_data_length as int / 8 <= len <= cfg.max_data_length as int / 8
}

/// Whether the 5-byte header fits into a buffer of `len` bytes.
pub open spec fn spec_header_fits(cfg: Profile6Config, len: int) -> bool {
    spec_header_offset(cfg) + 5 <= len
}

/// The big-endian bytes of a 16-bit Data ID.
pub open spec fn spec_id_bytes(data_id: u16) -> Seq<u8> {
    seq![(data_id / 0x100) as u8, (data_id % 0x100) as u8]
}

/// The bytes covered by the CRC: the whole buffer except the CRC field,
/// followed by the big-endian Data ID bytes.
pub open spec fn spec_crc_input(s: Seq<u8>, off: int, data_id: u16) -> Seq<u8> {
    s.subrange(0, off) + s.subrange(off + 2, s.len() as int) + spec_id_bytes(data_id)
}

/// A buffer as `protect` leaves it behind, for an engine with counter
/// `counter`: header fields stamped and the CRC consistent.
pub open spec fn spec_protected(cfg: Profile6Config, counter: u8, s: Seq<u8>) -> bool {
    let off = spec_header_offset(cfg);
    &&& spec_length_ok(cfg, s.len() as int)
    &&& spec_header_fits(cfg, s.len() as int)
    &&& be16_at(s, off) == crc16_ibm3740_of(spec_crc_input(s, off, cfg.data_id))
    &&& be16_at(s, off + 2) == s.len()
    &&& s[off + 4] == counter
}

/// The status `check` reports for a buffer of accepted length.
pub open spec fn spec_check_status(pre: Profile6, s: Seq<u8>) -> E2EStatus {
    let off = spec_header_offset(pre.config);
    if crc16_ibm3740_of(spec_crc_input(s, off, pre.config.data_id)) != be16_at(s, off) {
        E2EStatus::CrcError
    } else if be16_at(s, off + 2) != s.len() {
        E2EStatus::DataLengthError
    } else {
        spec_classify(
            spec_delta(pre.counter as int, s[off + 4] as int, 0x100),
            pre.config.max_delta_counter as int,
            pre.initialized,
        )
    }
}

/// The engine state `check` leaves behind: resynchronized to the received
/// counter exactly when CRC and length both matched.
pub open spec fn spec_check_state(pre: Profile6, s: Seq<u8>) -> Profile6 {
    let off = spec_header_offset(pre.config);
    let status = spec_check_status(pre, s);
    if status == E2EStatus::CrcError || status == E2EStatus::DataLengthError {
        pre
    } else {
        Profile6 {
            counter: s[off + 4],
            initialized: pre.initialized || status == E2EStatus::StatusOk || status
                == E2EStatus::OkSomeLost,
            config: pre.config,
        }
    }
}

impl Profile6 {
    /// Accepts exactly the valid configurations.
    pub fn validate_config(config: &Profile6Config) -> (r: E2EResult<()>)
        ensures
            r is Ok <==> spec_config_valid(*config),
            r matches Err(e) ==> e matches E2EError::InvalidConfiguration(_),
    {
        if config.min_data_length < 5 * 8 || 4096 * 8 < config.min_data_length {
            return Err(E2EError::InvalidConfiguration(
                "minimum data length shall be between 5B and 4096B",
            ));
        }
        if config.max_data_length < config.min_data_length || 4096 * 8 < config.max_data_length {
            return Err(E2EError::InvalidConfiguration(
                "maximum data length shall be between the minimum data length and 4096B",
            ));
        }
        if config.max_delta_counter == 0 || config.max_delta_counter == 0xFF {
            return Err(E2EError::InvalidConfiguration(
                "max delta counter must be between 1 and the counter maximum",
            ));
        }
        if config.offset % 8 != 0 {
            return Err(E2EError::InvalidConfiguration(
                "header offset shall be a multiple of 8",
            ));
        }
        Ok(())
    }

    /// Accepts exactly the buffer lengths inside the configured range.
    pub fn validate_length(&self, len: usize) -> (r: E2EResult<()>)
        ensures
            r is Ok <==> spec_length_ok(self.config, len as int),
            r matches Err(e) ==> e matches E2EError::InvalidDataFormat(_),
    {
        let min_bytes = (self.config.min_data_length / 8) as usize;
        let max_bytes = (self.config.max_data_length / 8) as usize;
        if len < min_bytes || max_bytes < len {
            return Err(E2EError::InvalidDataFormat("buffer length outside the configured range"));
        }
        Ok(())
    }

    /// Writes the buffer's length into the 16-bit length field.
    pub fn write_data_length(&self, data: &mut Vec<u8>)
        requires
            spec_header_fits(self.config, old(data)@.len() as int),
            old(data)@.len() <= 0xFFFF,
        ensures
            unchanged_outside(
                old(data)@,
                final(data)@,
                spec_header_offset(self.config) + 2,
                spec_header_offset(self.config) + 4,
            ),
            be16_at(final(data)@, spec_header_offset(self.config) + 2) == old(data)@.len(),
    {
        let offset = (self.config.offset / 8) as usize;
        let len16 = data.len() as u16;
        write_be_u16_at(data, offset + 2, len16);
    }

    /// Writes the engine's counter into the one-byte counter field.
    pub fn write_counter(&self, data: &mut Vec<u8>)
        requires
            spec_header_fits(self.config, old(data)@.len() as int),
        ensures
            unchanged_outside(
                old(data)@,
                final(data)@,
                spec_header_offset(self.config) + 4,
                spec_header_offset(self.config) + 5,
            ),
            final(data)@[spec_header_offset(self.config) + 4] == self.counter,
    {
        let offset = (self.config.offset / 8) as usize;
        write_be_u8_at(data, offset + 4, self.counter);
    }

    /// Computes the CRC over the buffer with the CRC field excluded and the
    /// big-endian Data ID appended.
    pub fn compute_crc(&self, data: &[u8]) -> (r: u16)
        requires
            spec_header_fits(self.config, data@.len() as int),
        ensures
            r == crc16_ibm3740_of(
                spec_crc_input(data@, spec_header_offset(self.config), self.config.data_id),
            ),
    {
        let offset = (self.config.offset / 8) as usize;
        let n = data.len();
        let before = slice_subrange(data, 0, offset);
        let after = slice_subrange(data, offset + 2, n);
        compute_crc16_ibm3740_with_data_id(
            before,
            after,
            (self.config.data_id / 0x100) as u8,
            (self.config.data_id % 0x100) as u8,
        )
    }

    /// Writes a computed CRC into the 16-bit CRC field.
    pub fn write_crc(&self, calculated_crc: u16, data: &mut Vec<u8>)
        requires
            spec_header_fits(self.config, old(data)@.len() as int),
        ensures
            unchanged_outside(
                old(data)@,
                final(data)@,
                spec_header_offset(self.config),
                spec_header_offset(self.config) + 2,
            ),
            be16_at(final(data)@, spec_header_offset(self.config)) == calculated_crc,
    {
        let offset = (self.config.offset / 8) as usize;
        write_be_u16_at(data, offset, calculated_crc);
    }

    /// Advances the counter one step, wrapping at the domain's end.
    pub fn increment_counter(&mut self)
        ensures
            final(self).counter == (old(self).counter + 1) % 0x100,
            final(self).config == old(self).config,
            final(self).initialized == old(self).initialized,
    {
        self.counter = Counter8::increment_counter(self.counter);
    }

    /// Reads the 16-bit length field.
    pub fn read_data_length(&self, data: &[u8]) -> (r: u16)
        requires
            spec_header_fits(self.config, data@.len() as int),
        ensures
            r == be16_at(data@, spec_header_offset(self.config) + 2),
    {
        let offset = (self.config.offset / 8) as usize;
        read_be_u16_at(data, offset + 2)
    }

    /// Reads the one-byte counter field.
    pub fn read_counter(&self, data: &[u8]) -> (r: u8)
        requires
            spec_header_fits(self.config, data@.len() as int),
        ensures
            r == data@[spec_header_offset(self.config) + 4],
    {
        let offset = (self.config.offset / 8) as usize;
        read_be_u8_at(data, offset + 4)
    }

    /// Reads the 16-bit CRC field.
    pub fn read_crc(&self, data: &[u8]) -> (r: u16)
        requires
            spec_header_fits(self.config, data@.len() as int),
        ensures
            r == be16_at(data@, spec_header_offset(self.config)),
    {
        let offset = (self.config.offset / 8) as usize;
        read_be_u16_at(data, offset)
    }

    /// Runs the receive-side checks in order: CRC, length field, then
    /// counter classification; resynchronizes the counter exactly when the
    /// first two pass.
    pub fn do_checks(&mut self, check_items: Profile6Check) -> (status: E2EStatus)
        requires
            old(self).wf(),
        ensures
            ({
                let pre = *old(self);
                if check_items.calculated_crc != check_items.rx_crc {
                    status == E2EStatus::CrcError && *final(self) == pre
                } else if check_items.rx_data_length != check_items.data_len {
                    status == E2EStatus::DataLengthError && *final(self) == pre
                } else {
                    status == spec_classify(
                        spec_delta(pre.counter as int, check_items.rx_counter as int, 0x100),
                        pre.config.max_delta_counter as int,
                        pre.initialized,
                    ) && *final(self) == (Profile6 { counter: check_items.rx_counter, ..pre })
                }
            }),
    {
        if check_items.calculated_crc != check_items.rx_crc {
            return E2EStatus::CrcError;
        }
        if check_items.rx_data_length != check_items.data_len {
            return E2EStatus::DataLengthError;
        }
        let status = self.validate_counter(check_items.rx_counter);
        self.counter = check_items.rx_counter;
        status
    }

    /// Classifies one received counter against the engine's state.
    pub fn validate_counter(&self, rx_counter: u8) -> (status: E2EStatus)
        ensures
            status == spec_classify(
                spec_delta(self.counter as int, rx_counter as int, 0x100),
                self.config.max_delta_counter as int,
                self.initialized,
            ),
    {
        Counter8::validate_counter(
            self.counter,
            rx_counter,
            self.config.max_delta_counter,
            self.initialized,
        )
    }
}

impl E2EProfile for Profile6 {
    type Config = Profile6Config;

    open spec fn wf(&self) -> bool {
        spec_config_valid(self.config)
    }

    open spec fn protect_req(&self, data: Seq<u8>) -> bool {
        spec_length_ok(self.config, data.len() as int) ==> spec_header_fits(
            self.config,
            data.len() as int,
        )
    }

    open spec fn check_req(&self, data: Seq<u8>) -> bool {
        spec_length_ok(self.config, data.len() as int) ==> spec_header_fits(
            self.config,
            data.len() as int,
        )
    }

    open spec fn new_ens(config: Profile6Config, r: E2EResult<Profile6>) -> bool {
        match r {
            Ok(p) => spec_config_valid(config) && p == (Profile6 {
                config,
                counter: 0,
                initialized: false,
            }),
            Err(e) => !spec_config_valid(config) && e matches E2EError::InvalidConfiguration(_),
        }
    }

    open spec fn protect_ens(
        pre: Profile6,
        post: Profile6,
        data_pre: Seq<u8>,
        data_post: Seq<u8>,
        r: E2EResult<()>,
    ) -> bool {
        match r {
            Ok(_) => {
                let off = spec_header_offset(pre.config);
                &&& spec_length_ok(pre.config, data_pre.len() as int)
                &&& unchanged_outside(data_pre, data_post, off, off + 5)
                &&& spec_protected(pre.config, pre.counter, data_post)
                &&& post == (Profile6 {
                    counter: ((pre.counter + 1) % 0x100) as u8,
                    ..pre
                })
            },
            Err(e) => {
                &&& !spec_length_ok(pre.config, data_pre.len() as int)
                &&& data_post == data_pre
                &&& post == pre
                &&& e matches E2EError::InvalidDataFormat(_)
            },
        }
    }

    open spec fn check_ens(
        pre: Profile6,
        post: Profile6,
        data: Seq<u8>,
        r: E2EResult<E2EStatus>,
    ) -> bool {
        match r {
            Ok(status) => {
                &&& spec_length_ok(pre.config, data.len() as int)
                &&& status == spec_check_status(pre, data)
                &&& post == spec_check_state(pre, data)
            },
            Err(e) => {
                &&& !spec_length_ok(pre.config, data.len() as int)
                &&& post == pre
                &&& e matches E2EError::InvalidDataFormat(_)
            },
        }
    }

    fn new(config: Profile6Config) -> (r: E2EResult<Self>) {
        match Self::validate_config(&config) {
            Err(e) => Err(e),
            Ok(_) => Ok(Profile6 { config, counter: 0, initialized: false }),
        }
    }

    fn protect(&mut self, data: &mut Vec<u8>) -> (r: E2EResult<()>) {
        match self.validate_length(data.len()) {
            Err(e) => {
                return Err(e);
            },
            Ok(_) => {},
        }
        self.write_data_length(data);
        self.write_counter(data);
        let calculated_crc = self.compute_crc(data.as_slice());
        let ghost before_crc = data@;
        self.write_crc(calculated_crc, data);
        proof {
            let off = spec_header_offset(self.config);
            let len = data@.len() as int;
            assert(data@.subrange(0, off) =~= before_crc.subrange(0, off));
            assert(data@.subrange(off + 2, len) =~= before_crc.subrange(off + 2, len));
        }
        self.increment_counter();
        Ok(())
    }

    fn check(&mut self, data: &[u8]) -> (r: E2EResult<E2EStatus>) {
        match self.validate_length(data.len()) {
            Err(e) => {
                return Err(e);
            },
            Ok(_) => {},
        }
        let check_items = Profile6Check {
            rx_data_length: self.read_data_length(data),
            rx_counter: self.read_counter(data),
            rx_crc: self.read_crc(data),
            calculated_crc: self.compute_crc(data),
            data_len: data.len() as u16,
        };
        let status = self.do_checks(check_items);
        if !self.initialized && matches!(status, E2EStatus::StatusOk | E2EStatus::OkSomeLost) {
            self.initialized = true;
        }
        Ok(status)
    }
}

/// Law (round trip): a buffer freshly protected with the receiver's own
/// configuration is classified `StatusOk`, both on the very first reception
/// (equal counters, engine not yet initialized) and whenever the received
/// counter is one step ahead; the receiver resynchronizes to the sender's
/// counter and counts as initialized.
pub proof fn lemma_check_accepts_protected(rx: Profile6, tx_counter: u8, s: Seq<u8>)
    requires
        rx.wf(),
        spec_protected(rx.config, tx_counter, s),
        (spec_delta(rx.counter as int, tx_counter as int, 0x100) == 0 && !rx.initialized)
            || spec_delta(rx.counter as int, tx_counter as int, 0x100) == 1,
    ensures
        spec_check_status(rx, s) == E2EStatus::StatusOk,
        spec_check_state(rx, s) == (Profile6 {
            counter: tx_counter,
            initialized: true,
            config: rx.config,
        }),
{
}

} // verus!
