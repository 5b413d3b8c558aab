//! E2E profile 5.
//!
//! Protects fixed-size data packets with:
//! - a 16-bit CRC (CRC-16/IBM-3740) for data integrity,
//! - an 8-bit counter for sequence checking,
//! - a 16-bit implicit Data ID, folded little-endian into the CRC only.
//!
//! Header layout at the configured byte offset:
//! `CRC(2B) | COUNTER(1B)`, the CRC little-endian. The CRC covers every
//! buffer byte except the CRC field itself, followed by the two
//! little-endian Data ID bytes.

use vstd::arithmetic::div_mod::{lemma_div_is_ordered, lemma_hoist_over_denominator};
use vstd::prelude::*;
use vstd::slice::slice_subrange;

use crate::counter::{spec_classify, spec_delta, Counter8, CounterOps};
use crate::crc_ops::{compute_crc16_ibm3740_with_data_id, crc16_ibm3740_of};
use crate::field_ops::{
    le16_at, read_be_u8_at, read_le_u16_at, unchanged_outside, write_be_u8_at, write_le_u16_at,
};
use crate::{E2EError, E2EProfile, E2EResult, E2EStatus};

verus! {

/// Configuration for E2E profile 5.
#[derive(Debug, Clone, Copy)]
pub struct Profile5Config {
    /// Length of the data, in bits; every buffer must have exactly this size.
    pub data_length: u16,
    /// Data ID, folded into the CRC and never transmitted.
    pub data_id: u16,
    /// Maximum allowed delta between consecutive counters.
    pub max_delta_counter: u8,
    /// Bit offset of the E2E header in the data, in bits.
    pub offset: u16,
}

impl Default for Profile5Config {
    /// The profile's default parameter set.
    fn default() -> (c: Self)
        ensures
            c == (Profile5Config {
                data_id: 0x1234,
                offset: 0,
                data_length: 24,
                max_delta_counter: 1,
            }),
    {
        Profile5Config {
            data_id: 0x1234,
            offset: 0x0000,
            data_length: 24,  // 3 bytes
            max_delta_counter: 1,
        }
    }
}

/// Fields gathered from one received buffer before classification.
pub struct Profile5Check {
    /// Counter field read from the buffer.
    pub rx_counter: u8,
    /// CRC field read from the buffer.
    pub rx_crc: u16,
    /// CRC recomputed over the received buffer.
    pub calculated_crc: u16,
}

/// E2E profile 5 engine: configuration plus mutable sequence state.
#[derive(Clone)]
pub struct Profile5 {
    /// Immutable configuration.
    pub config: Profile5Config,
    /// Last sent counter (sender role) or last accepted counter (receiver role).
    pub counter: u8,
    /// Whether a reception has succeeded since construction.
    pub initialized: bool,
}

/// Byte offset of the header.
pub open spec fn spec_header_offset(cfg: Profile5Config) -> int {
    cfg.offset as int / 8
}

/// The configurations that construction accepts.
pub open spec fn spec_config_valid(cfg: Profile5Config) -> bool {
    &&& 24 <= cfg.data_length <= 32768
    &&& cfg.offset <= cfg.data_length - 24
    &&& 0 < cfg.max_delta_counter < 0xFF
}

/// The one buffer length (in bytes) that `protect` and `check` accept.
pub open spec fn spec_length_ok(cfg: Profile5Config, len: int) -> bool {
    len == cfg.data_length as int / 8
}

/// A valid configuration leaves room for the 3-byte header in every buffer
/// of the configured length.
proof fn lemma_header_fits(cfg: Profile5Config)
    requires
        spec_config_valid(cfg),
    ensures
        spec_header_offset(cfg) + 3 <= cfg.data_length as int / 8,
{
    lemma_hoist_over_denominator(cfg.offset as int, 3, 8);
    lemma_div_is_ordered(cfg.offset as int + 24, cfg.data_length as int, 8);
}

/// The little-endian bytes of a 16-bit Data ID.
pub open spec fn spec_id_bytes(data_id: u16) -> Seq<u8> {
    seq![(data_id % 0x100) as u8, (data_id / 0x100) as u8]
}

/// The bytes covered by the CRC: the whole buffer except the CRC field,
/// followed by the little-endian Data ID bytes.
pub open spec fn spec_crc_input(s: Seq<u8>, off: int, data_id: u16) -> Seq<u8> {
    s.subrange(0, off) + s.subrange(off + 2, s.len() as int) + spec_id_bytes(data_id)
}

/// A buffer as `protect` leaves it behind, for an engine with counter
/// `counter`: counter stamped and the CRC consistent.
pub open spec fn spec_protected(cfg: Profile5Config, counter: u8, s: Seq<u8>) -> bool {
    let off = spec_header_offset(cfg);
    &&& spec_length_ok(cfg, s.len() as int)
    &&& le16_at(s, off) == crc16_ibm3740_of(spec_crc_input(s, off, cfg.data_id))
    &&& s[off + 2] == counter
}

/// The status `check` reports for a buffer of accepted length.
pub open spec fn spec_check_status(pre: Profile5, s: Seq<u8>) -> E2EStatus {
    let off = spec_header_offset(pre.config);
    if crc16_ibm3740_of(spec_crc_input(s, off, pre.config.data_id)) != le16_at(s, off) {
        E2EStatus::CrcError
    } else {
        spec_classify(
            spec_delta(pre.counter as int, s[off + 2] as int, 0x100),
            pre.config.max_delta_counter as int,
            pre.initialized,
        )
    }
}

/// The engine state `check` leaves behind: resynchronized to the received
/// counter exactly when the CRC matched.
pub open spec fn spec_check_state(pre: Profile5, s: Seq<u8>) -> Profile5 {
    let off = spec_header_offset(pre.config);
    let status = spec_check_status(pre, s);
    if status == E2EStatus::CrcError {
        pre
    } else {
        Profile5 {
            counter: s[off + 2],
            initialized: pre.initialized || status == E2EStatus::StatusOk || status
                == E2EStatus::OkSomeLost,
            config: pre.config,
        }
    }
}

impl Profile5 {
    /// Accepts exactly the valid configurations.
    pub fn validate_config(config: &Profile5Config) -> (r: E2EResult<()>)
        ensures
            r is Ok <==> spec_config_valid(*config),
            r matches Err(e) ==> e matches E2EError::InvalidConfiguration(_),
    {
        if config.data_length < 3 * 8 || 4096 * 8 < config.data_length {
            return Err(E2EError::InvalidConfiguration(
                "data length shall be between 3B and 4096B",
            ));
        }
        if config.data_length - 3 * 8 < config.offset {
            return Err(E2EError::InvalidConfiguration(
                "offset shall be between 0 and the data length minus 3B",
            ));
        }
        if config.max_delta_counter == 0 || config.max_delta_counter == 0xFF {
            return Err(E2EError::InvalidConfiguration(
                "max delta counter must be between 1 and the counter maximum",
            ));
        }
        Ok(())
    }

    /// Accepts exactly the configured buffer length.
    pub fn validate_length(&self, len: usize) -> (r: E2EResult<()>)
        ensures
            r is Ok <==> spec_length_ok(self.config, len as int),
            r matches Err(e) ==> e matches E2EError::InvalidDataFormat(_),
    {
        let expected_bytes = (self.config.data_length / 8) as usize;
        if len != expected_bytes {
            return Err(E2EError::InvalidDataFormat(
                "buffer length differs from the configured length",
            ));
        }
        Ok(())
    }

    /// Writes the engine's counter into the one-byte counter field.
    pub fn write_counter(&self, data: &mut Vec<u8>)
        requires
            spec_header_offset(self.config) + 3 <= old(data)@.len(),
        ensures
            unchanged_outside(
                old(data)@,
                final(data)@,
                spec_header_offset(self.config) + 2,
                spec_header_offset(self.config) + 3,
            ),
            final(data)@[spec_header_offset(self.config) + 2] == self.counter,
    {
        let offset = (self.config.offset / 8) as usize;
        write_be_u8_at(data, offset + 2, self.counter);
    }

    /// Computes the CRC over the buffer with the CRC field excluded and the
    /// little-endian Data ID appended.
    pub fn compute_crc(&self, data: &[u8]) -> (r: u16)
        requires
            spec_header_offset(self.config) + 3 <= data@.len(),
        ensures
            r == crc16_ibm3740_of(
                spec_crc_input(data@, spec_header_offset(self.config), self.config.data_id),
            ),
    {
        let offset = (self.config.offset / 8) as usize;
        let n = data.len();
        let before = slice_subrange(data, 0, offset);
        let after = slice_subrange(data, offset + 2, n);
        compute_crc16_ibm3740_with_data_id(
            before,
            after,
            (self.config.data_id % 0x100) as u8,
            (self.config.data_id / 0x100) as u8,
        )
    }

    /// Writes a computed CRC into the 16-bit little-endian CRC field.
    pub fn write_crc(&self, calculated_crc: u16, data: &mut Vec<u8>)
        requires
            spec_header_offset(self.config) + 3 <= old(data)@.len(),
        ensures
            unchanged_outside(
                old(data)@,
                final(data)@,
                spec_header_offset(self.config),
                spec_header_offset(self.config) + 2,
            ),
            le16_at(final(data)@, spec_header_offset(self.config)) == calculated_crc,
    {
        let offset = (self.config.offset / 8) as usize;
        write_le_u16_at(data, offset, calculated_crc);
    }

    /// Advances the counter one step, wrapping at the domain's end.
    pub fn increment_counter(&mut self)
        ensures
            final(self).counter == (old(self).counter + 1) % 0x100,
            final(self).config == old(self).config,
            final(self).initialized == old(self).initialized,
    {
        self.counter = Counter8::increment_counter(self.counter);
    }

    /// Reads the one-byte counter field.
    pub fn read_counter(&self, data: &[u8]) -> (r: u8)
        requires
            spec_header_offset(self.config) + 3 <= data@.len(),
        ensures
            r == data@[spec_header_offset(self.config) + 2],
    {
        let offset = (self.config.offset / 8) as usize;
        read_be_u8_at(data, offset + 2)
    }

    /// Reads the 16-bit little-endian CRC field.
    pub fn read_crc(&self, data: &[u8]) -> (r: u16)
        requires
            spec_header_offset(self.config) + 3 <= data@.len(),
        ensures
            r == le16_at(data@, spec_header_offset(self.config)),
    {
        let offset = (self.config.offset / 8) as usize;
        read_le_u16_at(data, offset)
    }

    /// Runs the receive-side checks in order: CRC, then counter
    /// classification; resynchronizes the counter exactly when the CRC
    /// matched.
    pub fn do_checks(&mut self, check_items: Profile5Check) -> (status: E2EStatus)
        requires
            old(self).wf(),
        ensures
            ({
                let pre = *old(self);
                if check_items.calculated_crc != check_items.rx_crc {
                    status == E2EStatus::CrcError && *final(self) == pre
                } else {
                    status == spec_classify(
                        spec_delta(pre.counter as int, check_items.rx_counter as int, 0x100),
                        pre.config.max_delta_counter as int,
                        pre.initialized,
                    ) && *final(self) == (Profile5 { counter: check_items.rx_counter, ..pre })
                }
            }),
    {
        if check_items.calculated_crc != check_items.rx_crc {
            return E2EStatus::CrcError;
        }
        let status = self.validate_counter(check_items.rx_counter);
        self.counter = check_items.rx_counter;
        status
    }

    /// Classifies one received counter against the engine's state.
    pub fn validate_counter(&self, rx_counter: u8) -> (status: E2EStatus)
        ensures
            status == spec_classify(
                spec_delta(self.counter as int, rx_counter as int, 0x100),
                self.config.max_delta_counter as int,
                self.initialized,
            ),
    {
        Counter8::validate_counter(
            self.counter,
            rx_counter,
            self.config.max_delta_counter,
            self.initialized,
        )
    }
}

impl E2EProfile for Profile5 {
    type Config = Profile5Config;

    open spec fn wf(&self) -> bool {
        spec_config_valid(self.config)
    }

    open spec fn protect_req(&self, data: Seq<u8>) -> bool {
        true
    }

    open spec fn check_req(&self, data: Seq<u8>) -> bool {
        true
    }

    open spec fn new_ens(config: Profile5Config, r: E2EResult<Profile5>) -> bool {
        match r {
            Ok(p) => spec_config_valid(config) && p == (Profile5 {
                config,
                counter: 0,
                initialized: false,
            }),
            Err(e) => !spec_config_valid(config) && e matches E2EError::InvalidConfiguration(_),
        }
    }

    open spec fn protect_ens(
        pre: Profile5,
        post: Profile5,
        data_pre: Seq<u8>,
        data_post: Seq<u8>,
        r: E2EResult<()>,
    ) -> bool {
        match r {
            Ok(_) => {
                let off = spec_header_offset(pre.config);
                &&& spec_length_ok(pre.config, data_pre.len() as int)
                &&& unchanged_outside(data_pre, data_post, off, off + 3)
                &&& spec_protected(pre.config, pre.counter, data_post)
                &&& post == (Profile5 {
                    counter: ((pre.counter + 1) % 0x100) as u8,
                    ..pre
                })
            },
            Err(e) => {
                &&& !spec_length_ok(pre.config, data_pre.len() as int)
                &&& data_post == data_pre
                &&& post == pre
                &&& e matches E2EError::InvalidDataFormat(_)
            },
        }
    }

    open spec fn check_ens(
        pre: Profile5,
        post: Profile5,
        data: Seq<u8>,
        r: E2EResult<E2EStatus>,
    ) -> bool {
        match r {
            Ok(status) => {
                &&& spec_length_ok(pre.config, data.len() as int)
                &&& status == spec_check_status(pre, data)
                &&& post == spec_check_state(pre, data)
            },
            Err(e) => {
                &&& !spec_length_ok(pre.config, data.len() as int)
                &&& post == pre
                &&& e matches E2EError::InvalidDataFormat(_)
            },
        }
    }

    fn new(config: Profile5Config) -> (r: E2EResult<Self>) {
        match Self::validate_config(&config) {
            Err(e) => Err(e),
            Ok(_) => Ok(Profile5 { config, counter: 0, initialized: false }),
        }
    }

    fn protect(&mut self, data: &mut Vec<u8>) -> (r: E2EResult<()>) {
        match self.validate_length(data.len()) {
            Err(e) => {
                return Err(e);
            },
            Ok(_) => {},
        }
        proof {
            lemma_header_fits(self.config);
        }
        self.write_counter(data);
        let calculated_crc = self.compute_crc(data.as_slice());
        let ghost before_crc = data@;
        self.write_crc(calculated_crc, data);
        proof {
            let off = spec_header_offset(self.config);
            let len = data@.len() as int;
            assert(data@.subrange(0, off) =~= before_crc.subrange(0, off));
            assert(data@.subrange(off + 2, len) =~= before_crc.subrange(off + 2, len));
        }
        self.increment_counter();
        Ok(())
    }

    fn check(&mut self, data: &[u8]) -> (r: E2EResult<E2EStatus>) {
        match self.validate_length(data.len()) {
            Err(e) => {
                return Err(e);
            },
            Ok(_) => {},
        }
        proof {
            lemma_header_fits(self.config);
        }
        let check_items = Profile5Check {
            rx_counter: self.read_counter(data),
            rx_crc: self.read_crc(data),
            calculated_crc: self.compute_crc(data),
        };
        let status = self.do_checks(check_items);
        if !self.initialized && matches!(status, E2EStatus::StatusOk | E2EStatus::OkSomeLost) {
            self.initialized = true;
        }
        Ok(status)
    }
}

/// Law (round trip): a buffer freshly protected with the receiver's own
/// configuration is classified `StatusOk`, both on the very first reception
/// (equal counters, engine not yet initialized) and whenever the received
/// counter is one step ahead; the receiver resynchronizes to the sender's
/// counter and counts as initialized.
pub proof fn lemma_check_accepts_protected(rx: Profile5, tx_counter: u8, s: Seq<u8>)
    requires
        rx.wf(),
        spec_protected(rx.config, tx_counter, s),
        (spec_delta(rx.counter as int, tx_counter as int, 0x100) == 0 && !rx.initialized)
            || spec_delta(rx.counter as int, tx_counter as int, 0x100) == 1,
    ensures
        spec_check_status(rx, s) == E2EStatus::StatusOk,
        spec_check_state(rx, s) == (Profile5 {
            counter: tx_counter,
            initialized: true,
            config: rx.config,
        }),
{
}

} // verus!
