//! E2E profile 22.
//!
//! Protects small fixed-size data packets with:
//! - an 8-bit AUTOSAR CRC for data integrity,
//! - a 4-bit counter for sequence checking (0 to 15),
//! - a per-cycle Data ID taken from a 16-entry list, selected by the
//!   counter and folded into the CRC only.
//!
//! Header layout at the configured byte offset:
//! `CRC(1B) | HDR(1B)`, where the low nibble of `HDR` holds the counter and
//! its high nibble passes data through. The CRC covers every buffer byte
//! except the CRC byte itself, followed by the selected Data ID byte.
//!
//! Unlike the other profiles, the counter is advanced before it is written,
//! and a zero delta is reported `Repeated` even on the very first reception.

use vstd::pervasive::VecAdditionalExecFns;
use vstd::prelude::*;
use vstd::slice::{slice_index_get, slice_subrange};

use crate::counter::{spec_classify_strict_repeat, spec_delta, Counter4Profile22, CounterOps};
use crate::crc_ops::{compute_crc8_autosar, crc8_autosar_of};
use crate::field_ops::unchanged_outside;
use crate::{E2EError, E2EProfile, E2EResult, E2EStatus};

verus! {

/// Configuration for E2E profile 22.
#[derive(Debug, Clone, Copy)]
pub struct Profile22Config {
    /// Length of the data, in bits; shall be a multiple of 8.
    pub data_length: usize,
    /// Data IDs for protection against masquerading, indexed by counter value.
    pub data_id_list: [u8; 16],
    /// Maximum allowed delta between consecutive counters.
    pub max_delta_counter: u8,
    /// Bit offset of the E2E header in the data, in bits.
    pub offset: usize,
}

impl Default for Profile22Config {
    /// The profile's default parameter set.
    fn default() -> (c: Self)
        ensures
            c == (Profile22Config {
                data_length: 64,
                data_id_list: [
                    0x01u8, 0x02, 0x03, 0x04, 0x05, 0x06, 0x07, 0x08, 0x09, 0x0a, 0x0b, 0x0c,
                    0x0d, 0x0e, 0x0f, 0x10,
                ],
                max_delta_counter: 1,
                offset: 0,
            }),
    {
        Profile22Config {
            data_length: 64,  // bits
            data_id_list: [
                0x01u8, 0x02, 0x03, 0x04, 0x05, 0x06, 0x07, 0x08, 0x09, 0x0a, 0x0b, 0x0c, 0x0d,
                0x0e, 0x0f, 0x10,
            ],
            max_delta_counter: 1,
            offset: 0,  // bits
        }
    }
}

/// Fields gathered from one received buffer before classification.
pub struct Profile22Check {
    /// Counter nibble read from the buffer.
    pub rx_counter: u8,
    /// CRC byte read from the buffer.
    pub rx_crc: u8,
    /// CRC recomputed over the received buffer.
    pub calculated_crc: u8,
}

/// E2E profile 22 engine: configuration plus mutable sequence state.
#[derive(Clone)]
pub struct Profile22 {
    /// Immutable configuration.
    pub config: Profile22Config,
    /// Last sent counter (sender role) or last accepted counter (receiver role).
    pub counter: u8,
}

/// Byte offset of the header.
pub open spec fn spec_header_offset(cfg: Profile22Config) -> int {
    cfg.offset as int / 8
}

/// The configurations that construction accepts.
pub open spec fn spec_config_valid(cfg: Profile22Config) -> bool {
    &&& cfg.data_length % 8 == 0
    &&& 0 < cfg.max_delta_counter < 15
}

/// The smallest buffer length that leaves room for the two header bytes
/// behind the bit offset.
pub open spec fn spec_min_len(cfg: Profile22Config) -> int {
    spec_header_offset(cfg) + (if cfg.offset as int % 8 == 0 {
        2int
    } else {
        3int
    })
}

/// The buffer lengths (in bytes) that `protect` and `check` accept: exactly
/// the configured length, which must also hold the header.
pub open spec fn spec_length_ok(cfg: Profile22Config, len: int) -> bool {
    &&& len == cfg.data_length as int / 8
    &&& len >= spec_min_len(cfg)
}

/// The counter nibble stored in a buffer.
pub open spec fn spec_counter_at(s: Seq<u8>, off: int) -> int {
    (s[off + 1] as int) % 16
}

/// The bytes covered by the CRC: the whole buffer except the CRC byte,
/// followed by the Data ID selected by the stored counter.
pub open spec fn spec_crc_input(cfg: Profile22Config, s: Seq<u8>) -> Seq<u8> {
    let off = spec_header_offset(cfg);
    s.subrange(0, off) + s.subrange(off + 1, s.len() as int) + seq![
        cfg.data_id_list@[spec_counter_at(s, off)],
    ]
}

/// A buffer as `protect` leaves it behind, for the counter value `counter`
/// that was written: counter nibble stamped and the CRC consistent.
pub open spec fn spec_protected(cfg: Profile22Config, counter: u8, s: Seq<u8>) -> bool {
    let off = spec_header_offset(cfg);
    &&& spec_length_ok(cfg, s.len() as int)
    &&& spec_counter_at(s, off) == counter
    &&& s[off] == crc8_autosar_of(spec_crc_input(cfg, s))
}

/// The status `check` reports for a buffer of accepted length.
pub open spec fn spec_check_status(pre: Profile22, s: Seq<u8>) -> E2EStatus {
    let off = spec_header_offset(pre.config);
    if crc8_autosar_of(spec_crc_input(pre.config, s)) != s[off] {
        E2EStatus::CrcError
    } else {
        spec_classify_strict_repeat(
            spec_delta(pre.counter as int, spec_counter_at(s, off), 16),
            pre.config.max_delta_counter as int,
        )
    }
}

/// The engine state `check` leaves behind: resynchronized to the received
/// counter exactly when the CRC matched.
pub open spec fn spec_check_state(pre: Profile22, s: Seq<u8>) -> Profile22 {
    let off = spec_header_offset(pre.config);
    if spec_check_status(pre, s) == E2EStatus::CrcError {
        pre
    } else {
        Profile22 { counter: spec_counter_at(s, off) as u8, config: pre.config }
    }
}

impl Profile22 {
    /// Accepts exactly the valid configurations.
    pub fn validate_config(config: &Profile22Config) -> (r: E2EResult<()>)
        ensures
            r is Ok <==> spec_config_valid(*config),
            r matches Err(e) ==> e matches E2EError::InvalidConfiguration(_),
    {
        if config.data_length % 8 != 0 {
            return Err(E2EError::InvalidConfiguration("data length shall be a multiple of 8"));
        }
        if config.max_delta_counter == 0 || config.max_delta_counter >= 15 {
            return Err(E2EError::InvalidConfiguration(
                "max delta counter must be between 1 and below the counter maximum",
            ));
        }
        Ok(())
    }

    /// Accepts exactly the configured buffer length, which must also leave
    /// room for the header behind the offset.
    pub fn validate_length(&self, len: usize) -> (r: E2EResult<()>)
        ensures
            r is Ok <==> spec_length_ok(self.config, len as int),
            r matches Err(e) ==> e matches E2EError::InvalidDataFormat(_),
    {
        let expected_bytes = self.config.data_length / 8;
        if len != expected_bytes {
            return Err(E2EError::InvalidDataFormat(
                "buffer length differs from the configured length",
            ));
        }
        let header_end = self.config.offset / 8 + (if self.config.offset % 8 == 0 {
            2
        } else {
            3
        });
        if len < header_end {
            return Err(E2EError::InvalidDataFormat(
                "buffer too short for the header behind the offset",
            ));
        }
        Ok(())
    }

    /// Advances the counter one step, wrapping at the domain's end.
    pub fn increment_counter(&mut self)
        requires
            old(self).counter <= 15,
        ensures
            final(self).counter == (old(self).counter + 1) % 16,
            final(self).counter <= 15,
            final(self).config == old(self).config,
    {
        self.counter = Counter4Profile22::increment_counter(self.counter);
    }

    /// Writes the engine's counter into the header's low nibble, keeping
    /// the high nibble.
    pub fn write_counter(&self, data: &mut Vec<u8>)
        requires
            self.counter <= 15,
            spec_header_offset(self.config) + 2 <= old(data)@.len(),
        ensures
            unchanged_outside(
                old(data)@,
                final(data)@,
                spec_header_offset(self.config) + 1,
                spec_header_offset(self.config) + 2,
            ),
            spec_counter_at(final(data)@, spec_header_offset(self.config)) == self.counter,
            (final(data)@[spec_header_offset(self.config) + 1] as int) / 16 == (old(
                data,
            )@[spec_header_offset(self.config) + 1] as int) / 16,
    {
        let byte_idx = self.config.offset / 8;
        let b = data[byte_idx + 1];
        data.set(byte_idx + 1, (b / 16) * 16 + self.counter);
    }

    /// Reads the counter nibble from the header.
    pub fn read_counter(&self, data: &[u8]) -> (r: u8)
        requires
            spec_header_offset(self.config) + 2 <= data@.len(),
        ensures
            r == spec_counter_at(data@, spec_header_offset(self.config)),
            r <= 15,
    {
        let byte_idx = self.config.offset / 8;
        *slice_index_get(data, byte_idx + 1) % 16
    }

    /// Writes a computed CRC into the CRC byte.
    pub fn write_crc(&self, calculated_crc: u8, data: &mut Vec<u8>)
        requires
            spec_header_offset(self.config) + 2 <= old(data)@.len(),
        ensures
            unchanged_outside(
                old(data)@,
                final(data)@,
                spec_header_offset(self.config),
                spec_header_offset(self.config) + 1,
            ),
            final(data)@[spec_header_offset(self.config)] == calculated_crc,
    {
        let byte_position = self.config.offset / 8;
        data.set(byte_position, calculated_crc);
    }

    /// Reads the CRC byte.
    pub fn read_crc(&self, data: &[u8]) -> (r: u8)
        requires
            spec_header_offset(self.config) + 2 <= data@.len(),
        ensures
            r == data@[spec_header_offset(self.config)],
    {
        let byte_position = self.config.offset / 8;
        *slice_index_get(data, byte_position)
    }

    /// Computes the CRC over the buffer with the CRC byte excluded and the
    /// Data ID selected by the stored counter appended.
    pub fn compute_crc(&self, data: &[u8]) -> (r: u8)
        requires
            spec_header_offset(self.config) + 2 <= data@.len(),
        ensures
            r == crc8_autosar_of(spec_crc_input(self.config, data@)),
    {
        let offset_byte = self.config.offset / 8;
        let n = data.len();
        let before = slice_subrange(data, 0, offset_byte);
        let after = slice_subrange(data, offset_byte + 1, n);
        let idx = self.read_counter(data) as usize;
        let id = *slice_index_get(self.config.data_id_list.as_slice(), idx);
        compute_crc8_autosar(before, after, id)
    }

    /// Runs the receive-side checks in order: CRC, then counter
    /// classification; resynchronizes the counter exactly when the CRC
    /// matched.
    pub fn do_checks(&mut self, check_items: Profile22Check) -> (status: E2EStatus)
        requires
            old(self).wf(),
            check_items.rx_counter <= 15,
        ensures
            ({
                let pre = *old(self);
                if check_items.calculated_crc != check_items.rx_crc {
                    status == E2EStatus::CrcError && *final(self) == pre
                } else {
                    status == spec_classify_strict_repeat(
                        spec_delta(pre.counter as int, check_items.rx_counter as int, 16),
                        pre.config.max_delta_counter as int,
                    ) && *final(self) == (Profile22 { counter: check_items.rx_counter, ..pre })
                }
            }),
    {
        if check_items.calculated_crc != check_items.rx_crc {
            return E2EStatus::CrcError;
        }
        let status = self.validate_counter(check_items.rx_counter);
        self.counter = check_items.rx_counter;
        status
    }

    /// Classifies one received counter against the engine's state; a zero
    /// delta is `Repeated` even before the first successful reception.
    pub fn validate_counter(&self, rx_counter: u8) -> (status: E2EStatus)
        requires
            self.counter <= 15,
            rx_counter <= 15,
        ensures
            status == spec_classify_strict_repeat(
                spec_delta(self.counter as int, rx_counter as int, 16),
                self.config.max_delta_counter as int,
            ),
    {
        Counter4Profile22::validate_counter(
            self.counter,
            rx_counter,
            self.config.max_delta_counter,
            false,
        )
    }
}

impl E2EProfile for Profile22 {
    type Config = Profile22Config;

    open spec fn wf(&self) -> bool {
        spec_config_valid(self.config) && self.counter <= 15
    }

    open spec fn protect_req(&self, data: Seq<u8>) -> bool {
        true
    }

    open spec fn check_req(&self, data: Seq<u8>) -> bool {
        true
    }

    open spec fn new_ens(config: Profile22Config, r: E2EResult<Profile22>) -> bool {
        match r {
            Ok(p) => spec_config_valid(config) && p == (Profile22 { config, counter: 0 }),
            Err(e) => !spec_config_valid(config) && e matches E2EError::InvalidConfiguration(_),
        }
    }

    open spec fn protect_ens(
        pre: Profile22,
        post: Profile22,
        data_pre: Seq<u8>,
        data_post: Seq<u8>,
        r: E2EResult<()>,
    ) -> bool {
        match r {
            Ok(_) => {
                let off = spec_header_offset(pre.config);
                &&& spec_length_ok(pre.config, data_pre.len() as int)
                &&& unchanged_outside(data_pre, data_post, off, off + 2)
                &&& (data_post[off + 1] as int) / 16 == (data_pre[off + 1] as int) / 16
                &&& spec_protected(pre.config, ((pre.counter + 1) % 16) as u8, data_post)
                &&& post == (Profile22 {
                    counter: ((pre.counter + 1) % 16) as u8,
                    ..pre
                })
            },
            Err(e) => {
                &&& !spec_length_ok(pre.config, data_pre.len() as int)
                &&& data_post == data_pre
                &&& post == pre
                &&& e matches E2EError::InvalidDataFormat(_)
            },
        }
    }

    open spec fn check_ens(
        pre: Profile22,
        post: Profile22,
        data: Seq<u8>,
        r: E2EResult<E2EStatus>,
    ) -> bool {
        match r {
            Ok(status) => {
                &&& spec_length_ok(pre.config, data.len() as int)
                &&& status == spec_check_status(pre, data)
                &&& post == spec_check_state(pre, data)
            },
            Err(e) => {
                &&& !spec_length_ok(pre.config, data.len() as int)
                &&& post == pre
                &&& e matches E2EError::InvalidDataFormat(_)
            },
        }
    }

    fn new(config: Profile22Config) -> (r: E2EResult<Self>) {
        match Self::validate_config(&config) {
            Err(e) => Err(e),
            Ok(_) => Ok(Profile22 { config, counter: 0 }),
        }
    }

    fn protect(&mut self, data: &mut Vec<u8>) -> (r: E2EResult<()>) {
        match self.validate_length(data.len()) {
            Err(e) => {
                return Err(e);
            },
            Ok(_) => {},
        }
        self.increment_counter();
        self.write_counter(data);
        let calculated_crc = self.compute_crc(data.as_slice());
        let ghost before_crc = data@;
        self.write_crc(calculated_crc, data);
        proof {
            let off = spec_header_offset(self.config);
            let len = data@.len() as int;
            assert(data@.subrange(0, off) =~= before_crc.subrange(0, off));
            assert(data@.subrange(off + 1, len) =~= before_crc.subrange(off + 1, len));
        }
        Ok(())
    }

    fn check(&mut self, data: &[u8]) -> (r: E2EResult<E2EStatus>) {
        match self.validate_length(data.len()) {
            Err(e) => {
                return Err(e);
            },
            Ok(_) => {},
        }
        let check_items = Profile22Check {
            rx_counter: self.read_counter(data),
            rx_crc: self.read_crc(data),
            calculated_crc: self.compute_crc(data),
        };
        let status = self.do_checks(check_items);
        Ok(status)
    }
}

/// Law (round trip): a buffer freshly protected with the receiver's own
/// configuration is classified `StatusOk` whenever the written counter is
/// one step ahead of the receiver's, which holds from the very first
/// exchange on: the sender pre-increments, so its first buffer carries
/// counter 1 against the receiver's initial 0. The receiver resynchronizes
/// to the written counter.
pub proof fn lemma_check_accepts_protected(rx: Profile22, tx_counter: u8, s: Seq<u8>)
    requires
        rx.wf(),
        spec_protected(rx.config, tx_counter, s),
        spec_delta(rx.counter as int, tx_counter as int, 16) == 1,
    ensures
        spec_check_status(rx, s) == E2EStatus::StatusOk,
        spec_check_state(rx, s) == (Profile22 { counter: tx_counter, config: rx.config }),
{
}

} // verus!
