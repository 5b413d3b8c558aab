//! E2E profile 11.
//!
//! Protects small data packets (up to 30 bytes) with:
//! - an 8-bit CRC (polynomial 0x1D, init 0x00) for data integrity,
//! - a 4-bit counter for sequence checking (0 to 14, modulo 15),
//! - a 16-bit Data ID folded into the CRC, whose high nibble is also
//!   stored explicitly in `Nibble` mode.
//!
//! The CRC byte, the counter nibble and the ID nibble sit at independently
//! configured, aligned bit offsets. The CRC is computed over the two Data
//! ID bytes followed by every buffer byte except the CRC byte itself.
//!
//! # Modes
//! - `Both`: the complete 16-bit Data ID is only used implicitly in the CRC.
//! - `Nibble`: the low nibble of the ID's high byte is stored explicitly
//!   and checked on reception; only the ID's low byte enters the CRC.

use vstd::prelude::*;
use vstd::slice::slice_subrange;

use crate::counter::{spec_classify, spec_delta, Counter4Profile11, CounterOps};
use crate::crc_ops::{compute_crc8_profile11, crc8_profile11_of};
use crate::field_ops::{
    nibble_at, read_be_u8_at, read_nibble_at, unchanged_outside, write_be_u8_at, write_nibble_at,
};
use crate::{E2EError, E2EProfile, E2EResult, E2EStatus};

verus! {

/// Data ID mode for profile 11.
#[derive(Clone, Copy, Debug, PartialEq, Eq, Structural)]
pub enum Profile11IdMode {
    /// The complete 16-bit Data ID is only used implicitly in the CRC.
    Both,
    /// The ID's high nibble is stored explicitly; its low byte enters the CRC.
    Nibble,
}

/// Configuration for E2E profile 11.
#[derive(Debug, Clone, Copy)]
pub struct Profile11Config {
    /// Bit offset of the counter nibble; shall be a multiple of 4.
    pub counter_offset: u8,
    /// Bit offset of the CRC byte; shall be a multiple of 8.
    pub crc_offset: u8,
    /// Profile mode.
    pub mode: Profile11IdMode,
    /// Data ID; in `Nibble` mode only its low 12 bits are used.
    pub data_id: u16,
    /// Bit offset of the explicit ID nibble; shall be a multiple of 4.
    pub nibble_offset: u8,
    /// Maximum allowed delta between consecutive counters.
    pub max_delta_counter: u8,
    /// Length of the data, in bits; a multiple of 8, at most 240.
    pub data_length: u8,
}

impl Default for Profile11Config {
    /// The profile's default parameter set.
    fn default() -> (c: Self)
        ensures
            c == (Profile11Config {
                counter_offset: 8,
                crc_offset: 0,
                mode: Profile11IdMode::Nibble,
                data_id: 0x123,
                nibble_offset: 12,
                max_delta_counter: 1,
                data_length: 64,
            }),
    {
        Profile11Config {
            counter_offset: 8,  // bits
            crc_offset: 0,  // bits
            mode: Profile11IdMode::Nibble,
            data_id: 0x123,
            nibble_offset: 12,  // bits
            max_delta_counter: 1,
            data_length: 64,  // bits
        }
    }
}

/// Fields gathered from one received buffer before classification.
pub struct Profile11Check {
    /// Counter nibble read from the buffer.
    pub rx_counter: u8,
    /// CRC byte read from the buffer.
    pub rx_crc: u8,
    /// Explicit ID nibble read from the buffer (`Nibble` mode only).
    pub rx_nibble: u8,
    /// CRC recomputed over the received buffer.
    pub calculated_crc: u8,
}

/// E2E profile 11 engine: configuration plus mutable sequence state.
#[derive(Clone)]
pub struct Profile11 {
    /// Immutable configuration.
    pub config: Profile11Config,
    /// Last sent counter (sender role) or last accepted counter (receiver role).
    pub counter: u8,
    /// Whether a reception has succeeded since construction.
    pub initialized: bool,
}

/// Byte offset of the CRC byte.
pub open spec fn spec_crc_byte(cfg: Profile11Config) -> int {
    cfg.crc_offset as int / 8
}

/// The configurations that construction accepts.
pub open spec fn spec_config_valid(cfg: Profile11Config) -> bool {
    &&& cfg.data_length <= 240
    &&& cfg.data_length % 8 == 0
    &&& 0 < cfg.max_delta_counter < 14
    &&& cfg.counter_offset % 4 == 0
    &&& cfg.crc_offset % 8 == 0
    &&& (cfg.mode == Profile11IdMode::Nibble ==> cfg.nibble_offset % 4 == 0)
}

/// The one buffer length (in bytes) that `protect` and `check` accept.
pub open spec fn spec_length_ok(cfg: Profile11Config, len: int) -> bool {
    len == cfg.data_length as int / 8
}

/// Whether the configured field offsets all point inside a buffer of the
/// configured length.
pub open spec fn spec_offsets_fit(cfg: Profile11Config) -> bool {
    let len = cfg.data_length as int / 8;
    &&& spec_crc_byte(cfg) < len
    &&& cfg.counter_offset as int / 8 < len
    &&& (cfg.mode == Profile11IdMode::Nibble ==> cfg.nibble_offset as int / 8 < len)
}

/// Whether the counter nibble survives the CRC write: it does unless it
/// shares the CRC's byte.
pub open spec fn spec_counter_visible(cfg: Profile11Config) -> bool {
    cfg.counter_offset as int / 8 != spec_crc_byte(cfg)
}

/// Whether the explicit ID nibble survives the counter and CRC writes.
pub open spec fn spec_nibble_visible(cfg: Profile11Config) -> bool {
    &&& cfg.nibble_offset as int / 8 != spec_crc_byte(cfg)
    &&& cfg.nibble_offset != cfg.counter_offset
}

/// The nibble sharing a byte with the one at bit offset `off`.
pub open spec fn spec_partner_nibble(s: Seq<u8>, off: int) -> int {
    if off % 8 == 0 {
        (s[off / 8] as int) / 16
    } else {
        (s[off / 8] as int) % 16
    }
}

/// The low nibble of the Data ID's high byte.
pub open spec fn spec_id_nibble(cfg: Profile11Config) -> int {
    (cfg.data_id as int / 0x100) % 16
}

/// The two Data ID bytes folded into the CRC: the full ID little-endian in
/// `Both` mode, the low byte and a zero in `Nibble` mode.
pub open spec fn spec_id_bytes(cfg: Profile11Config) -> Seq<u8> {
    match cfg.mode {
        Profile11IdMode::Both => seq![
            (cfg.data_id % 0x100) as u8,
            (cfg.data_id / 0x100) as u8,
        ],
        Profile11IdMode::Nibble => seq![(cfg.data_id % 0x100) as u8, 0u8],
    }
}

/// The bytes covered by the CRC: the Data ID bytes, then the whole buffer
/// except the CRC byte.
pub open spec fn spec_crc_input(cfg: Profile11Config, s: Seq<u8>) -> Seq<u8> {
    let cb = spec_crc_byte(cfg);
    spec_id_bytes(cfg) + s.subrange(0, cb) + s.subrange(cb + 1, s.len() as int)
}

/// A buffer as `protect` leaves it behind, for an engine with counter
/// `counter`: nibbles stamped (where they do not collide with a later
/// write) and the CRC consistent.
pub open spec fn spec_protected(cfg: Profile11Config, counter: u8, s: Seq<u8>) -> bool {
    &&& spec_length_ok(cfg, s.len() as int)
    &&& (spec_counter_visible(cfg) ==> nibble_at(s, cfg.counter_offset as int) == (counter as int)
        % 16)
    &&& (cfg.mode == Profile11IdMode::Nibble && spec_nibble_visible(cfg) ==> nibble_at(
        s,
        cfg.nibble_offset as int,
    ) == spec_id_nibble(cfg))
    &&& s[spec_crc_byte(cfg)] == crc8_profile11_of(spec_crc_input(cfg, s))
}

/// The status `check` reports for a buffer of accepted length.
pub open spec fn spec_check_status(pre: Profile11, s: Seq<u8>) -> E2EStatus {
    let cfg = pre.config;
    if crc8_profile11_of(spec_crc_input(cfg, s)) != s[spec_crc_byte(cfg)] {
        E2EStatus::CrcError
    } else if cfg.mode == Profile11IdMode::Nibble && nibble_at(s, cfg.nibble_offset as int)
        != spec_id_nibble(cfg) {
        E2EStatus::DataIdError
    } else {
        spec_classify(
            spec_delta(pre.counter as int, nibble_at(s, cfg.counter_offset as int), 15),
            cfg.max_delta_counter as int,
            pre.initialized,
        )
    }
}

/// The engine state `check` leaves behind: resynchronized to the received
/// counter exactly when CRC and ID nibble both matched.
pub open spec fn spec_check_state(pre: Profile11, s: Seq<u8>) -> Profile11 {
    let cfg = pre.config;
    let status = spec_check_status(pre, s);
    if status == E2EStatus::CrcError || status == E2EStatus::DataIdError {
        pre
    } else {
        Profile11 {
            counter: nibble_at(s, cfg.counter_offset as int) as u8,
            initialized: pre.initialized || status == E2EStatus::StatusOk || status
                == E2EStatus::OkSomeLost,
            config: pre.config,
        }
    }
}

impl Profile11 {
    /// Accepts exactly the valid configurations.
    pub fn validate_config(config: &Profile11Config) -> (r: E2EResult<()>)
        ensures
            r is Ok <==> spec_config_valid(*config),
            r matches Err(e) ==> e matches E2EError::InvalidConfiguration(_),
    {
        if config.data_length > 240 {
            return Err(E2EError::InvalidConfiguration(
                "maximum data length for this profile is 240 bits",
            ));
        }
        if config.data_length % 8 != 0 {
            return Err(E2EError::InvalidConfiguration("data length shall be a multiple of 8"));
        }
        if config.max_delta_counter == 0 || config.max_delta_counter >= 14 {
            return Err(E2EError::InvalidConfiguration(
                "max delta counter must be between 1 and below the counter maximum",
            ));
        }
        if config.counter_offset % 4 != 0 {
            return Err(E2EError::InvalidConfiguration(
                "counter offset shall be a multiple of 4",
            ));
        }
        if config.crc_offset % 8 != 0 {
            return Err(E2EError::InvalidConfiguration("crc offset shall be a multiple of 8"));
        }
        if config.mode == Profile11IdMode::Nibble && config.nibble_offset % 4 != 0 {
            return Err(E2EError::InvalidConfiguration(
                "nibble offset must be a multiple of 4 bits",
            ));
        }
        Ok(())
    }

    /// Accepts exactly the configured buffer length.
    pub fn validate_length(&self, len: usize) -> (r: E2EResult<()>)
        ensures
            r is Ok <==> spec_length_ok(self.config, len as int),
            r matches Err(e) ==> e matches E2EError::InvalidDataFormat(_),
    {
        let expected_bytes = (self.config.data_length / 8) as usize;
        if len != expected_bytes {
            return Err(E2EError::InvalidDataFormat(
                "buffer length differs from the configured length",
            ));
        }
        Ok(())
    }

    /// Writes the low nibble of `set_value` at a nibble-aligned bit offset,
    /// preserving the other nibble of the target byte.
    pub fn write_nibble_data(&self, offset: u8, set_value: u8, data: &mut Vec<u8>)
        requires
            offset % 8 == 0 || offset % 8 == 4,
            offset as int / 8 < old(data)@.len(),
        ensures
            unchanged_outside(old(data)@, final(data)@, offset as int / 8, offset as int / 8 + 1),
            nibble_at(final(data)@, offset as int) == (set_value as int) % 16,
            offset % 8 == 0 ==> (final(data)@[offset as int / 8] as int) / 16 == (old(
                data,
            )@[offset as int / 8] as int) / 16,
            offset % 8 == 4 ==> (final(data)@[offset as int / 8] as int) % 16 == (old(
                data,
            )@[offset as int / 8] as int) % 16,
    {
        write_nibble_at(data, offset, set_value);
    }

    /// Reads the nibble at a nibble-aligned bit offset.
    pub fn read_nibble_data(&self, offset: u8, data: &[u8]) -> (r: u8)
        requires
            offset % 8 == 0 || offset % 8 == 4,
            offset as int / 8 < data@.len(),
        ensures
            r == nibble_at(data@, offset as int),
            r <= 15,
    {
        read_nibble_at(data, offset)
    }

    /// Writes a computed CRC into the CRC byte.
    pub fn write_crc(&self, calculated_crc: u8, data: &mut Vec<u8>)
        requires
            spec_crc_byte(self.config) < old(data)@.len(),
        ensures
            unchanged_outside(
                old(data)@,
                final(data)@,
                spec_crc_byte(self.config),
                spec_crc_byte(self.config) + 1,
            ),
            final(data)@[spec_crc_byte(self.config)] == calculated_crc,
    {
        let byte_position = (self.config.crc_offset / 8) as usize;
        write_be_u8_at(data, byte_position, calculated_crc);
    }

    /// Reads the CRC byte.
    pub fn read_crc(&self, data: &[u8]) -> (r: u8)
        requires
            spec_crc_byte(self.config) < data@.len(),
        ensures
            r == data@[spec_crc_byte(self.config)],
    {
        let byte_position = (self.config.crc_offset / 8) as usize;
        read_be_u8_at(data, byte_position)
    }

    /// Computes the CRC over the Data ID bytes followed by the buffer with
    /// the CRC byte excluded.
    pub fn compute_crc(&self, data: &[u8]) -> (r: u8)
        requires
            spec_crc_byte(self.config) < data@.len(),
        ensures
            r == crc8_profile11_of(spec_crc_input(self.config, data@)),
    {
        let cb = (self.config.crc_offset / 8) as usize;
        let n = data.len();
        let before = slice_subrange(data, 0, cb);
        let after = slice_subrange(data, cb + 1, n);
        let id0 = (self.config.data_id % 0x100) as u8;
        let id1 = if matches!(self.config.mode, Profile11IdMode::Both) {
            (self.config.data_id / 0x100) as u8
        } else {
            0x00
        };
        compute_crc8_profile11(id0, id1, before, after)
    }

    /// Advances the counter one step, wrapping past 14 back to 0.
    pub fn increment_counter(&mut self)
        requires
            old(self).counter <= 15,
        ensures
            final(self).counter == (old(self).counter + 1) % 15,
            final(self).counter <= 14,
            final(self).config == old(self).config,
            final(self).initialized == old(self).initialized,
    {
        self.counter = Counter4Profile11::increment_counter(self.counter);
    }

    /// Runs the receive-side checks in order: CRC, then the explicit ID
    /// nibble in `Nibble` mode, then counter classification; resynchronizes
    /// the counter exactly when the first two pass.
    pub fn do_checks(&mut self, check_items: Profile11Check) -> (status: E2EStatus)
        requires
            old(self).wf(),
            check_items.rx_counter <= 15,
        ensures
            ({
                let pre = *old(self);
                if check_items.calculated_crc != check_items.rx_crc {
                    status == E2EStatus::CrcError && *final(self) == pre
                } else if pre.config.mode == Profile11IdMode::Nibble && spec_id_nibble(pre.config)
                    != check_items.rx_nibble {
                    status == E2EStatus::DataIdError && *final(self) == pre
                } else {
                    status == spec_classify(
                        spec_delta(pre.counter as int, check_items.rx_counter as int, 15),
                        pre.config.max_delta_counter as int,
                        pre.initialized,
                    ) && *final(self) == (Profile11 { counter: check_items.rx_counter, ..pre })
                }
            }),
    {
        if check_items.calculated_crc != check_items.rx_crc {
            return E2EStatus::CrcError;
        }
        if matches!(self.config.mode, Profile11IdMode::Nibble) && ((self.config.data_id / 0x100)
            as u8) % 16 != check_items.rx_nibble {
            return E2EStatus::DataIdError;
        }
        let status = self.validate_counter(check_items.rx_counter);
        self.counter = check_items.rx_counter;
        status
    }

    /// Classifies one received counter against the engine's state.
    pub fn validate_counter(&self, rx_counter: u8) -> (status: E2EStatus)
        requires
            self.counter <= 15,
            rx_counter <= 15,
        ensures
            status == spec_classify(
                spec_delta(self.counter as int, rx_counter as int, 15),
                self.config.max_delta_counter as int,
                self.initialized,
            ),
    {
        Counter4Profile11::validate_counter(
            self.counter,
            rx_counter,
            self.config.max_delta_counter,
            self.initialized,
        )
    }
}

impl E2EProfile for Profile11 {
    type Config = Profile11Config;

    open spec fn wf(&self) -> bool {
        spec_config_valid(self.config) && self.counter <= 15
    }

    open spec fn protect_req(&self, data: Seq<u8>) -> bool {
        spec_length_ok(self.config, data.len() as int) ==> spec_offsets_fit(self.config)
    }

    open spec fn check_req(&self, data: Seq<u8>) -> bool {
        spec_length_ok(self.config, data.len() as int) ==> spec_offsets_fit(self.config)
    }

    open spec fn new_ens(config: Profile11Config, r: E2EResult<Profile11>) -> bool {
        match r {
            Ok(p) => spec_config_valid(config) && p == (Profile11 {
                config,
                counter: 0,
                initialized: false,
            }),
            Err(e) => !spec_config_valid(config) && e matches E2EError::InvalidConfiguration(_),
        }
    }

    open spec fn protect_ens(
        pre: Profile11,
        post: Profile11,
        data_pre: Seq<u8>,
        data_post: Seq<u8>,
        r: E2EResult<()>,
    ) -> bool {
        match r {
            Ok(_) => {
                let cfg = pre.config;
                let crc_b = spec_crc_byte(cfg);
                let ctr_b = cfg.counter_offset as int / 8;
                let nib_b = cfg.nibble_offset as int / 8;
                &&& spec_length_ok(cfg, data_pre.len() as int)
                &&& data_post.len() == data_pre.len()
                &&& (forall|i: int|
                    0 <= i < data_pre.len() && i != crc_b && i != ctr_b && !(cfg.mode
                        == Profile11IdMode::Nibble && i == nib_b) ==> data_post[i] == data_pre[i])
                // the other half of the counter's byte is kept, unless it is
                // exactly where the ID nibble goes
                &&& (spec_counter_visible(cfg) && !(cfg.mode == Profile11IdMode::Nibble && nib_b
                    == ctr_b && cfg.nibble_offset != cfg.counter_offset) ==> spec_partner_nibble(
                    data_post,
                    cfg.counter_offset as int,
                ) == spec_partner_nibble(data_pre, cfg.counter_offset as int))
                // the other half of the ID nibble's byte is kept when that
                // byte holds no other field
                &&& (cfg.mode == Profile11IdMode::Nibble && spec_nibble_visible(cfg) && nib_b
                    != ctr_b ==> spec_partner_nibble(data_post, cfg.nibble_offset as int)
                    == spec_partner_nibble(data_pre, cfg.nibble_offset as int))
                &&& spec_protected(cfg, pre.counter, data_post)
                &&& post == (Profile11 {
                    counter: ((pre.counter + 1) % 15) as u8,
                    ..pre
                })
            },
            Err(e) => {
                &&& !spec_length_ok(pre.config, data_pre.len() as int)
                &&& data_post == data_pre
                &&& post == pre
                &&& e matches E2EError::InvalidDataFormat(_)
            },
        }
    }

    open spec fn check_ens(
        pre: Profile11,
        post: Profile11,
        data: Seq<u8>,
        r: E2EResult<E2EStatus>,
    ) -> bool {
        match r {
            Ok(status) => {
                &&& spec_length_ok(pre.config, data.len() as int)
                &&& status == spec_check_status(pre, data)
                &&& post == spec_check_state(pre, data)
            },
            Err(e) => {
                &&& !spec_length_ok(pre.config, data.len() as int)
                &&& post == pre
                &&& e matches E2EError::InvalidDataFormat(_)
            },
        }
    }

    fn new(config: Profile11Config) -> (r: E2EResult<Self>) {
        match Self::validate_config(&config) {
            Err(e) => Err(e),
            Ok(_) => Ok(Profile11 { config, counter: 0, initialized: false }),
        }
    }

    fn protect(&mut self, data: &mut Vec<u8>) -> (r: E2EResult<()>) {
        match self.validate_length(data.len()) {
            Err(e) => {
                return Err(e);
            },
            Ok(_) => {},
        }
        if matches!(self.config.mode, Profile11IdMode::Nibble) {
            let id_hi = (self.config.data_id / 0x100) as u8;
            self.write_nibble_data(self.config.nibble_offset, id_hi, data);
        }
        self.write_nibble_data(self.config.counter_offset, self.counter, data);
        let calculated_crc = self.compute_crc(data.as_slice());
        let ghost before_crc = data@;
        self.write_crc(calculated_crc, data);
        proof {
            let cb = spec_crc_byte(self.config);
            let len = data@.len() as int;
            assert(data@.subrange(0, cb) =~= before_crc.subrange(0, cb));
            assert(data@.subrange(cb + 1, len) =~= before_crc.subrange(cb + 1, len));
        }
        self.increment_counter();
        Ok(())
    }

    fn check(&mut self, data: &[u8]) -> (r: E2EResult<E2EStatus>) {
        match self.validate_length(data.len()) {
            Err(e) => {
                return Err(e);
            },
            Ok(_) => {},
        }
        let rx_nibble = if matches!(self.config.mode, Profile11IdMode::Nibble) {
            self.read_nibble_data(self.config.nibble_offset, data)
        } else {
            0x00
        };
        let check_items = Profile11Check {
            rx_nibble,
            rx_counter: self.read_nibble_data(self.config.counter_offset, data),
            rx_crc: self.read_crc(data),
            calculated_crc: self.compute_crc(data),
        };
        let status = self.do_checks(check_items);
        if !self.initialized && matches!(status, E2EStatus::StatusOk | E2EStatus::OkSomeLost) {
            self.initialized = true;
        }
        Ok(status)
    }
}

/// Law (round trip): a buffer freshly protected with the receiver's own
/// configuration — one whose three header fields sit at pairwise distinct
/// locations — is classified `StatusOk`, both on the very first reception
/// and whenever the written counter is one step ahead; the receiver
/// resynchronizes to the sender's counter and counts as initialized.
pub proof fn lemma_check_accepts_protected(rx: Profile11, tx_counter: u8, s: Seq<u8>)
    requires
        rx.wf(),
        tx_counter <= 14,
        spec_protected(rx.config, tx_counter, s),
        spec_counter_visible(rx.config),
        rx.config.mode == Profile11IdMode::Nibble ==> spec_nibble_visible(rx.config),
        (spec_delta(rx.counter as int, tx_counter as int, 15) == 0 && !rx.initialized)
            || spec_delta(rx.counter as int, tx_counter as int, 15) == 1,
    ensures
        spec_check_status(rx, s) == E2EStatus::StatusOk,
        spec_check_state(rx, s) == (Profile11 {
            counter: tx_counter,
            initialized: true,
            config: rx.config,
        }),
{
}

/// Law (ID mismatch, `Nibble` mode): a buffer protected by a sender whose
/// configuration agrees with the receiver's in everything but the Data ID,
/// where the two IDs share their low byte but differ in the stored nibble,
/// is classified `DataIdError`, and the receiver's state does not move.
pub proof fn lemma_check_rejects_foreign_id(
    rx: Profile11,
    tx_config: Profile11Config,
    tx_counter: u8,
    s: Seq<u8>,
)
    requires
        rx.wf(),
        spec_protected(tx_config, tx_counter, s),
        tx_config.mode == Profile11IdMode::Nibble,
        rx.config.mode == Profile11IdMode::Nibble,
        spec_nibble_visible(tx_config),
        tx_config.counter_offset == rx.config.counter_offset,
        tx_config.crc_offset == rx.config.crc_offset,
        tx_config.nibble_offset == rx.config.nibble_offset,
        tx_config.max_delta_counter == rx.config.max_delta_counter,
        tx_config.data_length == rx.config.data_length,
        tx_config.data_id % 0x100 == rx.config.data_id % 0x100,
        spec_id_nibble(tx_config) != spec_id_nibble(rx.config),
    ensures
        spec_check_status(rx, s) == E2EStatus::DataIdError,
        spec_check_state(rx, s) == rx,
{
    assert(spec_id_bytes(tx_config) =~= spec_id_bytes(rx.config));
    assert(spec_crc_input(rx.config, s) =~= spec_crc_input(tx_config, s));
}

} // verus!
