//! E2E profile 7M.
//!
//! Profile 7M wraps a full profile 7 engine and adds a 4-byte extension
//! immediately after the base header's Data ID field: bits 7..6 of its
//! first byte carry a message type, bits 5..4 a message result, and the low
//! 28 bits a source ID (the source ID's top 4 bits are silently truncated).
//! `protect` stamps the extension before the base engine runs, so the base
//! CRC covers it; `check` runs the base checks first, and only a buffer the
//! base accepts is held to the extension's equality checks: a mismatch
//! overrides the base status with the matching error, and otherwise the
//! base status stands.

use vstd::pervasive::VecAdditionalExecFns;
use vstd::prelude::*;

use crate::counter::spec_delta;
use crate::field_ops::{be32_at, read_be_u32_at, unchanged_outside, write_be_u32_at};
use crate::profile7::{
    spec_header_offset, spec_length_ok, spec_protected, Profile7, Profile7Config,
};
use crate::{profile7, E2EError, E2EProfile, E2EResult, E2EStatus};

verus! {

/// Fields gathered from one received buffer's extension.
pub struct Profile7mCheck {
    /// Source ID (28 bits) read from the extension.
    pub rx_source_id: u32,
    /// Message type (2 bits) read from the extension.
    pub rx_message_type: u8,
    /// Message result (2 bits) read from the extension.
    pub rx_message_result: u8,
}

/// E2E profile 7M engine: a profile 7 engine plus the extension fields.
#[derive(Clone)]
pub struct Profile7m {
    /// The wrapped profile 7 engine.
    pub base: Profile7,
    /// The configuration shared with the base engine.
    pub config: Profile7Config,
    /// Message type stamped on send and expected on reception (2 bits).
    pub message_type: u8,
    /// Message result stamped on send and expected on reception (2 bits).
    pub message_result: u8,
    /// Source ID stamped on send and expected on reception (28 bits).
    pub source_id: u32,
}

/// The message type stored in a buffer's extension.
pub open spec fn spec_rx_type(s: Seq<u8>, off: int) -> int {
    (s[off + 20] as int) / 64
}

/// The message result stored in a buffer's extension.
pub open spec fn spec_rx_result(s: Seq<u8>, off: int) -> int {
    ((s[off + 20] as int) / 16) % 4
}

/// The source ID stored in a buffer's extension.
pub open spec fn spec_rx_source_id(s: Seq<u8>, off: int) -> int {
    be32_at(s, off + 20) % 0x10000000
}

/// A buffer extension as `protect` leaves it behind: the engine's three
/// runtime fields, truncated to their wire widths.
pub open spec fn spec_ext_stamped(m: Profile7m, s: Seq<u8>) -> bool {
    let off = spec_header_offset(m.config);
    &&& spec_rx_type(s, off) == m.message_type as int % 4
    &&& spec_rx_result(s, off) == m.message_result as int % 4
    &&& spec_rx_source_id(s, off) == m.source_id as int % 0x10000000
}

/// The status `check` reports for a buffer of accepted length: the base
/// status where the base rejects or every extension field matches, else
/// the first mismatching extension field's error.
pub open spec fn spec_check_status(pre: Profile7m, s: Seq<u8>) -> E2EStatus {
    let off = spec_header_offset(pre.config);
    let base_status = profile7::spec_check_status(pre.base, s);
    if base_status == E2EStatus::StatusOk || base_status == E2EStatus::OkSomeLost {
        if spec_rx_source_id(s, off) != pre.source_id {
            E2EStatus::SourceIdError
        } else if spec_rx_result(s, off) != pre.message_result {
            E2EStatus::MessageResultError
        } else if spec_rx_type(s, off) != pre.message_type {
            E2EStatus::MessageTypeError
        } else {
            base_status
        }
    } else {
        base_status
    }
}

/// The low 28 bits of a 32-bit value are its top-byte nibble and its low
/// three bytes.
proof fn lemma_low28(b: u32, rest: u32)
    requires
        b < 0x100,
        rest < 0x1000000,
    ensures
        (b * 0x1000000 + rest) % 0x10000000 == (b % 0x10) * 0x1000000 + rest,
{
    assert(b < 0x100 && rest < 0x1000000 ==> (b * 0x1000000 + rest) % 0x10000000 == (b % 0x10)
        * 0x1000000 + rest) by (bit_vector);
}

/// The extension's first byte after the three stamping writes: type in the
/// top two bits, result in the next two, and the source ID nibble kept.
proof fn lemma_stamp_byte(b0: u8, t: u8, r2: u8)
    ensures
        ((b0 / 64) * 64 + b0 % 16 + (r2 % 4) * 16) % 64 + (t % 4) * 64 == (t % 4) * 64 + (r2 % 4)
            * 16 + b0 % 16,
{
    assert(((b0 / 64) * 64 + b0 % 16 + (r2 % 4) * 16) % 64 + (t % 4) * 64 == (t % 4) * 64 + (r2
        % 4) * 16 + b0 % 16) by (bit_vector);
}

/// Reading the packed extension byte recovers its three fields.
proof fn lemma_read_byte(t: u8, r2: u8, lo: u8)
    requires
        t < 4,
        r2 < 4,
        lo < 16,
    ensures
        (t * 64 + r2 * 16 + lo) / 64 == t,
        ((t * 64 + r2 * 16 + lo) / 16) % 4 == r2,
        (t * 64 + r2 * 16 + lo) % 16 == lo,
{
    assert(t < 4 && r2 < 4 && lo < 16 ==> (t * 64 + r2 * 16 + lo) / 64 == t && ((t * 64 + r2 * 16
        + lo) / 16) % 4 == r2 && (t * 64 + r2 * 16 + lo) % 16 == lo) by (bit_vector);
}

/// The three low bytes of a 32-bit value compose to its value modulo 2^24.
proof fn lemma_low24(v: u32)
    ensures
        ((v / 0x10000) % 0x100) * 0x10000 + ((v / 0x100) % 0x100) * 0x100 + v % 0x100 == v
            % 0x1000000,
        (v / 0x1000000) % 0x10 * 0x1000000 + v % 0x1000000 == v % 0x10000000,
{
    assert(((v / 0x10000) % 0x100) * 0x10000 + ((v / 0x100) % 0x100) * 0x100 + v % 0x100 == v
        % 0x1000000) by (bit_vector);
    assert((v / 0x1000000) % 0x10 * 0x1000000 + v % 0x1000000 == v % 0x10000000) by (bit_vector);
}

impl Profile7m {
    /// Writes the full 32-bit source ID into the extension; the later type
    /// and result writes reclaim its top 4 bits.
    pub fn write_source_id(&self, data: &mut Vec<u8>)
        requires
            spec_header_offset(self.config) + 24 <= old(data)@.len(),
        ensures
            unchanged_outside(
                old(data)@,
                final(data)@,
                spec_header_offset(self.config) + 20,
                spec_header_offset(self.config) + 24,
            ),
            final(data)@[spec_header_offset(self.config) + 20] == self.source_id as int
                / 0x1000000,
            final(data)@[spec_header_offset(self.config) + 21] == (self.source_id as int / 0x10000)
                % 0x100,
            final(data)@[spec_header_offset(self.config) + 22] == (self.source_id as int / 0x100)
                % 0x100,
            final(data)@[spec_header_offset(self.config) + 23] == self.source_id as int % 0x100,
    {
        let offset = (self.config.offset / 8) as usize;
        write_be_u32_at(data, offset + 20, self.source_id);
    }

    /// Writes the 2-bit message type into bits 7..6 of the extension's
    /// first byte, keeping the other bits.
    pub fn write_message_type(&self, data: &mut Vec<u8>)
        requires
            spec_header_offset(self.config) + 24 <= old(data)@.len(),
        ensures
            unchanged_outside(
                old(data)@,
                final(data)@,
                spec_header_offset(self.config) + 20,
                spec_header_offset(self.config) + 21,
            ),
            final(data)@[spec_header_offset(self.config) + 20] == (old(
                data,
            )@[spec_header_offset(self.config) + 20] as int) % 64 + (self.message_type as int % 4)
                * 64,
    {
        let offset = (self.config.offset / 8) as usize;
        let b = data[offset + 20];
        data.set(offset + 20, b % 64 + (self.message_type % 4) * 64);
    }

    /// Writes the 2-bit message result into bits 5..4 of the extension's
    /// first byte, keeping the other bits.
    pub fn write_message_result(&self, data: &mut Vec<u8>)
        requires
            spec_header_offset(self.config) + 24 <= old(data)@.len(),
        ensures
            unchanged_outside(
                old(data)@,
                final(data)@,
                spec_header_offset(self.config) + 20,
                spec_header_offset(self.config) + 21,
            ),
            final(data)@[spec_header_offset(self.config) + 20] == ((old(
                data,
            )@[spec_header_offset(self.config) + 20] as int) / 64) * 64 + (old(
                data,
            )@[spec_header_offset(self.config) + 20] as int) % 16 + (self.message_result as int
                % 4) * 16,
    {
        let offset = (self.config.offset / 8) as usize;
        let b = data[offset + 20];
        data.set(offset + 20, (b / 64) * 64 + b % 16 + (self.message_result % 4) * 16);
    }

    /// Reads the 28-bit source ID from the extension.
    pub fn read_source_id(&self, data: &[u8]) -> (r: u32)
        requires
            spec_header_offset(self.config) + 24 <= data@.len(),
        ensures
            r == spec_rx_source_id(data@, spec_header_offset(self.config)),
    {
        let offset = (self.config.offset / 8) as usize;
        read_be_u32_at(data, offset + 20) % 0x10000000
    }

    /// Reads the 2-bit message type from the extension.
    pub fn read_message_type(&self, data: &[u8]) -> (r: u8)
        requires
            spec_header_offset(self.config) + 24 <= data@.len(),
        ensures
            r == spec_rx_type(data@, spec_header_offset(self.config)),
    {
        let offset = (self.config.offset / 8) as usize;
        let b = *vstd::slice::slice_index_get(data, offset + 20);
        b / 64
    }

    /// Reads the 2-bit message result from the extension.
    pub fn read_message_result(&self, data: &[u8]) -> (r: u8)
        requires
            spec_header_offset(self.config) + 24 <= data@.len(),
        ensures
            r == spec_rx_result(data@, spec_header_offset(self.config)),
    {
        let offset = (self.config.offset / 8) as usize;
        let b = *vstd::slice::slice_index_get(data, offset + 20);
        (b / 16) % 4
    }

    /// Compares the extension fields against the engine's own, in order:
    /// source ID, message result, message type.
    pub fn do_checks(&mut self, check_items: Profile7mCheck) -> (status: E2EStatus)
        ensures
            *final(self) == *old(self),
            status == ({
                let pre = *old(self);
                if check_items.rx_source_id != pre.source_id {
                    E2EStatus::SourceIdError
                } else if check_items.rx_message_result != pre.message_result {
                    E2EStatus::MessageResultError
                } else if check_items.rx_message_type != pre.message_type {
                    E2EStatus::MessageTypeError
                } else {
                    E2EStatus::StatusOk
                }
            }),
    {
        if self.source_id != check_items.rx_source_id {
            return E2EStatus::SourceIdError;
        }
        if self.message_result != check_items.rx_message_result {
            return E2EStatus::MessageResultError;
        }
        if self.message_type != check_items.rx_message_type {
            return E2EStatus::MessageTypeError;
        }
        E2EStatus::StatusOk
    }
}

impl E2EProfile for Profile7m {
    type Config = Profile7Config;

    open spec fn wf(&self) -> bool {
        self.base.wf() && self.config == self.base.config
    }

    open spec fn protect_req(&self, data: Seq<u8>) -> bool {
        spec_header_offset(self.config) + 24 <= data.len()
    }

    open spec fn check_req(&self, data: Seq<u8>) -> bool {
        spec_length_ok(self.config, data.len() as int) ==> spec_header_offset(self.config) + 24
            <= data.len()
    }

    open spec fn new_ens(config: Profile7Config, r: E2EResult<Profile7m>) -> bool {
        match r {
            Ok(p) => profile7::spec_config_valid(config) && p == (Profile7m {
                base: Profile7 { config, counter: 0, initialized: false },
                config,
                message_type: 0,
                message_result: 0,
                source_id: 0x0a0b0c0d,
            }),
            Err(e) => !profile7::spec_config_valid(config) && e
                matches E2EError::InvalidConfiguration(_),
        }
    }

    open spec fn protect_ens(
        pre: Profile7m,
        post: Profile7m,
        data_pre: Seq<u8>,
        data_post: Seq<u8>,
        r: E2EResult<()>,
    ) -> bool {
        let off = spec_header_offset(pre.config);
        match r {
            Ok(_) => {
                &&& spec_length_ok(pre.config, data_pre.len() as int)
                &&& unchanged_outside(data_pre, data_post, off, off + 24)
                &&& spec_protected(pre.config, pre.base.counter, data_post)
                &&& spec_ext_stamped(pre, data_post)
                &&& post == (Profile7m {
                    base: Profile7 {
                        counter: ((pre.base.counter + 1) % 0x100000000) as u32,
                        ..pre.base
                    },
                    ..pre
                })
            },
            Err(e) => {
                &&& !spec_length_ok(pre.config, data_pre.len() as int)
                &&& unchanged_outside(data_pre, data_post, off + 20, off + 24)
                &&& spec_ext_stamped(pre, data_post)
                &&& post == pre
                &&& e matches E2EError::InvalidDataFormat(_)
            },
        }
    }

    open spec fn check_ens(
        pre: Profile7m,
        post: Profile7m,
        data: Seq<u8>,
        r: E2EResult<E2EStatus>,
    ) -> bool {
        match r {
            Ok(status) => {
                &&& spec_length_ok(pre.config, data.len() as int)
                &&& status == spec_check_status(pre, data)
                &&& post == (Profile7m { base: profile7::spec_check_state(pre.base, data), ..pre })
            },
            Err(e) => {
                &&& !spec_length_ok(pre.config, data.len() as int)
                &&& post == pre
                &&& e matches E2EError::InvalidDataFormat(_)
            },
        }
    }

    fn new(config: Profile7Config) -> (r: E2EResult<Self>) {
        match Profile7::new(config) {
            Err(e) => Err(e),
            Ok(base) => Ok(
                Profile7m {
                    base,
                    config,
                    message_type: 0x00,
                    message_result: 0x00,
                    source_id: 0x0a0b0c0d,
                },
            ),
        }
    }

    fn protect(&mut self, data: &mut Vec<u8>) -> (r: E2EResult<()>) {
        let ghost off = spec_header_offset(self.config);
        self.write_source_id(data);
        let ghost s1 = data@;
        self.write_message_result(data);
        self.write_message_type(data);
        let ghost stamped = data@;
        proof {
            let sid = self.source_id;
            let b0 = s1[off + 20];
            lemma_stamp_byte(b0, self.message_type, self.message_result);
            assert(stamped[off + 20] == (self.message_type % 4) * 64 + (self.message_result % 4)
                * 16 + b0 % 16);
            lemma_read_byte(self.message_type % 4, self.message_result % 4, b0 % 16);
            lemma_low24(sid);
            lemma_low28((stamped[off + 20] as u32), (sid % 0x1000000) as u32);
            assert(spec_ext_stamped(*self, stamped));
        }
        match self.base.protect(data) {
            Err(e) => {
                return Err(e);
            },
            Ok(_) => {},
        }
        proof {
            assert(data@[off + 20] == stamped[off + 20]);
            assert(data@[off + 21] == stamped[off + 21]);
            assert(data@[off + 22] == stamped[off + 22]);
            assert(data@[off + 23] == stamped[off + 23]);
            assert(spec_rx_source_id(data@, off) == spec_rx_source_id(stamped, off));
        }
        Ok(())
    }

    fn check(&mut self, data: &[u8]) -> (r: E2EResult<E2EStatus>) {
        let mut status = match self.base.check(data) {
            Err(e) => {
                return Err(e);
            },
            Ok(s) => s,
        };
        let check_items = Profile7mCheck {
            rx_source_id: self.read_source_id(data),
            rx_message_result: self.read_message_result(data),
            rx_message_type: self.read_message_type(data),
        };
        if status == E2EStatus::StatusOk || status == E2EStatus::OkSomeLost {
            let ext_status = self.do_checks(check_items);
            if !matches!(ext_status, E2EStatus::StatusOk) {
                status = ext_status;
            }
        }
        Ok(status)
    }
}

/// Law (round trip): a buffer freshly protected by an engine sharing the
/// receiver's configuration and extension fields is classified `StatusOk`
/// on first reception or when the counter is one step ahead, provided the
/// receiver's own fields fit their wire widths.
pub proof fn lemma_check_accepts_protected(rx: Profile7m, tx_counter: u32, s: Seq<u8>)
    requires
        rx.wf(),
        spec_protected(rx.config, tx_counter, s),
        spec_ext_stamped(rx, s),
        rx.source_id < 0x10000000,
        rx.message_type < 4,
        rx.message_result < 4,
        (spec_delta(rx.base.counter as int, tx_counter as int, 0x100000000) == 0
            && !rx.base.initialized) || spec_delta(
            rx.base.counter as int,
            tx_counter as int,
            0x100000000,
        ) == 1,
    ensures
        spec_check_status(rx, s) == E2EStatus::StatusOk,
{
    profile7::lemma_check_accepts_protected(rx.base, tx_counter, s);
}

/// Law (ID mismatch): the composite forwards the base engine's
/// `DataIdError` unchanged when the sender's Data ID differs from the
/// receiver's, all else equal.
pub proof fn lemma_check_rejects_foreign_id(
    rx: Profile7m,
    tx_config: Profile7Config,
    tx_counter: u32,
    s: Seq<u8>,
)
    requires
        rx.wf(),
        spec_protected(tx_config, tx_counter, s),
        tx_config.offset == rx.config.offset,
        tx_config.min_data_length == rx.config.min_data_length,
        tx_config.max_data_length == rx.config.max_data_length,
        tx_config.max_delta_counter == rx.config.max_delta_counter,
        tx_config.data_id != rx.config.data_id,
    ensures
        spec_check_status(rx, s) == E2EStatus::DataIdError,
{
    profile7::lemma_check_rejects_foreign_id(rx.base, tx_config, tx_counter, s);
}

} // verus!
