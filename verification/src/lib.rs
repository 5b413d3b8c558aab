//! AUTOSAR End-to-End (E2E) protection profiles.
//!
//! Each profile guards a fixed byte buffer against corruption (CRC), loss,
//! duplication and reordering (sequence counter), and cross-wiring between
//! logical data streams (Data ID). `protect` stamps the header fields into
//! the buffer before transmission; `check` inspects a received buffer and
//! classifies it.

use vstd::prelude::*;

pub mod counter;
pub mod crc_ops;
pub mod field_ops;
pub mod profile11;
pub mod profile22;
pub mod profile4;
pub mod profile4m;
pub mod profile5;
pub mod profile6;
pub mod profile7;
pub mod profile7m;
pub mod profile8;
pub mod validation;

verus! {

/// Result of checking one received data buffer.
///
/// These are expected business outcomes, not faults: a receiver is supposed
/// to see `CrcError` or `WrongSequence` during normal operation and react.
#[derive(Debug, Clone, Copy, PartialEq, Eq, Structural)]
pub enum E2EStatus {
    /// All checks of the data in this cycle were successful.
    StatusOk,
    /// CRC check failed: data corruption detected.
    CrcError,
    /// Data ID check failed: incorrect addressing.
    DataIdError,
    /// Counter check failed: same counter as the previous cycle.
    Repeated,
    /// Counter increased within the allowed configured delta, but by more than one.
    OkSomeLost,
    /// Counter check failed: possible message loss or duplication.
    WrongSequence,
    /// Data length field does not match the received buffer length.
    DataLengthError,
    /// Source ID check failed: incorrect addressing.
    SourceIdError,
    /// Message type check failed.
    MessageTypeError,
    /// Message result check failed.
    MessageResultError,
}

/// Faults reported by the profile engines.
#[derive(Debug, Clone, PartialEq, Eq)]
pub enum E2EError {
    /// Invalid configuration handed to a constructor.
    InvalidConfiguration(&'static str),
    /// A supplied buffer violates the profile's length contract.
    InvalidDataFormat(&'static str),
}

/// Result type for E2E operations.
pub type E2EResult<T> = Result<T, E2EError>;

/// Common interface of the E2E profile engines.
///
/// Each engine defines, as spec functions, its well-formedness predicate,
/// the inputs its operations accept, and the exact meaning of `new`,
/// `protect` and `check`; the executable methods are proved against those.
pub trait E2EProfile: Sized {
    /// Configuration type of this profile.
    type Config;

    /// Well-formedness of an engine: a validated configuration and a
    /// counter inside its domain.
    spec fn wf(&self) -> bool;

    /// The buffers `protect` accepts without an index fault: every buffer
    /// that either fails the length validation or has room for the header.
    spec fn protect_req(&self, data: Seq<u8>) -> bool;

    /// The buffers `check` accepts without an index fault.
    spec fn check_req(&self, data: Seq<u8>) -> bool;

    /// What `new` returns, for every configuration.
    spec fn new_ens(config: Self::Config, r: E2EResult<Self>) -> bool;

    /// How `protect` transforms the engine and the buffer, for every input.
    spec fn protect_ens(
        pre: Self,
        post: Self,
        data_pre: Seq<u8>,
        data_post: Seq<u8>,
        r: E2EResult<()>,
    ) -> bool;

    /// What `check` returns and how it moves the engine's sequence state,
    /// for every input.
    spec fn check_ens(pre: Self, post: Self, data: Seq<u8>, r: E2EResult<E2EStatus>) -> bool;

    /// Creates an engine with fresh sequence state from a validated
    /// configuration, or reports why the configuration is invalid.
    fn new(config: Self::Config) -> (r: E2EResult<Self>)
        ensures
            Self::new_ens(config, r),
            r matches Ok(p) ==> p.wf(),
    ;

    /// Stamps the profile's header fields into `data` and advances the
    /// internal counter by one step.
    fn protect(&mut self, data: &mut Vec<u8>) -> (r: E2EResult<()>)
        requires
            old(self).wf(),
            old(self).protect_req(old(data)@),
        ensures
            final(self).wf(),
            Self::protect_ens(*old(self), *final(self), old(data)@, final(data)@, r),
    ;

    /// Inspects a received buffer, classifies it, and resynchronizes the
    /// internal counter when the buffer's integrity checks pass.
    fn check(&mut self, data: &[u8]) -> (r: E2EResult<E2EStatus>)
        requires
            old(self).wf(),
            old(self).check_req(data@),
        ensures
            final(self).wf(),
            Self::check_ens(*old(self), *final(self), data@, r),
    ;
}

} // verus!
