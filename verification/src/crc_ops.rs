//! CRC adapter over the `crc` crate.
//!
//! Each profile feeds a digest with the buffer bytes around its CRC field,
//! sometimes followed or preceded by out-of-band Data ID bytes. The digests
//! themselves are computed by the `crc` crate; this module gives each
//! algorithm's digest a name that the profile contracts speak of, and one
//! trusted entry point per algorithm.

use vstd::prelude::*;

verus! {

/// The CRC-8 digest (polynomial 0x1D, init 0x00, no reflection, xorout 0x00)
/// used by profile 11, over a byte sequence.
pub uninterp spec fn crc8_profile11_of(bytes: Seq<u8>) -> u8;

/// The AUTOSAR CRC-8 digest used by profile 22, over a byte sequence.
pub uninterp spec fn crc8_autosar_of(bytes: Seq<u8>) -> u8;

/// The CRC-16/IBM-3740 digest used by profiles 5 and 6, over a byte sequence.
pub uninterp spec fn crc16_ibm3740_of(bytes: Seq<u8>) -> u16;

/// The AUTOSAR CRC-32 digest used by profiles 4 and 8, over a byte sequence.
pub uninterp spec fn crc32_autosar_of(bytes: Seq<u8>) -> u32;

/// The CRC-64/XZ digest used by profile 7, over a byte sequence.
pub uninterp spec fn crc64_xz_of(bytes: Seq<u8>) -> u64;

/// Relies on `crc::Crc::<u8>::new(&crc::CRC_8_GSM_A)`, whose parameter set
/// (width 8, poly 0x1D, init 0x00, no reflection, xorout 0x00) is the one
/// profile 11 prescribes: `Digest::update` folds the fed bytes in order and
/// `finalize` is a function of the fed byte sequence alone, so the result
/// over the two ID bytes followed by both segments is `crc8_profile11_of`
/// of their concatenation.
#[verifier::external_body]
pub fn compute_crc8_profile11(id0: u8, id1: u8, a: &[u8], b: &[u8]) -> (r: u8)
    ensures
        r == crc8_profile11_of(seq![id0, id1] + a@ + b@),
{
    let crc = crc::Crc::<u8>::new(&crc::CRC_8_GSM_A);
    let mut digest = crc.digest();
    digest.update(&[id0, id1]);
    digest.update(a);
    digest.update(b);
    digest.finalize()
}

/// Relies on `crc::Crc::<u8>::new(&crc::CRC_8_AUTOSAR)`: the digest over the
/// two segments followed by the one Data ID byte is `crc8_autosar_of` of
/// their concatenation.
#[verifier::external_body]
pub fn compute_crc8_autosar(a: &[u8], b: &[u8], id: u8) -> (r: u8)
    ensures
        r == crc8_autosar_of(a@ + b@ + seq![id]),
{
    let crc = crc::Crc::<u8>::new(&crc::CRC_8_AUTOSAR);
    let mut digest = crc.digest();
    digest.update(a);
    digest.update(b);
    digest.update(&[id]);
    digest.finalize()
}

/// Relies on `crc::Crc::<u16>::new(&crc::CRC_16_IBM_3740)`: the digest over
/// the two segments followed by the two Data ID bytes is `crc16_ibm3740_of`
/// of their concatenation.
#[verifier::external_body]
pub fn compute_crc16_ibm3740_with_data_id(a: &[u8], b: &[u8], id0: u8, id1: u8) -> (r: u16)
    ensures
        r == crc16_ibm3740_of(a@ + b@ + seq![id0, id1]),
{
    let crc = crc::Crc::<u16>::new(&crc::CRC_16_IBM_3740);
    let mut digest = crc.digest();
    digest.update(a);
    digest.update(b);
    digest.update(&[id0, id1]);
    digest.finalize()
}

/// Relies on `crc::Crc::<u32>::new(&crc::CRC_32_AUTOSAR)`: the digest over
/// the two segments is `crc32_autosar_of` of their concatenation.
#[verifier::external_body]
pub fn compute_crc32_autosar(a: &[u8], b: &[u8]) -> (r: u32)
    ensures
        r == crc32_autosar_of(a@ + b@),
{
    let crc = crc::Crc::<u32>::new(&crc::CRC_32_AUTOSAR);
    let mut digest = crc.digest();
    digest.update(a);
    digest.update(b);
    digest.finalize()
}

/// Relies on `crc::Crc::<u64>::new(&crc::CRC_64_XZ)`: the digest over the
/// two segments is `crc64_xz_of` of their concatenation.
#[verifier::external_body]
pub fn compute_crc64_xz(a: &[u8], b: &[u8]) -> (r: u64)
    ensures
        r == crc64_xz_of(a@ + b@),
{
    let crc = crc::Crc::<u64>::new(&crc::CRC_64_XZ);
    let mut digest = crc.digest();
    digest.update(a);
    digest.update(b);
    digest.finalize()
}

} // verus!
