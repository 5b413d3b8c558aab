//! Modular sequence counters.
//!
//! Every profile tracks a counter in a small modular domain (4, 8, 16 or
//! 32 bits wide). This module defines the circular forward distance between
//! two counter values, the classification of that distance into a
//! `E2EStatus`, and one counter type per domain.

use vstd::arithmetic::div_mod::{
    lemma_add_mod_noop, lemma_mod_sub_multiples_vanish, lemma_small_mod,
};
use vstd::prelude::*;

use crate::E2EStatus;

verus! {

/// Circular distance going forward from `current` to `received` in a
/// counter domain of modulo `modulo`.
pub open spec fn spec_delta(current: int, received: int, modulo: int) -> int {
    if received >= current {
        received - current
    } else {
        modulo + received - current
    }
}

/// Classification of a counter delta, as used by every profile except
/// profile 22: the very first reception is never flagged `Repeated`.
pub open spec fn spec_classify(delta: int, max_delta: int, initialized: bool) -> E2EStatus {
    if delta == 0 {
        if initialized {
            E2EStatus::Repeated
        } else {
            E2EStatus::StatusOk
        }
    } else if delta == 1 {
        E2EStatus::StatusOk
    } else if 2 <= delta && delta <= max_delta {
        E2EStatus::OkSomeLost
    } else {
        E2EStatus::WrongSequence
    }
}

/// Profile 22's classification: `Repeated` on a zero delta even before the
/// first successful reception.
pub open spec fn spec_classify_strict_repeat(delta: int, max_delta: int) -> E2EStatus {
    if delta == 0 {
        E2EStatus::Repeated
    } else if delta == 1 {
        E2EStatus::StatusOk
    } else if 2 <= delta && delta <= max_delta {
        E2EStatus::OkSomeLost
    } else {
        E2EStatus::WrongSequence
    }
}

/// The counter value reached from `c` by `n` single increments in a domain
/// of modulo `m`.
pub open spec fn spec_advance(c: int, n: nat, m: int) -> int
    decreases n,
{
    if n == 0 {
        c
    } else {
        (spec_advance(c, (n - 1) as nat, m) + 1) % m
    }
}

/// Repeated single increments amount to one modular addition.
pub proof fn lemma_advance_adds(c: int, n: nat, m: int)
    requires
        2 <= m,
        0 <= c < m,
    ensures
        spec_advance(c, n, m) == (c + n) % m,
    decreases n,
{
    if n == 0 {
        lemma_small_mod(c as nat, m as nat);
    } else {
        lemma_advance_adds(c, (n - 1) as nat, m);
        lemma_small_mod(1nat, m as nat);
        lemma_add_mod_noop(c + n - 1, 1, m);
    }
}

/// Law: after exactly `m` increments a counter in a domain of modulo `m`
/// returns to its starting value.
pub proof fn lemma_counter_wraparound(c: int, m: int)
    requires
        2 <= m,
        0 <= c < m,
    ensures
        spec_advance(c, m as nat, m) == c,
{
    lemma_advance_adds(c, m as nat, m);
    lemma_mod_sub_multiples_vanish(c + m, m);
    lemma_small_mod(c as nat, m as nat);
}

/// Law: advancing a counter `j` steps forward leaves a circular distance of
/// exactly `j` to the starting value, for any `j` below the modulo.
pub proof fn lemma_delta_of_advance(c: int, j: int, m: int)
    requires
        2 <= m,
        0 <= c < m,
        0 <= j < m,
    ensures
        spec_delta(c, spec_advance(c, j as nat, m), m) == j,
{
    lemma_advance_adds(c, j as nat, m);
    if c + j < m {
        lemma_small_mod((c + j) as nat, m as nat);
    } else {
        lemma_mod_sub_multiples_vanish(c + j, m);
        lemma_small_mod((c + j - m) as nat, m as nat);
    }
}

/// Law (sequence classification): when a sender advances its counter `j`
/// steps past the last value a receiver accepted, the receiver classifies
/// the reception as the table prescribes: `j == 0` is `StatusOk` on the
/// first reception and `Repeated` afterwards, `j == 1` is `StatusOk`,
/// `2 <= j <= max_delta` is `OkSomeLost`, and any larger `j` is
/// `WrongSequence`.
pub proof fn lemma_sequence_classification(c: int, j: int, m: int, max_delta: int, initialized: bool)
    requires
        2 <= m,
        0 <= c < m,
        0 <= j < m,
    ensures
        ({
            let status = spec_classify(
                spec_delta(c, spec_advance(c, j as nat, m), m),
                max_delta,
                initialized,
            );
            &&& (j == 0 ==> status == (if initialized {
                E2EStatus::Repeated
            } else {
                E2EStatus::StatusOk
            }))
            &&& (j == 1 ==> status == E2EStatus::StatusOk)
            &&& (2 <= j && j <= max_delta ==> status == E2EStatus::OkSomeLost)
            &&& (2 <= j && j > max_delta ==> status == E2EStatus::WrongSequence)
        }),
{
    lemma_delta_of_advance(c, j, m);
}

/// Operations of one counter domain: wraparound increment, circular
/// distance, and status classification.
pub trait CounterOps {
    type CounterType;

    /// The domain's modulo: one more than the largest counter value, except
    /// for profile 11's counter, where the code point 15 is never valid.
    spec fn spec_modulo() -> int;

    /// The largest counter value of the domain.
    spec fn spec_max_value() -> int;

    /// The mathematical value of a counter.
    spec fn value_of(c: Self::CounterType) -> int;

    /// Whether a counter value lies within the domain.
    spec fn in_domain(c: Self::CounterType) -> bool;

    /// The domain's classification rule for one received counter.
    spec fn spec_validate(current: int, received: int, max_delta: int, initialized: bool) -> E2EStatus;

    fn increment_counter(current: Self::CounterType) -> (r: Self::CounterType)
        requires
            Self::in_domain(current),
        ensures
            Self::in_domain(r),
            Self::value_of(r) == (Self::value_of(current) + 1) % Self::spec_modulo(),
    ;

    fn check_counter_delta(current: Self::CounterType, received: Self::CounterType) -> (d: Self::CounterType)
        requires
            Self::in_domain(current),
            Self::in_domain(received),
        ensures
            Self::value_of(d) == spec_delta(
                Self::value_of(current),
                Self::value_of(received),
                Self::spec_modulo(),
            ),
    ;

    fn validate_counter(
        current: Self::CounterType,
        received: Self::CounterType,
        max_delta: Self::CounterType,
        initialized: bool,
    ) -> (s: E2EStatus)
        requires
            Self::in_domain(current),
            Self::in_domain(received),
        ensures
            s == Self::spec_validate(
                Self::value_of(current),
                Self::value_of(received),
                Self::value_of(max_delta),
                initialized,
            ),
    ;
}

/// 8-bit counter domain (profiles 5 and 6).
pub struct Counter8;

/// 16-bit counter domain (profile 4).
pub struct Counter16;

/// 32-bit counter domain (profiles 7 and 8).
pub struct Counter32;

/// 4-bit counter domain of profile 11: values 0 to 14, modulo 15.
pub struct Counter4Profile11;

/// 4-bit counter domain of profile 22: values 0 to 15, modulo 16.
pub struct Counter4Profile22;

impl CounterOps for Counter8 {
    type CounterType = u8;

    open spec fn spec_modulo() -> int {
        0x100
    }

    open spec fn spec_max_value() -> int {
        0xFF
    }

    open spec fn value_of(c: u8) -> int {
        c as int
    }

    open spec fn in_domain(c: u8) -> bool {
        true
    }

    open spec fn spec_validate(current: int, received: int, max_delta: int, initialized: bool) -> E2EStatus {
        spec_classify(spec_delta(current, received, 0x100), max_delta, initialized)
    }

    fn increment_counter(current: u8) -> (r: u8) {
        if current == 0xFF {
            0x00
        } else {
            current + 1
        }
    }

    fn check_counter_delta(current: u8, received: u8) -> (d: u8) {
        if received >= current {
            received - current
        } else {
            ((0x100u16 + received as u16 - current as u16) % 0x100) as u8
        }
    }

    fn validate_counter(current: u8, received: u8, max_delta: u8, initialized: bool) -> (s: E2EStatus) {
        let delta = Self::check_counter_delta(current, received);
        if delta == 0 {
            if initialized {
                E2EStatus::Repeated
            } else {
                E2EStatus::StatusOk
            }
        } else if delta == 1 {
            E2EStatus::StatusOk
        } else if delta >= 2 && delta <= max_delta {
            E2EStatus::OkSomeLost
        } else {
            E2EStatus::WrongSequence
        }
    }
}

impl CounterOps for Counter16 {
    type CounterType = u16;

    open spec fn spec_modulo() -> int {
        0x10000
    }

    open spec fn spec_max_value() -> int {
        0xFFFF
    }

    open spec fn value_of(c: u16) -> int {
        c as int
    }

    open spec fn in_domain(c: u16) -> bool {
        true
    }

    open spec fn spec_validate(current: int, received: int, max_delta: int, initialized: bool) -> E2EStatus {
        spec_classify(spec_delta(current, received, 0x10000), max_delta, initialized)
    }

    fn increment_counter(current: u16) -> (r: u16) {
        if current == 0xFFFF {
            0x0000
        } else {
            current + 1
        }
    }

    fn check_counter_delta(current: u16, received: u16) -> (d: u16) {
        if received >= current {
            received - current
        } else {
            ((0x10000u32 + received as u32 - current as u32) % 0x10000) as u16
        }
    }

    fn validate_counter(current: u16, received: u16, max_delta: u16, initialized: bool) -> (s: E2EStatus) {
        let delta = Self::check_counter_delta(current, received);
        if delta == 0 {
            if initialized {
                E2EStatus::Repeated
            } else {
                E2EStatus::StatusOk
            }
        } else if delta == 1 {
            E2EStatus::StatusOk
        } else if delta >= 2 && delta <= max_delta {
            E2EStatus::OkSomeLost
        } else {
            E2EStatus::WrongSequence
        }
    }
}

impl CounterOps for Counter32 {
    type CounterType = u32;

    open spec fn spec_modulo() -> int {
        0x100000000
    }

    open spec fn spec_max_value() -> int {
        0xFFFFFFFF
    }

    open spec fn value_of(c: u32) -> int {
        c as int
    }

    open spec fn in_domain(c: u32) -> bool {
        true
    }

    open spec fn spec_validate(current: int, received: int, max_delta: int, initialized: bool) -> E2EStatus {
        spec_classify(spec_delta(current, received, 0x100000000), max_delta, initialized)
    }

    fn increment_counter(current: u32) -> (r: u32) {
        if current == 0xFFFFFFFF {
            0x00000000
        } else {
            current + 1
        }
    }

    fn check_counter_delta(current: u32, received: u32) -> (d: u32) {
        if received >= current {
            received - current
        } else {
            ((0x100000000u64 + received as u64 - current as u64) % 0x100000000) as u32
        }
    }

    fn validate_counter(current: u32, received: u32, max_delta: u32, initialized: bool) -> (s: E2EStatus) {
        let delta = Self::check_counter_delta(current, received);
        if delta == 0 {
            if initialized {
                E2EStatus::Repeated
            } else {
                E2EStatus::StatusOk
            }
        } else if delta == 1 {
            E2EStatus::StatusOk
        } else if delta >= 2 && delta <= max_delta {
            E2EStatus::OkSomeLost
        } else {
            E2EStatus::WrongSequence
        }
    }
}

impl CounterOps for Counter4Profile11 {
    type CounterType = u8;

    open spec fn spec_modulo() -> int {
        15
    }

    open spec fn spec_max_value() -> int {
        14
    }

    open spec fn value_of(c: u8) -> int {
        c as int
    }

    // the counter itself never generates 15, but a receiver adopts whatever
    // nibble a CRC-valid buffer carried, so 15 must be tolerated
    open spec fn in_domain(c: u8) -> bool {
        c <= 15
    }

    open spec fn spec_validate(current: int, received: int, max_delta: int, initialized: bool) -> E2EStatus {
        spec_classify(spec_delta(current, received, 15), max_delta, initialized)
    }

    fn increment_counter(current: u8) -> (r: u8) {
        (current + 1) % 15
    }

    fn check_counter_delta(current: u8, received: u8) -> (d: u8) {
        if received >= current {
            received - current
        } else {
            (15 + received - current) % 15
        }
    }

    fn validate_counter(current: u8, received: u8, max_delta: u8, initialized: bool) -> (s: E2EStatus) {
        let delta = Self::check_counter_delta(current, received);
        if delta == 0 {
            if initialized {
                E2EStatus::Repeated
            } else {
                E2EStatus::StatusOk
            }
        } else if delta == 1 {
            E2EStatus::StatusOk
        } else if delta >= 2 && delta <= max_delta {
            E2EStatus::OkSomeLost
        } else {
            E2EStatus::WrongSequence
        }
    }
}

impl CounterOps for Counter4Profile22 {
    type CounterType = u8;

    open spec fn spec_modulo() -> int {
        16
    }

    open spec fn spec_max_value() -> int {
        15
    }

    open spec fn value_of(c: u8) -> int {
        c as int
    }

    open spec fn in_domain(c: u8) -> bool {
        c <= 15
    }

    open spec fn spec_validate(current: int, received: int, max_delta: int, initialized: bool) -> E2EStatus {
        spec_classify_strict_repeat(spec_delta(current, received, 16), max_delta)
    }

    fn increment_counter(current: u8) -> (r: u8) {
        (current + 1) % 16
    }

    fn check_counter_delta(current: u8, received: u8) -> (d: u8) {
        if received >= current {
            received - current
        } else {
            (16 + received - current) % 16
        }
    }

    fn validate_counter(current: u8, received: u8, max_delta: u8, _initialized: bool) -> (s: E2EStatus) {
        let delta = Self::check_counter_delta(current, received);
        if delta == 0 {
            E2EStatus::Repeated
        } else if delta == 1 {
            E2EStatus::StatusOk
        } else if delta >= 2 && delta <= max_delta {
            E2EStatus::OkSomeLost
        } else {
            E2EStatus::WrongSequence
        }
    }
}

} // verus!
