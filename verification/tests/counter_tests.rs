use autosar_e2e::counter::{
    Counter16, Counter32, Counter4Profile11, Counter4Profile22, Counter8, CounterOps,
};
use autosar_e2e::E2EStatus;

#[test]
fn test_counter8_ops() {
    assert_eq!(Counter8::increment_counter(0), 1);
    assert_eq!(Counter8::increment_counter(0xFF), 0);
    assert_eq!(Counter8::check_counter_delta(5, 5), 0);
    assert_eq!(Counter8::check_counter_delta(5, 6), 1);
    assert_eq!(Counter8::check_counter_delta(0xFF, 1), 2);
    assert_eq!(
        Counter8::validate_counter(5, 5, 3, false),
        E2EStatus::StatusOk
    );
    assert_eq!(
        Counter8::validate_counter(5, 5, 3, true),
        E2EStatus::Repeated
    );
    assert_eq!(
        Counter8::validate_counter(5, 6, 3, true),
        E2EStatus::StatusOk
    );
    assert_eq!(
        Counter8::validate_counter(5, 8, 3, true),
        E2EStatus::OkSomeLost
    );
    assert_eq!(
        Counter8::validate_counter(5, 9, 3, true),
        E2EStatus::WrongSequence
    );
}

#[test]
fn test_counter16_ops() {
    assert_eq!(Counter16::increment_counter(0xFFFF), 0);
    assert_eq!(Counter16::check_counter_delta(0xFFFF, 0), 1);
    assert_eq!(
        Counter16::validate_counter(0xFFFF, 0, 1, true),
        E2EStatus::StatusOk
    );
}

#[test]
fn test_counter32_ops() {
    assert_eq!(Counter32::increment_counter(0xFFFFFFFF), 0);
    assert_eq!(Counter32::check_counter_delta(0xFFFFFFFE, 1), 3);
    assert_eq!(
        Counter32::validate_counter(0xFFFFFFFF, 0, 1, true),
        E2EStatus::StatusOk
    );
}

#[test]
fn test_counter4_profile11_ops() {
    // the profile 11 domain wraps past 14 back to 0
    assert_eq!(Counter4Profile11::increment_counter(14), 0);
    assert_eq!(Counter4Profile11::check_counter_delta(14, 0), 1);
    assert_eq!(
        Counter4Profile11::validate_counter(14, 0, 1, true),
        E2EStatus::StatusOk
    );
    assert_eq!(
        Counter4Profile11::validate_counter(3, 3, 1, false),
        E2EStatus::StatusOk
    );
}

#[test]
fn test_counter4_profile22_ops() {
    // the profile 22 domain wraps past 15, and a zero delta is Repeated
    // even before the first successful reception
    assert_eq!(Counter4Profile22::increment_counter(15), 0);
    assert_eq!(Counter4Profile22::check_counter_delta(15, 0), 1);
    assert_eq!(
        Counter4Profile22::validate_counter(3, 3, 1, false),
        E2EStatus::Repeated
    );
    assert_eq!(
        Counter4Profile22::validate_counter(15, 0, 1, false),
        E2EStatus::StatusOk
    );
}
