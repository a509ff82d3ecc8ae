use multisig_escrow::error::{EscrowError, ValidationError};
use multisig_escrow::ledger::{count_approved, position_of, Participant};
use multisig_escrow::multisig::{ApprovalResult, Multisig};
use multisig_escrow::ratio::Ratio;

fn entry(account: &str, approved: bool) -> Participant {
    Participant { account: account.to_string(), approved }
}

#[test]
fn ratio_range_is_above_zero_up_to_one() {
    assert!(Ratio::new(1, 2).is_in_range());
    assert!(Ratio::new(1, 1).is_in_range());
    assert!(Ratio::new(u64::MAX, u64::MAX).is_in_range());
    assert!(Ratio::new(1, u64::MAX).is_in_range());
    assert!(!Ratio::new(0, 1).is_in_range());
    assert!(!Ratio::new(0, 0).is_in_range());
    assert!(!Ratio::new(1, 0).is_in_range());
    assert!(!Ratio::new(2, 1).is_in_range());
    assert!(!Ratio::new(u64::MAX, u64::MAX - 1).is_in_range());
}

#[test]
fn ratio_keeps_what_it_was_given() {
    let r = Ratio::new(2, 4);
    assert_eq!(r.numerator, 2);
    assert_eq!(r.denominator, 4);
    assert_ne!(r, Ratio::new(1, 2));
}

#[test]
fn threshold_is_compared_exactly() {
    let half = Ratio::new(1, 2);
    assert!(!half.is_reached_by(0, 4));
    assert!(!half.is_reached_by(1, 4));
    assert!(half.is_reached_by(2, 4));
    assert!(half.is_reached_by(3, 4));
    let three_quarters = Ratio::new(3, 4);
    assert!(!three_quarters.is_reached_by(2, 4));
    assert!(three_quarters.is_reached_by(3, 4));
    let third = Ratio::new(1, 3);
    assert!(!third.is_reached_by(33, 100));
    assert!(third.is_reached_by(34, 100));
    assert!(third.is_reached_by(1, 3));
    let two_thirds = Ratio::new(2, 3);
    assert!(!two_thirds.is_reached_by(66, 100));
    assert!(two_thirds.is_reached_by(67, 100));
}

#[test]
fn threshold_does_not_overflow() {
    let big = Ratio::new(u64::MAX - 1, u64::MAX);
    let n = u32::MAX as usize;
    assert!(big.is_reached_by(n, n));
    assert!(!big.is_reached_by(n - 1, n));
    assert!(big.is_reached_by(usize::MAX, usize::MAX));
    assert!(!big.is_reached_by(usize::MAX / 2, usize::MAX));
    assert!(Ratio::new(u64::MAX, u64::MAX).is_reached_by(usize::MAX, usize::MAX));
    assert!(!Ratio::new(u64::MAX, u64::MAX).is_reached_by(usize::MAX - 1, usize::MAX));
}

#[test]
fn threshold_is_monotone_in_the_approvals() {
    let r = Ratio::new(5, 9);
    let mut reached = false;
    for approved in 0..=9usize {
        let now = r.is_reached_by(approved, 9);
        assert!(!reached || now);
        reached = now;
        assert_eq!(now, approved >= 5);
    }
}

#[test]
fn position_is_that_of_the_first_match() {
    let entries = vec![entry("a", false), entry("b", true), entry("a", true)];
    assert_eq!(position_of(&entries, &"a".to_string()), Some(0));
    assert_eq!(position_of(&entries, &"b".to_string()), Some(1));
    assert_eq!(position_of(&entries, &"c".to_string()), None);
    assert_eq!(position_of(&Vec::new(), &"a".to_string()), None);
}

#[test]
fn approvals_are_counted() {
    assert_eq!(count_approved(&Vec::new()), 0);
    assert_eq!(count_approved(&vec![entry("a", false)]), 0);
    assert_eq!(
        count_approved(&vec![entry("a", true), entry("b", false), entry("c", true)]),
        2
    );
}

#[test]
fn record_inputs_are_validated_in_order() {
    assert_eq!(
        Multisig::new(0, Vec::new(), 0, Ratio::new(0, 0), String::new()).err(),
        Some(ValidationError::NoParticipants)
    );
    assert_eq!(
        Multisig::new(0, vec!["a".to_string()], 0, Ratio::new(0, 0), String::new()).err(),
        Some(ValidationError::ZeroAmount)
    );
    assert_eq!(
        Multisig::new(0, vec!["a".to_string()], 1, Ratio::new(0, 0), String::new()).err(),
        Some(ValidationError::RatioOutOfRange)
    );
    assert!(Multisig::new(0, vec!["a".to_string()], 1, Ratio::new(1, 1), String::new()).is_ok());
}

#[test]
fn a_stored_record_comes_back_as_it_was() {
    let mut record = Multisig::new(
        3,
        vec!["a".to_string(), "b".to_string(), "c".to_string()],
        8,
        Ratio::new(2, 3),
        "d".to_string(),
    )
    .unwrap();
    assert_eq!(record.approve(&"b".to_string(), 8), Ok(ApprovalResult::Pending));
    let stored: Vec<Participant> = record
        .entries()
        .iter()
        .map(|p| Participant { account: p.account.clone(), approved: p.approved })
        .collect();
    let mut back = Multisig::restore(
        record.id(),
        stored,
        record.required_amount(),
        record.approval_ratio(),
        record.destination().clone(),
        record.is_released(),
    )
    .unwrap();
    assert_eq!(format!("{:?}", back), format!("{:?}", record));
    assert_eq!(back.approved_count(), 1);
    assert_eq!(back.approval_of(&"b".to_string()), Some(true));
    assert!(matches!(back.approve(&"a".to_string(), 8), Ok(ApprovalResult::Released(_))));
}

#[test]
fn restore_rejects_an_account_listed_twice() {
    let entries = vec![entry("a", false), entry("b", false), entry("a", false)];
    assert!(Multisig::restore(0, entries, 1, Ratio::new(1, 1), "d".to_string(), false).is_none());
}

#[test]
fn restore_rejects_invalid_terms() {
    assert!(
        Multisig::restore(0, Vec::new(), 1, Ratio::new(1, 1), "d".to_string(), false).is_none()
    );
    assert!(Multisig::restore(0, vec![entry("a", false)], 0, Ratio::new(1, 1), "d".to_string(), false)
        .is_none());
    assert!(Multisig::restore(0, vec![entry("a", false)], 1, Ratio::new(2, 1), "d".to_string(), false)
        .is_none());
    assert!(Multisig::restore(0, vec![entry("a", false)], 1, Ratio::new(0, 1), "d".to_string(), false)
        .is_none());
}

#[test]
fn restore_rejects_a_release_flag_that_does_not_match() {
    let open = vec![entry("a", true), entry("b", false), entry("c", false), entry("d", false)];
    assert!(Multisig::restore(0, open, 1, Ratio::new(1, 2), "d".to_string(), true).is_none());
    let reached = vec![entry("a", true), entry("b", true), entry("c", false), entry("d", false)];
    assert!(Multisig::restore(0, reached, 1, Ratio::new(1, 2), "d".to_string(), false).is_none());
    let reached = vec![entry("a", true), entry("b", true), entry("c", false), entry("d", false)];
    let record = Multisig::restore(0, reached, 1, Ratio::new(1, 2), "d".to_string(), true).unwrap();
    assert!(record.is_released());
    assert_eq!(record.approved_count(), 2);
}

#[test]
fn each_error_has_its_own_message() {
    assert_eq!(ValidationError::NoParticipants.message(), "Multisig size should be bigger than 0");
    assert_eq!(ValidationError::ZeroAmount.message(), "Sum should be positive number");
    assert_eq!(
        ValidationError::RatioOutOfRange.message(),
        "Approve ratio should be above 0 and at most 1"
    );
    assert_eq!(EscrowError::NotFound.message(), "Multisig has been not found");
    assert_eq!(EscrowError::WrongAmount.message(), "Sum is required");
    assert_eq!(EscrowError::NotAParticipant.message(), "Account should be in a multisig map");
    assert_eq!(EscrowError::AlreadyApproved.message(), "Is possible to send funds only once");
    assert_eq!(EscrowError::AlreadyReleased.message(), "Funds have been released already");
}
