use multisig_escrow::contract::MultisigContract;
use multisig_escrow::error::{EscrowError, ValidationError};
use multisig_escrow::ratio::Ratio;

fn names(list: &[&str]) -> Vec<String> {
    list.iter().map(|s| s.to_string()).collect()
}

#[test]
fn new_registry_is_empty_and_starts_at_zero() {
    let contract = MultisigContract::new();
    assert_eq!(contract.next_id(), 0);
    assert_eq!(contract.len(), 0);
    assert!(matches!(contract.get_escrow(0), Err(EscrowError::NotFound)));
}

#[test]
fn default_registry_is_the_new_one() {
    let contract = MultisigContract::default();
    assert_eq!(contract.next_id(), 0);
    assert_eq!(contract.len(), 0);
}

#[test]
fn ids_are_issued_in_sequence_from_zero() {
    let mut contract = MultisigContract::new();
    let mut last: Option<u64> = None;
    for k in 0..20u64 {
        let id = contract
            .create_escrow(names(&["a", "b"]), 1 + u128::from(k), Ratio::new(1, 2), "d".to_string())
            .unwrap();
        assert_eq!(id, k);
        if let Some(previous) = last {
            assert!(id > previous);
        }
        last = Some(id);
        assert_eq!(contract.next_id(), k + 1);
    }
    assert_eq!(contract.len(), 20);
}

#[test]
fn ids_keep_increasing_with_approvals_in_between() {
    let mut contract = MultisigContract::new();
    let first = contract
        .create_escrow(names(&["a", "b", "c"]), 5, Ratio::new(1, 1), "d".to_string())
        .unwrap();
    contract.approve(first, &"a".to_string(), 5).unwrap();
    assert_eq!(contract.approve(first, &"x".to_string(), 5), Err(EscrowError::NotAParticipant));
    let second = contract
        .create_escrow(names(&["a"]), 5, Ratio::new(1, 1), "d".to_string())
        .unwrap();
    assert_eq!(first, 0);
    assert_eq!(second, 1);
    assert!(first < second);
}

#[test]
fn a_rejected_creation_uses_no_id() {
    let mut contract = MultisigContract::new();
    assert_eq!(
        contract.create_escrow(names(&[]), 10, Ratio::new(1, 2), "d".to_string()),
        Err(ValidationError::NoParticipants)
    );
    assert_eq!(contract.next_id(), 0);
    assert_eq!(contract.len(), 0);
    assert!(contract.get_escrow(0).is_err());
    let id = contract
        .create_escrow(names(&["a"]), 10, Ratio::new(1, 2), "d".to_string())
        .unwrap();
    assert_eq!(id, 0);
}

#[test]
fn creation_rejects_an_empty_group() {
    let mut contract = MultisigContract::new();
    assert_eq!(
        contract.create_escrow(Vec::new(), 10, Ratio::new(1, 2), "d".to_string()),
        Err(ValidationError::NoParticipants)
    );
}

#[test]
fn creation_rejects_a_zero_amount() {
    let mut contract = MultisigContract::new();
    assert_eq!(
        contract.create_escrow(names(&["a"]), 0, Ratio::new(1, 2), "d".to_string()),
        Err(ValidationError::ZeroAmount)
    );
    assert_eq!(contract.next_id(), 0);
}

#[test]
fn creation_rejects_a_zero_ratio() {
    let mut contract = MultisigContract::new();
    assert_eq!(
        contract.create_escrow(names(&["a"]), 10, Ratio::new(0, 1), "d".to_string()),
        Err(ValidationError::RatioOutOfRange)
    );
    assert_eq!(contract.next_id(), 0);
}

#[test]
fn creation_rejects_a_ratio_above_one() {
    let mut contract = MultisigContract::new();
    assert_eq!(
        contract.create_escrow(names(&["a"]), 10, Ratio::new(3, 2), "d".to_string()),
        Err(ValidationError::RatioOutOfRange)
    );
    assert_eq!(
        contract.create_escrow(names(&["a"]), 10, Ratio::new(1, 0), "d".to_string()),
        Err(ValidationError::RatioOutOfRange)
    );
    assert_eq!(contract.next_id(), 0);
}

#[test]
fn creation_reports_the_first_failed_constraint() {
    let mut contract = MultisigContract::new();
    assert_eq!(
        contract.create_escrow(Vec::new(), 0, Ratio::new(0, 1), "d".to_string()),
        Err(ValidationError::NoParticipants)
    );
    assert_eq!(
        contract.create_escrow(names(&["a"]), 0, Ratio::new(0, 1), "d".to_string()),
        Err(ValidationError::ZeroAmount)
    );
}

#[test]
fn creation_accepts_a_ratio_of_exactly_one() {
    let mut contract = MultisigContract::new();
    assert_eq!(
        contract.create_escrow(names(&["a"]), 10, Ratio::new(7, 7), "d".to_string()),
        Ok(0)
    );
}

#[test]
fn created_record_holds_what_was_given() {
    let mut contract = MultisigContract::new();
    let id = contract
        .create_escrow(names(&["alice", "bob", "carol"]), 42, Ratio::new(2, 3), "vault".to_string())
        .unwrap();
    let record = contract.get_escrow(id).unwrap();
    assert_eq!(record.id(), id);
    assert_eq!(record.required_amount(), 42);
    assert_eq!(record.approval_ratio(), Ratio::new(2, 3));
    assert_eq!(record.destination(), "vault");
    assert!(!record.is_released());
    assert_eq!(record.total_participants(), 3);
    assert_eq!(record.approved_count(), 0);
    for name in ["alice", "bob", "carol"] {
        assert!(record.is_participant(&name.to_string()));
        assert_eq!(record.approval_of(&name.to_string()), Some(false));
    }
    assert!(!record.is_participant(&"dave".to_string()));
    assert_eq!(record.approval_of(&"dave".to_string()), None);
}

#[test]
fn a_participant_named_twice_takes_part_once() {
    let mut contract = MultisigContract::new();
    let id = contract
        .create_escrow(names(&["a", "b", "a", "a", "b"]), 1, Ratio::new(1, 1), "d".to_string())
        .unwrap();
    let record = contract.get_escrow(id).unwrap();
    assert_eq!(record.total_participants(), 2);
    let mut listed: Vec<&str> = record.entries().iter().map(|p| p.account.as_str()).collect();
    listed.sort();
    assert_eq!(listed, vec!["a", "b"]);
    assert_eq!(record.approval_of(&"a".to_string()), Some(false));
    assert_eq!(record.approval_of(&"b".to_string()), Some(false));
}

#[test]
fn the_destination_need_not_take_part() {
    let mut contract = MultisigContract::new();
    let id = contract
        .create_escrow(names(&["a"]), 1, Ratio::new(1, 1), "".to_string())
        .unwrap();
    assert_eq!(contract.get_escrow(id).unwrap().destination(), "");
}

#[test]
fn lookup_of_an_unknown_id_is_not_found() {
    let mut contract = MultisigContract::new();
    contract
        .create_escrow(names(&["a"]), 1, Ratio::new(1, 1), "d".to_string())
        .unwrap();
    assert!(matches!(contract.get_escrow(1), Err(EscrowError::NotFound)));
    assert!(matches!(contract.get_escrow(u64::MAX), Err(EscrowError::NotFound)));
    assert!(contract.get_escrow(0).is_ok());
}

#[test]
fn reading_a_record_changes_nothing() {
    let mut contract = MultisigContract::new();
    let id = contract
        .create_escrow(names(&["a", "b", "c"]), 9, Ratio::new(2, 3), "d".to_string())
        .unwrap();
    contract.approve(id, &"b".to_string(), 9).unwrap();
    let before = format!("{:?}", contract);
    for _ in 0..50 {
        let record = contract.get_escrow(id).unwrap();
        assert_eq!(record.approved_count(), 1);
        assert_eq!(record.approval_of(&"b".to_string()), Some(true));
        assert_eq!(record.approval_of(&"a".to_string()), Some(false));
        assert!(!record.is_released());
        assert!(contract.get_escrow(id + 1).is_err());
    }
    assert_eq!(format!("{:?}", contract), before);
    assert_eq!(contract.next_id(), 1);
}

#[test]
fn approving_an_unknown_id_is_not_found() {
    let mut contract = MultisigContract::new();
    assert_eq!(contract.approve(0, &"a".to_string(), 1), Err(EscrowError::NotFound));
    contract
        .create_escrow(names(&["a"]), 1, Ratio::new(1, 1), "d".to_string())
        .unwrap();
    assert_eq!(contract.approve(1, &"a".to_string(), 1), Err(EscrowError::NotFound));
    assert_eq!(contract.approve(u64::MAX, &"a".to_string(), 1), Err(EscrowError::NotFound));
    assert_eq!(contract.get_escrow(0).unwrap().approved_count(), 0);
}

#[test]
fn an_approval_touches_only_its_own_record() {
    let mut contract = MultisigContract::new();
    let first = contract
        .create_escrow(names(&["a", "b"]), 3, Ratio::new(1, 1), "d1".to_string())
        .unwrap();
    let second = contract
        .create_escrow(names(&["a", "b"]), 3, Ratio::new(1, 1), "d2".to_string())
        .unwrap();
    contract.approve(second, &"a".to_string(), 3).unwrap();
    assert_eq!(contract.get_escrow(first).unwrap().approved_count(), 0);
    assert_eq!(contract.get_escrow(first).unwrap().approval_of(&"a".to_string()), Some(false));
    assert_eq!(contract.get_escrow(second).unwrap().approved_count(), 1);
    assert_eq!(contract.get_escrow(second).unwrap().approval_of(&"a".to_string()), Some(true));
}
