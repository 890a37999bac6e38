use eth2::{
    GenericResponse, Hash256, PublicKeyBytes, RootData, Validator, ValidatorStatus,
    EPOCHS_BEFORE_FINALITY,
};

const FAR: u64 = u64::MAX;

fn record(eligible: u64, activation: u64, exit: u64, withdrawable: u64) -> Validator {
    Validator {
        pubkey: PublicKeyBytes([7u8; 48]),
        withdrawal_credentials: Hash256([1u8; 32]),
        effective_balance: 32_000_000_000,
        slashed: false,
        activation_eligibility_epoch: eligible,
        activation_epoch: activation,
        exit_epoch: exit,
        withdrawable_epoch: withdrawable,
    }
}

fn classify(v: Option<&Validator>, epoch: u64, finalized: u64) -> ValidatorStatus {
    ValidatorStatus::from_validator(v, epoch, finalized, FAR)
}

#[test]
fn absent_record_is_unknown() {
    assert_eq!(classify(None, 0, 0), ValidatorStatus::Unknown);
    assert_eq!(ValidatorStatus::from_validator(None, 5, 3, 10), ValidatorStatus::Unknown);
}

#[test]
fn withdrawable_takes_precedence() {
    let v = record(0, 1, 5, 10);
    assert_eq!(classify(Some(&v), 10, 9), ValidatorStatus::Withdrawable);
    assert_eq!(classify(Some(&v), 11, 9), ValidatorStatus::Withdrawable);
    // withdrawable before any exit is scheduled
    let w = record(0, 1, FAR, 4);
    assert_eq!(classify(Some(&w), 4, 3), ValidatorStatus::Withdrawable);
}

#[test]
fn exited_is_never_active() {
    let v = record(0, 1, 5, 10);
    assert_eq!(classify(Some(&v), 5, 4), ValidatorStatus::Exited(10));
    assert_eq!(classify(Some(&v), 9, 4), ValidatorStatus::Exited(10));
}

#[test]
fn active_with_and_without_exit() {
    let v = record(0, 1, FAR, FAR);
    assert_eq!(classify(Some(&v), 1, 0), ValidatorStatus::Active);
    let w = record(0, 1, 8, 20);
    assert_eq!(classify(Some(&w), 3, 2), ValidatorStatus::ActiveAwaitingExit(8));
}

#[test]
fn standby_before_activation() {
    let v = record(2, 6, FAR, FAR);
    assert_eq!(classify(Some(&v), 4, 3), ValidatorStatus::StandbyForActive(6));
}

#[test]
fn unset_waits_for_eligibility() {
    let v = record(FAR, FAR, FAR, FAR);
    assert_eq!(classify(Some(&v), 100, 99), ValidatorStatus::WaitingForEligibility);
}

#[test]
fn eligible_waits_for_finality() {
    let v = record(10, FAR, FAR, FAR);
    assert_eq!(classify(Some(&v), 12, 9), ValidatorStatus::WaitingForFinality(13));
    assert_eq!(EPOCHS_BEFORE_FINALITY, 3);
}

#[test]
fn finality_estimate_saturates() {
    let v = record(FAR - 1, FAR, FAR, FAR);
    assert_eq!(classify(Some(&v), 0, 0), ValidatorStatus::WaitingForFinality(u64::MAX));
}

#[test]
fn eligible_and_finalized_waits_in_queue() {
    let v = record(10, FAR, FAR, FAR);
    assert_eq!(classify(Some(&v), 12, 10), ValidatorStatus::WaitingInQueue);
    assert_eq!(classify(Some(&v), 12, 11), ValidatorStatus::WaitingInQueue);
}

#[test]
fn record_predicates() {
    let v = record(0, 2, 5, 9);
    assert!(!v.is_active_at(1));
    assert!(v.is_active_at(2));
    assert!(!v.is_active_at(5));
    assert!(!v.is_exited_at(4));
    assert!(v.is_exited_at(5));
    assert!(!v.is_withdrawable_at(8));
    assert!(v.is_withdrawable_at(9));
}

#[test]
fn envelopes_carry_their_payload() {
    let r = RootData::from(Hash256([3u8; 32]));
    assert_eq!(r.root, Hash256([3u8; 32]));
    let g = GenericResponse::from(vec![1u64, 2, 3]);
    assert_eq!(g.data, vec![1, 2, 3]);
}
