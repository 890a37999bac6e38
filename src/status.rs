//! Validator records and the classification of a validator's lifecycle stage.
use vstd::prelude::*;

use crate::ids::{Hash256, PublicKeyBytes};

verus! {

/// An epoch number: a fixed-length span of slots.
pub type Epoch = u64;

/// The number of epochs between when a validator is eligible for activation
/// and when it usually enters the activation queue.
pub const EPOCHS_BEFORE_FINALITY: u64 = 3;

/// A validator record of the registry, as the chain state holds it.
#[derive(Debug, Clone, Copy, PartialEq, Eq)]
pub struct Validator {
    pub pubkey: PublicKeyBytes,
    pub withdrawal_credentials: Hash256,
    pub effective_balance: u64,
    pub slashed: bool,
    pub activation_eligibility_epoch: Epoch,
    pub activation_epoch: Epoch,
    pub exit_epoch: Epoch,
    pub withdrawable_epoch: Epoch,
}

impl Validator {
    pub open spec fn active_at(&self, epoch: Epoch) -> bool {
        self.activation_epoch <= epoch < self.exit_epoch
    }

    pub open spec fn exited_at(&self, epoch: Epoch) -> bool {
        self.exit_epoch <= epoch
    }

    pub open spec fn withdrawable_at(&self, epoch: Epoch) -> bool {
        self.withdrawable_epoch <= epoch
    }

    /// Whether the validator is active at `epoch`: activated, not yet exited.
    pub fn is_active_at(&self, epoch: Epoch) -> (r: bool)
        ensures
            r == self.active_at(epoch),
    {
        self.activation_epoch <= epoch && epoch < self.exit_epoch
    }

    /// Whether the validator has exited by `epoch`.
    pub fn is_exited_at(&self, epoch: Epoch) -> (r: bool)
        ensures
            r == self.exited_at(epoch),
    {
        self.exit_epoch <= epoch
    }

    /// Whether the validator can withdraw at `epoch`.
    pub fn is_withdrawable_at(&self, epoch: Epoch) -> (r: bool)
        ensures
            r == self.withdrawable_at(epoch),
    {
        epoch >= self.withdrawable_epoch
    }
}

/// The lifecycle stage of a validator, as reported to API consumers.
#[derive(Debug, Clone, Copy, PartialEq, Eq)]
pub enum ValidatorStatus {
    Unknown,
    WaitingForEligibility,
    WaitingForFinality(Epoch),
    WaitingInQueue,
    StandbyForActive(Epoch),
    Active,
    ActiveAwaitingExit(Epoch),
    Exited(Epoch),
    Withdrawable,
}

/// `a + b`, or the largest epoch where the sum does not fit.
pub open spec fn saturating_epoch_add(a: Epoch, b: u64) -> Epoch {
    if a + b > u64::MAX {
        u64::MAX
    } else {
        (a + b) as u64
    }
}

/// The status of a validator, by checks in a fixed order of precedence:
/// withdrawable, exited, active, then the stages before activation. A field
/// equal to `far_future_epoch` is unset.
pub open spec fn status_of(
    validator: Option<Validator>,
    epoch: Epoch,
    finalized_epoch: Epoch,
    far_future_epoch: Epoch,
) -> ValidatorStatus {
    match validator {
        None => ValidatorStatus::Unknown,
        Some(v) => if v.withdrawable_at(epoch) {
            ValidatorStatus::Withdrawable
        } else if v.exited_at(epoch) {
            ValidatorStatus::Exited(v.withdrawable_epoch)
        } else if v.active_at(epoch) {
            if v.exit_epoch < far_future_epoch {
                ValidatorStatus::ActiveAwaitingExit(v.exit_epoch)
            } else {
                ValidatorStatus::Active
            }
        } else if v.activation_epoch < far_future_epoch {
            ValidatorStatus::StandbyForActive(v.activation_epoch)
        } else if v.activation_eligibility_epoch < far_future_epoch {
            if finalized_epoch < v.activation_eligibility_epoch {
                ValidatorStatus::WaitingForFinality(
                    saturating_epoch_add(v.activation_eligibility_epoch, EPOCHS_BEFORE_FINALITY),
                )
            } else {
                ValidatorStatus::WaitingInQueue
            }
        } else {
            ValidatorStatus::WaitingForEligibility
        },
    }
}

pub open spec fn option_record(v: Option<&Validator>) -> Option<Validator> {
    match v {
        Some(r) => Some(*r),
        None => None,
    }
}

impl ValidatorStatus {
    /// Classifies a validator record, or its absence, at `epoch`.
    pub fn from_validator(
        validator_opt: Option<&Validator>,
        epoch: Epoch,
        finalized_epoch: Epoch,
        far_future_epoch: Epoch,
    ) -> (r: ValidatorStatus)
        ensures
            r == status_of(option_record(validator_opt), epoch, finalized_epoch, far_future_epoch),
    {
        if let Some(validator) = validator_opt {
            if validator.is_withdrawable_at(epoch) {
                ValidatorStatus::Withdrawable
            } else if validator.is_exited_at(epoch) {
                ValidatorStatus::Exited(validator.withdrawable_epoch)
            } else if validator.is_active_at(epoch) {
                if validator.exit_epoch < far_future_epoch {
                    ValidatorStatus::ActiveAwaitingExit(validator.exit_epoch)
                } else {
                    ValidatorStatus::Active
                }
            } else if validator.activation_epoch < far_future_epoch {
                ValidatorStatus::StandbyForActive(validator.activation_epoch)
            } else if validator.activation_eligibility_epoch < far_future_epoch {
                if finalized_epoch < validator.activation_eligibility_epoch {
                    ValidatorStatus::WaitingForFinality(
                        validator.activation_eligibility_epoch.saturating_add(
                            EPOCHS_BEFORE_FINALITY,
                        ),
                    )
                } else {
                    ValidatorStatus::WaitingInQueue
                }
            } else {
                ValidatorStatus::WaitingForEligibility
            }
        } else {
            ValidatorStatus::Unknown
        }
    }
}

/// An absent record is always of unknown status, whatever the epochs.
pub proof fn lemma_absent_is_unknown(epoch: Epoch, finalized_epoch: Epoch, far_future_epoch: Epoch)
    ensures
        status_of(None, epoch, finalized_epoch, far_future_epoch) == ValidatorStatus::Unknown,
{
}

/// A record that is withdrawable at the epoch is reported withdrawable,
/// whatever its other fields: withdrawal takes precedence over exit and
/// activity.
pub proof fn lemma_withdrawable_first(
    v: Validator,
    epoch: Epoch,
    finalized_epoch: Epoch,
    far_future_epoch: Epoch,
)
    requires
        v.withdrawable_epoch <= epoch,
    ensures
        status_of(Some(v), epoch, finalized_epoch, far_future_epoch)
            == ValidatorStatus::Withdrawable,
{
}

/// A record that has exited at the epoch is never reported active, even where
/// it would otherwise be; unless withdrawable, it is reported exited, with the
/// epoch at which it becomes withdrawable.
pub proof fn lemma_exited_before_active(
    v: Validator,
    epoch: Epoch,
    finalized_epoch: Epoch,
    far_future_epoch: Epoch,
)
    requires
        v.exited_at(epoch),
    ensures
        !(status_of(Some(v), epoch, finalized_epoch, far_future_epoch) is Active),
        !(status_of(Some(v), epoch, finalized_epoch, far_future_epoch) is ActiveAwaitingExit),
        !v.withdrawable_at(epoch) ==> status_of(Some(v), epoch, finalized_epoch, far_future_epoch)
            == ValidatorStatus::Exited(v.withdrawable_epoch),
{
}

/// Before the far-future epoch, a record with neither eligibility nor
/// activation set waits for eligibility, unless it has already become
/// withdrawable or exited.
pub proof fn lemma_unset_waits_for_eligibility(
    v: Validator,
    epoch: Epoch,
    finalized_epoch: Epoch,
    far_future_epoch: Epoch,
)
    requires
        v.activation_eligibility_epoch == far_future_epoch,
        v.activation_epoch == far_future_epoch,
        epoch < far_future_epoch,
        !v.withdrawable_at(epoch),
        !v.exited_at(epoch),
    ensures
        status_of(Some(v), epoch, finalized_epoch, far_future_epoch)
            == ValidatorStatus::WaitingForEligibility,
{
}

/// Before the far-future epoch, a record eligible at `e`, with no activation
/// set and neither withdrawable nor exited, waits for finality while the
/// finalized epoch is before `e`, reported with `e` plus the usual delay; once
/// `e` is finalized it waits in the queue.
pub proof fn lemma_eligible_waits(
    v: Validator,
    epoch: Epoch,
    finalized_epoch: Epoch,
    far_future_epoch: Epoch,
)
    requires
        v.activation_eligibility_epoch < far_future_epoch,
        v.activation_epoch == far_future_epoch,
        epoch < far_future_epoch,
        !v.withdrawable_at(epoch),
        !v.exited_at(epoch),
    ensures
        finalized_epoch < v.activation_eligibility_epoch ==> status_of(
            Some(v),
            epoch,
            finalized_epoch,
            far_future_epoch,
        ) == ValidatorStatus::WaitingForFinality(
            saturating_epoch_add(v.activation_eligibility_epoch, EPOCHS_BEFORE_FINALITY),
        ),
        finalized_epoch + 1 == v.activation_eligibility_epoch && v.activation_eligibility_epoch
            + EPOCHS_BEFORE_FINALITY <= u64::MAX ==> status_of(
            Some(v),
            epoch,
            finalized_epoch,
            far_future_epoch,
        ) == ValidatorStatus::WaitingForFinality(
            (v.activation_eligibility_epoch + EPOCHS_BEFORE_FINALITY) as u64,
        ),
        finalized_epoch >= v.activation_eligibility_epoch ==> status_of(
            Some(v),
            epoch,
            finalized_epoch,
            far_future_epoch,
        ) == ValidatorStatus::WaitingInQueue,
{
}

} // verus!
