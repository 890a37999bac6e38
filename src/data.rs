//! Plain records that carry identifiers, roots and validator statuses to API
//! consumers.
use vstd::prelude::*;

use crate::ids::{Hash256, Slot};
use crate::status::{Epoch, Validator, ValidatorStatus};

verus! {

/// A 96-byte signature, not checked to be a curve point.
#[derive(Debug, Clone, Copy, PartialEq, Eq)]
pub struct SignatureBytes(pub [u8; 96]);

/// An epoch and the root of the block at its start.
#[derive(Debug, Clone, Copy, PartialEq, Eq)]
pub struct Checkpoint {
    pub epoch: Epoch,
    pub root: Hash256,
}

/// The header of a beacon block.
#[derive(Debug, Clone, Copy, PartialEq, Eq)]
pub struct BeaconBlockHeader {
    pub slot: Slot,
    pub proposer_index: u64,
    pub parent_root: Hash256,
    pub state_root: Hash256,
    pub body_root: Hash256,
}

/// What the chain's genesis was made of.
#[derive(Debug, Clone, Copy, PartialEq, Eq)]
pub struct GenesisData {
    pub genesis_time: u64,
    pub genesis_validators_root: Hash256,
    pub genesis_fork_version: [u8; 4],
}

/// An envelope of one field, `data`, around any payload.
pub struct GenericResponse<T> {
    pub data: T,
}

impl<T> From<T> for GenericResponse<T> {
    fn from(data: T) -> Self {
        GenericResponse { data }
    }
}

impl<T> vstd::std_specs::convert::FromSpecImpl<T> for GenericResponse<T> {
    open spec fn obeys_from_spec() -> bool {
        true
    }

    open spec fn from_spec(v: T) -> Self {
        GenericResponse { data: v }
    }
}

/// A root alone.
#[derive(Debug, Clone, Copy, PartialEq, Eq)]
pub struct RootData {
    pub root: Hash256,
}

impl From<Hash256> for RootData {
    fn from(root: Hash256) -> Self {
        RootData { root }
    }
}

impl vstd::std_specs::convert::FromSpecImpl<Hash256> for RootData {
    open spec fn obeys_from_spec() -> bool {
        true
    }

    open spec fn from_spec(v: Hash256) -> Self {
        RootData { root: v }
    }
}

/// The three checkpoints of finality.
#[derive(Debug, Clone, Copy, PartialEq, Eq)]
pub struct FinalityCheckpointsData {
    pub previous_justified: Checkpoint,
    pub current_justified: Checkpoint,
    pub finalized: Checkpoint,
}

/// A validator record with its index, balance and derived status.
#[derive(Debug, Clone, Copy, PartialEq, Eq)]
pub struct ValidatorData {
    pub index: u64,
    pub balance: u64,
    pub status: ValidatorStatus,
    pub validator: Validator,
}

/// Which committees are asked for.
#[derive(Debug, Clone, Copy, PartialEq, Eq)]
pub struct CommitteesQuery {
    pub slot: Option<Slot>,
    pub index: Option<u64>,
}

/// One committee: its index, its slot and its validators in order.
#[derive(Debug, Clone, PartialEq, Eq)]
pub struct CommitteeData {
    pub index: u64,
    pub slot: Slot,
    pub validators: Vec<u64>,
}

/// Which block headers are asked for.
#[derive(Debug, Clone, Copy, PartialEq, Eq)]
pub struct HeadersQuery {
    pub slot: Option<Slot>,
    pub parent_root: Option<Hash256>,
}

/// A block header with its proposer's signature.
#[derive(Debug, Clone, Copy, PartialEq, Eq)]
pub struct BlockHeaderAndSignature {
    pub message: BeaconBlockHeader,
    pub signature: SignatureBytes,
}

/// A signed block header, its root, and whether it is on the canonical chain.
#[derive(Debug, Clone, Copy, PartialEq, Eq)]
pub struct BlockHeaderData {
    pub root: Hash256,
    pub canonical: bool,
    pub header: BlockHeaderAndSignature,
}

} // verus!
