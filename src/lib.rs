//! Identifier parsing and rendering, and validator status classification,
//! for a beacon-chain node's query interface.
//!
//! Blocks and states are named by a symbolic tag (`head`, `genesis`,
//! `finalized`, `justified`), by a decimal slot, or by `0x` and the hex of a
//! 32-byte root; validators by `0x` and the hex of a 48-byte public key, or by
//! a decimal index. A validator's lifecycle stage is derived from the epochs
//! of its record.
pub mod data;
pub mod ids;
pub mod status;
pub mod text;

pub use data::{
    BeaconBlockHeader, BlockHeaderAndSignature, BlockHeaderData, Checkpoint, CommitteeData,
    CommitteesQuery, FinalityCheckpointsData, GenericResponse, GenesisData, HeadersQuery,
    RootData, SignatureBytes, ValidatorData,
};
pub use ids::{BlockId, Hash256, PublicKeyBytes, Slot, StateId, ValidatorId};
pub use text::{decode_prefixed_hex, encode_prefixed_hex};
pub use status::{Epoch, Validator, ValidatorStatus, EPOCHS_BEFORE_FINALITY};
