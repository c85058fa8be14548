//! An access-control engine that authorizes commands sent to
//! remote-controlled machines, using revocable, time-bounded credentials
//! anchored in a Merkle tree. The records, the Merkle verifier, the
//! permission policy and the lifecycle rules live here, each behind a
//! verified contract; a host adapter around the crate does the storage,
//! signature and wire-format work.

mod error;
mod instruction;
mod merkle;
mod policy;
mod processor;
mod state;

pub use error::RobyError;
pub use instruction::RobyInstruction;
pub use merkle::MerkleProof;
pub use merkle::compute_merkle_root;
pub use merkle::hash_leaf;
pub use merkle::hash_pair;
pub use merkle::key_eq;
pub use policy::can_administer;
pub use policy::can_issue;
pub use policy::can_own;
pub use policy::permission_sufficient;
pub use processor::Processor;
pub use state::COMMAND_LOG_LEN;
pub use state::CREDENTIAL_LEN;
pub use state::CommandLog;
pub use state::CommandType;
pub use state::Credential;
pub use state::DEFAULT_MAX_OPERATORS;
pub use state::Key;
pub use state::PermissionLevel;
pub use state::ROBOT_LEN;
pub use state::Robot;
pub use state::RobotStatus;
