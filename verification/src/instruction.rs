use vstd::prelude::*;

use crate::state::CommandType;
use crate::state::Key;
use crate::state::PermissionLevel;

verus! {

/// The action descriptor of one invocation: a closed tagged union with one
/// variant per action. The host adapter decodes it from the wire and rejects
/// unknown tags before this library is reached.
#[derive(Clone, Debug)]
pub enum RobyInstruction {
    InitializeRobot { robot_id: Key, merkle_root: Key, metadata_uri: String },
    IssueCredential {
        permission_level: PermissionLevel,
        valid_from: i64,
        valid_until: i64,
        credential_hash: Key,
    },
    RevokeCredential,
    ExecuteCommand { command_type: CommandType, parameters: Vec<u8>, merkle_proof: Vec<Key> },
    UpdateMerkleRoot { new_merkle_root: Key },
    TransferAuthority { new_authority: Key },
    AddOperator { operator: Key },
    RemoveOperator { operator: Key },
    EmergencyStop,
    Resume,
    UpdateRobotStatus { status: u8 },
    TransferOwnership { new_owner: Key },
}

} // verus!
