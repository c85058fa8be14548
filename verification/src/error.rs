use vstd::prelude::*;

verus! {

/// Every way an invocation can be rejected. Each error aborts the whole
/// invocation; no record is changed when one is returned.
#[derive(Clone, Copy, Debug, PartialEq, Eq, Structural)]
pub enum RobyError {
    InvalidInstruction,
    NotAuthorized,
    AlreadyInitialized,
    UninitializedAccount,
    InvalidMerkleProof,
    RobotAlreadyActive,
    RobotNotActive,
    InvalidRobotState,
    PermissionDenied,
    InvalidCredential,
    CommandExecutionFailed,
    InvalidAccountData,
    ArithmeticOverflow,
    InvalidControlAuthority,
    RobotOffline,
}

impl RobyError {
    /// The stable numeric code of each error, in declaration order.
    pub open spec fn spec_code(self) -> u32 {
        match self {
            RobyError::InvalidInstruction => 0,
            RobyError::NotAuthorized => 1,
            RobyError::AlreadyInitialized => 2,
            RobyError::UninitializedAccount => 3,
            RobyError::InvalidMerkleProof => 4,
            RobyError::RobotAlreadyActive => 5,
            RobyError::RobotNotActive => 6,
            RobyError::InvalidRobotState => 7,
            RobyError::PermissionDenied => 8,
            RobyError::InvalidCredential => 9,
            RobyError::CommandExecutionFailed => 10,
            RobyError::InvalidAccountData => 11,
            RobyError::ArithmeticOverflow => 12,
            RobyError::InvalidControlAuthority => 13,
            RobyError::RobotOffline => 14,
        }
    }

    pub fn code(&self) -> (r: u32)
        ensures
            r == self.spec_code(),
    {
        match self {
            RobyError::InvalidInstruction => 0,
            RobyError::NotAuthorized => 1,
            RobyError::AlreadyInitialized => 2,
            RobyError::UninitializedAccount => 3,
            RobyError::InvalidMerkleProof => 4,
            RobyError::RobotAlreadyActive => 5,
            RobyError::RobotNotActive => 6,
            RobyError::InvalidRobotState => 7,
            RobyError::PermissionDenied => 8,
            RobyError::InvalidCredential => 9,
            RobyError::CommandExecutionFailed => 10,
            RobyError::InvalidAccountData => 11,
            RobyError::ArithmeticOverflow => 12,
            RobyError::InvalidControlAuthority => 13,
            RobyError::RobotOffline => 14,
        }
    }
}

} // verus!
