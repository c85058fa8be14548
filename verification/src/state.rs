use vstd::prelude::*;

verus! {

/// A 32-byte identity or identifier, as the execution host presents it.
pub type Key = [u8; 32];

/// Serialized size of a `Robot` record.
pub const ROBOT_LEN: usize = 1 + 32 + 32 + 1 + 32 + 32 + 8 + 8 + (32 * 10) + 1 + 1 + 256;

/// Serialized size of a `Credential` record.
pub const CREDENTIAL_LEN: usize = 1 + 32 + 32 + 1 + 8 + 8 + 1 + 32 + 32;

/// Serialized size of a `CommandLog` record.
pub const COMMAND_LOG_LEN: usize = 1 + 32 + 32 + 1 + 8 + 256 + 1 + 4;

/// Default cap on the operator set of a freshly initialized robot.
pub const DEFAULT_MAX_OPERATORS: u8 = 10;

#[derive(Clone, Copy, Debug, PartialEq, Eq, Structural)]
pub enum RobotStatus {
    Offline,
    Idle,
    Active,
    Executing,
    Error,
    Maintenance,
}

#[derive(Clone, Copy, Debug, PartialEq, Eq, Structural)]
pub enum PermissionLevel {
    NoAccess,
    Observer,
    Operator,
    Administrator,
    Owner,
}

#[derive(Clone, Copy, Debug, PartialEq, Eq, Structural)]
pub enum CommandType {
    Move,
    Rotate,
    Grab,
    Release,
    EmergencyStop,
    Reset,
    Calibrate,
    UpdateConfig,
    Custom,
}

/// The status named by a wire code 0..=5, or `None` for any other code.
pub open spec fn spec_status_from_code(code: u8) -> Option<RobotStatus> {
    if code == 0 {
        Some(RobotStatus::Offline)
    } else if code == 1 {
        Some(RobotStatus::Idle)
    } else if code == 2 {
        Some(RobotStatus::Active)
    } else if code == 3 {
        Some(RobotStatus::Executing)
    } else if code == 4 {
        Some(RobotStatus::Error)
    } else if code == 5 {
        Some(RobotStatus::Maintenance)
    } else {
        None
    }
}

/// Decodes a robot-status wire code; out-of-range codes are rejected.
pub fn status_from_code(code: u8) -> (r: Option<RobotStatus>)
    ensures
        r == spec_status_from_code(code),
{
    match code {
        0 => Some(RobotStatus::Offline),
        1 => Some(RobotStatus::Idle),
        2 => Some(RobotStatus::Active),
        3 => Some(RobotStatus::Executing),
        4 => Some(RobotStatus::Error),
        5 => Some(RobotStatus::Maintenance),
        _ => None,
    }
}

/// One robot record: identity, authorization root, lifecycle state and
/// counters, and the bounded operator set.
#[derive(Clone, Debug)]
pub struct Robot {
    pub is_initialized: bool,
    pub owner: Key,
    pub authority: Key,
    pub status: RobotStatus,
    pub robot_id: Key,
    pub merkle_root: Key,
    pub last_command_timestamp: i64,
    pub total_commands_executed: u64,
    pub active_operators: Vec<Key>,
    pub max_operators: u8,
    pub emergency_stop: bool,
    pub metadata_uri: String,
}

impl Robot {
    /// A freshly initialized robot: Idle, no emergency stop, empty counters
    /// and operator set, with the default operator cap.
    pub fn new(
        owner: Key,
        authority: Key,
        robot_id: Key,
        merkle_root: Key,
        metadata_uri: String,
    ) -> (r: Robot)
        ensures
            r.is_initialized,
            r.owner == owner,
            r.authority == authority,
            r.status == RobotStatus::Idle,
            r.robot_id == robot_id,
            r.merkle_root == merkle_root,
            r.last_command_timestamp == 0,
            r.total_commands_executed == 0,
            r.active_operators@ == Seq::<Key>::empty(),
            r.max_operators == DEFAULT_MAX_OPERATORS,
            !r.emergency_stop,
            r.metadata_uri == metadata_uri,
    {
        let ops: Vec<Key> = Vec::new();
        Robot {
            is_initialized: true,
            owner,
            authority,
            status: RobotStatus::Idle,
            robot_id,
            merkle_root,
            last_command_timestamp: 0,
            total_commands_executed: 0,
            active_operators: ops,
            max_operators: DEFAULT_MAX_OPERATORS,
            emergency_stop: false,
            metadata_uri,
        }
    }

    pub fn is_initialized(&self) -> (r: bool)
        ensures
            r == self.is_initialized,
    {
        self.is_initialized
    }
}

/// One credential record: a revocable, time-bounded grant of a permission
/// level to one identity over one robot, bound to a Merkle leaf.
#[derive(Clone, Debug)]
pub struct Credential {
    pub is_initialized: bool,
    pub owner: Key,
    pub robot: Key,
    pub permission_level: PermissionLevel,
    pub valid_from: i64,
    pub valid_until: i64,
    pub revoked: bool,
    pub credential_hash: Key,
    pub issuer: Key,
}

impl Credential {
    /// A freshly issued credential: not revoked, bound to the given robot,
    /// holder, time window and leaf commitment.
    pub fn new(
        owner: Key,
        robot: Key,
        permission_level: PermissionLevel,
        valid_from: i64,
        valid_until: i64,
        credential_hash: Key,
        issuer: Key,
    ) -> (r: Credential)
        ensures
            r.is_initialized,
            r.owner == owner,
            r.robot == robot,
            r.permission_level == permission_level,
            r.valid_from == valid_from,
            r.valid_until == valid_until,
            !r.revoked,
            r.credential_hash == credential_hash,
            r.issuer == issuer,
    {
        Credential {
            is_initialized: true,
            owner,
            robot,
            permission_level,
            valid_from,
            valid_until,
            revoked: false,
            credential_hash,
            issuer,
        }
    }

    /// A credential is valid at `now` iff it is not revoked and `now` lies
    /// inside its inclusive `[valid_from, valid_until]` window.
    pub open spec fn spec_is_valid(self, now: i64) -> bool {
        &&& !self.revoked
        &&& self.valid_from <= now
        &&& now <= self.valid_until
    }

    pub fn is_valid(&self, current_timestamp: i64) -> (r: bool)
        ensures
            r == self.spec_is_valid(current_timestamp),
    {
        !self.revoked && current_timestamp >= self.valid_from
            && current_timestamp <= self.valid_until
    }

    pub fn is_initialized(&self) -> (r: bool)
        ensures
            r == self.is_initialized,
    {
        self.is_initialized
    }
}

/// One audit record of a successfully executed command.
#[derive(Clone, Debug)]
pub struct CommandLog {
    pub is_initialized: bool,
    pub robot: Key,
    pub executor: Key,
    pub command_type: CommandType,
    pub timestamp: i64,
    pub parameters: Vec<u8>,
    pub success: bool,
    pub error_code: u32,
}

} // verus!
