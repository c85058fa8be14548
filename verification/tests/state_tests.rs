use roby::Credential;
use roby::PermissionLevel;
use roby::Robot;
use roby::RobotStatus;
use roby::RobyError;

fn key(n: u8) -> [u8; 32] {
    [n; 32]
}

fn credential_window(valid_from: i64, valid_until: i64) -> Credential {
    Credential::new(
        key(5),
        key(6),
        PermissionLevel::Operator,
        valid_from,
        valid_until,
        key(7),
        key(8),
    )
}

#[test]
fn credential_valid_inside_window_and_at_both_bounds() {
    let c = credential_window(10, 20);
    assert!(c.is_valid(10));
    assert!(c.is_valid(15));
    assert!(c.is_valid(20));
}

#[test]
fn credential_invalid_one_unit_outside_either_bound() {
    let c = credential_window(10, 20);
    assert!(!c.is_valid(9));
    assert!(!c.is_valid(21));
}

#[test]
fn revoked_credential_is_invalid_even_inside_window() {
    let mut c = credential_window(10, 20);
    c.revoked = true;
    assert!(!c.is_valid(15));
}

#[test]
fn new_robot_starts_idle_with_empty_counters() {
    let robot = Robot::new(key(1), key(2), key(3), key(4), String::from("ipfs://meta"));
    assert!(robot.is_initialized);
    assert_eq!(robot.status, RobotStatus::Idle);
    assert!(!robot.emergency_stop);
    assert_eq!(robot.total_commands_executed, 0);
    assert_eq!(robot.last_command_timestamp, 0);
    assert_eq!(robot.active_operators.len(), 0);
    assert_eq!(robot.max_operators, 10);
    assert_eq!(robot.owner, key(1));
    assert_eq!(robot.authority, key(2));
    assert_eq!(robot.robot_id, key(3));
    assert_eq!(robot.merkle_root, key(4));
    assert_eq!(robot.metadata_uri, "ipfs://meta");
}

#[test]
fn new_credential_is_not_revoked_and_carries_its_fields() {
    let c = Credential::new(
        key(5),
        key(6),
        PermissionLevel::Administrator,
        100,
        200,
        key(7),
        key(8),
    );
    assert!(c.is_initialized);
    assert!(!c.revoked);
    assert_eq!(c.owner, key(5));
    assert_eq!(c.robot, key(6));
    assert_eq!(c.permission_level, PermissionLevel::Administrator);
    assert_eq!(c.valid_from, 100);
    assert_eq!(c.valid_until, 200);
    assert_eq!(c.credential_hash, key(7));
    assert_eq!(c.issuer, key(8));
}

#[test]
fn error_codes_follow_declaration_order() {
    assert_eq!(RobyError::InvalidInstruction.code(), 0);
    assert_eq!(RobyError::NotAuthorized.code(), 1);
    assert_eq!(RobyError::AlreadyInitialized.code(), 2);
    assert_eq!(RobyError::UninitializedAccount.code(), 3);
    assert_eq!(RobyError::InvalidMerkleProof.code(), 4);
    assert_eq!(RobyError::RobotAlreadyActive.code(), 5);
    assert_eq!(RobyError::RobotNotActive.code(), 6);
    assert_eq!(RobyError::InvalidRobotState.code(), 7);
    assert_eq!(RobyError::PermissionDenied.code(), 8);
    assert_eq!(RobyError::InvalidCredential.code(), 9);
    assert_eq!(RobyError::CommandExecutionFailed.code(), 10);
    assert_eq!(RobyError::InvalidAccountData.code(), 11);
    assert_eq!(RobyError::ArithmeticOverflow.code(), 12);
    assert_eq!(RobyError::InvalidControlAuthority.code(), 13);
    assert_eq!(RobyError::RobotOffline.code(), 14);
}
