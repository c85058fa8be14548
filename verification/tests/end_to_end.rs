use roby::COMMAND_LOG_LEN;
use roby::CommandLog;
use roby::CommandType;
use roby::Credential;
use roby::PermissionLevel;
use roby::Processor;
use roby::Robot;
use roby::RobotStatus;
use roby::RobyError;
use roby::compute_merkle_root;
use roby::hash_leaf;
use roby::hash_pair;

fn key(n: u8) -> [u8; 32] {
    [n; 32]
}

fn empty_log() -> CommandLog {
    CommandLog {
        is_initialized: false,
        robot: key(0),
        executor: key(0),
        command_type: CommandType::Move,
        timestamp: 0,
        parameters: Vec::new(),
        success: false,
        error_code: 0,
    }
}

/// The full life of one credential: a robot is initialized over a four-leaf
/// root, a credential bound to leaf 1 is issued and exercised with its
/// two-element authentication path, then revoked and refused.
#[test]
fn issue_execute_revoke_round_trip() {
    // Hashes of four credential contents, arranged so every level of the
    // tree is pairwise sorted, as the by-value ordering rule of verification
    // asks of a proof generator.
    let mut leaves = vec![
        hash_leaf(b"grant for alice"),
        hash_leaf(b"grant for bob"),
        hash_leaf(b"grant for carol"),
        hash_leaf(b"grant for dave"),
    ];
    leaves.sort();
    if hash_pair(&leaves[0], &leaves[1]) > hash_pair(&leaves[2], &leaves[3]) {
        leaves.swap(0, 2);
        leaves.swap(1, 3);
    }
    let root = compute_merkle_root(&leaves);

    let owner = key(1);
    let authority = key(2);
    let robot_key = key(3);
    let holder = key(5);

    let mut robot = Robot::new(owner, authority, key(30), key(0), String::from("meta"));
    robot.is_initialized = false;
    let init = Processor::process_initialize_robot(
        &mut robot,
        owner,
        authority,
        key(30),
        root,
        String::from("meta"),
    );
    assert_eq!(init, Ok(()));

    let mut credential = Credential::new(
        key(0),
        key(0),
        PermissionLevel::NoAccess,
        0,
        0,
        key(0),
        key(0),
    );
    credential.is_initialized = false;
    let issued = Processor::process_issue_credential(
        &mut credential,
        &robot,
        robot_key,
        authority,
        holder,
        PermissionLevel::Administrator,
        100,
        200,
        leaves[1],
    );
    assert_eq!(issued, Ok(()));

    let path = vec![leaves[0], hash_pair(&leaves[2], &leaves[3])];
    let mut log = empty_log();
    let executed = Processor::process_execute_command(
        &mut robot,
        &credential,
        holder,
        CommandType::Grab,
        vec![42],
        path.clone(),
        150,
        robot_key,
        &mut log,
        COMMAND_LOG_LEN,
    );
    assert_eq!(executed, Ok(()));
    assert_eq!(robot.total_commands_executed, 1);
    assert_eq!(robot.status, RobotStatus::Executing);
    assert!(log.is_initialized);
    assert_eq!(log.executor, holder);

    let revoked = Processor::process_revoke_credential(&mut credential, &robot, authority);
    assert_eq!(revoked, Ok(()));

    let mut log2 = empty_log();
    let retried = Processor::process_execute_command(
        &mut robot,
        &credential,
        holder,
        CommandType::Grab,
        vec![42],
        path,
        150,
        robot_key,
        &mut log2,
        COMMAND_LOG_LEN,
    );
    assert_eq!(retried, Err(RobyError::InvalidCredential));
    assert_eq!(robot.total_commands_executed, 1);
    assert!(!log2.is_initialized);
}

/// A freshly issued credential is unusable until the root is rotated to
/// include its hash: the deliberate two-step choreography.
#[test]
fn fresh_credential_unusable_until_root_rotation() {
    let existing = hash_leaf(b"existing grant");
    let mut robot = Robot::new(key(1), key(2), key(30), existing, String::from("meta"));
    let new_hash = hash_leaf(b"new grant");

    let mut credential = Credential::new(
        key(0),
        key(0),
        PermissionLevel::NoAccess,
        0,
        0,
        key(0),
        key(0),
    );
    credential.is_initialized = false;
    let issued = Processor::process_issue_credential(
        &mut credential,
        &robot,
        key(3),
        key(2),
        key(5),
        PermissionLevel::Operator,
        100,
        200,
        new_hash,
    );
    assert_eq!(issued, Ok(()));

    // The root still names only the old leaf: the proof for the new hash fails.
    let mut log = empty_log();
    let before = Processor::process_execute_command(
        &mut robot,
        &credential,
        key(5),
        CommandType::Move,
        vec![],
        vec![],
        150,
        key(3),
        &mut log,
        COMMAND_LOG_LEN,
    );
    assert_eq!(before, Err(RobyError::InvalidMerkleProof));

    // After rotation to a single-leaf tree over the new hash, it succeeds.
    let rotated = Processor::process_update_merkle_root(&mut robot, key(2), new_hash);
    assert_eq!(rotated, Ok(()));
    let after = Processor::process_execute_command(
        &mut robot,
        &credential,
        key(5),
        CommandType::Move,
        vec![],
        vec![],
        150,
        key(3),
        &mut log,
        COMMAND_LOG_LEN,
    );
    assert_eq!(after, Ok(()));
}
