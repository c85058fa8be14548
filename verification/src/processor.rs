use vstd::prelude::*;

use crate::error::RobyError;
use crate::merkle::MerkleProof;
use crate::merkle::fold_path;
use crate::merkle::key_eq;
use crate::merkle::views_of;
use crate::policy::can_administer;
use crate::policy::can_issue;
use crate::policy::can_own;
use crate::policy::permission_sufficient;
use crate::policy::spec_can_administer;
use crate::policy::spec_can_issue;
use crate::policy::spec_can_own;
use crate::policy::spec_permission_sufficient;
use crate::state::COMMAND_LOG_LEN;
use crate::state::CommandLog;
use crate::state::CommandType;
use crate::state::Credential;
use crate::state::Key;
use crate::state::PermissionLevel;
use crate::state::Robot;
use crate::state::RobotStatus;
use crate::state::status_from_code;
use crate::state::spec_status_from_code;

verus! {

/// The first precondition a command-execution attempt violates, if any, in
/// the fixed order of the executor's contract: robot initialization, the
/// emergency-stop latch, credential initialization, credential time validity,
/// holder identity, Merkle membership, permission level, counter headroom.
pub open spec fn spec_execute_check(
    robot: Robot,
    credential: Credential,
    actor: Key,
    now: i64,
    path: Seq<Seq<u8>>,
) -> Option<RobyError> {
    if !robot.is_initialized {
        Some(RobyError::UninitializedAccount)
    } else if robot.emergency_stop {
        Some(RobyError::RobotNotActive)
    } else if !credential.is_initialized {
        Some(RobyError::InvalidCredential)
    } else if !credential.spec_is_valid(now) {
        Some(RobyError::InvalidCredential)
    } else if credential.owner@ != actor@ {
        Some(RobyError::PermissionDenied)
    } else if fold_path(credential.credential_hash@, path) != robot.merkle_root@ {
        Some(RobyError::InvalidMerkleProof)
    } else if !spec_permission_sufficient(credential.permission_level) {
        Some(RobyError::PermissionDenied)
    } else if robot.total_commands_executed == u64::MAX {
        Some(RobyError::ArithmeticOverflow)
    } else {
        None
    }
}

/// The operator set with every copy of one operator removed, order kept.
pub open spec fn without_operator(ops: Seq<Key>, operator: Key) -> Seq<Key> {
    ops.filter(|k: Key| k != operator)
}

/// The authorization engine: every rule it applies takes the records it
/// names as in-memory values and either rejects the invocation, leaving them
/// untouched, or commits all its effects on them at once.
pub struct Processor;

impl Processor {
    /// Initializes a robot record exactly once. Fails with
    /// AlreadyInitialized on a record already in use, leaving it untouched.
    pub fn process_initialize_robot(
        robot: &mut Robot,
        owner: Key,
        authority: Key,
        robot_id: Key,
        merkle_root: Key,
        metadata_uri: String,
    ) -> (r: Result<(), RobyError>)
        ensures
            old(robot).is_initialized ==> r == Err::<(), RobyError>(RobyError::AlreadyInitialized)
                && *final(robot) == *old(robot),
            !old(robot).is_initialized ==> {
                &&& r == Ok::<(), RobyError>(())
                &&& final(robot).is_initialized
                &&& final(robot).owner == owner
                &&& final(robot).authority == authority
                &&& final(robot).status == RobotStatus::Idle
                &&& final(robot).robot_id == robot_id
                &&& final(robot).merkle_root == merkle_root
                &&& final(robot).last_command_timestamp == 0
                &&& final(robot).total_commands_executed == 0
                &&& final(robot).active_operators@ == Seq::<Key>::empty()
                &&& final(robot).max_operators == crate::state::DEFAULT_MAX_OPERATORS
                &&& !final(robot).emergency_stop
                &&& final(robot).metadata_uri == metadata_uri
            },
    {
        if robot.is_initialized() {
            return Err(RobyError::AlreadyInitialized);
        }
        *robot = Robot::new(owner, authority, robot_id, merkle_root, metadata_uri);
        Ok(())
    }

    /// Issues a credential: the issuer must be able to administer the robot,
    /// which must be initialized. The robot's Merkle root is not touched, so
    /// the fresh credential stays unusable until the root is rotated to
    /// include its hash.
    pub fn process_issue_credential(
        credential: &mut Credential,
        robot: &Robot,
        robot_key: Key,
        issuer: Key,
        recipient: Key,
        permission_level: PermissionLevel,
        valid_from: i64,
        valid_until: i64,
        credential_hash: Key,
    ) -> (r: Result<(), RobyError>)
        ensures
            !robot.is_initialized ==> r == Err::<(), RobyError>(RobyError::UninitializedAccount)
                && *final(credential) == *old(credential),
            robot.is_initialized && !spec_can_issue(*robot, issuer) ==> r == Err::<(), RobyError>(
                RobyError::NotAuthorized,
            ) && *final(credential) == *old(credential),
            robot.is_initialized && spec_can_issue(*robot, issuer) ==> {
                &&& r == Ok::<(), RobyError>(())
                &&& final(credential).is_initialized
                &&& final(credential).owner == recipient
                &&& final(credential).robot == robot_key
                &&& final(credential).permission_level == permission_level
                &&& final(credential).valid_from == valid_from
                &&& final(credential).valid_until == valid_until
                &&& !final(credential).revoked
                &&& final(credential).credential_hash == credential_hash
                &&& final(credential).issuer == issuer
            },
    {
        if !robot.is_initialized() {
            return Err(RobyError::UninitializedAccount);
        }
        if !can_issue(robot, &issuer) {
            return Err(RobyError::NotAuthorized);
        }
        *credential = Credential::new(
            recipient,
            robot_key,
            permission_level,
            valid_from,
            valid_until,
            credential_hash,
            issuer,
        );
        Ok(())
    }

    /// Revokes a credential: one-way, idempotent in effect. The actor must be
    /// able to administer the robot; the credential must be initialized.
    /// Revocation does not touch the robot's Merkle root.
    pub fn process_revoke_credential(
        credential: &mut Credential,
        robot: &Robot,
        actor: Key,
    ) -> (r: Result<(), RobyError>)
        ensures
            !spec_can_issue(*robot, actor) ==> r == Err::<(), RobyError>(RobyError::NotAuthorized)
                && *final(credential) == *old(credential),
            spec_can_issue(*robot, actor) && !old(credential).is_initialized ==> r == Err::<
                (),
                RobyError,
            >(RobyError::UninitializedAccount) && *final(credential) == *old(credential),
            spec_can_issue(*robot, actor) && old(credential).is_initialized ==> {
                &&& r == Ok::<(), RobyError>(())
                &&& *final(credential) == (Credential { revoked: true, ..*old(credential) })
            },
    {
        if !can_issue(robot, &actor) {
            return Err(RobyError::NotAuthorized);
        }
        if !credential.is_initialized() {
            return Err(RobyError::UninitializedAccount);
        }
        credential.revoked = true;
        Ok(())
    }

    /// Replaces the robot's Merkle root outright; trust is placed in the
    /// administering actor, no consistency with any credential set is checked.
    pub fn process_update_merkle_root(
        robot: &mut Robot,
        actor: Key,
        new_merkle_root: Key,
    ) -> (r: Result<(), RobyError>)
        ensures
            !old(robot).is_initialized ==> r == Err::<(), RobyError>(
                RobyError::UninitializedAccount,
            ) && *final(robot) == *old(robot),
            old(robot).is_initialized && !spec_can_administer(*old(robot), actor) ==> r == Err::<
                (),
                RobyError,
            >(RobyError::NotAuthorized) && *final(robot) == *old(robot),
            old(robot).is_initialized && spec_can_administer(*old(robot), actor) ==> {
                &&& r == Ok::<(), RobyError>(())
                &&& *final(robot) == (Robot { merkle_root: new_merkle_root, ..*old(robot) })
            },
    {
        if !robot.is_initialized() {
            return Err(RobyError::UninitializedAccount);
        }
        if !can_administer(robot, &actor) {
            return Err(RobyError::NotAuthorized);
        }
        robot.merkle_root = new_merkle_root;
        Ok(())
    }

    /// Swaps the robot's authority; only the current authority itself may do
    /// so.
    pub fn process_transfer_authority(
        robot: &mut Robot,
        actor: Key,
        new_authority: Key,
    ) -> (r: Result<(), RobyError>)
        ensures
            old(robot).authority@ != actor@ ==> r == Err::<(), RobyError>(RobyError::NotAuthorized)
                && *final(robot) == *old(robot),
            old(robot).authority@ == actor@ ==> {
                &&& r == Ok::<(), RobyError>(())
                &&& *final(robot) == (Robot { authority: new_authority, ..*old(robot) })
            },
    {
        if !key_eq(&robot.authority, &actor) {
            return Err(RobyError::NotAuthorized);
        }
        robot.authority = new_authority;
        Ok(())
    }

    /// Swaps the robot's owner; only the current owner may do so.
    pub fn process_transfer_ownership(
        robot: &mut Robot,
        actor: Key,
        new_owner: Key,
    ) -> (r: Result<(), RobyError>)
        ensures
            !spec_can_own(*old(robot), actor) ==> r == Err::<(), RobyError>(
                RobyError::NotAuthorized,
            ) && *final(robot) == *old(robot),
            spec_can_own(*old(robot), actor) ==> {
                &&& r == Ok::<(), RobyError>(())
                &&& *final(robot) == (Robot { owner: new_owner, ..*old(robot) })
            },
    {
        if !can_own(robot, &actor) {
            return Err(RobyError::NotAuthorized);
        }
        robot.owner = new_owner;
        Ok(())
    }

    /// Engages the emergency-stop latch and forces the status to Error,
    /// whatever the current state; only the actor gate can refuse it.
    pub fn process_emergency_stop(robot: &mut Robot, actor: Key) -> (r: Result<(), RobyError>)
        ensures
            !spec_can_administer(*old(robot), actor) ==> r == Err::<(), RobyError>(
                RobyError::NotAuthorized,
            ) && *final(robot) == *old(robot),
            spec_can_administer(*old(robot), actor) ==> {
                &&& r == Ok::<(), RobyError>(())
                &&& *final(robot) == (Robot {
                    emergency_stop: true,
                    status: RobotStatus::Error,
                    ..*old(robot)
                })
            },
    {
        if !can_administer(robot, &actor) {
            return Err(RobyError::NotAuthorized);
        }
        robot.emergency_stop = true;
        robot.status = RobotStatus::Error;
        Ok(())
    }

    /// Clears the emergency-stop latch and restores Idle; only the robot's
    /// exact authority may do so.
    pub fn process_resume(robot: &mut Robot, actor: Key) -> (r: Result<(), RobyError>)
        ensures
            old(robot).authority@ != actor@ ==> r == Err::<(), RobyError>(RobyError::NotAuthorized)
                && *final(robot) == *old(robot),
            old(robot).authority@ == actor@ ==> {
                &&& r == Ok::<(), RobyError>(())
                &&& *final(robot) == (Robot {
                    emergency_stop: false,
                    status: RobotStatus::Idle,
                    ..*old(robot)
                })
            },
    {
        if !key_eq(&robot.authority, &actor) {
            return Err(RobyError::NotAuthorized);
        }
        robot.emergency_stop = false;
        robot.status = RobotStatus::Idle;
        Ok(())
    }

    /// Sets the robot's status to the state named by a wire code 0..=5; an
    /// out-of-range code is rejected and changes nothing.
    pub fn process_update_robot_status(
        robot: &mut Robot,
        actor: Key,
        status_code: u8,
    ) -> (r: Result<(), RobyError>)
        ensures
            !spec_can_administer(*old(robot), actor) ==> r == Err::<(), RobyError>(
                RobyError::NotAuthorized,
            ) && *final(robot) == *old(robot),
            spec_can_administer(*old(robot), actor) && spec_status_from_code(status_code) is None
                ==> r == Err::<(), RobyError>(RobyError::InvalidRobotState) && *final(robot)
                == *old(robot),
            spec_can_administer(*old(robot), actor) && spec_status_from_code(status_code) is Some
                ==> {
                &&& r == Ok::<(), RobyError>(())
                &&& *final(robot) == (Robot {
                    status: spec_status_from_code(status_code)->0,
                    ..*old(robot)
                })
            },
    {
        if !can_administer(robot, &actor) {
            return Err(RobyError::NotAuthorized);
        }
        match status_from_code(status_code) {
            Some(status) => {
                robot.status = status;
                Ok(())
            },
            None => Err(RobyError::InvalidRobotState),
        }
    }

    /// Authorizes and records one command. The preconditions of
    /// `spec_execute_check` are tested in order and the first failure wins,
    /// with no record changed. On success the robot enters Executing, its
    /// counters advance, and the audit record is written when the provided
    /// log slot is large enough — a slot too small silently skips logging.
    pub fn process_execute_command(
        robot: &mut Robot,
        credential: &Credential,
        actor: Key,
        command_type: CommandType,
        parameters: Vec<u8>,
        merkle_proof: Vec<Key>,
        now: i64,
        robot_key: Key,
        log: &mut CommandLog,
        log_slot_len: usize,
    ) -> (r: Result<(), RobyError>)
        ensures
            match spec_execute_check(*old(robot), *credential, actor, now, views_of(merkle_proof@)) {
                Some(e) => r == Err::<(), RobyError>(e) && *final(robot) == *old(robot)
                    && *final(log) == *old(log),
                None => {
                    &&& r == Ok::<(), RobyError>(())
                    &&& *final(robot) == (Robot {
                        status: RobotStatus::Executing,
                        last_command_timestamp: now,
                        total_commands_executed: (old(robot).total_commands_executed + 1) as u64,
                        ..*old(robot)
                    })
                    &&& log_slot_len >= COMMAND_LOG_LEN ==> *final(log) == (CommandLog {
                        is_initialized: true,
                        robot: robot_key,
                        executor: actor,
                        command_type: command_type,
                        timestamp: now,
                        parameters: parameters,
                        success: true,
                        error_code: 0,
                    })
                    &&& log_slot_len < COMMAND_LOG_LEN ==> *final(log) == *old(log)
                },
            },
    {
        if !robot.is_initialized() {
            return Err(RobyError::UninitializedAccount);
        }
        if robot.emergency_stop {
            return Err(RobyError::RobotNotActive);
        }
        if !credential.is_initialized() {
            return Err(RobyError::InvalidCredential);
        }
        if !credential.is_valid(now) {
            return Err(RobyError::InvalidCredential);
        }
        if !key_eq(&credential.owner, &actor) {
            return Err(RobyError::PermissionDenied);
        }
        let proof_obj = MerkleProof { proof: merkle_proof, leaf: credential.credential_hash };
        if !proof_obj.verify(&robot.merkle_root) {
            return Err(RobyError::InvalidMerkleProof);
        }
        if !permission_sufficient(credential.permission_level) {
            return Err(RobyError::PermissionDenied);
        }
        if robot.total_commands_executed == u64::MAX {
            return Err(RobyError::ArithmeticOverflow);
        }
        robot.status = RobotStatus::Executing;
        robot.last_command_timestamp = now;
        robot.total_commands_executed = robot.total_commands_executed + 1;
        if log_slot_len >= COMMAND_LOG_LEN {
            *log = CommandLog {
                is_initialized: true,
                robot: robot_key,
                executor: actor,
                command_type,
                timestamp: now,
                parameters,
                success: true,
                error_code: 0,
            };
        }
        Ok(())
    }

    /// Adds an operator: the actor must administer the robot, the set must
    /// be under its cap, and a duplicate is a no-op success. The capacity
    /// check comes first, so a duplicate added to a full set is rejected.
    pub fn process_add_operator(robot: &mut Robot, actor: Key, operator: Key) -> (r: Result<
        (),
        RobyError,
    >)
        ensures
            !spec_can_administer(*old(robot), actor) ==> r == Err::<(), RobyError>(
                RobyError::NotAuthorized,
            ) && *final(robot) == *old(robot),
            spec_can_administer(*old(robot), actor) && old(robot).active_operators@.len() >= old(
                robot,
            ).max_operators as int ==> r == Err::<(), RobyError>(RobyError::InvalidRobotState)
                && *final(robot) == *old(robot),
            spec_can_administer(*old(robot), actor) && old(robot).active_operators@.len() < old(
                robot,
            ).max_operators as int ==> {
                &&& r == Ok::<(), RobyError>(())
                &&& old(robot).active_operators@.contains(operator) ==> *final(robot) == *old(robot)
                &&& !old(robot).active_operators@.contains(operator) ==> *final(robot) == (Robot {
                    active_operators: final(robot).active_operators,
                    ..*old(robot)
                }) && final(robot).active_operators@ == old(robot).active_operators@.push(operator)
            },
    {
        if !can_administer(robot, &actor) {
            return Err(RobyError::NotAuthorized);
        }
        if robot.active_operators.len() >= robot.max_operators as usize {
            return Err(RobyError::InvalidRobotState);
        }
        if !operators_contain(&robot.active_operators, &operator) {
            robot.active_operators.push(operator);
        }
        Ok(())
    }

    /// Removes every copy of an operator from the set; removing an absent
    /// operator is a no-op success.
    pub fn process_remove_operator(robot: &mut Robot, actor: Key, operator: Key) -> (r: Result<
        (),
        RobyError,
    >)
        ensures
            !spec_can_administer(*old(robot), actor) ==> r == Err::<(), RobyError>(
                RobyError::NotAuthorized,
            ) && *final(robot) == *old(robot),
            spec_can_administer(*old(robot), actor) ==> {
                &&& r == Ok::<(), RobyError>(())
                &&& *final(robot) == (Robot {
                    active_operators: final(robot).active_operators,
                    ..*old(robot)
                })
                &&& final(robot).active_operators@ == without_operator(
                    old(robot).active_operators@,
                    operator,
                )
            },
    {
        if !can_administer(robot, &actor) {
            return Err(RobyError::NotAuthorized);
        }
        let ghost orig: Seq<Key> = robot.active_operators@;
        let mut kept: Vec<Key> = Vec::new();
        let mut i: usize = 0;
        proof {
            reveal(Seq::filter);
            assert(orig.take(0) =~= Seq::<Key>::empty());
            assert(without_operator(orig.take(0), operator) =~= Seq::<Key>::empty());
        }
        while i < robot.active_operators.len()
            invariant
                robot.active_operators@ == orig,
                i <= orig.len(),
                kept@ == without_operator(orig.take(i as int), operator),
            decreases orig.len() - i,
        {
            proof {
                reveal(Seq::filter);
                assert(orig.take(i as int + 1).drop_last() =~= orig.take(i as int));
                assert(orig.take(i as int + 1).last() == orig[i as int]);
            }
            let keep = !key_eq(&robot.active_operators[i], &operator);
            if keep {
                kept.push(robot.active_operators[i]);
                proof {
                    assert(orig[i as int] != operator);
                }
            } else {
                proof {
                    assert(orig[i as int] =~= operator);
                }
            }
            i = i + 1;
        }
        proof {
            assert(orig.take(orig.len() as int) =~= orig);
        }
        robot.active_operators = kept;
        Ok(())
    }
}

/// Law: with the emergency-stop latch engaged, execution of a command on an
/// initialized robot is denied with RobotNotActive, regardless of credential
/// validity, proof correctness or permission level.
pub proof fn lemma_emergency_stop_blocks_execution(
    robot: Robot,
    credential: Credential,
    actor: Key,
    now: i64,
    path: Seq<Seq<u8>>,
)
    requires
        robot.is_initialized,
        robot.emergency_stop,
    ensures
        spec_execute_check(robot, credential, actor, now, path) == Some(RobyError::RobotNotActive),
{
}

/// Law: when a credential is initialized but time-invalid or revoked, the
/// reported error is InvalidCredential, even on a path that would also fail
/// Merkle verification — the earlier precondition wins.
pub proof fn lemma_invalid_credential_reported_first(
    robot: Robot,
    credential: Credential,
    actor: Key,
    now: i64,
    path: Seq<Seq<u8>>,
)
    requires
        robot.is_initialized,
        !robot.emergency_stop,
        credential.is_initialized,
        !credential.spec_is_valid(now),
    ensures
        spec_execute_check(robot, credential, actor, now, path) == Some(
            RobyError::InvalidCredential,
        ),
{
}

/// Law: a credential at NoAccess or Observer level is never granted
/// execution, whatever the robot state, holder, time and presented path.
pub proof fn lemma_permission_floor(
    robot: Robot,
    credential: Credential,
    actor: Key,
    now: i64,
    path: Seq<Seq<u8>>,
)
    requires
        credential.permission_level == PermissionLevel::NoAccess || credential.permission_level
            == PermissionLevel::Observer,
    ensures
        spec_execute_check(robot, credential, actor, now, path) is Some,
{
}

/// Linear search of the operator set, comparing 32-byte identities.
fn operators_contain(ops: &Vec<Key>, key: &Key) -> (r: bool)
    ensures
        r == ops@.contains(*key),
{
    let mut i: usize = 0;
    while i < ops.len()
        invariant
            i <= ops@.len(),
            forall|j: int| 0 <= j < i ==> ops@[j] != *key,
        decreases ops@.len() - i,
    {
        if key_eq(&ops[i], key) {
            proof {
                assert(ops@[i as int] =~= *key);
            }
            return true;
        }
        i = i + 1;
    }
    proof {
        assert(!ops@.contains(*key));
    }
    false
}

} // verus!


