use vstd::prelude::*;

use crate::merkle::key_eq;
use crate::state::Key;
use crate::state::PermissionLevel;
use crate::state::Robot;

verus! {

/// An actor may administer a robot iff it is the robot's owner or its
/// authority. Governs root rotation, the operator set, status override,
/// emergency stop, and credential issuance and revocation.
pub open spec fn spec_can_administer(robot: Robot, actor: Key) -> bool {
    robot.owner@ == actor@ || robot.authority@ == actor@
}

pub fn can_administer(robot: &Robot, actor: &Key) -> (r: bool)
    ensures
        r == spec_can_administer(*robot, *actor),
{
    key_eq(&robot.owner, actor) || key_eq(&robot.authority, actor)
}

/// An actor may act as the robot's owner iff it is the owner. Governs
/// ownership transfer.
pub open spec fn spec_can_own(robot: Robot, actor: Key) -> bool {
    robot.owner@ == actor@
}

pub fn can_own(robot: &Robot, actor: &Key) -> (r: bool)
    ensures
        r == spec_can_own(*robot, *actor),
{
    key_eq(&robot.owner, actor)
}

/// An actor may issue or revoke credentials for a robot iff it may
/// administer the robot.
pub open spec fn spec_can_issue(robot: Robot, actor: Key) -> bool {
    spec_can_administer(robot, actor)
}

pub fn can_issue(robot: &Robot, actor: &Key) -> (r: bool)
    ensures
        r == spec_can_issue(*robot, *actor),
{
    can_administer(robot, actor)
}

/// Command execution requires a permission level strictly above Observer:
/// Operator, Administrator or Owner.
pub open spec fn spec_permission_sufficient(level: PermissionLevel) -> bool {
    match level {
        PermissionLevel::NoAccess => false,
        PermissionLevel::Observer => false,
        PermissionLevel::Operator => true,
        PermissionLevel::Administrator => true,
        PermissionLevel::Owner => true,
    }
}

pub fn permission_sufficient(level: PermissionLevel) -> (r: bool)
    ensures
        r == spec_permission_sufficient(level),
{
    match level {
        PermissionLevel::NoAccess => false,
        PermissionLevel::Observer => false,
        PermissionLevel::Operator => true,
        PermissionLevel::Administrator => true,
        PermissionLevel::Owner => true,
    }
}

} // verus!
