//! Groups: shared ledgers. The creator of a group is its admin; only an
//! admin may remove members or change their roles.
use vstd::prelude::*;
use crate::enums::GroupRole;
use crate::errors::ServiceError;
use crate::p2p::UserGroupRecord;
use crate::time::Timestamp;

verus! {

/// A group.
pub struct GroupRecord {
    pub id: String,
    pub name: String,
    pub description: Option<String>,
    pub created_at: Timestamp,
}

/// A new group, created at `now`, and the creator's admin membership of it.
pub fn new_group(user_id: &str, name: &str, description: Option<String>, now: Timestamp) -> (r: (GroupRecord, UserGroupRecord))
    ensures
        r.0.name@ == name@,
        r.0.description == description,
        r.0.created_at == now,
        r.1.user_id@ == user_id@,
        r.1.group_id@ == r.0.id@,
        r.1.role@ == GroupRole::Admin.display_text(),
{
    let group = GroupRecord { id: crate::ids::new_id(), name: crate::text::owned(name), description, created_at: now };
    let membership = UserGroupRecord {
        user_id: crate::text::owned(user_id),
        group_id: group.id.clone(),
        role: crate::text::owned(GroupRole::Admin.display_name()),
    };
    (group, membership)
}

/// What an invitation to a group names: the group's id and name.
pub struct InviteTarget {
    pub group_id: String,
    pub group_name: String,
}

/// The group an invitation names, found under the requested id (if any).
pub fn invite_target(group: &Option<GroupRecord>) -> (r: Result<InviteTarget, ServiceError>)
    ensures
        group is None <==> r is Err,
        r matches Err(e) ==> e == ServiceError::GroupNotFound,
        r matches Ok(t) ==> t.group_id@ == group->0.id@ && t.group_name@ == group->0.name@,
{
    match group {
        Some(g) => Ok(InviteTarget { group_id: g.id.clone(), group_name: g.name.clone() }),
        None => Err(ServiceError::GroupNotFound),
    }
}

/// The acting user may manage the group: their membership (if any) is an
/// admin one.
pub open spec fn admin_check(membership: Option<UserGroupRecord>) -> Result<(), ServiceError> {
    match membership {
        None => Err(ServiceError::AdminNotInGroup),
        Some(m) => if m.role@ == GroupRole::Admin.display_text() {
            Ok(())
        } else {
            Err(ServiceError::InsufficientPermissions)
        },
    }
}

/// Checks that the acting user's membership of the group is an admin one.
pub fn authorize_admin(membership: &Option<UserGroupRecord>) -> (r: Result<(), ServiceError>)
    ensures
        r == admin_check(*membership),
{
    match membership {
        None => Err(ServiceError::AdminNotInGroup),
        Some(m) => {
            if crate::text::same_text(m.role.as_str(), GroupRole::Admin.display_name()) {
                Ok(())
            } else {
                Err(ServiceError::InsufficientPermissions)
            }
        },
    }
}

/// Changes the role of the target member, after checking that the acting
/// user is an admin of the group.
pub fn change_member_role(admin: &Option<UserGroupRecord>, target: Option<UserGroupRecord>, new_role: GroupRole) -> (r: Result<UserGroupRecord, ServiceError>)
    ensures
        admin_check(*admin) is Err ==> r == Err::<UserGroupRecord, ServiceError>(admin_check(*admin)->Err_0),
        admin_check(*admin) is Ok && target is None ==> r == Err::<UserGroupRecord, ServiceError>(ServiceError::MemberNotFound),
        r matches Ok(m) ==> admin_check(*admin) is Ok && m.user_id == target->0.user_id && m.group_id == target->0.group_id
            && m.role@ == new_role.display_text(),
        admin_check(*admin) is Ok && target is Some ==> r is Ok,
{
    match authorize_admin(admin) {
        Err(e) => {
            return Err(e);
        },
        Ok(()) => {},
    }
    match target {
        Some(m) => {
            let mut updated = m;
            updated.role = crate::text::owned(new_role.display_name());
            Ok(updated)
        },
        None => Err(ServiceError::MemberNotFound),
    }
}

/// The creator of a group may manage it: their membership passes the admin
/// check.
pub proof fn law_creator_is_admin(m: UserGroupRecord)
    requires
        m.role@ == GroupRole::Admin.display_text(),
    ensures
        admin_check(Some(m)) is Ok,
{
}

/// A member who joined by invitation may not manage the group.
pub proof fn law_invited_member_is_not_admin(m: UserGroupRecord)
    requires
        m.role@ == GroupRole::Member.display_text(),
    ensures
        admin_check(Some(m)) == Err::<(), ServiceError>(ServiceError::InsufficientPermissions),
{
    reveal_strlit("Admin");
    reveal_strlit("Member");
    assert("Admin"@.len() != "Member"@.len());
}

} // verus!
