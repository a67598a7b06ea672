//! Users: profiles and UPI ids. Of a user's UPI ids at most one is primary.
use vstd::prelude::*;
use crate::enums::GroupRole;
use crate::errors::ServiceError;
use crate::time::Timestamp;

verus! {

/// A user row.
pub struct UserRecord {
    pub id: String,
    pub name: String,
    pub email: String,
    pub email_verified: bool,
    pub image: Option<String>,
    pub phone: Option<String>,
    pub is_active: bool,
    pub created_at: Timestamp,
    pub updated_at: Timestamp,
    pub username: Option<String>,
    pub display_username: Option<String>,
    pub role: Option<GroupRole>,
    pub banned: Option<bool>,
    pub ban_reason: Option<String>,
    pub ban_expires: Option<Timestamp>,
    pub two_factor_enabled: Option<bool>,
    pub phone_number: Option<String>,
    pub phone_number_verified: Option<bool>,
    pub associated_contact_id: Option<String>,
    /// Free-form metadata, as JSON text.
    pub metadata: Option<String>,
}

/// The id of the user that owns the built-in categories.
pub open spec fn system_user_id() -> Seq<char> {
    "system"@
}

/// The built-in user that owns the built-in categories: inactive, verified,
/// named `System`.
pub fn system_user(now: Timestamp) -> (u: UserRecord)
    ensures
        u.id@ == system_user_id(),
        u.name@ == "System"@,
        u.email@ == "system@expent.internal"@,
        u.email_verified,
        !u.is_active,
        u.username.deep_view() == Some("system"@),
        u.display_username.deep_view() == Some("System"@),
        u.image is None && u.phone is None && u.role is None && u.banned is None && u.ban_reason is None,
        u.ban_expires is None && u.two_factor_enabled is None && u.phone_number is None,
        u.phone_number_verified is None && u.metadata is None && u.associated_contact_id is None,
        u.created_at == now,
        u.updated_at == now,
{
    UserRecord {
        id: crate::text::owned("system"),
        name: crate::text::owned("System"),
        email: crate::text::owned("system@expent.internal"),
        email_verified: true,
        image: None,
        phone: None,
        is_active: false,
        created_at: now,
        updated_at: now,
        username: Some(crate::text::owned("system")),
        display_username: Some(crate::text::owned("System")),
        role: None,
        banned: None,
        ban_reason: None,
        ban_expires: None,
        two_factor_enabled: None,
        phone_number: None,
        phone_number_verified: None,
        metadata: None,
        associated_contact_id: None,
    }
}

/// A user who signs up: under the id given, else a fresh one; missing name
/// and e-mail are empty, e-mail is unverified unless stated, and the account
/// is active.
pub fn signup_user(id: Option<String>, name: Option<String>, email: Option<String>, email_verified: Option<bool>, image: Option<String>, now: Timestamp) -> (u: UserRecord)
    ensures
        id is Some ==> u.id == id->0,
        u.name@ == match name { Some(n) => n@, None => Seq::<char>::empty() },
        u.email@ == match email { Some(e) => e@, None => Seq::<char>::empty() },
        u.email_verified == match email_verified { Some(b) => b, None => false },
        u.image == image,
        u.phone is None,
        u.is_active,
        u.created_at == now,
        u.updated_at == now,
{
    let id = match id {
        Some(i) => i,
        None => crate::ids::new_id(),
    };
    UserRecord {
        id,
        name: match name { Some(n) => n, None => String::new() },
        email: match email { Some(e) => e, None => String::new() },
        email_verified: match email_verified { Some(b) => b, None => false },
        image,
        phone: None,
        is_active: true,
        created_at: now,
        updated_at: now,
        username: None,
        display_username: None,
        role: None,
        banned: None,
        ban_reason: None,
        ban_expires: None,
        two_factor_enabled: None,
        phone_number: None,
        phone_number_verified: None,
        metadata: None,
        associated_contact_id: None,
    }
}

/// Edits the profile of the user found under the id (if any); a field left
/// `None` stays, and the update time becomes `now`.
pub fn update_profile(user: Option<UserRecord>, name: Option<String>, username: Option<String>, image: Option<String>, now: Timestamp) -> (r: Result<UserRecord, ServiceError>)
    ensures
        user is None <==> r is Err,
        r matches Err(e) ==> e == ServiceError::UserNotFound,
        r matches Ok(u) ==> u == (UserRecord {
            name: match name { Some(n) => n, None => user->0.name },
            username: match username { Some(n) => Some(n), None => user->0.username },
            image: match image { Some(i) => Some(i), None => user->0.image },
            updated_at: now,
            ..user->0
        }),
{
    let mut u = match user {
        Some(u) => u,
        None => {
            return Err(ServiceError::UserNotFound);
        },
    };
    if let Some(n) = name {
        u.name = n;
    }
    if let Some(n) = username {
        u.username = Some(n);
    }
    if let Some(i) = image {
        u.image = Some(i);
    }
    u.updated_at = now;
    Ok(u)
}

/// Applies an edit made through the sign-in service to the user found under
/// the id (if any): a field left `None` stays, and the update time becomes `now`.
pub fn apply_account_update(
    user: Option<UserRecord>,
    name: Option<String>,
    email: Option<String>,
    email_verified: Option<bool>,
    image: Option<String>,
    now: Timestamp,
) -> (r: Result<UserRecord, ServiceError>)
    ensures
        user is None <==> r is Err,
        r matches Err(e) ==> e == ServiceError::UserNotFound,
        r matches Ok(u) ==> u == (UserRecord {
            name: match name { Some(n) => n, None => user->0.name },
            email: match email { Some(e) => e, None => user->0.email },
            email_verified: match email_verified { Some(b) => b, None => user->0.email_verified },
            image: match image { Some(i) => Some(i), None => user->0.image },
            updated_at: now,
            ..user->0
        }),
{
    let mut u = match user {
        Some(u) => u,
        None => {
            return Err(ServiceError::UserNotFound);
        },
    };
    u.updated_at = now;
    if let Some(n) = name {
        u.name = n;
    }
    if let Some(e) = email {
        u.email = e;
    }
    if let Some(b) = email_verified {
        u.email_verified = b;
    }
    if let Some(i) = image {
        u.image = Some(i);
    }
    Ok(u)
}

/// A user as the sign-in service sees one.
pub struct AccountUser {
    pub id: String,
    pub name: Option<String>,
    pub email: Option<String>,
    pub email_verified: bool,
    pub image: Option<String>,
    pub created_at: Timestamp,
    pub updated_at: Timestamp,
    pub username: Option<String>,
    pub display_username: Option<String>,
    pub two_factor_enabled: bool,
    pub role: Option<String>,
    pub banned: bool,
    pub ban_reason: Option<String>,
    pub ban_expires: Option<Timestamp>,
}

/// The sign-in service's view of a stored user: the stored identity and
/// times, the role `user`, and no username, ban or second factor.
pub fn account_user_of(u: UserRecord) -> (a: AccountUser)
    ensures
        a.id == u.id,
        a.name == Some(u.name),
        a.email == Some(u.email),
        a.email_verified == u.email_verified,
        a.image == u.image,
        a.created_at == u.created_at,
        a.updated_at == u.updated_at,
        a.username is None,
        a.display_username is None,
        !a.two_factor_enabled,
        a.role.deep_view() == Some("user"@),
        !a.banned,
        a.ban_reason is None,
        a.ban_expires is None,
{
    AccountUser {
        id: u.id,
        name: Some(u.name),
        email: Some(u.email),
        email_verified: u.email_verified,
        image: u.image,
        created_at: u.created_at,
        updated_at: u.updated_at,
        username: None,
        display_username: None,
        two_factor_enabled: false,
        role: Some(crate::text::owned("user")),
        banned: false,
        ban_reason: None,
        ban_expires: None,
    }
}

/// A UPI id of a user.
pub struct UpiRecord {
    pub id: String,
    pub user_id: String,
    pub upi_id: String,
    pub is_primary: bool,
    pub label: Option<String>,
}

/// A new UPI id of a user, not primary.
pub fn new_upi(user_id: &str, upi_id: String, label: Option<String>) -> (u: UpiRecord)
    ensures
        u.user_id@ == user_id@,
        u.upi_id == upi_id,
        !u.is_primary,
        u.label == label,
{
    UpiRecord { id: crate::ids::new_id(), user_id: crate::text::owned(user_id), upi_id, is_primary: false, label }
}

/// The primary flag of a UPI row after `user_id` makes `upi_id` primary:
/// the user's rows are primary exactly when they are that one; other users'
/// rows are untouched.
pub open spec fn primary_after(u: UpiRecord, user_id: Seq<char>, upi_id: Seq<char>) -> bool {
    if u.user_id@ == user_id {
        u.id@ == upi_id
    } else {
        u.is_primary
    }
}

/// Makes `upi_id` the primary UPI id of `user_id`: every one of the user's
/// rows is first cleared, then the chosen one (if it is the user's) set.
pub fn make_primary(upis: Vec<UpiRecord>, user_id: &str, upi_id: &str) -> (r: Vec<UpiRecord>)
    ensures
        r.len() == upis.len(),
        forall|i: int| 0 <= i < r.len() ==> {
            &&& (#[trigger] r@[i]).id == upis@[i].id
            &&& r@[i].user_id == upis@[i].user_id
            &&& r@[i].upi_id == upis@[i].upi_id
            &&& r@[i].label == upis@[i].label
            &&& r@[i].is_primary == primary_after(upis@[i], user_id@, upi_id@)
        },
{
    let mut upis = upis;
    let ghost given = upis@;
    let mut reversed: Vec<UpiRecord> = Vec::new();
    while upis.len() > 0
        invariant
            given.len() == upis.len() + reversed.len(),
            forall|i: int| 0 <= i < upis.len() ==> #[trigger] upis@[i] == given[i],
            forall|i: int| 0 <= i < reversed.len() ==> #[trigger] reversed@[i] == given[given.len() - 1 - i],
        decreases upis.len(),
    {
        let u = upis.pop().unwrap();
        reversed.push(u);
    }
    let mut r: Vec<UpiRecord> = Vec::new();
    while reversed.len() > 0
        invariant
            given.len() == r.len() + reversed.len(),
            forall|i: int| 0 <= i < reversed.len() ==> #[trigger] reversed@[i] == given[given.len() - 1 - i],
            forall|i: int| 0 <= i < r.len() ==> {
                &&& (#[trigger] r@[i]).id == given[i].id
                &&& r@[i].user_id == given[i].user_id
                &&& r@[i].upi_id == given[i].upi_id
                &&& r@[i].label == given[i].label
                &&& r@[i].is_primary == primary_after(given[i], user_id@, upi_id@)
            },
        decreases reversed.len(),
    {
        let mut u = reversed.pop().unwrap();
        if crate::text::same_text(u.user_id.as_str(), user_id) {
            u.is_primary = crate::text::same_text(u.id.as_str(), upi_id);
        }
        r.push(u);
    }
    r
}

/// Where a user's UPI rows have distinct ids, making one primary leaves at
/// most one of them primary, and exactly that one when it is the user's.
pub proof fn law_at_most_one_primary(upis: Seq<UpiRecord>, user_id: Seq<char>, upi_id: Seq<char>, i: int, j: int)
    requires
        0 <= i < upis.len(),
        0 <= j < upis.len(),
        i != j,
        forall|a: int, b: int| 0 <= a < b < upis.len() ==> upis[a].id@ != upis[b].id@,
        upis[i].user_id@ == user_id,
        upis[j].user_id@ == user_id,
    ensures
        !(primary_after(upis[i], user_id, upi_id) && primary_after(upis[j], user_id, upi_id)),
{
}

} // verus!
