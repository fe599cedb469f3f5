//! Request bodies of the user and notification API, and the replies that the
//! user handlers decide on.

use crate::exceptions::{PodFetchError, STATUS_BAD_REQUEST};
use vstd::prelude::*;

verus! {

pub const STATUS_OK: u16 = 200;

pub const STATUS_FORBIDDEN: u16 = 403;

pub const STATUS_NOT_FOUND: u16 = 404;

/// A user's role.
#[derive(PartialEq, Eq, Structural, Clone, Copy)]
pub enum Role {
    Admin,
    Uploader,
    User,
}

/// The stored name of a role.
pub open spec fn role_name_spec(r: Role) -> Seq<char> {
    match r {
        Role::Admin => "admin"@,
        Role::Uploader => "uploader"@,
        Role::User => "user"@,
    }
}

impl Role {
    /// The stored name of the role.
    pub fn role_name(&self) -> (r: String)
        ensures
            r@ == role_name_spec(*self),
    {
        match self {
            Role::Admin => String::from_str("admin"),
            Role::Uploader => String::from_str("uploader"),
            Role::User => String::from_str("user"),
        }
    }
}

/// The body of an onboarding request.
pub struct UserOnboardingModel {
    pub invite_id: String,
    pub username: String,
    pub password: String,
}

/// The body of an invite request.
pub struct InvitePostModel {
    pub role: Role,
}

/// The body of a role change.
pub struct UserRoleUpdateModel {
    pub role: Role,
}

/// A reply: status code and body.
pub struct HttpReply {
    pub status: u16,
    pub body: String,
}

/// The reply for a user that does not exist.
pub fn user_not_found() -> (r: HttpReply)
    ensures
        r.status == STATUS_NOT_FOUND,
        r.body@ == "User not found"@,
{
    HttpReply { status: STATUS_NOT_FOUND, body: String::from_str("User not found") }
}

/// The reply for a user service result that carries no body: 200, or the
/// error's name under the given status.
pub fn service_reply(result: &Result<(), PodFetchError>, error_status: u16) -> (r: HttpReply)
    ensures
        result is Ok ==> r.status == STATUS_OK && r.body@.len() == 0,
        result is Err ==> r.status == error_status && r.body == result->Err_0.name,
{
    match result {
        Ok(()) => HttpReply { status: STATUS_OK, body: String::new() },
        Err(e) => HttpReply { status: error_status, body: e.name.clone() },
    }
}

/// A role change: both the requester and the user to change must exist; the
/// role the user is then to get is returned.
pub fn update_role(requester_found: bool, user_to_update_found: bool, role: &UserRoleUpdateModel) -> (r: Result<String, HttpReply>)
    ensures
        !requester_found || !user_to_update_found ==> r is Err && r->Err_0.status == STATUS_NOT_FOUND
            && r->Err_0.body@ == "User not found"@,
        requester_found && user_to_update_found ==> r is Ok && r->Ok_0@ == role_name_spec(role.role),
{
    if !requester_found {
        return Err(user_not_found());
    }
    if !user_to_update_found {
        return Err(user_not_found());
    }
    Ok(role.role.role_name())
}

/// Whether a requester of the given stored role may change users' roles:
/// only an administrator may; anyone else gets the matching error.
pub fn role_update_permission(requester_role: &String) -> (r: Result<(), PodFetchError>)
    ensures
        requester_role@ == role_name_spec(Role::Admin) ==> r is Ok,
        requester_role@ != role_name_spec(Role::Admin) ==> r is Err
            && r->Err_0.name@ == "You do not have permissions to update a User's role"@
            && r->Err_0.status_code == STATUS_BAD_REQUEST,
{
    let admin = Role::Admin.role_name();
    if *requester_role == admin {
        Ok(())
    } else {
        Err(PodFetchError::no_permission_to_update_user_role())
    }
}

/// The reply to a role update: 200 with no body, or 400 with the error's name.
pub fn update_role_reply(result: &Result<(), PodFetchError>) -> (r: HttpReply)
    ensures
        result is Ok ==> r.status == STATUS_OK && r.body@.len() == 0,
        result is Err ==> r.status == STATUS_BAD_REQUEST && r.body == result->Err_0.name,
{
    service_reply(result, STATUS_BAD_REQUEST)
}

} // verus!
