use podfetch::controllers::{service_reply, update_role, user_not_found, Role, UserRoleUpdateModel};
use podfetch::exceptions::{PodFetchError, PodFetchErrorTrait};

#[test]
fn role_update_needs_both_users() {
    let body = UserRoleUpdateModel { role: Role::Uploader };
    let missing = update_role(false, true, &body).err().unwrap();
    assert_eq!(missing.status, 404);
    assert_eq!(missing.body, "User not found");
    assert_eq!(update_role(true, false, &body).err().unwrap().status, 404);
    assert_eq!(update_role(true, true, &body).ok(), Some("uploader".to_string()));
    assert_eq!(Role::Admin.role_name(), "admin");
    assert_eq!(Role::User.role_name(), "user");
}

#[test]
fn service_replies() {
    let ok = service_reply(&Ok(()), 400);
    assert_eq!(ok.status, 200);
    assert!(ok.body.is_empty());
    let err = service_reply(&Err(PodFetchError::no_permission_to_update_user_role()), 400);
    assert_eq!(err.status, 400);
    assert_eq!(err.body, "You do not have permissions to update a User's role");
    assert_eq!(user_not_found().status, 404);
}

#[test]
fn named_errors() {
    let e = PodFetchError::podcast_already_exists();
    assert_eq!(e.name(), "Podcast already exists");
    assert_eq!(e.status_code(), 400);
    assert_eq!(e.message(), "The following error occurred: Podcast already exists");
    assert_eq!(PodFetchError::no_permission_to_onboard_user().status_code(), 401);
    assert_eq!(PodFetchError::no_permissions_to_onboard_user().status_code(), 400);
    assert_eq!(PodFetchError::no_permission_to_delete_user().name(), "You do not have permissions to delete a User");
    assert_eq!(PodFetchError::podcast_directory_creation_error().status_code(), 500);
    let custom = <PodFetchError as PodFetchErrorTrait>::new("x", 418);
    assert_eq!(custom.name(), "x");
    assert_eq!(custom.status_code(), 418);
}
