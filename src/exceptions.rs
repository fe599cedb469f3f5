//! Named API errors with an HTTP status code.

use vstd::prelude::*;

verus! {

pub const STATUS_BAD_REQUEST: u16 = 400;

pub const STATUS_UNAUTHORIZED: u16 = 401;

pub const STATUS_INTERNAL_SERVER_ERROR: u16 = 500;

/// An error with a name, which is also the response body, and a status code.
pub trait PodFetchErrorTrait: Sized {
    /// The error's name.
    spec fn error_name(&self) -> Seq<char>;

    /// The error's status code.
    spec fn error_status(&self) -> u16;

    fn new(name: &str, status_code: u16) -> (r: Self)
        ensures
            r.error_name() == name@,
            r.error_status() == status_code,
    ;

    fn name(&self) -> (r: String)
        ensures
            r@ == self.error_name(),
    ;

    fn status_code(&self) -> (r: u16)
        ensures
            r == self.error_status(),
    ;
}

/// An API error of the server.
pub struct PodFetchError {
    pub name: String,
    pub status_code: u16,
}

impl PodFetchErrorTrait for PodFetchError {
    open spec fn error_name(&self) -> Seq<char> {
        self.name@
    }

    open spec fn error_status(&self) -> u16 {
        self.status_code
    }

    fn new(name: &str, status_code: u16) -> (r: PodFetchError) {
        PodFetchError { name: String::from_str(name), status_code }
    }

    fn name(&self) -> (r: String) {
        self.name.clone()
    }

    fn status_code(&self) -> (r: u16) {
        self.status_code
    }
}

impl PodFetchError {
    /// The text shown for the error.
    pub fn message(&self) -> (r: String)
        ensures
            r@ == "The following error occurred: "@ + self.name@,
    {
        let mut r = String::from_str("The following error occurred: ");
        r.append(self.name.as_str());
        r
    }

    pub fn podcast_already_exists() -> (r: PodFetchError)
        ensures
            r.name@ == "Podcast already exists"@,
            r.status_code == STATUS_BAD_REQUEST,
    {
        PodFetchError::new("Podcast already exists", STATUS_BAD_REQUEST)
    }

    pub fn no_permissions_to_onboard_user() -> (r: PodFetchError)
        ensures
            r.name@ == "You do not have permissions to onboard a User"@,
            r.status_code == STATUS_BAD_REQUEST,
    {
        PodFetchError::new("You do not have permissions to onboard a User", STATUS_BAD_REQUEST)
    }

    pub fn no_permission_to_delete_user() -> (r: PodFetchError)
        ensures
            r.name@ == "You do not have permissions to delete a User"@,
            r.status_code == STATUS_BAD_REQUEST,
    {
        PodFetchError::new("You do not have permissions to delete a User", STATUS_BAD_REQUEST)
    }

    pub fn no_permission_to_update_user_role() -> (r: PodFetchError)
        ensures
            r.name@ == "You do not have permissions to update a User's role"@,
            r.status_code == STATUS_BAD_REQUEST,
    {
        PodFetchError::new("You do not have permissions to update a User's role", STATUS_BAD_REQUEST)
    }

    pub fn no_permission_to_onboard_user() -> (r: PodFetchError)
        ensures
            r.name@ == "You do not have permissions to onboard a User"@,
            r.status_code == STATUS_UNAUTHORIZED,
    {
        PodFetchError::new("You do not have permissions to onboard a User", STATUS_UNAUTHORIZED)
    }

    pub fn podcast_directory_creation_error() -> (r: PodFetchError)
        ensures
            r.name@ == "Error creating podcast directory"@,
            r.status_code == STATUS_INTERNAL_SERVER_ERROR,
    {
        PodFetchError::new("Error creating podcast directory", STATUS_INTERNAL_SERVER_ERROR)
    }
}

} // verus!
