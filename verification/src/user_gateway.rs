//! The remote user service, as the wallet service sees it.

use vstd::prelude::*;
use vstd::string::StringExecFns;
use crate::http_client::HttpClientError;
use crate::text::{decimal, decimal_text};
use crate::user::User;

verus! {

/// The gateway that asks the user service over HTTP.
#[derive(Debug, Clone, Copy)]
pub struct RestRepository;

/// Something that can say who a user is.
pub trait UserProvider: Send + Sync {
    fn find_user_by_id(user_id: i32) -> Result<User, HttpClientError>;
}

/// The name under which the user service's base URL is configured.
pub fn user_service() -> (name: &'static str)
    ensures
        name@ == "user"@,
{
    "user"
}

/// The endpoint of the user service that answers for `user_id`.
pub fn user_path(user_id: i32) -> (path: String)
    ensures
        path@ == "/users/"@ + decimal_text(user_id as i64),
{
    let mut path = String::from_str("/users/");
    path.append(decimal(user_id as i64).as_str());
    path
}

} // verus!
