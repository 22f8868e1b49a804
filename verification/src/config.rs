//! The gateway's configuration: the management API root URL and the static
//! basic-auth credentials, loaded once at startup and passed in explicitly.

use vstd::prelude::*;

verus! {

/// Required configuration for every resource client.
pub struct Config {
    /// Root URL of the broker's management API.
    pub management_root: String,
    /// Management username.
    pub username: String,
    /// Management password.
    pub password: String,
}

impl Config {
    pub fn new(management_root: String, username: String, password: String) -> (c: Config)
        ensures
            c.management_root == management_root,
            c.username == username,
            c.password == password,
    {
        Config { management_root, username, password }
    }
}

} // verus!
