//! Where the application keeps its credentials file.
use vstd::prelude::*;
use crate::capture::{in_dir, path_in_dir};

verus! {

/// The credentials that the application keeps.
pub struct Credentials {
    pub access_token: String,
}

/// Where the credentials file lies below the home directory.
pub const CREDENTIALS_FILE: &'static str = ".config/ghview/credentials.json";

/// The path of the credentials file for the home directory `home`.
pub fn credentials_path(home: &str) -> (r: String)
    ensures
        r@ == in_dir(home@, CREDENTIALS_FILE@),
{
    path_in_dir(home, CREDENTIALS_FILE)
}

} // verus!
