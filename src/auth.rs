//! Sign-in with GitHub's device flow: where the token is kept, and what each
//! answer of the flow means for the user's status.
use vstd::prelude::*;
use crate::text::{same_text, join};

verus! {

/// The service under which the token is kept in the system's keyring.
pub const KEYRING_SERVICE: &'static str = "ghview";

/// The account under which the token is kept in the system's keyring.
pub const KEYRING_USER: &'static str = "github_oauth_token";

/// The client id of the application at GitHub. The device flow needs no
/// client secret.
pub const GITHUB_CLIENT_ID: &'static str = "Iv23li78KgNyGR5C061j";

/// The answer of the token endpoint while the user has not yet approved.
pub const AUTHORIZATION_PENDING: &'static str = "authorization_pending";

/// The message of a flow that ended without a token.
pub const NO_TOKEN: &'static str = "Failed to obtain access token";

/// `keyring::Entry`, an entry of the system's keyring, carried through as
/// it is.
#[verifier::external_type_specification]
#[verifier::external_body]
pub struct ExEntry(keyring::Entry);

/// `keyring::Error`, the keyring's failures, carried through as they are.
#[verifier::external_type_specification]
#[verifier::external_body]
pub struct ExKeyringError(keyring::Error);

/// Relies on `keyring::Entry::new`: it makes an entry for a service and an
/// account, or fails where the platform refuses them.
pub assume_specification[ keyring::Entry::new ](service: &str, user: &str) -> Result<
    keyring::Entry,
    keyring::Error,
>;

/// Relies on `keyring::Entry::get_password`: the password saved for the
/// entry, or an error where there is none or the store cannot be read.
pub assume_specification[ keyring::Entry::get_password ](entry: &keyring::Entry) -> Result<
    String,
    keyring::Error,
>;

/// Relies on `keyring::Entry::set_password`: it saves the password for the
/// entry, or fails where the store cannot be written.
pub assume_specification[ keyring::Entry::set_password ](entry: &keyring::Entry, password: &str) -> Result<
    (),
    keyring::Error,
>;

/// Relies on `keyring::Entry::delete_credential`: it removes the entry's
/// password, or fails where there is none or the store cannot be written.
pub assume_specification[ keyring::Entry::delete_credential ](entry: &keyring::Entry) -> Result<
    (),
    keyring::Error,
>;

/// Relies on the `Display` of `keyring::Error`: a description of the error.
#[verifier::external_body]
fn keyring_error_text(e: &keyring::Error) -> (r: String) {
    e.to_string()
}

/// Why signing in, or reading the token, failed.
pub enum AuthError {
    Keyring(String),
    OAuth(String),
    NotAuthenticated,
}

/// Whether the user is signed in, and as whom.
pub struct AuthStatus {
    pub authenticated: bool,
    pub username: Option<String>,
}

/// The start of a device flow: the code the user enters, and where.
pub struct DeviceFlowInit {
    pub user_code: String,
    pub verification_uri: String,
    pub device_code: String,
    pub expires_in: u32,
    pub interval: u32,
}

/// The text of an error, as the user sees it.
pub open spec fn auth_error_text(e: AuthError) -> Seq<char> {
    match e {
        AuthError::Keyring(m) => "Keyring error: "@ + m@,
        AuthError::OAuth(m) => "OAuth error: "@ + m@,
        AuthError::NotAuthenticated => "Not authenticated"@,
    }
}

impl AuthError {
    /// The text of this error, as the user sees it.
    pub fn message(&self) -> (r: String)
        ensures
            r@ == auth_error_text(*self),
    {
        match self {
            AuthError::Keyring(m) => join("Keyring error: ", m.as_str()),
            AuthError::OAuth(m) => join("OAuth error: ", m.as_str()),
            AuthError::NotAuthenticated => "Not authenticated".to_string(),
        }
    }
}

impl AuthStatus {
    /// The status of a user who is not signed in.
    pub fn signed_out() -> (r: AuthStatus)
        ensures
            !r.authenticated,
            r.username is None,
    {
        AuthStatus { authenticated: false, username: None }
    }

    /// The status of a user signed in as `login`.
    pub fn signed_in(login: String) -> (r: AuthStatus)
        ensures
            r.authenticated,
            r.username == Some(login),
    {
        AuthStatus { authenticated: true, username: Some(login) }
    }
}

/// What reading the token gives, from what the keyring did: the keyring's
/// error where the entry could not be made, the stored token where one was
/// read, and not signed in where none could be read.
pub fn token_from_keyring(read: Result<Option<String>, String>) -> (r: Result<String, AuthError>)
    ensures
        read matches Err(m) ==> (r matches Err(AuthError::Keyring(x)) && x@ == m@),
        read matches Ok(Some(t)) ==> r == Ok::<String, AuthError>(t),
        read matches Ok(None) ==> (r matches Err(AuthError::NotAuthenticated)),
{
    match read {
        Err(m) => Err(AuthError::Keyring(m)),
        Ok(Some(t)) => Ok(t),
        Ok(None) => Err(AuthError::NotAuthenticated),
    }
}

/// What a change to the keyring gives: done, or the keyring's error.
pub fn keyring_write_outcome(written: Result<(), String>) -> (r: Result<(), AuthError>)
    ensures
        written is Ok ==> r is Ok,
        written matches Err(m) ==> (r matches Err(AuthError::Keyring(x)) && x@ == m@),
{
    match written {
        Ok(()) => Ok(()),
        Err(m) => Err(AuthError::Keyring(m)),
    }
}

/// The keyring entry that holds the token, or the keyring's error.
fn open_entry() -> (r: Result<keyring::Entry, String>) {
    match keyring::Entry::new(KEYRING_SERVICE, KEYRING_USER) {
        Ok(entry) => Ok(entry),
        Err(e) => Err(keyring_error_text(&e)),
    }
}

/// The token kept in the system's keyring: what `token_from_keyring` makes
/// of making the entry and reading its password.
pub fn get_stored_token() -> (r: Result<String, AuthError>)
    ensures
        r matches Err(e) ==> e is NotAuthenticated || e is Keyring,
{
    let read = match open_entry() {
        Err(m) => Err(m),
        Ok(entry) => match entry.get_password() {
            Ok(t) => Ok(Some(t)),
            Err(_) => Ok(None),
        },
    };
    token_from_keyring(read)
}

/// The token with which the application calls GitHub.
pub fn get_token() -> (r: Result<String, AuthError>)
    ensures
        r matches Err(e) ==> e is NotAuthenticated || e is Keyring,
{
    get_stored_token()
}

/// Keeps `token` in the system's keyring; a failure is the keyring's error.
pub fn store_token(token: &str) -> (r: Result<(), AuthError>)
    ensures
        r matches Err(e) ==> e is Keyring,
{
    let written = match open_entry() {
        Err(m) => Err(m),
        Ok(entry) => match entry.set_password(token) {
            Ok(()) => Ok(()),
            Err(e) => Err(keyring_error_text(&e)),
        },
    };
    keyring_write_outcome(written)
}

/// Removes the token from the system's keyring. A token that is not there,
/// or cannot be removed, is no error; an entry that cannot be made is.
pub fn delete_token() -> (r: Result<(), AuthError>)
    ensures
        r matches Err(e) ==> e is Keyring,
{
    let written = match open_entry() {
        Err(m) => Err(m),
        Ok(entry) => {
            let _ = entry.delete_credential();
            Ok(())
        },
    };
    keyring_write_outcome(written)
}

/// Signs the user out by removing the token; unlike `delete_token`, a
/// token that cannot be removed is the keyring's error.
pub fn logout() -> (r: Result<(), AuthError>)
    ensures
        r matches Err(e) ==> e is Keyring,
{
    let written = match open_entry() {
        Err(m) => Err(m),
        Ok(entry) => match entry.delete_credential() {
            Ok(()) => Ok(()),
            Err(e) => Err(keyring_error_text(&e)),
        },
    };
    keyring_write_outcome(written)
}

/// What one poll of the device flow's token endpoint means.
pub enum PollOutcome {
    /// The user has not approved yet: poll again later.
    Pending,
    /// The flow failed.
    Failed(AuthError),
    /// GitHub issued this token: keep it and look up the user.
    Issued(String),
}

/// What the token endpoint's answer means: an error other than
/// `authorization_pending` fails the flow with its description (or, where
/// there is none, its code); otherwise a token is issued where the answer
/// holds one.
pub fn poll_outcome(
    access_token: Option<String>,
    error: Option<String>,
    error_description: Option<String>,
) -> (r: PollOutcome)
    ensures
        error matches Some(code) ==> (if code@ == AUTHORIZATION_PENDING@ {
            r is Pending
        } else {
            r matches PollOutcome::Failed(AuthError::OAuth(m)) && m@ == (match error_description {
                Some(d) => d@,
                None => code@,
            })
        }),
        error is None ==> match access_token {
            Some(t) => r == PollOutcome::Issued(t),
            None => r matches PollOutcome::Failed(AuthError::OAuth(m)) && m@ == NO_TOKEN@,
        },
{
    if let Some(code) = error {
        if same_text(code.as_str(), AUTHORIZATION_PENDING) {
            return PollOutcome::Pending;
        }
        let m = match error_description {
            Some(d) => d,
            None => code,
        };
        return PollOutcome::Failed(AuthError::OAuth(m));
    }
    match access_token {
        Some(t) => PollOutcome::Issued(t),
        None => PollOutcome::Failed(AuthError::OAuth(NO_TOKEN.to_string())),
    }
}

/// The end of a device flow whose token was kept: signed in as the login
/// that GitHub gave for it, or failed where the user could not be read.
pub fn login_outcome(login: Option<String>) -> (r: Result<AuthStatus, AuthError>)
    ensures
        login matches Some(l) ==> (r matches Ok(s) && s.authenticated && s.username == Some(l)),
        login is None ==> (r matches Err(AuthError::OAuth(m)) && m@ == NO_TOKEN@),
{
    match login {
        Some(l) => Ok(AuthStatus::signed_in(l)),
        None => Err(AuthError::OAuth(NO_TOKEN.to_string())),
    }
}

/// The status of a user whose stored token was checked with GitHub: signed
/// in as the login that GitHub gave, signed out where there was no token or
/// GitHub refused it.
pub fn status_from_check(login: Option<String>) -> (r: AuthStatus)
    ensures
        login matches Some(l) ==> r.authenticated && r.username == Some(l),
        login is None ==> !r.authenticated && r.username is None,
{
    match login {
        Some(l) => AuthStatus::signed_in(l),
        None => AuthStatus::signed_out(),
    }
}

} // verus!
