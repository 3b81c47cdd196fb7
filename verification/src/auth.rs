//! Authentication against the remote service.
//!
//! The exchange itself is the caller's business: `login_request` says what to
//! send, and `login` takes what came back, remembers the user in the session
//! store and answers the command.

use vstd::prelude::*;
use crate::store::{text_of, SessionStore, StoreModel};

verus! {

/// The protocol version that every authentication request carries.
pub open spec fn protocol_version() -> Seq<char> {
    "1.5.3"@
}

/// The body of an authentication request.
#[derive(Debug, PartialEq, Eq)]
pub struct LoginRequest {
    /// Who wants to log in.
    pub identifier: String,
    /// Their secret.
    pub secret: String,
    /// The version of the protocol that the request speaks.
    pub protocol_version: String,
}

/// The answer of the remote service to an authentication request.
#[derive(Debug, PartialEq, Eq)]
pub struct LoginResponse {
    /// The credentials were accepted.
    pub result: bool,
    /// What the service says about it.
    pub msg: String,
    /// The service's identifier of the user, where it gave one.
    pub usernum: Option<String>,
}

/// What an authentication attempt came to.
#[derive(Debug, PartialEq, Eq)]
pub struct AuthenticationOutcome {
    /// The credentials were accepted.
    pub success: bool,
    /// What the service says about it.
    pub message: String,
    /// The user to remember: set only for accepted credentials.
    pub user_id: Option<String>,
}

/// How the exchange with the remote service ended.
#[derive(Debug, PartialEq, Eq)]
pub enum AuthReply {
    /// The request could not be delivered or timed out.
    Unreachable(String),
    /// An answer came, but not one that could be read.
    Unreadable(String),
    /// The service answered.
    Answered(LoginResponse),
}

/// Why an authentication attempt gave no verdict.
#[derive(Debug, PartialEq, Eq)]
pub enum AuthError {
    /// The service could not be reached.
    Transport(String),
    /// The answer of the service could not be read.
    Parse(String),
}

/// The user that a response asks to remember: the one it names, if it
/// accepts the credentials.
pub open spec fn user_to_remember(response: LoginResponse) -> Option<Seq<char>> {
    if response.result {
        text_of(response.usernum)
    } else {
        None
    }
}

/// The store after a response: an accepted login that names a user
/// remembers that user, every other response leaves the store as it is.
pub open spec fn response_recorded(before: StoreModel, response: LoginResponse) -> StoreModel {
    match user_to_remember(response) {
        Some(id) => before.with_user_id(Some(id)),
        None => before,
    }
}

/// The request to send for `identifier` and `secret`. Neither is inspected.
/// `remember` is a hint for the caller and leaves the request as it is.
pub fn login_request(identifier: &str, secret: &str, remember: bool) -> (r: LoginRequest)
    ensures
        r.identifier@ == identifier@,
        r.secret@ == secret@,
        r.protocol_version@ == protocol_version(),
{
    LoginRequest {
        identifier: identifier.to_owned(),
        secret: secret.to_owned(),
        protocol_version: "1.5.3".to_owned(),
    }
}

impl LoginResponse {
    /// The outcome that this response stands for.
    pub fn into_outcome(self) -> (r: AuthenticationOutcome)
        ensures
            r.success == self.result,
            r.message@ == self.msg@,
            text_of(r.user_id) == user_to_remember(self),
    {
        let user_id = if self.result {
            self.usernum
        } else {
            None
        };
        AuthenticationOutcome { success: self.result, message: self.msg, user_id }
    }
}

/// Finishes a login attempt with what came back from the remote service.
///
/// An answer of the service is a verdict, `Ok(true)` or `Ok(false)`, and a
/// rejection is no error. An accepted login that names a user remembers that
/// user; one that names none answers `Ok(true)` and leaves the store as it
/// is, and so does a rejection. A failed exchange is an error that carries
/// the reason, and the store is not touched.
pub fn login(store: &mut SessionStore, reply: AuthReply) -> (r: Result<bool, AuthError>)
    ensures
        match reply {
            AuthReply::Answered(response) => {
                &&& r == Ok::<bool, AuthError>(response.result)
                &&& final(store)@ == response_recorded(old(store)@, response)
            },
            AuthReply::Unreachable(reason) => {
                &&& r matches Err(AuthError::Transport(message)) && message@ == reason@
                &&& final(store)@ == old(store)@
            },
            AuthReply::Unreadable(reason) => {
                &&& r matches Err(AuthError::Parse(message)) && message@ == reason@
                &&& final(store)@ == old(store)@
            },
        },
{
    match reply {
        AuthReply::Answered(response) => {
            let outcome = response.into_outcome();
            match outcome.user_id {
                Some(id) => {
                    store.set_user_id(Some(id));
                },
                None => {},
            }
            Ok(outcome.success)
        },
        AuthReply::Unreachable(reason) => Err(AuthError::Transport(reason)),
        AuthReply::Unreadable(reason) => Err(AuthError::Parse(reason)),
    }
}

/// Ends the session of the authenticated user: the user id is forgotten, the
/// browser status stays.
pub fn logout(store: &mut SessionStore)
    ensures
        final(store)@ == old(store)@.with_user_id(None),
{
    store.clear_user_id();
}

/// Whether a stored credential vouches for the user at startup. None is
/// kept across restarts, so the answer is always `false`.
pub fn check_auth() -> (r: bool)
    ensures
        !r,
{
    false
}

/// After an accepted login that names a user, the store shows that user.
/// After a rejected one it shows whoever it showed before.
pub proof fn lemma_login_remembers_named_user(before: StoreModel, response: LoginResponse)
    ensures
        response.result && response.usernum is Some ==> response_recorded(before, response).user_id
            == text_of(response.usernum),
        !response.result ==> response_recorded(before, response) == before,
        response.usernum is None ==> response_recorded(before, response) == before,
        response_recorded(before, response).browser_status == before.browser_status,
        before.consistent() ==> response_recorded(before, response).consistent(),
{
}

} // verus!
