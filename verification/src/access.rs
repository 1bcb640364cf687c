//! Admission of clients: the password check, the registration of new users and
//! the sessions issued to registered ones. The database work between these steps
//! is done by the caller, which hands back what it found.
use vstd::prelude::*;

use crate::decimal::{decimal, decimal_text};
use crate::session::{signed_for, SessionTable, SESSION_KEY_LEN, SESSION_LIFETIME_TICKS};

verus! {

/// What a client sends to connect.
#[derive(Debug)]
pub struct ConnectionAttempt {
    pub password: String,
    pub user: String,
    pub token: String,
}

/// The answer to a client that connected: its user token and its session token.
#[derive(Debug)]
pub struct NewUserResgistered {
    pub token: String,
    pub session_token: String,
}

/// The server's admission settings.
#[derive(Debug)]
pub struct ServerPolicy {
    /// Clients must give the server password.
    pub require_password: bool,
    /// A client without a token is registered as a new user.
    pub can_generate_new_tokens: bool,
    /// The server password.
    pub password: String,
}

impl ServerPolicy {
    /// The settings the server runs with: a password is required and it is empty,
    /// and new users are registered.
    pub fn current() -> (p: Self)
        ensures
            p.require_password,
            p.can_generate_new_tokens,
            p.password@ == Seq::<char>::empty(),
    {
        ServerPolicy { require_password: true, can_generate_new_tokens: true, password: String::new() }
    }
}

/// Why a client was refused.
#[derive(Debug, Clone, Copy, PartialEq, Eq, Structural)]
pub enum ConnectError {
    /// The password does not match the server's.
    WrongPassword,
    /// The new user could not be stored.
    InsertFailed,
    /// The new user was stored but could not be found again.
    NewUserNotFound,
    /// No user has the token that the client gave.
    UserNotInServer,
    /// No session token could be signed.
    SessionNotIssued,
}

/// The text of each refusal.
pub open spec fn connect_error_text(e: ConnectError) -> Seq<char> {
    match e {
        ConnectError::WrongPassword => "Wrong password"@,
        ConnectError::InsertFailed => "Error inserting new user the db"@,
        ConnectError::NewUserNotFound => "Weird unreacheble error?"@,
        ConnectError::UserNotInServer => "User not In the Server"@,
        ConnectError::SessionNotIssued => "Could not sign a session token"@,
    }
}

impl ConnectError {
    /// The text sent to the client.
    pub fn message(&self) -> (r: &'static str)
        ensures
            r@ == connect_error_text(*self),
    {
        match self {
            ConnectError::WrongPassword => "Wrong password",
            ConnectError::InsertFailed => "Error inserting new user the db",
            ConnectError::NewUserNotFound => "Weird unreacheble error?",
            ConnectError::UserNotInServer => "User not In the Server",
            ConnectError::SessionNotIssued => "Could not sign a session token",
        }
    }
}

/// How many connections a new user starts with.
pub const INITIAL_CONNECTIONS_LEFT: i64 = 20;

/// The text a registered user gets in place of its token.
pub open spec fn established_text() -> Seq<char> {
    "Connection stablished"@
}

/// Whether `c` is a lowercase hexadecimal digit.
pub open spec fn is_lower_hex(c: char) -> bool {
    ('0' <= c && c <= '9') || ('a' <= c && c <= 'f')
}

/// Whether `t` is the hyphenated text of a version-4 UUID.
pub open spec fn is_v4_uuid_text(t: Seq<char>) -> bool {
    &&& t.len() == 36
    &&& t[8] == '-' && t[13] == '-' && t[18] == '-' && t[23] == '-'
    &&& t[14] == '4'
    &&& forall|i: int|
        0 <= i < 36 && i != 8 && i != 13 && i != 18 && i != 23 ==> is_lower_hex(#[trigger] t[i])
}

/// A fresh random user token.
///
/// Trusted: calls `Uuid::new_v4()` and renders it with `to_string()`. uuid writes the
/// hyphenated lowercase form (36 characters, hyphens at 8, 13, 18 and 23, the version
/// digit 4 at 14); the contract claims that form. The random bits are left unsaid.
/// uuid panics where the system gives no random bytes.
#[verifier::external_body]
fn new_user_token() -> (t: String)
    ensures
        is_v4_uuid_text(t@),
{
    uuid::Uuid::new_v4().to_string()
}

/// What to do with a connection attempt.
#[derive(Debug)]
pub enum ConnectPlan {
    /// Refuse it.
    Reject(ConnectError),
    /// Store a new user with this token and these connections, then look its id up.
    Register { token: String, connections_left: i64 },
    /// Look up the id of the user with this token.
    Resume { token: String },
}

/// The first step of admission. A wrong password is refused; a client without a
/// token is registered under a fresh token where the server registers new users;
/// any other client is looked up by its token.
pub fn plan_connection(attempt: &ConnectionAttempt, policy: &ServerPolicy) -> (p: ConnectPlan)
    ensures
        policy.require_password && attempt.password@ != policy.password@ ==> p == ConnectPlan::Reject(
            ConnectError::WrongPassword,
        ),
        !(policy.require_password && attempt.password@ != policy.password@) && attempt.token@.len()
            == 0 && policy.can_generate_new_tokens ==> (p matches ConnectPlan::Register {
            token,
            connections_left,
        } && is_v4_uuid_text(token@) && connections_left == INITIAL_CONNECTIONS_LEFT),
        !(policy.require_password && attempt.password@ != policy.password@) && !(attempt.token@.len()
            == 0 && policy.can_generate_new_tokens) ==> (p matches ConnectPlan::Resume { token }
            && token@ == attempt.token@),
{
    if policy.require_password {
        if attempt.password != policy.password {
            return ConnectPlan::Reject(ConnectError::WrongPassword);
        }
    }
    if attempt.token.as_str().is_empty() && policy.can_generate_new_tokens {
        let token = new_user_token();
        return ConnectPlan::Register { token, connections_left: INITIAL_CONNECTIONS_LEFT };
    }
    ConnectPlan::Resume { token: attempt.token.clone() }
}

/// The last step of registering a new user under `token`: `inserted` tells whether
/// the user was stored, `user_id` the id found for `token` afterwards. The answer
/// carries the token and a session token issued for it.
pub fn registration_outcome(
    sessions: &mut SessionTable,
    token: String,
    inserted: bool,
    user_id: Option<usize>,
) -> (r: Result<NewUserResgistered, ConnectError>)
    requires
        old(sessions).wf(),
    ensures
        final(sessions).wf(),
        !inserted ==> r == Err::<NewUserResgistered, ConnectError>(ConnectError::InsertFailed),
        inserted && user_id is None ==> r == Err::<NewUserResgistered, ConnectError>(
            ConnectError::NewUserNotFound,
        ),
        r is Err ==> final(sessions)@ == old(sessions)@,
        inserted && user_id is Some ==> r is Ok,
        r matches Ok(reply) ==> inserted && user_id is Some && reply.token@ == token@ && issued(
            old(sessions)@,
            final(sessions)@,
            token@,
            decimal(user_id->0 as nat),
        ),
        r matches Ok(reply) ==> signed_for(
            final(sessions)@[token@].0@,
            reply.session_token@,
            SESSION_LIFETIME_TICKS,
        ),
{
    if !inserted {
        return Err(ConnectError::InsertFailed);
    }
    match user_id {
        Some(id) => {
            match sessions.add_valid_connection(&token, decimal_text(id)) {
                Some(session_token) => Ok(NewUserResgistered { token, session_token }),
                None => Err(ConnectError::SessionNotIssued),
            }
        },
        None => Err(ConnectError::NewUserNotFound),
    }
}

/// The last step of admitting a registered user with token `token`: `user_id` is
/// the id found for the token. The answer says the connection is established and
/// carries a session token issued for the user token.
pub fn login_outcome(sessions: &mut SessionTable, token: &String, user_id: Option<usize>) -> (r:
    Result<NewUserResgistered, ConnectError>)
    requires
        old(sessions).wf(),
    ensures
        final(sessions).wf(),
        user_id is None ==> r == Err::<NewUserResgistered, ConnectError>(
            ConnectError::UserNotInServer,
        ),
        user_id is Some ==> r is Ok,
        r is Err ==> final(sessions)@ == old(sessions)@,
        r matches Ok(reply) ==> user_id is Some && reply.token@ == established_text() && issued(
            old(sessions)@,
            final(sessions)@,
            token@,
            decimal(user_id->0 as nat),
        ),
        r matches Ok(reply) ==> signed_for(
            final(sessions)@[token@].0@,
            reply.session_token@,
            SESSION_LIFETIME_TICKS,
        ),
{
    match user_id {
        Some(id) => {
            match sessions.add_valid_connection(token, decimal_text(id)) {
                Some(session_token) => {
                    let text = "Connection stablished";
                    Ok(NewUserResgistered { token: text.to_owned(), session_token })
                },
                None => Err(ConnectError::SessionNotIssued),
            }
        },
        None => Err(ConnectError::UserNotInServer),
    }
}

/// Whether the sessions `after` are `before` with a session for `user_token`, of a
/// fresh key, for the user with id text `user_id`.
pub open spec fn issued(
    before: Map<Seq<char>, (Vec<u8>, String)>,
    after: Map<Seq<char>, (Vec<u8>, String)>,
    user_token: Seq<char>,
    user_id: Seq<char>,
) -> bool {
    &&& after == before.insert(user_token, after[user_token])
    &&& after[user_token].0@.len() == SESSION_KEY_LEN
    &&& after[user_token].1@ == user_id
}

} // verus!
