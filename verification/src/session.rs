//! Session tokens: a signed, short-lived JWT per user token, checked against
//! the key that signed it.
use vstd::prelude::*;

use jwt_simple::prelude::MACLike;

use crate::table::KeyedTable;

verus! {

/// How long a session token stays valid, in milliseconds.
pub const SESSION_VALIDITY_MILLIS: u64 = 1000;

/// The length in bytes of the keys that jwt_simple generates for HS256.
pub const SESSION_KEY_LEN: usize = 32;

/// jwt_simple's error type (anyhow's), carried through only.
#[verifier::external_type_specification]
#[verifier::external_body]
pub struct ExJwtError(jwt_simple::Error);

/// A fresh random HS256 key, as its bytes.
///
/// Trusted: calls `HS256Key::generate()` and converts the key with `to_bytes()`.
/// jwt_simple fills a 32-byte vector from `rand::thread_rng()`; the contract claims
/// that length. The bytes themselves are chance and left unsaid.
#[verifier::external_body]
fn generate_key() -> (key: Vec<u8>)
    ensures
        key@.len() == SESSION_KEY_LEN,
{
    jwt_simple::prelude::HS256Key::generate().to_bytes()
}

/// One second in coarsetime ticks (coarsetime keeps 32 bits of fraction).
pub const TICKS_PER_SECOND: u64 = 0x1_0000_0000;

/// How long a session token lasts, in coarsetime ticks: jwt_simple writes the issue
/// and expiry times in whole seconds, and `SESSION_VALIDITY_MILLIS` is one second.
pub const SESSION_LIFETIME_TICKS: u64 = 0x1_0000_0000;

/// The clock tolerance jwt_simple grants by default (900 seconds), in ticks.
pub const TIME_TOLERANCE_TICKS: u64 = 3865470566400;

/// The latest time at which a token can be checked: jwt_simple adds the tolerance
/// to the time as plain `u64` ticks.
pub const LATEST_CHECK_TIME: u64 = 18446740208238985215;

/// What jwt_simple's `verify_token::<NoCustomClaims>` gives for `token` under the
/// HS256 key with bytes `key`, with the default options and the time `now` (ticks
/// since the epoch) in place of the clock: `None` where it refuses the token, and
/// otherwise the expiry that the token's claims hold, in ticks.
pub uninterp spec fn hs256_verify(key: Seq<u8>, token: Seq<char>, now: u64) -> Option<Option<u64>>;

/// Whether the token is accepted under `key` exactly at the times from `issued`
/// (less the tolerance) to `issued + lifetime` (plus the tolerance), with the expiry
/// `issued + lifetime`.
pub open spec fn accepted_window(key: Seq<u8>, token: Seq<char>, issued: u64, lifetime: u64) -> bool {
    forall|now: u64|
        now <= LATEST_CHECK_TIME ==> #[trigger] hs256_verify(key, token, now) == (if issued <= now
            + TIME_TOLERANCE_TICKS && TIME_TOLERANCE_TICKS <= now && now - TIME_TOLERANCE_TICKS
            <= issued + lifetime {
            Some(Some((issued + lifetime) as u64))
        } else {
            None
        })
}

/// Whether `token` was signed with `key` at some whole second, to last `lifetime`.
pub open spec fn signed_for(key: Seq<u8>, token: Seq<char>, lifetime: u64) -> bool {
    exists|issued: u64|
        issued % TICKS_PER_SECOND == 0 && issued + lifetime <= u64::MAX && #[trigger] accepted_window(
            key,
            token,
            issued,
            lifetime,
        )
}

/// Signs claims valid from now for `valid_for_millis` with the HS256 key whose bytes
/// are `key`.
///
/// Trusted: calls `authenticate` on `HS256Key::from_bytes(key)` with the claims of
/// `Claims::create(Duration::from_millis(valid_for_millis))`. jwt_simple refuses keys
/// shorter than 12 bytes (`JWTError::WeakKey`) and otherwise builds the token from the
/// JSON of the header and of the claims (which cannot fail), their base64 (which fails
/// only where a length overflows `usize`) and an HMAC-SHA256 tag; the contract claims
/// that it fails exactly on short keys. `Claims::create` sets the issue, not-before and
/// expiry times to the clock reading and the reading plus the lifetime; they are
/// written as whole seconds and read back as such. So for a lifetime of whole seconds,
/// `verify_token` with the time `now` accepts the token, with the expiry issue time
/// plus lifetime, exactly where the issue time is at most `now` plus the tolerance and
/// `now` less the tolerance is at most the expiry (the default options check nothing
/// else that such a token could fail); the contract claims that, for some issue time
/// of whole seconds. Which second that is, is the clock's and left unsaid. The lifetime
/// is bounded because coarsetime adds it to the clock reading as plain `u64`.
#[verifier::external_body]
fn sign_session_token(key: &Vec<u8>, valid_for_millis: u64) -> (r: Result<String, jwt_simple::Error>)
    requires
        valid_for_millis <= SESSION_VALIDITY_MILLIS,
    ensures
        r is Err <==> key@.len() < 12,
        r is Ok && valid_for_millis % 1000 == 0 ==> signed_for(
            key@,
            r->Ok_0@,
            ((valid_for_millis / 1000) * TICKS_PER_SECOND) as u64,
        ),
{
    let claims = jwt_simple::prelude::Claims::create(
        jwt_simple::prelude::Duration::from_millis(valid_for_millis),
    );
    jwt_simple::prelude::HS256Key::from_bytes(key).authenticate(claims)
}

/// Checks `token` against the HS256 key whose bytes are `key` at the time `now`; on
/// success, gives the expiry that the token holds, in ticks.
///
/// Trusted: calls `verify_token::<NoCustomClaims>` on `HS256Key::from_bytes(key)`
/// with the default options but `artificial_time` set to `now`, and converts
/// `expires_at` with `as_u64()`; a refusal becomes `None`. The result is the name
/// `hs256_verify`; jwt_simple refuses keys shorter than 12 bytes, which the contract
/// also claims. `now` is bounded because jwt_simple adds the tolerance to it.
#[verifier::external_body]
fn verify_token_at(key: &Vec<u8>, token: &String, now: u64) -> (r: Option<Option<u64>>)
    requires
        now <= LATEST_CHECK_TIME,
    ensures
        r == hs256_verify(key@, token@, now),
        key@.len() < 12 ==> r is None,
{
    let options = jwt_simple::prelude::VerificationOptions {
        artificial_time: Some(jwt_simple::prelude::Duration::from_u64(now)),
        ..Default::default()
    };
    match jwt_simple::prelude::HS256Key::from_bytes(key).verify_token::<
        jwt_simple::prelude::NoCustomClaims,
    >(token, Some(options)) {
        Ok(claims) => Some(claims.expires_at.map(|t| t.as_u64())),
        Err(_) => None,
    }
}

/// The current time since the UNIX epoch, in coarsetime ticks.
///
/// Trusted: calls `Clock::now_since_epoch()` and converts it with `as_u64()`. The
/// time is the machine's: nothing is claimed of it. coarsetime panics if the system
/// clock stands before 1970.
#[verifier::external_body]
fn now_since_epoch() -> (t: u64) {
    jwt_simple::prelude::Clock::now_since_epoch().as_u64()
}

/// Whether a token is still valid: `verified` is `None` where its signature or its
/// times were refused, and otherwise the expiry it holds; `now` is the current time.
pub open spec fn token_still_valid_spec(verified: Option<Option<u64>>, now: u64) -> bool {
    match verified {
        Some(Some(expires_at)) => !(expires_at < now),
        _ => false,
    }
}

/// Whether a token is still valid (see `token_still_valid_spec`). A verified token
/// without an expiry is taken as invalid.
pub fn token_still_valid(verified: Option<Option<u64>>, now: u64) -> (r: bool)
    ensures
        r == token_still_valid_spec(verified, now),
{
    match verified {
        Some(Some(expires_at)) => {
            let is_expired = expires_at < now;
            !is_expired
        },
        _ => false,
    }
}

/// The sessions that were issued: each user token with the key that signed its
/// session token and the id of its user.
pub struct SessionTable {
    sessions: KeyedTable<(Vec<u8>, String)>,
}

impl View for SessionTable {
    type V = Map<Seq<char>, (Vec<u8>, String)>;

    closed spec fn view(&self) -> Map<Seq<char>, (Vec<u8>, String)> {
        self.sessions@
    }
}

impl SessionTable {
    /// The table's invariant.
    pub closed spec fn wf(&self) -> bool {
        self.sessions.wf()
    }

    /// A well-formed table holds finitely many keys.
    pub proof fn lemma_finite(&self)
        requires
            self.wf(),
        ensures
            self@.dom().finite(),
    {
        self.sessions.lemma_finite();
    }

    /// No session issued yet.
    pub fn new() -> (t: Self)
        ensures
            t.wf(),
            t@ == Map::<Seq<char>, (Vec<u8>, String)>::empty(),
    {
        SessionTable { sessions: KeyedTable::new() }
    }

    /// Records the outcome of signing a session token for `user_token` with `key`:
    /// where `signed` holds a token, the key and the user id are recorded under the
    /// user token and the token is returned; otherwise nothing changes.
    pub fn record_session(
        &mut self,
        user_token: &String,
        user_id: String,
        key: Vec<u8>,
        signed: Option<String>,
    ) -> (r: Option<String>)
        requires
            old(self).wf(),
        ensures
            final(self).wf(),
            r == signed,
            signed is Some ==> final(self)@ == old(self)@.insert(user_token@, (key, user_id)),
            signed is None ==> final(self)@ == old(self)@,
    {
        match signed {
            Some(token) => {
                self.sessions.insert(user_token.clone(), (key, user_id));
                Some(token)
            },
            None => None,
        }
    }

    /// Issues a session for `user_token`, whose user has the id `user_id`: signs a
    /// token valid for `SESSION_VALIDITY_MILLIS` with a fresh 32-byte key, records the
    /// key and the user id under the user token, and returns the token. Signing with
    /// such a key always succeeds.
    pub fn add_valid_connection(&mut self, user_token: &String, user_id: String) -> (r: Option<
        String,
    >)
        requires
            old(self).wf(),
        ensures
            final(self).wf(),
            r is Some,
            final(self)@ == old(self)@.insert(user_token@, final(self)@[user_token@]),
            final(self)@[user_token@].0@.len() == SESSION_KEY_LEN,
            final(self)@[user_token@].1 == user_id,
            signed_for(final(self)@[user_token@].0@, r->0@, SESSION_LIFETIME_TICKS),
    {
        let key = generate_key();
        let signed = match sign_session_token(&key, SESSION_VALIDITY_MILLIS) {
            Ok(token) => Some(token),
            Err(_) => None,
        };
        assert((SESSION_VALIDITY_MILLIS / 1000) * TICKS_PER_SECOND == SESSION_LIFETIME_TICKS);
        self.record_session(user_token, user_id, key, signed)
    }

    /// Checks the session token `jwt` of `user_token` at the time `now` (coarsetime
    /// ticks since the epoch): `None` where no session was issued for `user_token`;
    /// otherwise whether jwt_simple accepts `jwt` under the recorded key at that time
    /// and its expiry has not passed.
    pub fn is_valid_connection_at(&self, user_token: &String, jwt: &String, now: u64) -> (r: Option<
        bool,
    >)
        requires
            self.wf(),
            now <= LATEST_CHECK_TIME,
        ensures
            r == session_check(self@, user_token@, jwt@, now),
    {
        match self.sessions.get(user_token) {
            Some(entry) => {
                let verified = verify_token_at(&entry.0, jwt, now);
                Some(token_still_valid(verified, now))
            },
            None => None,
        }
    }

    /// Checks the session token `jwt` of `user_token` now: the check at the clock's
    /// reading (see `clock_check`).
    pub fn is_valid_connection(&self, user_token: &String, jwt: &String) -> (r: Option<bool>)
        requires
            self.wf(),
        ensures
            exists|now: u64| #[trigger] clock_check(self@, user_token@, jwt@, now) == r,
            r is None <==> !self@.contains_key(user_token@),
    {
        let now = now_since_epoch();
        if now <= LATEST_CHECK_TIME {
            let r = self.is_valid_connection_at(user_token, jwt, now);
            assert(clock_check(self@, user_token@, jwt@, now) == r);
            r
        } else {
            let r = if self.sessions.contains_key(user_token) {
                Some(false)
            } else {
                None
            };
            assert(clock_check(self@, user_token@, jwt@, now) == r);
            r
        }
    }
}

/// What checking the session token `jwt` of `user_token` at `now` answers: `None`
/// where no session was issued for `user_token`, and otherwise whether the token is
/// accepted under the recorded key at `now` and not past its expiry.
pub open spec fn session_check(
    sessions: Map<Seq<char>, (Vec<u8>, String)>,
    user_token: Seq<char>,
    jwt: Seq<char>,
    now: u64,
) -> Option<bool> {
    if sessions.contains_key(user_token) {
        Some(token_still_valid_spec(hs256_verify(sessions[user_token].0@, jwt, now), now))
    } else {
        None
    }
}

/// The check at a clock reading `now`: `session_check`, and past the latest time a
/// token can be checked (in the year 2106), a refusal.
pub open spec fn clock_check(
    sessions: Map<Seq<char>, (Vec<u8>, String)>,
    user_token: Seq<char>,
    jwt: Seq<char>,
    now: u64,
) -> Option<bool> {
    if now <= LATEST_CHECK_TIME {
        session_check(sessions, user_token, jwt, now)
    } else if sessions.contains_key(user_token) {
        Some(false)
    } else {
        None
    }
}

} // verus!
