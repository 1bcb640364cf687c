//! Properties of the server that span several operations.
use vstd::prelude::*;

use crate::access::{is_v4_uuid_text, issued};
use crate::decimal::{decimal, digit_char};
use crate::delivery::{routed, Delivery};
use crate::feedback::{after_frame, error_report_text, FrameKind, ReciverFeedback};
use crate::json::{json_escape, json_unescape, lemma_json_escape_round_trip, quoted};
use crate::messages::IncomingMessage;
use crate::session::{
    accepted_window, hs256_verify, session_check, signed_for, token_still_valid_spec, LATEST_CHECK_TIME,
    SESSION_LIFETIME_TICKS, TICKS_PER_SECOND, TIME_TOLERANCE_TICKS,
};

verus! {

/// Once a session is issued for a user token, the token's session is found:
/// checking it no longer reports that no session exists.
pub proof fn lemma_issued_session_is_found(
    before: Map<Seq<char>, (Vec<u8>, String)>,
    after: Map<Seq<char>, (Vec<u8>, String)>,
    user_token: Seq<char>,
    user_id: Seq<char>,
)
    requires
        issued(before, after, user_token, user_id),
    ensures
        after.contains_key(user_token),
        after[user_token].1@ == user_id,
{
}

/// Issuing a session for one user token leaves the sessions of all other user
/// tokens as they were.
pub proof fn lemma_issued_session_keeps_others(
    before: Map<Seq<char>, (Vec<u8>, String)>,
    after: Map<Seq<char>, (Vec<u8>, String)>,
    user_token: Seq<char>,
    user_id: Seq<char>,
    other: Seq<char>,
)
    requires
        issued(before, after, user_token, user_id),
        other != user_token,
    ensures
        after.get(other) == before.get(other),
{
}

/// The whole second at which a session token signed with `key` was issued.
pub open spec fn session_issue_time(key: Seq<u8>, token: Seq<char>) -> u64 {
    choose|issued: u64|
        issued % TICKS_PER_SECOND == 0 && issued + SESSION_LIFETIME_TICKS <= u64::MAX
            && #[trigger] accepted_window(key, token, issued, SESSION_LIFETIME_TICKS)
}

/// A session token issued for a user token is accepted by the session check from its
/// issue second (less the tolerance) until one second after it, and refused after.
pub proof fn lemma_session_accepted_until_expiry(
    sessions: Map<Seq<char>, (Vec<u8>, String)>,
    user_token: Seq<char>,
    jwt: Seq<char>,
    now: u64,
)
    requires
        sessions.contains_key(user_token),
        signed_for(sessions[user_token].0@, jwt, SESSION_LIFETIME_TICKS),
        TIME_TOLERANCE_TICKS <= now <= LATEST_CHECK_TIME,
    ensures
        ({
            let issued = session_issue_time(sessions[user_token].0@, jwt);
            &&& issued % TICKS_PER_SECOND == 0
            &&& session_check(sessions, user_token, jwt, now) == Some(
                issued <= now + TIME_TOLERANCE_TICKS && now <= issued + SESSION_LIFETIME_TICKS,
            )
        }),
{
    let key = sessions[user_token].0@;
    let issued = session_issue_time(key, jwt);
    assert(accepted_window(key, jwt, issued, SESSION_LIFETIME_TICKS));
    let verified = hs256_verify(key, jwt, now);
}

/// Two messages delivered one after the other to the same online user stand at
/// the end of that user's inbox in the order they were sent.
pub proof fn lemma_deliveries_keep_order(
    a: Map<Seq<char>, Vec<IncomingMessage>>,
    m1: IncomingMessage,
    b: Map<Seq<char>, Vec<IncomingMessage>>,
    d1: Delivery,
    m2: IncomingMessage,
    c: Map<Seq<char>, Vec<IncomingMessage>>,
    d2: Delivery,
)
    requires
        routed(a, m1, b, d1),
        routed(b, m2, c, d2),
        m1.recipient() == m2.recipient(),
        a.contains_key(m1.recipient()),
    ensures
        c[m1.recipient()]@ == a[m1.recipient()]@ + seq![m1, m2],
        d1 is Delivered,
        d2 is Delivered,
{
    assert(b.contains_key(m1.recipient()));
    assert(c[m1.recipient()]@ =~= a[m1.recipient()]@ + seq![m1, m2]);
}

/// Delivering a message never changes which users are online.
pub proof fn lemma_delivery_keeps_users_online(
    a: Map<Seq<char>, Vec<IncomingMessage>>,
    m: IncomingMessage,
    b: Map<Seq<char>, Vec<IncomingMessage>>,
    d: Delivery,
)
    requires
        routed(a, m, b, d),
    ensures
        b.dom() == a.dom(),
{
}

/// A connection that is closed stays closed, whatever frame comes next.
pub proof fn lemma_closed_stays_closed(state: ReciverFeedback, frame: FrameKind)
    requires
        state.closed,
    ensures
        after_frame(state, frame).closed,
        after_frame(state, frame).error == state.error,
{
}

/// Only a close frame changes what the reading side tells the writing side: any
/// other frame leaves the shared state, its error in particular, as it was.
pub proof fn lemma_only_close_changes_feedback(state: ReciverFeedback, frame: FrameKind)
    requires
        frame != FrameKind::Close,
    ensures
        after_frame(state, frame) == state,
        after_frame(state, frame).error == state.error,
        after_frame(state, frame).closed == state.closed,
{
}

/// A close frame marks the connection closed and keeps the error to report.
pub proof fn lemma_close_keeps_error(state: ReciverFeedback)
    ensures
        after_frame(state, FrameKind::Close).closed,
        after_frame(state, FrameKind::Close).error == state.error,
{
}

/// After a close frame, the writing side stops: the state it reads is closed.
pub proof fn lemma_close_frame_stops_sender(state: ReciverFeedback)
    ensures
        after_frame(state, FrameKind::Close).closed,
{
}

/// A token valid at some time was valid at every earlier time.
pub proof fn lemma_token_validity_monotone(verified: Option<Option<u64>>, earlier: u64, later: u64)
    requires
        earlier <= later,
        token_still_valid_spec(verified, later),
    ensures
        token_still_valid_spec(verified, earlier),
{
}

/// A user token handed out at registration is never empty, so a registered user
/// that comes back with it is looked up rather than registered again.
pub proof fn lemma_registered_token_not_empty(token: Seq<char>)
    requires
        is_v4_uuid_text(token),
    ensures
        token.len() != 0,
{
}

/// The error report for any kind, whatever characters it holds, is the object
/// `{"kind":` and a string literal whose inside reads back as the kind, then `}`.
pub proof fn lemma_error_report_reads_back(kind: Seq<char>)
    ensures
        error_report_text(kind) == seq!['{', '"', 'k', 'i', 'n', 'd', '"', ':'] + quoted(
            json_escape(kind),
        ) + seq!['}'],
        json_unescape(json_escape(kind)) == Some(kind),
{
    lemma_json_escape_round_trip(kind);
}

/// The decimal text of a number has one digit below ten and more above.
pub proof fn lemma_decimal_len(n: nat)
    ensures
        decimal(n).len() >= 1,
        n >= 10 ==> decimal(n).len() >= 2,
    decreases n,
{
    if n >= 10 {
        lemma_decimal_len(n / 10);
    }
}

/// Distinct user ids have distinct decimal texts.
pub proof fn lemma_decimal_injective(a: nat, b: nat)
    requires
        decimal(a) == decimal(b),
    ensures
        a == b,
    decreases a,
{
    lemma_decimal_len(a);
    lemma_decimal_len(b);
    if a < 10 && b < 10 {
        assert(decimal(a)[0] == digit_char(a));
        assert(decimal(b)[0] == digit_char(b));
    } else if a >= 10 && b >= 10 {
        let sa = decimal(a / 10);
        let sb = decimal(b / 10);
        assert(decimal(a).drop_last() =~= sa);
        assert(decimal(b).drop_last() =~= sb);
        lemma_decimal_injective(a / 10, b / 10);
        assert(decimal(a).last() == digit_char(a % 10));
        assert(decimal(b).last() == digit_char(b % 10));
    }
}

} // verus!
