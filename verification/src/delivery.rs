//! Routing of messages to the inboxes of the users that are online.
use vstd::prelude::*;

use crate::messages::{is_utc_time_text, ChatErrors, IncomingMessage, ToProcessed};
use crate::table::KeyedTable;

verus! {

/// The users that are online, each with the inbox of messages waiting for them.
pub struct ConnectedUsers {
    inboxes: KeyedTable<Vec<IncomingMessage>>,
}

/// What became of a message that a client sent.
#[derive(Debug)]
pub enum Delivery {
    /// It was appended to the inbox of its recipient, who is online.
    Delivered,
    /// Its recipient is not online: it is handed back to be stored.
    Offline(IncomingMessage),
    /// It could not be read.
    Rejected(ChatErrors),
}

/// What delivering `m` does: the inboxes `before` become `after` and the outcome is `d`.
pub open spec fn routed(
    before: Map<Seq<char>, Vec<IncomingMessage>>,
    m: IncomingMessage,
    after: Map<Seq<char>, Vec<IncomingMessage>>,
    d: Delivery,
) -> bool {
    if before.contains_key(m.recipient()) {
        &&& d is Delivered
        &&& after.dom() == before.dom()
        &&& after[m.recipient()]@ == before[m.recipient()]@.push(m)
        &&& forall|k: Seq<char>| k != m.recipient() ==> #[trigger] after.get(k) == before.get(k)
    } else {
        &&& d == Delivery::Offline(m)
        &&& after == before
    }
}

impl View for ConnectedUsers {
    type V = Map<Seq<char>, Vec<IncomingMessage>>;

    closed spec fn view(&self) -> Map<Seq<char>, Vec<IncomingMessage>> {
        self.inboxes@
    }
}

impl ConnectedUsers {
    /// The table's invariant.
    pub closed spec fn wf(&self) -> bool {
        self.inboxes.wf()
    }

    /// A well-formed table holds finitely many keys.
    pub proof fn lemma_finite(&self)
        requires
            self.wf(),
        ensures
            self@.dom().finite(),
    {
        self.inboxes.lemma_finite();
    }

    /// No user online.
    pub fn new() -> (u: Self)
        ensures
            u.wf(),
            u@ == Map::<Seq<char>, Vec<IncomingMessage>>::empty(),
    {
        ConnectedUsers { inboxes: KeyedTable::new() }
    }

    /// Marks `user` as online; an inbox that the user already has is kept.
    pub fn connect(&mut self, user: String)
        requires
            old(self).wf(),
        ensures
            final(self).wf(),
            old(self)@.contains_key(user@) ==> final(self)@ == old(self)@,
            !old(self)@.contains_key(user@) ==> final(self)@ == old(self)@.insert(
                user@,
                final(self)@[user@],
            ) && final(self)@[user@]@.len() == 0,
    {
        if !self.inboxes.contains_key(&user) {
            self.inboxes.insert(user, Vec::new());
        }
    }

    /// Whether `user` is online.
    pub fn is_online(&self, user: &String) -> (r: bool)
        requires
            self.wf(),
        ensures
            r == self@.contains_key(user@),
    {
        self.inboxes.contains_key(user)
    }

    /// The messages waiting for `user`, if the user is online.
    pub fn inbox(&self, user: &String) -> (r: Option<&Vec<IncomingMessage>>)
        requires
            self.wf(),
        ensures
            r is Some <==> self@.contains_key(user@),
            r matches Some(v) ==> *v == self@[user@],
    {
        self.inboxes.get(user)
    }

    /// Appends `m` to the inbox of its recipient when the recipient is online;
    /// hands it back otherwise.
    pub fn deliver(&mut self, m: IncomingMessage) -> (d: Delivery)
        requires
            old(self).wf(),
        ensures
            final(self).wf(),
            routed(old(self)@, m, final(self)@, d),
    {
        let to = m.to().clone();
        if self.inboxes.contains_key(&to) {
            self.inboxes.push_to(&to, m);
            Delivery::Delivered
        } else {
            Delivery::Offline(m)
        }
    }
}

impl Delivery {
    /// The error to report to the sender, if any.
    pub fn error(&self) -> (r: Option<ChatErrors>)
        ensures
            r == (match self {
                Delivery::Rejected(e) => Some(*e),
                _ => None,
            }),
    {
        match self {
            Delivery::Rejected(e) => Some(*e),
            _ => None,
        }
    }
}

/// Handles a message that a client sent: `parsed` is the message as read from
/// the wire, or `None` where it could not be read; `current_id` is its sender.
pub fn handle_sending<T: ToProcessed>(
    connected_users: &mut ConnectedUsers,
    parsed: Option<T>,
    current_id: &String,
) -> (d: Delivery)
    requires
        old(connected_users).wf(),
    ensures
        final(connected_users).wf(),
        parsed is None ==> d == Delivery::Rejected(ChatErrors::BadFormat) && final(connected_users)@
            == old(connected_users)@,
        parsed matches Some(raw) ==> exists|m: IncomingMessage|
            #[trigger] raw.processed_as(current_id@, m) && m.sender() == current_id@
                && is_utc_time_text(m.sent_at()) && routed(
                old(connected_users)@,
                m,
                final(connected_users)@,
                d,
            ),
{
    match parsed {
        Some(val) => {
            let ghost raw = val;
            let processed = val.to_processed(current_id);
            let ghost m = processed;
            let d = connected_users.deliver(processed);
            assert(raw.processed_as(current_id@, m));
            d
        },
        None => Delivery::Rejected(ChatErrors::BadFormat),
    }
}

/// What storing a message for a user that is offline reports: nothing when the
/// recipient is a registered user, that the user does not exist otherwise.
pub fn offline_save_outcome(recipient_registered: bool) -> (r: Option<ChatErrors>)
    ensures
        recipient_registered ==> r is None,
        !recipient_registered ==> r == Some(ChatErrors::UserDontExist),
{
    if recipient_registered {
        None
    } else {
        Some(ChatErrors::UserDontExist)
    }
}

} // verus!
