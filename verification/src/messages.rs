//! Chat messages as clients send them and as the server hands them on.
use vstd::prelude::*;

verus! {

/// A text message as a client sends it: what to say and to whom.
#[derive(Debug)]
pub struct TextMessageRecivedRaw {
    pub payload: String,
    pub destination: String,
}

/// A binary message as a client sends it.
#[derive(Debug)]
pub struct BLOBMessageRecivedRaw {
    pub payload: Vec<u8>,
    pub destination: String,
}

/// What the server answers when a client message cannot be read.
#[derive(Debug)]
pub struct MessageRecivedRawError {
    pub error: String,
}

/// A text message once the server knows its sender and when it arrived.
#[derive(Debug)]
pub struct TextMessageRecivedProcessed {
    pub payload: String,
    pub from: String,
    pub time_sent: String,
    pub to: String,
}

/// A binary message once the server knows its sender and when it arrived.
#[derive(Debug)]
pub struct BLOBMessageRecivedProcessed {
    pub payload: Vec<u8>,
    pub from: String,
    pub time_sent: String,
    pub to: String,
}

/// A processed message of either kind.
#[derive(Debug)]
pub enum IncomingMessage {
    Text(TextMessageRecivedProcessed),
    Binary(BLOBMessageRecivedProcessed),
}

/// The errors that a sender is told about.
#[derive(Debug, Clone, Copy, PartialEq, Eq, Structural)]
pub enum ChatErrors {
    UserDontExist,
    BadFormat,
}

impl IncomingMessage {
    /// The user the message is addressed to.
    pub open spec fn recipient(self) -> Seq<char> {
        match self {
            IncomingMessage::Text(m) => m.to@,
            IncomingMessage::Binary(m) => m.to@,
        }
    }

    /// The user who sent the message.
    pub open spec fn sender(self) -> Seq<char> {
        match self {
            IncomingMessage::Text(m) => m.from@,
            IncomingMessage::Binary(m) => m.from@,
        }
    }

    /// When the server received the message, as text.
    pub open spec fn sent_at(self) -> Seq<char> {
        match self {
            IncomingMessage::Text(m) => m.time_sent@,
            IncomingMessage::Binary(m) => m.time_sent@,
        }
    }

    /// The user the message is addressed to.
    pub fn to(&self) -> (r: &String)
        ensures
            r@ == self.recipient(),
    {
        match self {
            IncomingMessage::Text(v) => &v.to,
            IncomingMessage::Binary(v) => &v.to,
        }
    }
}

/// Whether `c` is a decimal digit.
pub open spec fn is_digit(c: char) -> bool {
    '0' <= c && c <= '9'
}

/// Whether every character of `s` is a decimal digit.
pub open spec fn all_digits(s: Seq<char>) -> bool {
    forall|i: int| 0 <= i < s.len() ==> is_digit(#[trigger] s[i])
}

/// Whether `s` is a date as chrono writes it: a year of at least four digits (with a
/// `+` in front past 9999), a hyphen, two digits of month, a hyphen, two of day.
pub open spec fn is_date_text(s: Seq<char>) -> bool {
    let n = s.len() as int;
    let year = s.subrange(0, n - 6);
    &&& n >= 10
    &&& s[n - 6] == '-' && s[n - 3] == '-'
    &&& is_digit(s[n - 5]) && is_digit(s[n - 4]) && is_digit(s[n - 2]) && is_digit(s[n - 1])
    &&& ((year.len() >= 4 && all_digits(year)) || (year.len() >= 5 && year[0] == '+' && all_digits(
        year.drop_first(),
    )))
}

/// Whether `s` is a time of day as chrono writes it: `HH:MM:SS`.
pub open spec fn is_clock_text(s: Seq<char>) -> bool {
    &&& s.len() == 8
    &&& s[2] == ':' && s[5] == ':'
    &&& is_digit(s[0]) && is_digit(s[1]) && is_digit(s[3]) && is_digit(s[4])
    &&& is_digit(s[6]) && is_digit(s[7])
}

/// Whether `s` is a fraction of a second as chrono writes it: nothing, or a point
/// and three, six or nine digits.
pub open spec fn is_fraction_text(s: Seq<char>) -> bool {
    s.len() == 0 || ((s.len() == 4 || s.len() == 7 || s.len() == 10) && s[0] == '.' && all_digits(
        s.drop_first(),
    ))
}

/// Whether `t` is a UTC time as chrono writes it with a fraction of `f` characters:
/// date, a space, `HH:MM:SS`, the fraction, and ` UTC`.
pub open spec fn is_utc_time_text_with(t: Seq<char>, f: int) -> bool {
    let n = t.len() as int;
    &&& n >= 23 + f
    &&& t.subrange(n - 4, n) == seq![' ', 'U', 'T', 'C']
    &&& is_fraction_text(t.subrange(n - 4 - f, n - 4))
    &&& is_clock_text(t.subrange(n - 12 - f, n - 4 - f))
    &&& t[n - 13 - f] == ' '
    &&& is_date_text(t.subrange(0, n - 13 - f))
}

/// Whether `t` is a UTC time as chrono writes it, `YYYY-MM-DD HH:MM:SS[.fff] UTC`.
pub open spec fn is_utc_time_text(t: Seq<char>) -> bool {
    ||| is_utc_time_text_with(t, 0)
    ||| is_utc_time_text_with(t, 4)
    ||| is_utc_time_text_with(t, 7)
    ||| is_utc_time_text_with(t, 10)
}

/// The current time as text.
///
/// Trusted: calls `chrono::Utc::now()` and renders it with `to_string()`.
/// chrono's `Display` for `DateTime<Utc>` writes the date (`NaiveDate`'s `Debug`:
/// the year as four digits in 0..=9999 and as `{:+05}` past it, then `-MM-DD`), a
/// space, the time (`NaiveTime`'s `Debug`: `HH:MM:SS`, then no fraction, or a point
/// and 3, 6 or 9 digits), a space and "UTC"; the contract claims that form. Which
/// time it is, is the machine's and is left unsaid. `Utc::now` panics if the system
/// clock stands before 1970.
#[verifier::external_body]
fn current_utc_text() -> (t: String)
    ensures
        is_utc_time_text(t@),
{
    chrono::Utc::now().to_string()
}

/// A raw message that the server can stamp with its sender and a time.
pub trait ToProcessed: Sized {
    /// Whether `m` is this message, sent by `from`, whatever its time stamp.
    spec fn processed_as(self, from: Seq<char>, m: IncomingMessage) -> bool;

    /// This message as sent by `from` at `time_sent`.
    fn processed_at(self, from: &String, time_sent: String) -> (m: IncomingMessage)
        ensures
            self.processed_as(from@, m),
            m.sender() == from@,
            m.sent_at() == time_sent@,
    ;

    /// This message as sent by `from` now.
    fn to_processed(self, from: &String) -> (m: IncomingMessage)
        ensures
            self.processed_as(from@, m),
            m.sender() == from@,
            is_utc_time_text(m.sent_at()),
    ;
}

impl ToProcessed for TextMessageRecivedRaw {
    open spec fn processed_as(self, from: Seq<char>, m: IncomingMessage) -> bool {
        &&& m is Text
        &&& m->Text_0.payload@ == self.payload@
        &&& m->Text_0.from@ == from
        &&& m->Text_0.to@ == self.destination@
    }

    fn processed_at(self, from: &String, time_sent: String) -> (m: IncomingMessage) {
        let from = from.clone();
        IncomingMessage::Text(
            TextMessageRecivedProcessed {
                payload: self.payload,
                from,
                time_sent,
                to: self.destination,
            },
        )
    }

    fn to_processed(self, from: &String) -> (m: IncomingMessage) {
        let time_sent = current_utc_text();
        self.processed_at(from, time_sent)
    }
}

impl ToProcessed for BLOBMessageRecivedRaw {
    open spec fn processed_as(self, from: Seq<char>, m: IncomingMessage) -> bool {
        &&& m is Binary
        &&& m->Binary_0.payload@ == self.payload@
        &&& m->Binary_0.from@ == from
        &&& m->Binary_0.to@ == self.destination@
    }

    fn processed_at(self, from: &String, time_sent: String) -> (m: IncomingMessage) {
        let from = from.clone();
        IncomingMessage::Binary(
            BLOBMessageRecivedProcessed {
                payload: self.payload,
                from,
                time_sent,
                to: self.destination,
            },
        )
    }

    fn to_processed(self, from: &String) -> (m: IncomingMessage) {
        let time_sent = current_utc_text();
        self.processed_at(from, time_sent)
    }
}

} // verus!
