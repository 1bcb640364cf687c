//! JSON string literals: how serde_json writes a text, and how such a literal
//! reads back.
use vstd::prelude::*;

verus! {

/// Whether `c` stands for itself inside a JSON string literal.
pub open spec fn json_plain_char(c: char) -> bool {
    c != '"' && c != '\\' && c as u32 >= 0x20
}

/// `text` between two double quotes.
pub open spec fn quoted(text: Seq<char>) -> Seq<char> {
    seq!['"'] + text + seq!['"']
}

/// The lowercase hexadecimal digit for `d` (below 16).
pub open spec fn hex_digit(d: int) -> char {
    if d == 0 {
        '0'
    } else if d == 1 {
        '1'
    } else if d == 2 {
        '2'
    } else if d == 3 {
        '3'
    } else if d == 4 {
        '4'
    } else if d == 5 {
        '5'
    } else if d == 6 {
        '6'
    } else if d == 7 {
        '7'
    } else if d == 8 {
        '8'
    } else if d == 9 {
        '9'
    } else if d == 10 {
        'a'
    } else if d == 11 {
        'b'
    } else if d == 12 {
        'c'
    } else if d == 13 {
        'd'
    } else if d == 14 {
        'e'
    } else {
        'f'
    }
}

/// How serde_json writes `c` inside a string literal: the quote and the backslash
/// behind a backslash, the five control characters with a short escape by it, the
/// other control characters as `\u00XX`, everything else as it is.
pub open spec fn json_escape_char(c: char) -> Seq<char> {
    if c == '"' {
        seq!['\\', '"']
    } else if c == '\\' {
        seq!['\\', '\\']
    } else if c == '\u{8}' {
        seq!['\\', 'b']
    } else if c == '\t' {
        seq!['\\', 't']
    } else if c == '\n' {
        seq!['\\', 'n']
    } else if c == '\u{c}' {
        seq!['\\', 'f']
    } else if c == '\r' {
        seq!['\\', 'r']
    } else if (c as u32) < 0x20 {
        seq!['\\', 'u', '0', '0', hex_digit((c as u32 as int) / 16), hex_digit((c as u32 as int) % 16)]
    } else {
        seq![c]
    }
}

/// How serde_json writes `text` inside a string literal.
pub open spec fn json_escape(text: Seq<char>) -> Seq<char>
    decreases text.len(),
{
    if text.len() == 0 {
        Seq::empty()
    } else {
        json_escape_char(text[0]) + json_escape(text.drop_first())
    }
}

/// The JSON string literal that serde_json writes for `text`, quotes included.
pub open spec fn json_string_literal(text: Seq<char>) -> Seq<char> {
    quoted(json_escape(text))
}

/// The value of a hexadecimal digit.
pub open spec fn hex_value(c: char) -> Option<int> {
    if '0' <= c && c <= '9' {
        Some(c as int - '0' as int)
    } else if 'a' <= c && c <= 'f' {
        Some(c as int - 'a' as int + 10)
    } else if 'A' <= c && c <= 'F' {
        Some(c as int - 'A' as int + 10)
    } else {
        None
    }
}

/// The character that `\uXXXX` with digits `a b c d` stands for; surrogate halves
/// (which need a second escape) are refused.
pub open spec fn unicode_escape(a: char, b: char, c: char, d: char) -> Option<char> {
    match (hex_value(a), hex_value(b), hex_value(c), hex_value(d)) {
        (Some(x), Some(y), Some(z), Some(w)) => {
            let v = x * 4096 + y * 256 + z * 16 + w;
            if 0xD800 <= v && v <= 0xDFFF {
                None
            } else {
                Some(v as char)
            }
        },
        _ => None,
    }
}

/// The character that the short escape `\e` stands for.
pub open spec fn short_escape(e: char) -> Option<char> {
    if e == '"' {
        Some('"')
    } else if e == '\\' {
        Some('\\')
    } else if e == '/' {
        Some('/')
    } else if e == 'b' {
        Some('\u{8}')
    } else if e == 'f' {
        Some('\u{c}')
    } else if e == 'n' {
        Some('\n')
    } else if e == 'r' {
        Some('\r')
    } else if e == 't' {
        Some('\t')
    } else {
        None
    }
}

/// `c` in front of the text in `rest`, where there is one.
pub open spec fn prepend(c: char, rest: Option<Seq<char>>) -> Option<Seq<char>> {
    match rest {
        Some(t) => Some(seq![c] + t),
        None => None,
    }
}

/// The text that the inside of a JSON string literal stands for, read from the
/// front; `None` where it is not the inside of a literal.
pub open spec fn json_unescape(s: Seq<char>) -> Option<Seq<char>>
    decreases s.len(),
{
    if s.len() == 0 {
        Some(Seq::empty())
    } else if s[0] == '\\' {
        if s.len() < 2 {
            None
        } else if s[1] == 'u' {
            if s.len() < 6 {
                None
            } else {
                match unicode_escape(s[2], s[3], s[4], s[5]) {
                    Some(c) => prepend(c, json_unescape(s.subrange(6, s.len() as int))),
                    None => None,
                }
            }
        } else {
            match short_escape(s[1]) {
                Some(c) => prepend(c, json_unescape(s.subrange(2, s.len() as int))),
                None => None,
            }
        }
    } else if json_plain_char(s[0]) {
        prepend(s[0], json_unescape(s.subrange(1, s.len() as int)))
    } else {
        None
    }
}

/// The escape of one character, followed by any text, reads back as that character
/// in front of what the text reads as.
pub proof fn lemma_unescape_char(c: char, rest: Seq<char>)
    ensures
        json_unescape(json_escape_char(c) + rest) == prepend(c, json_unescape(rest)),
{
    let e = json_escape_char(c);
    let t = e + rest;
    assert(t.subrange(e.len() as int, t.len() as int) =~= rest);
    if (c as u32) < 0x20 && c != '\u{8}' && c != '\t' && c != '\n' && c != '\u{c}' && c != '\r' {
        let v = c as u32 as int;
        assert(v / 16 == 0 || v / 16 == 1);
        assert(hex_value(hex_digit(v / 16)) == Some(v / 16));
        assert(hex_value(hex_digit(v % 16)) == Some(v % 16));
        assert(v == 0 * 4096 + 0 * 256 + (v / 16) * 16 + v % 16);
        assert(unicode_escape(t[2], t[3], t[4], t[5]) == Some(c));
    }
}

/// What serde_json writes inside a string literal reads back as the text.
pub proof fn lemma_json_escape_round_trip(text: Seq<char>)
    ensures
        json_unescape(json_escape(text)) == Some(text),
    decreases text.len(),
{
    if text.len() > 0 {
        lemma_json_escape_round_trip(text.drop_first());
        lemma_unescape_char(text[0], json_escape(text.drop_first()));
        assert(seq![text[0]] + text.drop_first() =~= text);
    } else {
        assert(json_escape(text) =~= Seq::<char>::empty());
    }
}

/// A text of characters that stand for themselves is written as it is.
pub proof fn lemma_json_escape_plain(text: Seq<char>)
    requires
        forall|i: int| 0 <= i < text.len() ==> json_plain_char(#[trigger] text[i]),
    ensures
        json_escape(text) == text,
    decreases text.len(),
{
    if text.len() > 0 {
        assert forall|i: int| 0 <= i < text.drop_first().len() implies json_plain_char(
            #[trigger] text.drop_first()[i],
        ) by {
            assert(text.drop_first()[i] == text[i + 1]);
        }
        lemma_json_escape_plain(text.drop_first());
        assert(json_plain_char(text[0]));
        assert(seq![text[0]] + text.drop_first() =~= text);
    } else {
        assert(json_escape(text) =~= text);
    }
}

/// Trusted: `serde_json::to_string` on a `String`.
///
/// The contract claims that it succeeds (it writes into a `Vec<u8>`, which never
/// fails, and a string has no map keys) and that its text is `json_string_literal`
/// of the input: serde_json's escape table (`ESCAPE` in ser.rs) escapes the quote,
/// the backslash and the bytes below 0x20, writing `\b \t \n \f \r` for five of them
/// and `\u00XX` with lowercase digits for the others, and copies every other byte.
#[verifier::external_body]
pub(crate) fn json_string(text: &String) -> (r: Result<String, serde_json::Error>)
    ensures
        r is Ok,
        r->Ok_0@ == json_string_literal(text@),
{
    serde_json::to_string(text)
}

/// The serde_json `Error` type, carried through only.
#[verifier::external_type_specification]
#[verifier::external_body]
pub struct ExSerdeJsonError(serde_json::Error);

} // verus!
