//! The bodies and queries that requests carry.
use vstd::prelude::*;

use crate::model::challenge::DeclineReason;
use crate::model::game::chat::ChatRoom;
use crate::text::{is_alphanumeric, is_word};

verus! {

/// The lower-case hexadecimal digit of a value below sixteen.
pub open spec fn hex_digit(d: nat) -> char {
    if d < 10 {
        ((d + 48) as u8) as char
    } else {
        ((d + 87) as u8) as char
    }
}

/// How JSON writes one character inside a string literal: a quote and a
/// backslash behind a backslash, the five control characters that have one
/// behind a backslash by their letter, the other control characters as
/// `\u00XX`, and every other character as it is.
pub open spec fn json_escaped_char(c: char) -> Seq<char> {
    if c == '"' {
        seq!['\\', '"']
    } else if c == '\\' {
        seq!['\\', '\\']
    } else if c == '\x08' {
        seq!['\\', 'b']
    } else if c == '\t' {
        seq!['\\', 't']
    } else if c == '\n' {
        seq!['\\', 'n']
    } else if c == '\x0C' {
        seq!['\\', 'f']
    } else if c == '\r' {
        seq!['\\', 'r']
    } else if (c as u32) < 32 {
        seq!['\\', 'u', '0', '0', hex_digit((c as u32 / 16) as nat), hex_digit((c as u32 % 16) as nat)]
    } else {
        seq![c]
    }
}

/// The characters of a text, each written as JSON writes it in a string.
pub open spec fn json_escaped(text: Seq<char>) -> Seq<char>
    decreases text.len(),
{
    if text.len() == 0 {
        seq![]
    } else {
        json_escaped(text.drop_last()) + json_escaped_char(text.last())
    }
}

/// The JSON string literal of a text.
pub open spec fn json_string_text(text: Seq<char>) -> Seq<char> {
    seq!['"'] + json_escaped(text) + seq!['"']
}

/// Relies on `serde_json::to_string` on a `str`, which cannot fail there: the
/// text as a JSON string literal, escaped by the table of `serde_json`'s
/// `format_escaped_str_contents` and its compact formatter.
#[verifier::external_body]
fn json_string(text: &str) -> (r: Result<String, serde_json::Error>)
    ensures
        r is Ok,
        r matches Ok(j) ==> j@ == json_string_text(text@),
{
    serde_json::to_string(text)
}

/// A word needs no escape in a JSON string.
proof fn lemma_json_escaped_word(text: Seq<char>)
    requires
        is_word(text),
    ensures
        json_escaped(text) == text,
    decreases text.len(),
{
    if text.len() > 0 {
        let init = text.drop_last();
        assert forall|i: int| 0 <= i < init.len() implies #[trigger] is_alphanumeric(init[i]) by {
            assert(init[i] == text[i]);
        }
        lemma_json_escaped_word(init);
        assert(is_alphanumeric(text[text.len() - 1]));
        assert(text == init.push(text.last()));
    }
}

/// What `serde_urlencoded` writes for a list of name-value pairs.
pub uninterp spec fn form_encoding_of(pairs: Seq<(Seq<char>, Seq<char>)>) -> Seq<char>;

/// Pairs written `name=value`, joined by `&`, with nothing escaped.
pub open spec fn joined_pairs(pairs: Seq<(Seq<char>, Seq<char>)>) -> Seq<char>
    decreases pairs.len(),
{
    if pairs.len() == 0 {
        seq![]
    } else if pairs.len() == 1 {
        pairs[0].0 + seq!['='] + pairs[0].1
    } else {
        joined_pairs(pairs.drop_last()) + seq!['&'] + pairs.last().0 + seq!['='] + pairs.last().1
    }
}

/// Whether every name and value of a list of pairs is a word.
pub open spec fn all_words(pairs: Seq<(Seq<char>, Seq<char>)>) -> bool {
    forall|i: int| 0 <= i < pairs.len() ==> is_word(#[trigger] pairs[i].0) && is_word(pairs[i].1)
}

/// The text views of a list of pairs.
pub open spec fn pair_texts(pairs: Seq<(String, String)>) -> Seq<(Seq<char>, Seq<char>)> {
    pairs.map_values(|p: (String, String)| (p.0@, p.1@))
}

/// Relies on `serde_urlencoded::to_string` on a sequence of pairs of
/// strings, which cannot fail there: the `application/x-www-form-urlencoded`
/// text of the pairs, in their order, as `name=value` joined by `&`. Letters
/// and digits are written unchanged (`form_urlencoded::byte_serialize`).
#[verifier::external_body]
fn form_encode(pairs: &Vec<(String, String)>) -> (r: Result<String, serde_urlencoded::ser::Error>)
    ensures
        r is Ok,
        r matches Ok(t) ==> t@ == form_encoding_of(pair_texts(pairs@)),
        r matches Ok(t) ==> (all_words(pair_texts(pairs@)) ==> t@ == joined_pairs(
            pair_texts(pairs@),
        )),
{
    serde_urlencoded::to_string(pairs)
}

/// The JSON body of a request that declines a challenge: an empty object
/// without a reason, else an object whose one field `reason` holds the
/// reason's key as a string.
pub open spec fn decline_body_text(reason: Option<DeclineReason>) -> Seq<char> {
    match reason {
        None => "{}"@,
        Some(r) => "{\"reason\":"@ + seq!['"'] + r.spec_wire_name() + seq!['"'] + "}"@,
    }
}

/// Writes the JSON body of a request that declines a challenge.
pub fn decline_request_body(reason: Option<DeclineReason>) -> (body: String)
    ensures
        body@ == decline_body_text(reason),
{
    match reason {
        None => String::from_str("{}"),
        Some(reason) => {
            let name = reason.wire_name();
            match json_string(name) {
                Ok(key) => {
                    proof {
                        lemma_json_escaped_word(name@);
                    }
                    let mut body = String::from_str("{\"reason\":");
                    body.append(key.as_str());
                    body.append("}");
                    body
                },
                Err(_) => {
                    proof {
                        assert(false);
                    }
                    String::new()
                },
            }
        },
    }
}

/// Writes a list of pairs as a form.
fn form(pairs: &Vec<(String, String)>) -> (t: String)
    ensures
        t@ == form_encoding_of(pair_texts(pairs@)),
        all_words(pair_texts(pairs@)) ==> t@ == joined_pairs(pair_texts(pairs@)),
{
    match form_encode(pairs) {
        Ok(t) => t,
        Err(_) => {
            proof {
                assert(false);
            }
            String::new()
        },
    }
}

/// The form body of a chat message: the room's name, then the text.
pub open spec fn chat_form_pairs(room: ChatRoom, text: Seq<char>) -> Seq<(Seq<char>, Seq<char>)> {
    seq![("room"@, room.spec_wire_name()), ("text"@, text)]
}

/// Writes the form body of a chat message.
pub fn chat_message_form(room: ChatRoom, text: &str) -> (body: String)
    ensures
        body@ == form_encoding_of(chat_form_pairs(room, text@)),
        is_word(text@) ==> body@ == "room"@ + seq!['='] + room.spec_wire_name() + seq!['&']
            + "text"@ + seq!['='] + text@,
{
    let room_name = room.wire_name();
    let mut pairs: Vec<(String, String)> = Vec::new();
    pairs.push((String::from_str("room"), String::from_str(room_name)));
    pairs.push((String::from_str("text"), String::from_str(text)));
    let ghost p = pair_texts(pairs@);
    assert(p == chat_form_pairs(room, text@));
    proof {
        reveal_strlit("room");
        reveal_strlit("text");
        if is_word(text@) {
            assert(is_word("room"@));
            assert(is_word("text"@));
            assert(all_words(p));
            assert(p.drop_last().len() == 1);
            assert(joined_pairs(p) == joined_pairs(p.drop_last()) + seq!['&'] + p.last().0
                + seq!['='] + p.last().1);
        }
    }
    form(&pairs)
}

/// The text of a flag in a query.
pub open spec fn flag_text(flag: bool) -> Seq<char> {
    if flag {
        "true"@
    } else {
        "false"@
    }
}

/// The query of a move: whether a draw is offered with it.
pub open spec fn move_query_text(offer_draw: bool) -> Seq<char> {
    "offeringDraw"@ + seq!['='] + flag_text(offer_draw)
}

/// Writes the query of a move.
pub fn move_query(offer_draw: bool) -> (query: String)
    ensures
        query@ == move_query_text(offer_draw),
{
    let flag = if offer_draw {
        String::from_str("true")
    } else {
        String::from_str("false")
    };
    let mut pairs: Vec<(String, String)> = Vec::new();
    pairs.push((String::from_str("offeringDraw"), flag));
    proof {
        reveal_strlit("offeringDraw");
        reveal_strlit("true");
        reveal_strlit("false");
        let p = pair_texts(pairs@);
        assert(p == seq![("offeringDraw"@, flag_text(offer_draw))]);
        assert(is_word("offeringDraw"@));
        assert(is_word(flag_text(offer_draw)));
        assert(all_words(p));
    }
    form(&pairs)
}

} // verus!
