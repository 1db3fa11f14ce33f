//! Reading the live state the daemon publishes on its loopback status port.
//!
//! The daemon answers with JSON such as
//! `{"connected":true,"profile":2,"chat":true,"game":false}`. `chat`/`game`
//! say whether `profile` equals the configured chat/game profile; `profile`
//! and both flags are `null` together when unknown. The payload has fixed
//! scalar fields, so it is read here without a JSON parser: each field is
//! the raw text after `"key":` up to the next `,` or `}`.

use vstd::prelude::*;
use crate::text::{
    is_ascii_digit,
    all_refuted, is_ws, lemma_find_after, lemma_find_at_start, lemma_find_either_after,
    lemma_trim_unchanged, chars_eq, chars_of, decimal, find, find_chars, find_either, find_either_from, parse_unsigned,
    parse_unsigned_chars, push_decimal, sub_chars, trim, trim_chars, trim_start, trim_start_chars,
};

verus! {

/// What the running daemon reports right now. `None` fields mean the daemon
/// reported `null` (unknown, e.g. the keyboard isn't connected).
#[derive(Debug, Clone, Copy)]
pub struct DaemonStatus {
    pub keyboard_connected: bool,
    pub profile: Option<u8>,
    pub chat: Option<bool>,
    pub game: Option<bool>,
}

impl Default for DaemonStatus {
    fn default() -> (r: Self)
        ensures
            r == (DaemonStatus { keyboard_connected: false, profile: None, chat: None, game: None }),
    {
        DaemonStatus { keyboard_connected: false, profile: None, chat: None, game: None }
    }
}

/// The blank line that ends the HTTP header.
pub open spec fn header_end() -> Seq<char> {
    seq!['\r', '\n', '\r', '\n']
}

/// The part of an HTTP response after the header, or all of it when there
/// is no header.
pub open spec fn response_body(response: Seq<char>) -> Seq<char> {
    match find(response, header_end()) {
        Some(i) => response.subrange(i + 4, response.len() as int),
        None => response,
    }
}

pub open spec fn quoted(key: Seq<char>) -> Seq<char> {
    seq!['"'] + key + seq!['"']
}

/// The raw text of `"key": <value>`, up to the next `,` or `}` (or the end),
/// trimmed; `None` when the key is missing or not followed by `:`.
pub open spec fn field_text(body: Seq<char>, key: Seq<char>) -> Option<Seq<char>> {
    let q = quoted(key);
    match find(body, q) {
        None => None,
        Some(i) => {
            let t = trim_start(body.subrange(i + q.len(), body.len() as int));
            if t.len() > 0 && t[0] == ':' {
                let v = trim_start(t.drop_first());
                Some(trim(v.subrange(0, find_either_from(v, ',', '}', 0))))
            } else {
                None
            }
        },
    }
}

pub open spec fn true_text() -> Seq<char> {
    seq!['t', 'r', 'u', 'e']
}

pub open spec fn false_text() -> Seq<char> {
    seq!['f', 'a', 'l', 's', 'e']
}

pub open spec fn null_text() -> Seq<char> {
    seq!['n', 'u', 'l', 'l']
}

/// A field read as a boolean: exactly `true` or `false`, anything else unknown.
pub open spec fn bool_value(f: Option<Seq<char>>) -> Option<bool> {
    if f == Some(true_text()) {
        Some(true)
    } else if f == Some(false_text()) {
        Some(false)
    } else {
        None
    }
}

/// A field read as a profile number: it parses as a `u8`, else unknown.
pub open spec fn u8_value(f: Option<Seq<char>>) -> Option<u8> {
    match f {
        Some(v) => match parse_unsigned(v, 255) {
            Some(n) => Some(n as u8),
            None => None,
        },
        None => None,
    }
}

pub open spec fn connected_key() -> Seq<char> {
    seq!['c', 'o', 'n', 'n', 'e', 'c', 't', 'e', 'd']
}

pub open spec fn profile_key() -> Seq<char> {
    seq!['p', 'r', 'o', 'f', 'i', 'l', 'e']
}

pub open spec fn chat_key() -> Seq<char> {
    seq!['c', 'h', 'a', 't']
}

pub open spec fn game_key() -> Seq<char> {
    seq!['g', 'a', 'm', 'e']
}

/// What a status response says. Anything unreadable degrades to "nothing
/// known" rather than an error.
pub open spec fn status_of_response(response: Seq<char>) -> DaemonStatus {
    let body = response_body(response);
    DaemonStatus {
        keyboard_connected: field_text(body, connected_key()) == Some(true_text()),
        profile: u8_value(field_text(body, profile_key())),
        chat: bool_value(field_text(body, chat_key())),
        game: bool_value(field_text(body, game_key())),
    }
}

/// The text a daemon status shows as one line.
pub open spec fn profile_text(status: DaemonStatus) -> Seq<char> {
    match status.profile {
        Some(p) => "profile "@ + decimal(p as nat),
        None => "unknown (could not send to the keyboard)"@,
    }
}

pub open spec fn description(status: Option<DaemonStatus>) -> Seq<char> {
    match status {
        None => "(daemon not running)"@,
        Some(s) => if !s.keyboard_connected {
            "(keyboard not connected)"@
        } else if s.chat == Some(true) {
            profile_text(s) + " - chat"@
        } else if s.game == Some(true) {
            profile_text(s) + " - game"@
        } else {
            profile_text(s)
        },
    }
}

/// `line` ends with `suffix`.
pub open spec fn ends_with(line: Seq<char>, suffix: Seq<char>) -> bool {
    suffix.len() <= line.len() && line.subrange(line.len() - suffix.len(), line.len() as int)
        == suffix
}

/// What the status line says: no daemon and no keyboard each have their
/// fixed line; for a connected keyboard the line starts with its profile
/// (`profile N`, or the unknown-profile note) and ends with ` - chat`
/// whenever the chat flag is set, else with ` - game` whenever the game flag
/// is set, else with neither.
pub proof fn lemma_description_says(s: DaemonStatus)
    ensures
        description(None) == "(daemon not running)"@,
        !s.keyboard_connected ==> description(Some(s)) == "(keyboard not connected)"@,
        s.keyboard_connected && s.profile is Some ==> ({
            let d = description(Some(s));
            let head = "profile "@ + decimal(s.profile.unwrap() as nat);
            head.len() <= d.len() && d.subrange(0, head.len() as int) == head
        }),
        s.keyboard_connected && s.profile is None ==> ({
            let d = description(Some(s));
            let head = "unknown (could not send to the keyboard)"@;
            head.len() <= d.len() && d.subrange(0, head.len() as int) == head
        }),
        s.keyboard_connected && s.chat == Some(true) ==> ends_with(
            description(Some(s)),
            " - chat"@,
        ),
        s.keyboard_connected && s.chat != Some(true) && s.game == Some(true) ==> ends_with(
            description(Some(s)),
            " - game"@,
        ),
        s.keyboard_connected && s.chat != Some(true) && s.game != Some(true) ==> !ends_with(
            description(Some(s)),
            " - chat"@,
        ) && !ends_with(description(Some(s)), " - game"@),
{
    reveal_strlit("(daemon not running)");
    reveal_strlit("(keyboard not connected)");
    reveal_strlit("profile ");
    reveal_strlit("unknown (could not send to the keyboard)");
    reveal_strlit(" - chat");
    reveal_strlit(" - game");
    if s.keyboard_connected {
        let d = description(Some(s));
        if let Some(p) = s.profile {
            let head = "profile "@ + decimal(p as nat);
            crate::text::lemma_decimal_digits(p as nat);
            assert(d.subrange(0, head.len() as int) =~= head);
            if s.chat != Some(true) && s.game != Some(true) {
                let n = d.len();
                assert(d =~= head);
                assert(is_ascii_digit(d[n - 1])) by {
                    assert(d[n - 1] == decimal(p as nat)[decimal(p as nat).len() - 1]);
                }
                if ends_with(d, " - chat"@) {
                    assert(d.subrange(n - 7, n as int)[6] == d[n - 1]);
                }
                if ends_with(d, " - game"@) {
                    assert(d.subrange(n - 7, n as int)[6] == d[n - 1]);
                }
            }
        } else {
            let head = "unknown (could not send to the keyboard)"@;
            assert(d.subrange(0, head.len() as int) =~= head);
            if s.chat != Some(true) && s.game != Some(true) {
                let n = d.len();
                assert(d =~= head);
                if ends_with(d, " - chat"@) {
                    assert(d.subrange(n - 7, n as int)[6] == d[n - 1]);
                }
                if ends_with(d, " - game"@) {
                    assert(d.subrange(n - 7, n as int)[6] == d[n - 1]);
                }
            }
        }
        if s.chat == Some(true) {
            assert(d.subrange(d.len() - 7, d.len() as int) =~= " - chat"@);
        } else if s.game == Some(true) {
            assert(d.subrange(d.len() - 7, d.len() as int) =~= " - game"@);
        }
    }
}

/// One line describing what the daemon has the keyboard set to.
/// `None` means no daemon answered. When both flags are set, chat wins.
pub fn describe(status: Option<&DaemonStatus>) -> (r: String)
    ensures
        r@ == description(
            match status {
                Some(s) => Some(*s),
                None => None,
            },
        ),
{
    let status = match status {
        Some(s) => s,
        None => {
            return String::from_str("(daemon not running)");
        },
    };
    if !status.keyboard_connected {
        return String::from_str("(keyboard not connected)");
    }
    let mut text = match status.profile {
        Some(p) => {
            let mut t = String::from_str("profile ");
            push_decimal(&mut t, p as u64);
            t
        },
        None => String::from_str("unknown (could not send to the keyboard)"),
    };
    if status.chat == Some(true) {
        text.append(" - chat");
    } else if status.game == Some(true) {
        text.append(" - game");
    }
    text
}

/// The raw text of `"key": <value>` in `body`, as `field_text` says.
pub fn field_chars(body: &Vec<char>, key: &Vec<char>) -> (r: Option<Vec<char>>)
    ensures
        match r {
            Some(v) => field_text(body@, key@) == Some(v@),
            None => field_text(body@, key@) is None,
        },
{
    let mut q: Vec<char> = Vec::new();
    q.push('"');
    let mut k: usize = 0;
    while k < key.len()
        invariant
            k <= key.len(),
            q@ =~= seq!['"'] + key@.subrange(0, k as int),
        decreases key.len() - k,
    {
        q.push(key[k]);
        k = k + 1;
    }
    q.push('"');
    assert(q@ =~= quoted(key@));
    let qs: &[char] = q.as_slice();
    let i = match find_chars(body, qs) {
        Some(i) => i,
        None => {
            return None;
        },
    };
    let blen: usize = body.len();
    assert(i + qs@.len() <= blen);
    let after = sub_chars(body, i + qs.len(), blen);
    let t = trim_start_chars(&after);
    if t.len() > 0 && t[0] == ':' {
        let rest = sub_chars(&t, 1, t.len());
        assert(rest@ =~= t@.drop_first());
        let v = trim_start_chars(&rest);
        let end = find_either(&v, ',', '}');
        let raw = sub_chars(&v, 0, end);
        Some(trim_chars(&raw))
    } else {
        None
    }
}

/// The raw text of `"key": <value>` in `body`, up to the next `,` or `}`.
/// Values here are only ever `true`, `false`, `null` or a small number, so
/// no string or nesting handling is needed.
pub fn field(body: &str, key: &str) -> (r: Option<Vec<char>>)
    ensures
        match r {
            Some(v) => field_text(body@, key@) == Some(v@),
            None => field_text(body@, key@) is None,
        },
{
    let b = chars_of(body);
    let k = chars_of(key);
    field_chars(&b, &k)
}

fn bool_field(body: &Vec<char>, key: &Vec<char>) -> (r: Option<bool>)
    ensures
        r == bool_value(field_text(body@, key@)),
{
    match field_chars(body, key) {
        Some(v) => {
            if chars_eq(&v, &['t', 'r', 'u', 'e']) {
                Some(true)
            } else if chars_eq(&v, &['f', 'a', 'l', 's', 'e']) {
                Some(false)
            } else {
                None
            }
        },
        None => None,
    }
}

/// Reads a status response (HTTP header optional). Never fails: anything
/// that cannot be read is reported as unknown.
pub fn parse(response: &str) -> (r: DaemonStatus)
    ensures
        r == status_of_response(response@),
{
    let resp = chars_of(response);
    let body = match find_chars(&resp, &['\r', '\n', '\r', '\n']) {
        Some(i) => sub_chars(&resp, i + 4, resp.len()),
        None => resp,
    };
    let connected_key: Vec<char> = vec!['c', 'o', 'n', 'n', 'e', 'c', 't', 'e', 'd'];
    let profile_key: Vec<char> = vec!['p', 'r', 'o', 'f', 'i', 'l', 'e'];
    let chat_key: Vec<char> = vec!['c', 'h', 'a', 't'];
    let game_key: Vec<char> = vec!['g', 'a', 'm', 'e'];
    let keyboard_connected = match field_chars(&body, &connected_key) {
        Some(v) => chars_eq(&v, &['t', 'r', 'u', 'e']),
        None => false,
    };
    let profile = match field_chars(&body, &profile_key) {
        Some(v) => match parse_unsigned_chars(&v, 255) {
            Some(n) => Some(n as u8),
            None => None,
        },
        None => None,
    };
    let chat = bool_field(&body, &chat_key);
    let game = bool_field(&body, &game_key);
    DaemonStatus { keyboard_connected, profile, chat, game }
}

/// The value of a key written as `"key":value` is read back exactly, when
/// nothing before it could be mistaken for the key, the value has no
/// surrounding whitespace and no `,` or `}`, and a `,` or `}` follows it.
pub proof fn lemma_field_text(pre: Seq<char>, key: Seq<char>, v: Seq<char>, post: Seq<char>)
    requires
        all_refuted(pre, quoted(key)),
        v.len() > 0,
        !is_ws(v[0]),
        !is_ws(v.last()),
        forall|i: int| 0 <= i < v.len() ==> v[i] != ',' && v[i] != '}',
        post.len() > 0,
        post[0] == ',' || post[0] == '}',
    ensures
        field_text(pre + quoted(key) + seq![':'] + v + post, key) == Some(v),
{
    let q = quoted(key);
    let body = pre + q + seq![':'] + v + post;
    let rest = q + seq![':'] + v + post;
    assert(body =~= pre + rest);
    lemma_find_after(pre, rest, q);
    assert(rest.subrange(0, q.len() as int) =~= q);
    lemma_find_at_start(rest, q);
    let after = body.subrange((pre.len() + q.len()) as int, body.len() as int);
    let vp = v + post;
    assert(after =~= seq![':'] + vp);
    assert(!is_ws(':'));
    assert(trim_start(after) == after);
    assert(after.drop_first() =~= vp);
    assert(vp[0] == v[0]);
    assert(trim_start(vp) == vp);
    lemma_find_either_after(v, post, ',', '}', 0);
    assert(vp.subrange(0, v.len() as int) =~= v);
    lemma_trim_unchanged(v);
}

} // verus!
