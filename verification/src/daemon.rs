//! The daemon's decisions: what the status endpoint publishes, when a
//! profile has to be sent to the keyboard, how a (re)connection and a
//! hotkey press change what the daemon believes, and how often a send is
//! retried. Moving bytes over HID and TCP is the caller's business; these
//! types say what to do and record what happened.

use vstd::prelude::*;
use crate::status::{
    chat_key, connected_key, false_text, game_key, header_end, lemma_field_text, null_text,
    profile_key, quoted, status_of_response, true_text, u8_value, bool_value, response_body,
    DaemonStatus,
};
use crate::text::{
    all_refuted, decimal, is_ascii_digit, lemma_all_refuted_concat, lemma_decimal_digits,
    lemma_find_after, lemma_find_at_start, lemma_parse_decimal, lemma_refuted_within3,
    lemma_refuted_without, parse_unsigned, push_decimal, find,
};

verus! {

/// What the status endpoint publishes.
///
/// `chat`/`game` are computed from `profile` against `profile_chat`/
/// `profile_game` rather than tracked as flags of their own, so they always
/// reflect what the keyboard is really set to.
pub struct Reported {
    pub keyboard_connected: bool,
    pub profile: Option<u8>,
    pub profile_chat: u8,
    pub profile_game: u8,
}

pub open spec fn same_profile(profile: Option<u8>, wanted: u8) -> Option<bool> {
    match profile {
        Some(p) => Some(p == wanted),
        None => None,
    }
}

pub open spec fn bool_json(b: bool) -> Seq<char> {
    if b {
        true_text()
    } else {
        false_text()
    }
}

pub open spec fn u8_or_null_json(v: Option<u8>) -> Seq<char> {
    match v {
        Some(n) => decimal(n as nat),
        None => null_text(),
    }
}

pub open spec fn bool_or_null_json(v: Option<bool>) -> Seq<char> {
    match v {
        Some(b) => bool_json(b),
        None => null_text(),
    }
}

/// The JSON document the status endpoint serves. Every key is always
/// present; an unknown one is `null` rather than missing.
pub open spec fn status_json(status: DaemonStatus) -> Seq<char> {
    json_a() + bool_json(status.keyboard_connected) + json_b() + u8_or_null_json(status.profile)
        + json_c() + bool_or_null_json(status.chat) + json_d() + bool_or_null_json(status.game)
        + "}"@
}

/// The HTTP response that carries `body`, whose UTF-8 length is `byte_len`.
pub open spec fn http_response_text(body: Seq<char>, byte_len: nat) -> Seq<char> {
    "HTTP/1.1 200 OK\r\nContent-Type: application/json\r\nContent-Length: "@ + decimal(byte_len)
        + "\r\nConnection: close\r\n\r\n"@ + body
}

impl Reported {
    /// What this record says, as a status reader sees it.
    pub open spec fn status(self) -> DaemonStatus {
        DaemonStatus {
            keyboard_connected: self.keyboard_connected,
            profile: self.profile,
            chat: same_profile(self.profile, self.profile_chat),
            game: same_profile(self.profile, self.profile_game),
        }
    }

    /// Nothing known yet: not connected, no profile.
    pub fn new(profile_chat: u8, profile_game: u8) -> (r: Self)
        ensures
            r.keyboard_connected == false,
            r.profile is None,
            r.profile_chat == profile_chat,
            r.profile_game == profile_game,
    {
        Reported { keyboard_connected: false, profile: None, profile_chat, profile_game }
    }

    /// The JSON body for the current state.
    pub fn body(&self) -> (r: String)
        ensures
            r@ == status_json(self.status()),
    {
        let chat: Option<bool> = match self.profile {
            Some(p) => Some(p == self.profile_chat),
            None => None,
        };
        let game: Option<bool> = match self.profile {
            Some(p) => Some(p == self.profile_game),
            None => None,
        };
        let mut r = String::from_str("{\"connected\":");
        r.append(json_bool(self.keyboard_connected));
        r.append(",\"profile\":");
        let p = json_or_null(self.profile);
        r.append(p.as_str());
        r.append(",\"chat\":");
        r.append(json_bool_or_null(chat));
        r.append(",\"game\":");
        r.append(json_bool_or_null(game));
        r.append("}");
        r
    }

    /// Records what the daemon now sees; the configured profiles stay.
    pub fn publish(&mut self, connected: bool, profile: Option<u8>)
        ensures
            final(self).keyboard_connected == connected,
            final(self).profile == profile,
            final(self).profile_chat == old(self).profile_chat,
            final(self).profile_game == old(self).profile_game,
    {
        self.keyboard_connected = connected;
        self.profile = profile;
    }
}

pub fn json_bool(b: bool) -> (r: &'static str)
    ensures
        r@ == bool_json(b),
{
    proof {
        reveal_strlit("true");
        reveal_strlit("false");
    }
    assert("true"@ =~= true_text());
    assert("false"@ =~= false_text());
    if b {
        "true"
    } else {
        "false"
    }
}

/// A profile number as JSON, or `null` when unknown.
pub fn json_or_null(value: Option<u8>) -> (r: String)
    ensures
        r@ == u8_or_null_json(value),
{
    match value {
        Some(n) => crate::text::decimal_string(n as u64),
        None => {
            proof {
                reveal_strlit("null");
            }
            assert("null"@ =~= null_text());
            String::from_str("null")
        },
    }
}

/// A flag as JSON, or `null` when unknown.
pub fn json_bool_or_null(value: Option<bool>) -> (r: &'static str)
    ensures
        r@ == bool_or_null_json(value),
{
    match value {
        Some(b) => json_bool(b),
        None => {
            proof {
                reveal_strlit("null");
            }
            assert("null"@ =~= null_text());
            "null"
        },
    }
}

/// What the endpoint publishes about chat and game is whether the profile
/// is the configured chat or game profile; with no profile known, all three
/// are unknown together.
pub proof fn lemma_flags_follow_profile(r: Reported)
    ensures
        r.status().profile is None ==> r.status().chat is None && r.status().game is None,
        r.status().profile is Some ==> r.status().chat == Some(r.status().profile.unwrap()
            == r.profile_chat) && r.status().game == Some(r.status().profile.unwrap()
            == r.profile_game),
{
}

/// The complete HTTP response the status endpoint writes for `body`.
pub fn http_response(body: &str) -> (r: String)
    ensures
        r@ == http_response_text(body@, body.len() as nat),
{
    let mut r = String::from_str(
        "HTTP/1.1 200 OK\r\nContent-Type: application/json\r\nContent-Length: ",
    );
    push_decimal(&mut r, body.len() as u64);
    r.append("\r\nConnection: close\r\n\r\n");
    r.append(body);
    r
}

/// Tracks what the keyboard is believed to be set to, so HID is touched
/// only on an actual change, and a given failure is reported once instead
/// of on every attempt.
#[derive(Debug, Clone, Copy, PartialEq, Eq, Structural)]
pub struct ProfileState {
    pub last_sent: Option<u8>,
    pub failed_for: Option<u8>,
}

impl ProfileState {
    /// Nothing believed.
    pub open spec fn blank() -> ProfileState {
        ProfileState { last_sent: None, failed_for: None }
    }

    /// Whether `desired` has to be sent.
    pub open spec fn wants(self, desired: u8) -> bool {
        self.last_sent != Some(desired)
    }

    /// The state after an attempt to send `desired` that `succeeded` or not.
    pub open spec fn after_send(self, desired: u8, succeeded: bool) -> ProfileState {
        if succeeded {
            ProfileState { last_sent: Some(desired), failed_for: None }
        } else {
            ProfileState { last_sent: self.last_sent, failed_for: Some(desired) }
        }
    }

    /// Whether the outcome of that attempt is to be reported: a failure is,
    /// unless the previous attempt failed for the same profile.
    pub open spec fn reports(self, desired: u8, succeeded: bool) -> bool {
        !succeeded && self.failed_for != Some(desired)
    }
}

impl Default for ProfileState {
    fn default() -> (r: Self)
        ensures
            r == ProfileState::blank(),
    {
        ProfileState { last_sent: None, failed_for: None }
    }
}

impl ProfileState {
    /// Believes nothing about the keyboard any more.
    pub fn forget(&mut self)
        ensures
            *final(self) == ProfileState::blank(),
    {
        self.last_sent = None;
        self.failed_for = None;
    }

    /// Whether `desired` has to be sent: only when it is not what was last
    /// sent successfully.
    pub fn needs_send(&self, desired: u8) -> (r: bool)
        ensures
            r == self.wants(desired),
    {
        match self.last_sent {
            Some(p) => p != desired,
            None => true,
        }
    }

    /// Records the outcome of sending `desired`. Returns whether the failure
    /// is to be reported: only the first failure for a given profile is.
    pub fn record_send(&mut self, desired: u8, succeeded: bool) -> (report: bool)
        ensures
            *final(self) == old(self).after_send(desired, succeeded),
            report == old(self).reports(desired, succeeded),
    {
        if succeeded {
            self.last_sent = Some(desired);
            self.failed_for = None;
            false
        } else {
            let first = match self.failed_for {
                Some(p) => p != desired,
                None => true,
            };
            self.failed_for = Some(desired);
            first
        }
    }
}

/// Once a profile has been sent successfully, asking for it again sends
/// nothing.
pub proof fn lemma_send_once(st: ProfileState, desired: u8)
    ensures
        !st.after_send(desired, true).wants(desired),
{
}

/// A failure is reported once: failing again for the same profile stays
/// quiet, and a success in between re-arms the report.
pub proof fn lemma_failure_reported_once(st: ProfileState, desired: u8)
    ensures
        !st.after_send(desired, false).reports(desired, false),
        st.after_send(desired, true).reports(desired, false),
        st.after_send(desired, false).last_sent == st.last_sent,
{
}

/// After forgetting, every profile has to be sent again.
pub proof fn lemma_forget_wants_all(desired: u8)
    ensures
        ProfileState::blank().wants(desired),
        !ProfileState::blank().reports(desired, true),
        ProfileState::blank().reports(desired, false),
{
}

/// What the latest HID enumeration means for the keyboard connection.
#[derive(Debug, Clone, Copy, PartialEq, Eq, Structural)]
pub enum Observation {
    /// It was connected and now is gone.
    Lost,
    /// It was not connected and still is not.
    Absent,
    /// A keyboard is present at a path other than the one last seen.
    Arrived,
    /// It is still present at the same path.
    Same,
}

/// The daemon's view of the keyboard between events: which path it was
/// last seen at, what profile it was last sent, and which of the chat and
/// game profiles the toggle hotkey selects.
pub struct KeyboardWatch {
    pub on_connect_profile: u8,
    pub profile_chat: u8,
    pub profile_game: u8,
    pub state: ProfileState,
    pub last_path: Option<String>,
    pub chat: bool,
}

/// The abstract state of a `KeyboardWatch`.
pub struct WatchModel {
    pub on_connect_profile: u8,
    pub profile_chat: u8,
    pub profile_game: u8,
    pub state: ProfileState,
    pub last_path: Option<Seq<char>>,
    pub chat: bool,
}

pub open spec fn path_view(p: Option<String>) -> Option<Seq<char>> {
    match p {
        Some(s) => Some(s@),
        None => None,
    }
}

impl View for KeyboardWatch {
    type V = WatchModel;

    open spec fn view(&self) -> WatchModel {
        WatchModel {
            on_connect_profile: self.on_connect_profile,
            profile_chat: self.profile_chat,
            profile_game: self.profile_game,
            state: self.state,
            last_path: path_view(self.last_path),
            chat: self.chat,
        }
    }
}

pub open spec fn observation_of(last: Option<Seq<char>>, found: Option<Seq<char>>) -> Observation {
    match found {
        None => if last is Some {
            Observation::Lost
        } else {
            Observation::Absent
        },
        Some(p) => if last == Some(p) {
            Observation::Same
        } else {
            Observation::Arrived
        },
    }
}

impl WatchModel {
    /// Before the keyboard is first seen: the toggle is seeded from the
    /// profile the keyboard will be put on at connect.
    pub open spec fn initial(on_connect_profile: u8, profile_chat: u8, profile_game: u8) -> WatchModel {
        WatchModel {
            on_connect_profile,
            profile_chat,
            profile_game,
            state: ProfileState::blank(),
            last_path: None,
            chat: on_connect_profile == profile_chat,
        }
    }

    pub open spec fn observe(self, found: Option<Seq<char>>) -> Observation {
        observation_of(self.last_path, found)
    }

    /// The keyboard went away.
    pub open spec fn lost(self) -> WatchModel {
        WatchModel { state: ProfileState::blank(), last_path: None, ..self }
    }

    /// The keyboard appeared at `path`; the on-connect profile was `applied`
    /// or not. On success the toggle is realigned with that profile.
    pub open spec fn connected(self, path: Seq<char>, applied: bool) -> WatchModel {
        if applied {
            WatchModel {
                state: ProfileState { last_sent: Some(self.on_connect_profile), failed_for: None },
                last_path: Some(path),
                chat: self.on_connect_profile == self.profile_chat,
                ..self
            }
        } else {
            WatchModel { state: ProfileState::blank(), last_path: Some(path), ..self }
        }
    }

    /// A hotkey press.
    pub open spec fn toggled(self) -> WatchModel {
        WatchModel { chat: !self.chat, ..self }
    }

    /// The profile the toggle currently selects.
    pub open spec fn selected(self) -> u8 {
        if self.chat {
            self.profile_chat
        } else {
            self.profile_game
        }
    }
}

impl KeyboardWatch {
    pub fn new(on_connect_profile: u8, profile_chat: u8, profile_game: u8) -> (r: Self)
        ensures
            r@ == WatchModel::initial(on_connect_profile, profile_chat, profile_game),
    {
        KeyboardWatch {
            on_connect_profile,
            profile_chat,
            profile_game,
            state: ProfileState { last_sent: None, failed_for: None },
            last_path: None,
            chat: on_connect_profile == profile_chat,
        }
    }

    /// Classifies an enumeration that found the keyboard at `found` (or
    /// not at all).
    pub fn observe(&self, found: Option<&str>) -> (r: Observation)
        ensures
            r == self@.observe(
                match found {
                    Some(p) => Some(p@),
                    None => None,
                },
            ),
    {
        match found {
            None => match &self.last_path {
                Some(_) => Observation::Lost,
                None => Observation::Absent,
            },
            Some(p) => match &self.last_path {
                Some(last) => {
                    if crate::text::text_is(&crate::text::chars_of(last.as_str()), p) {
                        Observation::Same
                    } else {
                        Observation::Arrived
                    }
                },
                None => Observation::Arrived,
            },
        }
    }

    /// The keyboard went away: forget the path and everything sent to it.
    pub fn lose(&mut self)
        ensures
            final(self)@ == old(self)@.lost(),
    {
        self.last_path = None;
        self.state.forget();
    }

    /// The keyboard appeared at `path` and the on-connect profile was sent
    /// (`applied`) or could not be.
    pub fn connect(&mut self, path: String, applied: bool)
        ensures
            final(self)@ == old(self)@.connected(path@, applied),
    {
        self.state.forget();
        if applied {
            self.state.last_sent = Some(self.on_connect_profile);
            self.chat = self.on_connect_profile == self.profile_chat;
        }
        self.last_path = Some(path);
    }

    /// A hotkey press: flips between the chat and the game profile and
    /// returns the profile now selected.
    pub fn toggle(&mut self) -> (profile: u8)
        ensures
            final(self)@ == old(self)@.toggled(),
            profile == final(self)@.selected(),
    {
        self.chat = !self.chat;
        if self.chat {
            self.profile_chat
        } else {
            self.profile_game
        }
    }
}

/// Two hotkey presses leave the toggle where it was.
pub proof fn lemma_toggle_twice(m: WatchModel)
    ensures
        m.toggled().toggled() == m,
{
}

/// After a connection at `path`, the same path is the same keyboard.
pub proof fn lemma_connect_then_same(m: WatchModel, path: Seq<char>, applied: bool)
    ensures
        m.connected(path, applied).observe(Some(path)) == Observation::Same,
        m.connected(path, applied).observe(None) == Observation::Lost,
{
}

/// After the keyboard is lost, finding nothing is no news, and finding it
/// again is a new arrival.
pub proof fn lemma_lose_then_absent(m: WatchModel, path: Seq<char>)
    ensures
        m.lost().observe(None) == Observation::Absent,
        m.lost().observe(Some(path)) == Observation::Arrived,
        m.lost().state.wants(m.on_connect_profile),
{
}

/// The first hotkey press after the on-connect profile was applied selects
/// the other of the chat and game profiles: if the keyboard was put on the
/// chat profile, the press goes to the game profile, and otherwise to the
/// chat profile.
pub proof fn lemma_first_toggle_after_connect(m: WatchModel, path: Seq<char>)
    ensures
        m.connected(path, true).toggled().selected() == if m.on_connect_profile == m.profile_chat {
            m.profile_game
        } else {
            m.profile_chat
        },
        m.connected(path, true).state.last_sent == Some(m.on_connect_profile),
{
}

/// Counts the attempts to send a profile; a failed attempt is followed by a
/// pause and another attempt until `attempts` have been made.
pub struct Retry {
    pub made: u32,
    pub attempts: u32,
}

impl Retry {
    pub fn new(attempts: u32) -> (r: Self)
        requires
            attempts > 0,
        ensures
            r.made == 0,
            r.attempts == attempts,
    {
        Retry { made: 0, attempts }
    }

    /// Records a failed attempt. Returns whether to pause and try again;
    /// after the last attempt it is `false`, and the failure stands.
    pub fn after_failure(&mut self) -> (again: bool)
        requires
            old(self).made < old(self).attempts,
        ensures
            final(self).made == old(self).made + 1,
            final(self).attempts == old(self).attempts,
            again == (final(self).made < final(self).attempts),
    {
        self.made = self.made + 1;
        self.made < self.attempts
    }
}

/// What the JSON writer puts as a value: nonempty, no surrounding
/// whitespace, and none of the characters that delimit fields, keys or the
/// HTTP header.
pub open spec fn plain_value(v: Seq<char>) -> bool {
    &&& v.len() > 0
    &&& forall|i: int|
        0 <= i < v.len() ==> #[trigger] v[i] != ',' && v[i] != '}' && v[i] != '"' && v[i] != '\r'
            && !crate::text::is_ws(v[i])
}

proof fn lemma_digits_plain(n: nat)
    ensures
        plain_value(decimal(n)),
{
    lemma_decimal_digits(n);
    let d = decimal(n);
    assert forall|i: int| 0 <= i < d.len() implies #[trigger] d[i] != ',' && d[i] != '}' && d[i]
        != '"' && d[i] != '\r' && !crate::text::is_ws(d[i]) by {
        assert(is_ascii_digit(d[i]));
    }
}

proof fn lemma_values_plain(s: DaemonStatus)
    ensures
        plain_value(bool_json(s.keyboard_connected)),
        plain_value(u8_or_null_json(s.profile)),
        plain_value(bool_or_null_json(s.chat)),
        plain_value(bool_or_null_json(s.game)),
        true_text() != false_text(),
        true_text() != null_text(),
        false_text() != null_text(),
        parse_unsigned(null_text(), 255) is None,
{
    assert(plain_value(true_text()));
    assert(plain_value(false_text()));
    assert(plain_value(null_text()));
    if let Some(p) = s.profile {
        lemma_digits_plain(p as nat);
    }
    assert(true_text().len() != false_text().len());
    assert(true_text()[0] != null_text()[0]);
    assert(false_text()[0] != null_text()[0]);
    assert(!is_ascii_digit(null_text()[0]));
}

proof fn lemma_plain_refutes(v: Seq<char>, key: Seq<char>)
    requires
        plain_value(v),
    ensures
        all_refuted(v, quoted(key)),
        all_refuted(v, header_end()),
{
    lemma_refuted_without(v, quoted(key));
    lemma_refuted_without(v, header_end());
}

pub open spec fn json_a() -> Seq<char> {
    "{\"connected\":"@
}

pub open spec fn json_b() -> Seq<char> {
    ",\"profile\":"@
}

pub open spec fn json_c() -> Seq<char> {
    ",\"chat\":"@
}

pub open spec fn json_d() -> Seq<char> {
    ",\"game\":"@
}

proof fn lemma_json_pieces()
    ensures
        json_a() =~= seq!['{'] + quoted(connected_key()) + seq![':'],
        json_b() =~= seq![','] + quoted(profile_key()) + seq![':'],
        json_c() =~= seq![','] + quoted(chat_key()) + seq![':'],
        json_d() =~= seq![','] + quoted(game_key()) + seq![':'],
        "}"@ =~= seq!['}'],
{
    reveal_strlit("{\"connected\":");
    reveal_strlit(",\"profile\":");
    reveal_strlit(",\"chat\":");
    reveal_strlit(",\"game\":");
    reveal_strlit("}");
}

proof fn lemma_pieces_refute(key: Seq<char>)
    requires
        key == profile_key() || key == chat_key() || key == game_key(),
    ensures
        all_refuted(json_a(), quoted(key)),
        key != profile_key() ==> all_refuted(json_b(), quoted(key)),
        key == game_key() ==> all_refuted(json_c(), quoted(key)),
        all_refuted(seq![','], quoted(key)),
{
    lemma_json_pieces();
    lemma_refuted_within3(json_a(), quoted(key));
    if key != profile_key() {
        lemma_refuted_within3(json_b(), quoted(key));
    }
    if key == game_key() {
        lemma_refuted_within3(json_c(), quoted(key));
    }
    lemma_refuted_without(seq![','], quoted(key));
}

proof fn lemma_json_connected(s: DaemonStatus)
    ensures
        crate::status::field_text(status_json(s), connected_key()) == Some(
            bool_json(s.keyboard_connected),
        ),
{
    lemma_json_pieces();
    lemma_values_plain(s);
    let v1 = bool_json(s.keyboard_connected);
    let post = json_b() + u8_or_null_json(s.profile) + json_c() + bool_or_null_json(s.chat)
        + json_d() + bool_or_null_json(s.game) + "}"@;
    lemma_refuted_without(seq!['{'], quoted(connected_key()));
    assert(status_json(s) =~= seq!['{'] + quoted(connected_key()) + seq![':'] + v1 + post);
    lemma_field_text(seq!['{'], connected_key(), v1, post);
}

#[verifier::rlimit(50)]
proof fn lemma_json_profile(s: DaemonStatus)
    ensures
        crate::status::field_text(status_json(s), profile_key()) == Some(
            u8_or_null_json(s.profile),
        ),
{
    lemma_json_pieces();
    lemma_values_plain(s);
    lemma_pieces_refute(profile_key());
    let q = quoted(profile_key());
    let v1 = bool_json(s.keyboard_connected);
    let v2 = u8_or_null_json(s.profile);
    let post = json_c() + bool_or_null_json(s.chat) + json_d() + bool_or_null_json(s.game)
        + "}"@;
    lemma_plain_refutes(v1, profile_key());
    lemma_all_refuted_concat(json_a(), v1, q);
    lemma_all_refuted_concat(json_a() + v1, seq![','], q);
    let pre = json_a() + v1 + seq![','];
    assert(status_json(s) =~= pre + q + seq![':'] + v2 + post);
    lemma_field_text(pre, profile_key(), v2, post);
}

proof fn lemma_json_chat(s: DaemonStatus)
    ensures
        crate::status::field_text(status_json(s), chat_key()) == Some(bool_or_null_json(s.chat)),
{
    lemma_json_pieces();
    lemma_values_plain(s);
    lemma_pieces_refute(chat_key());
    let q = quoted(chat_key());
    let v1 = bool_json(s.keyboard_connected);
    let v2 = u8_or_null_json(s.profile);
    let v3 = bool_or_null_json(s.chat);
    let post = json_d() + bool_or_null_json(s.game) + "}"@;
    lemma_plain_refutes(v1, chat_key());
    lemma_plain_refutes(v2, chat_key());
    lemma_all_refuted_concat(json_a(), v1, q);
    lemma_all_refuted_concat(json_a() + v1, json_b(), q);
    lemma_all_refuted_concat(json_a() + v1 + json_b(), v2, q);
    lemma_all_refuted_concat(json_a() + v1 + json_b() + v2, seq![','], q);
    let pre = json_a() + v1 + json_b() + v2 + seq![','];
    assert(status_json(s) =~= pre + q + seq![':'] + v3 + post);
    lemma_field_text(pre, chat_key(), v3, post);
}

proof fn lemma_json_game(s: DaemonStatus)
    ensures
        crate::status::field_text(status_json(s), game_key()) == Some(bool_or_null_json(s.game)),
{
    lemma_json_pieces();
    lemma_values_plain(s);
    lemma_pieces_refute(game_key());
    let q = quoted(game_key());
    let v1 = bool_json(s.keyboard_connected);
    let v2 = u8_or_null_json(s.profile);
    let v3 = bool_or_null_json(s.chat);
    let v4 = bool_or_null_json(s.game);
    lemma_plain_refutes(v1, game_key());
    lemma_plain_refutes(v2, game_key());
    lemma_plain_refutes(v3, game_key());
    lemma_all_refuted_concat(json_a(), v1, q);
    lemma_all_refuted_concat(json_a() + v1, json_b(), q);
    lemma_all_refuted_concat(json_a() + v1 + json_b(), v2, q);
    lemma_all_refuted_concat(json_a() + v1 + json_b() + v2, json_c(), q);
    lemma_all_refuted_concat(json_a() + v1 + json_b() + v2 + json_c(), v3, q);
    lemma_all_refuted_concat(json_a() + v1 + json_b() + v2 + json_c() + v3, seq![','], q);
    let pre = json_a() + v1 + json_b() + v2 + json_c() + v3 + seq![','];
    assert(status_json(s) =~= pre + q + seq![':'] + v4 + "}"@);
    lemma_field_text(pre, game_key(), v4, "}"@);
}

proof fn lemma_json_no_header(s: DaemonStatus)
    ensures
        all_refuted(status_json(s), header_end()),
        response_body(status_json(s)) == status_json(s),
{
    lemma_json_pieces();
    lemma_values_plain(s);
    let he = header_end();
    let v1 = bool_json(s.keyboard_connected);
    let v2 = u8_or_null_json(s.profile);
    let v3 = bool_or_null_json(s.chat);
    let v4 = bool_or_null_json(s.game);
    let j = status_json(s);
    lemma_refuted_without(json_a(), he);
    lemma_refuted_without(json_b(), he);
    lemma_refuted_without(json_c(), he);
    lemma_refuted_without(json_d(), he);
    lemma_refuted_without("}"@, he);
    lemma_plain_refutes(v1, game_key());
    lemma_plain_refutes(v2, game_key());
    lemma_plain_refutes(v3, game_key());
    lemma_plain_refutes(v4, game_key());
    lemma_all_refuted_concat(json_a(), v1, he);
    lemma_all_refuted_concat(json_a() + v1, json_b(), he);
    lemma_all_refuted_concat(json_a() + v1 + json_b(), v2, he);
    lemma_all_refuted_concat(json_a() + v1 + json_b() + v2, json_c(), he);
    lemma_all_refuted_concat(json_a() + v1 + json_b() + v2 + json_c(), v3, he);
    lemma_all_refuted_concat(json_a() + v1 + json_b() + v2 + json_c() + v3, json_d(), he);
    lemma_all_refuted_concat(json_a() + v1 + json_b() + v2 + json_c() + v3 + json_d(), v4, he);
    lemma_all_refuted_concat(
        json_a() + v1 + json_b() + v2 + json_c() + v3 + json_d() + v4,
        "}"@,
        he,
    );
    assert(j == json_a() + v1 + json_b() + v2 + json_c() + v3 + json_d() + v4 + "}"@);
    lemma_find_after(j, Seq::<char>::empty(), he);
    assert(j + Seq::<char>::empty() =~= j);
}

/// The status endpoint's JSON reads back as exactly the status it was
/// written from.
pub proof fn lemma_status_json_round_trip(s: DaemonStatus)
    ensures
        status_of_response(status_json(s)) == s,
{
    lemma_values_plain(s);
    lemma_json_connected(s);
    lemma_json_profile(s);
    lemma_json_chat(s);
    lemma_json_game(s);
    lemma_json_no_header(s);
    if let Some(p) = s.profile {
        lemma_parse_decimal(p as nat, 255);
    }
}

/// A full HTTP response from the status endpoint reads back as exactly the
/// status it was written from, whatever the Content-Length says.
pub proof fn lemma_status_http_round_trip(s: DaemonStatus, byte_len: nat)
    ensures
        status_of_response(http_response_text(status_json(s), byte_len)) == s,
{
    let j = status_json(s);
    lemma_status_json_round_trip(s);
    reveal_strlit("HTTP/1.1 200 OK\r\nContent-Type: application/json\r\nContent-Length: ");
    reveal_strlit("\r\nConnection: close\r\n\r\n");
    reveal_strlit("\r\nConnection: close");
    let l1 = "HTTP/1.1 200 OK\r\nContent-Type: application/json\r\nContent-Length: "@;
    let l2 = "\r\nConnection: close\r\n\r\n"@;
    let l2a = "\r\nConnection: close"@;
    let he = header_end();
    let n = decimal(byte_len);
    assert(l2 =~= l2a + he);
    lemma_refuted_within3(l1, he);
    lemma_digits_plain(byte_len);
    lemma_refuted_without(n, he);
    lemma_refuted_within3(l2a, he);
    lemma_all_refuted_concat(l1, n, he);
    lemma_all_refuted_concat(l1 + n, l2a, he);
    let pre = l1 + n + l2a;
    let rest = he + j;
    let r = http_response_text(j, byte_len);
    assert(r =~= pre + rest);
    lemma_find_after(pre, rest, he);
    assert(rest.subrange(0, 4) =~= he);
    lemma_find_at_start(rest, he);
    assert(find(r, he) == Some(pre.len() as int));
    assert(r.subrange((pre.len() + 4) as int, r.len() as int) =~= j);
    assert(response_body(r) == j);
    lemma_json_no_header(s);
    assert(status_of_response(r) == status_of_response(j));
}

/// Behind any header block whose only blank line is the one that ends it,
/// the status endpoint's JSON reads back as exactly the status it was
/// written from.
pub proof fn lemma_status_read_back_after_header(s: DaemonStatus, head: Seq<char>)
    requires
        head.len() >= 4,
        find(head, header_end()) == Some(head.len() - 4),
    ensures
        status_of_response(head + status_json(s)) == s,
{
    let j = status_json(s);
    let r = head + j;
    lemma_status_json_round_trip(s);
    lemma_json_no_header(s);
    crate::text::lemma_find_from_extend(head, j, header_end(), 0);
    assert(find(r, header_end()) == Some(head.len() - 4));
    assert(r.subrange(head.len() as int, r.len() as int) =~= j);
    assert(response_body(r) == j);
}

/// What the daemon publishes is what a status reader gets back.
pub proof fn lemma_reported_round_trip(r: Reported, byte_len: nat)
    ensures
        status_of_response(http_response_text(status_json(r.status()), byte_len)) == r.status(),
{
    lemma_status_http_round_trip(r.status(), byte_len);
}

/// Whatever header block precedes it (as long as its only blank line is the
/// one that ends it), the body the daemon publishes reads back as what the
/// daemon recorded.
pub proof fn lemma_reported_read_back(r: Reported, head: Seq<char>)
    requires
        head.len() >= 4,
        find(head, header_end()) == Some(head.len() - 4),
    ensures
        status_of_response(head + status_json(r.status())) == r.status(),
{
    lemma_status_read_back_after_header(r.status(), head);
}

} // verus!
