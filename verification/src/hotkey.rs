//! Parsing for the user-assigned hotkey spec (`PROFILE_TOGGLE_HOTKEY`) that
//! manually toggles which profile is active: a spec string such as `"Home"`,
//! `"Ctrl+Alt+P"` or `"F13"` becomes the `(modifiers, virtual-key code)`
//! pair that Win32 `RegisterHotKey` wants.
//!
//! The codes are Win32's `MOD_*` flags and `VK_*` virtual-key codes.

use vstd::prelude::*;
use crate::text::{
    chars_of, lower, lower_char, upper_char, is_alnum, is_ascii_alnum, parse_unsigned, parse_unsigned_chars, sub_chars,
    text_is, text_starts_with, trim, trim_chars, upper, upper_chars, is_ws,
};

verus! {

pub const MOD_ALT: u32 = 0x0001;

pub const MOD_CONTROL: u32 = 0x0002;

pub const MOD_SHIFT: u32 = 0x0004;

pub const MOD_WIN: u32 = 0x0008;

/// Keeps a held hotkey from firing again at the key-repeat rate.
pub const MOD_NOREPEAT: u32 = 0x4000;

pub const VK_BACK: u32 = 0x08;

pub const VK_TAB: u32 = 0x09;

pub const VK_RETURN: u32 = 0x0D;

pub const VK_PAUSE: u32 = 0x13;

pub const VK_CAPITAL: u32 = 0x14;

pub const VK_ESCAPE: u32 = 0x1B;

pub const VK_SPACE: u32 = 0x20;

pub const VK_PRIOR: u32 = 0x21;

pub const VK_NEXT: u32 = 0x22;

pub const VK_END: u32 = 0x23;

pub const VK_HOME: u32 = 0x24;

pub const VK_LEFT: u32 = 0x25;

pub const VK_UP: u32 = 0x26;

pub const VK_RIGHT: u32 = 0x27;

pub const VK_DOWN: u32 = 0x28;

pub const VK_SNAPSHOT: u32 = 0x2C;

pub const VK_INSERT: u32 = 0x2D;

pub const VK_DELETE: u32 = 0x2E;

pub const VK_NUMPAD0: u32 = 0x60;

pub const VK_F1: u32 = 0x70;

pub const VK_SCROLL: u32 = 0x91;

pub const VK_RSHIFT: u32 = 0xA1;

pub const VK_OEM_1: u32 = 0xBA;

pub const VK_OEM_PLUS: u32 = 0xBB;

pub const VK_OEM_COMMA: u32 = 0xBC;

pub const VK_OEM_MINUS: u32 = 0xBD;

pub const VK_OEM_PERIOD: u32 = 0xBE;

pub const VK_OEM_2: u32 = 0xBF;

pub const VK_OEM_3: u32 = 0xC0;

pub const VK_OEM_4: u32 = 0xDB;

pub const VK_OEM_5: u32 = 0xDC;

pub const VK_OEM_6: u32 = 0xDD;

pub const VK_OEM_7: u32 = 0xDE;

/// The texts held by a vector of character vectors.
pub open spec fn views(v: Seq<Vec<char>>) -> Seq<Seq<char>> {
    v.map_values(|p: Vec<char>| p@)
}

pub open spec fn keep_part(parts: Seq<Seq<char>>, part: Seq<char>) -> Seq<Seq<char>> {
    if part.len() > 0 {
        parts.push(part)
    } else {
        parts
    }
}

/// Scanning `s` for `+`: the trimmed, nonempty parts finished so far and
/// the text of the part still open.
pub open spec fn split_state(s: Seq<char>) -> (Seq<Seq<char>>, Seq<char>)
    decreases s.len(),
{
    if s.len() == 0 {
        (Seq::empty(), Seq::empty())
    } else {
        let (parts, cur) = split_state(s.drop_last());
        if s.last() == '+' {
            (keep_part(parts, trim(cur)), Seq::empty())
        } else {
            (parts, cur.push(s.last()))
        }
    }
}

/// `s.split('+').map(str::trim).filter(|s| !s.is_empty())`.
pub open spec fn hotkey_parts(s: Seq<char>) -> Seq<Seq<char>> {
    let (parts, cur) = split_state(s);
    keep_part(parts, trim(cur))
}

/// The flag an upper-cased modifier name stands for.
pub open spec fn modifier_bit(u: Seq<char>) -> Option<u32> {
    if u == "CTRL"@ || u == "CONTROL"@ {
        Some(MOD_CONTROL)
    } else if u == "ALT"@ {
        Some(MOD_ALT)
    } else if u == "SHIFT"@ {
        Some(MOD_SHIFT)
    } else if u == "WIN"@ || u == "WINDOWS"@ {
        Some(MOD_WIN)
    } else {
        None
    }
}

/// The flags of all the modifier parts, combined, each named in any ASCII
/// case; `None` if one is unknown.
pub open spec fn modifiers_of(parts: Seq<Seq<char>>) -> Option<u32>
    decreases parts.len(),
{
    if parts.len() == 0 {
        Some(0)
    } else {
        match (modifiers_of(parts.drop_last()), modifier_bit(upper(parts.last()))) {
            (Some(a), Some(b)) => Some(a | b),
            _ => None,
        }
    }
}

/// The named keys an (upper-cased) key name can reference.
pub open spec fn named_vk(u: Seq<char>) -> Option<u32> {
    if u == "HOME"@ {
        Some(VK_HOME)
    } else if u == "END"@ {
        Some(VK_END)
    } else if u == "INSERT"@ || u == "INS"@ {
        Some(VK_INSERT)
    } else if u == "DELETE"@ || u == "DEL"@ {
        Some(VK_DELETE)
    } else if u == "PAGEUP"@ || u == "PGUP"@ {
        Some(VK_PRIOR)
    } else if u == "PAGEDOWN"@ || u == "PGDN"@ {
        Some(VK_NEXT)
    } else if u == "UP"@ {
        Some(VK_UP)
    } else if u == "DOWN"@ {
        Some(VK_DOWN)
    } else if u == "LEFT"@ {
        Some(VK_LEFT)
    } else if u == "RIGHT"@ {
        Some(VK_RIGHT)
    } else if u == "SPACE"@ {
        Some(VK_SPACE)
    } else if u == "TAB"@ {
        Some(VK_TAB)
    } else if u == "ENTER"@ || u == "RETURN"@ {
        Some(VK_RETURN)
    } else if u == "BACKSPACE"@ || u == "BACK"@ {
        Some(VK_BACK)
    } else if u == "ESC"@ || u == "ESCAPE"@ {
        Some(VK_ESCAPE)
    } else if u == "CAPSLOCK"@ {
        Some(VK_CAPITAL)
    } else if u == "SCROLLLOCK"@ {
        Some(VK_SCROLL)
    } else if u == "PAUSE"@ || u == "BREAK"@ {
        Some(VK_PAUSE)
    } else if u == "PRINTSCREEN"@ || u == "PRTSC"@ {
        Some(VK_SNAPSHOT)
    } else if u == "RSHIFT"@ {
        Some(VK_RSHIFT)
    } else if u == ";"@ || u == "SEMICOLON"@ {
        Some(VK_OEM_1)
    } else if u == "/"@ || u == "SLASH"@ {
        Some(VK_OEM_2)
    } else if u == "`"@ || u == "GRAVE"@ || u == "BACKTICK"@ {
        Some(VK_OEM_3)
    } else if u == "["@ {
        Some(VK_OEM_4)
    } else if u == "\\"@ || u == "BACKSLASH"@ {
        Some(VK_OEM_5)
    } else if u == "]"@ {
        Some(VK_OEM_6)
    } else if u == "'"@ || u == "QUOTE"@ || u == "APOSTROPHE"@ {
        Some(VK_OEM_7)
    } else if u == ","@ || u == "COMMA"@ {
        Some(VK_OEM_COMMA)
    } else if u == "."@ || u == "PERIOD"@ {
        Some(VK_OEM_PERIOD)
    } else if u == "-"@ || u == "MINUS"@ {
        Some(VK_OEM_MINUS)
    } else if u == "="@ || u == "PLUS"@ || u == "EQUALS"@ {
        Some(VK_OEM_PLUS)
    } else {
        None
    }
}

/// The number after `prefix` in `u`, when `u` starts with `prefix`.
pub open spec fn number_after(u: Seq<char>, prefix: Seq<char>) -> Option<nat> {
    if prefix.len() <= u.len() && u.subrange(0, prefix.len() as int) == prefix {
        parse_unsigned(u.subrange(prefix.len() as int, u.len() as int), u32::MAX as nat)
    } else {
        None
    }
}

/// Function keys (F1..=F24) and the numeric keypad (Numpad0..=9, also
/// spelled Num0..=9).
pub open spec fn numbered_vk(u: Seq<char>) -> Option<u32> {
    let f = number_after(u, "F"@);
    let pad = if "NUMPAD"@.len() <= u.len() && u.subrange(0, "NUMPAD"@.len() as int)
        == "NUMPAD"@ {
        number_after(u, "NUMPAD"@)
    } else {
        number_after(u, "NUM"@)
    };
    if f is Some && 1 <= f.unwrap() <= 24 {
        Some((VK_F1 + f.unwrap() - 1) as u32)
    } else if pad is Some && pad.unwrap() <= 9 {
        Some((VK_NUMPAD0 + pad.unwrap()) as u32)
    } else {
        None
    }
}

/// The virtual-key code an (upper-cased) key name stands for: a named key,
/// a single letter or digit (whose code is its own character code), or a
/// numbered key.
pub open spec fn key_vk(u: Seq<char>) -> Option<u32> {
    if named_vk(u) is Some {
        named_vk(u)
    } else if u.len() == 1 && is_ascii_alnum(u[0]) {
        Some(u[0] as u32)
    } else {
        numbered_vk(u)
    }
}

/// What a hotkey spec means: `+`-separated parts, case-insensitive, every
/// part but the last a modifier and the last the key itself; `None` for
/// anything unrecognized.
pub open spec fn hotkey_of(spec: Seq<char>) -> Option<(u32, u32)> {
    let parts = hotkey_parts(upper(spec));
    if parts.len() == 0 {
        None
    } else {
        match (modifiers_of(parts.drop_last()), key_vk(upper(parts.last()))) {
            (Some(m), Some(vk)) => Some((m, vk)),
            _ => None,
        }
    }
}

fn split_parts(u: &Vec<char>) -> (parts: Vec<Vec<char>>)
    ensures
        views(parts@) == hotkey_parts(u@),
{
    let mut parts: Vec<Vec<char>> = Vec::new();
    let mut cur: Vec<char> = Vec::new();
    let mut i: usize = 0;
    assert(u@.subrange(0, 0) =~= Seq::<char>::empty());
    while i < u.len()
        invariant
            i <= u@.len(),
            (views(parts@), cur@) == split_state(u@.subrange(0, i as int)),
        decreases u.len() - i,
    {
        assert(u@.subrange(0, i + 1).drop_last() =~= u@.subrange(0, i as int));
        assert(u@.subrange(0, i + 1).last() == u@[i as int]);
        if u[i] == '+' {
            let t = trim_chars(&cur);
            if t.len() > 0 {
                let ghost before = views(parts@);
                parts.push(t);
                assert(views(parts@) =~= before.push(t@));
            }
            cur = Vec::new();
            assert(cur@ =~= Seq::<char>::empty());
        } else {
            cur.push(u[i]);
        }
        i = i + 1;
    }
    assert(u@.subrange(0, u@.len() as int) =~= u@);
    let t = trim_chars(&cur);
    if t.len() > 0 {
        let ghost before = views(parts@);
        parts.push(t);
        assert(views(parts@) =~= before.push(t@));
    }
    parts
}

/// The flag a modifier name, in any ASCII case, stands for.
fn modifier_bit_of(name: &Vec<char>) -> (r: Option<u32>)
    ensures
        r == modifier_bit(upper(name@)),
{
    let u = &upper_chars(name);
    if text_is(u, "CTRL") || text_is(u, "CONTROL") {
        Some(MOD_CONTROL)
    } else if text_is(u, "ALT") {
        Some(MOD_ALT)
    } else if text_is(u, "SHIFT") {
        Some(MOD_SHIFT)
    } else if text_is(u, "WIN") || text_is(u, "WINDOWS") {
        Some(MOD_WIN)
    } else {
        None
    }
}

fn named_vk_of(u: &Vec<char>) -> (r: Option<u32>)
    ensures
        r == named_vk(u@),
{
    if text_is(u, "HOME") {
        Some(VK_HOME)
    } else if text_is(u, "END") {
        Some(VK_END)
    } else if text_is(u, "INSERT") || text_is(u, "INS") {
        Some(VK_INSERT)
    } else if text_is(u, "DELETE") || text_is(u, "DEL") {
        Some(VK_DELETE)
    } else if text_is(u, "PAGEUP") || text_is(u, "PGUP") {
        Some(VK_PRIOR)
    } else if text_is(u, "PAGEDOWN") || text_is(u, "PGDN") {
        Some(VK_NEXT)
    } else if text_is(u, "UP") {
        Some(VK_UP)
    } else if text_is(u, "DOWN") {
        Some(VK_DOWN)
    } else if text_is(u, "LEFT") {
        Some(VK_LEFT)
    } else if text_is(u, "RIGHT") {
        Some(VK_RIGHT)
    } else if text_is(u, "SPACE") {
        Some(VK_SPACE)
    } else if text_is(u, "TAB") {
        Some(VK_TAB)
    } else if text_is(u, "ENTER") || text_is(u, "RETURN") {
        Some(VK_RETURN)
    } else if text_is(u, "BACKSPACE") || text_is(u, "BACK") {
        Some(VK_BACK)
    } else if text_is(u, "ESC") || text_is(u, "ESCAPE") {
        Some(VK_ESCAPE)
    } else if text_is(u, "CAPSLOCK") {
        Some(VK_CAPITAL)
    } else if text_is(u, "SCROLLLOCK") {
        Some(VK_SCROLL)
    } else if text_is(u, "PAUSE") || text_is(u, "BREAK") {
        Some(VK_PAUSE)
    } else if text_is(u, "PRINTSCREEN") || text_is(u, "PRTSC") {
        Some(VK_SNAPSHOT)
    } else if text_is(u, "RSHIFT") {
        Some(VK_RSHIFT)
    } else if text_is(u, ";") || text_is(u, "SEMICOLON") {
        Some(VK_OEM_1)
    } else if text_is(u, "/") || text_is(u, "SLASH") {
        Some(VK_OEM_2)
    } else if text_is(u, "`") || text_is(u, "GRAVE") || text_is(u, "BACKTICK") {
        Some(VK_OEM_3)
    } else if text_is(u, "[") {
        Some(VK_OEM_4)
    } else if text_is(u, "\\") || text_is(u, "BACKSLASH") {
        Some(VK_OEM_5)
    } else if text_is(u, "]") {
        Some(VK_OEM_6)
    } else if text_is(u, "'") || text_is(u, "QUOTE") || text_is(u, "APOSTROPHE") {
        Some(VK_OEM_7)
    } else if text_is(u, ",") || text_is(u, "COMMA") {
        Some(VK_OEM_COMMA)
    } else if text_is(u, ".") || text_is(u, "PERIOD") {
        Some(VK_OEM_PERIOD)
    } else if text_is(u, "-") || text_is(u, "MINUS") {
        Some(VK_OEM_MINUS)
    } else if text_is(u, "=") || text_is(u, "PLUS") || text_is(u, "EQUALS") {
        Some(VK_OEM_PLUS)
    } else {
        None
    }
}

fn number_after_of(u: &Vec<char>, prefix: &str) -> (r: Option<u32>)
    ensures
        match r {
            Some(n) => number_after(u@, prefix@) == Some(n as nat),
            None => number_after(u@, prefix@) is None,
        },
{
    if text_starts_with(u, prefix) {
        let p = chars_of(prefix);
        let rest = sub_chars(u, p.len(), u.len());
        match parse_unsigned_chars(&rest, 0xFFFF_FFFF) {
            Some(n) => Some(n as u32),
            None => None,
        }
    } else {
        None
    }
}

/// Function keys (F1..=F24) and the numeric keypad (Numpad0..=9), named
/// in any ASCII case.
fn numbered_key(name: &Vec<char>) -> (r: Option<u32>)
    ensures
        r == numbered_vk(upper(name@)),
{
    let u = &upper_chars(name);
    if let Some(n) = number_after_of(u, "F") {
        if 1 <= n && n <= 24 {
            return Some(VK_F1 + (n - 1));
        }
    }
    let pad = if text_starts_with(u, "NUMPAD") {
        number_after_of(u, "NUMPAD")
    } else {
        number_after_of(u, "NUM")
    };
    if let Some(n) = pad {
        if n <= 9 {
            return Some(VK_NUMPAD0 + n);
        }
    }
    None
}

/// The virtual-key code for a key name in any ASCII case.
fn vk_from_name(name: &Vec<char>) -> (r: Option<u32>)
    ensures
        r == key_vk(upper(name@)),
{
    let u = upper_chars(name);
    match named_vk_of(&u) {
        Some(vk) => Some(vk),
        None => {
            if u.len() == 1 && is_alnum(u[0]) {
                Some(u[0] as u32)
            } else {
                numbered_key(name)
            }
        },
    }
}

/// Parses a spec like `"Home"`, `"Ctrl+Alt+P"`, or `"F13"` into the
/// `(modifiers, virtual-key code)` pair `RegisterHotKey` wants.
/// Case-insensitive, `+`-separated; every part but the last must name a
/// modifier, and the last must name the key itself. Returns `None` for
/// anything unrecognized rather than guessing.
pub fn parse_hotkey(spec: &str) -> (r: Option<(u32, u32)>)
    ensures
        r == hotkey_of(spec@),
{
    let chars = chars_of(spec);
    let u = upper_chars(&chars);
    let parts = split_parts(&u);
    let n: usize = parts.len();
    if n == 0 {
        return None;
    }
    let ghost ps = views(parts@);
    let mut mods: u32 = 0;
    let mut ok: bool = true;
    let mut k: usize = 0;
    assert(ps.subrange(0, 0) =~= Seq::<Seq<char>>::empty());
    while k < n - 1
        invariant
            n == parts@.len(),
            n > 0,
            ps == views(parts@),
            k <= n - 1,
            ok ==> modifiers_of(ps.subrange(0, k as int)) == Some(mods),
            !ok ==> modifiers_of(ps.subrange(0, k as int)) is None,
        decreases n - 1 - k,
    {
        assert(ps.subrange(0, k + 1).drop_last() =~= ps.subrange(0, k as int));
        assert(ps.subrange(0, k + 1).last() == parts[k as int]@);
        match modifier_bit_of(&parts[k]) {
            Some(b) => {
                if ok {
                    mods = mods | b;
                }
            },
            None => {
                ok = false;
            },
        }
        k = k + 1;
    }
    assert(ps.subrange(0, n - 1) =~= ps.drop_last());
    if !ok {
        return None;
    }
    assert(ps.last() == parts@[n - 1]@);
    match vk_from_name(&parts[n - 1]) {
        Some(vk) => Some((mods, vk)),
        None => None,
    }
}

/// A hotkey spec means the same whatever the ASCII case of its letters:
/// upper-casing or lower-casing it changes nothing.
pub proof fn lemma_hotkey_case_insensitive(spec: Seq<char>)
    ensures
        hotkey_of(upper(spec)) == hotkey_of(spec),
        hotkey_of(lower(spec)) == hotkey_of(spec),
{
    assert forall|i: int| 0 <= i < spec.len() implies upper_char(upper_char(spec[i])) == upper_char(
        spec[i],
    ) && upper_char(lower_char(spec[i])) == upper_char(spec[i]) by {
        let c = spec[i];
        if 'A' <= c && c <= 'Z' {
            assert(((c as u32 + 32) as char) as u32 == c as u32 + 32);
        }
        if 'a' <= c && c <= 'z' {
            assert(((c as u32 - 32) as char) as u32 == c as u32 - 32);
        }
    }
    assert(upper(upper(spec)) =~= upper(spec));
    assert(upper(lower(spec)) =~= upper(spec));
}


/// A text with no `+` that neither begins nor ends with whitespace: one
/// part of a hotkey spec as written.
pub open spec fn bare(name: Seq<char>) -> bool {
    &&& name.len() > 0
    &&& forall|i: int| 0 <= i < name.len() ==> #[trigger] name[i] != '+'
    &&& !is_ws(name[0])
    &&& !is_ws(name.last())
}

proof fn lemma_upper_idempotent(s: Seq<char>)
    ensures
        upper(upper(s)) == upper(s),
{
    assert forall|i: int| 0 <= i < s.len() implies upper_char(upper_char(s[i])) == upper_char(
        s[i],
    ) by {
        let c = s[i];
        if 'a' <= c && c <= 'z' {
            assert(((c as u32 - 32) as char) as u32 == c as u32 - 32);
        }
    }
    assert(upper(upper(s)) =~= upper(s));
}

proof fn lemma_upper_bare(s: Seq<char>)
    requires
        bare(s),
    ensures
        bare(upper(s)),
{
    let u = upper(s);
    assert forall|i: int| 0 <= i < u.len() implies #[trigger] u[i] != '+' by {
        assert(s[i] != '+');
    }
    let c = s[0];
    if 'a' <= c && c <= 'z' {
        assert(((c as u32 - 32) as char) as u32 == c as u32 - 32);
    }
    let d = s.last();
    assert(u.last() == upper_char(d));
    if 'a' <= d && d <= 'z' {
        assert(((d as u32 - 32) as char) as u32 == d as u32 - 32);
    }
}

/// Splitting on `+` carries text with no `+` into the part still open.
proof fn lemma_split_append(p: Seq<char>, s: Seq<char>)
    requires
        forall|i: int| 0 <= i < s.len() ==> #[trigger] s[i] != '+',
    ensures
        split_state(p + s) == (split_state(p).0, split_state(p).1 + s),
    decreases s.len(),
{
    if s.len() == 0 {
        assert(p + s =~= p);
        assert(split_state(p).1 + s =~= split_state(p).1);
    } else {
        let t = s.drop_last();
        assert((p + s).drop_last() =~= p + t);
        assert((p + s).last() == s.last());
        assert(s[s.len() - 1] != '+');
        lemma_split_append(p, t);
        assert(split_state(p).1 + t.push(s.last()) =~= split_state(p).1 + s);
        assert(t.push(s.last()) =~= s);
    }
}

/// A spec that is one key name alone means that key with no modifiers.
pub proof fn lemma_bare_key(name: Seq<char>)
    requires
        bare(name),
    ensures
        hotkey_of(name) == match key_vk(upper(name)) {
            Some(v) => Some((0u32, v)),
            None => None,
        },
{
    let u = upper(name);
    lemma_upper_bare(name);
    lemma_split_append(Seq::empty(), u);
    assert(Seq::<char>::empty() + u =~= u);
    assert(Seq::<char>::empty() + u =~= u);
    crate::text::lemma_trim_unchanged(u);
    lemma_upper_idempotent(name);
    let parts = hotkey_parts(u);
    assert(parts =~= seq![u]);
    assert(parts.drop_last() =~= Seq::<Seq<char>>::empty());
}

/// A spec `modifier+key` means that modifier's flag with that key.
pub proof fn lemma_modified_key(m: Seq<char>, k: Seq<char>)
    requires
        bare(m),
        bare(k),
    ensures
        hotkey_of(m + seq!['+'] + k) == match (modifier_bit(upper(m)), key_vk(upper(k))) {
            (Some(a), Some(v)) => Some((a, v)),
            _ => None,
        },
{
    let um = upper(m);
    let uk = upper(k);
    lemma_upper_bare(m);
    lemma_upper_bare(k);
    lemma_upper_idempotent(m);
    lemma_upper_idempotent(k);
    let spec = m + seq!['+'] + k;
    assert(upper(spec) =~= um.push('+') + uk);
    lemma_split_append(Seq::empty(), um);
    assert(Seq::<char>::empty() + um =~= um);
    crate::text::lemma_trim_unchanged(um);
    crate::text::lemma_trim_unchanged(uk);
    let pm = um.push('+');
    assert(pm.drop_last() =~= um);
    assert(split_state(pm) == (seq![um], Seq::<char>::empty()));
    lemma_split_append(pm, uk);
    assert(Seq::<char>::empty() + uk =~= uk);
    let parts = hotkey_parts(upper(spec));
    assert(parts =~= seq![um, uk]);
    assert(parts.drop_last() =~= seq![um]);
    assert(seq![um].drop_last() =~= Seq::<Seq<char>>::empty());
    assert(parts.last() == uk);
    assert(upper(um) == um);
    assert(upper(uk) == uk);
    assert(modifiers_of(Seq::<Seq<char>>::empty()) == Some(0u32));
    if let Some(a) = modifier_bit(um) {
        assert(0u32 | a == a) by (bit_vector);
        assert(modifiers_of(seq![um]) == Some(a));
    } else {
        assert(modifiers_of(seq![um]) is None);
    }
    assert(hotkey_parts(upper(spec)).len() == 2);
}

/// Each key name stands for its own Win32 virtual-key code, and each of
/// those codes for that key alone: a code is produced exactly by the names
/// of its key.
pub proof fn lemma_key_codes(u: Seq<char>)
    ensures
        key_vk(u) == Some(0x24u32) <==> (u == "HOME"@),
        key_vk(u) == Some(0x23u32) <==> (u == "END"@),
        key_vk(u) == Some(0x2Du32) <==> (u == "INSERT"@ || u == "INS"@),
        key_vk(u) == Some(0x2Eu32) <==> (u == "DELETE"@ || u == "DEL"@),
        key_vk(u) == Some(0x21u32) <==> (u == "PAGEUP"@ || u == "PGUP"@),
        key_vk(u) == Some(0x22u32) <==> (u == "PAGEDOWN"@ || u == "PGDN"@),
        key_vk(u) == Some(0x26u32) <==> (u == "UP"@),
        key_vk(u) == Some(0x28u32) <==> (u == "DOWN"@),
        key_vk(u) == Some(0x25u32) <==> (u == "LEFT"@),
        key_vk(u) == Some(0x27u32) <==> (u == "RIGHT"@),
        key_vk(u) == Some(0x20u32) <==> (u == "SPACE"@),
        key_vk(u) == Some(0x09u32) <==> (u == "TAB"@),
        key_vk(u) == Some(0x0Du32) <==> (u == "ENTER"@ || u == "RETURN"@),
        key_vk(u) == Some(0x08u32) <==> (u == "BACKSPACE"@ || u == "BACK"@),
        key_vk(u) == Some(0x1Bu32) <==> (u == "ESC"@ || u == "ESCAPE"@),
        key_vk(u) == Some(0x14u32) <==> (u == "CAPSLOCK"@),
        key_vk(u) == Some(0x91u32) <==> (u == "SCROLLLOCK"@),
        key_vk(u) == Some(0x13u32) <==> (u == "PAUSE"@ || u == "BREAK"@),
        key_vk(u) == Some(0x2Cu32) <==> (u == "PRINTSCREEN"@ || u == "PRTSC"@),
        key_vk(u) == Some(0xA1u32) <==> (u == "RSHIFT"@),
        key_vk(u) == Some(0xBAu32) <==> (u == ";"@ || u == "SEMICOLON"@),
        key_vk(u) == Some(0xBFu32) <==> (u == "/"@ || u == "SLASH"@),
        key_vk(u) == Some(0xC0u32) <==> (u == "`"@ || u == "GRAVE"@ || u == "BACKTICK"@),
        key_vk(u) == Some(0xDBu32) <==> (u == "["@),
        key_vk(u) == Some(0xDCu32) <==> (u == "\\"@ || u == "BACKSLASH"@),
        key_vk(u) == Some(0xDDu32) <==> (u == "]"@),
        key_vk(u) == Some(0xDEu32) <==> (u == "'"@ || u == "QUOTE"@ || u == "APOSTROPHE"@),
        key_vk(u) == Some(0xBCu32) <==> (u == ","@ || u == "COMMA"@),
        key_vk(u) == Some(0xBEu32) <==> (u == "."@ || u == "PERIOD"@),
        key_vk(u) == Some(0xBDu32) <==> (u == "-"@ || u == "MINUS"@),
        key_vk(u) == Some(0xBBu32) <==> (u == "="@ || u == "PLUS"@ || u == "EQUALS"@),
{
    key_code_24(u);
    key_code_23(u);
    key_code_2d(u);
    key_code_2e(u);
    key_code_21(u);
    key_code_22(u);
    key_code_26(u);
    key_code_28(u);
    key_code_25(u);
    key_code_27(u);
    key_code_20(u);
    key_code_09(u);
    key_code_0d(u);
    key_code_08(u);
    key_code_1b(u);
    key_code_14(u);
    key_code_91(u);
    key_code_13(u);
    key_code_2c(u);
    key_code_a1(u);
    key_code_ba(u);
    key_code_bf(u);
    key_code_c0(u);
    key_code_db(u);
    key_code_dc(u);
    key_code_dd(u);
    key_code_de(u);
    key_code_bc(u);
    key_code_be(u);
    key_code_bd(u);
    key_code_bb(u);
}

proof fn key_name_0()
    ensures
        key_vk("HOME"@) == Some(0x24u32),
{
    reveal_strlit("HOME");
}

proof fn key_code_24(u: Seq<char>)
    ensures
        key_vk(u) == Some(0x24u32) ==> (u == "HOME"@),
        (u == "HOME"@) ==> key_vk(u) == Some(0x24u32),
{
    if u == "HOME"@ {
        key_name_0();
    }
}

proof fn key_name_1()
    ensures
        key_vk("END"@) == Some(0x23u32),
{
    reveal_strlit("END");
    reveal_strlit("HOME");
    assert("HOME"@.len() != "END"@.len());
}

proof fn key_code_23(u: Seq<char>)
    ensures
        key_vk(u) == Some(0x23u32) ==> (u == "END"@),
        (u == "END"@) ==> key_vk(u) == Some(0x23u32),
{
    if u == "END"@ {
        key_name_1();
    }
}

proof fn key_name_2()
    ensures
        key_vk("INSERT"@) == Some(0x2Du32),
{
    reveal_strlit("INSERT");
    reveal_strlit("HOME");
    assert("HOME"@.len() != "INSERT"@.len());
    reveal_strlit("END");
    assert("END"@.len() != "INSERT"@.len());
}

proof fn key_name_3()
    ensures
        key_vk("INS"@) == Some(0x2Du32),
{
    reveal_strlit("INS");
    reveal_strlit("HOME");
    assert("HOME"@.len() != "INS"@.len());
    reveal_strlit("END");
    assert("END"@[0] != "INS"@[0]);
    reveal_strlit("INSERT");
    assert("INSERT"@.len() != "INS"@.len());
}

proof fn key_code_2d(u: Seq<char>)
    ensures
        key_vk(u) == Some(0x2Du32) ==> (u == "INSERT"@ || u == "INS"@),
        (u == "INSERT"@ || u == "INS"@) ==> key_vk(u) == Some(0x2Du32),
{
    if u == "INSERT"@ {
        key_name_2();
    }
    if u == "INS"@ {
        key_name_3();
    }
}

proof fn key_name_4()
    ensures
        key_vk("DELETE"@) == Some(0x2Eu32),
{
    reveal_strlit("DELETE");
    reveal_strlit("HOME");
    assert("HOME"@.len() != "DELETE"@.len());
    reveal_strlit("END");
    assert("END"@.len() != "DELETE"@.len());
    reveal_strlit("INSERT");
    assert("INSERT"@[0] != "DELETE"@[0]);
    reveal_strlit("INS");
    assert("INS"@.len() != "DELETE"@.len());
}

proof fn key_name_5()
    ensures
        key_vk("DEL"@) == Some(0x2Eu32),
{
    reveal_strlit("DEL");
    reveal_strlit("HOME");
    assert("HOME"@.len() != "DEL"@.len());
    reveal_strlit("END");
    assert("END"@[0] != "DEL"@[0]);
    reveal_strlit("INSERT");
    assert("INSERT"@.len() != "DEL"@.len());
    reveal_strlit("INS");
    assert("INS"@[0] != "DEL"@[0]);
    reveal_strlit("DELETE");
    assert("DELETE"@.len() != "DEL"@.len());
}

proof fn key_code_2e(u: Seq<char>)
    ensures
        key_vk(u) == Some(0x2Eu32) ==> (u == "DELETE"@ || u == "DEL"@),
        (u == "DELETE"@ || u == "DEL"@) ==> key_vk(u) == Some(0x2Eu32),
{
    if u == "DELETE"@ {
        key_name_4();
    }
    if u == "DEL"@ {
        key_name_5();
    }
}

proof fn key_name_6()
    ensures
        key_vk("PAGEUP"@) == Some(0x21u32),
{
    reveal_strlit("PAGEUP");
    reveal_strlit("HOME");
    assert("HOME"@.len() != "PAGEUP"@.len());
    reveal_strlit("END");
    assert("END"@.len() != "PAGEUP"@.len());
    reveal_strlit("INSERT");
    assert("INSERT"@[0] != "PAGEUP"@[0]);
    reveal_strlit("INS");
    assert("INS"@.len() != "PAGEUP"@.len());
    reveal_strlit("DELETE");
    assert("DELETE"@[0] != "PAGEUP"@[0]);
    reveal_strlit("DEL");
    assert("DEL"@.len() != "PAGEUP"@.len());
}

proof fn key_name_7()
    ensures
        key_vk("PGUP"@) == Some(0x21u32),
{
    reveal_strlit("PGUP");
    reveal_strlit("HOME");
    assert("HOME"@[0] != "PGUP"@[0]);
    reveal_strlit("END");
    assert("END"@.len() != "PGUP"@.len());
    reveal_strlit("INSERT");
    assert("INSERT"@.len() != "PGUP"@.len());
    reveal_strlit("INS");
    assert("INS"@.len() != "PGUP"@.len());
    reveal_strlit("DELETE");
    assert("DELETE"@.len() != "PGUP"@.len());
    reveal_strlit("DEL");
    assert("DEL"@.len() != "PGUP"@.len());
    reveal_strlit("PAGEUP");
    assert("PAGEUP"@.len() != "PGUP"@.len());
}

proof fn key_code_21(u: Seq<char>)
    ensures
        key_vk(u) == Some(0x21u32) ==> (u == "PAGEUP"@ || u == "PGUP"@),
        (u == "PAGEUP"@ || u == "PGUP"@) ==> key_vk(u) == Some(0x21u32),
{
    if u == "PAGEUP"@ {
        key_name_6();
    }
    if u == "PGUP"@ {
        key_name_7();
    }
}

proof fn key_name_8()
    ensures
        key_vk("PAGEDOWN"@) == Some(0x22u32),
{
    reveal_strlit("PAGEDOWN");
    reveal_strlit("HOME");
    assert("HOME"@.len() != "PAGEDOWN"@.len());
    reveal_strlit("END");
    assert("END"@.len() != "PAGEDOWN"@.len());
    reveal_strlit("INSERT");
    assert("INSERT"@.len() != "PAGEDOWN"@.len());
    reveal_strlit("INS");
    assert("INS"@.len() != "PAGEDOWN"@.len());
    reveal_strlit("DELETE");
    assert("DELETE"@.len() != "PAGEDOWN"@.len());
    reveal_strlit("DEL");
    assert("DEL"@.len() != "PAGEDOWN"@.len());
    reveal_strlit("PAGEUP");
    assert("PAGEUP"@.len() != "PAGEDOWN"@.len());
    reveal_strlit("PGUP");
    assert("PGUP"@.len() != "PAGEDOWN"@.len());
}

proof fn key_name_9()
    ensures
        key_vk("PGDN"@) == Some(0x22u32),
{
    reveal_strlit("PGDN");
    reveal_strlit("HOME");
    assert("HOME"@[0] != "PGDN"@[0]);
    reveal_strlit("END");
    assert("END"@.len() != "PGDN"@.len());
    reveal_strlit("INSERT");
    assert("INSERT"@.len() != "PGDN"@.len());
    reveal_strlit("INS");
    assert("INS"@.len() != "PGDN"@.len());
    reveal_strlit("DELETE");
    assert("DELETE"@.len() != "PGDN"@.len());
    reveal_strlit("DEL");
    assert("DEL"@.len() != "PGDN"@.len());
    reveal_strlit("PAGEUP");
    assert("PAGEUP"@.len() != "PGDN"@.len());
    reveal_strlit("PGUP");
    assert("PGUP"@[2] != "PGDN"@[2]);
    reveal_strlit("PAGEDOWN");
    assert("PAGEDOWN"@.len() != "PGDN"@.len());
}

proof fn key_code_22(u: Seq<char>)
    ensures
        key_vk(u) == Some(0x22u32) ==> (u == "PAGEDOWN"@ || u == "PGDN"@),
        (u == "PAGEDOWN"@ || u == "PGDN"@) ==> key_vk(u) == Some(0x22u32),
{
    if u == "PAGEDOWN"@ {
        key_name_8();
    }
    if u == "PGDN"@ {
        key_name_9();
    }
}

proof fn key_name_10()
    ensures
        key_vk("UP"@) == Some(0x26u32),
{
    reveal_strlit("UP");
    reveal_strlit("HOME");
    assert("HOME"@.len() != "UP"@.len());
    reveal_strlit("END");
    assert("END"@.len() != "UP"@.len());
    reveal_strlit("INSERT");
    assert("INSERT"@.len() != "UP"@.len());
    reveal_strlit("INS");
    assert("INS"@.len() != "UP"@.len());
    reveal_strlit("DELETE");
    assert("DELETE"@.len() != "UP"@.len());
    reveal_strlit("DEL");
    assert("DEL"@.len() != "UP"@.len());
    reveal_strlit("PAGEUP");
    assert("PAGEUP"@.len() != "UP"@.len());
    reveal_strlit("PGUP");
    assert("PGUP"@.len() != "UP"@.len());
    reveal_strlit("PAGEDOWN");
    assert("PAGEDOWN"@.len() != "UP"@.len());
    reveal_strlit("PGDN");
    assert("PGDN"@.len() != "UP"@.len());
}

proof fn key_code_26(u: Seq<char>)
    ensures
        key_vk(u) == Some(0x26u32) ==> (u == "UP"@),
        (u == "UP"@) ==> key_vk(u) == Some(0x26u32),
{
    if u == "UP"@ {
        key_name_10();
    }
}

proof fn key_name_11()
    ensures
        key_vk("DOWN"@) == Some(0x28u32),
{
    reveal_strlit("DOWN");
    reveal_strlit("HOME");
    assert("HOME"@[0] != "DOWN"@[0]);
    reveal_strlit("END");
    assert("END"@.len() != "DOWN"@.len());
    reveal_strlit("INSERT");
    assert("INSERT"@.len() != "DOWN"@.len());
    reveal_strlit("INS");
    assert("INS"@.len() != "DOWN"@.len());
    reveal_strlit("DELETE");
    assert("DELETE"@.len() != "DOWN"@.len());
    reveal_strlit("DEL");
    assert("DEL"@.len() != "DOWN"@.len());
    reveal_strlit("PAGEUP");
    assert("PAGEUP"@.len() != "DOWN"@.len());
    reveal_strlit("PGUP");
    assert("PGUP"@[0] != "DOWN"@[0]);
    reveal_strlit("PAGEDOWN");
    assert("PAGEDOWN"@.len() != "DOWN"@.len());
    reveal_strlit("PGDN");
    assert("PGDN"@[0] != "DOWN"@[0]);
    reveal_strlit("UP");
    assert("UP"@.len() != "DOWN"@.len());
}

proof fn key_code_28(u: Seq<char>)
    ensures
        key_vk(u) == Some(0x28u32) ==> (u == "DOWN"@),
        (u == "DOWN"@) ==> key_vk(u) == Some(0x28u32),
{
    if u == "DOWN"@ {
        key_name_11();
    }
}

proof fn key_name_12()
    ensures
        key_vk("LEFT"@) == Some(0x25u32),
{
    reveal_strlit("LEFT");
    reveal_strlit("HOME");
    assert("HOME"@[0] != "LEFT"@[0]);
    reveal_strlit("END");
    assert("END"@.len() != "LEFT"@.len());
    reveal_strlit("INSERT");
    assert("INSERT"@.len() != "LEFT"@.len());
    reveal_strlit("INS");
    assert("INS"@.len() != "LEFT"@.len());
    reveal_strlit("DELETE");
    assert("DELETE"@.len() != "LEFT"@.len());
    reveal_strlit("DEL");
    assert("DEL"@.len() != "LEFT"@.len());
    reveal_strlit("PAGEUP");
    assert("PAGEUP"@.len() != "LEFT"@.len());
    reveal_strlit("PGUP");
    assert("PGUP"@[0] != "LEFT"@[0]);
    reveal_strlit("PAGEDOWN");
    assert("PAGEDOWN"@.len() != "LEFT"@.len());
    reveal_strlit("PGDN");
    assert("PGDN"@[0] != "LEFT"@[0]);
    reveal_strlit("UP");
    assert("UP"@.len() != "LEFT"@.len());
    reveal_strlit("DOWN");
    assert("DOWN"@[0] != "LEFT"@[0]);
}

proof fn key_code_25(u: Seq<char>)
    ensures
        key_vk(u) == Some(0x25u32) ==> (u == "LEFT"@),
        (u == "LEFT"@) ==> key_vk(u) == Some(0x25u32),
{
    if u == "LEFT"@ {
        key_name_12();
    }
}

proof fn key_name_13()
    ensures
        key_vk("RIGHT"@) == Some(0x27u32),
{
    reveal_strlit("RIGHT");
    reveal_strlit("HOME");
    assert("HOME"@.len() != "RIGHT"@.len());
    reveal_strlit("END");
    assert("END"@.len() != "RIGHT"@.len());
    reveal_strlit("INSERT");
    assert("INSERT"@.len() != "RIGHT"@.len());
    reveal_strlit("INS");
    assert("INS"@.len() != "RIGHT"@.len());
    reveal_strlit("DELETE");
    assert("DELETE"@.len() != "RIGHT"@.len());
    reveal_strlit("DEL");
    assert("DEL"@.len() != "RIGHT"@.len());
    reveal_strlit("PAGEUP");
    assert("PAGEUP"@.len() != "RIGHT"@.len());
    reveal_strlit("PGUP");
    assert("PGUP"@.len() != "RIGHT"@.len());
    reveal_strlit("PAGEDOWN");
    assert("PAGEDOWN"@.len() != "RIGHT"@.len());
    reveal_strlit("PGDN");
    assert("PGDN"@.len() != "RIGHT"@.len());
    reveal_strlit("UP");
    assert("UP"@.len() != "RIGHT"@.len());
    reveal_strlit("DOWN");
    assert("DOWN"@.len() != "RIGHT"@.len());
    reveal_strlit("LEFT");
    assert("LEFT"@.len() != "RIGHT"@.len());
}

proof fn key_code_27(u: Seq<char>)
    ensures
        key_vk(u) == Some(0x27u32) ==> (u == "RIGHT"@),
        (u == "RIGHT"@) ==> key_vk(u) == Some(0x27u32),
{
    if u == "RIGHT"@ {
        key_name_13();
    }
}

proof fn key_name_14()
    ensures
        key_vk("SPACE"@) == Some(0x20u32),
{
    reveal_strlit("SPACE");
    reveal_strlit("HOME");
    assert("HOME"@.len() != "SPACE"@.len());
    reveal_strlit("END");
    assert("END"@.len() != "SPACE"@.len());
    reveal_strlit("INSERT");
    assert("INSERT"@.len() != "SPACE"@.len());
    reveal_strlit("INS");
    assert("INS"@.len() != "SPACE"@.len());
    reveal_strlit("DELETE");
    assert("DELETE"@.len() != "SPACE"@.len());
    reveal_strlit("DEL");
    assert("DEL"@.len() != "SPACE"@.len());
    reveal_strlit("PAGEUP");
    assert("PAGEUP"@.len() != "SPACE"@.len());
    reveal_strlit("PGUP");
    assert("PGUP"@.len() != "SPACE"@.len());
    reveal_strlit("PAGEDOWN");
    assert("PAGEDOWN"@.len() != "SPACE"@.len());
    reveal_strlit("PGDN");
    assert("PGDN"@.len() != "SPACE"@.len());
    reveal_strlit("UP");
    assert("UP"@.len() != "SPACE"@.len());
    reveal_strlit("DOWN");
    assert("DOWN"@.len() != "SPACE"@.len());
    reveal_strlit("LEFT");
    assert("LEFT"@.len() != "SPACE"@.len());
    reveal_strlit("RIGHT");
    assert("RIGHT"@[0] != "SPACE"@[0]);
}

proof fn key_code_20(u: Seq<char>)
    ensures
        key_vk(u) == Some(0x20u32) ==> (u == "SPACE"@),
        (u == "SPACE"@) ==> key_vk(u) == Some(0x20u32),
{
    if u == "SPACE"@ {
        key_name_14();
    }
}

proof fn key_name_15()
    ensures
        key_vk("TAB"@) == Some(0x09u32),
{
    reveal_strlit("TAB");
    reveal_strlit("HOME");
    assert("HOME"@.len() != "TAB"@.len());
    reveal_strlit("END");
    assert("END"@[0] != "TAB"@[0]);
    reveal_strlit("INSERT");
    assert("INSERT"@.len() != "TAB"@.len());
    reveal_strlit("INS");
    assert("INS"@[0] != "TAB"@[0]);
    reveal_strlit("DELETE");
    assert("DELETE"@.len() != "TAB"@.len());
    reveal_strlit("DEL");
    assert("DEL"@[0] != "TAB"@[0]);
    reveal_strlit("PAGEUP");
    assert("PAGEUP"@.len() != "TAB"@.len());
    reveal_strlit("PGUP");
    assert("PGUP"@.len() != "TAB"@.len());
    reveal_strlit("PAGEDOWN");
    assert("PAGEDOWN"@.len() != "TAB"@.len());
    reveal_strlit("PGDN");
    assert("PGDN"@.len() != "TAB"@.len());
    reveal_strlit("UP");
    assert("UP"@.len() != "TAB"@.len());
    reveal_strlit("DOWN");
    assert("DOWN"@.len() != "TAB"@.len());
    reveal_strlit("LEFT");
    assert("LEFT"@.len() != "TAB"@.len());
    reveal_strlit("RIGHT");
    assert("RIGHT"@.len() != "TAB"@.len());
    reveal_strlit("SPACE");
    assert("SPACE"@.len() != "TAB"@.len());
}

proof fn key_code_09(u: Seq<char>)
    ensures
        key_vk(u) == Some(0x09u32) ==> (u == "TAB"@),
        (u == "TAB"@) ==> key_vk(u) == Some(0x09u32),
{
    if u == "TAB"@ {
        key_name_15();
    }
}

proof fn key_name_16()
    ensures
        key_vk("ENTER"@) == Some(0x0Du32),
{
    reveal_strlit("ENTER");
    reveal_strlit("HOME");
    assert("HOME"@.len() != "ENTER"@.len());
    reveal_strlit("END");
    assert("END"@.len() != "ENTER"@.len());
    reveal_strlit("INSERT");
    assert("INSERT"@.len() != "ENTER"@.len());
    reveal_strlit("INS");
    assert("INS"@.len() != "ENTER"@.len());
    reveal_strlit("DELETE");
    assert("DELETE"@.len() != "ENTER"@.len());
    reveal_strlit("DEL");
    assert("DEL"@.len() != "ENTER"@.len());
    reveal_strlit("PAGEUP");
    assert("PAGEUP"@.len() != "ENTER"@.len());
    reveal_strlit("PGUP");
    assert("PGUP"@.len() != "ENTER"@.len());
    reveal_strlit("PAGEDOWN");
    assert("PAGEDOWN"@.len() != "ENTER"@.len());
    reveal_strlit("PGDN");
    assert("PGDN"@.len() != "ENTER"@.len());
    reveal_strlit("UP");
    assert("UP"@.len() != "ENTER"@.len());
    reveal_strlit("DOWN");
    assert("DOWN"@.len() != "ENTER"@.len());
    reveal_strlit("LEFT");
    assert("LEFT"@.len() != "ENTER"@.len());
    reveal_strlit("RIGHT");
    assert("RIGHT"@[0] != "ENTER"@[0]);
    reveal_strlit("SPACE");
    assert("SPACE"@[0] != "ENTER"@[0]);
    reveal_strlit("TAB");
    assert("TAB"@.len() != "ENTER"@.len());
}

proof fn key_name_17()
    ensures
        key_vk("RETURN"@) == Some(0x0Du32),
{
    reveal_strlit("RETURN");
    reveal_strlit("HOME");
    assert("HOME"@.len() != "RETURN"@.len());
    reveal_strlit("END");
    assert("END"@.len() != "RETURN"@.len());
    reveal_strlit("INSERT");
    assert("INSERT"@[0] != "RETURN"@[0]);
    reveal_strlit("INS");
    assert("INS"@.len() != "RETURN"@.len());
    reveal_strlit("DELETE");
    assert("DELETE"@[0] != "RETURN"@[0]);
    reveal_strlit("DEL");
    assert("DEL"@.len() != "RETURN"@.len());
    reveal_strlit("PAGEUP");
    assert("PAGEUP"@[0] != "RETURN"@[0]);
    reveal_strlit("PGUP");
    assert("PGUP"@.len() != "RETURN"@.len());
    reveal_strlit("PAGEDOWN");
    assert("PAGEDOWN"@.len() != "RETURN"@.len());
    reveal_strlit("PGDN");
    assert("PGDN"@.len() != "RETURN"@.len());
    reveal_strlit("UP");
    assert("UP"@.len() != "RETURN"@.len());
    reveal_strlit("DOWN");
    assert("DOWN"@.len() != "RETURN"@.len());
    reveal_strlit("LEFT");
    assert("LEFT"@.len() != "RETURN"@.len());
    reveal_strlit("RIGHT");
    assert("RIGHT"@.len() != "RETURN"@.len());
    reveal_strlit("SPACE");
    assert("SPACE"@.len() != "RETURN"@.len());
    reveal_strlit("TAB");
    assert("TAB"@.len() != "RETURN"@.len());
    reveal_strlit("ENTER");
    assert("ENTER"@.len() != "RETURN"@.len());
}

proof fn key_code_0d(u: Seq<char>)
    ensures
        key_vk(u) == Some(0x0Du32) ==> (u == "ENTER"@ || u == "RETURN"@),
        (u == "ENTER"@ || u == "RETURN"@) ==> key_vk(u) == Some(0x0Du32),
{
    if u == "ENTER"@ {
        key_name_16();
    }
    if u == "RETURN"@ {
        key_name_17();
    }
}

proof fn key_name_18()
    ensures
        key_vk("BACKSPACE"@) == Some(0x08u32),
{
    reveal_strlit("BACKSPACE");
    reveal_strlit("HOME");
    assert("HOME"@.len() != "BACKSPACE"@.len());
    reveal_strlit("END");
    assert("END"@.len() != "BACKSPACE"@.len());
    reveal_strlit("INSERT");
    assert("INSERT"@.len() != "BACKSPACE"@.len());
    reveal_strlit("INS");
    assert("INS"@.len() != "BACKSPACE"@.len());
    reveal_strlit("DELETE");
    assert("DELETE"@.len() != "BACKSPACE"@.len());
    reveal_strlit("DEL");
    assert("DEL"@.len() != "BACKSPACE"@.len());
    reveal_strlit("PAGEUP");
    assert("PAGEUP"@.len() != "BACKSPACE"@.len());
    reveal_strlit("PGUP");
    assert("PGUP"@.len() != "BACKSPACE"@.len());
    reveal_strlit("PAGEDOWN");
    assert("PAGEDOWN"@.len() != "BACKSPACE"@.len());
    reveal_strlit("PGDN");
    assert("PGDN"@.len() != "BACKSPACE"@.len());
    reveal_strlit("UP");
    assert("UP"@.len() != "BACKSPACE"@.len());
    reveal_strlit("DOWN");
    assert("DOWN"@.len() != "BACKSPACE"@.len());
    reveal_strlit("LEFT");
    assert("LEFT"@.len() != "BACKSPACE"@.len());
    reveal_strlit("RIGHT");
    assert("RIGHT"@.len() != "BACKSPACE"@.len());
    reveal_strlit("SPACE");
    assert("SPACE"@.len() != "BACKSPACE"@.len());
    reveal_strlit("TAB");
    assert("TAB"@.len() != "BACKSPACE"@.len());
    reveal_strlit("ENTER");
    assert("ENTER"@.len() != "BACKSPACE"@.len());
    reveal_strlit("RETURN");
    assert("RETURN"@.len() != "BACKSPACE"@.len());
}

proof fn key_name_19()
    ensures
        key_vk("BACK"@) == Some(0x08u32),
{
    reveal_strlit("BACK");
    reveal_strlit("HOME");
    assert("HOME"@[0] != "BACK"@[0]);
    reveal_strlit("END");
    assert("END"@.len() != "BACK"@.len());
    reveal_strlit("INSERT");
    assert("INSERT"@.len() != "BACK"@.len());
    reveal_strlit("INS");
    assert("INS"@.len() != "BACK"@.len());
    reveal_strlit("DELETE");
    assert("DELETE"@.len() != "BACK"@.len());
    reveal_strlit("DEL");
    assert("DEL"@.len() != "BACK"@.len());
    reveal_strlit("PAGEUP");
    assert("PAGEUP"@.len() != "BACK"@.len());
    reveal_strlit("PGUP");
    assert("PGUP"@[0] != "BACK"@[0]);
    reveal_strlit("PAGEDOWN");
    assert("PAGEDOWN"@.len() != "BACK"@.len());
    reveal_strlit("PGDN");
    assert("PGDN"@[0] != "BACK"@[0]);
    reveal_strlit("UP");
    assert("UP"@.len() != "BACK"@.len());
    reveal_strlit("DOWN");
    assert("DOWN"@[0] != "BACK"@[0]);
    reveal_strlit("LEFT");
    assert("LEFT"@[0] != "BACK"@[0]);
    reveal_strlit("RIGHT");
    assert("RIGHT"@.len() != "BACK"@.len());
    reveal_strlit("SPACE");
    assert("SPACE"@.len() != "BACK"@.len());
    reveal_strlit("TAB");
    assert("TAB"@.len() != "BACK"@.len());
    reveal_strlit("ENTER");
    assert("ENTER"@.len() != "BACK"@.len());
    reveal_strlit("RETURN");
    assert("RETURN"@.len() != "BACK"@.len());
    reveal_strlit("BACKSPACE");
    assert("BACKSPACE"@.len() != "BACK"@.len());
}

proof fn key_code_08(u: Seq<char>)
    ensures
        key_vk(u) == Some(0x08u32) ==> (u == "BACKSPACE"@ || u == "BACK"@),
        (u == "BACKSPACE"@ || u == "BACK"@) ==> key_vk(u) == Some(0x08u32),
{
    if u == "BACKSPACE"@ {
        key_name_18();
    }
    if u == "BACK"@ {
        key_name_19();
    }
}

proof fn key_name_20()
    ensures
        key_vk("ESC"@) == Some(0x1Bu32),
{
    reveal_strlit("ESC");
    reveal_strlit("HOME");
    assert("HOME"@.len() != "ESC"@.len());
    reveal_strlit("END");
    assert("END"@[1] != "ESC"@[1]);
    reveal_strlit("INSERT");
    assert("INSERT"@.len() != "ESC"@.len());
    reveal_strlit("INS");
    assert("INS"@[0] != "ESC"@[0]);
    reveal_strlit("DELETE");
    assert("DELETE"@.len() != "ESC"@.len());
    reveal_strlit("DEL");
    assert("DEL"@[0] != "ESC"@[0]);
    reveal_strlit("PAGEUP");
    assert("PAGEUP"@.len() != "ESC"@.len());
    reveal_strlit("PGUP");
    assert("PGUP"@.len() != "ESC"@.len());
    reveal_strlit("PAGEDOWN");
    assert("PAGEDOWN"@.len() != "ESC"@.len());
    reveal_strlit("PGDN");
    assert("PGDN"@.len() != "ESC"@.len());
    reveal_strlit("UP");
    assert("UP"@.len() != "ESC"@.len());
    reveal_strlit("DOWN");
    assert("DOWN"@.len() != "ESC"@.len());
    reveal_strlit("LEFT");
    assert("LEFT"@.len() != "ESC"@.len());
    reveal_strlit("RIGHT");
    assert("RIGHT"@.len() != "ESC"@.len());
    reveal_strlit("SPACE");
    assert("SPACE"@.len() != "ESC"@.len());
    reveal_strlit("TAB");
    assert("TAB"@[0] != "ESC"@[0]);
    reveal_strlit("ENTER");
    assert("ENTER"@.len() != "ESC"@.len());
    reveal_strlit("RETURN");
    assert("RETURN"@.len() != "ESC"@.len());
    reveal_strlit("BACKSPACE");
    assert("BACKSPACE"@.len() != "ESC"@.len());
    reveal_strlit("BACK");
    assert("BACK"@.len() != "ESC"@.len());
}

proof fn key_name_21()
    ensures
        key_vk("ESCAPE"@) == Some(0x1Bu32),
{
    reveal_strlit("ESCAPE");
    reveal_strlit("HOME");
    assert("HOME"@.len() != "ESCAPE"@.len());
    reveal_strlit("END");
    assert("END"@.len() != "ESCAPE"@.len());
    reveal_strlit("INSERT");
    assert("INSERT"@[0] != "ESCAPE"@[0]);
    reveal_strlit("INS");
    assert("INS"@.len() != "ESCAPE"@.len());
    reveal_strlit("DELETE");
    assert("DELETE"@[0] != "ESCAPE"@[0]);
    reveal_strlit("DEL");
    assert("DEL"@.len() != "ESCAPE"@.len());
    reveal_strlit("PAGEUP");
    assert("PAGEUP"@[0] != "ESCAPE"@[0]);
    reveal_strlit("PGUP");
    assert("PGUP"@.len() != "ESCAPE"@.len());
    reveal_strlit("PAGEDOWN");
    assert("PAGEDOWN"@.len() != "ESCAPE"@.len());
    reveal_strlit("PGDN");
    assert("PGDN"@.len() != "ESCAPE"@.len());
    reveal_strlit("UP");
    assert("UP"@.len() != "ESCAPE"@.len());
    reveal_strlit("DOWN");
    assert("DOWN"@.len() != "ESCAPE"@.len());
    reveal_strlit("LEFT");
    assert("LEFT"@.len() != "ESCAPE"@.len());
    reveal_strlit("RIGHT");
    assert("RIGHT"@.len() != "ESCAPE"@.len());
    reveal_strlit("SPACE");
    assert("SPACE"@.len() != "ESCAPE"@.len());
    reveal_strlit("TAB");
    assert("TAB"@.len() != "ESCAPE"@.len());
    reveal_strlit("ENTER");
    assert("ENTER"@.len() != "ESCAPE"@.len());
    reveal_strlit("RETURN");
    assert("RETURN"@[0] != "ESCAPE"@[0]);
    reveal_strlit("BACKSPACE");
    assert("BACKSPACE"@.len() != "ESCAPE"@.len());
    reveal_strlit("BACK");
    assert("BACK"@.len() != "ESCAPE"@.len());
    reveal_strlit("ESC");
    assert("ESC"@.len() != "ESCAPE"@.len());
}

proof fn key_code_1b(u: Seq<char>)
    ensures
        key_vk(u) == Some(0x1Bu32) ==> (u == "ESC"@ || u == "ESCAPE"@),
        (u == "ESC"@ || u == "ESCAPE"@) ==> key_vk(u) == Some(0x1Bu32),
{
    if u == "ESC"@ {
        key_name_20();
    }
    if u == "ESCAPE"@ {
        key_name_21();
    }
}

proof fn key_name_22()
    ensures
        key_vk("CAPSLOCK"@) == Some(0x14u32),
{
    reveal_strlit("CAPSLOCK");
    reveal_strlit("HOME");
    assert("HOME"@.len() != "CAPSLOCK"@.len());
    reveal_strlit("END");
    assert("END"@.len() != "CAPSLOCK"@.len());
    reveal_strlit("INSERT");
    assert("INSERT"@.len() != "CAPSLOCK"@.len());
    reveal_strlit("INS");
    assert("INS"@.len() != "CAPSLOCK"@.len());
    reveal_strlit("DELETE");
    assert("DELETE"@.len() != "CAPSLOCK"@.len());
    reveal_strlit("DEL");
    assert("DEL"@.len() != "CAPSLOCK"@.len());
    reveal_strlit("PAGEUP");
    assert("PAGEUP"@.len() != "CAPSLOCK"@.len());
    reveal_strlit("PGUP");
    assert("PGUP"@.len() != "CAPSLOCK"@.len());
    reveal_strlit("PAGEDOWN");
    assert("PAGEDOWN"@[0] != "CAPSLOCK"@[0]);
    reveal_strlit("PGDN");
    assert("PGDN"@.len() != "CAPSLOCK"@.len());
    reveal_strlit("UP");
    assert("UP"@.len() != "CAPSLOCK"@.len());
    reveal_strlit("DOWN");
    assert("DOWN"@.len() != "CAPSLOCK"@.len());
    reveal_strlit("LEFT");
    assert("LEFT"@.len() != "CAPSLOCK"@.len());
    reveal_strlit("RIGHT");
    assert("RIGHT"@.len() != "CAPSLOCK"@.len());
    reveal_strlit("SPACE");
    assert("SPACE"@.len() != "CAPSLOCK"@.len());
    reveal_strlit("TAB");
    assert("TAB"@.len() != "CAPSLOCK"@.len());
    reveal_strlit("ENTER");
    assert("ENTER"@.len() != "CAPSLOCK"@.len());
    reveal_strlit("RETURN");
    assert("RETURN"@.len() != "CAPSLOCK"@.len());
    reveal_strlit("BACKSPACE");
    assert("BACKSPACE"@.len() != "CAPSLOCK"@.len());
    reveal_strlit("BACK");
    assert("BACK"@.len() != "CAPSLOCK"@.len());
    reveal_strlit("ESC");
    assert("ESC"@.len() != "CAPSLOCK"@.len());
    reveal_strlit("ESCAPE");
    assert("ESCAPE"@.len() != "CAPSLOCK"@.len());
}

proof fn key_code_14(u: Seq<char>)
    ensures
        key_vk(u) == Some(0x14u32) ==> (u == "CAPSLOCK"@),
        (u == "CAPSLOCK"@) ==> key_vk(u) == Some(0x14u32),
{
    if u == "CAPSLOCK"@ {
        key_name_22();
    }
}

proof fn key_name_23()
    ensures
        key_vk("SCROLLLOCK"@) == Some(0x91u32),
{
    reveal_strlit("SCROLLLOCK");
    reveal_strlit("HOME");
    assert("HOME"@.len() != "SCROLLLOCK"@.len());
    reveal_strlit("END");
    assert("END"@.len() != "SCROLLLOCK"@.len());
    reveal_strlit("INSERT");
    assert("INSERT"@.len() != "SCROLLLOCK"@.len());
    reveal_strlit("INS");
    assert("INS"@.len() != "SCROLLLOCK"@.len());
    reveal_strlit("DELETE");
    assert("DELETE"@.len() != "SCROLLLOCK"@.len());
    reveal_strlit("DEL");
    assert("DEL"@.len() != "SCROLLLOCK"@.len());
    reveal_strlit("PAGEUP");
    assert("PAGEUP"@.len() != "SCROLLLOCK"@.len());
    reveal_strlit("PGUP");
    assert("PGUP"@.len() != "SCROLLLOCK"@.len());
    reveal_strlit("PAGEDOWN");
    assert("PAGEDOWN"@.len() != "SCROLLLOCK"@.len());
    reveal_strlit("PGDN");
    assert("PGDN"@.len() != "SCROLLLOCK"@.len());
    reveal_strlit("UP");
    assert("UP"@.len() != "SCROLLLOCK"@.len());
    reveal_strlit("DOWN");
    assert("DOWN"@.len() != "SCROLLLOCK"@.len());
    reveal_strlit("LEFT");
    assert("LEFT"@.len() != "SCROLLLOCK"@.len());
    reveal_strlit("RIGHT");
    assert("RIGHT"@.len() != "SCROLLLOCK"@.len());
    reveal_strlit("SPACE");
    assert("SPACE"@.len() != "SCROLLLOCK"@.len());
    reveal_strlit("TAB");
    assert("TAB"@.len() != "SCROLLLOCK"@.len());
    reveal_strlit("ENTER");
    assert("ENTER"@.len() != "SCROLLLOCK"@.len());
    reveal_strlit("RETURN");
    assert("RETURN"@.len() != "SCROLLLOCK"@.len());
    reveal_strlit("BACKSPACE");
    assert("BACKSPACE"@.len() != "SCROLLLOCK"@.len());
    reveal_strlit("BACK");
    assert("BACK"@.len() != "SCROLLLOCK"@.len());
    reveal_strlit("ESC");
    assert("ESC"@.len() != "SCROLLLOCK"@.len());
    reveal_strlit("ESCAPE");
    assert("ESCAPE"@.len() != "SCROLLLOCK"@.len());
    reveal_strlit("CAPSLOCK");
    assert("CAPSLOCK"@.len() != "SCROLLLOCK"@.len());
}

proof fn key_code_91(u: Seq<char>)
    ensures
        key_vk(u) == Some(0x91u32) ==> (u == "SCROLLLOCK"@),
        (u == "SCROLLLOCK"@) ==> key_vk(u) == Some(0x91u32),
{
    if u == "SCROLLLOCK"@ {
        key_name_23();
    }
}

proof fn key_name_24()
    ensures
        key_vk("PAUSE"@) == Some(0x13u32),
{
    reveal_strlit("PAUSE");
    reveal_strlit("HOME");
    assert("HOME"@.len() != "PAUSE"@.len());
    reveal_strlit("END");
    assert("END"@.len() != "PAUSE"@.len());
    reveal_strlit("INSERT");
    assert("INSERT"@.len() != "PAUSE"@.len());
    reveal_strlit("INS");
    assert("INS"@.len() != "PAUSE"@.len());
    reveal_strlit("DELETE");
    assert("DELETE"@.len() != "PAUSE"@.len());
    reveal_strlit("DEL");
    assert("DEL"@.len() != "PAUSE"@.len());
    reveal_strlit("PAGEUP");
    assert("PAGEUP"@.len() != "PAUSE"@.len());
    reveal_strlit("PGUP");
    assert("PGUP"@.len() != "PAUSE"@.len());
    reveal_strlit("PAGEDOWN");
    assert("PAGEDOWN"@.len() != "PAUSE"@.len());
    reveal_strlit("PGDN");
    assert("PGDN"@.len() != "PAUSE"@.len());
    reveal_strlit("UP");
    assert("UP"@.len() != "PAUSE"@.len());
    reveal_strlit("DOWN");
    assert("DOWN"@.len() != "PAUSE"@.len());
    reveal_strlit("LEFT");
    assert("LEFT"@.len() != "PAUSE"@.len());
    reveal_strlit("RIGHT");
    assert("RIGHT"@[0] != "PAUSE"@[0]);
    reveal_strlit("SPACE");
    assert("SPACE"@[0] != "PAUSE"@[0]);
    reveal_strlit("TAB");
    assert("TAB"@.len() != "PAUSE"@.len());
    reveal_strlit("ENTER");
    assert("ENTER"@[0] != "PAUSE"@[0]);
    reveal_strlit("RETURN");
    assert("RETURN"@.len() != "PAUSE"@.len());
    reveal_strlit("BACKSPACE");
    assert("BACKSPACE"@.len() != "PAUSE"@.len());
    reveal_strlit("BACK");
    assert("BACK"@.len() != "PAUSE"@.len());
    reveal_strlit("ESC");
    assert("ESC"@.len() != "PAUSE"@.len());
    reveal_strlit("ESCAPE");
    assert("ESCAPE"@.len() != "PAUSE"@.len());
    reveal_strlit("CAPSLOCK");
    assert("CAPSLOCK"@.len() != "PAUSE"@.len());
    reveal_strlit("SCROLLLOCK");
    assert("SCROLLLOCK"@.len() != "PAUSE"@.len());
}

proof fn key_name_25()
    ensures
        key_vk("BREAK"@) == Some(0x13u32),
{
    reveal_strlit("BREAK");
    reveal_strlit("HOME");
    assert("HOME"@.len() != "BREAK"@.len());
    reveal_strlit("END");
    assert("END"@.len() != "BREAK"@.len());
    reveal_strlit("INSERT");
    assert("INSERT"@.len() != "BREAK"@.len());
    reveal_strlit("INS");
    assert("INS"@.len() != "BREAK"@.len());
    reveal_strlit("DELETE");
    assert("DELETE"@.len() != "BREAK"@.len());
    reveal_strlit("DEL");
    assert("DEL"@.len() != "BREAK"@.len());
    reveal_strlit("PAGEUP");
    assert("PAGEUP"@.len() != "BREAK"@.len());
    reveal_strlit("PGUP");
    assert("PGUP"@.len() != "BREAK"@.len());
    reveal_strlit("PAGEDOWN");
    assert("PAGEDOWN"@.len() != "BREAK"@.len());
    reveal_strlit("PGDN");
    assert("PGDN"@.len() != "BREAK"@.len());
    reveal_strlit("UP");
    assert("UP"@.len() != "BREAK"@.len());
    reveal_strlit("DOWN");
    assert("DOWN"@.len() != "BREAK"@.len());
    reveal_strlit("LEFT");
    assert("LEFT"@.len() != "BREAK"@.len());
    reveal_strlit("RIGHT");
    assert("RIGHT"@[0] != "BREAK"@[0]);
    reveal_strlit("SPACE");
    assert("SPACE"@[0] != "BREAK"@[0]);
    reveal_strlit("TAB");
    assert("TAB"@.len() != "BREAK"@.len());
    reveal_strlit("ENTER");
    assert("ENTER"@[0] != "BREAK"@[0]);
    reveal_strlit("RETURN");
    assert("RETURN"@.len() != "BREAK"@.len());
    reveal_strlit("BACKSPACE");
    assert("BACKSPACE"@.len() != "BREAK"@.len());
    reveal_strlit("BACK");
    assert("BACK"@.len() != "BREAK"@.len());
    reveal_strlit("ESC");
    assert("ESC"@.len() != "BREAK"@.len());
    reveal_strlit("ESCAPE");
    assert("ESCAPE"@.len() != "BREAK"@.len());
    reveal_strlit("CAPSLOCK");
    assert("CAPSLOCK"@.len() != "BREAK"@.len());
    reveal_strlit("SCROLLLOCK");
    assert("SCROLLLOCK"@.len() != "BREAK"@.len());
    reveal_strlit("PAUSE");
    assert("PAUSE"@[0] != "BREAK"@[0]);
}

proof fn key_code_13(u: Seq<char>)
    ensures
        key_vk(u) == Some(0x13u32) ==> (u == "PAUSE"@ || u == "BREAK"@),
        (u == "PAUSE"@ || u == "BREAK"@) ==> key_vk(u) == Some(0x13u32),
{
    if u == "PAUSE"@ {
        key_name_24();
    }
    if u == "BREAK"@ {
        key_name_25();
    }
}

proof fn key_name_26()
    ensures
        key_vk("PRINTSCREEN"@) == Some(0x2Cu32),
{
    reveal_strlit("PRINTSCREEN");
    reveal_strlit("HOME");
    assert("HOME"@.len() != "PRINTSCREEN"@.len());
    reveal_strlit("END");
    assert("END"@.len() != "PRINTSCREEN"@.len());
    reveal_strlit("INSERT");
    assert("INSERT"@.len() != "PRINTSCREEN"@.len());
    reveal_strlit("INS");
    assert("INS"@.len() != "PRINTSCREEN"@.len());
    reveal_strlit("DELETE");
    assert("DELETE"@.len() != "PRINTSCREEN"@.len());
    reveal_strlit("DEL");
    assert("DEL"@.len() != "PRINTSCREEN"@.len());
    reveal_strlit("PAGEUP");
    assert("PAGEUP"@.len() != "PRINTSCREEN"@.len());
    reveal_strlit("PGUP");
    assert("PGUP"@.len() != "PRINTSCREEN"@.len());
    reveal_strlit("PAGEDOWN");
    assert("PAGEDOWN"@.len() != "PRINTSCREEN"@.len());
    reveal_strlit("PGDN");
    assert("PGDN"@.len() != "PRINTSCREEN"@.len());
    reveal_strlit("UP");
    assert("UP"@.len() != "PRINTSCREEN"@.len());
    reveal_strlit("DOWN");
    assert("DOWN"@.len() != "PRINTSCREEN"@.len());
    reveal_strlit("LEFT");
    assert("LEFT"@.len() != "PRINTSCREEN"@.len());
    reveal_strlit("RIGHT");
    assert("RIGHT"@.len() != "PRINTSCREEN"@.len());
    reveal_strlit("SPACE");
    assert("SPACE"@.len() != "PRINTSCREEN"@.len());
    reveal_strlit("TAB");
    assert("TAB"@.len() != "PRINTSCREEN"@.len());
    reveal_strlit("ENTER");
    assert("ENTER"@.len() != "PRINTSCREEN"@.len());
    reveal_strlit("RETURN");
    assert("RETURN"@.len() != "PRINTSCREEN"@.len());
    reveal_strlit("BACKSPACE");
    assert("BACKSPACE"@.len() != "PRINTSCREEN"@.len());
    reveal_strlit("BACK");
    assert("BACK"@.len() != "PRINTSCREEN"@.len());
    reveal_strlit("ESC");
    assert("ESC"@.len() != "PRINTSCREEN"@.len());
    reveal_strlit("ESCAPE");
    assert("ESCAPE"@.len() != "PRINTSCREEN"@.len());
    reveal_strlit("CAPSLOCK");
    assert("CAPSLOCK"@.len() != "PRINTSCREEN"@.len());
    reveal_strlit("SCROLLLOCK");
    assert("SCROLLLOCK"@.len() != "PRINTSCREEN"@.len());
    reveal_strlit("PAUSE");
    assert("PAUSE"@.len() != "PRINTSCREEN"@.len());
    reveal_strlit("BREAK");
    assert("BREAK"@.len() != "PRINTSCREEN"@.len());
}

proof fn key_name_27()
    ensures
        key_vk("PRTSC"@) == Some(0x2Cu32),
{
    reveal_strlit("PRTSC");
    reveal_strlit("HOME");
    assert("HOME"@.len() != "PRTSC"@.len());
    reveal_strlit("END");
    assert("END"@.len() != "PRTSC"@.len());
    reveal_strlit("INSERT");
    assert("INSERT"@.len() != "PRTSC"@.len());
    reveal_strlit("INS");
    assert("INS"@.len() != "PRTSC"@.len());
    reveal_strlit("DELETE");
    assert("DELETE"@.len() != "PRTSC"@.len());
    reveal_strlit("DEL");
    assert("DEL"@.len() != "PRTSC"@.len());
    reveal_strlit("PAGEUP");
    assert("PAGEUP"@.len() != "PRTSC"@.len());
    reveal_strlit("PGUP");
    assert("PGUP"@.len() != "PRTSC"@.len());
    reveal_strlit("PAGEDOWN");
    assert("PAGEDOWN"@.len() != "PRTSC"@.len());
    reveal_strlit("PGDN");
    assert("PGDN"@.len() != "PRTSC"@.len());
    reveal_strlit("UP");
    assert("UP"@.len() != "PRTSC"@.len());
    reveal_strlit("DOWN");
    assert("DOWN"@.len() != "PRTSC"@.len());
    reveal_strlit("LEFT");
    assert("LEFT"@.len() != "PRTSC"@.len());
    reveal_strlit("RIGHT");
    assert("RIGHT"@[0] != "PRTSC"@[0]);
    reveal_strlit("SPACE");
    assert("SPACE"@[0] != "PRTSC"@[0]);
    reveal_strlit("TAB");
    assert("TAB"@.len() != "PRTSC"@.len());
    reveal_strlit("ENTER");
    assert("ENTER"@[0] != "PRTSC"@[0]);
    reveal_strlit("RETURN");
    assert("RETURN"@.len() != "PRTSC"@.len());
    reveal_strlit("BACKSPACE");
    assert("BACKSPACE"@.len() != "PRTSC"@.len());
    reveal_strlit("BACK");
    assert("BACK"@.len() != "PRTSC"@.len());
    reveal_strlit("ESC");
    assert("ESC"@.len() != "PRTSC"@.len());
    reveal_strlit("ESCAPE");
    assert("ESCAPE"@.len() != "PRTSC"@.len());
    reveal_strlit("CAPSLOCK");
    assert("CAPSLOCK"@.len() != "PRTSC"@.len());
    reveal_strlit("SCROLLLOCK");
    assert("SCROLLLOCK"@.len() != "PRTSC"@.len());
    reveal_strlit("PAUSE");
    assert("PAUSE"@[1] != "PRTSC"@[1]);
    reveal_strlit("BREAK");
    assert("BREAK"@[0] != "PRTSC"@[0]);
    reveal_strlit("PRINTSCREEN");
    assert("PRINTSCREEN"@.len() != "PRTSC"@.len());
}

proof fn key_code_2c(u: Seq<char>)
    ensures
        key_vk(u) == Some(0x2Cu32) ==> (u == "PRINTSCREEN"@ || u == "PRTSC"@),
        (u == "PRINTSCREEN"@ || u == "PRTSC"@) ==> key_vk(u) == Some(0x2Cu32),
{
    if u == "PRINTSCREEN"@ {
        key_name_26();
    }
    if u == "PRTSC"@ {
        key_name_27();
    }
}

proof fn key_name_28()
    ensures
        key_vk("RSHIFT"@) == Some(0xA1u32),
{
    reveal_strlit("RSHIFT");
    reveal_strlit("HOME");
    assert("HOME"@.len() != "RSHIFT"@.len());
    reveal_strlit("END");
    assert("END"@.len() != "RSHIFT"@.len());
    reveal_strlit("INSERT");
    assert("INSERT"@[0] != "RSHIFT"@[0]);
    reveal_strlit("INS");
    assert("INS"@.len() != "RSHIFT"@.len());
    reveal_strlit("DELETE");
    assert("DELETE"@[0] != "RSHIFT"@[0]);
    reveal_strlit("DEL");
    assert("DEL"@.len() != "RSHIFT"@.len());
    reveal_strlit("PAGEUP");
    assert("PAGEUP"@[0] != "RSHIFT"@[0]);
    reveal_strlit("PGUP");
    assert("PGUP"@.len() != "RSHIFT"@.len());
    reveal_strlit("PAGEDOWN");
    assert("PAGEDOWN"@.len() != "RSHIFT"@.len());
    reveal_strlit("PGDN");
    assert("PGDN"@.len() != "RSHIFT"@.len());
    reveal_strlit("UP");
    assert("UP"@.len() != "RSHIFT"@.len());
    reveal_strlit("DOWN");
    assert("DOWN"@.len() != "RSHIFT"@.len());
    reveal_strlit("LEFT");
    assert("LEFT"@.len() != "RSHIFT"@.len());
    reveal_strlit("RIGHT");
    assert("RIGHT"@.len() != "RSHIFT"@.len());
    reveal_strlit("SPACE");
    assert("SPACE"@.len() != "RSHIFT"@.len());
    reveal_strlit("TAB");
    assert("TAB"@.len() != "RSHIFT"@.len());
    reveal_strlit("ENTER");
    assert("ENTER"@.len() != "RSHIFT"@.len());
    reveal_strlit("RETURN");
    assert("RETURN"@[1] != "RSHIFT"@[1]);
    reveal_strlit("BACKSPACE");
    assert("BACKSPACE"@.len() != "RSHIFT"@.len());
    reveal_strlit("BACK");
    assert("BACK"@.len() != "RSHIFT"@.len());
    reveal_strlit("ESC");
    assert("ESC"@.len() != "RSHIFT"@.len());
    reveal_strlit("ESCAPE");
    assert("ESCAPE"@[0] != "RSHIFT"@[0]);
    reveal_strlit("CAPSLOCK");
    assert("CAPSLOCK"@.len() != "RSHIFT"@.len());
    reveal_strlit("SCROLLLOCK");
    assert("SCROLLLOCK"@.len() != "RSHIFT"@.len());
    reveal_strlit("PAUSE");
    assert("PAUSE"@.len() != "RSHIFT"@.len());
    reveal_strlit("BREAK");
    assert("BREAK"@.len() != "RSHIFT"@.len());
    reveal_strlit("PRINTSCREEN");
    assert("PRINTSCREEN"@.len() != "RSHIFT"@.len());
    reveal_strlit("PRTSC");
    assert("PRTSC"@.len() != "RSHIFT"@.len());
}

proof fn key_code_a1(u: Seq<char>)
    ensures
        key_vk(u) == Some(0xA1u32) ==> (u == "RSHIFT"@),
        (u == "RSHIFT"@) ==> key_vk(u) == Some(0xA1u32),
{
    if u == "RSHIFT"@ {
        key_name_28();
    }
}

proof fn key_name_29()
    ensures
        key_vk(";"@) == Some(0xBAu32),
{
    reveal_strlit(";");
    reveal_strlit("HOME");
    assert("HOME"@.len() != ";"@.len());
    reveal_strlit("END");
    assert("END"@.len() != ";"@.len());
    reveal_strlit("INSERT");
    assert("INSERT"@.len() != ";"@.len());
    reveal_strlit("INS");
    assert("INS"@.len() != ";"@.len());
    reveal_strlit("DELETE");
    assert("DELETE"@.len() != ";"@.len());
    reveal_strlit("DEL");
    assert("DEL"@.len() != ";"@.len());
    reveal_strlit("PAGEUP");
    assert("PAGEUP"@.len() != ";"@.len());
    reveal_strlit("PGUP");
    assert("PGUP"@.len() != ";"@.len());
    reveal_strlit("PAGEDOWN");
    assert("PAGEDOWN"@.len() != ";"@.len());
    reveal_strlit("PGDN");
    assert("PGDN"@.len() != ";"@.len());
    reveal_strlit("UP");
    assert("UP"@.len() != ";"@.len());
    reveal_strlit("DOWN");
    assert("DOWN"@.len() != ";"@.len());
    reveal_strlit("LEFT");
    assert("LEFT"@.len() != ";"@.len());
    reveal_strlit("RIGHT");
    assert("RIGHT"@.len() != ";"@.len());
    reveal_strlit("SPACE");
    assert("SPACE"@.len() != ";"@.len());
    reveal_strlit("TAB");
    assert("TAB"@.len() != ";"@.len());
    reveal_strlit("ENTER");
    assert("ENTER"@.len() != ";"@.len());
    reveal_strlit("RETURN");
    assert("RETURN"@.len() != ";"@.len());
    reveal_strlit("BACKSPACE");
    assert("BACKSPACE"@.len() != ";"@.len());
    reveal_strlit("BACK");
    assert("BACK"@.len() != ";"@.len());
    reveal_strlit("ESC");
    assert("ESC"@.len() != ";"@.len());
    reveal_strlit("ESCAPE");
    assert("ESCAPE"@.len() != ";"@.len());
    reveal_strlit("CAPSLOCK");
    assert("CAPSLOCK"@.len() != ";"@.len());
    reveal_strlit("SCROLLLOCK");
    assert("SCROLLLOCK"@.len() != ";"@.len());
    reveal_strlit("PAUSE");
    assert("PAUSE"@.len() != ";"@.len());
    reveal_strlit("BREAK");
    assert("BREAK"@.len() != ";"@.len());
    reveal_strlit("PRINTSCREEN");
    assert("PRINTSCREEN"@.len() != ";"@.len());
    reveal_strlit("PRTSC");
    assert("PRTSC"@.len() != ";"@.len());
    reveal_strlit("RSHIFT");
    assert("RSHIFT"@.len() != ";"@.len());
}

proof fn key_name_30()
    ensures
        key_vk("SEMICOLON"@) == Some(0xBAu32),
{
    reveal_strlit("SEMICOLON");
    reveal_strlit("HOME");
    assert("HOME"@.len() != "SEMICOLON"@.len());
    reveal_strlit("END");
    assert("END"@.len() != "SEMICOLON"@.len());
    reveal_strlit("INSERT");
    assert("INSERT"@.len() != "SEMICOLON"@.len());
    reveal_strlit("INS");
    assert("INS"@.len() != "SEMICOLON"@.len());
    reveal_strlit("DELETE");
    assert("DELETE"@.len() != "SEMICOLON"@.len());
    reveal_strlit("DEL");
    assert("DEL"@.len() != "SEMICOLON"@.len());
    reveal_strlit("PAGEUP");
    assert("PAGEUP"@.len() != "SEMICOLON"@.len());
    reveal_strlit("PGUP");
    assert("PGUP"@.len() != "SEMICOLON"@.len());
    reveal_strlit("PAGEDOWN");
    assert("PAGEDOWN"@.len() != "SEMICOLON"@.len());
    reveal_strlit("PGDN");
    assert("PGDN"@.len() != "SEMICOLON"@.len());
    reveal_strlit("UP");
    assert("UP"@.len() != "SEMICOLON"@.len());
    reveal_strlit("DOWN");
    assert("DOWN"@.len() != "SEMICOLON"@.len());
    reveal_strlit("LEFT");
    assert("LEFT"@.len() != "SEMICOLON"@.len());
    reveal_strlit("RIGHT");
    assert("RIGHT"@.len() != "SEMICOLON"@.len());
    reveal_strlit("SPACE");
    assert("SPACE"@.len() != "SEMICOLON"@.len());
    reveal_strlit("TAB");
    assert("TAB"@.len() != "SEMICOLON"@.len());
    reveal_strlit("ENTER");
    assert("ENTER"@.len() != "SEMICOLON"@.len());
    reveal_strlit("RETURN");
    assert("RETURN"@.len() != "SEMICOLON"@.len());
    reveal_strlit("BACKSPACE");
    assert("BACKSPACE"@[0] != "SEMICOLON"@[0]);
    reveal_strlit("BACK");
    assert("BACK"@.len() != "SEMICOLON"@.len());
    reveal_strlit("ESC");
    assert("ESC"@.len() != "SEMICOLON"@.len());
    reveal_strlit("ESCAPE");
    assert("ESCAPE"@.len() != "SEMICOLON"@.len());
    reveal_strlit("CAPSLOCK");
    assert("CAPSLOCK"@.len() != "SEMICOLON"@.len());
    reveal_strlit("SCROLLLOCK");
    assert("SCROLLLOCK"@.len() != "SEMICOLON"@.len());
    reveal_strlit("PAUSE");
    assert("PAUSE"@.len() != "SEMICOLON"@.len());
    reveal_strlit("BREAK");
    assert("BREAK"@.len() != "SEMICOLON"@.len());
    reveal_strlit("PRINTSCREEN");
    assert("PRINTSCREEN"@.len() != "SEMICOLON"@.len());
    reveal_strlit("PRTSC");
    assert("PRTSC"@.len() != "SEMICOLON"@.len());
    reveal_strlit("RSHIFT");
    assert("RSHIFT"@.len() != "SEMICOLON"@.len());
    reveal_strlit(";");
    assert(";"@.len() != "SEMICOLON"@.len());
}

proof fn key_code_ba(u: Seq<char>)
    ensures
        key_vk(u) == Some(0xBAu32) ==> (u == ";"@ || u == "SEMICOLON"@),
        (u == ";"@ || u == "SEMICOLON"@) ==> key_vk(u) == Some(0xBAu32),
{
    if u == ";"@ {
        key_name_29();
    }
    if u == "SEMICOLON"@ {
        key_name_30();
    }
}

proof fn key_name_31()
    ensures
        key_vk("/"@) == Some(0xBFu32),
{
    reveal_strlit("/");
    reveal_strlit("HOME");
    assert("HOME"@.len() != "/"@.len());
    reveal_strlit("END");
    assert("END"@.len() != "/"@.len());
    reveal_strlit("INSERT");
    assert("INSERT"@.len() != "/"@.len());
    reveal_strlit("INS");
    assert("INS"@.len() != "/"@.len());
    reveal_strlit("DELETE");
    assert("DELETE"@.len() != "/"@.len());
    reveal_strlit("DEL");
    assert("DEL"@.len() != "/"@.len());
    reveal_strlit("PAGEUP");
    assert("PAGEUP"@.len() != "/"@.len());
    reveal_strlit("PGUP");
    assert("PGUP"@.len() != "/"@.len());
    reveal_strlit("PAGEDOWN");
    assert("PAGEDOWN"@.len() != "/"@.len());
    reveal_strlit("PGDN");
    assert("PGDN"@.len() != "/"@.len());
    reveal_strlit("UP");
    assert("UP"@.len() != "/"@.len());
    reveal_strlit("DOWN");
    assert("DOWN"@.len() != "/"@.len());
    reveal_strlit("LEFT");
    assert("LEFT"@.len() != "/"@.len());
    reveal_strlit("RIGHT");
    assert("RIGHT"@.len() != "/"@.len());
    reveal_strlit("SPACE");
    assert("SPACE"@.len() != "/"@.len());
    reveal_strlit("TAB");
    assert("TAB"@.len() != "/"@.len());
    reveal_strlit("ENTER");
    assert("ENTER"@.len() != "/"@.len());
    reveal_strlit("RETURN");
    assert("RETURN"@.len() != "/"@.len());
    reveal_strlit("BACKSPACE");
    assert("BACKSPACE"@.len() != "/"@.len());
    reveal_strlit("BACK");
    assert("BACK"@.len() != "/"@.len());
    reveal_strlit("ESC");
    assert("ESC"@.len() != "/"@.len());
    reveal_strlit("ESCAPE");
    assert("ESCAPE"@.len() != "/"@.len());
    reveal_strlit("CAPSLOCK");
    assert("CAPSLOCK"@.len() != "/"@.len());
    reveal_strlit("SCROLLLOCK");
    assert("SCROLLLOCK"@.len() != "/"@.len());
    reveal_strlit("PAUSE");
    assert("PAUSE"@.len() != "/"@.len());
    reveal_strlit("BREAK");
    assert("BREAK"@.len() != "/"@.len());
    reveal_strlit("PRINTSCREEN");
    assert("PRINTSCREEN"@.len() != "/"@.len());
    reveal_strlit("PRTSC");
    assert("PRTSC"@.len() != "/"@.len());
    reveal_strlit("RSHIFT");
    assert("RSHIFT"@.len() != "/"@.len());
    reveal_strlit(";");
    assert(";"@[0] != "/"@[0]);
    reveal_strlit("SEMICOLON");
    assert("SEMICOLON"@.len() != "/"@.len());
}

proof fn key_name_32()
    ensures
        key_vk("SLASH"@) == Some(0xBFu32),
{
    reveal_strlit("SLASH");
    reveal_strlit("HOME");
    assert("HOME"@.len() != "SLASH"@.len());
    reveal_strlit("END");
    assert("END"@.len() != "SLASH"@.len());
    reveal_strlit("INSERT");
    assert("INSERT"@.len() != "SLASH"@.len());
    reveal_strlit("INS");
    assert("INS"@.len() != "SLASH"@.len());
    reveal_strlit("DELETE");
    assert("DELETE"@.len() != "SLASH"@.len());
    reveal_strlit("DEL");
    assert("DEL"@.len() != "SLASH"@.len());
    reveal_strlit("PAGEUP");
    assert("PAGEUP"@.len() != "SLASH"@.len());
    reveal_strlit("PGUP");
    assert("PGUP"@.len() != "SLASH"@.len());
    reveal_strlit("PAGEDOWN");
    assert("PAGEDOWN"@.len() != "SLASH"@.len());
    reveal_strlit("PGDN");
    assert("PGDN"@.len() != "SLASH"@.len());
    reveal_strlit("UP");
    assert("UP"@.len() != "SLASH"@.len());
    reveal_strlit("DOWN");
    assert("DOWN"@.len() != "SLASH"@.len());
    reveal_strlit("LEFT");
    assert("LEFT"@.len() != "SLASH"@.len());
    reveal_strlit("RIGHT");
    assert("RIGHT"@[0] != "SLASH"@[0]);
    reveal_strlit("SPACE");
    assert("SPACE"@[1] != "SLASH"@[1]);
    reveal_strlit("TAB");
    assert("TAB"@.len() != "SLASH"@.len());
    reveal_strlit("ENTER");
    assert("ENTER"@[0] != "SLASH"@[0]);
    reveal_strlit("RETURN");
    assert("RETURN"@.len() != "SLASH"@.len());
    reveal_strlit("BACKSPACE");
    assert("BACKSPACE"@.len() != "SLASH"@.len());
    reveal_strlit("BACK");
    assert("BACK"@.len() != "SLASH"@.len());
    reveal_strlit("ESC");
    assert("ESC"@.len() != "SLASH"@.len());
    reveal_strlit("ESCAPE");
    assert("ESCAPE"@.len() != "SLASH"@.len());
    reveal_strlit("CAPSLOCK");
    assert("CAPSLOCK"@.len() != "SLASH"@.len());
    reveal_strlit("SCROLLLOCK");
    assert("SCROLLLOCK"@.len() != "SLASH"@.len());
    reveal_strlit("PAUSE");
    assert("PAUSE"@[0] != "SLASH"@[0]);
    reveal_strlit("BREAK");
    assert("BREAK"@[0] != "SLASH"@[0]);
    reveal_strlit("PRINTSCREEN");
    assert("PRINTSCREEN"@.len() != "SLASH"@.len());
    reveal_strlit("PRTSC");
    assert("PRTSC"@[0] != "SLASH"@[0]);
    reveal_strlit("RSHIFT");
    assert("RSHIFT"@.len() != "SLASH"@.len());
    reveal_strlit(";");
    assert(";"@.len() != "SLASH"@.len());
    reveal_strlit("SEMICOLON");
    assert("SEMICOLON"@.len() != "SLASH"@.len());
    reveal_strlit("/");
    assert("/"@.len() != "SLASH"@.len());
}

proof fn key_code_bf(u: Seq<char>)
    ensures
        key_vk(u) == Some(0xBFu32) ==> (u == "/"@ || u == "SLASH"@),
        (u == "/"@ || u == "SLASH"@) ==> key_vk(u) == Some(0xBFu32),
{
    if u == "/"@ {
        key_name_31();
    }
    if u == "SLASH"@ {
        key_name_32();
    }
}

proof fn key_name_33()
    ensures
        key_vk("`"@) == Some(0xC0u32),
{
    reveal_strlit("`");
    reveal_strlit("HOME");
    assert("HOME"@.len() != "`"@.len());
    reveal_strlit("END");
    assert("END"@.len() != "`"@.len());
    reveal_strlit("INSERT");
    assert("INSERT"@.len() != "`"@.len());
    reveal_strlit("INS");
    assert("INS"@.len() != "`"@.len());
    reveal_strlit("DELETE");
    assert("DELETE"@.len() != "`"@.len());
    reveal_strlit("DEL");
    assert("DEL"@.len() != "`"@.len());
    reveal_strlit("PAGEUP");
    assert("PAGEUP"@.len() != "`"@.len());
    reveal_strlit("PGUP");
    assert("PGUP"@.len() != "`"@.len());
    reveal_strlit("PAGEDOWN");
    assert("PAGEDOWN"@.len() != "`"@.len());
    reveal_strlit("PGDN");
    assert("PGDN"@.len() != "`"@.len());
    reveal_strlit("UP");
    assert("UP"@.len() != "`"@.len());
    reveal_strlit("DOWN");
    assert("DOWN"@.len() != "`"@.len());
    reveal_strlit("LEFT");
    assert("LEFT"@.len() != "`"@.len());
    reveal_strlit("RIGHT");
    assert("RIGHT"@.len() != "`"@.len());
    reveal_strlit("SPACE");
    assert("SPACE"@.len() != "`"@.len());
    reveal_strlit("TAB");
    assert("TAB"@.len() != "`"@.len());
    reveal_strlit("ENTER");
    assert("ENTER"@.len() != "`"@.len());
    reveal_strlit("RETURN");
    assert("RETURN"@.len() != "`"@.len());
    reveal_strlit("BACKSPACE");
    assert("BACKSPACE"@.len() != "`"@.len());
    reveal_strlit("BACK");
    assert("BACK"@.len() != "`"@.len());
    reveal_strlit("ESC");
    assert("ESC"@.len() != "`"@.len());
    reveal_strlit("ESCAPE");
    assert("ESCAPE"@.len() != "`"@.len());
    reveal_strlit("CAPSLOCK");
    assert("CAPSLOCK"@.len() != "`"@.len());
    reveal_strlit("SCROLLLOCK");
    assert("SCROLLLOCK"@.len() != "`"@.len());
    reveal_strlit("PAUSE");
    assert("PAUSE"@.len() != "`"@.len());
    reveal_strlit("BREAK");
    assert("BREAK"@.len() != "`"@.len());
    reveal_strlit("PRINTSCREEN");
    assert("PRINTSCREEN"@.len() != "`"@.len());
    reveal_strlit("PRTSC");
    assert("PRTSC"@.len() != "`"@.len());
    reveal_strlit("RSHIFT");
    assert("RSHIFT"@.len() != "`"@.len());
    reveal_strlit(";");
    assert(";"@[0] != "`"@[0]);
    reveal_strlit("SEMICOLON");
    assert("SEMICOLON"@.len() != "`"@.len());
    reveal_strlit("/");
    assert("/"@[0] != "`"@[0]);
    reveal_strlit("SLASH");
    assert("SLASH"@.len() != "`"@.len());
}

proof fn key_name_34()
    ensures
        key_vk("GRAVE"@) == Some(0xC0u32),
{
    reveal_strlit("GRAVE");
    reveal_strlit("HOME");
    assert("HOME"@.len() != "GRAVE"@.len());
    reveal_strlit("END");
    assert("END"@.len() != "GRAVE"@.len());
    reveal_strlit("INSERT");
    assert("INSERT"@.len() != "GRAVE"@.len());
    reveal_strlit("INS");
    assert("INS"@.len() != "GRAVE"@.len());
    reveal_strlit("DELETE");
    assert("DELETE"@.len() != "GRAVE"@.len());
    reveal_strlit("DEL");
    assert("DEL"@.len() != "GRAVE"@.len());
    reveal_strlit("PAGEUP");
    assert("PAGEUP"@.len() != "GRAVE"@.len());
    reveal_strlit("PGUP");
    assert("PGUP"@.len() != "GRAVE"@.len());
    reveal_strlit("PAGEDOWN");
    assert("PAGEDOWN"@.len() != "GRAVE"@.len());
    reveal_strlit("PGDN");
    assert("PGDN"@.len() != "GRAVE"@.len());
    reveal_strlit("UP");
    assert("UP"@.len() != "GRAVE"@.len());
    reveal_strlit("DOWN");
    assert("DOWN"@.len() != "GRAVE"@.len());
    reveal_strlit("LEFT");
    assert("LEFT"@.len() != "GRAVE"@.len());
    reveal_strlit("RIGHT");
    assert("RIGHT"@[0] != "GRAVE"@[0]);
    reveal_strlit("SPACE");
    assert("SPACE"@[0] != "GRAVE"@[0]);
    reveal_strlit("TAB");
    assert("TAB"@.len() != "GRAVE"@.len());
    reveal_strlit("ENTER");
    assert("ENTER"@[0] != "GRAVE"@[0]);
    reveal_strlit("RETURN");
    assert("RETURN"@.len() != "GRAVE"@.len());
    reveal_strlit("BACKSPACE");
    assert("BACKSPACE"@.len() != "GRAVE"@.len());
    reveal_strlit("BACK");
    assert("BACK"@.len() != "GRAVE"@.len());
    reveal_strlit("ESC");
    assert("ESC"@.len() != "GRAVE"@.len());
    reveal_strlit("ESCAPE");
    assert("ESCAPE"@.len() != "GRAVE"@.len());
    reveal_strlit("CAPSLOCK");
    assert("CAPSLOCK"@.len() != "GRAVE"@.len());
    reveal_strlit("SCROLLLOCK");
    assert("SCROLLLOCK"@.len() != "GRAVE"@.len());
    reveal_strlit("PAUSE");
    assert("PAUSE"@[0] != "GRAVE"@[0]);
    reveal_strlit("BREAK");
    assert("BREAK"@[0] != "GRAVE"@[0]);
    reveal_strlit("PRINTSCREEN");
    assert("PRINTSCREEN"@.len() != "GRAVE"@.len());
    reveal_strlit("PRTSC");
    assert("PRTSC"@[0] != "GRAVE"@[0]);
    reveal_strlit("RSHIFT");
    assert("RSHIFT"@.len() != "GRAVE"@.len());
    reveal_strlit(";");
    assert(";"@.len() != "GRAVE"@.len());
    reveal_strlit("SEMICOLON");
    assert("SEMICOLON"@.len() != "GRAVE"@.len());
    reveal_strlit("/");
    assert("/"@.len() != "GRAVE"@.len());
    reveal_strlit("SLASH");
    assert("SLASH"@[0] != "GRAVE"@[0]);
    reveal_strlit("`");
    assert("`"@.len() != "GRAVE"@.len());
}

proof fn key_name_35()
    ensures
        key_vk("BACKTICK"@) == Some(0xC0u32),
{
    reveal_strlit("BACKTICK");
    reveal_strlit("HOME");
    assert("HOME"@.len() != "BACKTICK"@.len());
    reveal_strlit("END");
    assert("END"@.len() != "BACKTICK"@.len());
    reveal_strlit("INSERT");
    assert("INSERT"@.len() != "BACKTICK"@.len());
    reveal_strlit("INS");
    assert("INS"@.len() != "BACKTICK"@.len());
    reveal_strlit("DELETE");
    assert("DELETE"@.len() != "BACKTICK"@.len());
    reveal_strlit("DEL");
    assert("DEL"@.len() != "BACKTICK"@.len());
    reveal_strlit("PAGEUP");
    assert("PAGEUP"@.len() != "BACKTICK"@.len());
    reveal_strlit("PGUP");
    assert("PGUP"@.len() != "BACKTICK"@.len());
    reveal_strlit("PAGEDOWN");
    assert("PAGEDOWN"@[0] != "BACKTICK"@[0]);
    reveal_strlit("PGDN");
    assert("PGDN"@.len() != "BACKTICK"@.len());
    reveal_strlit("UP");
    assert("UP"@.len() != "BACKTICK"@.len());
    reveal_strlit("DOWN");
    assert("DOWN"@.len() != "BACKTICK"@.len());
    reveal_strlit("LEFT");
    assert("LEFT"@.len() != "BACKTICK"@.len());
    reveal_strlit("RIGHT");
    assert("RIGHT"@.len() != "BACKTICK"@.len());
    reveal_strlit("SPACE");
    assert("SPACE"@.len() != "BACKTICK"@.len());
    reveal_strlit("TAB");
    assert("TAB"@.len() != "BACKTICK"@.len());
    reveal_strlit("ENTER");
    assert("ENTER"@.len() != "BACKTICK"@.len());
    reveal_strlit("RETURN");
    assert("RETURN"@.len() != "BACKTICK"@.len());
    reveal_strlit("BACKSPACE");
    assert("BACKSPACE"@.len() != "BACKTICK"@.len());
    reveal_strlit("BACK");
    assert("BACK"@.len() != "BACKTICK"@.len());
    reveal_strlit("ESC");
    assert("ESC"@.len() != "BACKTICK"@.len());
    reveal_strlit("ESCAPE");
    assert("ESCAPE"@.len() != "BACKTICK"@.len());
    reveal_strlit("CAPSLOCK");
    assert("CAPSLOCK"@[0] != "BACKTICK"@[0]);
    reveal_strlit("SCROLLLOCK");
    assert("SCROLLLOCK"@.len() != "BACKTICK"@.len());
    reveal_strlit("PAUSE");
    assert("PAUSE"@.len() != "BACKTICK"@.len());
    reveal_strlit("BREAK");
    assert("BREAK"@.len() != "BACKTICK"@.len());
    reveal_strlit("PRINTSCREEN");
    assert("PRINTSCREEN"@.len() != "BACKTICK"@.len());
    reveal_strlit("PRTSC");
    assert("PRTSC"@.len() != "BACKTICK"@.len());
    reveal_strlit("RSHIFT");
    assert("RSHIFT"@.len() != "BACKTICK"@.len());
    reveal_strlit(";");
    assert(";"@.len() != "BACKTICK"@.len());
    reveal_strlit("SEMICOLON");
    assert("SEMICOLON"@.len() != "BACKTICK"@.len());
    reveal_strlit("/");
    assert("/"@.len() != "BACKTICK"@.len());
    reveal_strlit("SLASH");
    assert("SLASH"@.len() != "BACKTICK"@.len());
    reveal_strlit("`");
    assert("`"@.len() != "BACKTICK"@.len());
    reveal_strlit("GRAVE");
    assert("GRAVE"@.len() != "BACKTICK"@.len());
}

proof fn key_code_c0(u: Seq<char>)
    ensures
        key_vk(u) == Some(0xC0u32) ==> (u == "`"@ || u == "GRAVE"@ || u == "BACKTICK"@),
        (u == "`"@ || u == "GRAVE"@ || u == "BACKTICK"@) ==> key_vk(u) == Some(0xC0u32),
{
    if u == "`"@ {
        key_name_33();
    }
    if u == "GRAVE"@ {
        key_name_34();
    }
    if u == "BACKTICK"@ {
        key_name_35();
    }
}

proof fn key_name_36()
    ensures
        key_vk("["@) == Some(0xDBu32),
{
    reveal_strlit("[");
    reveal_strlit("HOME");
    assert("HOME"@.len() != "["@.len());
    reveal_strlit("END");
    assert("END"@.len() != "["@.len());
    reveal_strlit("INSERT");
    assert("INSERT"@.len() != "["@.len());
    reveal_strlit("INS");
    assert("INS"@.len() != "["@.len());
    reveal_strlit("DELETE");
    assert("DELETE"@.len() != "["@.len());
    reveal_strlit("DEL");
    assert("DEL"@.len() != "["@.len());
    reveal_strlit("PAGEUP");
    assert("PAGEUP"@.len() != "["@.len());
    reveal_strlit("PGUP");
    assert("PGUP"@.len() != "["@.len());
    reveal_strlit("PAGEDOWN");
    assert("PAGEDOWN"@.len() != "["@.len());
    reveal_strlit("PGDN");
    assert("PGDN"@.len() != "["@.len());
    reveal_strlit("UP");
    assert("UP"@.len() != "["@.len());
    reveal_strlit("DOWN");
    assert("DOWN"@.len() != "["@.len());
    reveal_strlit("LEFT");
    assert("LEFT"@.len() != "["@.len());
    reveal_strlit("RIGHT");
    assert("RIGHT"@.len() != "["@.len());
    reveal_strlit("SPACE");
    assert("SPACE"@.len() != "["@.len());
    reveal_strlit("TAB");
    assert("TAB"@.len() != "["@.len());
    reveal_strlit("ENTER");
    assert("ENTER"@.len() != "["@.len());
    reveal_strlit("RETURN");
    assert("RETURN"@.len() != "["@.len());
    reveal_strlit("BACKSPACE");
    assert("BACKSPACE"@.len() != "["@.len());
    reveal_strlit("BACK");
    assert("BACK"@.len() != "["@.len());
    reveal_strlit("ESC");
    assert("ESC"@.len() != "["@.len());
    reveal_strlit("ESCAPE");
    assert("ESCAPE"@.len() != "["@.len());
    reveal_strlit("CAPSLOCK");
    assert("CAPSLOCK"@.len() != "["@.len());
    reveal_strlit("SCROLLLOCK");
    assert("SCROLLLOCK"@.len() != "["@.len());
    reveal_strlit("PAUSE");
    assert("PAUSE"@.len() != "["@.len());
    reveal_strlit("BREAK");
    assert("BREAK"@.len() != "["@.len());
    reveal_strlit("PRINTSCREEN");
    assert("PRINTSCREEN"@.len() != "["@.len());
    reveal_strlit("PRTSC");
    assert("PRTSC"@.len() != "["@.len());
    reveal_strlit("RSHIFT");
    assert("RSHIFT"@.len() != "["@.len());
    reveal_strlit(";");
    assert(";"@[0] != "["@[0]);
    reveal_strlit("SEMICOLON");
    assert("SEMICOLON"@.len() != "["@.len());
    reveal_strlit("/");
    assert("/"@[0] != "["@[0]);
    reveal_strlit("SLASH");
    assert("SLASH"@.len() != "["@.len());
    reveal_strlit("`");
    assert("`"@[0] != "["@[0]);
    reveal_strlit("GRAVE");
    assert("GRAVE"@.len() != "["@.len());
    reveal_strlit("BACKTICK");
    assert("BACKTICK"@.len() != "["@.len());
}

proof fn key_code_db(u: Seq<char>)
    ensures
        key_vk(u) == Some(0xDBu32) ==> (u == "["@),
        (u == "["@) ==> key_vk(u) == Some(0xDBu32),
{
    if u == "["@ {
        key_name_36();
    }
}

proof fn key_name_37()
    ensures
        key_vk("\\"@) == Some(0xDCu32),
{
    reveal_strlit("\\");
    reveal_strlit("HOME");
    assert("HOME"@.len() != "\\"@.len());
    reveal_strlit("END");
    assert("END"@.len() != "\\"@.len());
    reveal_strlit("INSERT");
    assert("INSERT"@.len() != "\\"@.len());
    reveal_strlit("INS");
    assert("INS"@.len() != "\\"@.len());
    reveal_strlit("DELETE");
    assert("DELETE"@.len() != "\\"@.len());
    reveal_strlit("DEL");
    assert("DEL"@.len() != "\\"@.len());
    reveal_strlit("PAGEUP");
    assert("PAGEUP"@.len() != "\\"@.len());
    reveal_strlit("PGUP");
    assert("PGUP"@.len() != "\\"@.len());
    reveal_strlit("PAGEDOWN");
    assert("PAGEDOWN"@.len() != "\\"@.len());
    reveal_strlit("PGDN");
    assert("PGDN"@.len() != "\\"@.len());
    reveal_strlit("UP");
    assert("UP"@.len() != "\\"@.len());
    reveal_strlit("DOWN");
    assert("DOWN"@.len() != "\\"@.len());
    reveal_strlit("LEFT");
    assert("LEFT"@.len() != "\\"@.len());
    reveal_strlit("RIGHT");
    assert("RIGHT"@.len() != "\\"@.len());
    reveal_strlit("SPACE");
    assert("SPACE"@.len() != "\\"@.len());
    reveal_strlit("TAB");
    assert("TAB"@.len() != "\\"@.len());
    reveal_strlit("ENTER");
    assert("ENTER"@.len() != "\\"@.len());
    reveal_strlit("RETURN");
    assert("RETURN"@.len() != "\\"@.len());
    reveal_strlit("BACKSPACE");
    assert("BACKSPACE"@.len() != "\\"@.len());
    reveal_strlit("BACK");
    assert("BACK"@.len() != "\\"@.len());
    reveal_strlit("ESC");
    assert("ESC"@.len() != "\\"@.len());
    reveal_strlit("ESCAPE");
    assert("ESCAPE"@.len() != "\\"@.len());
    reveal_strlit("CAPSLOCK");
    assert("CAPSLOCK"@.len() != "\\"@.len());
    reveal_strlit("SCROLLLOCK");
    assert("SCROLLLOCK"@.len() != "\\"@.len());
    reveal_strlit("PAUSE");
    assert("PAUSE"@.len() != "\\"@.len());
    reveal_strlit("BREAK");
    assert("BREAK"@.len() != "\\"@.len());
    reveal_strlit("PRINTSCREEN");
    assert("PRINTSCREEN"@.len() != "\\"@.len());
    reveal_strlit("PRTSC");
    assert("PRTSC"@.len() != "\\"@.len());
    reveal_strlit("RSHIFT");
    assert("RSHIFT"@.len() != "\\"@.len());
    reveal_strlit(";");
    assert(";"@[0] != "\\"@[0]);
    reveal_strlit("SEMICOLON");
    assert("SEMICOLON"@.len() != "\\"@.len());
    reveal_strlit("/");
    assert("/"@[0] != "\\"@[0]);
    reveal_strlit("SLASH");
    assert("SLASH"@.len() != "\\"@.len());
    reveal_strlit("`");
    assert("`"@[0] != "\\"@[0]);
    reveal_strlit("GRAVE");
    assert("GRAVE"@.len() != "\\"@.len());
    reveal_strlit("BACKTICK");
    assert("BACKTICK"@.len() != "\\"@.len());
    reveal_strlit("[");
    assert("["@[0] != "\\"@[0]);
}

proof fn key_name_38()
    ensures
        key_vk("BACKSLASH"@) == Some(0xDCu32),
{
    reveal_strlit("BACKSLASH");
    reveal_strlit("HOME");
    assert("HOME"@.len() != "BACKSLASH"@.len());
    reveal_strlit("END");
    assert("END"@.len() != "BACKSLASH"@.len());
    reveal_strlit("INSERT");
    assert("INSERT"@.len() != "BACKSLASH"@.len());
    reveal_strlit("INS");
    assert("INS"@.len() != "BACKSLASH"@.len());
    reveal_strlit("DELETE");
    assert("DELETE"@.len() != "BACKSLASH"@.len());
    reveal_strlit("DEL");
    assert("DEL"@.len() != "BACKSLASH"@.len());
    reveal_strlit("PAGEUP");
    assert("PAGEUP"@.len() != "BACKSLASH"@.len());
    reveal_strlit("PGUP");
    assert("PGUP"@.len() != "BACKSLASH"@.len());
    reveal_strlit("PAGEDOWN");
    assert("PAGEDOWN"@.len() != "BACKSLASH"@.len());
    reveal_strlit("PGDN");
    assert("PGDN"@.len() != "BACKSLASH"@.len());
    reveal_strlit("UP");
    assert("UP"@.len() != "BACKSLASH"@.len());
    reveal_strlit("DOWN");
    assert("DOWN"@.len() != "BACKSLASH"@.len());
    reveal_strlit("LEFT");
    assert("LEFT"@.len() != "BACKSLASH"@.len());
    reveal_strlit("RIGHT");
    assert("RIGHT"@.len() != "BACKSLASH"@.len());
    reveal_strlit("SPACE");
    assert("SPACE"@.len() != "BACKSLASH"@.len());
    reveal_strlit("TAB");
    assert("TAB"@.len() != "BACKSLASH"@.len());
    reveal_strlit("ENTER");
    assert("ENTER"@.len() != "BACKSLASH"@.len());
    reveal_strlit("RETURN");
    assert("RETURN"@.len() != "BACKSLASH"@.len());
    reveal_strlit("BACKSPACE");
    assert("BACKSPACE"@[5] != "BACKSLASH"@[5]);
    reveal_strlit("BACK");
    assert("BACK"@.len() != "BACKSLASH"@.len());
    reveal_strlit("ESC");
    assert("ESC"@.len() != "BACKSLASH"@.len());
    reveal_strlit("ESCAPE");
    assert("ESCAPE"@.len() != "BACKSLASH"@.len());
    reveal_strlit("CAPSLOCK");
    assert("CAPSLOCK"@.len() != "BACKSLASH"@.len());
    reveal_strlit("SCROLLLOCK");
    assert("SCROLLLOCK"@.len() != "BACKSLASH"@.len());
    reveal_strlit("PAUSE");
    assert("PAUSE"@.len() != "BACKSLASH"@.len());
    reveal_strlit("BREAK");
    assert("BREAK"@.len() != "BACKSLASH"@.len());
    reveal_strlit("PRINTSCREEN");
    assert("PRINTSCREEN"@.len() != "BACKSLASH"@.len());
    reveal_strlit("PRTSC");
    assert("PRTSC"@.len() != "BACKSLASH"@.len());
    reveal_strlit("RSHIFT");
    assert("RSHIFT"@.len() != "BACKSLASH"@.len());
    reveal_strlit(";");
    assert(";"@.len() != "BACKSLASH"@.len());
    reveal_strlit("SEMICOLON");
    assert("SEMICOLON"@[0] != "BACKSLASH"@[0]);
    reveal_strlit("/");
    assert("/"@.len() != "BACKSLASH"@.len());
    reveal_strlit("SLASH");
    assert("SLASH"@.len() != "BACKSLASH"@.len());
    reveal_strlit("`");
    assert("`"@.len() != "BACKSLASH"@.len());
    reveal_strlit("GRAVE");
    assert("GRAVE"@.len() != "BACKSLASH"@.len());
    reveal_strlit("BACKTICK");
    assert("BACKTICK"@.len() != "BACKSLASH"@.len());
    reveal_strlit("[");
    assert("["@.len() != "BACKSLASH"@.len());
    reveal_strlit("\\");
    assert("\\"@.len() != "BACKSLASH"@.len());
}

proof fn key_code_dc(u: Seq<char>)
    ensures
        key_vk(u) == Some(0xDCu32) ==> (u == "\\"@ || u == "BACKSLASH"@),
        (u == "\\"@ || u == "BACKSLASH"@) ==> key_vk(u) == Some(0xDCu32),
{
    if u == "\\"@ {
        key_name_37();
    }
    if u == "BACKSLASH"@ {
        key_name_38();
    }
}

proof fn key_name_39()
    ensures
        key_vk("]"@) == Some(0xDDu32),
{
    reveal_strlit("]");
    reveal_strlit("HOME");
    assert("HOME"@.len() != "]"@.len());
    reveal_strlit("END");
    assert("END"@.len() != "]"@.len());
    reveal_strlit("INSERT");
    assert("INSERT"@.len() != "]"@.len());
    reveal_strlit("INS");
    assert("INS"@.len() != "]"@.len());
    reveal_strlit("DELETE");
    assert("DELETE"@.len() != "]"@.len());
    reveal_strlit("DEL");
    assert("DEL"@.len() != "]"@.len());
    reveal_strlit("PAGEUP");
    assert("PAGEUP"@.len() != "]"@.len());
    reveal_strlit("PGUP");
    assert("PGUP"@.len() != "]"@.len());
    reveal_strlit("PAGEDOWN");
    assert("PAGEDOWN"@.len() != "]"@.len());
    reveal_strlit("PGDN");
    assert("PGDN"@.len() != "]"@.len());
    reveal_strlit("UP");
    assert("UP"@.len() != "]"@.len());
    reveal_strlit("DOWN");
    assert("DOWN"@.len() != "]"@.len());
    reveal_strlit("LEFT");
    assert("LEFT"@.len() != "]"@.len());
    reveal_strlit("RIGHT");
    assert("RIGHT"@.len() != "]"@.len());
    reveal_strlit("SPACE");
    assert("SPACE"@.len() != "]"@.len());
    reveal_strlit("TAB");
    assert("TAB"@.len() != "]"@.len());
    reveal_strlit("ENTER");
    assert("ENTER"@.len() != "]"@.len());
    reveal_strlit("RETURN");
    assert("RETURN"@.len() != "]"@.len());
    reveal_strlit("BACKSPACE");
    assert("BACKSPACE"@.len() != "]"@.len());
    reveal_strlit("BACK");
    assert("BACK"@.len() != "]"@.len());
    reveal_strlit("ESC");
    assert("ESC"@.len() != "]"@.len());
    reveal_strlit("ESCAPE");
    assert("ESCAPE"@.len() != "]"@.len());
    reveal_strlit("CAPSLOCK");
    assert("CAPSLOCK"@.len() != "]"@.len());
    reveal_strlit("SCROLLLOCK");
    assert("SCROLLLOCK"@.len() != "]"@.len());
    reveal_strlit("PAUSE");
    assert("PAUSE"@.len() != "]"@.len());
    reveal_strlit("BREAK");
    assert("BREAK"@.len() != "]"@.len());
    reveal_strlit("PRINTSCREEN");
    assert("PRINTSCREEN"@.len() != "]"@.len());
    reveal_strlit("PRTSC");
    assert("PRTSC"@.len() != "]"@.len());
    reveal_strlit("RSHIFT");
    assert("RSHIFT"@.len() != "]"@.len());
    reveal_strlit(";");
    assert(";"@[0] != "]"@[0]);
    reveal_strlit("SEMICOLON");
    assert("SEMICOLON"@.len() != "]"@.len());
    reveal_strlit("/");
    assert("/"@[0] != "]"@[0]);
    reveal_strlit("SLASH");
    assert("SLASH"@.len() != "]"@.len());
    reveal_strlit("`");
    assert("`"@[0] != "]"@[0]);
    reveal_strlit("GRAVE");
    assert("GRAVE"@.len() != "]"@.len());
    reveal_strlit("BACKTICK");
    assert("BACKTICK"@.len() != "]"@.len());
    reveal_strlit("[");
    assert("["@[0] != "]"@[0]);
    reveal_strlit("\\");
    assert("\\"@[0] != "]"@[0]);
    reveal_strlit("BACKSLASH");
    assert("BACKSLASH"@.len() != "]"@.len());
}

proof fn key_code_dd(u: Seq<char>)
    ensures
        key_vk(u) == Some(0xDDu32) ==> (u == "]"@),
        (u == "]"@) ==> key_vk(u) == Some(0xDDu32),
{
    if u == "]"@ {
        key_name_39();
    }
}

proof fn key_name_40()
    ensures
        key_vk("'"@) == Some(0xDEu32),
{
    reveal_strlit("'");
    reveal_strlit("HOME");
    assert("HOME"@.len() != "'"@.len());
    reveal_strlit("END");
    assert("END"@.len() != "'"@.len());
    reveal_strlit("INSERT");
    assert("INSERT"@.len() != "'"@.len());
    reveal_strlit("INS");
    assert("INS"@.len() != "'"@.len());
    reveal_strlit("DELETE");
    assert("DELETE"@.len() != "'"@.len());
    reveal_strlit("DEL");
    assert("DEL"@.len() != "'"@.len());
    reveal_strlit("PAGEUP");
    assert("PAGEUP"@.len() != "'"@.len());
    reveal_strlit("PGUP");
    assert("PGUP"@.len() != "'"@.len());
    reveal_strlit("PAGEDOWN");
    assert("PAGEDOWN"@.len() != "'"@.len());
    reveal_strlit("PGDN");
    assert("PGDN"@.len() != "'"@.len());
    reveal_strlit("UP");
    assert("UP"@.len() != "'"@.len());
    reveal_strlit("DOWN");
    assert("DOWN"@.len() != "'"@.len());
    reveal_strlit("LEFT");
    assert("LEFT"@.len() != "'"@.len());
    reveal_strlit("RIGHT");
    assert("RIGHT"@.len() != "'"@.len());
    reveal_strlit("SPACE");
    assert("SPACE"@.len() != "'"@.len());
    reveal_strlit("TAB");
    assert("TAB"@.len() != "'"@.len());
    reveal_strlit("ENTER");
    assert("ENTER"@.len() != "'"@.len());
    reveal_strlit("RETURN");
    assert("RETURN"@.len() != "'"@.len());
    reveal_strlit("BACKSPACE");
    assert("BACKSPACE"@.len() != "'"@.len());
    reveal_strlit("BACK");
    assert("BACK"@.len() != "'"@.len());
    reveal_strlit("ESC");
    assert("ESC"@.len() != "'"@.len());
    reveal_strlit("ESCAPE");
    assert("ESCAPE"@.len() != "'"@.len());
    reveal_strlit("CAPSLOCK");
    assert("CAPSLOCK"@.len() != "'"@.len());
    reveal_strlit("SCROLLLOCK");
    assert("SCROLLLOCK"@.len() != "'"@.len());
    reveal_strlit("PAUSE");
    assert("PAUSE"@.len() != "'"@.len());
    reveal_strlit("BREAK");
    assert("BREAK"@.len() != "'"@.len());
    reveal_strlit("PRINTSCREEN");
    assert("PRINTSCREEN"@.len() != "'"@.len());
    reveal_strlit("PRTSC");
    assert("PRTSC"@.len() != "'"@.len());
    reveal_strlit("RSHIFT");
    assert("RSHIFT"@.len() != "'"@.len());
    reveal_strlit(";");
    assert(";"@[0] != "'"@[0]);
    reveal_strlit("SEMICOLON");
    assert("SEMICOLON"@.len() != "'"@.len());
    reveal_strlit("/");
    assert("/"@[0] != "'"@[0]);
    reveal_strlit("SLASH");
    assert("SLASH"@.len() != "'"@.len());
    reveal_strlit("`");
    assert("`"@[0] != "'"@[0]);
    reveal_strlit("GRAVE");
    assert("GRAVE"@.len() != "'"@.len());
    reveal_strlit("BACKTICK");
    assert("BACKTICK"@.len() != "'"@.len());
    reveal_strlit("[");
    assert("["@[0] != "'"@[0]);
    reveal_strlit("\\");
    assert("\\"@[0] != "'"@[0]);
    reveal_strlit("BACKSLASH");
    assert("BACKSLASH"@.len() != "'"@.len());
    reveal_strlit("]");
    assert("]"@[0] != "'"@[0]);
}

proof fn key_name_41()
    ensures
        key_vk("QUOTE"@) == Some(0xDEu32),
{
    reveal_strlit("QUOTE");
    reveal_strlit("HOME");
    assert("HOME"@.len() != "QUOTE"@.len());
    reveal_strlit("END");
    assert("END"@.len() != "QUOTE"@.len());
    reveal_strlit("INSERT");
    assert("INSERT"@.len() != "QUOTE"@.len());
    reveal_strlit("INS");
    assert("INS"@.len() != "QUOTE"@.len());
    reveal_strlit("DELETE");
    assert("DELETE"@.len() != "QUOTE"@.len());
    reveal_strlit("DEL");
    assert("DEL"@.len() != "QUOTE"@.len());
    reveal_strlit("PAGEUP");
    assert("PAGEUP"@.len() != "QUOTE"@.len());
    reveal_strlit("PGUP");
    assert("PGUP"@.len() != "QUOTE"@.len());
    reveal_strlit("PAGEDOWN");
    assert("PAGEDOWN"@.len() != "QUOTE"@.len());
    reveal_strlit("PGDN");
    assert("PGDN"@.len() != "QUOTE"@.len());
    reveal_strlit("UP");
    assert("UP"@.len() != "QUOTE"@.len());
    reveal_strlit("DOWN");
    assert("DOWN"@.len() != "QUOTE"@.len());
    reveal_strlit("LEFT");
    assert("LEFT"@.len() != "QUOTE"@.len());
    reveal_strlit("RIGHT");
    assert("RIGHT"@[0] != "QUOTE"@[0]);
    reveal_strlit("SPACE");
    assert("SPACE"@[0] != "QUOTE"@[0]);
    reveal_strlit("TAB");
    assert("TAB"@.len() != "QUOTE"@.len());
    reveal_strlit("ENTER");
    assert("ENTER"@[0] != "QUOTE"@[0]);
    reveal_strlit("RETURN");
    assert("RETURN"@.len() != "QUOTE"@.len());
    reveal_strlit("BACKSPACE");
    assert("BACKSPACE"@.len() != "QUOTE"@.len());
    reveal_strlit("BACK");
    assert("BACK"@.len() != "QUOTE"@.len());
    reveal_strlit("ESC");
    assert("ESC"@.len() != "QUOTE"@.len());
    reveal_strlit("ESCAPE");
    assert("ESCAPE"@.len() != "QUOTE"@.len());
    reveal_strlit("CAPSLOCK");
    assert("CAPSLOCK"@.len() != "QUOTE"@.len());
    reveal_strlit("SCROLLLOCK");
    assert("SCROLLLOCK"@.len() != "QUOTE"@.len());
    reveal_strlit("PAUSE");
    assert("PAUSE"@[0] != "QUOTE"@[0]);
    reveal_strlit("BREAK");
    assert("BREAK"@[0] != "QUOTE"@[0]);
    reveal_strlit("PRINTSCREEN");
    assert("PRINTSCREEN"@.len() != "QUOTE"@.len());
    reveal_strlit("PRTSC");
    assert("PRTSC"@[0] != "QUOTE"@[0]);
    reveal_strlit("RSHIFT");
    assert("RSHIFT"@.len() != "QUOTE"@.len());
    reveal_strlit(";");
    assert(";"@.len() != "QUOTE"@.len());
    reveal_strlit("SEMICOLON");
    assert("SEMICOLON"@.len() != "QUOTE"@.len());
    reveal_strlit("/");
    assert("/"@.len() != "QUOTE"@.len());
    reveal_strlit("SLASH");
    assert("SLASH"@[0] != "QUOTE"@[0]);
    reveal_strlit("`");
    assert("`"@.len() != "QUOTE"@.len());
    reveal_strlit("GRAVE");
    assert("GRAVE"@[0] != "QUOTE"@[0]);
    reveal_strlit("BACKTICK");
    assert("BACKTICK"@.len() != "QUOTE"@.len());
    reveal_strlit("[");
    assert("["@.len() != "QUOTE"@.len());
    reveal_strlit("\\");
    assert("\\"@.len() != "QUOTE"@.len());
    reveal_strlit("BACKSLASH");
    assert("BACKSLASH"@.len() != "QUOTE"@.len());
    reveal_strlit("]");
    assert("]"@.len() != "QUOTE"@.len());
    reveal_strlit("'");
    assert("'"@.len() != "QUOTE"@.len());
}

proof fn key_name_42()
    ensures
        key_vk("APOSTROPHE"@) == Some(0xDEu32),
{
    reveal_strlit("APOSTROPHE");
    reveal_strlit("HOME");
    assert("HOME"@.len() != "APOSTROPHE"@.len());
    reveal_strlit("END");
    assert("END"@.len() != "APOSTROPHE"@.len());
    reveal_strlit("INSERT");
    assert("INSERT"@.len() != "APOSTROPHE"@.len());
    reveal_strlit("INS");
    assert("INS"@.len() != "APOSTROPHE"@.len());
    reveal_strlit("DELETE");
    assert("DELETE"@.len() != "APOSTROPHE"@.len());
    reveal_strlit("DEL");
    assert("DEL"@.len() != "APOSTROPHE"@.len());
    reveal_strlit("PAGEUP");
    assert("PAGEUP"@.len() != "APOSTROPHE"@.len());
    reveal_strlit("PGUP");
    assert("PGUP"@.len() != "APOSTROPHE"@.len());
    reveal_strlit("PAGEDOWN");
    assert("PAGEDOWN"@.len() != "APOSTROPHE"@.len());
    reveal_strlit("PGDN");
    assert("PGDN"@.len() != "APOSTROPHE"@.len());
    reveal_strlit("UP");
    assert("UP"@.len() != "APOSTROPHE"@.len());
    reveal_strlit("DOWN");
    assert("DOWN"@.len() != "APOSTROPHE"@.len());
    reveal_strlit("LEFT");
    assert("LEFT"@.len() != "APOSTROPHE"@.len());
    reveal_strlit("RIGHT");
    assert("RIGHT"@.len() != "APOSTROPHE"@.len());
    reveal_strlit("SPACE");
    assert("SPACE"@.len() != "APOSTROPHE"@.len());
    reveal_strlit("TAB");
    assert("TAB"@.len() != "APOSTROPHE"@.len());
    reveal_strlit("ENTER");
    assert("ENTER"@.len() != "APOSTROPHE"@.len());
    reveal_strlit("RETURN");
    assert("RETURN"@.len() != "APOSTROPHE"@.len());
    reveal_strlit("BACKSPACE");
    assert("BACKSPACE"@.len() != "APOSTROPHE"@.len());
    reveal_strlit("BACK");
    assert("BACK"@.len() != "APOSTROPHE"@.len());
    reveal_strlit("ESC");
    assert("ESC"@.len() != "APOSTROPHE"@.len());
    reveal_strlit("ESCAPE");
    assert("ESCAPE"@.len() != "APOSTROPHE"@.len());
    reveal_strlit("CAPSLOCK");
    assert("CAPSLOCK"@.len() != "APOSTROPHE"@.len());
    reveal_strlit("SCROLLLOCK");
    assert("SCROLLLOCK"@[0] != "APOSTROPHE"@[0]);
    reveal_strlit("PAUSE");
    assert("PAUSE"@.len() != "APOSTROPHE"@.len());
    reveal_strlit("BREAK");
    assert("BREAK"@.len() != "APOSTROPHE"@.len());
    reveal_strlit("PRINTSCREEN");
    assert("PRINTSCREEN"@.len() != "APOSTROPHE"@.len());
    reveal_strlit("PRTSC");
    assert("PRTSC"@.len() != "APOSTROPHE"@.len());
    reveal_strlit("RSHIFT");
    assert("RSHIFT"@.len() != "APOSTROPHE"@.len());
    reveal_strlit(";");
    assert(";"@.len() != "APOSTROPHE"@.len());
    reveal_strlit("SEMICOLON");
    assert("SEMICOLON"@.len() != "APOSTROPHE"@.len());
    reveal_strlit("/");
    assert("/"@.len() != "APOSTROPHE"@.len());
    reveal_strlit("SLASH");
    assert("SLASH"@.len() != "APOSTROPHE"@.len());
    reveal_strlit("`");
    assert("`"@.len() != "APOSTROPHE"@.len());
    reveal_strlit("GRAVE");
    assert("GRAVE"@.len() != "APOSTROPHE"@.len());
    reveal_strlit("BACKTICK");
    assert("BACKTICK"@.len() != "APOSTROPHE"@.len());
    reveal_strlit("[");
    assert("["@.len() != "APOSTROPHE"@.len());
    reveal_strlit("\\");
    assert("\\"@.len() != "APOSTROPHE"@.len());
    reveal_strlit("BACKSLASH");
    assert("BACKSLASH"@.len() != "APOSTROPHE"@.len());
    reveal_strlit("]");
    assert("]"@.len() != "APOSTROPHE"@.len());
    reveal_strlit("'");
    assert("'"@.len() != "APOSTROPHE"@.len());
    reveal_strlit("QUOTE");
    assert("QUOTE"@.len() != "APOSTROPHE"@.len());
}

proof fn key_code_de(u: Seq<char>)
    ensures
        key_vk(u) == Some(0xDEu32) ==> (u == "'"@ || u == "QUOTE"@ || u == "APOSTROPHE"@),
        (u == "'"@ || u == "QUOTE"@ || u == "APOSTROPHE"@) ==> key_vk(u) == Some(0xDEu32),
{
    if u == "'"@ {
        key_name_40();
    }
    if u == "QUOTE"@ {
        key_name_41();
    }
    if u == "APOSTROPHE"@ {
        key_name_42();
    }
}

proof fn key_name_43()
    ensures
        key_vk(","@) == Some(0xBCu32),
{
    reveal_strlit(",");
    reveal_strlit("HOME");
    assert("HOME"@.len() != ","@.len());
    reveal_strlit("END");
    assert("END"@.len() != ","@.len());
    reveal_strlit("INSERT");
    assert("INSERT"@.len() != ","@.len());
    reveal_strlit("INS");
    assert("INS"@.len() != ","@.len());
    reveal_strlit("DELETE");
    assert("DELETE"@.len() != ","@.len());
    reveal_strlit("DEL");
    assert("DEL"@.len() != ","@.len());
    reveal_strlit("PAGEUP");
    assert("PAGEUP"@.len() != ","@.len());
    reveal_strlit("PGUP");
    assert("PGUP"@.len() != ","@.len());
    reveal_strlit("PAGEDOWN");
    assert("PAGEDOWN"@.len() != ","@.len());
    reveal_strlit("PGDN");
    assert("PGDN"@.len() != ","@.len());
    reveal_strlit("UP");
    assert("UP"@.len() != ","@.len());
    reveal_strlit("DOWN");
    assert("DOWN"@.len() != ","@.len());
    reveal_strlit("LEFT");
    assert("LEFT"@.len() != ","@.len());
    reveal_strlit("RIGHT");
    assert("RIGHT"@.len() != ","@.len());
    reveal_strlit("SPACE");
    assert("SPACE"@.len() != ","@.len());
    reveal_strlit("TAB");
    assert("TAB"@.len() != ","@.len());
    reveal_strlit("ENTER");
    assert("ENTER"@.len() != ","@.len());
    reveal_strlit("RETURN");
    assert("RETURN"@.len() != ","@.len());
    reveal_strlit("BACKSPACE");
    assert("BACKSPACE"@.len() != ","@.len());
    reveal_strlit("BACK");
    assert("BACK"@.len() != ","@.len());
    reveal_strlit("ESC");
    assert("ESC"@.len() != ","@.len());
    reveal_strlit("ESCAPE");
    assert("ESCAPE"@.len() != ","@.len());
    reveal_strlit("CAPSLOCK");
    assert("CAPSLOCK"@.len() != ","@.len());
    reveal_strlit("SCROLLLOCK");
    assert("SCROLLLOCK"@.len() != ","@.len());
    reveal_strlit("PAUSE");
    assert("PAUSE"@.len() != ","@.len());
    reveal_strlit("BREAK");
    assert("BREAK"@.len() != ","@.len());
    reveal_strlit("PRINTSCREEN");
    assert("PRINTSCREEN"@.len() != ","@.len());
    reveal_strlit("PRTSC");
    assert("PRTSC"@.len() != ","@.len());
    reveal_strlit("RSHIFT");
    assert("RSHIFT"@.len() != ","@.len());
    reveal_strlit(";");
    assert(";"@[0] != ","@[0]);
    reveal_strlit("SEMICOLON");
    assert("SEMICOLON"@.len() != ","@.len());
    reveal_strlit("/");
    assert("/"@[0] != ","@[0]);
    reveal_strlit("SLASH");
    assert("SLASH"@.len() != ","@.len());
    reveal_strlit("`");
    assert("`"@[0] != ","@[0]);
    reveal_strlit("GRAVE");
    assert("GRAVE"@.len() != ","@.len());
    reveal_strlit("BACKTICK");
    assert("BACKTICK"@.len() != ","@.len());
    reveal_strlit("[");
    assert("["@[0] != ","@[0]);
    reveal_strlit("\\");
    assert("\\"@[0] != ","@[0]);
    reveal_strlit("BACKSLASH");
    assert("BACKSLASH"@.len() != ","@.len());
    reveal_strlit("]");
    assert("]"@[0] != ","@[0]);
    reveal_strlit("'");
    assert("'"@[0] != ","@[0]);
    reveal_strlit("QUOTE");
    assert("QUOTE"@.len() != ","@.len());
    reveal_strlit("APOSTROPHE");
    assert("APOSTROPHE"@.len() != ","@.len());
}

proof fn key_name_44()
    ensures
        key_vk("COMMA"@) == Some(0xBCu32),
{
    reveal_strlit("COMMA");
    reveal_strlit("HOME");
    assert("HOME"@.len() != "COMMA"@.len());
    reveal_strlit("END");
    assert("END"@.len() != "COMMA"@.len());
    reveal_strlit("INSERT");
    assert("INSERT"@.len() != "COMMA"@.len());
    reveal_strlit("INS");
    assert("INS"@.len() != "COMMA"@.len());
    reveal_strlit("DELETE");
    assert("DELETE"@.len() != "COMMA"@.len());
    reveal_strlit("DEL");
    assert("DEL"@.len() != "COMMA"@.len());
    reveal_strlit("PAGEUP");
    assert("PAGEUP"@.len() != "COMMA"@.len());
    reveal_strlit("PGUP");
    assert("PGUP"@.len() != "COMMA"@.len());
    reveal_strlit("PAGEDOWN");
    assert("PAGEDOWN"@.len() != "COMMA"@.len());
    reveal_strlit("PGDN");
    assert("PGDN"@.len() != "COMMA"@.len());
    reveal_strlit("UP");
    assert("UP"@.len() != "COMMA"@.len());
    reveal_strlit("DOWN");
    assert("DOWN"@.len() != "COMMA"@.len());
    reveal_strlit("LEFT");
    assert("LEFT"@.len() != "COMMA"@.len());
    reveal_strlit("RIGHT");
    assert("RIGHT"@[0] != "COMMA"@[0]);
    reveal_strlit("SPACE");
    assert("SPACE"@[0] != "COMMA"@[0]);
    reveal_strlit("TAB");
    assert("TAB"@.len() != "COMMA"@.len());
    reveal_strlit("ENTER");
    assert("ENTER"@[0] != "COMMA"@[0]);
    reveal_strlit("RETURN");
    assert("RETURN"@.len() != "COMMA"@.len());
    reveal_strlit("BACKSPACE");
    assert("BACKSPACE"@.len() != "COMMA"@.len());
    reveal_strlit("BACK");
    assert("BACK"@.len() != "COMMA"@.len());
    reveal_strlit("ESC");
    assert("ESC"@.len() != "COMMA"@.len());
    reveal_strlit("ESCAPE");
    assert("ESCAPE"@.len() != "COMMA"@.len());
    reveal_strlit("CAPSLOCK");
    assert("CAPSLOCK"@.len() != "COMMA"@.len());
    reveal_strlit("SCROLLLOCK");
    assert("SCROLLLOCK"@.len() != "COMMA"@.len());
    reveal_strlit("PAUSE");
    assert("PAUSE"@[0] != "COMMA"@[0]);
    reveal_strlit("BREAK");
    assert("BREAK"@[0] != "COMMA"@[0]);
    reveal_strlit("PRINTSCREEN");
    assert("PRINTSCREEN"@.len() != "COMMA"@.len());
    reveal_strlit("PRTSC");
    assert("PRTSC"@[0] != "COMMA"@[0]);
    reveal_strlit("RSHIFT");
    assert("RSHIFT"@.len() != "COMMA"@.len());
    reveal_strlit(";");
    assert(";"@.len() != "COMMA"@.len());
    reveal_strlit("SEMICOLON");
    assert("SEMICOLON"@.len() != "COMMA"@.len());
    reveal_strlit("/");
    assert("/"@.len() != "COMMA"@.len());
    reveal_strlit("SLASH");
    assert("SLASH"@[0] != "COMMA"@[0]);
    reveal_strlit("`");
    assert("`"@.len() != "COMMA"@.len());
    reveal_strlit("GRAVE");
    assert("GRAVE"@[0] != "COMMA"@[0]);
    reveal_strlit("BACKTICK");
    assert("BACKTICK"@.len() != "COMMA"@.len());
    reveal_strlit("[");
    assert("["@.len() != "COMMA"@.len());
    reveal_strlit("\\");
    assert("\\"@.len() != "COMMA"@.len());
    reveal_strlit("BACKSLASH");
    assert("BACKSLASH"@.len() != "COMMA"@.len());
    reveal_strlit("]");
    assert("]"@.len() != "COMMA"@.len());
    reveal_strlit("'");
    assert("'"@.len() != "COMMA"@.len());
    reveal_strlit("QUOTE");
    assert("QUOTE"@[0] != "COMMA"@[0]);
    reveal_strlit("APOSTROPHE");
    assert("APOSTROPHE"@.len() != "COMMA"@.len());
    reveal_strlit(",");
    assert(","@.len() != "COMMA"@.len());
}

proof fn key_code_bc(u: Seq<char>)
    ensures
        key_vk(u) == Some(0xBCu32) ==> (u == ","@ || u == "COMMA"@),
        (u == ","@ || u == "COMMA"@) ==> key_vk(u) == Some(0xBCu32),
{
    if u == ","@ {
        key_name_43();
    }
    if u == "COMMA"@ {
        key_name_44();
    }
}

proof fn key_name_45()
    ensures
        key_vk("."@) == Some(0xBEu32),
{
    reveal_strlit(".");
    reveal_strlit("HOME");
    assert("HOME"@.len() != "."@.len());
    reveal_strlit("END");
    assert("END"@.len() != "."@.len());
    reveal_strlit("INSERT");
    assert("INSERT"@.len() != "."@.len());
    reveal_strlit("INS");
    assert("INS"@.len() != "."@.len());
    reveal_strlit("DELETE");
    assert("DELETE"@.len() != "."@.len());
    reveal_strlit("DEL");
    assert("DEL"@.len() != "."@.len());
    reveal_strlit("PAGEUP");
    assert("PAGEUP"@.len() != "."@.len());
    reveal_strlit("PGUP");
    assert("PGUP"@.len() != "."@.len());
    reveal_strlit("PAGEDOWN");
    assert("PAGEDOWN"@.len() != "."@.len());
    reveal_strlit("PGDN");
    assert("PGDN"@.len() != "."@.len());
    reveal_strlit("UP");
    assert("UP"@.len() != "."@.len());
    reveal_strlit("DOWN");
    assert("DOWN"@.len() != "."@.len());
    reveal_strlit("LEFT");
    assert("LEFT"@.len() != "."@.len());
    reveal_strlit("RIGHT");
    assert("RIGHT"@.len() != "."@.len());
    reveal_strlit("SPACE");
    assert("SPACE"@.len() != "."@.len());
    reveal_strlit("TAB");
    assert("TAB"@.len() != "."@.len());
    reveal_strlit("ENTER");
    assert("ENTER"@.len() != "."@.len());
    reveal_strlit("RETURN");
    assert("RETURN"@.len() != "."@.len());
    reveal_strlit("BACKSPACE");
    assert("BACKSPACE"@.len() != "."@.len());
    reveal_strlit("BACK");
    assert("BACK"@.len() != "."@.len());
    reveal_strlit("ESC");
    assert("ESC"@.len() != "."@.len());
    reveal_strlit("ESCAPE");
    assert("ESCAPE"@.len() != "."@.len());
    reveal_strlit("CAPSLOCK");
    assert("CAPSLOCK"@.len() != "."@.len());
    reveal_strlit("SCROLLLOCK");
    assert("SCROLLLOCK"@.len() != "."@.len());
    reveal_strlit("PAUSE");
    assert("PAUSE"@.len() != "."@.len());
    reveal_strlit("BREAK");
    assert("BREAK"@.len() != "."@.len());
    reveal_strlit("PRINTSCREEN");
    assert("PRINTSCREEN"@.len() != "."@.len());
    reveal_strlit("PRTSC");
    assert("PRTSC"@.len() != "."@.len());
    reveal_strlit("RSHIFT");
    assert("RSHIFT"@.len() != "."@.len());
    reveal_strlit(";");
    assert(";"@[0] != "."@[0]);
    reveal_strlit("SEMICOLON");
    assert("SEMICOLON"@.len() != "."@.len());
    reveal_strlit("/");
    assert("/"@[0] != "."@[0]);
    reveal_strlit("SLASH");
    assert("SLASH"@.len() != "."@.len());
    reveal_strlit("`");
    assert("`"@[0] != "."@[0]);
    reveal_strlit("GRAVE");
    assert("GRAVE"@.len() != "."@.len());
    reveal_strlit("BACKTICK");
    assert("BACKTICK"@.len() != "."@.len());
    reveal_strlit("[");
    assert("["@[0] != "."@[0]);
    reveal_strlit("\\");
    assert("\\"@[0] != "."@[0]);
    reveal_strlit("BACKSLASH");
    assert("BACKSLASH"@.len() != "."@.len());
    reveal_strlit("]");
    assert("]"@[0] != "."@[0]);
    reveal_strlit("'");
    assert("'"@[0] != "."@[0]);
    reveal_strlit("QUOTE");
    assert("QUOTE"@.len() != "."@.len());
    reveal_strlit("APOSTROPHE");
    assert("APOSTROPHE"@.len() != "."@.len());
    reveal_strlit(",");
    assert(","@[0] != "."@[0]);
    reveal_strlit("COMMA");
    assert("COMMA"@.len() != "."@.len());
}

proof fn key_name_46()
    ensures
        key_vk("PERIOD"@) == Some(0xBEu32),
{
    reveal_strlit("PERIOD");
    reveal_strlit("HOME");
    assert("HOME"@.len() != "PERIOD"@.len());
    reveal_strlit("END");
    assert("END"@.len() != "PERIOD"@.len());
    reveal_strlit("INSERT");
    assert("INSERT"@[0] != "PERIOD"@[0]);
    reveal_strlit("INS");
    assert("INS"@.len() != "PERIOD"@.len());
    reveal_strlit("DELETE");
    assert("DELETE"@[0] != "PERIOD"@[0]);
    reveal_strlit("DEL");
    assert("DEL"@.len() != "PERIOD"@.len());
    reveal_strlit("PAGEUP");
    assert("PAGEUP"@[1] != "PERIOD"@[1]);
    reveal_strlit("PGUP");
    assert("PGUP"@.len() != "PERIOD"@.len());
    reveal_strlit("PAGEDOWN");
    assert("PAGEDOWN"@.len() != "PERIOD"@.len());
    reveal_strlit("PGDN");
    assert("PGDN"@.len() != "PERIOD"@.len());
    reveal_strlit("UP");
    assert("UP"@.len() != "PERIOD"@.len());
    reveal_strlit("DOWN");
    assert("DOWN"@.len() != "PERIOD"@.len());
    reveal_strlit("LEFT");
    assert("LEFT"@.len() != "PERIOD"@.len());
    reveal_strlit("RIGHT");
    assert("RIGHT"@.len() != "PERIOD"@.len());
    reveal_strlit("SPACE");
    assert("SPACE"@.len() != "PERIOD"@.len());
    reveal_strlit("TAB");
    assert("TAB"@.len() != "PERIOD"@.len());
    reveal_strlit("ENTER");
    assert("ENTER"@.len() != "PERIOD"@.len());
    reveal_strlit("RETURN");
    assert("RETURN"@[0] != "PERIOD"@[0]);
    reveal_strlit("BACKSPACE");
    assert("BACKSPACE"@.len() != "PERIOD"@.len());
    reveal_strlit("BACK");
    assert("BACK"@.len() != "PERIOD"@.len());
    reveal_strlit("ESC");
    assert("ESC"@.len() != "PERIOD"@.len());
    reveal_strlit("ESCAPE");
    assert("ESCAPE"@[0] != "PERIOD"@[0]);
    reveal_strlit("CAPSLOCK");
    assert("CAPSLOCK"@.len() != "PERIOD"@.len());
    reveal_strlit("SCROLLLOCK");
    assert("SCROLLLOCK"@.len() != "PERIOD"@.len());
    reveal_strlit("PAUSE");
    assert("PAUSE"@.len() != "PERIOD"@.len());
    reveal_strlit("BREAK");
    assert("BREAK"@.len() != "PERIOD"@.len());
    reveal_strlit("PRINTSCREEN");
    assert("PRINTSCREEN"@.len() != "PERIOD"@.len());
    reveal_strlit("PRTSC");
    assert("PRTSC"@.len() != "PERIOD"@.len());
    reveal_strlit("RSHIFT");
    assert("RSHIFT"@[0] != "PERIOD"@[0]);
    reveal_strlit(";");
    assert(";"@.len() != "PERIOD"@.len());
    reveal_strlit("SEMICOLON");
    assert("SEMICOLON"@.len() != "PERIOD"@.len());
    reveal_strlit("/");
    assert("/"@.len() != "PERIOD"@.len());
    reveal_strlit("SLASH");
    assert("SLASH"@.len() != "PERIOD"@.len());
    reveal_strlit("`");
    assert("`"@.len() != "PERIOD"@.len());
    reveal_strlit("GRAVE");
    assert("GRAVE"@.len() != "PERIOD"@.len());
    reveal_strlit("BACKTICK");
    assert("BACKTICK"@.len() != "PERIOD"@.len());
    reveal_strlit("[");
    assert("["@.len() != "PERIOD"@.len());
    reveal_strlit("\\");
    assert("\\"@.len() != "PERIOD"@.len());
    reveal_strlit("BACKSLASH");
    assert("BACKSLASH"@.len() != "PERIOD"@.len());
    reveal_strlit("]");
    assert("]"@.len() != "PERIOD"@.len());
    reveal_strlit("'");
    assert("'"@.len() != "PERIOD"@.len());
    reveal_strlit("QUOTE");
    assert("QUOTE"@.len() != "PERIOD"@.len());
    reveal_strlit("APOSTROPHE");
    assert("APOSTROPHE"@.len() != "PERIOD"@.len());
    reveal_strlit(",");
    assert(","@.len() != "PERIOD"@.len());
    reveal_strlit("COMMA");
    assert("COMMA"@.len() != "PERIOD"@.len());
    reveal_strlit(".");
    assert("."@.len() != "PERIOD"@.len());
}

proof fn key_code_be(u: Seq<char>)
    ensures
        key_vk(u) == Some(0xBEu32) ==> (u == "."@ || u == "PERIOD"@),
        (u == "."@ || u == "PERIOD"@) ==> key_vk(u) == Some(0xBEu32),
{
    if u == "."@ {
        key_name_45();
    }
    if u == "PERIOD"@ {
        key_name_46();
    }
}

proof fn key_name_47()
    ensures
        key_vk("-"@) == Some(0xBDu32),
{
    reveal_strlit("-");
    reveal_strlit("HOME");
    assert("HOME"@.len() != "-"@.len());
    reveal_strlit("END");
    assert("END"@.len() != "-"@.len());
    reveal_strlit("INSERT");
    assert("INSERT"@.len() != "-"@.len());
    reveal_strlit("INS");
    assert("INS"@.len() != "-"@.len());
    reveal_strlit("DELETE");
    assert("DELETE"@.len() != "-"@.len());
    reveal_strlit("DEL");
    assert("DEL"@.len() != "-"@.len());
    reveal_strlit("PAGEUP");
    assert("PAGEUP"@.len() != "-"@.len());
    reveal_strlit("PGUP");
    assert("PGUP"@.len() != "-"@.len());
    reveal_strlit("PAGEDOWN");
    assert("PAGEDOWN"@.len() != "-"@.len());
    reveal_strlit("PGDN");
    assert("PGDN"@.len() != "-"@.len());
    reveal_strlit("UP");
    assert("UP"@.len() != "-"@.len());
    reveal_strlit("DOWN");
    assert("DOWN"@.len() != "-"@.len());
    reveal_strlit("LEFT");
    assert("LEFT"@.len() != "-"@.len());
    reveal_strlit("RIGHT");
    assert("RIGHT"@.len() != "-"@.len());
    reveal_strlit("SPACE");
    assert("SPACE"@.len() != "-"@.len());
    reveal_strlit("TAB");
    assert("TAB"@.len() != "-"@.len());
    reveal_strlit("ENTER");
    assert("ENTER"@.len() != "-"@.len());
    reveal_strlit("RETURN");
    assert("RETURN"@.len() != "-"@.len());
    reveal_strlit("BACKSPACE");
    assert("BACKSPACE"@.len() != "-"@.len());
    reveal_strlit("BACK");
    assert("BACK"@.len() != "-"@.len());
    reveal_strlit("ESC");
    assert("ESC"@.len() != "-"@.len());
    reveal_strlit("ESCAPE");
    assert("ESCAPE"@.len() != "-"@.len());
    reveal_strlit("CAPSLOCK");
    assert("CAPSLOCK"@.len() != "-"@.len());
    reveal_strlit("SCROLLLOCK");
    assert("SCROLLLOCK"@.len() != "-"@.len());
    reveal_strlit("PAUSE");
    assert("PAUSE"@.len() != "-"@.len());
    reveal_strlit("BREAK");
    assert("BREAK"@.len() != "-"@.len());
    reveal_strlit("PRINTSCREEN");
    assert("PRINTSCREEN"@.len() != "-"@.len());
    reveal_strlit("PRTSC");
    assert("PRTSC"@.len() != "-"@.len());
    reveal_strlit("RSHIFT");
    assert("RSHIFT"@.len() != "-"@.len());
    reveal_strlit(";");
    assert(";"@[0] != "-"@[0]);
    reveal_strlit("SEMICOLON");
    assert("SEMICOLON"@.len() != "-"@.len());
    reveal_strlit("/");
    assert("/"@[0] != "-"@[0]);
    reveal_strlit("SLASH");
    assert("SLASH"@.len() != "-"@.len());
    reveal_strlit("`");
    assert("`"@[0] != "-"@[0]);
    reveal_strlit("GRAVE");
    assert("GRAVE"@.len() != "-"@.len());
    reveal_strlit("BACKTICK");
    assert("BACKTICK"@.len() != "-"@.len());
    reveal_strlit("[");
    assert("["@[0] != "-"@[0]);
    reveal_strlit("\\");
    assert("\\"@[0] != "-"@[0]);
    reveal_strlit("BACKSLASH");
    assert("BACKSLASH"@.len() != "-"@.len());
    reveal_strlit("]");
    assert("]"@[0] != "-"@[0]);
    reveal_strlit("'");
    assert("'"@[0] != "-"@[0]);
    reveal_strlit("QUOTE");
    assert("QUOTE"@.len() != "-"@.len());
    reveal_strlit("APOSTROPHE");
    assert("APOSTROPHE"@.len() != "-"@.len());
    reveal_strlit(",");
    assert(","@[0] != "-"@[0]);
    reveal_strlit("COMMA");
    assert("COMMA"@.len() != "-"@.len());
    reveal_strlit(".");
    assert("."@[0] != "-"@[0]);
    reveal_strlit("PERIOD");
    assert("PERIOD"@.len() != "-"@.len());
}

proof fn key_name_48()
    ensures
        key_vk("MINUS"@) == Some(0xBDu32),
{
    reveal_strlit("MINUS");
    reveal_strlit("HOME");
    assert("HOME"@.len() != "MINUS"@.len());
    reveal_strlit("END");
    assert("END"@.len() != "MINUS"@.len());
    reveal_strlit("INSERT");
    assert("INSERT"@.len() != "MINUS"@.len());
    reveal_strlit("INS");
    assert("INS"@.len() != "MINUS"@.len());
    reveal_strlit("DELETE");
    assert("DELETE"@.len() != "MINUS"@.len());
    reveal_strlit("DEL");
    assert("DEL"@.len() != "MINUS"@.len());
    reveal_strlit("PAGEUP");
    assert("PAGEUP"@.len() != "MINUS"@.len());
    reveal_strlit("PGUP");
    assert("PGUP"@.len() != "MINUS"@.len());
    reveal_strlit("PAGEDOWN");
    assert("PAGEDOWN"@.len() != "MINUS"@.len());
    reveal_strlit("PGDN");
    assert("PGDN"@.len() != "MINUS"@.len());
    reveal_strlit("UP");
    assert("UP"@.len() != "MINUS"@.len());
    reveal_strlit("DOWN");
    assert("DOWN"@.len() != "MINUS"@.len());
    reveal_strlit("LEFT");
    assert("LEFT"@.len() != "MINUS"@.len());
    reveal_strlit("RIGHT");
    assert("RIGHT"@[0] != "MINUS"@[0]);
    reveal_strlit("SPACE");
    assert("SPACE"@[0] != "MINUS"@[0]);
    reveal_strlit("TAB");
    assert("TAB"@.len() != "MINUS"@.len());
    reveal_strlit("ENTER");
    assert("ENTER"@[0] != "MINUS"@[0]);
    reveal_strlit("RETURN");
    assert("RETURN"@.len() != "MINUS"@.len());
    reveal_strlit("BACKSPACE");
    assert("BACKSPACE"@.len() != "MINUS"@.len());
    reveal_strlit("BACK");
    assert("BACK"@.len() != "MINUS"@.len());
    reveal_strlit("ESC");
    assert("ESC"@.len() != "MINUS"@.len());
    reveal_strlit("ESCAPE");
    assert("ESCAPE"@.len() != "MINUS"@.len());
    reveal_strlit("CAPSLOCK");
    assert("CAPSLOCK"@.len() != "MINUS"@.len());
    reveal_strlit("SCROLLLOCK");
    assert("SCROLLLOCK"@.len() != "MINUS"@.len());
    reveal_strlit("PAUSE");
    assert("PAUSE"@[0] != "MINUS"@[0]);
    reveal_strlit("BREAK");
    assert("BREAK"@[0] != "MINUS"@[0]);
    reveal_strlit("PRINTSCREEN");
    assert("PRINTSCREEN"@.len() != "MINUS"@.len());
    reveal_strlit("PRTSC");
    assert("PRTSC"@[0] != "MINUS"@[0]);
    reveal_strlit("RSHIFT");
    assert("RSHIFT"@.len() != "MINUS"@.len());
    reveal_strlit(";");
    assert(";"@.len() != "MINUS"@.len());
    reveal_strlit("SEMICOLON");
    assert("SEMICOLON"@.len() != "MINUS"@.len());
    reveal_strlit("/");
    assert("/"@.len() != "MINUS"@.len());
    reveal_strlit("SLASH");
    assert("SLASH"@[0] != "MINUS"@[0]);
    reveal_strlit("`");
    assert("`"@.len() != "MINUS"@.len());
    reveal_strlit("GRAVE");
    assert("GRAVE"@[0] != "MINUS"@[0]);
    reveal_strlit("BACKTICK");
    assert("BACKTICK"@.len() != "MINUS"@.len());
    reveal_strlit("[");
    assert("["@.len() != "MINUS"@.len());
    reveal_strlit("\\");
    assert("\\"@.len() != "MINUS"@.len());
    reveal_strlit("BACKSLASH");
    assert("BACKSLASH"@.len() != "MINUS"@.len());
    reveal_strlit("]");
    assert("]"@.len() != "MINUS"@.len());
    reveal_strlit("'");
    assert("'"@.len() != "MINUS"@.len());
    reveal_strlit("QUOTE");
    assert("QUOTE"@[0] != "MINUS"@[0]);
    reveal_strlit("APOSTROPHE");
    assert("APOSTROPHE"@.len() != "MINUS"@.len());
    reveal_strlit(",");
    assert(","@.len() != "MINUS"@.len());
    reveal_strlit("COMMA");
    assert("COMMA"@[0] != "MINUS"@[0]);
    reveal_strlit(".");
    assert("."@.len() != "MINUS"@.len());
    reveal_strlit("PERIOD");
    assert("PERIOD"@.len() != "MINUS"@.len());
    reveal_strlit("-");
    assert("-"@.len() != "MINUS"@.len());
}

proof fn key_code_bd(u: Seq<char>)
    ensures
        key_vk(u) == Some(0xBDu32) ==> (u == "-"@ || u == "MINUS"@),
        (u == "-"@ || u == "MINUS"@) ==> key_vk(u) == Some(0xBDu32),
{
    if u == "-"@ {
        key_name_47();
    }
    if u == "MINUS"@ {
        key_name_48();
    }
}

proof fn key_name_49()
    ensures
        key_vk("="@) == Some(0xBBu32),
{
    reveal_strlit("=");
    reveal_strlit("HOME");
    assert("HOME"@.len() != "="@.len());
    reveal_strlit("END");
    assert("END"@.len() != "="@.len());
    reveal_strlit("INSERT");
    assert("INSERT"@.len() != "="@.len());
    reveal_strlit("INS");
    assert("INS"@.len() != "="@.len());
    reveal_strlit("DELETE");
    assert("DELETE"@.len() != "="@.len());
    reveal_strlit("DEL");
    assert("DEL"@.len() != "="@.len());
    reveal_strlit("PAGEUP");
    assert("PAGEUP"@.len() != "="@.len());
    reveal_strlit("PGUP");
    assert("PGUP"@.len() != "="@.len());
    reveal_strlit("PAGEDOWN");
    assert("PAGEDOWN"@.len() != "="@.len());
    reveal_strlit("PGDN");
    assert("PGDN"@.len() != "="@.len());
    reveal_strlit("UP");
    assert("UP"@.len() != "="@.len());
    reveal_strlit("DOWN");
    assert("DOWN"@.len() != "="@.len());
    reveal_strlit("LEFT");
    assert("LEFT"@.len() != "="@.len());
    reveal_strlit("RIGHT");
    assert("RIGHT"@.len() != "="@.len());
    reveal_strlit("SPACE");
    assert("SPACE"@.len() != "="@.len());
    reveal_strlit("TAB");
    assert("TAB"@.len() != "="@.len());
    reveal_strlit("ENTER");
    assert("ENTER"@.len() != "="@.len());
    reveal_strlit("RETURN");
    assert("RETURN"@.len() != "="@.len());
    reveal_strlit("BACKSPACE");
    assert("BACKSPACE"@.len() != "="@.len());
    reveal_strlit("BACK");
    assert("BACK"@.len() != "="@.len());
    reveal_strlit("ESC");
    assert("ESC"@.len() != "="@.len());
    reveal_strlit("ESCAPE");
    assert("ESCAPE"@.len() != "="@.len());
    reveal_strlit("CAPSLOCK");
    assert("CAPSLOCK"@.len() != "="@.len());
    reveal_strlit("SCROLLLOCK");
    assert("SCROLLLOCK"@.len() != "="@.len());
    reveal_strlit("PAUSE");
    assert("PAUSE"@.len() != "="@.len());
    reveal_strlit("BREAK");
    assert("BREAK"@.len() != "="@.len());
    reveal_strlit("PRINTSCREEN");
    assert("PRINTSCREEN"@.len() != "="@.len());
    reveal_strlit("PRTSC");
    assert("PRTSC"@.len() != "="@.len());
    reveal_strlit("RSHIFT");
    assert("RSHIFT"@.len() != "="@.len());
    reveal_strlit(";");
    assert(";"@[0] != "="@[0]);
    reveal_strlit("SEMICOLON");
    assert("SEMICOLON"@.len() != "="@.len());
    reveal_strlit("/");
    assert("/"@[0] != "="@[0]);
    reveal_strlit("SLASH");
    assert("SLASH"@.len() != "="@.len());
    reveal_strlit("`");
    assert("`"@[0] != "="@[0]);
    reveal_strlit("GRAVE");
    assert("GRAVE"@.len() != "="@.len());
    reveal_strlit("BACKTICK");
    assert("BACKTICK"@.len() != "="@.len());
    reveal_strlit("[");
    assert("["@[0] != "="@[0]);
    reveal_strlit("\\");
    assert("\\"@[0] != "="@[0]);
    reveal_strlit("BACKSLASH");
    assert("BACKSLASH"@.len() != "="@.len());
    reveal_strlit("]");
    assert("]"@[0] != "="@[0]);
    reveal_strlit("'");
    assert("'"@[0] != "="@[0]);
    reveal_strlit("QUOTE");
    assert("QUOTE"@.len() != "="@.len());
    reveal_strlit("APOSTROPHE");
    assert("APOSTROPHE"@.len() != "="@.len());
    reveal_strlit(",");
    assert(","@[0] != "="@[0]);
    reveal_strlit("COMMA");
    assert("COMMA"@.len() != "="@.len());
    reveal_strlit(".");
    assert("."@[0] != "="@[0]);
    reveal_strlit("PERIOD");
    assert("PERIOD"@.len() != "="@.len());
    reveal_strlit("-");
    assert("-"@[0] != "="@[0]);
    reveal_strlit("MINUS");
    assert("MINUS"@.len() != "="@.len());
}

proof fn key_name_50()
    ensures
        key_vk("PLUS"@) == Some(0xBBu32),
{
    reveal_strlit("PLUS");
    reveal_strlit("HOME");
    assert("HOME"@[0] != "PLUS"@[0]);
    reveal_strlit("END");
    assert("END"@.len() != "PLUS"@.len());
    reveal_strlit("INSERT");
    assert("INSERT"@.len() != "PLUS"@.len());
    reveal_strlit("INS");
    assert("INS"@.len() != "PLUS"@.len());
    reveal_strlit("DELETE");
    assert("DELETE"@.len() != "PLUS"@.len());
    reveal_strlit("DEL");
    assert("DEL"@.len() != "PLUS"@.len());
    reveal_strlit("PAGEUP");
    assert("PAGEUP"@.len() != "PLUS"@.len());
    reveal_strlit("PGUP");
    assert("PGUP"@[1] != "PLUS"@[1]);
    reveal_strlit("PAGEDOWN");
    assert("PAGEDOWN"@.len() != "PLUS"@.len());
    reveal_strlit("PGDN");
    assert("PGDN"@[1] != "PLUS"@[1]);
    reveal_strlit("UP");
    assert("UP"@.len() != "PLUS"@.len());
    reveal_strlit("DOWN");
    assert("DOWN"@[0] != "PLUS"@[0]);
    reveal_strlit("LEFT");
    assert("LEFT"@[0] != "PLUS"@[0]);
    reveal_strlit("RIGHT");
    assert("RIGHT"@.len() != "PLUS"@.len());
    reveal_strlit("SPACE");
    assert("SPACE"@.len() != "PLUS"@.len());
    reveal_strlit("TAB");
    assert("TAB"@.len() != "PLUS"@.len());
    reveal_strlit("ENTER");
    assert("ENTER"@.len() != "PLUS"@.len());
    reveal_strlit("RETURN");
    assert("RETURN"@.len() != "PLUS"@.len());
    reveal_strlit("BACKSPACE");
    assert("BACKSPACE"@.len() != "PLUS"@.len());
    reveal_strlit("BACK");
    assert("BACK"@[0] != "PLUS"@[0]);
    reveal_strlit("ESC");
    assert("ESC"@.len() != "PLUS"@.len());
    reveal_strlit("ESCAPE");
    assert("ESCAPE"@.len() != "PLUS"@.len());
    reveal_strlit("CAPSLOCK");
    assert("CAPSLOCK"@.len() != "PLUS"@.len());
    reveal_strlit("SCROLLLOCK");
    assert("SCROLLLOCK"@.len() != "PLUS"@.len());
    reveal_strlit("PAUSE");
    assert("PAUSE"@.len() != "PLUS"@.len());
    reveal_strlit("BREAK");
    assert("BREAK"@.len() != "PLUS"@.len());
    reveal_strlit("PRINTSCREEN");
    assert("PRINTSCREEN"@.len() != "PLUS"@.len());
    reveal_strlit("PRTSC");
    assert("PRTSC"@.len() != "PLUS"@.len());
    reveal_strlit("RSHIFT");
    assert("RSHIFT"@.len() != "PLUS"@.len());
    reveal_strlit(";");
    assert(";"@.len() != "PLUS"@.len());
    reveal_strlit("SEMICOLON");
    assert("SEMICOLON"@.len() != "PLUS"@.len());
    reveal_strlit("/");
    assert("/"@.len() != "PLUS"@.len());
    reveal_strlit("SLASH");
    assert("SLASH"@.len() != "PLUS"@.len());
    reveal_strlit("`");
    assert("`"@.len() != "PLUS"@.len());
    reveal_strlit("GRAVE");
    assert("GRAVE"@.len() != "PLUS"@.len());
    reveal_strlit("BACKTICK");
    assert("BACKTICK"@.len() != "PLUS"@.len());
    reveal_strlit("[");
    assert("["@.len() != "PLUS"@.len());
    reveal_strlit("\\");
    assert("\\"@.len() != "PLUS"@.len());
    reveal_strlit("BACKSLASH");
    assert("BACKSLASH"@.len() != "PLUS"@.len());
    reveal_strlit("]");
    assert("]"@.len() != "PLUS"@.len());
    reveal_strlit("'");
    assert("'"@.len() != "PLUS"@.len());
    reveal_strlit("QUOTE");
    assert("QUOTE"@.len() != "PLUS"@.len());
    reveal_strlit("APOSTROPHE");
    assert("APOSTROPHE"@.len() != "PLUS"@.len());
    reveal_strlit(",");
    assert(","@.len() != "PLUS"@.len());
    reveal_strlit("COMMA");
    assert("COMMA"@.len() != "PLUS"@.len());
    reveal_strlit(".");
    assert("."@.len() != "PLUS"@.len());
    reveal_strlit("PERIOD");
    assert("PERIOD"@.len() != "PLUS"@.len());
    reveal_strlit("-");
    assert("-"@.len() != "PLUS"@.len());
    reveal_strlit("MINUS");
    assert("MINUS"@.len() != "PLUS"@.len());
    reveal_strlit("=");
    assert("="@.len() != "PLUS"@.len());
}

proof fn key_name_51()
    ensures
        key_vk("EQUALS"@) == Some(0xBBu32),
{
    reveal_strlit("EQUALS");
    reveal_strlit("HOME");
    assert("HOME"@.len() != "EQUALS"@.len());
    reveal_strlit("END");
    assert("END"@.len() != "EQUALS"@.len());
    reveal_strlit("INSERT");
    assert("INSERT"@[0] != "EQUALS"@[0]);
    reveal_strlit("INS");
    assert("INS"@.len() != "EQUALS"@.len());
    reveal_strlit("DELETE");
    assert("DELETE"@[0] != "EQUALS"@[0]);
    reveal_strlit("DEL");
    assert("DEL"@.len() != "EQUALS"@.len());
    reveal_strlit("PAGEUP");
    assert("PAGEUP"@[0] != "EQUALS"@[0]);
    reveal_strlit("PGUP");
    assert("PGUP"@.len() != "EQUALS"@.len());
    reveal_strlit("PAGEDOWN");
    assert("PAGEDOWN"@.len() != "EQUALS"@.len());
    reveal_strlit("PGDN");
    assert("PGDN"@.len() != "EQUALS"@.len());
    reveal_strlit("UP");
    assert("UP"@.len() != "EQUALS"@.len());
    reveal_strlit("DOWN");
    assert("DOWN"@.len() != "EQUALS"@.len());
    reveal_strlit("LEFT");
    assert("LEFT"@.len() != "EQUALS"@.len());
    reveal_strlit("RIGHT");
    assert("RIGHT"@.len() != "EQUALS"@.len());
    reveal_strlit("SPACE");
    assert("SPACE"@.len() != "EQUALS"@.len());
    reveal_strlit("TAB");
    assert("TAB"@.len() != "EQUALS"@.len());
    reveal_strlit("ENTER");
    assert("ENTER"@.len() != "EQUALS"@.len());
    reveal_strlit("RETURN");
    assert("RETURN"@[0] != "EQUALS"@[0]);
    reveal_strlit("BACKSPACE");
    assert("BACKSPACE"@.len() != "EQUALS"@.len());
    reveal_strlit("BACK");
    assert("BACK"@.len() != "EQUALS"@.len());
    reveal_strlit("ESC");
    assert("ESC"@.len() != "EQUALS"@.len());
    reveal_strlit("ESCAPE");
    assert("ESCAPE"@[1] != "EQUALS"@[1]);
    reveal_strlit("CAPSLOCK");
    assert("CAPSLOCK"@.len() != "EQUALS"@.len());
    reveal_strlit("SCROLLLOCK");
    assert("SCROLLLOCK"@.len() != "EQUALS"@.len());
    reveal_strlit("PAUSE");
    assert("PAUSE"@.len() != "EQUALS"@.len());
    reveal_strlit("BREAK");
    assert("BREAK"@.len() != "EQUALS"@.len());
    reveal_strlit("PRINTSCREEN");
    assert("PRINTSCREEN"@.len() != "EQUALS"@.len());
    reveal_strlit("PRTSC");
    assert("PRTSC"@.len() != "EQUALS"@.len());
    reveal_strlit("RSHIFT");
    assert("RSHIFT"@[0] != "EQUALS"@[0]);
    reveal_strlit(";");
    assert(";"@.len() != "EQUALS"@.len());
    reveal_strlit("SEMICOLON");
    assert("SEMICOLON"@.len() != "EQUALS"@.len());
    reveal_strlit("/");
    assert("/"@.len() != "EQUALS"@.len());
    reveal_strlit("SLASH");
    assert("SLASH"@.len() != "EQUALS"@.len());
    reveal_strlit("`");
    assert("`"@.len() != "EQUALS"@.len());
    reveal_strlit("GRAVE");
    assert("GRAVE"@.len() != "EQUALS"@.len());
    reveal_strlit("BACKTICK");
    assert("BACKTICK"@.len() != "EQUALS"@.len());
    reveal_strlit("[");
    assert("["@.len() != "EQUALS"@.len());
    reveal_strlit("\\");
    assert("\\"@.len() != "EQUALS"@.len());
    reveal_strlit("BACKSLASH");
    assert("BACKSLASH"@.len() != "EQUALS"@.len());
    reveal_strlit("]");
    assert("]"@.len() != "EQUALS"@.len());
    reveal_strlit("'");
    assert("'"@.len() != "EQUALS"@.len());
    reveal_strlit("QUOTE");
    assert("QUOTE"@.len() != "EQUALS"@.len());
    reveal_strlit("APOSTROPHE");
    assert("APOSTROPHE"@.len() != "EQUALS"@.len());
    reveal_strlit(",");
    assert(","@.len() != "EQUALS"@.len());
    reveal_strlit("COMMA");
    assert("COMMA"@.len() != "EQUALS"@.len());
    reveal_strlit(".");
    assert("."@.len() != "EQUALS"@.len());
    reveal_strlit("PERIOD");
    assert("PERIOD"@[0] != "EQUALS"@[0]);
    reveal_strlit("-");
    assert("-"@.len() != "EQUALS"@.len());
    reveal_strlit("MINUS");
    assert("MINUS"@.len() != "EQUALS"@.len());
    reveal_strlit("=");
    assert("="@.len() != "EQUALS"@.len());
    reveal_strlit("PLUS");
    assert("PLUS"@.len() != "EQUALS"@.len());
}

proof fn key_code_bb(u: Seq<char>)
    ensures
        key_vk(u) == Some(0xBBu32) ==> (u == "="@ || u == "PLUS"@ || u == "EQUALS"@),
        (u == "="@ || u == "PLUS"@ || u == "EQUALS"@) ==> key_vk(u) == Some(0xBBu32),
{
    if u == "="@ {
        key_name_49();
    }
    if u == "PLUS"@ {
        key_name_50();
    }
    if u == "EQUALS"@ {
        key_name_51();
    }
}

/// Each modifier name stands for its own Win32 flag, and each flag for that
/// modifier alone.
pub proof fn lemma_modifier_codes(u: Seq<char>)
    ensures
        modifier_bit(u) == Some(0x02u32) <==> (u == "CTRL"@ || u == "CONTROL"@),
        modifier_bit(u) == Some(0x01u32) <==> (u == "ALT"@),
        modifier_bit(u) == Some(0x04u32) <==> (u == "SHIFT"@),
        modifier_bit(u) == Some(0x08u32) <==> (u == "WIN"@ || u == "WINDOWS"@),
{
    modifier_code_02(u);
    modifier_code_01(u);
    modifier_code_04(u);
    modifier_code_08(u);
}

proof fn modifier_name_0()
    ensures
        modifier_bit("CTRL"@) == Some(0x02u32),
{
    reveal_strlit("CTRL");
}

proof fn modifier_name_1()
    ensures
        modifier_bit("CONTROL"@) == Some(0x02u32),
{
    reveal_strlit("CONTROL");
    reveal_strlit("CTRL");
    assert("CTRL"@.len() != "CONTROL"@.len());
}

proof fn modifier_code_02(u: Seq<char>)
    ensures
        modifier_bit(u) == Some(0x02u32) ==> (u == "CTRL"@ || u == "CONTROL"@),
        (u == "CTRL"@ || u == "CONTROL"@) ==> modifier_bit(u) == Some(0x02u32),
{
    if u == "CTRL"@ {
        modifier_name_0();
    }
    if u == "CONTROL"@ {
        modifier_name_1();
    }
}

proof fn modifier_name_2()
    ensures
        modifier_bit("ALT"@) == Some(0x01u32),
{
    reveal_strlit("ALT");
    reveal_strlit("CTRL");
    assert("CTRL"@.len() != "ALT"@.len());
    reveal_strlit("CONTROL");
    assert("CONTROL"@.len() != "ALT"@.len());
}

proof fn modifier_code_01(u: Seq<char>)
    ensures
        modifier_bit(u) == Some(0x01u32) ==> (u == "ALT"@),
        (u == "ALT"@) ==> modifier_bit(u) == Some(0x01u32),
{
    if u == "ALT"@ {
        modifier_name_2();
    }
}

proof fn modifier_name_3()
    ensures
        modifier_bit("SHIFT"@) == Some(0x04u32),
{
    reveal_strlit("SHIFT");
    reveal_strlit("CTRL");
    assert("CTRL"@.len() != "SHIFT"@.len());
    reveal_strlit("CONTROL");
    assert("CONTROL"@.len() != "SHIFT"@.len());
    reveal_strlit("ALT");
    assert("ALT"@.len() != "SHIFT"@.len());
}

proof fn modifier_code_04(u: Seq<char>)
    ensures
        modifier_bit(u) == Some(0x04u32) ==> (u == "SHIFT"@),
        (u == "SHIFT"@) ==> modifier_bit(u) == Some(0x04u32),
{
    if u == "SHIFT"@ {
        modifier_name_3();
    }
}

proof fn modifier_name_4()
    ensures
        modifier_bit("WIN"@) == Some(0x08u32),
{
    reveal_strlit("WIN");
    reveal_strlit("CTRL");
    assert("CTRL"@.len() != "WIN"@.len());
    reveal_strlit("CONTROL");
    assert("CONTROL"@.len() != "WIN"@.len());
    reveal_strlit("ALT");
    assert("ALT"@[0] != "WIN"@[0]);
    reveal_strlit("SHIFT");
    assert("SHIFT"@.len() != "WIN"@.len());
}

proof fn modifier_name_5()
    ensures
        modifier_bit("WINDOWS"@) == Some(0x08u32),
{
    reveal_strlit("WINDOWS");
    reveal_strlit("CTRL");
    assert("CTRL"@.len() != "WINDOWS"@.len());
    reveal_strlit("CONTROL");
    assert("CONTROL"@[0] != "WINDOWS"@[0]);
    reveal_strlit("ALT");
    assert("ALT"@.len() != "WINDOWS"@.len());
    reveal_strlit("SHIFT");
    assert("SHIFT"@.len() != "WINDOWS"@.len());
    reveal_strlit("WIN");
    assert("WIN"@.len() != "WINDOWS"@.len());
}

proof fn modifier_code_08(u: Seq<char>)
    ensures
        modifier_bit(u) == Some(0x08u32) ==> (u == "WIN"@ || u == "WINDOWS"@),
        (u == "WIN"@ || u == "WINDOWS"@) ==> modifier_bit(u) == Some(0x08u32),
{
    if u == "WIN"@ {
        modifier_name_4();
    }
    if u == "WINDOWS"@ {
        modifier_name_5();
    }
}

/// A letter or digit alone is its own code.
pub proof fn lemma_single_keys(c: char)
    requires
        ('A' <= c && c <= 'Z') || ('0' <= c && c <= '9'),
    ensures
        key_vk(seq![c]) == Some(c as u32),
{
    let u = seq![c];
    assert(u.len() == 1 && u[0] == c);
    lemma_single_not_named(u);
}

/// `F1`..`F24` are 0x70..0x87.
pub proof fn lemma_function_keys(n: nat)
    requires
        1 <= n <= 24,
    ensures
        key_vk("F"@ + crate::text::decimal(n)) == Some((0x70 + n - 1) as u32),
{
    reveal_strlit("F");
    crate::text::lemma_decimal_parses(n, u32::MAX as nat);
    crate::text::lemma_decimal_digits(n);
    let d = crate::text::decimal(n);
    let f = "F"@ + d;
    assert(f.last() == d.last());
    assert(crate::text::is_ascii_digit(d[d.len() - 1]));
    assert(f.subrange(1, f.len() as int) =~= d);
    assert(f.subrange(0, 1) =~= "F"@);
    lemma_not_named(f);
}

/// `Numpad0`..`Numpad9`, also spelled `Num0`..`Num9`, are 0x60..0x69.
pub proof fn lemma_numpad_keys(n: nat)
    requires
        n <= 9,
    ensures
        key_vk("NUMPAD"@ + crate::text::decimal(n)) == Some((0x60 + n) as u32),
        key_vk("NUM"@ + crate::text::decimal(n)) == Some((0x60 + n) as u32),
{
    reveal_strlit("F");
    reveal_strlit("NUMPAD");
    reveal_strlit("NUM");
    crate::text::lemma_decimal_parses(n, u32::MAX as nat);
    crate::text::lemma_decimal_digits(n);
    let d = crate::text::decimal(n);
    assert(crate::text::is_ascii_digit(d[0]));
    assert(crate::text::is_ascii_digit(d[d.len() - 1]));
    let p = "NUMPAD"@ + d;
    assert(p.last() == d.last());
    assert(p.subrange(6, p.len() as int) =~= d);
    assert(p.subrange(0, 6) =~= "NUMPAD"@);
    assert(p.subrange(0, 1) != "F"@) by {
        assert(p.subrange(0, 1)[0] == p[0]);
    }
    lemma_not_named(p);
    let q = "NUM"@ + d;
    assert(q.last() == d.last());
    assert(q.subrange(3, q.len() as int) =~= d);
    assert(q.subrange(0, 3) =~= "NUM"@);
    assert(q.subrange(0, 1) != "F"@) by {
        assert(q.subrange(0, 1)[0] == q[0]);
    }
    if q.len() >= 6 {
        assert(q.subrange(0, 6) != "NUMPAD"@) by {
            assert(q.subrange(0, 6)[3] == d[0]);
        }
    }
    lemma_not_named(q);
}

/// A name that ends in a digit names none of the table's keys.
proof fn lemma_not_named(u: Seq<char>)
    requires
        u.len() > 0,
        crate::text::is_ascii_digit(u.last()),
    ensures
        named_vk(u) is None,
{
    reveal_strlit("HOME");
    assert(u != "HOME"@) by { if u == "HOME"@ { assert(u.last() == "HOME"@[3]); } }
    reveal_strlit("END");
    assert(u != "END"@) by { if u == "END"@ { assert(u.last() == "END"@[2]); } }
    reveal_strlit("INSERT");
    assert(u != "INSERT"@) by { if u == "INSERT"@ { assert(u.last() == "INSERT"@[5]); } }
    reveal_strlit("INS");
    assert(u != "INS"@) by { if u == "INS"@ { assert(u.last() == "INS"@[2]); } }
    reveal_strlit("DELETE");
    assert(u != "DELETE"@) by { if u == "DELETE"@ { assert(u.last() == "DELETE"@[5]); } }
    reveal_strlit("DEL");
    assert(u != "DEL"@) by { if u == "DEL"@ { assert(u.last() == "DEL"@[2]); } }
    reveal_strlit("PAGEUP");
    assert(u != "PAGEUP"@) by { if u == "PAGEUP"@ { assert(u.last() == "PAGEUP"@[5]); } }
    reveal_strlit("PGUP");
    assert(u != "PGUP"@) by { if u == "PGUP"@ { assert(u.last() == "PGUP"@[3]); } }
    reveal_strlit("PAGEDOWN");
    assert(u != "PAGEDOWN"@) by { if u == "PAGEDOWN"@ { assert(u.last() == "PAGEDOWN"@[7]); } }
    reveal_strlit("PGDN");
    assert(u != "PGDN"@) by { if u == "PGDN"@ { assert(u.last() == "PGDN"@[3]); } }
    reveal_strlit("UP");
    assert(u != "UP"@) by { if u == "UP"@ { assert(u.last() == "UP"@[1]); } }
    reveal_strlit("DOWN");
    assert(u != "DOWN"@) by { if u == "DOWN"@ { assert(u.last() == "DOWN"@[3]); } }
    reveal_strlit("LEFT");
    assert(u != "LEFT"@) by { if u == "LEFT"@ { assert(u.last() == "LEFT"@[3]); } }
    reveal_strlit("RIGHT");
    assert(u != "RIGHT"@) by { if u == "RIGHT"@ { assert(u.last() == "RIGHT"@[4]); } }
    reveal_strlit("SPACE");
    assert(u != "SPACE"@) by { if u == "SPACE"@ { assert(u.last() == "SPACE"@[4]); } }
    reveal_strlit("TAB");
    assert(u != "TAB"@) by { if u == "TAB"@ { assert(u.last() == "TAB"@[2]); } }
    reveal_strlit("ENTER");
    assert(u != "ENTER"@) by { if u == "ENTER"@ { assert(u.last() == "ENTER"@[4]); } }
    reveal_strlit("RETURN");
    assert(u != "RETURN"@) by { if u == "RETURN"@ { assert(u.last() == "RETURN"@[5]); } }
    reveal_strlit("BACKSPACE");
    assert(u != "BACKSPACE"@) by { if u == "BACKSPACE"@ { assert(u.last() == "BACKSPACE"@[8]); } }
    reveal_strlit("BACK");
    assert(u != "BACK"@) by { if u == "BACK"@ { assert(u.last() == "BACK"@[3]); } }
    reveal_strlit("ESC");
    assert(u != "ESC"@) by { if u == "ESC"@ { assert(u.last() == "ESC"@[2]); } }
    reveal_strlit("ESCAPE");
    assert(u != "ESCAPE"@) by { if u == "ESCAPE"@ { assert(u.last() == "ESCAPE"@[5]); } }
    reveal_strlit("CAPSLOCK");
    assert(u != "CAPSLOCK"@) by { if u == "CAPSLOCK"@ { assert(u.last() == "CAPSLOCK"@[7]); } }
    reveal_strlit("SCROLLLOCK");
    assert(u != "SCROLLLOCK"@) by { if u == "SCROLLLOCK"@ { assert(u.last() == "SCROLLLOCK"@[9]); } }
    reveal_strlit("PAUSE");
    assert(u != "PAUSE"@) by { if u == "PAUSE"@ { assert(u.last() == "PAUSE"@[4]); } }
    reveal_strlit("BREAK");
    assert(u != "BREAK"@) by { if u == "BREAK"@ { assert(u.last() == "BREAK"@[4]); } }
    reveal_strlit("PRINTSCREEN");
    assert(u != "PRINTSCREEN"@) by { if u == "PRINTSCREEN"@ { assert(u.last() == "PRINTSCREEN"@[10]); } }
    reveal_strlit("PRTSC");
    assert(u != "PRTSC"@) by { if u == "PRTSC"@ { assert(u.last() == "PRTSC"@[4]); } }
    reveal_strlit("RSHIFT");
    assert(u != "RSHIFT"@) by { if u == "RSHIFT"@ { assert(u.last() == "RSHIFT"@[5]); } }
    reveal_strlit(";");
    assert(u != ";"@) by { if u == ";"@ { assert(u.last() == ";"@[0]); } }
    reveal_strlit("SEMICOLON");
    assert(u != "SEMICOLON"@) by { if u == "SEMICOLON"@ { assert(u.last() == "SEMICOLON"@[8]); } }
    reveal_strlit("/");
    assert(u != "/"@) by { if u == "/"@ { assert(u.last() == "/"@[0]); } }
    reveal_strlit("SLASH");
    assert(u != "SLASH"@) by { if u == "SLASH"@ { assert(u.last() == "SLASH"@[4]); } }
    reveal_strlit("`");
    assert(u != "`"@) by { if u == "`"@ { assert(u.last() == "`"@[0]); } }
    reveal_strlit("GRAVE");
    assert(u != "GRAVE"@) by { if u == "GRAVE"@ { assert(u.last() == "GRAVE"@[4]); } }
    reveal_strlit("BACKTICK");
    assert(u != "BACKTICK"@) by { if u == "BACKTICK"@ { assert(u.last() == "BACKTICK"@[7]); } }
    reveal_strlit("[");
    assert(u != "["@) by { if u == "["@ { assert(u.last() == "["@[0]); } }
    reveal_strlit("\\");
    assert(u != "\\"@) by { if u == "\\"@ { assert(u.last() == "\\"@[0]); } }
    reveal_strlit("BACKSLASH");
    assert(u != "BACKSLASH"@) by { if u == "BACKSLASH"@ { assert(u.last() == "BACKSLASH"@[8]); } }
    reveal_strlit("]");
    assert(u != "]"@) by { if u == "]"@ { assert(u.last() == "]"@[0]); } }
    reveal_strlit("'");
    assert(u != "'"@) by { if u == "'"@ { assert(u.last() == "'"@[0]); } }
    reveal_strlit("QUOTE");
    assert(u != "QUOTE"@) by { if u == "QUOTE"@ { assert(u.last() == "QUOTE"@[4]); } }
    reveal_strlit("APOSTROPHE");
    assert(u != "APOSTROPHE"@) by { if u == "APOSTROPHE"@ { assert(u.last() == "APOSTROPHE"@[9]); } }
    reveal_strlit(",");
    assert(u != ","@) by { if u == ","@ { assert(u.last() == ","@[0]); } }
    reveal_strlit("COMMA");
    assert(u != "COMMA"@) by { if u == "COMMA"@ { assert(u.last() == "COMMA"@[4]); } }
    reveal_strlit(".");
    assert(u != "."@) by { if u == "."@ { assert(u.last() == "."@[0]); } }
    reveal_strlit("PERIOD");
    assert(u != "PERIOD"@) by { if u == "PERIOD"@ { assert(u.last() == "PERIOD"@[5]); } }
    reveal_strlit("-");
    assert(u != "-"@) by { if u == "-"@ { assert(u.last() == "-"@[0]); } }
    reveal_strlit("MINUS");
    assert(u != "MINUS"@) by { if u == "MINUS"@ { assert(u.last() == "MINUS"@[4]); } }
    reveal_strlit("=");
    assert(u != "="@) by { if u == "="@ { assert(u.last() == "="@[0]); } }
    reveal_strlit("PLUS");
    assert(u != "PLUS"@) by { if u == "PLUS"@ { assert(u.last() == "PLUS"@[3]); } }
    reveal_strlit("EQUALS");
    assert(u != "EQUALS"@) by { if u == "EQUALS"@ { assert(u.last() == "EQUALS"@[5]); } }
}

/// A single letter or digit names none of the table's keys.
proof fn lemma_single_not_named(u: Seq<char>)
    requires
        u.len() == 1,
        ('A' <= u[0] && u[0] <= 'Z') || ('0' <= u[0] && u[0] <= '9'),
    ensures
        named_vk(u) is None,
{
    reveal_strlit("HOME");
    assert(u != "HOME"@) by { if u == "HOME"@ { assert(u.len() == "HOME"@.len()); assert(u[0] == "HOME"@[0]); } }
    reveal_strlit("END");
    assert(u != "END"@) by { if u == "END"@ { assert(u.len() == "END"@.len()); assert(u[0] == "END"@[0]); } }
    reveal_strlit("INSERT");
    assert(u != "INSERT"@) by { if u == "INSERT"@ { assert(u.len() == "INSERT"@.len()); assert(u[0] == "INSERT"@[0]); } }
    reveal_strlit("INS");
    assert(u != "INS"@) by { if u == "INS"@ { assert(u.len() == "INS"@.len()); assert(u[0] == "INS"@[0]); } }
    reveal_strlit("DELETE");
    assert(u != "DELETE"@) by { if u == "DELETE"@ { assert(u.len() == "DELETE"@.len()); assert(u[0] == "DELETE"@[0]); } }
    reveal_strlit("DEL");
    assert(u != "DEL"@) by { if u == "DEL"@ { assert(u.len() == "DEL"@.len()); assert(u[0] == "DEL"@[0]); } }
    reveal_strlit("PAGEUP");
    assert(u != "PAGEUP"@) by { if u == "PAGEUP"@ { assert(u.len() == "PAGEUP"@.len()); assert(u[0] == "PAGEUP"@[0]); } }
    reveal_strlit("PGUP");
    assert(u != "PGUP"@) by { if u == "PGUP"@ { assert(u.len() == "PGUP"@.len()); assert(u[0] == "PGUP"@[0]); } }
    reveal_strlit("PAGEDOWN");
    assert(u != "PAGEDOWN"@) by { if u == "PAGEDOWN"@ { assert(u.len() == "PAGEDOWN"@.len()); assert(u[0] == "PAGEDOWN"@[0]); } }
    reveal_strlit("PGDN");
    assert(u != "PGDN"@) by { if u == "PGDN"@ { assert(u.len() == "PGDN"@.len()); assert(u[0] == "PGDN"@[0]); } }
    reveal_strlit("UP");
    assert(u != "UP"@) by { if u == "UP"@ { assert(u.len() == "UP"@.len()); assert(u[0] == "UP"@[0]); } }
    reveal_strlit("DOWN");
    assert(u != "DOWN"@) by { if u == "DOWN"@ { assert(u.len() == "DOWN"@.len()); assert(u[0] == "DOWN"@[0]); } }
    reveal_strlit("LEFT");
    assert(u != "LEFT"@) by { if u == "LEFT"@ { assert(u.len() == "LEFT"@.len()); assert(u[0] == "LEFT"@[0]); } }
    reveal_strlit("RIGHT");
    assert(u != "RIGHT"@) by { if u == "RIGHT"@ { assert(u.len() == "RIGHT"@.len()); assert(u[0] == "RIGHT"@[0]); } }
    reveal_strlit("SPACE");
    assert(u != "SPACE"@) by { if u == "SPACE"@ { assert(u.len() == "SPACE"@.len()); assert(u[0] == "SPACE"@[0]); } }
    reveal_strlit("TAB");
    assert(u != "TAB"@) by { if u == "TAB"@ { assert(u.len() == "TAB"@.len()); assert(u[0] == "TAB"@[0]); } }
    reveal_strlit("ENTER");
    assert(u != "ENTER"@) by { if u == "ENTER"@ { assert(u.len() == "ENTER"@.len()); assert(u[0] == "ENTER"@[0]); } }
    reveal_strlit("RETURN");
    assert(u != "RETURN"@) by { if u == "RETURN"@ { assert(u.len() == "RETURN"@.len()); assert(u[0] == "RETURN"@[0]); } }
    reveal_strlit("BACKSPACE");
    assert(u != "BACKSPACE"@) by { if u == "BACKSPACE"@ { assert(u.len() == "BACKSPACE"@.len()); assert(u[0] == "BACKSPACE"@[0]); } }
    reveal_strlit("BACK");
    assert(u != "BACK"@) by { if u == "BACK"@ { assert(u.len() == "BACK"@.len()); assert(u[0] == "BACK"@[0]); } }
    reveal_strlit("ESC");
    assert(u != "ESC"@) by { if u == "ESC"@ { assert(u.len() == "ESC"@.len()); assert(u[0] == "ESC"@[0]); } }
    reveal_strlit("ESCAPE");
    assert(u != "ESCAPE"@) by { if u == "ESCAPE"@ { assert(u.len() == "ESCAPE"@.len()); assert(u[0] == "ESCAPE"@[0]); } }
    reveal_strlit("CAPSLOCK");
    assert(u != "CAPSLOCK"@) by { if u == "CAPSLOCK"@ { assert(u.len() == "CAPSLOCK"@.len()); assert(u[0] == "CAPSLOCK"@[0]); } }
    reveal_strlit("SCROLLLOCK");
    assert(u != "SCROLLLOCK"@) by { if u == "SCROLLLOCK"@ { assert(u.len() == "SCROLLLOCK"@.len()); assert(u[0] == "SCROLLLOCK"@[0]); } }
    reveal_strlit("PAUSE");
    assert(u != "PAUSE"@) by { if u == "PAUSE"@ { assert(u.len() == "PAUSE"@.len()); assert(u[0] == "PAUSE"@[0]); } }
    reveal_strlit("BREAK");
    assert(u != "BREAK"@) by { if u == "BREAK"@ { assert(u.len() == "BREAK"@.len()); assert(u[0] == "BREAK"@[0]); } }
    reveal_strlit("PRINTSCREEN");
    assert(u != "PRINTSCREEN"@) by { if u == "PRINTSCREEN"@ { assert(u.len() == "PRINTSCREEN"@.len()); assert(u[0] == "PRINTSCREEN"@[0]); } }
    reveal_strlit("PRTSC");
    assert(u != "PRTSC"@) by { if u == "PRTSC"@ { assert(u.len() == "PRTSC"@.len()); assert(u[0] == "PRTSC"@[0]); } }
    reveal_strlit("RSHIFT");
    assert(u != "RSHIFT"@) by { if u == "RSHIFT"@ { assert(u.len() == "RSHIFT"@.len()); assert(u[0] == "RSHIFT"@[0]); } }
    reveal_strlit(";");
    assert(u != ";"@) by { if u == ";"@ { assert(u.len() == ";"@.len()); assert(u[0] == ";"@[0]); } }
    reveal_strlit("SEMICOLON");
    assert(u != "SEMICOLON"@) by { if u == "SEMICOLON"@ { assert(u.len() == "SEMICOLON"@.len()); assert(u[0] == "SEMICOLON"@[0]); } }
    reveal_strlit("/");
    assert(u != "/"@) by { if u == "/"@ { assert(u.len() == "/"@.len()); assert(u[0] == "/"@[0]); } }
    reveal_strlit("SLASH");
    assert(u != "SLASH"@) by { if u == "SLASH"@ { assert(u.len() == "SLASH"@.len()); assert(u[0] == "SLASH"@[0]); } }
    reveal_strlit("`");
    assert(u != "`"@) by { if u == "`"@ { assert(u.len() == "`"@.len()); assert(u[0] == "`"@[0]); } }
    reveal_strlit("GRAVE");
    assert(u != "GRAVE"@) by { if u == "GRAVE"@ { assert(u.len() == "GRAVE"@.len()); assert(u[0] == "GRAVE"@[0]); } }
    reveal_strlit("BACKTICK");
    assert(u != "BACKTICK"@) by { if u == "BACKTICK"@ { assert(u.len() == "BACKTICK"@.len()); assert(u[0] == "BACKTICK"@[0]); } }
    reveal_strlit("[");
    assert(u != "["@) by { if u == "["@ { assert(u.len() == "["@.len()); assert(u[0] == "["@[0]); } }
    reveal_strlit("\\");
    assert(u != "\\"@) by { if u == "\\"@ { assert(u.len() == "\\"@.len()); assert(u[0] == "\\"@[0]); } }
    reveal_strlit("BACKSLASH");
    assert(u != "BACKSLASH"@) by { if u == "BACKSLASH"@ { assert(u.len() == "BACKSLASH"@.len()); assert(u[0] == "BACKSLASH"@[0]); } }
    reveal_strlit("]");
    assert(u != "]"@) by { if u == "]"@ { assert(u.len() == "]"@.len()); assert(u[0] == "]"@[0]); } }
    reveal_strlit("'");
    assert(u != "'"@) by { if u == "'"@ { assert(u.len() == "'"@.len()); assert(u[0] == "'"@[0]); } }
    reveal_strlit("QUOTE");
    assert(u != "QUOTE"@) by { if u == "QUOTE"@ { assert(u.len() == "QUOTE"@.len()); assert(u[0] == "QUOTE"@[0]); } }
    reveal_strlit("APOSTROPHE");
    assert(u != "APOSTROPHE"@) by { if u == "APOSTROPHE"@ { assert(u.len() == "APOSTROPHE"@.len()); assert(u[0] == "APOSTROPHE"@[0]); } }
    reveal_strlit(",");
    assert(u != ","@) by { if u == ","@ { assert(u.len() == ","@.len()); assert(u[0] == ","@[0]); } }
    reveal_strlit("COMMA");
    assert(u != "COMMA"@) by { if u == "COMMA"@ { assert(u.len() == "COMMA"@.len()); assert(u[0] == "COMMA"@[0]); } }
    reveal_strlit(".");
    assert(u != "."@) by { if u == "."@ { assert(u.len() == "."@.len()); assert(u[0] == "."@[0]); } }
    reveal_strlit("PERIOD");
    assert(u != "PERIOD"@) by { if u == "PERIOD"@ { assert(u.len() == "PERIOD"@.len()); assert(u[0] == "PERIOD"@[0]); } }
    reveal_strlit("-");
    assert(u != "-"@) by { if u == "-"@ { assert(u.len() == "-"@.len()); assert(u[0] == "-"@[0]); } }
    reveal_strlit("MINUS");
    assert(u != "MINUS"@) by { if u == "MINUS"@ { assert(u.len() == "MINUS"@.len()); assert(u[0] == "MINUS"@[0]); } }
    reveal_strlit("=");
    assert(u != "="@) by { if u == "="@ { assert(u.len() == "="@.len()); assert(u[0] == "="@[0]); } }
    reveal_strlit("PLUS");
    assert(u != "PLUS"@) by { if u == "PLUS"@ { assert(u.len() == "PLUS"@.len()); assert(u[0] == "PLUS"@[0]); } }
    reveal_strlit("EQUALS");
    assert(u != "EQUALS"@) by { if u == "EQUALS"@ { assert(u.len() == "EQUALS"@.len()); assert(u[0] == "EQUALS"@[0]); } }
}
} // verus!
