//! What the on-screen notification shows when the hotkey toggles the
//! profile, where on the monitor it goes, and the UTF-16 text Win32 wants.

use vstd::prelude::*;
use crate::text::{chars_of, decimal, push_decimal};

verus! {

pub const WINDOW_WIDTH: i32 = 260;

pub const WINDOW_HEIGHT: i32 = 64;

/// How far above the screen's bottom edge the popup sits -- clear of the
/// taskbar on a default Windows setup.
pub const BOTTOM_MARGIN: i32 = 96;

/// How long the popup stays, in milliseconds.
pub const DISPLAY_DURATION_MS: u32 = 1500;

/// Out of 255.
pub const WINDOW_ALPHA: u8 = 235;

pub open spec fn overlay_label(profile: u8, chat: bool) -> Seq<char> {
    (if chat {
        "Chat"@
    } else {
        "Game"@
    }) + " (Profile "@ + decimal(profile as nat) + ")"@
}

/// The popup's text, e.g. `Chat (Profile 2)`.
pub fn overlay_text(profile: u8, chat: bool) -> (r: String)
    ensures
        r@ == overlay_label(profile, chat),
{
    let mut r = if chat {
        String::from_str("Chat")
    } else {
        String::from_str("Game")
    };
    r.append(" (Profile ");
    push_decimal(&mut r, profile as u64);
    r.append(")");
    r
}

/// Integer division by two rounding toward zero, as Rust's `/` does.
pub open spec fn half_toward_zero(w: int) -> int {
    if w >= 0 {
        w / 2
    } else {
        -((-w) / 2)
    }
}

/// The popup's top-left corner: centred horizontally on the monitor
/// rectangle, `BOTTOM_MARGIN` above its bottom edge.
pub open spec fn overlay_position(left: i32, right: i32, bottom: i32) -> (int, int) {
    (
        left + half_toward_zero(right - left - WINDOW_WIDTH),
        bottom - WINDOW_HEIGHT - BOTTOM_MARGIN,
    )
}

/// Every intermediate value of the placement fits in `i32`.
pub open spec fn origin_fits(left: i32, right: i32, bottom: i32) -> bool {
    &&& i32::MIN <= right - left <= i32::MAX
    &&& i32::MIN <= right - left - WINDOW_WIDTH <= i32::MAX
    &&& i32::MIN <= left + half_toward_zero(right - left - WINDOW_WIDTH) <= i32::MAX
    &&& i32::MIN <= bottom - WINDOW_HEIGHT - BOTTOM_MARGIN
}

/// Whether `overlay_origin` can place the popup on this monitor, i.e.
/// `origin_fits`.
pub fn placement_fits(left: i32, right: i32, bottom: i32) -> (r: bool)
    ensures
        r == origin_fits(left, right, bottom),
{
    let span: i64 = right as i64 - left as i64;
    let w: i64 = span - WINDOW_WIDTH as i64;
    let half: i64 = if w >= 0 {
        w / 2
    } else {
        -((-w) / 2)
    };
    let x: i64 = left as i64 + half;
    let y: i64 = bottom as i64 - WINDOW_HEIGHT as i64 - BOTTOM_MARGIN as i64;
    let min: i64 = i32::MIN as i64;
    let max: i64 = i32::MAX as i64;
    min <= span && span <= max && min <= w && w <= max && min <= x && x <= max && min <= y
}

/// Where the popup goes on a monitor spanning `left..right` with its bottom
/// edge at `bottom`; every intermediate value fits in `i32`.
pub fn overlay_origin(left: i32, right: i32, bottom: i32) -> (r: (i32, i32))
    requires
        origin_fits(left, right, bottom),
    ensures
        (r.0 as int, r.1 as int) == overlay_position(left, right, bottom),
{
    let w: i64 = right as i64 - left as i64 - WINDOW_WIDTH as i64;
    let half: i64 = if w >= 0 {
        w / 2
    } else {
        -((-w) / 2)
    };
    let x: i64 = left as i64 + half;
    (x as i32, bottom - WINDOW_HEIGHT - BOTTOM_MARGIN)
}

/// The monitor assumed when the foreground window's monitor cannot be
/// read: a 1920x1080 screen at the origin.
pub const FALLBACK_RIGHT: i32 = 1920;

pub const FALLBACK_BOTTOM: i32 = 1080;

/// Where the popup goes: on the monitor spanning `left..right` with its
/// bottom edge at `bottom` when that is known (`Some((left, right,
/// bottom))`), else on the fallback screen.
pub fn popup_origin(monitor: Option<(i32, i32, i32)>) -> (r: (i32, i32))
    requires
        match monitor {
            Some((left, right, bottom)) => origin_fits(left, right, bottom),
            None => true,
        },
    ensures
        (r.0 as int, r.1 as int) == match monitor {
            Some((left, right, bottom)) => overlay_position(left, right, bottom),
            None => overlay_position(0, FALLBACK_RIGHT, FALLBACK_BOTTOM),
        },
{
    match monitor {
        Some((left, right, bottom)) => overlay_origin(left, right, bottom),
        None => overlay_origin(0, FALLBACK_RIGHT, FALLBACK_BOTTOM),
    }
}

/// The UTF-16 code units of one character.
pub open spec fn utf16_units(c: char) -> Seq<u16> {
    let u = c as u32;
    if u < 0x10000 {
        seq![u as u16]
    } else {
        seq![(0xD800 + (u - 0x10000) / 0x400) as u16, (0xDC00 + (u - 0x10000) % 0x400) as u16]
    }
}

/// `str::encode_utf16` of a whole text.
pub open spec fn utf16(s: Seq<char>) -> Seq<u16>
    decreases s.len(),
{
    if s.len() == 0 {
        Seq::empty()
    } else {
        utf16(s.drop_last()) + utf16_units(s.last())
    }
}

/// `s` as a NUL-terminated UTF-16 string, as Win32's wide-string functions
/// take it.
pub fn to_wide(s: &str) -> (r: Vec<u16>)
    ensures
        r@ == utf16(s@).push(0u16),
{
    let chars = chars_of(s);
    let mut r: Vec<u16> = Vec::new();
    let mut i: usize = 0;
    assert(chars@.subrange(0, 0) =~= Seq::<char>::empty());
    while i < chars.len()
        invariant
            i <= chars@.len(),
            r@ == utf16(chars@.subrange(0, i as int)),
        decreases chars.len() - i,
    {
        let ghost before = r@;
        let c = chars[i];
        let u: u32 = c as u32;
        if u < 0x10000 {
            r.push(u as u16);
        } else {
            let v: u32 = u - 0x10000;
            r.push((0xD800 + v / 0x400) as u16);
            r.push((0xDC00 + v % 0x400) as u16);
        }
        assert(chars@.subrange(0, i + 1).drop_last() =~= chars@.subrange(0, i as int));
        assert(r@ =~= before + utf16_units(c));
        i = i + 1;
    }
    assert(chars@.subrange(0, chars@.len() as int) =~= chars@);
    r.push(0);
    r
}

} // verus!
