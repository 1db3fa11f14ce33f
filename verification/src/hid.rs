//! MonsGeek / RY5088-family vendor HID: profile get & set.
//!
//! The official driver talks to the keyboard's vendor-config HID interface
//! (Usage Page 0xFFFF, Usage 0x02) with 64-byte feature reports, preceded by
//! a report id byte:
//!
//! ```text
//! byte 0   report id (0 -- unnumbered)
//! byte 1   command      0x04 = SET_PROFILE, 0x84 = GET_PROFILE
//! byte 2   argument     profile index, 0..=3 (driver UI shows 1..=4)
//! byte 3-6 unused, zero
//! byte 7   checksum     255 - (sum of bytes 0..=6 & 255)
//! byte 8+  unused, zero
//! ```
//!
//! The response to GET_PROFILE mirrors the request: byte 1 the command,
//! byte 2 the active profile index.
//!
//! This module builds and reads those bytes and picks the device to talk
//! to; moving the bytes over HID is the caller's business.

use vstd::prelude::*;
use crate::text::{decimal, push_decimal};

verus! {

pub const MONSGEEK_VID: u16 = 0x3151;

pub const VENDOR_USAGE_PAGE: u16 = 0xFFFF;

pub const VENDOR_USAGE: u16 = 0x02;

/// The vendor-config interface on the wired keyboard; the fallback on
/// platforms where the HID layer does not report usage page / usage.
pub const VENDOR_INTERFACE: i32 = 2;

/// One report id byte followed by the 64-byte feature report.
pub const REPORT_LEN: usize = 65;

pub const SET_PROFILE: u8 = 0x04;

pub const GET_PROFILE: u8 = 0x84;

pub open spec fn spec_ui_profile_to_wire(profile: u8) -> u8 {
    if profile == 0 {
        0
    } else if profile - 1 > 3 {
        3
    } else {
        (profile - 1) as u8
    }
}

pub open spec fn spec_wire_profile_to_ui(wire: u8) -> u8 {
    if wire > 3 {
        4
    } else {
        (wire + 1) as u8
    }
}

/// The driver UI numbers profiles 1..=4, the wire 0..=3; out-of-range input
/// is clamped rather than wrapped.
pub fn ui_profile_to_wire(profile: u8) -> (wire: u8)
    ensures
        wire == spec_ui_profile_to_wire(profile),
        wire <= 3,
{
    let p: u8 = if profile == 0 {
        0
    } else {
        profile - 1
    };
    if p > 3 {
        3
    } else {
        p
    }
}

/// The inverse of `ui_profile_to_wire` on the wire's 0..=3, clamping above.
pub fn wire_profile_to_ui(wire: u8) -> (profile: u8)
    ensures
        profile == spec_wire_profile_to_ui(wire),
        1 <= profile <= 4,
{
    let w: u8 = if wire > 3 {
        3
    } else {
        wire
    };
    w + 1
}

/// A profile number as the driver UI shows it survives the trip to the
/// wire and back, and so does a wire slot the other way round.
pub proof fn lemma_profile_round_trip(ui: u8, wire: u8)
    ensures
        1 <= ui <= 4 ==> spec_wire_profile_to_ui(spec_ui_profile_to_wire(ui)) == ui,
        wire <= 3 ==> spec_ui_profile_to_wire(spec_wire_profile_to_ui(wire)) == wire,
{
}

/// The sum of the bytes, as a number.
pub open spec fn byte_sum(s: Seq<u8>) -> nat
    decreases s.len(),
{
    if s.len() == 0 {
        0
    } else {
        byte_sum(s.drop_last()) + (s.last() as nat)
    }
}

/// 255 minus the low byte of the sum of the seven header bytes.
pub open spec fn checksum_of(header: Seq<u8>) -> u8 {
    (255 - (byte_sum(header) % 256)) as u8
}

pub fn bit7_checksum(header7: &[u8; 7]) -> (c: u8)
    ensures
        c == checksum_of(header7@),
        (byte_sum(header7@) + c) % 256 == 255,
{
    let mut sum: u16 = 0;
    let mut i: usize = 0;
    assert(header7@.subrange(0, 0) =~= Seq::<u8>::empty());
    while i < 7
        invariant
            i <= 7,
            header7@.len() == 7,
            sum as nat == byte_sum(header7@.subrange(0, i as int)),
            sum <= 255 * i,
        decreases 7 - i,
    {
        assert(header7@.subrange(0, i + 1).drop_last() =~= header7@.subrange(0, i as int));
        sum = sum + header7[i] as u16;
        i = i + 1;
    }
    assert(header7@.subrange(0, 7) =~= header7@);
    let low: u16 = sum & 255;
    assert(low == sum % 256) by (bit_vector)
        requires
            low == sum & 255,
    ;
    (255 - low) as u8
}

/// The request bytes for `command` with `argument`, checksum included.
pub open spec fn report_bytes(command: u8, argument: u8) -> Seq<u8> {
    Seq::new(
        REPORT_LEN as nat,
        |i: int|
            if i == 1 {
                command
            } else if i == 2 {
                argument
            } else if i == 7 {
                checksum_of(seq![0u8, command, argument, 0u8, 0u8, 0u8, 0u8])
            } else {
                0u8
            },
    )
}

pub proof fn lemma_header_sum(command: u8, argument: u8)
    ensures
        byte_sum(seq![0u8, command, argument, 0u8, 0u8, 0u8, 0u8]) == command + argument,
{
    let s = seq![0u8, command, argument, 0u8, 0u8, 0u8, 0u8];
    reveal_with_fuel(byte_sum, 8);
    assert(s.drop_last() =~= seq![0u8, command, argument, 0u8, 0u8, 0u8]);
    assert(s.drop_last().drop_last() =~= seq![0u8, command, argument, 0u8, 0u8]);
    assert(s.drop_last().drop_last().drop_last() =~= seq![0u8, command, argument, 0u8]);
    assert(s.drop_last().drop_last().drop_last().drop_last() =~= seq![0u8, command, argument]);
    assert(s.drop_last().drop_last().drop_last().drop_last().drop_last() =~= seq![
        0u8,
        command,
    ]);
    assert(s.drop_last().drop_last().drop_last().drop_last().drop_last().drop_last() =~= seq![
        0u8,
    ]);
    assert(seq![0u8].drop_last() =~= Seq::<u8>::empty());
}

fn build_report(command: u8, argument: u8) -> (buf: [u8; REPORT_LEN])
    ensures
        buf@ == report_bytes(command, argument),
{
    let mut buf = [0u8; 65];
    buf[1] = command;
    buf[2] = argument;
    let header: [u8; 7] = [buf[0], buf[1], buf[2], buf[3], buf[4], buf[5], buf[6]];
    assert(header@ =~= seq![0u8, command, argument, 0u8, 0u8, 0u8, 0u8]);
    buf[7] = bit7_checksum(&header);
    assert(buf@ =~= report_bytes(command, argument));
    buf
}

/// The SET_PROFILE request for a profile as the driver UI numbers it.
pub fn build_set_profile_report(ui_profile: u8) -> (buf: [u8; REPORT_LEN])
    ensures
        buf@ == report_bytes(SET_PROFILE, spec_ui_profile_to_wire(ui_profile)),
{
    build_report(SET_PROFILE, ui_profile_to_wire(ui_profile))
}

/// The GET_PROFILE request.
pub fn build_get_profile_report() -> (buf: [u8; REPORT_LEN])
    ensures
        buf@ == report_bytes(GET_PROFILE, 0),
{
    build_report(GET_PROFILE, 0)
}

/// Every request's header bytes 0..=7 sum to 255 modulo 256, which is what
/// the keyboard checks.
pub proof fn lemma_report_checksum(command: u8, argument: u8)
    ensures
        (report_bytes(command, argument)[0] + report_bytes(command, argument)[1]
            + report_bytes(command, argument)[2] + report_bytes(command, argument)[3]
            + report_bytes(command, argument)[4] + report_bytes(command, argument)[5]
            + report_bytes(command, argument)[6] + report_bytes(command, argument)[7]) % 256
            == 255,
{
    lemma_header_sum(command, argument);
}

/// The active profile, as the driver UI numbers it, that a GET_PROFILE
/// response of `read` bytes in `buf` reports; `None` when the keyboard
/// answered but not in the expected shape (too short, or not echoing the
/// command).
pub open spec fn response_profile(buf: Seq<u8>, read: usize) -> Option<u8> {
    if read < 3 || buf[1] != GET_PROFILE {
        None
    } else {
        Some(spec_wire_profile_to_ui(buf[2]))
    }
}

pub fn profile_from_response(buf: &[u8], read: usize) -> (r: Option<u8>)
    requires
        buf@.len() >= 3,
    ensures
        r == response_profile(buf@, read),
{
    if read < 3 || buf[1] != GET_PROFILE {
        None
    } else {
        Some(wire_profile_to_ui(buf[2]))
    }
}

/// A GET_PROFILE answer is read exactly when it is long enough and echoes
/// the command; the profile it names is its wire slot plus one (slots above
/// 3 read as profile 4), so it is always 1..=4.
pub proof fn lemma_response_reading(buf: Seq<u8>, read: usize)
    requires
        buf.len() >= 3,
    ensures
        (response_profile(buf, read) is Some) == (read >= 3 && buf[1] == 0x84u8),
        read >= 3 && buf[1] == 0x84u8 && buf[2] <= 3 ==> response_profile(buf, read) == Some(
            (buf[2] + 1) as u8,
        ),
        read >= 3 && buf[1] == 0x84u8 && buf[2] > 3 ==> response_profile(buf, read) == Some(4u8),
{
}

/// A keyboard switched with the SET_PROFILE request for a profile 1..=4,
/// answering GET_PROFILE with that request's argument byte, is read back as
/// that same profile.
pub proof fn lemma_set_then_get(ui: u8, answer: Seq<u8>, read: usize)
    requires
        1 <= ui <= 4,
        answer.len() >= 3,
        read >= 3,
        answer[1] == GET_PROFILE,
        answer[2] == report_bytes(SET_PROFILE, spec_ui_profile_to_wire(ui))[2],
    ensures
        response_profile(answer, read) == Some(ui),
{
}

/// What the device-selection and listing logic reads of one enumerated HID
/// interface. `product_label` and `path_label` are the product string and
/// the device path as they are to be shown in a listing.
pub struct DeviceSummary {
    pub vendor_id: u16,
    pub product_id: u16,
    pub usage_page: u16,
    pub usage: u16,
    pub interface_number: i32,
    pub product_label: String,
    pub path_label: String,
}

pub open spec fn spec_matches_vendor_usage(d: DeviceSummary) -> bool {
    d.vendor_id == MONSGEEK_VID && d.usage_page == VENDOR_USAGE_PAGE && d.usage == VENDOR_USAGE
}

pub open spec fn spec_matches_vendor_interface(d: DeviceSummary) -> bool {
    d.vendor_id == MONSGEEK_VID && d.interface_number == VENDOR_INTERFACE
}

pub open spec fn spec_is_vendor_config(d: DeviceSummary) -> bool {
    spec_matches_vendor_usage(d) || spec_matches_vendor_interface(d)
}

fn matches_vendor_usage(info: &DeviceSummary) -> (r: bool)
    ensures
        r == spec_matches_vendor_usage(*info),
{
    info.vendor_id == MONSGEEK_VID && info.usage_page == VENDOR_USAGE_PAGE && info.usage
        == VENDOR_USAGE
}

fn matches_vendor_interface(info: &DeviceSummary) -> (r: bool)
    ensures
        r == spec_matches_vendor_interface(*info),
{
    info.vendor_id == MONSGEEK_VID && info.interface_number == VENDOR_INTERFACE
}

/// Whether the interface is the keyboard's vendor-config one, by usage or by
/// interface number.
pub fn is_vendor_config(info: &DeviceSummary) -> (r: bool)
    ensures
        r == spec_is_vendor_config(*info),
{
    matches_vendor_usage(info) || matches_vendor_interface(info)
}

/// The first index at or after `from` whose device reports the vendor usage.
pub open spec fn first_usage_match(devs: Seq<DeviceSummary>, from: int) -> Option<int>
    decreases devs.len() - from,
{
    if from < 0 || from >= devs.len() {
        None
    } else if spec_matches_vendor_usage(devs[from]) {
        Some(from)
    } else {
        first_usage_match(devs, from + 1)
    }
}

/// The first index at or after `from` whose device is interface 2.
pub open spec fn first_interface_match(devs: Seq<DeviceSummary>, from: int) -> Option<int>
    decreases devs.len() - from,
{
    if from < 0 || from >= devs.len() {
        None
    } else if spec_matches_vendor_interface(devs[from]) {
        Some(from)
    } else {
        first_interface_match(devs, from + 1)
    }
}

pub open spec fn keyboard_index(devs: Seq<DeviceSummary>) -> Option<int> {
    match first_usage_match(devs, 0) {
        Some(i) => Some(i),
        None => first_interface_match(devs, 0),
    }
}

proof fn lemma_first_usage_match_sound(devs: Seq<DeviceSummary>, from: int)
    ensures
        match first_usage_match(devs, from) {
            Some(i) => from <= i < devs.len() && spec_matches_vendor_usage(devs[i]),
            None => true,
        },
    decreases devs.len() - from,
{
    if 0 <= from < devs.len() && !spec_matches_vendor_usage(devs[from]) {
        lemma_first_usage_match_sound(devs, from + 1);
    }
}

proof fn lemma_first_usage_match_found(devs: Seq<DeviceSummary>, from: int, k: int)
    requires
        0 <= from <= k < devs.len(),
        spec_matches_vendor_usage(devs[k]),
    ensures
        first_usage_match(devs, from) is Some,
    decreases k - from,
{
    if !spec_matches_vendor_usage(devs[from]) {
        lemma_first_usage_match_found(devs, from + 1, k);
    }
}

proof fn lemma_first_interface_match_sound(devs: Seq<DeviceSummary>, from: int)
    ensures
        match first_interface_match(devs, from) {
            Some(i) => from <= i < devs.len() && spec_matches_vendor_interface(devs[i]),
            None => true,
        },
    decreases devs.len() - from,
{
    if 0 <= from < devs.len() && !spec_matches_vendor_interface(devs[from]) {
        lemma_first_interface_match_sound(devs, from + 1);
    }
}

/// The interface picked is always a MonsGeek vendor-config one, and
/// whenever some interface reports the vendor usage, the one picked does:
/// the interface-number fallback is taken only where no usage is reported.
pub proof fn lemma_keyboard_choice(devs: Seq<DeviceSummary>)
    ensures
        match keyboard_index(devs) {
            Some(i) => 0 <= i < devs.len() && spec_is_vendor_config(devs[i]),
            None => forall|k: int| 0 <= k < devs.len() ==> !spec_is_vendor_config(#[trigger] devs[k]),
        },
        (exists|k: int| 0 <= k < devs.len() && spec_matches_vendor_usage(#[trigger] devs[k]))
            ==> match keyboard_index(devs) {
            Some(i) => spec_matches_vendor_usage(devs[i]),
            None => false,
        },
{
    lemma_first_usage_match_sound(devs, 0);
    lemma_first_interface_match_sound(devs, 0);
    assert forall|k: int| 0 <= k < devs.len() && spec_matches_vendor_usage(devs[k]) implies first_usage_match(devs, 0) is Some by {
        lemma_first_usage_match_found(devs, 0, k);
    }
    if keyboard_index(devs) is None {
        assert forall|k: int| 0 <= k < devs.len() implies !spec_is_vendor_config(#[trigger] devs[k]) by {
            if spec_matches_vendor_usage(devs[k]) {
                lemma_first_usage_match_found(devs, 0, k);
            }
            if spec_matches_vendor_interface(devs[k]) {
                lemma_first_interface_match_found(devs, 0, k);
            }
        }
    }
}

proof fn lemma_first_interface_match_found(devs: Seq<DeviceSummary>, from: int, k: int)
    requires
        0 <= from <= k < devs.len(),
        spec_matches_vendor_interface(devs[k]),
    ensures
        first_interface_match(devs, from) is Some,
    decreases k - from,
{
    if !spec_matches_vendor_interface(devs[from]) {
        lemma_first_interface_match_found(devs, from + 1, k);
    }
}

/// The index of the vendor-config interface, preferring a usage-page match.
/// Only when no device reports the vendor usage is interface 2 used, so a
/// platform that does report usages never picks the wrong interface.
pub fn find_keyboard(devices: &[DeviceSummary]) -> (r: Option<usize>)
    ensures
        match r {
            Some(i) => keyboard_index(devices@) == Some(i as int) && i < devices@.len(),
            None => keyboard_index(devices@) is None,
        },
{
    let mut i: usize = 0;
    while i < devices.len()
        invariant
            i <= devices@.len(),
            first_usage_match(devices@, 0) == first_usage_match(devices@, i as int),
        decreases devices.len() - i,
    {
        if matches_vendor_usage(&devices[i]) {
            return Some(i);
        }
        i = i + 1;
    }
    let mut j: usize = 0;
    while j < devices.len()
        invariant
            j <= devices@.len(),
            first_usage_match(devices@, 0) is None,
            first_interface_match(devices@, 0) == first_interface_match(devices@, j as int),
        decreases devices.len() - j,
    {
        if matches_vendor_interface(&devices[j]) {
            return Some(j);
        }
        j = j + 1;
    }
    None
}

pub open spec fn hex_char(d: nat) -> char {
    if d < 10 {
        crate::text::digit_char(d)
    } else if d == 10 {
        'a'
    } else if d == 11 {
        'b'
    } else if d == 12 {
        'c'
    } else if d == 13 {
        'd'
    } else if d == 14 {
        'e'
    } else {
        'f'
    }
}

/// The value of a lowercase hexadecimal digit.
pub open spec fn hex_digit_value(c: char) -> int {
    if '0' <= c && c <= '9' {
        c as int - '0' as int
    } else {
        c as int - 'a' as int + 10
    }
}

pub open spec fn is_lower_hex_digit(c: char) -> bool {
    ('0' <= c && c <= '9') || ('a' <= c && c <= 'f')
}

/// `hex4(n)` is `n` written in lowercase base 16 with four digits: read back
/// as a base-16 number it gives `n`.
pub proof fn lemma_hex4_reads_back(n: u16)
    ensures
        hex4(n).len() == 4,
        forall|i: int| 0 <= i < 4 ==> is_lower_hex_digit(#[trigger] hex4(n)[i]),
        4096 * hex_digit_value(hex4(n)[0]) + 256 * hex_digit_value(hex4(n)[1]) + 16
            * hex_digit_value(hex4(n)[2]) + hex_digit_value(hex4(n)[3]) == n,
{
    let a = (n as nat / 4096) % 16;
    let b = (n as nat / 256) % 16;
    let c = (n as nat / 16) % 16;
    let d = n as nat % 16;
    lemma_hex_char(a);
    lemma_hex_char(b);
    lemma_hex_char(c);
    lemma_hex_char(d);
    assert(4096 * a + 256 * b + 16 * c + d == n as nat) by (nonlinear_arith)
        requires
            n < 65536,
            a == (n as nat / 4096) % 16,
            b == (n as nat / 256) % 16,
            c == (n as nat / 16) % 16,
            d == n as nat % 16,
    ;
}

proof fn lemma_hex_char(d: nat)
    requires
        d < 16,
    ensures
        is_lower_hex_digit(hex_char(d)),
        hex_digit_value(hex_char(d)) == d,
{
    if d < 10 {
        crate::text::lemma_digit_char(d);
    }
}

/// `{:04x}` of a 16-bit value.
pub open spec fn hex4(n: u16) -> Seq<char> {
    seq![
        hex_char((n as nat / 4096) % 16),
        hex_char((n as nat / 256) % 16),
        hex_char((n as nat / 16) % 16),
        hex_char(n as nat % 16),
    ]
}

/// `Display` of a signed number.
pub open spec fn signed_decimal(n: int) -> Seq<char> {
    if n < 0 {
        "-"@ + decimal((-n) as nat)
    } else {
        decimal(n as nat)
    }
}

/// One line of the device listing.
pub open spec fn device_line(d: DeviceSummary) -> Seq<char> {
    "pid="@ + hex4(d.product_id) + " iface="@ + signed_decimal(d.interface_number as int)
        + " usage_page="@ + hex4(d.usage_page) + " usage="@ + hex4(d.usage) + (if spec_is_vendor_config(d) {
        " [config]"@
    } else {
        ""@
    }) + " product="@ + d.product_label@ + " path="@ + d.path_label@
}

/// The listing lines of the MonsGeek interfaces among `devs`, in order.
pub open spec fn monsgeek_lines(devs: Seq<DeviceSummary>) -> Seq<Seq<char>>
    decreases devs.len(),
{
    if devs.len() == 0 {
        Seq::empty()
    } else if devs.last().vendor_id == MONSGEEK_VID {
        monsgeek_lines(devs.drop_last()).push(device_line(devs.last()))
    } else {
        monsgeek_lines(devs.drop_last())
    }
}

fn hex_digit_str(d: u16) -> (s: &'static str)
    requires
        d < 16,
    ensures
        s@ == seq![hex_char(d as nat)],
{
    if d < 10 {
        crate::text::digit_str(d as u64)
    } else if d == 10 {
        proof {
            reveal_strlit("a");
        }
        "a"
    } else if d == 11 {
        proof {
            reveal_strlit("b");
        }
        "b"
    } else if d == 12 {
        proof {
            reveal_strlit("c");
        }
        "c"
    } else if d == 13 {
        proof {
            reveal_strlit("d");
        }
        "d"
    } else if d == 14 {
        proof {
            reveal_strlit("e");
        }
        "e"
    } else {
        proof {
            reveal_strlit("f");
        }
        "f"
    }
}

fn push_hex4(out: &mut String, n: u16)
    ensures
        final(out)@ == old(out)@ + hex4(n),
{
    out.append(hex_digit_str((n / 4096) % 16));
    out.append(hex_digit_str((n / 256) % 16));
    out.append(hex_digit_str((n / 16) % 16));
    out.append(hex_digit_str(n % 16));
    assert(out@ =~= old(out)@ + hex4(n));
}

fn push_signed(out: &mut String, n: i32)
    ensures
        final(out)@ == old(out)@ + signed_decimal(n as int),
{
    if n < 0 {
        out.append("-");
        let m: i64 = -(n as i64);
        push_decimal(out, m as u64);
        assert(out@ =~= old(out)@ + signed_decimal(n as int));
    } else {
        push_decimal(out, n as u64);
    }
}

fn describe_device(d: &DeviceSummary) -> (line: String)
    ensures
        line@ == device_line(*d),
{
    let mut line = String::from_str("pid=");
    push_hex4(&mut line, d.product_id);
    line.append(" iface=");
    push_signed(&mut line, d.interface_number);
    line.append(" usage_page=");
    push_hex4(&mut line, d.usage_page);
    line.append(" usage=");
    push_hex4(&mut line, d.usage);
    if is_vendor_config(d) {
        line.append(" [config]");
    } else {
        line.append("");
    }
    line.append(" product=");
    line.append(d.product_label.as_str());
    line.append(" path=");
    line.append(d.path_label.as_str());
    line
}

/// One line per MonsGeek interface (any usage), flagging the vendor-config
/// one with `[config]`.
pub fn list_monsgeek_devices(devices: &[DeviceSummary]) -> (lines: Vec<String>)
    ensures
        lines.deep_view() == monsgeek_lines(devices@),
{
    let mut lines: Vec<String> = Vec::new();
    let mut i: usize = 0;
    while i < devices.len()
        invariant
            i <= devices@.len(),
            lines.deep_view() == monsgeek_lines(devices@.subrange(0, i as int)),
        decreases devices.len() - i,
    {
        let ghost before = lines.deep_view();
        assert(devices@.subrange(0, i + 1).drop_last() =~= devices@.subrange(0, i as int));
        if devices[i].vendor_id == MONSGEEK_VID {
            let line = describe_device(&devices[i]);
            lines.push(line);
            assert(lines.deep_view() =~= before.push(device_line(devices@[i as int])));
        }
        i = i + 1;
    }
    assert(devices@.subrange(0, devices@.len() as int) =~= devices@);
    lines
}

} // verus!
