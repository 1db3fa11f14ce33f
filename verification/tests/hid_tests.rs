use monsgeek_profile_switcher::hid::{
    bit7_checksum, build_get_profile_report, build_set_profile_report, find_keyboard,
    is_vendor_config, list_monsgeek_devices, profile_from_response, ui_profile_to_wire,
    wire_profile_to_ui, DeviceSummary, GET_PROFILE, MONSGEEK_VID, REPORT_LEN, SET_PROFILE,
};

fn device(vid: u16, usage_page: u16, usage: u16, iface: i32, path: &str) -> DeviceSummary {
    DeviceSummary {
        vendor_id: vid,
        product_id: 0x4015,
        usage_page,
        usage,
        interface_number: iface,
        product_label: "Some(\"MonsGeek Keyboard\")".to_string(),
        path_label: format!("{:?}", path),
    }
}

#[test]
fn checksum_set_profile_1() {
    let r = build_set_profile_report(1);
    assert_eq!(&r[0..8], &[0x00, 0x04, 0x00, 0x00, 0x00, 0x00, 0x00, 0xfb]);
}

#[test]
fn checksum_set_profile_2() {
    let r = build_set_profile_report(2);
    assert_eq!(&r[0..8], &[0x00, 0x04, 0x01, 0x00, 0x00, 0x00, 0x00, 0xfa]);
}

#[test]
fn checksum_get_profile() {
    let r = build_get_profile_report();
    assert_eq!(&r[0..8], &[0x00, 0x84, 0x00, 0x00, 0x00, 0x00, 0x00, 0x7b]);
}

#[test]
fn ui_and_wire_profiles_round_trip() {
    for ui in 1..=4u8 {
        assert_eq!(wire_profile_to_ui(ui_profile_to_wire(ui)), ui);
    }
    // Out-of-range input is clamped rather than wrapping.
    assert_eq!(ui_profile_to_wire(0), 0);
    assert_eq!(ui_profile_to_wire(9), 3);
}

#[test]
fn wire_slots_above_three_read_as_profile_four() {
    assert_eq!(wire_profile_to_ui(0), 1);
    assert_eq!(wire_profile_to_ui(3), 4);
    assert_eq!(wire_profile_to_ui(200), 4);
    for wire in 0..=3u8 {
        assert_eq!(ui_profile_to_wire(wire_profile_to_ui(wire)), wire);
    }
}

#[test]
fn checksum_makes_the_header_sum_to_255() {
    let header = [0x12, 0x34, 0x56, 0x78, 0x9a, 0xbc, 0xde];
    let c = bit7_checksum(&header);
    let sum: u32 = header.iter().map(|&b| b as u32).sum::<u32>() + c as u32;
    assert_eq!(sum % 256, 255);
    assert_eq!(bit7_checksum(&[0; 7]), 0xff);
}

#[test]
fn reports_are_full_length_and_zero_after_the_checksum() {
    let r = build_set_profile_report(4);
    assert_eq!(r.len(), REPORT_LEN);
    assert_eq!(r[1], SET_PROFILE);
    assert_eq!(r[2], 3);
    assert_eq!(r[7], 0xff - 0x04 - 0x03);
    assert!(r[8..].iter().all(|&b| b == 0));
    let g = build_get_profile_report();
    assert_eq!(g[1], GET_PROFILE);
    assert!(g[8..].iter().all(|&b| b == 0));
}

#[test]
fn a_get_profile_response_names_the_active_profile() {
    let mut buf = [0u8; REPORT_LEN];
    buf[1] = GET_PROFILE;
    buf[2] = 2;
    assert_eq!(profile_from_response(&buf, REPORT_LEN), Some(3));
    assert_eq!(profile_from_response(&buf, 3), Some(3));
    assert_eq!(profile_from_response(&buf, 2), None);
    buf[1] = SET_PROFILE;
    assert_eq!(profile_from_response(&buf, REPORT_LEN), None);
}

#[test]
fn the_usage_match_is_preferred_over_the_interface_number() {
    let devices = vec![
        device(MONSGEEK_VID, 0x0001, 0x06, 0, "a"),
        device(MONSGEEK_VID, 0x000c, 0x01, 2, "b"),
        device(MONSGEEK_VID, 0xffff, 0x02, 1, "c"),
    ];
    assert_eq!(find_keyboard(&devices), Some(2));
    assert!(is_vendor_config(&devices[1]));
    assert!(is_vendor_config(&devices[2]));
    assert!(!is_vendor_config(&devices[0]));
}

#[test]
fn interface_two_is_the_fallback() {
    let devices = vec![
        device(0x1234, 0xffff, 0x02, 2, "other vendor"),
        device(MONSGEEK_VID, 0, 0, 0, "a"),
        device(MONSGEEK_VID, 0, 0, 2, "b"),
    ];
    assert_eq!(find_keyboard(&devices), Some(2));
    assert_eq!(find_keyboard(&devices[..2]), None);
    assert_eq!(find_keyboard(&[]), None);
}

#[test]
fn the_listing_shows_only_monsgeek_interfaces() {
    let devices = vec![
        device(MONSGEEK_VID, 0xffff, 0x02, 2, "/dev/hidraw3"),
        device(0x046d, 0xffff, 0x02, 2, "/dev/hidraw4"),
        device(MONSGEEK_VID, 0x0001, 0x06, -1, "/dev/hidraw1"),
    ];
    let lines = list_monsgeek_devices(&devices);
    assert_eq!(
        lines,
        vec![
            "pid=4015 iface=2 usage_page=ffff usage=0002 [config] product=Some(\"MonsGeek Keyboard\") path=\"/dev/hidraw3\"",
            "pid=4015 iface=-1 usage_page=0001 usage=0006 product=Some(\"MonsGeek Keyboard\") path=\"/dev/hidraw1\"",
        ]
    );
}
