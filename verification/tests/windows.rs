use displaymux::windows::{
    backend_error, can_cut, decode_edid_text, device_path_from, enumerate_native,
    last_windows_error, normalize_wmi_instance, parse_device_path, read_reply, wide_string,
    write_reply, LogicalMonitor, WindowsMonitorController, WmiMonitorId,
};
use displaymux::{DisplayInput, DisplayMuxError};

const PATH: &str =
    r"\\?\DISPLAY#AUS3554#5&5405411&0&UID4353#{e6f07b5f-ee97-4a90-b076-33f57bf4eaa7}";

fn wide(text: &str) -> Vec<u16> {
    let mut units: Vec<u16> = text.encode_utf16().collect();
    units.push(0);
    units.push(0x41);
    units
}

fn record(instance_name: &str, name: &str, serial: &str) -> WmiMonitorId {
    WmiMonitorId {
        instance_name: instance_name.to_owned(),
        active: true,
        serial_number_id: wide(serial),
        user_friendly_name: wide(name),
    }
}

fn logical(path: &str, physical: &[&str]) -> LogicalMonitor {
    LogicalMonitor {
        device_path: Ok(path.to_owned()),
        physical: Ok(physical.iter().map(|text| wide(text)).collect()),
    }
}

#[test]
fn parses_monitor_interface_path() {
    let identity = parse_device_path(
        r"\\?\DISPLAY#AUS3554#5&5405411&0&UID4353#{e6f07b5f-ee97-4a90-b076-33f57bf4eaa7}",
    )
    .expect("path parses");

    assert_eq!(identity.manufacturer_id, "AUS");
    assert_eq!(identity.product_code, "3554");
    assert_eq!(
        identity.wmi_instance_key,
        r"DISPLAY\AUS3554\5&5405411&0&UID4353"
    );
}

#[test]
fn normalizes_wmi_instance_suffix() {
    assert_eq!(
        normalize_wmi_instance(r"DISPLAY\AUS3554\5&5405411&0&UID4353_0"),
        r"DISPLAY\AUS3554\5&5405411&0&UID4353"
    );
}

#[test]
fn instance_name_without_the_suffix_is_only_put_in_upper_case() {
    assert_eq!(normalize_wmi_instance("display\\aus_1"), "DISPLAY\\AUS_1");
    assert_eq!(normalize_wmi_instance("0"), "0");
    assert_eq!(normalize_wmi_instance("_0"), "");
}

#[test]
fn paths_of_other_devices_are_refused() {
    for path in [
        "",
        "USB#AUS3554#x",
        "DISPLAY#AUS#x",
        "DISPLAY#AUS3554",
        "DISPLAY",
    ] {
        assert!(can_cut(path));
        assert_eq!(
            parse_device_path(path),
            Err(DisplayMuxError::Backend(format!(
                "無法解析 Windows 螢幕裝置路徑：{path}"
            )))
        );
    }
}

#[test]
fn hardware_id_is_cut_by_bytes() {
    assert!(can_cut("display#aéb1#x"));
    let identity = parse_device_path("display#aéb1#x").unwrap();
    assert_eq!(identity.manufacturer_id, "Aé");
    assert_eq!(identity.product_code, "B1");
    assert!(!can_cut("DISPLAY#AAé1#x"));
    assert!(can_cut("OTHER#AAé1#x"));
}

#[test]
fn edid_text_ends_at_zero_and_is_trimmed() {
    assert_eq!(
        decode_edid_text(&wide("  PA278 \n")),
        Some("PA278".to_owned())
    );
    assert_eq!(decode_edid_text(&wide(" \t ")), None);
    assert_eq!(decode_edid_text(&[]), None);
    assert_eq!(
        decode_edid_text(&[0xd800, 0x41, 0xdc00, 0x42]),
        Some("AB".to_owned())
    );
}

#[test]
fn wide_strings_match_the_standard_decoder() {
    for units in [
        vec![0x41, 0xd83d, 0xde00, 0x42],
        vec![0xd83d, 0x41],
        vec![0xde00, 0xd83d],
        vec![0xd83d, 0xd83d, 0xde00],
        vec![0xd7ff, 0xe000, 0xffff],
    ] {
        assert_eq!(wide_string(&units), String::from_utf16_lossy(&units));
    }
    assert_eq!(wide_string(&wide("Dell")), "Dell");
}

#[test]
fn empty_device_path_is_refused() {
    assert_eq!(device_path_from(&wide(PATH)), Ok(PATH.to_owned()));
    assert_eq!(
        device_path_from(&[0, 0x41]),
        Err(DisplayMuxError::Backend(
            "Windows 未提供螢幕裝置路徑；為避免誤控，已停止操作".to_owned()
        ))
    );
}

#[test]
fn physical_displays_are_listed_in_order() {
    let records = vec![
        record(r"DISPLAY\AUS3554\5&5405411&0&UID4353_0", "old name", "0"),
        record(r"display\aus3554\5&5405411&0&uid4353_0", "PA278", " 278504 "),
        record(r"DISPLAY\DEL1234\1_0", " ", ""),
    ];
    let logical = vec![
        logical(PATH, &["first", "second"]),
        logical("DISPLAY#DEL1234#1", &["Dell description"]),
    ];
    let monitors = enumerate_native(&records, &logical).unwrap();
    assert_eq!(monitors.len(), 3);
    assert_eq!(
        monitors[0].id.as_str(),
        format!("{}::physical:0", PATH.to_ascii_uppercase())
    );
    assert_eq!(
        monitors[1].id.as_str(),
        format!("{}::physical:1", PATH.to_ascii_uppercase())
    );
    assert_eq!(monitors[0].name, "PA278");
    assert_eq!(
        monitors[0].fingerprint.serial_number.as_deref(),
        Some("278504")
    );
    assert_eq!(monitors[2].name, "Dell description");
    assert_eq!(monitors[2].fingerprint.manufacturer_id, "DEL");
    assert_eq!(monitors[2].fingerprint.product_code, "1234");
    assert_eq!(monitors[2].fingerprint.serial_number, None);
}

#[test]
fn display_without_a_wmi_record_stops_the_enumeration() {
    assert_eq!(
        enumerate_native(&vec![], &vec![logical(PATH, &["first"])]),
        Err(DisplayMuxError::Backend(format!(
            "無法取得 {PATH} 的 EDID 序號；為避免誤控，已停止列舉"
        )))
    );
}

#[test]
fn first_failure_of_windows_is_reported() {
    let records = vec![record(r"DISPLAY\DEL1234\1_0", "Dell", "1")];
    let failed_path = LogicalMonitor {
        device_path: Err(DisplayMuxError::Backend("path".to_owned())),
        physical: Err(DisplayMuxError::Backend("physical".to_owned())),
    };
    let failed_physical = LogicalMonitor {
        device_path: Ok("DISPLAY#DEL1234#1".to_owned()),
        physical: Err(DisplayMuxError::Backend("physical".to_owned())),
    };
    assert_eq!(
        enumerate_native(&records, &vec![failed_physical, failed_path]),
        Err(DisplayMuxError::Backend("physical".to_owned()))
    );
}

#[test]
fn windows_failures_give_action_and_reason() {
    assert_eq!(
        backend_error("無法讀取", "denied"),
        DisplayMuxError::Backend("無法讀取：denied".to_owned())
    );
    assert_eq!(
        last_windows_error("無法列舉", "5"),
        DisplayMuxError::Backend("無法列舉：5".to_owned())
    );
    assert!(WindowsMonitorController::new().is_ok());
}

#[test]
fn replies_of_windows_become_inputs_or_errors() {
    assert_eq!(read_reply(true, 0x11, ""), DisplayInput::new(0x11));
    assert_eq!(
        read_reply(true, 0, ""),
        Err(DisplayMuxError::InvalidInput(0))
    );
    assert_eq!(
        read_reply(false, 0x11, "denied"),
        Err(DisplayMuxError::Backend(
            "無法讀取共用螢幕目前的輸入來源：denied".to_owned()
        ))
    );
    assert_eq!(write_reply(true, "x"), Ok(()));
    assert_eq!(
        write_reply(false, "denied"),
        Err(DisplayMuxError::Backend(
            "無法切換共用螢幕輸入來源：denied".to_owned()
        ))
    );
}

#[test]
fn paths_behind_a_failure_are_not_looked_at() {
    let failed = LogicalMonitor {
        device_path: Err(DisplayMuxError::Backend("path".to_owned())),
        physical: Ok(vec![]),
    };
    assert_eq!(
        enumerate_native(&vec![], &vec![failed, logical("DISPLAY#AAé1#x", &[])]),
        Err(DisplayMuxError::Backend("path".to_owned()))
    );
}

#[test]
fn displays_behind_one_path_have_different_ids() {
    let records = vec![record(r"DISPLAY\DEL1234\1_0", "Dell", "1")];
    let monitors = enumerate_native(
        &records,
        &vec![logical("DISPLAY#DEL1234#1", &["a", "b", "c"])],
    )
    .unwrap();
    for (i, first) in monitors.iter().enumerate() {
        for second in &monitors[i + 1..] {
            assert_ne!(first.id, second.id);
        }
    }
}

#[test]
fn instance_name_and_path_of_a_display_have_one_key() {
    let identity = parse_device_path(PATH).unwrap();
    assert_eq!(
        normalize_wmi_instance(r"display\aus3554\5&5405411&0&uid4353_0"),
        identity.wmi_instance_key
    );
}
