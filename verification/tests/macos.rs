use displaymux::macos::{
    backend_error, core_graphics_resolution, descriptor, descriptors, find_monitor,
    fingerprint_from_edid, fingerprint_from_native_ids, id_for, manufacturer_character,
    read_reply, MacOsMonitorController, NativeDisplay,
};
use displaymux::{DisplayInput, DisplayMuxError, MonitorId, MonitorResolution, ResolutionSource};

fn finalize_edid(edid: &mut [u8; 128]) {
    edid[..8].copy_from_slice(&[0x00, 0xff, 0xff, 0xff, 0xff, 0xff, 0xff, 0x00]);
    edid[127] = 0_u8.wrapping_sub(
        edid[..127]
            .iter()
            .fold(0_u8, |sum, byte| sum.wrapping_add(*byte)),
    );
}

fn asus_edid() -> [u8; 128] {
    let mut edid = [0_u8; 128];
    let manufacturer = (1_u16 << 10) | (21_u16 << 5) | 19_u16;
    [edid[8], edid[9]] = manufacturer.to_be_bytes();
    [edid[10], edid[11]] = 0x3554_u16.to_le_bytes();
    [edid[12], edid[13], edid[14], edid[15]] = 278_504_u32.to_le_bytes();
    finalize_edid(&mut edid);
    edid
}

fn display(display_id: u32, edid: Option<Vec<u8>>) -> NativeDisplay {
    NativeDisplay {
        display_id,
        description: "Studio".to_owned(),
        edid,
        vendor_number: (1_u32 << 10) | (21_u32 << 5) | 19_u32,
        model_number: 0x3554,
        serial_number: Some("278504".to_owned()),
        built_in: false,
        mode_pixels: Some((3440, 1440)),
    }
}

#[test]
fn parses_asus_edid_identity() {
    let mut edid = [0_u8; 128];
    let manufacturer = (1_u16 << 10) | (21_u16 << 5) | 19_u16;
    [edid[8], edid[9]] = manufacturer.to_be_bytes();
    [edid[10], edid[11]] = 0x3554_u16.to_le_bytes();
    [edid[12], edid[13], edid[14], edid[15]] = 278_504_u32.to_le_bytes();
    finalize_edid(&mut edid);

    let fingerprint = fingerprint_from_edid(&edid).unwrap();

    assert_eq!(fingerprint.manufacturer_id, "AUS");
    assert_eq!(fingerprint.product_code, "3554");
    assert_eq!(fingerprint.serial_number.as_deref(), Some("278504"));
}

#[test]
fn builds_matching_identity_from_core_graphics_when_edid_is_missing() {
    let vendor_number = (1_u32 << 10) | (21_u32 << 5) | 19_u32;

    let fingerprint =
        fingerprint_from_native_ids(vendor_number, 0x3554, Some("278504".to_owned()));

    assert_eq!(fingerprint.manufacturer_id, "AUS");
    assert_eq!(fingerprint.product_code, "3554");
    assert_eq!(fingerprint.serial_number.as_deref(), Some("278504"));
}

#[test]
fn identity_is_the_same_with_and_without_the_edid() {
    let with_edid = descriptor(&display(1, Some(asus_edid().to_vec())));
    let without = descriptor(&display(1, None));
    assert!(with_edid.fingerprint.matches_exactly(&without.fingerprint));
}

#[test]
fn broken_edid_is_no_identity() {
    let mut edid = asus_edid();
    edid[9] = edid[9].wrapping_add(1);
    assert_eq!(
        fingerprint_from_edid(&edid),
        Err(DisplayMuxError::Backend(
            "顯示器 EDID 標頭、長度或 checksum 無效，無法安全識別裝置".to_owned()
        ))
    );
}

#[test]
fn zero_serial_number_is_missing() {
    let mut edid = asus_edid();
    edid[12] = 0;
    edid[13] = 0;
    edid[14] = 0;
    edid[15] = 0;
    finalize_edid(&mut edid);
    assert_eq!(fingerprint_from_edid(&edid).unwrap().serial_number, None);
}

#[test]
fn only_five_bit_letters_are_letters() {
    assert_eq!(manufacturer_character(1), 'A');
    assert_eq!(manufacturer_character(26), 'Z');
    assert_eq!(manufacturer_character(0), '?');
    assert_eq!(manufacturer_character(27), '?');
    assert_eq!(
        fingerprint_from_native_ids(0x1_0000, 0x12, None).manufacturer_id,
        "???"
    );
    assert_eq!(
        fingerprint_from_native_ids(0, 0x12, None).product_code,
        "0012"
    );
    assert_eq!(
        fingerprint_from_native_ids(0, 0xabcdef, None).product_code,
        "ABCDEF"
    );
}

#[test]
fn displays_are_described_by_what_macos_reports() {
    let monitor = descriptor(&display(42, None));
    assert_eq!(monitor.id.as_str(), "macos:42");
    assert_eq!(monitor.name, "Studio");
    assert!(monitor.active);
    assert!(!monitor.built_in);
    assert_eq!(
        monitor.max_resolution,
        Some(MonitorResolution::new(3440, 1440))
    );
    assert_eq!(
        monitor.resolution_source,
        Some(ResolutionSource::CoreGraphicsDisplayMode)
    );
    let all = descriptors(&[display(1, None), display(2, Some(vec![1, 2, 3]))]);
    assert_eq!(all.len(), 2);
    assert_eq!(all[1].id, id_for(2));
}

#[test]
fn display_is_found_by_its_id() {
    let displays = [display(1, None), display(7, None)];
    assert_eq!(find_monitor(&displays, &MonitorId::new("macos:7")), Ok(1));
    assert_eq!(
        find_monitor(&displays, &MonitorId::new("macos:8")),
        Err(DisplayMuxError::MonitorNoLongerAvailable(
            "macos:8".to_owned()
        ))
    );
}

#[test]
fn display_mode_must_have_a_size_that_fits() {
    assert_eq!(
        core_graphics_resolution(Some((2560, 1440))),
        Some(MonitorResolution::new(2560, 1440))
    );
    assert_eq!(core_graphics_resolution(None), None);
    assert_eq!(core_graphics_resolution(Some((0, 1440))), None);
    assert_eq!(core_graphics_resolution(Some((2560, 1 << 32))), None);
}

#[test]
fn failures_name_the_connection() {
    assert_eq!(
        backend_error("no reply"),
        DisplayMuxError::Backend(
            "macOS 無法透過目前的 HDMI／USB-C／Thunderbolt 路徑使用 DDC/CI：no reply".to_owned()
        )
    );
    let _ = MacOsMonitorController::new();
    let _ = MacOsMonitorController::default();
}

#[test]
fn replies_of_macos_become_inputs_or_errors() {
    assert_eq!(read_reply(Ok(0x12)), DisplayInput::new(0x12));
    assert_eq!(
        read_reply(Ok(0x100)),
        Err(DisplayMuxError::InvalidInput(0x100))
    );
    assert_eq!(
        read_reply(Err("no reply".to_owned())),
        Err(backend_error("no reply"))
    );
}

#[test]
fn display_ids_differ() {
    assert_ne!(id_for(1), id_for(11));
    assert_eq!(id_for(u32::MAX).as_str(), "macos:4294967295");
}
