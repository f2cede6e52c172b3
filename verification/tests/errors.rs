use displaymux::domain::{find_listed, position_of};
use displaymux::stored::{format_by_members, merge_saved_settings, SettingsFormat};
use displaymux::settings::AppSettings;
use displaymux::{
    DestinationHost, DisplayMuxError, MonitorDescriptor, MonitorFingerprint, MonitorId,
};

#[test]
fn every_error_has_a_text_in_both_languages() {
    let cases = [
        (
            DisplayMuxError::TargetNotFound,
            "找不到設定的共用螢幕；未變更任何螢幕",
            "The configured shared display was not found; no display was changed",
        ),
        (
            DisplayMuxError::AmbiguousTarget { count: 12 },
            "找到 12 台符合共用螢幕指紋的裝置；為避免誤控，已停止操作",
            "Found 12 displays with the shared display fingerprint; stopped to avoid controlling the wrong one",
        ),
        (
            DisplayMuxError::MonitorNoLongerAvailable("x".to_owned()),
            "找不到先前列舉的螢幕裝置：x",
            "The previously listed display is no longer available: x",
        ),
        (
            DisplayMuxError::InvalidInput(0xabc),
            "無效的螢幕輸入值：0xABC",
            "Invalid display input value: 0xABC",
        ),
        (
            DisplayMuxError::InvalidInputCode("x".to_owned()),
            "無法辨識螢幕輸入值：x；請輸入 0x01 至 0xFF，或使用十進位 1 至 255",
            "Unrecognized display input value: x; enter 0x01 to 0xFF, or decimal 1 to 255",
        ),
        (
            DisplayMuxError::UnsupportedPlatform,
            "此平台尚未提供螢幕控制功能",
            "Display control is not available on this platform",
        ),
        (
            DisplayMuxError::InvalidMacAddress("x".to_owned()),
            "MAC 位址格式無效：x",
            "Invalid MAC address: x",
        ),
        (
            DisplayMuxError::WakeFailed("x".to_owned()),
            "無法送出網路喚醒封包：x",
            "Unable to send the wake packet: x",
        ),
        (
            DisplayMuxError::PeerUnavailable("x".to_owned()),
            "無法連線至另一台主機：x",
            "Unable to connect to the other host: x",
        ),
        (
            DisplayMuxError::AuthenticationFailed,
            "另一台主機拒絕了未通過驗證的要求",
            "The other host rejected a request that failed authentication",
        ),
        (
            DisplayMuxError::StaleRequest,
            "要求已過期或可能被重播",
            "The request expired or may have been replayed",
        ),
        (
            DisplayMuxError::Backend("x".to_owned()),
            "無法完成螢幕操作：x",
            "The display operation could not be completed: x",
        ),
    ];
    for (error, chinese, english) in cases {
        assert_eq!(error.message(), chinese);
        assert_eq!(error.localized_message(true), chinese);
        assert_eq!(error.localized_message(false), english);
        assert_eq!(error.clone(), error);
    }
}

fn listed(id: &str) -> MonitorDescriptor {
    MonitorDescriptor {
        id: MonitorId::new(id),
        name: id.to_owned(),
        fingerprint: MonitorFingerprint::new("A", "B", None),
        active: true,
        built_in: false,
        max_resolution: None,
        resolution_source: None,
    }
}

#[test]
fn listed_displays_are_found_by_id() {
    let monitors = [listed("a"), listed("b"), listed("b")];
    assert_eq!(position_of(&monitors, "b"), Some(1));
    assert_eq!(position_of(&monitors, "c"), None);
    assert_eq!(find_listed(&monitors, &MonitorId::new("a")), Ok(0));
    assert_eq!(
        find_listed(&monitors, &MonitorId::new("c")),
        Err(DisplayMuxError::MonitorNoLongerAvailable("c".to_owned()))
    );
}

#[test]
fn either_member_marks_the_current_format() {
    assert_eq!(format_by_members(true, false), SettingsFormat::Current);
    assert_eq!(format_by_members(false, true), SettingsFormat::Current);
    assert_eq!(format_by_members(false, false), SettingsFormat::Legacy);
}

#[test]
fn merging_twice_is_merging_once() {
    let protected = AppSettings::for_host(DestinationHost::Mac);
    let submitted = AppSettings {
        wait_seconds: 9,
        ..AppSettings::default()
    };
    let once = merge_saved_settings(submitted, protected.clone(), false);
    assert_eq!(once.local_host, DestinationHost::Mac);
    assert_eq!(once.wait_seconds, 9);
    assert!(once.autostart);
    let twice = merge_saved_settings(once.clone(), protected, false);
    assert_eq!(twice, once);
}
