use displaymux::locale::UiLocale;
use displaymux::startup::{
    autostart_args, launched_from_autostart, tray_command, tray_label, window_action, TrayCommand,
    WindowAction, WindowEvent,
};
use displaymux::update::{
    no_update, update_error, update_info, update_install_error, DownloadProgress, FoundUpdate,
    UpdateDownloadEvent,
};

#[test]
fn only_the_explicit_login_argument_starts_windows_hidden() {
    assert!(launched_from_autostart(&[
        "DisplayMux.exe".to_owned(),
        "--autostart".to_owned(),
    ]));
    assert!(!launched_from_autostart(&["DisplayMux.exe".to_owned()]));
}

#[test]
fn only_windows_passes_a_login_argument() {
    assert_eq!(autostart_args("windows"), Some(vec!["--autostart"]));
    assert_eq!(autostart_args("macos"), None);
    assert_eq!(autostart_args("linux"), None);
    assert!(!launched_from_autostart(&[]));
    assert!(!launched_from_autostart(&["--autostart=1".to_owned()]));
}

#[test]
fn main_window_goes_to_the_tray() {
    assert_eq!(
        window_action("main", WindowEvent::CloseRequested),
        WindowAction::KeepAndHide
    );
    assert_eq!(
        window_action("main", WindowEvent::Resized { minimized: true }),
        WindowAction::Hide
    );
    assert_eq!(
        window_action("main", WindowEvent::Resized { minimized: false }),
        WindowAction::Nothing
    );
    assert_eq!(
        window_action("main", WindowEvent::Other),
        WindowAction::Nothing
    );
    assert_eq!(
        window_action("about", WindowEvent::CloseRequested),
        WindowAction::Nothing
    );
}

#[test]
fn tray_menu_opens_and_quits() {
    assert_eq!(tray_command("tray-open"), Some(TrayCommand::Open));
    assert_eq!(tray_command("tray-quit"), Some(TrayCommand::Quit));
    assert_eq!(tray_command("tray"), None);
    assert_eq!(
        tray_label(UiLocale::English, TrayCommand::Open),
        "Open DisplayMux"
    );
    assert_eq!(
        tray_label(UiLocale::TraditionalChinese, TrayCommand::Quit),
        "結束 DisplayMux"
    );
}

#[test]
fn download_is_announced_once_and_added_up() {
    let mut progress = DownloadProgress::new();
    assert_eq!(
        progress.chunk(10, Some(25)),
        vec![
            UpdateDownloadEvent::Started {
                content_length: Some(25)
            },
            UpdateDownloadEvent::Progress {
                downloaded: 10,
                content_length: Some(25)
            },
        ]
    );
    assert_eq!(
        progress.chunk(15, Some(25)),
        vec![UpdateDownloadEvent::Progress {
            downloaded: 25,
            content_length: Some(25)
        }]
    );
    assert_eq!(
        progress.chunk(u64::MAX, None),
        vec![UpdateDownloadEvent::Progress {
            downloaded: u64::MAX,
            content_length: None
        }]
    );
}

#[test]
fn updates_are_described() {
    let found = update_info(
        "1.0.0".to_owned(),
        Some(FoundUpdate {
            version: "1.1.0".to_owned(),
            notes: Some("better".to_owned()),
        }),
    );
    assert!(found.available);
    assert_eq!(found.version.as_deref(), Some("1.1.0"));
    assert_eq!(found.notes.as_deref(), Some("better"));
    let none = update_info("1.0.0".to_owned(), None);
    assert!(!none.available);
    assert_eq!(none.current_version, "1.0.0");
    assert_eq!(none.version, None);
    assert_eq!(
        no_update(UiLocale::English),
        "No update is currently available to install"
    );
    assert_eq!(
        update_error(UiLocale::English),
        "Unable to check for updates. Confirm that GitHub Releases is reachable and try again later."
    );
    assert_eq!(
        update_install_error(UiLocale::TraditionalChinese),
        "更新下載或簽章驗證失敗；目前版本未變更，請稍後再試一次"
    );
}
