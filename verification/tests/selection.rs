use std::cell::RefCell;
use std::collections::HashSet;

use displaymux::dashboard::{
    follow_monitors, get_dashboard_state, monitor_status, refresh_dashboard, selection_notice,
};
use displaymux::locale::UiLocale;
use displaymux::platform::{enumerate_monitor_inventory, run_local_switch, run_switch, UnsupportedController};
use displaymux::selection::{
    adopt_monitor, choose_monitor, clear_peer_inputs, find_controllable, find_matching,
    monitor_inventory,
    reconcile_monitor_selection, refresh_selected_input_data, select_monitor, MonitorInventory,
    MonitorSelectionChange,
};
use displaymux::settings::{AppSettings, HostRoute, SelectedMonitor};
use displaymux::{
    DestinationHost, DisplayInput, DisplayMuxError, MonitorControl, MonitorDescriptor,
    MonitorFingerprint, MonitorId, MonitorResolution, ResolutionSource,
};

struct SelectionController {
    monitors: Vec<MonitorDescriptor>,
    controllable: HashSet<String>,
}

impl MonitorControl for SelectionController {
    fn enumerate(&self) -> Result<Vec<MonitorDescriptor>, DisplayMuxError> {
        Ok(self.monitors.clone())
    }

    fn read_input(&self, monitor: &MonitorId) -> Result<DisplayInput, DisplayMuxError> {
        if self.controllable.contains(monitor.as_str()) {
            DisplayInput::new(0x0f)
        } else {
            Err(DisplayMuxError::Backend("DDC/CI unavailable".to_owned()))
        }
    }

    fn supported_inputs(&self, monitor: &MonitorId) -> Result<Vec<DisplayInput>, DisplayMuxError> {
        if self.controllable.contains(monitor.as_str()) {
            Ok(vec![
                DisplayInput::new(0x0f).unwrap(),
                DisplayInput::new(0x11).unwrap(),
                DisplayInput::new(0x1b).unwrap(),
            ])
        } else {
            Err(DisplayMuxError::Backend(
                "capabilities unavailable".to_owned(),
            ))
        }
    }

    fn write_input(&self, _monitor: &MonitorId, _input: DisplayInput) -> Result<(), DisplayMuxError> {
        unreachable!("selection tests never write an input")
    }
}

/// A display whose answers are fixed, and which counts what it is asked.
struct Scripted {
    read: Result<DisplayInput, DisplayMuxError>,
    supported: Result<Vec<DisplayInput>, DisplayMuxError>,
    calls: RefCell<Vec<String>>,
}

impl MonitorControl for Scripted {
    fn enumerate(&self) -> Result<Vec<MonitorDescriptor>, DisplayMuxError> {
        Err(DisplayMuxError::Backend("enumerate".to_owned()))
    }

    fn read_input(&self, monitor: &MonitorId) -> Result<DisplayInput, DisplayMuxError> {
        self.calls
            .borrow_mut()
            .push(format!("read {}", monitor.as_str()));
        self.read.clone()
    }

    fn supported_inputs(&self, monitor: &MonitorId) -> Result<Vec<DisplayInput>, DisplayMuxError> {
        self.calls
            .borrow_mut()
            .push(format!("supported {}", monitor.as_str()));
        self.supported.clone()
    }

    fn write_input(&self, _monitor: &MonitorId, _input: DisplayInput) -> Result<(), DisplayMuxError> {
        unreachable!("selection tests never write an input")
    }
}

fn monitor(id: &str) -> MonitorDescriptor {
    MonitorDescriptor {
        id: MonitorId::new(id),
        name: id.to_owned(),
        fingerprint: MonitorFingerprint::new("ACM", id, Some(format!("serial-{id}"))),
        active: true,
        built_in: false,
        max_resolution: Some(MonitorResolution::new(2560, 1440)),
        resolution_source: Some(ResolutionSource::WindowsDisplayMode),
    }
}

fn input(value: u32) -> DisplayInput {
    DisplayInput::new(value).unwrap()
}

fn peer(id: &str, value: Option<u32>) -> HostRoute {
    HostRoute {
        id: id.to_owned(),
        name: format!("{id} computer"),
        platform: DestinationHost::Mac,
        address: "192.168.1.20".to_owned(),
        port: 47653,
        mac_address: String::new(),
        input: value.map(input),
    }
}

#[test]
fn selects_and_persists_the_only_controllable_monitor() {
    let external = monitor("external");
    let mut internal = monitor("internal");
    internal.built_in = true;
    let uncontrollable = monitor("uncontrollable");
    let controller = SelectionController {
        monitors: vec![internal, uncontrollable, external.clone()],
        controllable: HashSet::from(["internal".to_owned(), external.id.as_str().to_owned()]),
    };
    let inventory = monitor_inventory(&controller).unwrap();
    assert_eq!(inventory.detected.len(), 3);
    assert_eq!(inventory.controllable.len(), 2);
    let mut settings = AppSettings::default();

    let change = reconcile_monitor_selection(
        &mut settings,
        &inventory.detected,
        &inventory.controllable,
    );

    assert_eq!(
        change,
        Some(MonitorSelectionChange::SelectedOnlyMonitor {
            name: "external".to_owned()
        })
    );
    assert_eq!(
        settings.shared_monitor,
        Some(SelectedMonitor::from(&external))
    );
}

#[test]
fn selected_monitor_records_current_input_and_capability_values_without_writes() {
    let external = monitor("external");
    let controller = SelectionController {
        monitors: vec![external.clone()],
        controllable: HashSet::from([external.id.as_str().to_owned()]),
    };
    let mut settings = AppSettings::default();

    refresh_selected_input_data(&controller, &external, &mut settings).unwrap();

    assert_eq!(settings.local_input.unwrap().value(), 0x0f);
    assert_eq!(
        settings
            .supported_inputs
            .unwrap()
            .iter()
            .map(|input| input.value())
            .collect::<Vec<_>>(),
        vec![0x0f, 0x11, 0x1b]
    );
}

#[test]
fn safely_replaces_a_missing_selection_when_only_one_candidate_remains() {
    let previous = monitor("disconnected");
    let replacement = monitor("replacement");
    let mut settings = AppSettings {
        shared_monitor: Some(SelectedMonitor::from(&previous)),
        ..AppSettings::default()
    };

    let change = reconcile_monitor_selection(
        &mut settings,
        std::slice::from_ref(&replacement),
        std::slice::from_ref(&replacement),
    );

    assert_eq!(
        change,
        Some(MonitorSelectionChange::ReplacedMissingMonitor {
            previous: "disconnected".to_owned(),
            replacement: "replacement".to_owned(),
        })
    );
    assert_eq!(
        settings.shared_monitor,
        Some(SelectedMonitor::from(&replacement))
    );
}

#[test]
fn never_guesses_between_multiple_controllable_monitors() {
    let mut settings = AppSettings::default();
    let monitors = [monitor("first"), monitor("second")];

    assert_eq!(
        reconcile_monitor_selection(&mut settings, &monitors, &monitors),
        None
    );
    assert!(settings.shared_monitor.is_none());
}

#[test]
fn missing_selection_is_not_replaced_when_multiple_candidates_remain() {
    let disconnected = monitor("disconnected");
    let mut settings = AppSettings {
        shared_monitor: Some(SelectedMonitor::from(&disconnected)),
        ..AppSettings::default()
    };
    let monitors = [monitor("first"), monitor("second")];

    assert_eq!(
        reconcile_monitor_selection(&mut settings, &monitors, &monitors),
        None
    );
    assert_eq!(
        settings.shared_monitor,
        Some(SelectedMonitor::from(&disconnected))
    );
}

#[test]
fn transient_ddc_failure_does_not_replace_a_still_detected_selection() {
    let selected = monitor("selected");
    let replacement = monitor("replacement");
    let mut settings = AppSettings {
        shared_monitor: Some(SelectedMonitor::from(&selected)),
        ..AppSettings::default()
    };
    let detected = [selected.clone(), replacement.clone()];

    assert_eq!(
        reconcile_monitor_selection(
            &mut settings,
            &detected,
            std::slice::from_ref(&replacement),
        ),
        None
    );
    assert_eq!(
        settings.shared_monitor,
        Some(SelectedMonitor::from(&selected))
    );
}

#[test]
fn new_name_of_the_selected_monitor_is_taken_over_once() {
    let before = monitor("selected");
    let mut renamed = before.clone();
    renamed.name = "renamed".to_owned();
    let mut settings = AppSettings {
        shared_monitor: Some(SelectedMonitor::from(&before)),
        ..AppSettings::default()
    };
    let monitors = [renamed.clone()];
    assert_eq!(
        reconcile_monitor_selection(&mut settings, &monitors, &monitors),
        Some(MonitorSelectionChange::RefreshedMetadata)
    );
    assert_eq!(
        settings.shared_monitor,
        Some(SelectedMonitor::from(&renamed))
    );
    assert_eq!(
        reconcile_monitor_selection(&mut settings, &monitors, &monitors),
        None
    );
}

#[test]
fn monitor_without_a_serial_number_is_replaced_at_every_look() {
    let mut plain = monitor("plain");
    plain.fingerprint.serial_number = None;
    let monitors = [plain.clone()];
    let mut settings = AppSettings::default();
    assert_eq!(
        reconcile_monitor_selection(&mut settings, &monitors, &monitors),
        Some(MonitorSelectionChange::SelectedOnlyMonitor {
            name: "plain".to_owned()
        })
    );
    assert_eq!(
        reconcile_monitor_selection(&mut settings, &monitors, &monitors),
        Some(MonitorSelectionChange::ReplacedMissingMonitor {
            previous: "plain".to_owned(),
            replacement: "plain".to_owned(),
        })
    );
}

#[test]
fn built_in_displays_are_never_selected_automatically() {
    let mut internal = monitor("internal");
    internal.built_in = true;
    let mut settings = AppSettings::default();
    let monitors = [internal];
    assert_eq!(
        reconcile_monitor_selection(&mut settings, &monitors, &monitors),
        None
    );
    assert!(settings.shared_monitor.is_none());
}

#[test]
fn unreadable_display_forgets_what_was_recorded() {
    let external = monitor("external");
    let controller = Scripted {
        read: Err(DisplayMuxError::Backend("asleep".to_owned())),
        supported: Ok(vec![input(0x11)]),
        calls: RefCell::new(vec![]),
    };
    let mut settings = AppSettings {
        local_input: Some(input(0x0f)),
        supported_inputs: Some(vec![input(0x0f)]),
        ..AppSettings::default()
    };
    assert_eq!(
        refresh_selected_input_data(&controller, &external, &mut settings),
        Err(DisplayMuxError::Backend("asleep".to_owned()))
    );
    assert_eq!(settings, AppSettings::default());
    assert_eq!(*controller.calls.borrow(), vec!["read external".to_owned()]);
}

#[test]
fn display_that_names_no_inputs_leaves_the_common_list() {
    for supported in [Ok(vec![]), Err(DisplayMuxError::Backend("none".to_owned()))] {
        let controller = Scripted {
            read: Ok(input(0x12)),
            supported,
            calls: RefCell::new(vec![]),
        };
        let mut settings = AppSettings::default();
        refresh_selected_input_data(&controller, &monitor("a"), &mut settings).unwrap();
        assert_eq!(settings.local_input, Some(input(0x12)));
        assert_eq!(settings.supported_inputs, None);
        assert_eq!(
            *controller.calls.borrow(),
            vec!["read a".to_owned(), "supported a".to_owned()]
        );
    }
}

#[test]
fn choosing_a_display_clears_inputs_only_if_it_is_another_one() {
    let first = monitor("first");
    let second = monitor("second");
    let mut settings = AppSettings {
        peers: vec![peer("a", Some(0x11)), peer("b", Some(0x12))],
        ..AppSettings::default()
    };
    choose_monitor(&mut settings, &first);
    assert!(settings.peers.iter().all(|peer| peer.input.is_none()));
    settings.peers[0].input = Some(input(0x11));
    choose_monitor(&mut settings, &first);
    assert_eq!(settings.peers[0].input, Some(input(0x11)));
    choose_monitor(&mut settings, &second);
    assert_eq!(settings.peers[0].input, None);
    assert_eq!(settings.shared_monitor, Some(SelectedMonitor::from(&second)));
    assert_eq!(settings.peers[1], peer("b", None));
    clear_peer_inputs(&mut settings);
    assert_eq!(settings.peers, vec![peer("a", None), peer("b", None)]);
}

#[test]
fn only_a_controllable_display_can_be_chosen() {
    let external = monitor("external");
    let hidden = monitor("hidden");
    let controller = SelectionController {
        monitors: vec![hidden, external.clone()],
        controllable: HashSet::from(["external".to_owned()]),
    };
    let selected = select_monitor(
        UiLocale::English,
        &controller,
        "external",
        AppSettings::default(),
    )
    .unwrap();
    assert_eq!(
        selected.shared_monitor,
        Some(SelectedMonitor::from(&external))
    );
    assert_eq!(selected.local_input, Some(input(0x0f)));
    assert_eq!(
        select_monitor(UiLocale::English, &controller, "hidden", AppSettings::default()),
        Err("This display was not found. Refresh and select it again.".to_owned())
    );
    assert_eq!(
        select_monitor(
            UiLocale::TraditionalChinese,
            &UnsupportedController,
            "external",
            AppSettings::default()
        ),
        Err("此平台尚未提供螢幕控制功能".to_owned())
    );
}

#[test]
fn first_display_with_the_fingerprint_is_found() {
    let mut second = monitor("a");
    second.id = MonitorId::new("other id");
    let monitors = [monitor("b"), monitor("a"), second];
    assert_eq!(
        find_matching(&monitors, &monitor("a").fingerprint).map(|found| found.id.as_str()),
        Some("a")
    );
    assert!(find_matching(&monitors, &monitor("c").fingerprint).is_none());
}

#[test]
fn automatic_selection_clears_inputs_and_reads_the_display() {
    let external = monitor("external");
    let controller = SelectionController {
        monitors: vec![external.clone()],
        controllable: HashSet::from(["external".to_owned()]),
    };
    let inventory = monitor_inventory(&controller).unwrap();
    let mut settings = AppSettings {
        peers: vec![peer("a", Some(0x11))],
        ..AppSettings::default()
    };
    let change = follow_monitors(Some(&controller), &inventory, &mut settings);
    assert!(change.is_some());
    assert_eq!(settings.peers, vec![peer("a", None)]);
    assert_eq!(settings.local_input, Some(input(0x0f)));
    let state = get_dashboard_state(
        UiLocale::English,
        "linux",
        &settings,
        Ok(inventory),
        &change,
    );
    assert_eq!(state.platform, "linux");
    assert!(state.ddc_available);
    assert!(!state.agent_configured);
    assert_eq!(state.monitor_status, "Shared display locked: external");
    assert_eq!(
        state.selection_notice.as_deref(),
        Some("Automatically selected the only controllable DDC/CI display: external")
    );
    assert_eq!(state.monitors, vec![external]);
}

#[test]
fn unchanged_selection_is_not_read_again() {
    let external = monitor("external");
    let controller = Scripted {
        read: Ok(input(0x11)),
        supported: Ok(vec![]),
        calls: RefCell::new(vec![]),
    };
    let inventory = MonitorInventory {
        detected: vec![external.clone()],
        controllable: vec![external.clone()],
    };
    let mut settings = AppSettings {
        shared_monitor: Some(SelectedMonitor::from(&external)),
        local_input: Some(input(0x0f)),
        ..AppSettings::default()
    };
    let before = settings.clone();
    assert_eq!(
        follow_monitors(Some(&controller), &inventory, &mut settings),
        None
    );
    assert_eq!(settings, before);
    assert!(controller.calls.borrow().is_empty());
}

#[test]
fn refreshed_selection_keeps_inputs_of_paired_hosts() {
    let before = monitor("external");
    let mut renamed = before.clone();
    renamed.name = "new name".to_owned();
    let inventory = MonitorInventory {
        detected: vec![renamed.clone()],
        controllable: vec![renamed.clone()],
    };
    let mut settings = AppSettings {
        shared_monitor: Some(SelectedMonitor::from(&before)),
        peers: vec![peer("a", Some(0x11))],
        local_input: Some(input(0x0f)),
        ..AppSettings::default()
    };
    let controller: Option<&Scripted> = None;
    assert_eq!(
        follow_monitors(controller, &inventory, &mut settings),
        Some(MonitorSelectionChange::RefreshedMetadata)
    );
    assert_eq!(settings.peers, vec![peer("a", Some(0x11))]);
    assert_eq!(settings.local_input, Some(input(0x0f)));
    assert_eq!(
        selection_notice(UiLocale::English, &MonitorSelectionChange::RefreshedMetadata),
        None
    );
}

#[test]
fn each_state_of_the_display_has_its_words() {
    let selected = monitor("selected");
    let other = monitor("other");
    let inventory = |detected: &[&MonitorDescriptor], controllable: &[&MonitorDescriptor]| {
        MonitorInventory {
            detected: detected.iter().map(|monitor| (*monitor).clone()).collect(),
            controllable: controllable
                .iter()
                .map(|monitor| (*monitor).clone())
                .collect(),
        }
    };
    let settings = AppSettings {
        shared_monitor: Some(SelectedMonitor::from(&selected)),
        ..AppSettings::default()
    };
    let none = AppSettings::default();
    let found = inventory(&[&selected], &[&selected]);
    let silent = inventory(&[&selected], &[]);
    let gone = inventory(&[&other], &[&other]);
    let empty = inventory(&[], &[]);
    let zh = UiLocale::TraditionalChinese;
    let en = UiLocale::English;
    assert_eq!(
        monitor_status(zh, &none, &found),
        "尚未選擇共用螢幕；目前不會控制任何螢幕"
    );
    assert_eq!(monitor_status(zh, &settings, &found), "已鎖定共用螢幕：selected");
    assert_eq!(
        monitor_status(zh, &settings, &silent),
        "已偵測到 selected，但目前無法讀取 DDC/CI 輸入"
    );
    assert_eq!(
        monitor_status(en, &settings, &silent),
        "selected was detected, but its DDC/CI input cannot be read"
    );
    assert_eq!(
        monitor_status(en, &settings, &empty),
        "No DDC/CI display is currently available"
    );
    assert_eq!(
        monitor_status(en, &settings, &gone),
        "Previously selected shared display was not found: selected"
    );
    let state = get_dashboard_state(
        en,
        "windows",
        &AppSettings {
            shared_key: "12345678".to_owned(),
            ..settings
        },
        Err(DisplayMuxError::UnsupportedPlatform),
        &None,
    );
    assert!(state.agent_configured);
    assert!(!state.ddc_available);
    assert!(state.monitors.is_empty());
    assert_eq!(state.selection_notice, None);
    assert_eq!(
        state.monitor_status,
        "Display control is not available on this platform"
    );
    assert_eq!(
        selection_notice(
            en,
            &MonitorSelectionChange::ReplacedMissingMonitor {
                previous: "old".to_owned(),
                replacement: "new".to_owned()
            }
        )
        .as_deref(),
        Some("Previously selected old disappeared; safely selected the only controllable display, new")
    );
}

#[test]
fn unsupported_platform_controls_nothing() {
    let unsupported = Err(DisplayMuxError::UnsupportedPlatform);
    let controller = UnsupportedController;
    assert_eq!(controller.enumerate(), unsupported);
    assert_eq!(
        controller.write_input(&MonitorId::new("a"), input(1)),
        Err(DisplayMuxError::UnsupportedPlatform)
    );
    assert_eq!(
        enumerate_monitor_inventory::<UnsupportedController>(Err(DisplayMuxError::StaleRequest))
            .err(),
        Some(DisplayMuxError::StaleRequest)
    );
    assert_eq!(
        enumerate_monitor_inventory(Ok(UnsupportedController)).err(),
        Some(DisplayMuxError::UnsupportedPlatform)
    );
    assert_eq!(
        run_switch(
            Ok(UnsupportedController),
            monitor("a").fingerprint,
            input(0x11)
        ),
        Err(DisplayMuxError::UnsupportedPlatform)
    );
    assert_eq!(
        run_local_switch(
            Ok(UnsupportedController),
            &AppSettings::default(),
            input(0x11)
        ),
        Err(DisplayMuxError::TargetNotFound)
    );
}

#[test]
fn dashboard_follows_the_displays_that_it_shows() {
    let external = monitor("external");
    let controller = SelectionController {
        monitors: vec![monitor("silent"), external.clone()],
        controllable: HashSet::from(["external".to_owned()]),
    };
    let mut settings = AppSettings {
        peers: vec![peer("a", Some(0x11))],
        ..AppSettings::default()
    };
    let refreshed = refresh_dashboard(UiLocale::English, "macos", Ok(controller), &mut settings);
    assert_eq!(
        refreshed.change,
        Some(MonitorSelectionChange::SelectedOnlyMonitor {
            name: "external".to_owned()
        })
    );
    assert_eq!(refreshed.state.monitors, vec![external.clone()]);
    assert!(refreshed.state.ddc_available);
    assert_eq!(refreshed.state.platform, "macos");
    assert_eq!(
        settings.shared_monitor,
        Some(SelectedMonitor::from(&external))
    );
    assert_eq!(settings.local_input, Some(input(0x0f)));
    assert_eq!(settings.peers, vec![peer("a", None)]);

    let before = settings.clone();
    for controller in [
        Ok(UnsupportedController),
        Err(DisplayMuxError::UnsupportedPlatform),
    ] {
        let refreshed = refresh_dashboard(UiLocale::English, "linux", controller, &mut settings);
        assert_eq!(refreshed.change, None);
        assert_eq!(
            refreshed.state.monitor_status,
            "Display control is not available on this platform"
        );
        assert!(!refreshed.state.ddc_available);
        assert_eq!(settings, before);
    }
}

#[test]
fn display_is_found_before_it_is_adopted() {
    let external = monitor("external");
    let controller = SelectionController {
        monitors: vec![external.clone()],
        controllable: HashSet::from(["external".to_owned()]),
    };
    assert_eq!(
        find_controllable(UiLocale::English, &controller, "external"),
        Ok(external.clone())
    );
    assert_eq!(
        find_controllable(UiLocale::TraditionalChinese, &controller, "other"),
        Err("找不到這台螢幕，請重新整理後再選擇".to_owned())
    );
    let silent = Scripted {
        read: Err(DisplayMuxError::Backend("asleep".to_owned())),
        supported: Ok(vec![]),
        calls: RefCell::new(vec![]),
    };
    assert_eq!(
        adopt_monitor(
            UiLocale::English,
            &silent,
            &external,
            AppSettings::default()
        ),
        Err("The display operation could not be completed: asleep".to_owned())
    );
    let adopted = adopt_monitor(
        UiLocale::English,
        &controller,
        &external,
        AppSettings::default(),
    )
    .unwrap();
    assert_eq!(adopted.local_input, Some(input(0x0f)));
}
