use std::cell::RefCell;

use displaymux::agent::{
    answer_request, decide_request, switch_response, AgentDecision, SwitchTask,
};
use displaymux::locale::UiLocale;
use displaymux::network::{AgentAction, AgentResponse};
use displaymux::platform::run_local_switch;
use displaymux::service::resolve_target;
use displaymux::settings::{AppSettings, SelectedMonitor};
use displaymux::{
    DisplayInput, DisplayMuxError, DisplayMuxProfile, DisplayMuxService, MonitorControl,
    MonitorDescriptor, MonitorFingerprint, MonitorId, SwitchMode, SwitchOutcome,
};

/// Displays that remember what was written to them.
struct Recorder<'a> {
    monitors: Vec<MonitorDescriptor>,
    current: Result<DisplayInput, DisplayMuxError>,
    answer: Result<(), DisplayMuxError>,
    written: &'a RefCell<Vec<(String, u32)>>,
}

impl MonitorControl for Recorder<'_> {
    fn enumerate(&self) -> Result<Vec<MonitorDescriptor>, DisplayMuxError> {
        Ok(self.monitors.clone())
    }

    fn read_input(&self, _monitor: &MonitorId) -> Result<DisplayInput, DisplayMuxError> {
        self.current.clone()
    }

    fn supported_inputs(&self, _monitor: &MonitorId) -> Result<Vec<DisplayInput>, DisplayMuxError> {
        unreachable!("a switch does not ask for capabilities")
    }

    fn write_input(&self, monitor: &MonitorId, input: DisplayInput) -> Result<(), DisplayMuxError> {
        self.written
            .borrow_mut()
            .push((monitor.as_str().to_owned(), input.value()));
        self.answer.clone()
    }
}

fn monitor(id: &str, serial: Option<&str>) -> MonitorDescriptor {
    MonitorDescriptor {
        id: MonitorId::new(id),
        name: format!("name of {id}"),
        fingerprint: MonitorFingerprint::new("ACM", "1234", serial.map(str::to_owned)),
        active: true,
        built_in: false,
        max_resolution: None,
        resolution_source: None,
    }
}

fn input(value: u32) -> DisplayInput {
    DisplayInput::new(value).unwrap()
}

fn recorder<'a>(
    monitors: Vec<MonitorDescriptor>,
    written: &'a RefCell<Vec<(String, u32)>>,
) -> Recorder<'a> {
    Recorder {
        monitors,
        current: Ok(input(0x0f)),
        answer: Ok(()),
        written,
    }
}

fn profile(serial: Option<&str>) -> DisplayMuxProfile {
    DisplayMuxProfile {
        shared_monitor: MonitorFingerprint::new("ACM", "1234", serial.map(str::to_owned)),
    }
}

#[test]
fn only_the_matching_display_is_written() {
    let written = RefCell::new(vec![]);
    let monitors = vec![monitor("b", Some("2")), monitor("a", Some("1"))];
    let service = DisplayMuxService::new(recorder(monitors, &written), profile(Some("1")));
    assert_eq!(
        service.switch_to_input(input(0x11), SwitchMode::Apply),
        Ok(SwitchOutcome::Switched {
            target: monitor("a", Some("1")),
            previous: input(0x0f),
            selected: input(0x11),
        })
    );
    assert_eq!(*written.borrow(), vec![("a".to_owned(), 0x11)]);
}

#[test]
fn dry_run_and_selected_input_write_nothing() {
    let written = RefCell::new(vec![]);
    let monitors = vec![monitor("a", Some("1"))];
    let service =
        DisplayMuxService::new(recorder(monitors.clone(), &written), profile(Some("1")));
    assert_eq!(
        service.switch_to_input(input(0x11), SwitchMode::DryRun),
        Ok(SwitchOutcome::DryRun {
            target: monitor("a", Some("1")),
            input: input(0x11),
        })
    );
    let service = DisplayMuxService::new(recorder(monitors, &written), profile(Some("1")));
    assert_eq!(
        service.switch_to_input(input(0x0f), SwitchMode::Apply),
        Ok(SwitchOutcome::AlreadySelected {
            target: monitor("a", Some("1")),
            input: input(0x0f),
        })
    );
    assert!(written.borrow().is_empty());
}

#[test]
fn anything_but_one_match_stops_the_switch() {
    let written = RefCell::new(vec![]);
    let twins = vec![monitor("a", Some("1")), monitor("b", Some("1"))];
    let service = DisplayMuxService::new(recorder(twins, &written), profile(Some("1")));
    assert_eq!(
        service.switch_to_input(input(0x11), SwitchMode::Apply),
        Err(DisplayMuxError::AmbiguousTarget { count: 2 })
    );
    let others = vec![monitor("a", Some("2"))];
    let service = DisplayMuxService::new(recorder(others, &written), profile(Some("1")));
    assert_eq!(
        service.switch_to_input(input(0x11), SwitchMode::Apply),
        Err(DisplayMuxError::TargetNotFound)
    );
    assert!(written.borrow().is_empty());
}

#[test]
fn displays_without_a_serial_number_are_never_written() {
    let written = RefCell::new(vec![]);
    let monitors = vec![monitor("a", None)];
    assert!(!monitors[0].fingerprint.matches_exactly(&monitors[0].fingerprint));
    assert!(monitors[0].fingerprint.same_as(&monitors[0].fingerprint));
    let service = DisplayMuxService::new(recorder(monitors, &written), profile(None));
    assert_eq!(
        service.switch_to_input(input(0x11), SwitchMode::Apply),
        Err(DisplayMuxError::TargetNotFound)
    );
    assert!(written.borrow().is_empty());
    assert_eq!(
        resolve_target(&[], &profile(Some("1")).shared_monitor),
        Err(DisplayMuxError::TargetNotFound)
    );
}

#[test]
fn failures_of_the_display_are_handed_on() {
    let written = RefCell::new(vec![]);
    let mut control = recorder(vec![monitor("a", Some("1"))], &written);
    control.answer = Err(DisplayMuxError::Backend("write".to_owned()));
    let service = DisplayMuxService::new(control, profile(Some("1")));
    assert_eq!(
        service.switch_to_input(input(0x11), SwitchMode::Apply),
        Err(DisplayMuxError::Backend("write".to_owned()))
    );
    let mut control = recorder(vec![monitor("a", Some("1"))], &written);
    control.current = Err(DisplayMuxError::Backend("read".to_owned()));
    let service = DisplayMuxService::new(control, profile(Some("1")));
    assert_eq!(
        service.switch_to_input(input(0x11), SwitchMode::Apply),
        Err(DisplayMuxError::Backend("read".to_owned()))
    );
    assert_eq!(written.borrow().len(), 1);
}

#[test]
fn local_switch_needs_a_selected_display_and_a_controller() {
    let written = RefCell::new(vec![]);
    let settings = AppSettings {
        shared_monitor: Some(SelectedMonitor::from(&monitor("a", Some("1")))),
        ..AppSettings::default()
    };
    assert!(run_local_switch(
        Ok(recorder(vec![monitor("a", Some("1"))], &written)),
        &settings,
        input(0x12)
    )
    .is_ok());
    assert_eq!(*written.borrow(), vec![("a".to_owned(), 0x12)]);
    assert_eq!(
        run_local_switch::<Recorder>(
            Err(DisplayMuxError::Backend("no controller".to_owned())),
            &settings,
            input(0x12)
        ),
        Err(DisplayMuxError::Backend("no controller".to_owned()))
    );
}

#[test]
fn agent_answers_pings_and_switches_only_the_shared_display() {
    let written = RefCell::new(vec![]);
    let shared = SelectedMonitor::from(&monitor("a", Some("1")));
    let displays = || recorder(vec![monitor("a", Some("1")), monitor("b", Some("2"))], &written);
    assert_eq!(
        answer_request(UiLocale::English, Ok(displays()), None, AgentAction::Ping),
        AgentResponse {
            ready: true,
            message: "DisplayMux Agent is ready".to_owned()
        }
    );
    let switch = AgentAction::SwitchInput { input: input(0x11) };
    assert_eq!(
        answer_request(UiLocale::TraditionalChinese, Ok(displays()), None, switch),
        AgentResponse {
            ready: false,
            message: "這台主機尚未選擇共用螢幕".to_owned()
        }
    );
    assert!(written.borrow().is_empty());
    assert_eq!(
        answer_request(UiLocale::English, Ok(displays()), Some(&shared), switch),
        AgentResponse {
            ready: true,
            message: "The remote host switched to HDMI 1".to_owned()
        }
    );
    assert_eq!(*written.borrow(), vec![("a".to_owned(), 0x11)]);
    assert_eq!(
        answer_request::<Recorder>(
            UiLocale::English,
            Err(DisplayMuxError::UnsupportedPlatform),
            Some(&shared),
            switch
        ),
        AgentResponse {
            ready: false,
            message: "Display control is not available on this platform".to_owned()
        }
    );
    assert_eq!(
        decide_request(UiLocale::English, Some(&shared), switch),
        AgentDecision::Switch {
            fingerprint: shared.fingerprint.clone(),
            input: input(0x11)
        }
    );
    assert_eq!(
        switch_response(
            UiLocale::English,
            input(0x11),
            SwitchTask::Lost {
                reason: "cancelled".to_owned()
            }
        ),
        AgentResponse {
            ready: false,
            message: "The switching task could not run: cancelled".to_owned()
        }
    );
}
