use displaymux::locale::UiLocale;
use displaymux::network::AgentAction;
use displaymux::preparation::{
    advance_preparation, limit_wait, start_preparation, NetworkPreparation, PreparationEvent,
    PreparationPhase, SwitchProgress,
};
use displaymux::settings::{AppSettings, HostRoute};
use displaymux::switching::{
    after_local_switch, after_remote_switch, first_step, outcome_result, plan_switch, probe_result,
    remote_action, saved_result, wake_result, AfterLocalSwitch, FirstStep, SwitchPlan,
};
use displaymux::{
    DestinationHost, DisplayInput, DisplayMuxError, MonitorDescriptor, MonitorFingerprint,
    MonitorId, SwitchOutcome,
};

fn monitor(id: &str) -> MonitorDescriptor {
    MonitorDescriptor {
        id: MonitorId::new(id),
        name: id.to_owned(),
        fingerprint: MonitorFingerprint::new("ACM", id, Some(format!("serial-{id}"))),
        active: true,
        built_in: false,
        max_resolution: None,
        resolution_source: None,
    }
}

fn input(value: u32) -> DisplayInput {
    DisplayInput::new(value).unwrap()
}

fn peer(id: &str, value: Option<u32>) -> HostRoute {
    HostRoute {
        id: id.to_owned(),
        name: format!("{id} computer"),
        platform: DestinationHost::Mac,
        address: "192.168.1.20".to_owned(),
        port: 47653,
        mac_address: String::new(),
        input: value.map(input),
    }
}

fn settings(peers: Vec<HostRoute>) -> AppSettings {
    AppSettings {
        peers,
        shared_key: "12345678".to_owned(),
        wait_seconds: 6,
        ..AppSettings::default()
    }
}

/// Runs a preparation to its end, with the replies in turn, and tells how many were used.
fn prepare(
    settings: &AppSettings,
    wake: Result<(), String>,
    replies: &[bool],
) -> (NetworkPreparation, usize, Vec<SwitchProgress>) {
    let peer = peer("mac", None);
    let (mut phase, first) = start_preparation(&peer);
    let mut progress = vec![first];
    let mut used = 0;
    let mut wake = Some(wake);
    loop {
        let event = match &phase {
            PreparationPhase::Waking => PreparationEvent::Wake {
                sent: wake.take().unwrap(),
            },
            PreparationPhase::Finished { preparation } => {
                return (preparation.clone(), used, progress)
            }
            _ => {
                used += 1;
                PreparationEvent::Reply {
                    ready: replies[used - 1],
                }
            }
        };
        let (next, told) = advance_preparation(UiLocale::English, settings, &peer, phase, event);
        phase = next;
        progress.extend(told);
    }
}

#[test]
fn automatic_switch_tracks_wake_and_network_fallback_state() {
    assert!(!NetworkPreparation::NotRequired.peer_woken());
    assert!(!NetworkPreparation::Ready { wake_sent: true }.warning());
    assert!(NetworkPreparation::Ready { wake_sent: true }.peer_woken());
    assert!(NetworkPreparation::Unavailable {
        wake_sent: false,
        reason: "offline".to_owned(),
    }
    .warning());
}

#[test]
fn automatic_offline_fallback_explains_the_black_screen_risk() {
    let target = monitor("external");
    let input = DisplayInput::new(0x11).unwrap();
    let preparation = NetworkPreparation::Unavailable {
        wake_sent: true,
        reason: "Agent 沒有回應".to_owned(),
    };
    let result = outcome_result(
        UiLocale::English,
        SwitchOutcome::AlreadySelected { target, input },
        &preparation,
    );

    assert!(result.warning);
    assert!(result.peer_woken);
    assert!(result
        .detail
        .contains("local DDC/CI was selected automatically"));
    assert!(result.detail.contains("temporarily blank"));
}

#[test]
fn outcomes_are_told_in_both_languages() {
    let switched = || SwitchOutcome::Switched {
        target: monitor("Studio"),
        previous: input(0x0f),
        selected: input(0x11),
    };
    let ready = NetworkPreparation::Ready { wake_sent: false };
    let english = outcome_result(UiLocale::English, switched(), &ready);
    assert_eq!(english.title, "Shared display switched");
    assert_eq!(english.detail, "Studio switched from DP 1 to HDMI 1.");
    assert!(!english.warning);
    assert!(!english.peer_woken);
    let unconfirmed = NetworkPreparation::Unavailable {
        wake_sent: false,
        reason: "沒有回應".to_owned(),
    };
    let chinese = outcome_result(UiLocale::TraditionalChinese, switched(), &unconfirmed);
    assert_eq!(chinese.title, "共用螢幕已切換");
    assert_eq!(
        chinese.detail,
        "Studio 已由 DP 1 切換至 HDMI 1。 無法送出喚醒訊號，且無法透過區域網路確認目標主機（沒有回應）；已自動改用本機 DDC/CI。若目標主機尚未就緒，螢幕可能暫時黑畫面。"
    );
    assert!(chinese.warning);
    let checked = outcome_result(
        UiLocale::English,
        SwitchOutcome::DryRun {
            target: monitor("Studio"),
            input: input(0x11),
        },
        &NetworkPreparation::NotRequired,
    );
    assert_eq!(checked.title, "Check complete");
    assert_eq!(checked.detail, "The display input was not changed.");
    let already = outcome_result(
        UiLocale::English,
        SwitchOutcome::AlreadySelected {
            target: monitor("Studio"),
            input: input(0x11),
        },
        &NetworkPreparation::NotRequired,
    );
    assert_eq!(already.title, "Already on the assigned input");
    assert_eq!(already.detail, "Studio is already using HDMI 1.");
}

#[test]
fn waiting_time_is_kept_between_five_seconds_and_two_minutes() {
    assert_eq!(limit_wait(0), 5);
    assert_eq!(limit_wait(4), 5);
    assert_eq!(limit_wait(45), 45);
    assert_eq!(limit_wait(120), 120);
    assert_eq!(limit_wait(u64::MAX), 120);
}

#[test]
fn host_that_answers_at_once_is_ready_and_not_woken() {
    for wake in [Ok(()), Err("no address".to_owned())] {
        let (preparation, used, progress) = prepare(&settings(vec![]), wake, &[true]);
        assert_eq!(preparation, NetworkPreparation::Ready { wake_sent: false });
        assert_eq!(used, 1);
        assert_eq!(
            progress,
            vec![SwitchProgress::Checking {
                peer_name: "mac computer".to_owned()
            }]
        );
    }
}

#[test]
fn host_that_was_not_woken_is_not_waited_for() {
    let (preparation, used, _) =
        prepare(&settings(vec![]), Err("no address".to_owned()), &[false]);
    assert_eq!(
        preparation,
        NetworkPreparation::Unavailable {
            wake_sent: false,
            reason: "no address, and the Agent is not responding".to_owned()
        }
    );
    assert_eq!(used, 1);
}

#[test]
fn woken_host_is_asked_until_the_time_is_up() {
    let settings = settings(vec![]);
    let (preparation, used, progress) = prepare(&settings, Ok(()), &[false; 7]);
    assert_eq!(
        preparation,
        NetworkPreparation::Unavailable {
            wake_sent: true,
            reason: "mac computer did not respond within 6 seconds after the wake signal".to_owned()
        }
    );
    assert_eq!(used, 7);
    assert_eq!(
        progress,
        vec![
            SwitchProgress::Checking {
                peer_name: "mac computer".to_owned()
            },
            SwitchProgress::Waking {
                peer_name: "mac computer".to_owned()
            },
            SwitchProgress::Waiting {
                peer_name: "mac computer".to_owned(),
                seconds: 6
            },
        ]
    );
    let late = [false, false, false, false, false, false, true];
    let (preparation, used, _) = prepare(&settings, Ok(()), &late);
    assert_eq!(preparation, NetworkPreparation::Ready { wake_sent: true });
    assert_eq!(used, 7);
}

#[test]
fn host_cannot_be_confirmed_without_a_password() {
    let settings = AppSettings {
        shared_key: "1234567".to_owned(),
        ..settings(vec![])
    };
    let (preparation, _, progress) = prepare(&settings, Ok(()), &[true]);
    assert_eq!(
        preparation,
        NetworkPreparation::Unavailable {
            wake_sent: true,
            reason:
                "The network Agent does not have a pairing password of at least 8 characters"
                    .to_owned()
        }
    );
    assert_eq!(progress.len(), 2);
    let (preparation, _, _) = prepare(&settings, Err("no address".to_owned()), &[false]);
    assert!(!preparation.peer_woken());
    assert!(preparation.warning());
}

#[test]
fn event_of_another_phase_changes_nothing() {
    let settings = settings(vec![]);
    let route = peer("mac", None);
    let (next, told) = advance_preparation(
        UiLocale::English,
        &settings,
        &route,
        PreparationPhase::Waking,
        PreparationEvent::Reply { ready: true },
    );
    assert_eq!(next, PreparationPhase::Waking);
    assert_eq!(told, None);
    let finished = || PreparationPhase::Finished {
        preparation: NetworkPreparation::NotRequired,
    };
    let (next, told) = advance_preparation(
        UiLocale::English,
        &settings,
        &route,
        finished(),
        PreparationEvent::Wake { sent: Ok(()) },
    );
    assert_eq!(next, finished());
    assert_eq!(told, None);
}

#[test]
fn switch_goes_to_the_input_of_the_host() {
    let settings = AppSettings {
        local_input: Some(input(0x0f)),
        ..settings(vec![peer("a", None), peer("b", Some(0x12))])
    };
    assert_eq!(
        plan_switch(UiLocale::English, &settings, "local"),
        Ok(SwitchPlan {
            peer: None,
            input: input(0x0f)
        })
    );
    assert_eq!(
        plan_switch(UiLocale::English, &settings, "b"),
        Ok(SwitchPlan {
            peer: Some(1),
            input: input(0x12)
        })
    );
    assert_eq!(
        plan_switch(UiLocale::English, &settings, "a"),
        Err("The display input for this host is not configured".to_owned())
    );
    assert_eq!(
        plan_switch(UiLocale::TraditionalChinese, &settings, "c"),
        Err("找不到這台已配對主機，請重新搜尋並加入".to_owned())
    );
    assert_eq!(
        plan_switch(UiLocale::English, &AppSettings::default(), "local"),
        Err("The display input for this host is not configured".to_owned())
    );
}

fn failed() -> Result<SwitchOutcome, DisplayMuxError> {
    Err(DisplayMuxError::TargetNotFound)
}

#[test]
fn paired_host_is_asked_only_where_this_host_failed() {
    let pair = settings(vec![peer("a", None), peer("b", Some(0x12))]);
    let none = NetworkPreparation::NotRequired;
    let text = "The configured shared display was not found; no display was changed".to_owned();
    assert_eq!(
        after_local_switch(UiLocale::English, &pair, "b", &none, failed()),
        AfterLocalSwitch::AskPeer {
            executor: 1,
            progress: SwitchProgress::RemoteFallback {
                peer_name: "b computer".to_owned()
            },
            local_error: text.clone(),
        }
    );
    let stopped = AfterLocalSwitch::Finished {
        result: Err(format!(
            "Local switching failed and no other paired host can perform it: {text}"
        )),
    };
    assert_eq!(
        after_local_switch(UiLocale::English, &pair, "local", &none, failed()),
        stopped
    );
    assert_eq!(
        after_local_switch(UiLocale::English, &pair, "unknown", &none, failed()),
        stopped
    );
    let single = settings(vec![peer("a", None)]);
    assert!(matches!(
        after_local_switch(UiLocale::English, &single, "local", &none, failed()),
        AfterLocalSwitch::AskPeer { executor: 0, .. }
    ));
    let done = after_local_switch(
        UiLocale::English,
        &pair,
        "b",
        &NetworkPreparation::Ready { wake_sent: true },
        Ok(SwitchOutcome::AlreadySelected {
            target: monitor("m"),
            input: input(0x11),
        }),
    );
    match done {
        AfterLocalSwitch::Finished { result: Ok(result) } => assert!(result.peer_woken),
        other => panic!("unexpected: {other:?}"),
    }
}

#[test]
fn switch_by_a_paired_host_is_told() {
    let plan = SwitchPlan {
        peer: Some(0),
        input: input(0x11),
    };
    assert_eq!(
        remote_action(&plan),
        AgentAction::SwitchInput { input: input(0x11) }
    );
    let route = peer("mac", None);
    let woken = NetworkPreparation::Unavailable {
        wake_sent: true,
        reason: "late".to_owned(),
    };
    let result =
        after_remote_switch(UiLocale::English, &route, input(0x11), &woken, "x", Ok(())).unwrap();
    assert_eq!(result.title, "Switch performed by mac computer");
    assert_eq!(result.detail, "The remote host switched to HDMI 1.");
    assert!(result.peer_woken);
    assert!(!result.warning);
    assert_eq!(
        after_remote_switch(
            UiLocale::TraditionalChinese,
            &route,
            input(0x11),
            &woken,
            "甲",
            Err("乙".to_owned())
        ),
        Err("本機與 mac computer 都無法切換。本機：甲；遠端：乙".to_owned())
    );
    assert_eq!(
        after_remote_switch(
            UiLocale::English,
            &route,
            input(0x11),
            &woken,
            "a",
            Err("b".to_owned())
        ),
        Err("Neither this computer nor mac computer could switch. Local: a; remote: b".to_owned())
    );
}

#[test]
fn other_operations_have_their_words() {
    let route = peer("mac", None);
    let probed = probe_result(UiLocale::English, &route);
    assert_eq!(probed.title, "mac computer connected");
    assert!(!probed.peer_woken);
    let woken = wake_result(UiLocale::English, &route);
    assert_eq!(woken.title, "Wake signal sent to mac computer");
    assert!(woken.peer_woken);
    let saved = saved_result(UiLocale::TraditionalChinese);
    assert_eq!(saved.title, "設定已儲存");
    assert!(!saved.warning);
}

#[test]
fn switch_to_this_host_needs_no_network() {
    assert_eq!(
        first_step(&SwitchPlan {
            peer: None,
            input: input(0x0f)
        }),
        FirstStep::Switch {
            preparation: NetworkPreparation::NotRequired
        }
    );
    assert_eq!(
        first_step(&SwitchPlan {
            peer: Some(2),
            input: input(0x0f)
        }),
        FirstStep::Prepare { peer: 2 }
    );
}
