//! Answering the requests of other hosts.

use crate::domain::{DisplayInput, MonitorFingerprint, SwitchOutcome};
use crate::error::{error_message, DisplayMuxError};
use crate::locale::{core_user_error, input_name, localized, localized_input_name, ui_text, UiLocale};
use crate::network::{AgentAction, AgentResponse};
use crate::platform::{grants_platform_switch, is_platform_switch, run_switch};
use crate::port::MonitorControl;
use crate::settings::SelectedMonitor;
use crate::text::join2;
use vstd::prelude::*;

verus! {

/// An answer, its text as characters.
pub struct ResponseView {
    pub ready: bool,
    pub message: Seq<char>,
}

impl View for AgentResponse {
    type V = ResponseView;

    open spec fn view(&self) -> ResponseView {
        ResponseView { ready: self.ready, message: self.message@ }
    }
}

/// What to do about a request.
#[derive(Debug, PartialEq, Eq)]
pub enum AgentDecision {
    Answer { response: AgentResponse },
    /// Make the display with the fingerprint show the input, then answer by [`switch_response`].
    Switch { fingerprint: MonitorFingerprint, input: DisplayInput },
}

/// The answer of a host that is there.
pub open spec fn ready_response(locale: UiLocale) -> ResponseView {
    ResponseView {
        ready: true,
        message: localized(locale, "DisplayMux Agent 已就緒"@, "DisplayMux Agent is ready"@),
    }
}

/// The answer of a host on which no display is shared.
pub open spec fn nothing_shared_response(locale: UiLocale) -> ResponseView {
    ResponseView {
        ready: false,
        message: localized(
            locale,
            "這台主機尚未選擇共用螢幕"@,
            "No shared display is selected on this host"@,
        ),
    }
}

/// Decides what to do about a request, given the shared display. A host that asks for a switch
/// names an input but no display: only the display that is shared here can be switched.
pub fn decide_request(
    locale: UiLocale,
    shared_monitor: Option<&SelectedMonitor>,
    action: AgentAction,
) -> (decision: AgentDecision)
    ensures
        match (action, shared_monitor) {
            (AgentAction::Ping, _) => decision matches AgentDecision::Answer { response }
                && response@ == ready_response(locale),
            (AgentAction::SwitchInput { input }, None) => decision matches AgentDecision::Answer {
                response,
            } && response@ == nothing_shared_response(locale),
            (AgentAction::SwitchInput { input }, Some(selected)) => decision == (
            AgentDecision::Switch { fingerprint: selected.fingerprint, input }),
        },
{
    match action {
        AgentAction::Ping => AgentDecision::Answer {
            response: AgentResponse {
                ready: true,
                message: ui_text(
                    locale,
                    "DisplayMux Agent 已就緒",
                    "DisplayMux Agent is ready",
                ).to_owned(),
            },
        },
        AgentAction::SwitchInput { input } => match shared_monitor {
            Some(selected) => AgentDecision::Switch {
                fingerprint: selected.fingerprint.clone(),
                input,
            },
            None => AgentDecision::Answer {
                response: AgentResponse {
                    ready: false,
                    message: ui_text(
                        locale,
                        "這台主機尚未選擇共用螢幕",
                        "No shared display is selected on this host",
                    ).to_owned(),
                },
            },
        },
    }
}

/// How a switch that another host asked for ended.
#[derive(Debug, PartialEq, Eq)]
pub enum SwitchTask {
    Ended { switched: Result<SwitchOutcome, DisplayMuxError> },
    /// The switch could not be run to its end.
    Lost { reason: String },
}

/// The answer to a request to switch.
pub open spec fn switched_response(
    locale: UiLocale,
    input: DisplayInput,
    task: SwitchTask,
) -> ResponseView {
    match task {
        SwitchTask::Ended { switched: Ok(_) } => ResponseView {
            ready: true,
            message: localized(locale, "遠端主機已切換至 "@, "The remote host switched to "@)
                + input_name(locale, input.code),
        },
        SwitchTask::Ended { switched: Err(error) } => ResponseView {
            ready: false,
            message: error_message(error@, locale == UiLocale::TraditionalChinese),
        },
        SwitchTask::Lost { reason } => ResponseView {
            ready: false,
            message: localized(
                locale,
                "切換工作無法執行："@,
                "The switching task could not run: "@,
            ) + reason@,
        },
    }
}

/// Answers a request to switch.
pub fn switch_response(locale: UiLocale, input: DisplayInput, task: SwitchTask) -> (response:
    AgentResponse)
    ensures
        response@ == switched_response(locale, input, task),
{
    match task {
        SwitchTask::Ended { switched: Ok(_) } => {
            let name = localized_input_name(locale, input);
            AgentResponse {
                ready: true,
                message: join2(
                    ui_text(locale, "遠端主機已切換至 ", "The remote host switched to "),
                    name.as_str(),
                ),
            }
        },
        SwitchTask::Ended { switched: Err(error) } => AgentResponse {
            ready: false,
            message: core_user_error(locale, &error),
        },
        SwitchTask::Lost { reason } => AgentResponse {
            ready: false,
            message: join2(
                ui_text(
                    locale,
                    "切換工作無法執行：",
                    "The switching task could not run: ",
                ),
                reason.as_str(),
            ),
        },
    }
}

/// What answering a request may give.
pub open spec fn is_answer<C: MonitorControl>(
    locale: UiLocale,
    controller: Result<C, DisplayMuxError>,
    shared_monitor: Option<&SelectedMonitor>,
    action: AgentAction,
    response: ResponseView,
) -> bool {
    match (action, shared_monitor) {
        (AgentAction::Ping, _) => response == ready_response(locale),
        (AgentAction::SwitchInput { input }, None) => response == nothing_shared_response(locale),
        (AgentAction::SwitchInput { input }, Some(selected)) => exists|
            switched: Result<SwitchOutcome, DisplayMuxError>,
        |
            #[trigger] is_platform_switch(controller, selected.fingerprint@, input, switched)
                && response == switched_response(locale, input, SwitchTask::Ended { switched }),
    }
}

/// Leave to write what a request may write: for a request to switch, the display that is shared.
pub open spec fn grants_request<C: MonitorControl>(
    controller: Result<C, DisplayMuxError>,
    shared_monitor: Option<&SelectedMonitor>,
    action: AgentAction,
) -> bool {
    match (action, shared_monitor) {
        (AgentAction::SwitchInput { input }, Some(selected)) => grants_platform_switch(
            controller,
            selected.fingerprint@,
            input,
        ),
        _ => true,
    }
}

/// Carries out a request and answers it.
pub fn answer_request<C: MonitorControl>(
    locale: UiLocale,
    controller: Result<C, DisplayMuxError>,
    shared_monitor: Option<&SelectedMonitor>,
    action: AgentAction,
) -> (response: AgentResponse)
    requires
        grants_request(controller, shared_monitor, action),
    ensures
        is_answer(locale, controller, shared_monitor, action, response@),
{
    match decide_request(locale, shared_monitor, action) {
        AgentDecision::Answer { response } => response,
        AgentDecision::Switch { fingerprint, input } => {
            let switched = run_switch(controller, fingerprint, input);
            switch_response(locale, input, SwitchTask::Ended { switched })
        },
    }
}

/// A host answers that it is not ready exactly where it did not do what it was asked.
pub proof fn refusal_means_nothing_done(locale: UiLocale, input: DisplayInput, task: SwitchTask)
    ensures
        switched_response(locale, input, task).ready == (task matches SwitchTask::Ended {
            switched: Ok(_),
        }),
{
}

} // verus!
