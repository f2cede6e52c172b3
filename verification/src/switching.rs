//! Switching the shared display to a host, and what the user is told of it.

use crate::domain::{DisplayInput, SwitchOutcome};
use crate::error::{error_message, DisplayMuxError};
use crate::locale::{core_user_error, input_name, localized, localized_input_name, ui_text, UiLocale};
use crate::network::AgentAction;
use crate::preparation::{NetworkPreparation, PreparationView, ProgressView, SwitchProgress};
use crate::settings::{
    peer_position, route_position, route_position_is_first, route_views, unknown_peer, AppSettings,
    HostRoute,
};
use crate::text::{join2, join3, same_text};
use vstd::prelude::*;

verus! {

/// How an operation ended, for the user.
#[derive(Clone, Debug, PartialEq, Eq)]
pub struct OperationResult {
    pub title: String,
    pub detail: String,
    pub peer_woken: bool,
    pub warning: bool,
}

/// The result of an operation, its texts as characters.
pub struct OperationView {
    pub title: Seq<char>,
    pub detail: Seq<char>,
    pub peer_woken: bool,
    pub warning: bool,
}

impl View for OperationResult {
    type V = OperationView;

    open spec fn view(&self) -> OperationView {
        OperationView {
            title: self.title@,
            detail: self.detail@,
            peer_woken: self.peer_woken,
            warning: self.warning,
        }
    }
}

// ---------------------------------------------------------------------------
// Where to switch

/// A switch that can be made: the position of the paired host among the routes, or `None` for
/// this host, and the input that the host is connected to.
#[derive(Clone, Copy, Debug, PartialEq, Eq)]
pub struct SwitchPlan {
    pub peer: Option<usize>,
    pub input: DisplayInput,
}

/// What is said of a host whose input is not known.
pub open spec fn no_input(locale: UiLocale) -> Seq<char> {
    localized(
        locale,
        "尚未設定這台主機使用的螢幕輸入"@,
        "The display input for this host is not configured"@,
    )
}

/// The paired host that is meant by an id, as a position; `None` for this host.
pub open spec fn target_position(settings: AppSettings, target_id: Seq<char>) -> Option<nat> {
    if target_id == "local"@ {
        None
    } else {
        route_position(route_views(settings.peers@), target_id)
    }
}

/// The input of the host that is meant by an id, or what is said where there is none.
pub open spec fn target_input(locale: UiLocale, settings: AppSettings, target_id: Seq<char>) -> Result<
    DisplayInput,
    Seq<char>,
> {
    let input = if target_id == "local"@ {
        Ok(settings.local_input)
    } else {
        match target_position(settings, target_id) {
            Some(position) => Ok(settings.peers@[position as int].input),
            None => Err(unknown_peer(locale)),
        }
    };
    match input {
        Ok(Some(input)) => Ok(input),
        Ok(None) => Err(no_input(locale)),
        Err(text) => Err(text),
    }
}

/// Works out the switch to the host with a given id; `local` is this host.
pub fn plan_switch(locale: UiLocale, settings: &AppSettings, target_id: &str) -> (plan: Result<
    SwitchPlan,
    String,
>)
    ensures
        match plan {
            Ok(plan) => {
                &&& target_input(locale, *settings, target_id@) == Ok::<_, Seq<char>>(plan.input)
                &&& match plan.peer {
                    Some(position) => {
                        &&& position < settings.peers@.len()
                        &&& target_position(*settings, target_id@) == Some(position as nat)
                    },
                    None => target_id@ == "local"@,
                }
            },
            Err(text) => target_input(locale, *settings, target_id@) == Err::<DisplayInput, _>(
                text@,
            ),
        },
{
    let peer = if same_text(target_id, "local") {
        None
    } else {
        match peer_position(&settings.peers, target_id) {
            Some(position) => Some(position),
            None => {
                return Err(
                    ui_text(
                        locale,
                        "找不到這台已配對主機，請重新搜尋並加入",
                        "This paired host was not found. Search for it and add it again.",
                    ).to_owned(),
                );
            },
        }
    };
    let input = match peer {
        Some(position) => settings.peers[position].input,
        None => settings.local_input,
    };
    match input {
        Some(input) => Ok(SwitchPlan { peer, input }),
        None => Err(
            ui_text(
                locale,
                "尚未設定這台主機使用的螢幕輸入",
                "The display input for this host is not configured",
            ).to_owned(),
        ),
    }
}

/// What a planned switch begins with.
#[derive(Debug, PartialEq, Eq)]
pub enum FirstStep {
    /// The paired host at a position among the routes has to be prepared.
    Prepare { peer: usize },
    /// The display can be switched at once.
    Switch { preparation: NetworkPreparation },
}

/// Tells what a planned switch begins with. A switch to this host needs no network: nothing is
/// prepared for it.
pub fn first_step(plan: &SwitchPlan) -> (step: FirstStep)
    ensures
        step == match plan.peer {
            Some(peer) => FirstStep::Prepare { peer },
            None => FirstStep::Switch { preparation: NetworkPreparation::NotRequired },
        },
{
    match plan.peer {
        Some(peer) => FirstStep::Prepare { peer },
        None => FirstStep::Switch { preparation: NetworkPreparation::NotRequired },
    }
}

// ---------------------------------------------------------------------------
// After the switch on this host

/// What is said of a switch that this host made.
pub open spec fn outcome_title(locale: UiLocale, outcome: SwitchOutcome) -> Seq<char> {
    match outcome {
        SwitchOutcome::DryRun { .. } => localized(locale, "檢查完成"@, "Check complete"@),
        SwitchOutcome::AlreadySelected { .. } => localized(
            locale,
            "已在指定輸入"@,
            "Already on the assigned input"@,
        ),
        SwitchOutcome::Switched { .. } => localized(
            locale,
            "共用螢幕已切換"@,
            "Shared display switched"@,
        ),
    }
}

/// What a switch that this host made did to the display.
pub open spec fn outcome_detail(locale: UiLocale, outcome: SwitchOutcome) -> Seq<char> {
    match outcome {
        SwitchOutcome::DryRun { .. } => localized(
            locale,
            "未變更螢幕輸入。"@,
            "The display input was not changed."@,
        ),
        SwitchOutcome::AlreadySelected { target, input } => localized(
            locale,
            target.name@ + " 已使用 "@ + input_name(locale, input.code) + "。"@,
            target.name@ + " is already using "@ + input_name(locale, input.code) + "."@,
        ),
        SwitchOutcome::Switched { target, previous, selected } => localized(
            locale,
            target.name@ + " 已由 "@ + input_name(locale, previous.code) + " 切換至 "@ + input_name(
                locale,
                selected.code,
            ) + "。"@,
            target.name@ + " switched from "@ + input_name(locale, previous.code) + " to "@
                + input_name(locale, selected.code) + "."@,
        ),
    }
}

/// That this host switched by itself, and that the display may stay blank for a while.
pub open spec fn risk_text(locale: UiLocale) -> Seq<char> {
    localized(
        locale,
        "）；已自動改用本機 DDC/CI。若目標主機尚未就緒，螢幕可能暫時黑畫面。"@,
        "); local DDC/CI was selected automatically. The display may be temporarily blank if the target host is not ready."@,
    )
}

/// What is added where the host to switch to could not be confirmed to be ready.
pub open spec fn blank_risk(locale: UiLocale, preparation: PreparationView) -> Seq<char> {
    match preparation {
        PreparationView::Unavailable { wake_sent, reason } => {
            let wake = if wake_sent {
                localized(locale, "已先送出喚醒訊號，但"@, "A wake signal was sent, but "@)
            } else {
                localized(
                    locale,
                    "無法送出喚醒訊號，且"@,
                    "A wake signal could not be sent, and "@,
                )
            };
            " "@ + wake + localized(
                locale,
                "無法透過區域網路確認目標主機（"@,
                "the target host could not be confirmed over the local network ("@,
            ) + reason + risk_text(locale)
        },
        _ => Seq::empty(),
    }
}

/// The result of a switch that this host made.
pub open spec fn outcome_view(
    locale: UiLocale,
    outcome: SwitchOutcome,
    preparation: PreparationView,
) -> OperationView {
    OperationView {
        title: outcome_title(locale, outcome),
        detail: outcome_detail(locale, outcome) + blank_risk(locale, preparation),
        peer_woken: preparation.peer_woken(),
        warning: preparation.warning(),
    }
}

fn describe_outcome(locale: UiLocale, outcome: &SwitchOutcome) -> (detail: String)
    ensures
        detail@ == outcome_detail(locale, *outcome),
{
    match outcome {
        SwitchOutcome::DryRun { .. } => ui_text(
            locale,
            "未變更螢幕輸入。",
            "The display input was not changed.",
        ).to_owned(),
        SwitchOutcome::AlreadySelected { target, input } => {
            let name = localized_input_name(locale, *input);
            let head = join3(
                target.name.as_str(),
                ui_text(locale, " 已使用 ", " is already using "),
                name.as_str(),
            );
            join2(head.as_str(), ui_text(locale, "。", "."))
        },
        SwitchOutcome::Switched { target, previous, selected } => {
            let from = localized_input_name(locale, *previous);
            let to = localized_input_name(locale, *selected);
            let head = join3(
                target.name.as_str(),
                ui_text(locale, " 已由 ", " switched from "),
                from.as_str(),
            );
            let middle = join3(
                head.as_str(),
                ui_text(locale, " 切換至 ", " to "),
                to.as_str(),
            );
            join2(middle.as_str(), ui_text(locale, "。", "."))
        },
    }
}

fn describe_risk(locale: UiLocale, preparation: &NetworkPreparation) -> (text: String)
    ensures
        text@ == blank_risk(locale, preparation@),
{
    match preparation {
        NetworkPreparation::Unavailable { wake_sent, reason } => {
            let wake = if *wake_sent {
                ui_text(locale, "已先送出喚醒訊號，但", "A wake signal was sent, but ")
            } else {
                ui_text(
                    locale,
                    "無法送出喚醒訊號，且",
                    "A wake signal could not be sent, and ",
                )
            };
            let head = join3(
                " ",
                wake,
                ui_text(
                    locale,
                    "無法透過區域網路確認目標主機（",
                    "the target host could not be confirmed over the local network (",
                ),
            );
            join3(
                head.as_str(),
                reason.as_str(),
                ui_text(
                    locale,
                    "）；已自動改用本機 DDC/CI。若目標主機尚未就緒，螢幕可能暫時黑畫面。",
                    "); local DDC/CI was selected automatically. The display may be temporarily blank if the target host is not ready.",
                ),
            )
        },
        _ => String::new(),
    }
}

/// Tells the user of a switch that this host made.
pub fn outcome_result(
    locale: UiLocale,
    outcome: SwitchOutcome,
    preparation: &NetworkPreparation,
) -> (result: OperationResult)
    ensures
        result@ == outcome_view(locale, outcome, preparation@),
{
    let title = match &outcome {
        SwitchOutcome::DryRun { .. } => ui_text(locale, "檢查完成", "Check complete"),
        SwitchOutcome::AlreadySelected { .. } => ui_text(
            locale,
            "已在指定輸入",
            "Already on the assigned input",
        ),
        SwitchOutcome::Switched { .. } => ui_text(
            locale,
            "共用螢幕已切換",
            "Shared display switched",
        ),
    };
    let detail = describe_outcome(locale, &outcome);
    let risk = describe_risk(locale, preparation);
    OperationResult {
        title: title.to_owned(),
        detail: join2(detail.as_str(), risk.as_str()),
        peer_woken: preparation.peer_woken(),
        warning: preparation.warning(),
    }
}

// ---------------------------------------------------------------------------
// Where this host cannot switch

/// The paired host that may switch in place of this one: the host to switch to, or, for a switch
/// to this host, the only paired one.
pub open spec fn executor_position(settings: AppSettings, target_id: Seq<char>) -> Option<nat> {
    if target_id == "local"@ {
        if settings.peers@.len() == 1 {
            Some(0)
        } else {
            None
        }
    } else {
        route_position(route_views(settings.peers@), target_id)
    }
}

/// What is said where no other host can switch.
pub open spec fn no_executor(locale: UiLocale, local_error: Seq<char>) -> Seq<char> {
    localized(
        locale,
        "本機無法切換，而且沒有其他已配對主機可代為執行："@,
        "Local switching failed and no other paired host can perform it: "@,
    ) + local_error
}

/// What comes after this host tried to switch.
#[derive(Debug, PartialEq, Eq)]
pub enum AfterLocalSwitch {
    Finished { result: Result<OperationResult, String> },
    /// The paired host at a position among the routes has to be asked for the [`remote_action`] of
    /// the plan. The user is told `progress`; `local_error` is why this host could not switch.
    AskPeer { executor: usize, progress: SwitchProgress, local_error: String },
}

/// Decides what comes after this host tried to switch.
pub fn after_local_switch(
    locale: UiLocale,
    settings: &AppSettings,
    target_id: &str,
    preparation: &NetworkPreparation,
    local: Result<SwitchOutcome, DisplayMuxError>,
) -> (after: AfterLocalSwitch)
    ensures
        match local {
            Ok(outcome) => after matches AfterLocalSwitch::Finished { result: Ok(result) }
                && result@ == outcome_view(locale, outcome, preparation@),
            Err(error) => {
                let local_text = error_message(error@, locale == UiLocale::TraditionalChinese);
                match executor_position(*settings, target_id@) {
                    Some(position) => {
                        &&& after matches AfterLocalSwitch::AskPeer {
                            executor,
                            progress,
                            local_error,
                        }
                        &&& executor == position
                        &&& position < settings.peers@.len()
                        &&& progress@ == (ProgressView::RemoteFallback {
                            peer_name: settings.peers@[position as int].name@,
                        })
                        &&& local_error@ == local_text
                    },
                    None => after matches AfterLocalSwitch::Finished { result: Err(text) } && text@
                        == no_executor(locale, local_text),
                }
            },
        },
{
    let error = match local {
        Ok(outcome) => {
            return AfterLocalSwitch::Finished {
                result: Ok(outcome_result(locale, outcome, preparation)),
            };
        },
        Err(error) => error,
    };
    let local_error = core_user_error(locale, &error);
    let executor: Option<usize> = if same_text(target_id, "local") {
        if settings.peers.len() == 1 {
            Some(0)
        } else {
            None
        }
    } else {
        peer_position(&settings.peers, target_id)
    };
    match executor {
        Some(executor) => AfterLocalSwitch::AskPeer {
            executor,
            progress: SwitchProgress::RemoteFallback {
                peer_name: settings.peers[executor].name.clone(),
            },
            local_error,
        },
        None => AfterLocalSwitch::Finished {
            result: Err(
                join2(
                    ui_text(
                        locale,
                        "本機無法切換，而且沒有其他已配對主機可代為執行：",
                        "Local switching failed and no other paired host can perform it: ",
                    ),
                    local_error.as_str(),
                ),
            ),
        },
    }
}

/// What a paired host is asked where it has to switch in place of this one: the input of the plan.
pub fn remote_action(plan: &SwitchPlan) -> (action: AgentAction)
    ensures
        action == (AgentAction::SwitchInput { input: plan.input }),
{
    AgentAction::SwitchInput { input: plan.input }
}

/// What is said where neither host could switch.
pub open spec fn both_failed(
    locale: UiLocale,
    name: Seq<char>,
    local_error: Seq<char>,
    remote_error: Seq<char>,
) -> Seq<char> {
    localized(
        locale,
        "本機與 "@ + name + " 都無法切換。本機："@ + local_error + "；遠端："@ + remote_error,
        "Neither this computer nor "@ + name + " could switch. Local: "@ + local_error
            + "; remote: "@ + remote_error,
    )
}

/// The result of a switch that a paired host made.
pub open spec fn remote_view(
    locale: UiLocale,
    name: Seq<char>,
    input: DisplayInput,
    preparation: PreparationView,
) -> OperationView {
    OperationView {
        title: localized(
            locale,
            "已由 "@ + name + " 執行切換"@,
            "Switch performed by "@ + name,
        ),
        detail: localized(
            locale,
            "遠端主機已切換至 "@ + input_name(locale, input.code) + "。"@,
            "The remote host switched to "@ + input_name(locale, input.code) + "."@,
        ),
        peer_woken: preparation.peer_woken(),
        warning: false,
    }
}

/// Tells the user how a paired host switched in place of this one. `remote` is what asking it
/// gave.
pub fn after_remote_switch(
    locale: UiLocale,
    executor: &HostRoute,
    input: DisplayInput,
    preparation: &NetworkPreparation,
    local_error: &str,
    remote: Result<(), String>,
) -> (result: Result<OperationResult, String>)
    ensures
        match (result, remote) {
            (Ok(result), Ok(())) => result@ == remote_view(
                locale,
                executor.name@,
                input,
                preparation@,
            ),
            (Err(text), Err(remote_error)) => text@ == both_failed(
                locale,
                executor.name@,
                local_error@,
                remote_error@,
            ),
            _ => false,
        },
{
    let name = executor.name.as_str();
    match remote {
        Ok(()) => {
            let input_name = localized_input_name(locale, input);
            Ok(
                OperationResult {
                    title: match locale {
                        UiLocale::TraditionalChinese => join3("已由 ", name, " 執行切換"),
                        UiLocale::English => join2("Switch performed by ", name),
                    },
                    detail: join3(
                        ui_text(locale, "遠端主機已切換至 ", "The remote host switched to "),
                        input_name.as_str(),
                        ui_text(locale, "。", "."),
                    ),
                    peer_woken: preparation.peer_woken(),
                    warning: false,
                },
            )
        },
        Err(remote_error) => {
            let head = join3(
                ui_text(locale, "本機與 ", "Neither this computer nor "),
                name,
                ui_text(locale, " 都無法切換。本機：", " could switch. Local: "),
            );
            Err(
                join2(
                    join3(head.as_str(), local_error, ui_text(locale, "；遠端：", "; remote: ")).as_str(),
                    remote_error.as_str(),
                ),
            )
        },
    }
}

// ---------------------------------------------------------------------------
// Other operations

/// Tells the user that a paired host answered.
pub fn probe_result(locale: UiLocale, peer: &HostRoute) -> (result: OperationResult)
    ensures
        result@ == (OperationView {
            title: peer.name@ + localized(locale, " 已連線"@, " connected"@),
            detail: localized(
                locale,
                "DisplayMux Agent 已就緒。"@,
                "The DisplayMux Agent is ready."@,
            ),
            peer_woken: false,
            warning: false,
        }),
{
    OperationResult {
        title: join2(peer.name.as_str(), ui_text(locale, " 已連線", " connected")),
        detail: ui_text(
            locale,
            "DisplayMux Agent 已就緒。",
            "The DisplayMux Agent is ready.",
        ).to_owned(),
        peer_woken: false,
        warning: false,
    }
}

/// Tells the user that a wake signal was sent to a paired host.
pub fn wake_result(locale: UiLocale, peer: &HostRoute) -> (result: OperationResult)
    ensures
        result@ == (OperationView {
            title: localized(locale, "已送出喚醒訊號給 "@, "Wake signal sent to "@) + peer.name@,
            detail: localized(
                locale,
                "主機是否能喚醒仍取決於電源與網路設定。"@,
                "Whether the host wakes still depends on its power and network settings."@,
            ),
            peer_woken: true,
            warning: false,
        }),
{
    OperationResult {
        title: join2(
            ui_text(locale, "已送出喚醒訊號給 ", "Wake signal sent to "),
            peer.name.as_str(),
        ),
        detail: ui_text(
            locale,
            "主機是否能喚醒仍取決於電源與網路設定。",
            "Whether the host wakes still depends on its power and network settings.",
        ).to_owned(),
        peer_woken: true,
        warning: false,
    }
}

/// Tells the user that the settings were saved.
pub fn saved_result(locale: UiLocale) -> (result: OperationResult)
    ensures
        result@ == (OperationView {
            title: localized(locale, "設定已儲存"@, "Settings saved"@),
            detail: localized(
                locale,
                "共用螢幕、各主機輸入與配對設定已更新。"@,
                "The shared display, host inputs, and pairing settings were updated."@,
            ),
            peer_woken: false,
            warning: false,
        }),
{
    OperationResult {
        title: ui_text(locale, "設定已儲存", "Settings saved").to_owned(),
        detail: ui_text(
            locale,
            "共用螢幕、各主機輸入與配對設定已更新。",
            "The shared display, host inputs, and pairing settings were updated.",
        ).to_owned(),
        peer_woken: false,
        warning: false,
    }
}

// ---------------------------------------------------------------------------
// Laws

/// A switch is planned only to an input that is assigned to a host in the settings.
pub proof fn planned_input_is_assigned(locale: UiLocale, settings: AppSettings, target_id: Seq<char>)
    requires
        target_input(locale, settings, target_id) is Ok,
    ensures
        ({
            let input = target_input(locale, settings, target_id)->Ok_0;
            ||| settings.local_input == Some(input)
            ||| exists|i: int|
                0 <= i < settings.peers@.len() && (#[trigger] settings.peers@[i]).input == Some(
                    input,
                )
        }),
{
    if target_id != "local"@ {
        route_position_is_first(route_views(settings.peers@), target_id);
        let position = target_position(settings, target_id)->Some_0 as int;
        assert(settings.peers@[position].input is Some);
    }
}

/// A switch to a paired host is handed over, where this host cannot make it, to that host and to
/// no other.
pub proof fn only_the_target_is_asked(settings: AppSettings, target_id: Seq<char>)
    requires
        target_id != "local"@,
    ensures
        executor_position(settings, target_id) == target_position(settings, target_id),
        executor_position(settings, target_id) matches Some(position) ==> position
            < settings.peers@.len() && settings.peers@[position as int].id@ == target_id,
{
    route_position_is_first(route_views(settings.peers@), target_id);
}

/// Every switch to a host that could not be confirmed carries the warning, and its text ends with
/// the reason and with the risk of a blank display; a switch to a ready host carries neither.
pub proof fn unconfirmed_switch_is_explained(
    locale: UiLocale,
    outcome: SwitchOutcome,
    preparation: PreparationView,
)
    ensures
        outcome_view(locale, outcome, preparation).warning == (preparation is Unavailable),
        preparation matches PreparationView::Unavailable { wake_sent, reason } ==> exists|
            before: Seq<char>,
        |
            outcome_view(locale, outcome, preparation).detail == #[trigger] (before + reason
                + risk_text(locale)),
        !(preparation is Unavailable) ==> outcome_view(locale, outcome, preparation).detail
            == outcome_detail(locale, outcome),
{
    if let PreparationView::Unavailable { wake_sent, reason } = preparation {
        let wake = if wake_sent {
            localized(locale, "已先送出喚醒訊號，但"@, "A wake signal was sent, but "@)
        } else {
            localized(
                locale,
                "無法送出喚醒訊號，且"@,
                "A wake signal could not be sent, and "@,
            )
        };
        let before = outcome_detail(locale, outcome) + (" "@ + wake + localized(
            locale,
            "無法透過區域網路確認目標主機（"@,
            "the target host could not be confirmed over the local network ("@,
        ));
        assert(outcome_view(locale, outcome, preparation).detail =~= before + reason + risk_text(
            locale,
        ));
    } else {
        assert(outcome_view(locale, outcome, preparation).detail =~= outcome_detail(
            locale,
            outcome,
        ));
    }
}

} // verus!
