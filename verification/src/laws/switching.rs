//! Laws of switching to a host.

use crate::domain::{DisplayInput, SwitchOutcome};
use crate::error::DisplayMuxError;
use crate::laws::dashboard::{holds, lemma_holds};
use crate::locale::{core_user_error, localized, localized_input_name, UiLocale};
use crate::network::AgentAction;
use crate::preparation::{NetworkPreparation, SwitchProgress};
use crate::settings::{route_position, route_position_is_first, route_views, AppSettings, HostRoute};
use crate::switching::{
    after_local_switch, after_remote_switch, blank_risk, first_step, outcome_detail,
    outcome_result, plan_switch, probe_result, remote_action, risk_text, saved_result,
    unconfirmed_switch_is_explained, wake_result, AfterLocalSwitch, FirstStep, OperationResult,
    SwitchPlan,
};
use crate::text::starts_with;
use vstd::prelude::*;

verus! {

/// Whether the host at `position` is the first paired host with a given id.
pub open spec fn is_first_host(peers: Seq<HostRoute>, id: Seq<char>, position: int) -> bool {
    &&& 0 <= position < peers.len()
    &&& peers[position].id@ == id
    &&& forall|i: int| 0 <= i < position ==> (#[trigger] peers[i]).id@ != id
}

/// Whether no paired host has a given id.
pub open spec fn no_host(peers: Seq<HostRoute>, id: Seq<char>) -> bool {
    forall|i: int| 0 <= i < peers.len() ==> (#[trigger] peers[i]).id@ != id
}

/// The position of the first host with an id.
pub proof fn lemma_first_host(peers: Seq<HostRoute>, id: Seq<char>, position: int)
    requires
        is_first_host(peers, id, position),
    ensures
        route_position(route_views(peers), id) == Some(position as nat),
{
    let views = route_views(peers);
    route_position_is_first(views, id);
    assert(views[position].id == id);
    if let Some(found) = route_position(views, id) {
        if found < position {
            assert(peers[found as int].id@ != id);
            assert(views[found as int] == peers[found as int]@);
        }
    }
}

/// There is no position for an id that no host has.
pub proof fn lemma_no_host(peers: Seq<HostRoute>, id: Seq<char>)
    requires
        no_host(peers, id),
    ensures
        route_position(route_views(peers), id) is None,
{
    let views = route_views(peers);
    route_position_is_first(views, id);
    if let Some(found) = route_position(views, id) {
        assert(views[found as int] == peers[found as int]@);
    }
}

/// A switch to a paired host goes to that host and to the input of that very host. A host without
/// an input is not switched to.
pub proof fn switch_uses_the_input_of_its_host(
    locale: UiLocale,
    settings: AppSettings,
    target_id: &str,
    position: int,
    plan: Result<SwitchPlan, String>,
)
    requires
        call_ensures(plan_switch, (locale, &settings, target_id), plan),
        target_id@ != "local"@,
        is_first_host(settings.peers@, target_id@, position),
    ensures
        match settings.peers@[position].input {
            Some(input) => plan matches Ok(plan) && plan.peer == Some(position as usize)
                && plan.input == input,
            None => plan is Err,
        },
{
    lemma_first_host(settings.peers@, target_id@, position);
}

/// The input of another host has no influence on a switch.
pub proof fn other_hosts_do_not_change_the_plan(
    locale: UiLocale,
    settings: AppSettings,
    changed: AppSettings,
    target_id: &str,
    other: int,
    input: Option<DisplayInput>,
    plan: Result<SwitchPlan, String>,
    changed_plan: Result<SwitchPlan, String>,
)
    requires
        call_ensures(plan_switch, (locale, &settings, target_id), plan),
        call_ensures(plan_switch, (locale, &changed, target_id), changed_plan),
        0 <= other < settings.peers@.len(),
        settings.peers@[other].id@ != target_id@,
        changed.local_input == settings.local_input,
        changed.peers@ == settings.peers@.update(
            other,
            HostRoute { input, ..settings.peers@[other] },
        ),
    ensures
        match (plan, changed_plan) {
            (Ok(a), Ok(b)) => a.peer == b.peer && a.input == b.input,
            (Err(a), Err(b)) => a@ == b@,
            _ => false,
        },
{
    let before = settings.peers@;
    let after = changed.peers@;
    if target_id@ != "local"@ {
        if no_host(before, target_id@) {
            lemma_no_host(before, target_id@);
            assert forall|i: int| 0 <= i < after.len() implies (#[trigger] after[i]).id@
                != target_id@ by {
                assert(before[i].id@ != target_id@);
            }
            lemma_no_host(after, target_id@);
        } else {
            route_position_is_first(route_views(before), target_id@);
            let views = route_views(before);
            let some = choose|i: int| 0 <= i < before.len() && before[i].id@ == target_id@;
            assert(views[some].id == target_id@);
            let position = route_position(views, target_id@)->Some_0 as int;
            assert(views[position] == before[position]@);
            assert forall|i: int| 0 <= i < position implies (#[trigger] after[i]).id@
                != target_id@ by {
                assert(views[i] == before[i]@);
            }
            assert(is_first_host(after, target_id@, position));
            lemma_first_host(after, target_id@, position);
            assert(after[position] == before[position]);
        }
    }
}

/// A switch to this host goes to the input of this host, if it is known, and needs no other host.
pub proof fn switch_to_this_host_uses_its_own_input(
    locale: UiLocale,
    settings: AppSettings,
    target_id: &str,
    plan: Result<SwitchPlan, String>,
)
    requires
        call_ensures(plan_switch, (locale, &settings, target_id), plan),
        target_id@ == "local"@,
    ensures
        match settings.local_input {
            Some(input) => plan matches Ok(plan) && plan.peer is None && plan.input == input,
            None => plan is Err,
        },
{
}

/// There is no switch to a host that is not paired.
pub proof fn unknown_host_is_not_switched_to(
    locale: UiLocale,
    settings: AppSettings,
    target_id: &str,
    plan: Result<SwitchPlan, String>,
)
    requires
        call_ensures(plan_switch, (locale, &settings, target_id), plan),
        target_id@ != "local"@,
        no_host(settings.peers@, target_id@),
    ensures
        plan is Err,
{
    lemma_no_host(settings.peers@, target_id@);
}

/// A switch that this host made is told as such and ends the operation.
pub proof fn local_switch_is_told(
    locale: UiLocale,
    settings: AppSettings,
    target_id: &str,
    preparation: NetworkPreparation,
    outcome: SwitchOutcome,
    after: AfterLocalSwitch,
    told: OperationResult,
)
    requires
        call_ensures(
            after_local_switch,
            (
                locale,
                &settings,
                target_id,
                &preparation,
                Ok::<SwitchOutcome, DisplayMuxError>(outcome),
            ),
            after,
        ),
        call_ensures(outcome_result, (locale, outcome, &preparation), told),
    ensures
        after matches AfterLocalSwitch::Finished { result: Ok(result) } && result.title@
            == told.title@ && result.detail@ == told.detail@ && result.peer_woken
            == told.peer_woken && result.warning == told.warning,
{
}

/// Where this host cannot switch to a paired one, that very host is asked, whichever other hosts
/// are paired, and the user is told its name. The reason is kept.
pub proof fn failed_switch_is_handed_to_the_right_host(
    locale: UiLocale,
    settings: AppSettings,
    target_id: &str,
    preparation: NetworkPreparation,
    failure: DisplayMuxError,
    after: AfterLocalSwitch,
    reason: String,
    position: int,
)
    requires
        call_ensures(
            after_local_switch,
            (locale, &settings, target_id, &preparation, Err::<SwitchOutcome, _>(failure)),
            after,
        ),
        call_ensures(core_user_error, (locale, &failure), reason),
        is_first_host(settings.peers@, target_id@, position),
    ensures
        target_id@ != "local"@ ==> (after matches AfterLocalSwitch::AskPeer {
            executor,
            progress,
            local_error,
        } && executor == position && local_error@ == reason@ && (
        progress matches SwitchProgress::RemoteFallback { peer_name } && peer_name@
            == settings.peers@[position].name@)),
{
    lemma_first_host(settings.peers@, target_id@, position);
}

/// Where this host cannot switch to itself, the paired host is asked if there is just one. With
/// none or several, and for a host that is not paired, the operation fails with the reason.
pub proof fn failed_switch_to_this_host_needs_a_single_other(
    locale: UiLocale,
    settings: AppSettings,
    target_id: &str,
    preparation: NetworkPreparation,
    failure: DisplayMuxError,
    after: AfterLocalSwitch,
    reason: String,
)
    requires
        call_ensures(
            after_local_switch,
            (locale, &settings, target_id, &preparation, Err::<SwitchOutcome, _>(failure)),
            after,
        ),
        call_ensures(core_user_error, (locale, &failure), reason),
    ensures
        target_id@ == "local"@ && settings.peers@.len() == 1 ==> (
        after matches AfterLocalSwitch::AskPeer { executor, progress, local_error } && executor == 0
            && local_error@ == reason@),
        (target_id@ == "local"@ && settings.peers@.len() != 1) || (target_id@ != "local"@
            && no_host(settings.peers@, target_id@)) ==> (after matches AfterLocalSwitch::Finished {
            result: Err(text),
        } && holds(text@, reason@)),
{
    if no_host(settings.peers@, target_id@) {
        lemma_no_host(settings.peers@, target_id@);
    }
    lemma_holds(
        "本機無法切換，而且沒有其他已配對主機可代為執行："@,
        reason@,
        Seq::empty(),
    );
    lemma_holds(
        "Local switching failed and no other paired host can perform it: "@,
        reason@,
        Seq::empty(),
    );
}

/// The result of a switch names the display and the inputs, in the order from and to, and says
/// whether the host was woken and whether it could not be confirmed; the reason is then told too.
pub proof fn switch_result_names_display_and_inputs(
    locale: UiLocale,
    outcome: SwitchOutcome,
    preparation: NetworkPreparation,
    result: OperationResult,
    from: String,
    to: String,
)
    requires
        call_ensures(outcome_result, (locale, outcome, &preparation), result),
        match outcome {
            SwitchOutcome::DryRun { .. } => true,
            SwitchOutcome::AlreadySelected { input, .. } => call_ensures(
                localized_input_name,
                (locale, input),
                to,
            ),
            SwitchOutcome::Switched { previous, selected, .. } => {
                &&& call_ensures(localized_input_name, (locale, previous), from)
                &&& call_ensures(localized_input_name, (locale, selected), to)
            },
        },
    ensures
        result.warning <==> preparation is Unavailable,
        result.peer_woken <==> match preparation {
            NetworkPreparation::NotRequired => false,
            NetworkPreparation::Ready { wake_sent } => wake_sent,
            NetworkPreparation::Unavailable { wake_sent, .. } => wake_sent,
        },
        preparation matches NetworkPreparation::Unavailable { reason, .. } ==> holds(
            result.detail@,
            reason@,
        ),
        match outcome {
            SwitchOutcome::DryRun { .. } => true,
            SwitchOutcome::AlreadySelected { target, .. } => exists|a: Seq<char>, b: Seq<char>|
                a.len() > 0 && result.detail@ == #[trigger] (target.name@ + a + to@ + b),
            SwitchOutcome::Switched { target, .. } => exists|
                a: Seq<char>,
                b: Seq<char>,
                c: Seq<char>,
            |
                a.len() > 0 && b.len() > 0 && result.detail@ == #[trigger] (target.name@ + a + from@
                    + b + to@ + c),
        },
{
    reveal_strlit(" 已使用 ");
    reveal_strlit(" is already using ");
    reveal_strlit(" 已由 ");
    reveal_strlit(" switched from ");
    reveal_strlit(" 切換至 ");
    reveal_strlit(" to ");
    let risk = blank_risk(locale, preparation@);
    let dot = localized(locale, "。"@, "."@);
    let detail = result.detail@;
    assert(detail == outcome_detail(locale, outcome) + risk);
    match outcome {
        SwitchOutcome::DryRun { .. } => {},
        SwitchOutcome::AlreadySelected { target, .. } => {
            let a = localized(locale, " 已使用 "@, " is already using "@);
            assert(detail =~= target.name@ + a + to@ + (dot + risk));
        },
        SwitchOutcome::Switched { target, .. } => {
            let a = localized(locale, " 已由 "@, " switched from "@);
            let b = localized(locale, " 切換至 "@, " to "@);
            assert(detail =~= target.name@ + a + from@ + b + to@ + (dot + risk));
        },
    }
    if let NetworkPreparation::Unavailable { wake_sent, reason } = preparation {
        unconfirmed_switch_is_explained(locale, outcome, preparation@);
        let before = choose|before: Seq<char>|
            detail == #[trigger] (before + reason@ + risk_text(locale));
        lemma_holds(before, reason@, risk_text(locale));
    }
}

/// The result of a switch that a paired host made names the host and the input; where that host
/// failed too, the error names the host and both reasons, the one of this host first.
pub proof fn remote_switch_names_the_host(
    locale: UiLocale,
    executor: HostRoute,
    input: DisplayInput,
    preparation: NetworkPreparation,
    local_error: &str,
    remote: Result<(), String>,
    result: Result<OperationResult, String>,
    name: String,
)
    requires
        call_ensures(
            after_remote_switch,
            (locale, &executor, input, &preparation, local_error, remote),
            result,
        ),
        call_ensures(localized_input_name, (locale, input), name),
    ensures
        result is Ok <==> remote is Ok,
        result matches Ok(result) ==> {
            &&& holds(result.title@, executor.name@)
            &&& holds(result.detail@, name@)
            &&& !result.warning
            &&& result.peer_woken <==> match preparation {
                NetworkPreparation::NotRequired => false,
                NetworkPreparation::Ready { wake_sent } => wake_sent,
                NetworkPreparation::Unavailable { wake_sent, .. } => wake_sent,
            }
        },
        result matches Err(text) ==> exists|a: Seq<char>, b: Seq<char>, c: Seq<char>|
            b.len() > 0 && c.len() > 0 && text@ == #[trigger] (a + executor.name@ + b + local_error@
                + c + remote->Err_0@),
{
    reveal_strlit(" 都無法切換。本機：");
    reveal_strlit(" could switch. Local: ");
    reveal_strlit("；遠端：");
    reveal_strlit("; remote: ");
    lemma_holds("已由 "@, executor.name@, " 執行切換"@);
    lemma_holds("Switch performed by "@, executor.name@, Seq::empty());
    lemma_holds("遠端主機已切換至 "@, name@, "。"@);
    lemma_holds("The remote host switched to "@, name@, "."@);
    if let Err(text) = result {
        let a = localized(locale, "本機與 "@, "Neither this computer nor "@);
        let b = localized(locale, " 都無法切換。本機："@, " could switch. Local: "@);
        let c = localized(locale, "；遠端："@, "; remote: "@);
        assert(text@ =~= a + executor.name@ + b + local_error@ + c + remote->Err_0@);
    }
}

/// A paired host is asked for the planned input, and only a switch to a paired host is prepared.
pub proof fn plan_decides_what_is_asked_and_prepared(
    plan: SwitchPlan,
    action: AgentAction,
    step: FirstStep,
)
    requires
        call_ensures(remote_action, (&plan,), action),
        call_ensures(first_step, (&plan,), step),
    ensures
        action matches AgentAction::SwitchInput { input } && input.code == plan.input.code,
        plan.peer is None ==> step == (FirstStep::Switch {
            preparation: NetworkPreparation::NotRequired,
        }),
        plan.peer matches Some(position) ==> step == (FirstStep::Prepare { peer: position }),
{
}

/// The results of a probe, of waking and of saving say what was done to whom.
pub proof fn other_results_name_the_host(
    locale: UiLocale,
    peer: HostRoute,
    probed: OperationResult,
    woken: OperationResult,
    saved: OperationResult,
)
    requires
        call_ensures(probe_result, (locale, &peer), probed),
        call_ensures(wake_result, (locale, &peer), woken),
        call_ensures(saved_result, (locale,), saved),
    ensures
        holds(probed.title@, peer.name@),
        !probed.peer_woken && !probed.warning,
        holds(woken.title@, peer.name@),
        woken.peer_woken && !woken.warning,
        !saved.peer_woken && !saved.warning,
{
    lemma_holds(Seq::empty(), peer.name@, " 已連線"@);
    lemma_holds(Seq::empty(), peer.name@, " connected"@);
    lemma_holds("已送出喚醒訊號給 "@, peer.name@, Seq::empty());
    lemma_holds("Wake signal sent to "@, peer.name@, Seq::empty());
}

/// Where the host to switch to could not be confirmed, the result says whether a wake signal was
/// sent; otherwise it says nothing of one.
pub proof fn unconfirmed_switch_tells_of_the_wake_signal(
    locale: UiLocale,
    outcome: SwitchOutcome,
    wake_sent: bool,
    reason: String,
    result: OperationResult,
    ready: OperationResult,
    ready_sent: bool,
)
    requires
        call_ensures(
            outcome_result,
            (locale, outcome, &NetworkPreparation::Unavailable { wake_sent, reason }),
            result,
        ),
        call_ensures(
            outcome_result,
            (locale, outcome, &NetworkPreparation::Ready { wake_sent: ready_sent }),
            ready,
        ),
    ensures
        starts_with(result.detail@, ready.detail@),
        ({
            let added = result.detail@.skip(ready.detail@.len() as int);
            match (locale, wake_sent) {
                (UiLocale::English, true) => starts_with(added, " A wake signal was sent, but "@),
                (UiLocale::English, false) => starts_with(
                    added,
                    " A wake signal could not be sent, and "@,
                ),
                (UiLocale::TraditionalChinese, true) => starts_with(added, " 已先送出喚醒訊號，但"@),
                (UiLocale::TraditionalChinese, false) => starts_with(added, " 無法送出喚醒訊號，且"@),
            }
        }),
{
    reveal_strlit(" ");
    reveal_strlit("A wake signal was sent, but ");
    reveal_strlit(" A wake signal was sent, but ");
    reveal_strlit("A wake signal could not be sent, and ");
    reveal_strlit(" A wake signal could not be sent, and ");
    reveal_strlit("已先送出喚醒訊號，但");
    reveal_strlit(" 已先送出喚醒訊號，但");
    reveal_strlit("無法送出喚醒訊號，且");
    reveal_strlit(" 無法送出喚醒訊號，且");
    let preparation = NetworkPreparation::Unavailable { wake_sent, reason };
    let base = outcome_detail(locale, outcome);
    let risk = blank_risk(locale, preparation@);
    assert(blank_risk(
        locale,
        (NetworkPreparation::Ready { wake_sent: ready_sent })@,
    ).len() == 0);
    assert(ready.detail@ =~= base);
    assert(result.detail@ == base + risk);
    assert(result.detail@.take(base.len() as int) =~= base);
    let added = result.detail@.skip(base.len() as int);
    assert(added =~= risk);
    let wake = if wake_sent {
        localized(locale, "已先送出喚醒訊號，但"@, "A wake signal was sent, but "@)
    } else {
        localized(locale, "無法送出喚醒訊號，且"@, "A wake signal could not be sent, and "@)
    };
    let said = " "@ + wake;
    assert(risk.take(said.len() as int) =~= said);
    assert(" "@ + "A wake signal was sent, but "@ =~= " A wake signal was sent, but "@);
    assert(" "@ + "A wake signal could not be sent, and "@
        =~= " A wake signal could not be sent, and "@);
    assert(" "@ + "已先送出喚醒訊號，但"@ =~= " 已先送出喚醒訊號，但"@);
    assert(" "@ + "無法送出喚醒訊號，且"@ =~= " 無法送出喚醒訊號，且"@);
}

} // verus!
