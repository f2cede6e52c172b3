//! Laws of answering other hosts.

use crate::agent::{
    answer_request, decide_request, switch_response, switched_response, AgentDecision, SwitchTask,
};
use crate::domain::{DisplayInput, MonitorDescriptor, SwitchMode, SwitchOutcome};
use crate::error::DisplayMuxError;
use crate::laws::dashboard::{holds, lemma_holds};
use crate::laws::service::{answers, is_only_match, lemma_switch};
use crate::locale::{core_user_error, localized_input_name, UiLocale};
use crate::network::{AgentAction, AgentResponse};
use crate::platform::is_platform_switch;
use crate::port::MonitorControl;
use crate::settings::SelectedMonitor;
use vstd::prelude::*;

verus! {

/// A host that is asked whether it is there says that it is ready, whatever it shares. One that is
/// asked to switch switches the display that it shares to the input that was asked for, and, where
/// it shares none, says that it is not ready.
pub proof fn request_is_decided_by_the_shared_display(
    locale: UiLocale,
    selected: SelectedMonitor,
    input: DisplayInput,
    ping: AgentDecision,
    lonely_ping: AgentDecision,
    switch: AgentDecision,
    lonely_switch: AgentDecision,
)
    requires
        call_ensures(decide_request, (locale, Some(&selected), AgentAction::Ping), ping),
        call_ensures(
            decide_request,
            (locale, None::<&SelectedMonitor>, AgentAction::Ping),
            lonely_ping,
        ),
        call_ensures(
            decide_request,
            (locale, Some(&selected), AgentAction::SwitchInput { input }),
            switch,
        ),
        call_ensures(
            decide_request,
            (locale, None::<&SelectedMonitor>, AgentAction::SwitchInput { input }),
            lonely_switch,
        ),
    ensures
        ping matches AgentDecision::Answer { response } && response.ready,
        lonely_ping matches AgentDecision::Answer { response } && response.ready,
        switch matches AgentDecision::Switch { fingerprint, input: asked } && fingerprint@
            == selected.fingerprint@ && asked == input,
        lonely_switch matches AgentDecision::Answer { response } && !response.ready,
{
}

/// A host says that it is ready exactly where it switched, and then names the input; otherwise it
/// says why it did not.
pub proof fn answer_says_what_was_done(
    locale: UiLocale,
    input: DisplayInput,
    outcome: SwitchOutcome,
    done: AgentResponse,
    name: String,
    failure: DisplayMuxError,
    failed: AgentResponse,
    reason: String,
    lost_reason: String,
    lost: AgentResponse,
)
    requires
        call_ensures(
            switch_response,
            (locale, input, SwitchTask::Ended { switched: Ok::<_, DisplayMuxError>(outcome) }),
            done,
        ),
        call_ensures(localized_input_name, (locale, input), name),
        call_ensures(
            switch_response,
            (locale, input, SwitchTask::Ended { switched: Err::<SwitchOutcome, _>(failure) }),
            failed,
        ),
        call_ensures(core_user_error, (locale, &failure), reason),
        call_ensures(
            switch_response,
            (locale, input, SwitchTask::Lost { reason: lost_reason }),
            lost,
        ),
    ensures
        done.ready && holds(done.message@, name@),
        !failed.ready && failed.message@ == reason@,
        !lost.ready && holds(lost.message@, lost_reason@),
{
    lemma_holds("遠端主機已切換至 "@, name@, Seq::empty());
    lemma_holds("The remote host switched to "@, name@, Seq::empty());
    lemma_holds("切換工作無法執行："@, lost_reason@, Seq::empty());
    lemma_holds("The switching task could not run: "@, lost_reason@, Seq::empty());
}

/// A request to switch is answered that it was done exactly where the shared display could be
/// switched, or showed the input already.
pub proof fn request_to_switch_is_carried_out<C: MonitorControl>(
    locale: UiLocale,
    control: C,
    selected: SelectedMonitor,
    input: DisplayInput,
    response: AgentResponse,
    monitors: Vec<MonitorDescriptor>,
    position: int,
    read: Result<DisplayInput, DisplayMuxError>,
    written: Result<(), DisplayMuxError>,
)
    requires
        call_ensures(
            answer_request::<C>,
            (
                locale,
                Ok::<C, DisplayMuxError>(control),
                Some(&selected),
                AgentAction::SwitchInput { input },
            ),
            response,
        ),
        answers(control, input, monitors, position, read, written),
        is_only_match(monitors@, selected.fingerprint, position),
    ensures
        response.ready <==> (read matches Ok(shown) && (shown == input || written is Ok)),
{
    let switched = choose|switched: Result<SwitchOutcome, DisplayMuxError>|
        #[trigger] is_platform_switch(
            Ok::<C, DisplayMuxError>(control),
            selected.fingerprint@,
            input,
            switched,
        ) && response@ == switched_response(locale, input, SwitchTask::Ended { switched });
    lemma_switch(
        control,
        selected.fingerprint,
        input,
        SwitchMode::Apply,
        switched,
        monitors,
        position,
        read,
        written,
    );
}

} // verus!
