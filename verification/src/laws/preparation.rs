//! Laws of getting a paired host ready.

use crate::laws::dashboard::{holds, lemma_holds};
use crate::locale::UiLocale;
use crate::preparation::{
    advance_preparation, ending, limit_wait, preparation_ends_as_stated, start_preparation,
    NetworkPreparation, PhaseView, PreparationEvent, PreparationPhase, SwitchProgress,
};
use crate::settings::{AppSettings, HostRoute};
use crate::text::decimal;
use vstd::prelude::*;

verus! {

/// Whether a number is the nearest one to another between 5 and 120.
pub open spec fn is_limited(seconds: u64, limited: u64) -> bool {
    &&& 5 <= limited <= 120
    &&& 5 <= seconds <= 120 ==> limited == seconds
    &&& seconds < 5 ==> limited == 5
    &&& seconds > 120 ==> limited == 120
}

/// A host is waited for as long as configured, but for 5 seconds at least and for 120 at most.
pub proof fn waiting_time_is_limited(seconds: u64, limited: u64)
    requires
        call_ensures(limit_wait, (seconds,), limited),
    ensures
        is_limited(seconds, limited),
{
}

/// A preparation begins with asking the host.
pub proof fn host_is_asked_first(peer: HostRoute, started: (PreparationPhase, SwitchProgress))
    requires
        call_ensures(start_preparation, (&peer,), started),
    ensures
        started.0 is Checking,
        started.1 matches SwitchProgress::Checking { peer_name } && peer_name@ == peer.name@,
{
}

/// A host that says it is ready when it is asked first is ready and is not woken, provided that it
/// could be asked. Any other is woken, and the user is told so.
pub proof fn silent_host_is_woken(
    locale: UiLocale,
    settings: AppSettings,
    peer: HostRoute,
    ready: bool,
    next: (PreparationPhase, Option<SwitchProgress>),
)
    requires
        call_ensures(
            advance_preparation,
            (
                locale,
                &settings,
                &peer,
                PreparationPhase::Checking,
                PreparationEvent::Reply { ready },
            ),
            next,
        ),
    ensures
        if ready && settings.shared_key@.len() >= 8 {
            &&& next.0 matches PreparationPhase::Finished { preparation }
            &&& preparation == (NetworkPreparation::Ready { wake_sent: false })
            &&& next.1 is None
        } else {
            &&& next.0 is Waking
            &&& next.1 matches Some(SwitchProgress::Waking { peer_name }) && peer_name@
                == peer.name@
        },
{
}

/// A host that was woken is waited for, for the limited time, and the user is told so. A host that
/// could not be woken is given up with the reason, and without a password so is any.
pub proof fn woken_host_is_waited_for(
    locale: UiLocale,
    settings: AppSettings,
    peer: HostRoute,
    sent: Result<(), String>,
    next: (PreparationPhase, Option<SwitchProgress>),
    limited: u64,
)
    requires
        call_ensures(
            advance_preparation,
            (locale, &settings, &peer, PreparationPhase::Waking, PreparationEvent::Wake { sent }),
            next,
        ),
        is_limited(settings.wait_seconds, limited),
    ensures
        if settings.shared_key@.len() < 8 {
            next.0 matches PreparationPhase::Finished {
                preparation: NetworkPreparation::Unavailable { wake_sent, reason },
            } && wake_sent == sent is Ok
        } else {
            match sent {
                Err(failure) => next.0 matches PreparationPhase::Finished {
                    preparation: NetworkPreparation::Unavailable { wake_sent, reason },
                } && !wake_sent && holds(reason@, failure@),
                Ok(()) => {
                    &&& next.0 == PreparationPhase::Waiting { attempts: limited, made: 0 }
                    &&& next.1 matches Some(SwitchProgress::Waiting { peer_name, seconds })
                        && peer_name@ == peer.name@ && seconds == limited
                },
            }
        },
{
    if let Err(failure) = sent {
        lemma_holds(Seq::empty(), failure@, "，且 Agent 目前沒有回應"@);
        lemma_holds(Seq::empty(), failure@, ", and the Agent is not responding"@);
    }
}

/// A host that is waited for is ready as soon as it says so. It is asked as often as there are
/// attempts, and then given up; the reason names it and the time.
pub proof fn host_is_asked_as_often_as_there_are_attempts(
    locale: UiLocale,
    settings: AppSettings,
    peer: HostRoute,
    attempts: u64,
    made: u64,
    ready: bool,
    next: (PreparationPhase, Option<SwitchProgress>),
)
    requires
        call_ensures(
            advance_preparation,
            (
                locale,
                &settings,
                &peer,
                PreparationPhase::Waiting { attempts, made },
                PreparationEvent::Reply { ready },
            ),
            next,
        ),
    ensures
        next.1 is None,
        if ready {
            next.0 matches PreparationPhase::Finished { preparation } && preparation == (
            NetworkPreparation::Ready { wake_sent: true })
        } else if made + 1 < attempts {
            next.0 matches PreparationPhase::Waiting { attempts: all, made: more } && all
                == attempts && more == made + 1
        } else {
            next.0 matches PreparationPhase::Finished {
                preparation: NetworkPreparation::Unavailable { wake_sent, reason },
            } && wake_sent && holds(reason@, peer.name@) && holds(reason@, decimal(attempts as nat))
        },
{
    let name = peer.name@;
    let number = decimal(attempts as nat);
    let zh = name + " 在送出喚醒訊號後 "@ + number + " 秒內仍沒有回應"@;
    let en = name + " did not respond within "@ + number + " seconds after the wake signal"@;
    lemma_holds(
        name + " 在送出喚醒訊號後 "@,
        number,
        " 秒內仍沒有回應"@,
    );
    lemma_holds(
        name + " did not respond within "@,
        number,
        " seconds after the wake signal"@,
    );
    let zh_rest = " 在送出喚醒訊號後 "@ + number + " 秒內仍沒有回應"@;
    let en_rest = " did not respond within "@ + number + " seconds after the wake signal"@;
    assert(zh =~= name + zh_rest);
    assert(en =~= name + en_rest);
    lemma_holds(Seq::empty(), name, zh_rest);
    lemma_holds(Seq::empty(), name, en_rest);
}

/// A preparation that is finished stays as it is, and no event counts in a phase that does not wait
/// for it.
pub proof fn other_events_change_nothing(
    locale: UiLocale,
    settings: AppSettings,
    peer: HostRoute,
    preparation: NetworkPreparation,
    event: PreparationEvent,
    next: (PreparationPhase, Option<SwitchProgress>),
    ready: bool,
    early: (PreparationPhase, Option<SwitchProgress>),
)
    requires
        call_ensures(
            advance_preparation,
            (locale, &settings, &peer, PreparationPhase::Finished { preparation }, event),
            next,
        ),
        call_ensures(
            advance_preparation,
            (
                locale,
                &settings,
                &peer,
                PreparationPhase::Waking,
                PreparationEvent::Reply { ready },
            ),
            early,
        ),
    ensures
        next.0 matches PreparationPhase::Finished { preparation: kept } && kept@ == preparation@,
        next.1 is None,
        early.0 is Waking,
        early.1 is None,
{
}

/// A host ends up ready exactly where it could be asked and says so: at once, or, after it was
/// woken, within the limited time. `replies[0]` is what it says at once, `replies[i]` what it says
/// after `i` seconds.
pub proof fn host_is_ready_where_it_says_so_in_time(
    locale: UiLocale,
    settings: AppSettings,
    peer: HostRoute,
    failure: Option<Seq<char>>,
    replies: Seq<bool>,
    limited: u64,
)
    requires
        is_limited(settings.wait_seconds, limited),
        replies.len() == limited + 1,
    ensures
        ({
            let end = ending(locale, settings, peer, PhaseView::Checking, failure, replies);
            let late = exists|i: int| 1 <= i <= limited && #[trigger] replies[i];
            &&& end is Some
            &&& end->Some_0 is Ready <==> settings.shared_key@.len() >= 8 && (replies[0] || (
            failure is None && late))
            &&& end->Some_0.peer_woken() <==> failure is None && !(settings.shared_key@.len() >= 8
                && replies[0])
            &&& !(end->Some_0 is NotRequired)
        }),
{
    preparation_ends_as_stated(locale, settings, peer, failure, replies);
}

/// A preparation says whether the host was woken and whether it could not be confirmed.
pub proof fn preparation_tells_wake_and_warning(
    preparation: NetworkPreparation,
    woken: bool,
    warning: bool,
)
    requires
        call_ensures(NetworkPreparation::peer_woken, (&preparation,), woken),
        call_ensures(NetworkPreparation::warning, (&preparation,), warning),
    ensures
        warning <==> preparation is Unavailable,
        woken <==> match preparation {
            NetworkPreparation::NotRequired => false,
            NetworkPreparation::Ready { wake_sent } => wake_sent,
            NetworkPreparation::Unavailable { wake_sent, .. } => wake_sent,
        },
{
}

} // verus!
