//! Getting a paired host ready before the display is switched to it.
//!
//! The host is asked first whether it is ready. If it does not answer, it is woken, and asked again
//! once per second while it wakes. Sending and waiting is done by the caller; each answer is handed
//! to [`advance_preparation`], which decides what comes next.

use crate::locale::{localized, UiLocale};
use crate::settings::{has_valid_shared_key, AppSettings, HostRoute, MIN_SHARED_KEY_LENGTH};
use crate::text::{decimal, decimal_string, join2, join3};
use vstd::prelude::*;

verus! {

/// Whether a paired host is ready, and whether it was woken.
#[derive(Clone, Debug, PartialEq, Eq)]
pub enum NetworkPreparation {
    /// The display is switched to this host.
    NotRequired,
    Ready { wake_sent: bool },
    Unavailable { wake_sent: bool, reason: String },
}

/// A preparation, its text as characters.
pub enum PreparationView {
    NotRequired,
    Ready { wake_sent: bool },
    Unavailable { wake_sent: bool, reason: Seq<char> },
}

impl View for NetworkPreparation {
    type V = PreparationView;

    open spec fn view(&self) -> PreparationView {
        match *self {
            NetworkPreparation::NotRequired => PreparationView::NotRequired,
            NetworkPreparation::Ready { wake_sent } => PreparationView::Ready { wake_sent },
            NetworkPreparation::Unavailable { wake_sent, reason } => PreparationView::Unavailable {
                wake_sent,
                reason: reason@,
            },
        }
    }
}

impl PreparationView {
    /// Whether a wake signal was sent.
    pub open spec fn peer_woken(self) -> bool {
        match self {
            PreparationView::NotRequired => false,
            PreparationView::Ready { wake_sent } => wake_sent,
            PreparationView::Unavailable { wake_sent, .. } => wake_sent,
        }
    }

    /// Whether the host could not be confirmed to be ready.
    pub open spec fn warning(self) -> bool {
        self is Unavailable
    }
}

impl NetworkPreparation {
    /// Whether a wake signal was sent.
    pub fn peer_woken(&self) -> (woken: bool)
        ensures
            woken == self@.peer_woken(),
    {
        match self {
            NetworkPreparation::NotRequired => false,
            NetworkPreparation::Ready { wake_sent } => *wake_sent,
            NetworkPreparation::Unavailable { wake_sent, .. } => *wake_sent,
        }
    }

    /// Whether the host could not be confirmed to be ready.
    pub fn warning(&self) -> (warning: bool)
        ensures
            warning == self@.warning(),
    {
        match self {
            NetworkPreparation::Unavailable { .. } => true,
            _ => false,
        }
    }
}

/// What the user is told while a switch is under way.
#[derive(Clone, Debug, PartialEq, Eq)]
pub enum SwitchProgress {
    Waking { peer_name: String },
    Checking { peer_name: String },
    Waiting { peer_name: String, seconds: u64 },
    Switching,
    RemoteFallback { peer_name: String },
}

/// Progress, its text as characters.
pub enum ProgressView {
    Waking { peer_name: Seq<char> },
    Checking { peer_name: Seq<char> },
    Waiting { peer_name: Seq<char>, seconds: u64 },
    Switching,
    RemoteFallback { peer_name: Seq<char> },
}

impl View for SwitchProgress {
    type V = ProgressView;

    open spec fn view(&self) -> ProgressView {
        match *self {
            SwitchProgress::Waking { peer_name } => ProgressView::Waking { peer_name: peer_name@ },
            SwitchProgress::Checking { peer_name } => ProgressView::Checking {
                peer_name: peer_name@,
            },
            SwitchProgress::Waiting { peer_name, seconds } => ProgressView::Waiting {
                peer_name: peer_name@,
                seconds,
            },
            SwitchProgress::Switching => ProgressView::Switching,
            SwitchProgress::RemoteFallback { peer_name } => ProgressView::RemoteFallback {
                peer_name: peer_name@,
            },
        }
    }
}

/// Progress that may be missing, its text as characters.
pub open spec fn progress_view(progress: Option<SwitchProgress>) -> Option<ProgressView> {
    match progress {
        Some(progress) => Some(progress@),
        None => None,
    }
}

/// How far a preparation has come, and with it what the caller has to do next.
#[derive(Debug, PartialEq, Eq)]
pub enum PreparationPhase {
    /// Ask the host at once whether it is ready. Without a pairing password it cannot be asked, and
    /// does not count as ready.
    Checking,
    /// Send the wake signal.
    Waking,
    /// Wait for a second, then ask the host. It was asked `made` times since it was woken.
    Waiting { attempts: u64, made: u64 },
    /// Nothing is left to do.
    Finished { preparation: NetworkPreparation },
}

/// What the caller found out.
#[derive(Debug, PartialEq, Eq)]
pub enum PreparationEvent {
    /// How sending the wake signal ended.
    Wake { sent: Result<(), String> },
    /// Whether the host answered that it is ready.
    Reply { ready: bool },
}

/// Why the wake signal could not be sent, or `None` where it was sent.
pub open spec fn wake_failure(sent: Result<(), String>) -> Option<Seq<char>> {
    match sent {
        Ok(()) => None,
        Err(reason) => Some(reason@),
    }
}

/// A phase, its texts as characters.
pub enum PhaseView {
    Checking,
    Waking,
    Waiting { attempts: u64, made: u64 },
    Finished { preparation: PreparationView },
}

impl View for PreparationPhase {
    type V = PhaseView;

    open spec fn view(&self) -> PhaseView {
        match *self {
            PreparationPhase::Checking => PhaseView::Checking,
            PreparationPhase::Waking => PhaseView::Waking,
            PreparationPhase::Waiting { attempts, made } => PhaseView::Waiting { attempts, made },
            PreparationPhase::Finished { preparation } => PhaseView::Finished {
                preparation: preparation@,
            },
        }
    }
}

/// An event, its text as characters.
pub enum EventView {
    Wake { failure: Option<Seq<char>> },
    Reply { ready: bool },
}

impl View for PreparationEvent {
    type V = EventView;

    open spec fn view(&self) -> EventView {
        match *self {
            PreparationEvent::Wake { sent } => EventView::Wake { failure: wake_failure(sent) },
            PreparationEvent::Reply { ready } => EventView::Reply { ready },
        }
    }
}

/// How often a host is asked while it wakes: once per second of the configured time, which is
/// at least 5 and at most 120 seconds.
pub open spec fn wait_attempts(wait_seconds: u64) -> u64 {
    if wait_seconds < 5 {
        5
    } else if wait_seconds > 120 {
        120
    } else {
        wait_seconds
    }
}

/// Limits the configured time.
pub fn limit_wait(wait_seconds: u64) -> (attempts: u64)
    ensures
        attempts == wait_attempts(wait_seconds),
{
    if wait_seconds < 5 {
        5
    } else if wait_seconds > 120 {
        120
    } else {
        wait_seconds
    }
}

/// Why a host is given up where the pairing password is too short to ask it.
pub open spec fn no_password_reason(locale: UiLocale) -> Seq<char> {
    localized(
        locale,
        "網路 Agent 尚未設定至少 "@ + decimal(MIN_SHARED_KEY_LENGTH as nat)
            + " 個字元的配對密碼"@,
        "The network Agent does not have a pairing password of at least "@ + decimal(
            MIN_SHARED_KEY_LENGTH as nat,
        ) + " characters"@,
    )
}

/// Why a host is not waited for where it could not be woken.
pub open spec fn not_woken_reason(locale: UiLocale, failure: Seq<char>) -> Seq<char> {
    localized(
        locale,
        failure + "，且 Agent 目前沒有回應"@,
        failure + ", and the Agent is not responding"@,
    )
}

/// Why a host that was woken is given up.
pub open spec fn no_reply_reason(locale: UiLocale, name: Seq<char>, attempts: u64) -> Seq<char> {
    localized(
        locale,
        name + " 在送出喚醒訊號後 "@ + decimal(attempts as nat) + " 秒內仍沒有回應"@,
        name + " did not respond within "@ + decimal(attempts as nat)
            + " seconds after the wake signal"@,
    )
}

/// The phase after an event, and what the user is told. An event that does not belong to the
/// phase changes nothing.
pub open spec fn advanced(
    locale: UiLocale,
    settings: AppSettings,
    peer: HostRoute,
    phase: PhaseView,
    event: EventView,
) -> (PhaseView, Option<ProgressView>) {
    let attempts = wait_attempts(settings.wait_seconds);
    let has_password = settings.shared_key@.len() >= MIN_SHARED_KEY_LENGTH;
    match (phase, event) {
        (PhaseView::Checking, EventView::Reply { ready }) => if ready && has_password {
            (
                PhaseView::Finished { preparation: PreparationView::Ready { wake_sent: false } },
                None,
            )
        } else {
            (PhaseView::Waking, Some(ProgressView::Waking { peer_name: peer.name@ }))
        },
        (PhaseView::Waking, EventView::Wake { failure }) => if !has_password {
            (
                PhaseView::Finished {
                    preparation: PreparationView::Unavailable {
                        wake_sent: failure is None,
                        reason: no_password_reason(locale),
                    },
                },
                None,
            )
        } else {
            match failure {
                Some(failure) => (
                    PhaseView::Finished {
                        preparation: PreparationView::Unavailable {
                            wake_sent: false,
                            reason: not_woken_reason(locale, failure),
                        },
                    },
                    None,
                ),
                None => (
                    PhaseView::Waiting { attempts, made: 0 },
                    Some(ProgressView::Waiting { peer_name: peer.name@, seconds: attempts }),
                ),
            }
        },
        (PhaseView::Waiting { attempts, made }, EventView::Reply { ready }) => if ready {
            (
                PhaseView::Finished { preparation: PreparationView::Ready { wake_sent: true } },
                None,
            )
        } else if made + 1 < attempts {
            (PhaseView::Waiting { attempts, made: (made + 1) as u64 }, None)
        } else {
            (
                PhaseView::Finished {
                    preparation: PreparationView::Unavailable {
                        wake_sent: true,
                        reason: no_reply_reason(locale, peer.name@, attempts),
                    },
                },
                None,
            )
        },
        _ => (phase, None),
    }
}

/// Begins to prepare a host: it is to be asked whether it is ready, and the user is told so.
pub fn start_preparation(peer: &HostRoute) -> (started: (PreparationPhase, SwitchProgress))
    ensures
        started.0@ == PhaseView::Checking,
        started.1@ == (ProgressView::Checking { peer_name: peer.name@ }),
{
    (PreparationPhase::Checking, SwitchProgress::Checking { peer_name: peer.name.clone() })
}

/// Decides what comes after an event, and what the user is told.
pub fn advance_preparation(
    locale: UiLocale,
    settings: &AppSettings,
    peer: &HostRoute,
    phase: PreparationPhase,
    event: PreparationEvent,
) -> (next: (PreparationPhase, Option<SwitchProgress>))
    ensures
        (next.0@, progress_view(next.1)) == advanced(locale, *settings, *peer, phase@, event@),
{
    match (phase, event) {
        (PreparationPhase::Checking, PreparationEvent::Reply { ready }) => if ready
            && has_valid_shared_key(settings.shared_key.as_str()) {
            let preparation = NetworkPreparation::Ready { wake_sent: false };
            (PreparationPhase::Finished { preparation }, None)
        } else {
            let progress = SwitchProgress::Waking { peer_name: peer.name.clone() };
            (PreparationPhase::Waking, Some(progress))
        },
        (PreparationPhase::Waking, PreparationEvent::Wake { sent }) => if !has_valid_shared_key(
            settings.shared_key.as_str(),
        ) {
            let length = decimal_string(MIN_SHARED_KEY_LENGTH as u128);
            let reason = match locale {
                UiLocale::TraditionalChinese => join3(
                    "網路 Agent 尚未設定至少 ",
                    length.as_str(),
                    " 個字元的配對密碼",
                ),
                UiLocale::English => join3(
                    "The network Agent does not have a pairing password of at least ",
                    length.as_str(),
                    " characters",
                ),
            };
            let preparation = NetworkPreparation::Unavailable { wake_sent: sent.is_ok(), reason };
            (PreparationPhase::Finished { preparation }, None)
        } else {
            match sent {
                Err(failure) => {
                    let reason = match locale {
                        UiLocale::TraditionalChinese => join2(
                            failure.as_str(),
                            "，且 Agent 目前沒有回應",
                        ),
                        UiLocale::English => join2(
                            failure.as_str(),
                            ", and the Agent is not responding",
                        ),
                    };
                    let preparation = NetworkPreparation::Unavailable { wake_sent: false, reason };
                    (PreparationPhase::Finished { preparation }, None)
                },
                Ok(()) => {
                    let attempts = limit_wait(settings.wait_seconds);
                    let progress = SwitchProgress::Waiting {
                        peer_name: peer.name.clone(),
                        seconds: attempts,
                    };
                    (PreparationPhase::Waiting { attempts, made: 0 }, Some(progress))
                },
            }
        },
        (
            PreparationPhase::Waiting { attempts, made },
            PreparationEvent::Reply { ready },
        ) => if ready {
            let preparation = NetworkPreparation::Ready { wake_sent: true };
            (PreparationPhase::Finished { preparation }, None)
        } else if made < attempts && made + 1 < attempts {
            (PreparationPhase::Waiting { attempts, made: made + 1 }, None)
        } else {
            let seconds = decimal_string(attempts as u128);
            let reason = match locale {
                UiLocale::TraditionalChinese => join2(
                    join3(
                        peer.name.as_str(),
                        " 在送出喚醒訊號後 ",
                        seconds.as_str(),
                    ).as_str(),
                    " 秒內仍沒有回應",
                ),
                UiLocale::English => join2(
                    join3(peer.name.as_str(), " did not respond within ", seconds.as_str()).as_str(),
                    " seconds after the wake signal",
                ),
            };
            let preparation = NetworkPreparation::Unavailable { wake_sent: true, reason };
            (PreparationPhase::Finished { preparation }, None)
        },
        (phase, _) => (phase, None),
    }
}

// ---------------------------------------------------------------------------
// Whole preparations

/// How many more events a preparation can take.
pub open spec fn events_left(settings: AppSettings, phase: PhaseView) -> nat {
    let attempts = wait_attempts(settings.wait_seconds);
    match phase {
        PhaseView::Checking => (attempts + 2) as nat,
        PhaseView::Waking => (attempts + 1) as nat,
        PhaseView::Waiting { attempts, made } => if made < attempts {
            (attempts - made) as nat
        } else {
            1
        },
        PhaseView::Finished { .. } => 0,
    }
}

/// Whether an event belongs to a phase.
pub open spec fn expects(phase: PhaseView, event: EventView) -> bool {
    match phase {
        PhaseView::Checking => event is Reply,
        PhaseView::Waking => event is Wake,
        PhaseView::Waiting { .. } => event is Reply,
        PhaseView::Finished { .. } => false,
    }
}

/// Every event that belongs to the phase brings the end of the preparation nearer.
pub proof fn preparation_comes_to_an_end(
    locale: UiLocale,
    settings: AppSettings,
    peer: HostRoute,
    phase: PhaseView,
    event: EventView,
)
    requires
        expects(phase, event),
    ensures
        events_left(settings, advanced(locale, settings, peer, phase, event).0) < events_left(
            settings,
            phase,
        ),
{
}

/// Where a preparation that is at `phase` ends, if sending the wake signal ends with `failure` and
/// the host gives the replies `replies` one after the other. `None` where it has not ended when
/// they are used up.
pub open spec fn ending(
    locale: UiLocale,
    settings: AppSettings,
    peer: HostRoute,
    phase: PhaseView,
    failure: Option<Seq<char>>,
    replies: Seq<bool>,
) -> Option<PreparationView>
    decreases events_left(settings, phase),
{
    match phase {
        PhaseView::Finished { preparation } => Some(preparation),
        PhaseView::Waking => ending(
            locale,
            settings,
            peer,
            advanced(locale, settings, peer, phase, EventView::Wake { failure }).0,
            failure,
            replies,
        ),
        _ => if replies.len() == 0 {
            None
        } else {
            ending(
                locale,
                settings,
                peer,
                advanced(locale, settings, peer, phase, EventView::Reply { ready: replies[0] }).0,
                failure,
                replies.skip(1),
            )
        },
    }
}

/// The outcome of a preparation, from how waking the host would end and what the host replies:
/// `replies[0]` at once, and the others once per second after it was woken.
pub open spec fn prepared(
    locale: UiLocale,
    settings: AppSettings,
    peer: HostRoute,
    failure: Option<Seq<char>>,
    replies: Seq<bool>,
) -> PreparationView {
    if settings.shared_key@.len() < MIN_SHARED_KEY_LENGTH {
        PreparationView::Unavailable {
            wake_sent: failure is None,
            reason: no_password_reason(locale),
        }
    } else if replies[0] {
        PreparationView::Ready { wake_sent: false }
    } else {
        match failure {
            Some(failure) => PreparationView::Unavailable {
                wake_sent: false,
                reason: not_woken_reason(locale, failure),
            },
            None => if exists|i: int|
                1 <= i <= wait_attempts(settings.wait_seconds) && #[trigger] replies[i] {
                PreparationView::Ready { wake_sent: true }
            } else {
                PreparationView::Unavailable {
                    wake_sent: true,
                    reason: no_reply_reason(
                        locale,
                        peer.name@,
                        wait_attempts(settings.wait_seconds),
                    ),
                }
            },
        }
    }
}

/// A preparation ends as [`prepared`] says: the host is ready if it says so at once, or, once it
/// was woken, within the configured time; and a host that was not woken is not waited for.
pub proof fn preparation_ends_as_stated(
    locale: UiLocale,
    settings: AppSettings,
    peer: HostRoute,
    failure: Option<Seq<char>>,
    replies: Seq<bool>,
)
    requires
        replies.len() == wait_attempts(settings.wait_seconds) + 1,
    ensures
        ending(locale, settings, peer, PhaseView::Checking, failure, replies) == Some(
            prepared(locale, settings, peer, failure, replies),
        ),
{
    let attempts = wait_attempts(settings.wait_seconds);
    let rest = replies.skip(1);
    let checked = advanced(
        locale,
        settings,
        peer,
        PhaseView::Checking,
        EventView::Reply { ready: replies[0] },
    ).0;
    assert(ending(locale, settings, peer, PhaseView::Checking, failure, replies) == ending(
        locale,
        settings,
        peer,
        checked,
        failure,
        rest,
    ));
    if checked is Finished {
        assert(ending(locale, settings, peer, checked, failure, rest) == Some(
            checked->Finished_preparation,
        ));
    } else {
        let woken = advanced(
            locale,
            settings,
            peer,
            PhaseView::Waking,
            EventView::Wake { failure },
        ).0;
        assert(ending(locale, settings, peer, checked, failure, rest) == ending(
            locale,
            settings,
            peer,
            woken,
            failure,
            rest,
        ));
        if woken is Finished {
            assert(ending(locale, settings, peer, woken, failure, rest) == Some(
                woken->Finished_preparation,
            ));
        } else {
            lemma_waiting(locale, settings, peer, attempts, 0, failure, rest);
            if exists|i: int| 1 <= i <= attempts && #[trigger] replies[i] {
                let i = choose|i: int| 1 <= i <= attempts && #[trigger] replies[i];
                assert(rest[i - 1]);
            }
            if exists|i: int| 0 <= i < attempts && #[trigger] rest[i] {
                let i = choose|i: int| 0 <= i < attempts && #[trigger] rest[i];
                assert(replies[i + 1]);
            }
        }
    }
}

proof fn lemma_waiting(
    locale: UiLocale,
    settings: AppSettings,
    peer: HostRoute,
    attempts: u64,
    made: u64,
    failure: Option<Seq<char>>,
    replies: Seq<bool>,
)
    requires
        made < attempts,
        replies.len() == attempts - made,
    ensures
        ending(locale, settings, peer, PhaseView::Waiting { attempts, made }, failure, replies) == Some(
            if exists|i: int| 0 <= i < attempts - made && #[trigger] replies[i] {
                PreparationView::Ready { wake_sent: true }
            } else {
                PreparationView::Unavailable {
                    wake_sent: true,
                    reason: no_reply_reason(locale, peer.name@, attempts),
                }
            },
        ),
    decreases attempts - made,
{
    let rest = replies.skip(1);
    let next = advanced(
        locale,
        settings,
        peer,
        PhaseView::Waiting { attempts, made },
        EventView::Reply { ready: replies[0] },
    ).0;
    if replies[0] || made + 1 == attempts {
        assert(next is Finished);
        assert(ending(locale, settings, peer, next, failure, rest) == Some(next->Finished_preparation));
    } else {
        lemma_waiting(locale, settings, peer, attempts, (made + 1) as u64, failure, rest);
        if exists|i: int| 0 <= i < attempts - made && #[trigger] replies[i] {
            let i = choose|i: int| 0 <= i < attempts - made && #[trigger] replies[i];
            assert(rest[i - 1]);
        }
        if exists|i: int| 0 <= i < rest.len() && #[trigger] rest[i] {
            let i = choose|i: int| 0 <= i < rest.len() && #[trigger] rest[i];
            assert(replies[i + 1]);
        }
    }
}

/// A host that answers at once is not woken. Any other is said to be woken exactly where the wake
/// signal could be sent, whatever comes of it.
pub proof fn only_a_silent_host_is_woken(
    locale: UiLocale,
    settings: AppSettings,
    peer: HostRoute,
    failure: Option<Seq<char>>,
    replies: Seq<bool>,
)
    ensures
        ({
            let answered = settings.shared_key@.len() >= MIN_SHARED_KEY_LENGTH && replies[0];
            prepared(locale, settings, peer, failure, replies).peer_woken() == (!answered
                && failure is None)
        }),
{
}

} // verus!
