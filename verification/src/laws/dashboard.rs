//! Laws of what the main window shows.

use crate::dashboard::{
    get_dashboard_state, monitor_status, refresh_dashboard, selection_notice, DashboardRefresh,
    DashboardState,
};
use crate::domain::MonitorDescriptor;
use crate::error::DisplayMuxError;
use crate::laws::selection::{is_among, lemma_among, lemma_inventory, lemma_not_among, listing, picked};
use crate::locale::{core_user_error, UiLocale};
use crate::port::MonitorControl;
use crate::selection::{is_inventory, MonitorInventory, MonitorSelectionChange};
use crate::settings::AppSettings;
use vstd::prelude::*;

verus! {

/// Whether a text holds another one.
pub open spec fn holds(text: Seq<char>, part: Seq<char>) -> bool {
    exists|before: Seq<char>, after: Seq<char>| text == #[trigger] (before + part + after)
}

/// A text with another one in it, or at an end of it, holds it.
pub proof fn lemma_holds(before: Seq<char>, part: Seq<char>, after: Seq<char>)
    ensures
        holds(before + part + after, part),
        holds(part + after, part),
        holds(before + part, part),
{
    let none = Seq::<char>::empty();
    assert(part + after =~= none + part + after);
    assert(before + part =~= before + part + none);
}

/// The window shows the controllable displays; that the shared one can be switched exactly where it
/// is among them; and that other hosts can ask this one exactly where the password is long enough.
pub proof fn window_shows_what_can_be_controlled(
    locale: UiLocale,
    platform: &str,
    settings: AppSettings,
    inventory: MonitorInventory,
    change: Option<MonitorSelectionChange>,
    state: DashboardState,
    status: String,
)
    requires
        call_ensures(
            get_dashboard_state,
            (locale, platform, &settings, Ok::<_, DisplayMuxError>(inventory), &change),
            state,
        ),
        call_ensures(monitor_status, (locale, &settings, &inventory), status),
    ensures
        state.platform@ == platform@,
        state.local_host == settings.local_host,
        state.monitors@ == inventory.controllable@,
        state.ddc_available <==> is_among(settings.shared_monitor, inventory.controllable@),
        state.agent_configured <==> settings.shared_key@.len() >= 8,
        state.monitor_status@ == status@,
{
    if let Some(selected) = settings.shared_monitor {
        if is_among(settings.shared_monitor, inventory.controllable@) {
            lemma_among(selected, inventory.controllable@);
        } else {
            lemma_not_among(selected, inventory.controllable@);
        }
    }
}

/// Where the displays cannot be listed, the window shows none and says why.
pub proof fn window_says_why_nothing_is_listed(
    locale: UiLocale,
    platform: &str,
    settings: AppSettings,
    failure: DisplayMuxError,
    change: Option<MonitorSelectionChange>,
    state: DashboardState,
    told: String,
)
    requires
        call_ensures(
            get_dashboard_state,
            (locale, platform, &settings, Err::<MonitorInventory, _>(failure), &change),
            state,
        ),
        call_ensures(core_user_error, (locale, &failure), told),
    ensures
        state.monitors@.len() == 0,
        !state.ddc_available,
        state.monitor_status@ == told@,
{
    if let Some(selected) = settings.shared_monitor {
        assert(!is_among(settings.shared_monitor, state.monitors@));
        lemma_not_among(selected, state.monitors@);
    }
}

/// The state of the shared display in words: it goes by whether one is selected, whether it can be
/// controlled, whether it is connected, and whether any display can be controlled; and it names the
/// selected display, except where there is none to speak of.
pub proof fn status_tells_the_states_apart(
    locale: UiLocale,
    settings: AppSettings,
    inventory: MonitorInventory,
    status: String,
)
    requires
        call_ensures(monitor_status, (locale, &settings, &inventory), status),
    ensures
        ({
            let selected = settings.shared_monitor;
            let english = locale == UiLocale::English;
            let found = is_among(selected, inventory.controllable@);
            let seen = is_among(selected, inventory.detected@);
            match selected {
                None => english ==> status@
                    == "No shared display is selected; no display will be controlled"@,
                Some(monitor) => {
                    &&& found || seen || inventory.controllable@.len() > 0 ==> holds(
                        status@,
                        monitor.name@,
                    )
                    &&& english && found ==> status@ == "Shared display locked: "@ + monitor.name@
                    &&& english && !found && seen ==> status@ == monitor.name@
                        + " was detected, but its DDC/CI input cannot be read"@
                    &&& english && !found && !seen && inventory.controllable@.len() == 0 ==> status@
                        == "No DDC/CI display is currently available"@
                    &&& english && !found && !seen && inventory.controllable@.len() > 0 ==> status@
                        == "Previously selected shared display was not found: "@ + monitor.name@
                    &&& !english && found ==> status@ == "已鎖定共用螢幕："@ + monitor.name@
                    &&& !english && !found && seen ==> status@ == "已偵測到 "@ + monitor.name@
                        + "，但目前無法讀取 DDC/CI 輸入"@
                },
            }
        }),
{
    if let Some(selected) = settings.shared_monitor {
        if is_among(settings.shared_monitor, inventory.controllable@) {
            lemma_among(selected, inventory.controllable@);
        } else {
            lemma_not_among(selected, inventory.controllable@);
        }
        if is_among(settings.shared_monitor, inventory.detected@) {
            lemma_among(selected, inventory.detected@);
        } else {
            lemma_not_among(selected, inventory.detected@);
        }
        let name = selected.name@;
        lemma_holds("已鎖定共用螢幕："@, name, Seq::empty());
        lemma_holds("Shared display locked: "@, name, Seq::empty());
        lemma_holds("已偵測到 "@, name, "，但目前無法讀取 DDC/CI 輸入"@);
        lemma_holds(
            Seq::empty(),
            name,
            " was detected, but its DDC/CI input cannot be read"@,
        );
        lemma_holds("找不到先前選擇的共用螢幕："@, name, Seq::empty());
        lemma_holds("Previously selected shared display was not found: "@, name, Seq::empty());
    }
}

/// The user is told of a display that was selected automatically, by name, and of the one before;
/// a new description is not worth telling.
pub proof fn automatic_selection_is_told(
    locale: UiLocale,
    change: MonitorSelectionChange,
    notice: Option<String>,
)
    requires
        call_ensures(selection_notice, (locale, &change), notice),
    ensures
        match change {
            MonitorSelectionChange::SelectedOnlyMonitor { name } => notice matches Some(text)
                && holds(text@, name@),
            MonitorSelectionChange::ReplacedMissingMonitor { previous, replacement } => {
                notice matches Some(text) && exists|a: Seq<char>, b: Seq<char>|
                    b.len() > 0 && text@ == #[trigger] (a + previous@ + b + replacement@)
            },
            MonitorSelectionChange::RefreshedMetadata => notice is None,
        },
{
    reveal_strlit(" 已消失；已安全更新為唯一可控制的 ");
    reveal_strlit(" disappeared; safely selected the only controllable display, ");
    match change {
        MonitorSelectionChange::SelectedOnlyMonitor { name } => {
            lemma_holds(
                "已自動選取唯一可控制的 DDC/CI 螢幕："@,
                name@,
                Seq::empty(),
            );
            lemma_holds(
                "Automatically selected the only controllable DDC/CI display: "@,
                name@,
                Seq::empty(),
            );
        },
        _ => {},
    }
}

/// A refresh shows the displays as they are listed, and keeps the settings where they cannot be.
pub proof fn refresh_shows_the_listed_displays<C: MonitorControl>(
    locale: UiLocale,
    platform: &str,
    control: C,
    settings: &mut AppSettings,
    refreshed: DashboardRefresh,
    detected: Vec<MonitorDescriptor>,
    flags: Seq<bool>,
)
    requires
        call_ensures(
            refresh_dashboard::<C>,
            (locale, platform, Ok::<C, DisplayMuxError>(control), settings),
            refreshed,
        ),
        listing(control, detected, flags),
    ensures
        refreshed.state.monitors@ == picked(detected@, flags),
        refreshed.state.ddc_available <==> is_among(
            final(settings).shared_monitor,
            picked(detected@, flags),
        ),
        final(settings).shared_key == old(settings).shared_key,
        final(settings).peers@.len() == old(settings).peers@.len(),
{
    let inventory = choose|inventory: Result<MonitorInventory, DisplayMuxError>|
        #[trigger] is_inventory(control, inventory) && crate::dashboard::refreshes(
            locale,
            platform@,
            control,
            inventory,
            *old(settings),
            *final(settings),
            refreshed,
        );
    lemma_inventory(control, inventory, detected, flags);
    if let Some(selected) = final(settings).shared_monitor {
        let controllable = picked(detected@, flags);
        if is_among(Some(selected), controllable) {
            lemma_among(selected, controllable);
        } else {
            lemma_not_among(selected, controllable);
        }
    }
}

/// Without a controller a refresh changes no setting.
pub proof fn refresh_without_a_controller_changes_nothing<C: MonitorControl>(
    locale: UiLocale,
    platform: &str,
    failure: DisplayMuxError,
    settings: &mut AppSettings,
    refreshed: DashboardRefresh,
)
    requires
        call_ensures(
            refresh_dashboard::<C>,
            (locale, platform, Err::<C, _>(failure), settings),
            refreshed,
        ),
    ensures
        *final(settings) == *old(settings),
        refreshed.change is None,
        refreshed.state.monitors@.len() == 0,
{
}

} // verus!
