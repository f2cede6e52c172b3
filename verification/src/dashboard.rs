//! What the main window shows of the displays and of this host.

use crate::domain::{optional_text, DestinationHost, MonitorDescriptor};
use crate::error::{error_message, DisplayMuxError};
use crate::locale::{core_user_error, localized, ui_text, UiLocale};
use crate::port::MonitorControl;
use crate::selection::{
    clear_peer_inputs, find_matching, first_matching, is_inventory, monitor_inventory,
    reconcile_monitor_selection, reconciled, records_input_data, refresh_selected_input_data,
    selects_another, without_inputs, MonitorInventory, MonitorSelectionChange,
};
use crate::settings::{
    has_valid_shared_key, AppSettings, SelectedMonitor, MIN_SHARED_KEY_LENGTH,
};
use crate::text::{join2, join3};
use vstd::prelude::*;

verus! {

// ---------------------------------------------------------------------------
// Following the connected displays

/// Settings after the selection was brought in line with the connected displays, before the
/// inputs of the selected display are read. Where another display was selected, the inputs of
/// the paired hosts are forgotten.
pub open spec fn is_reconciled(
    before: AppSettings,
    inventory: MonitorInventory,
    after: AppSettings,
    change: Option<MonitorSelectionChange>,
) -> bool {
    &&& (after.shared_monitor, change) == reconciled(
        before.shared_monitor,
        inventory.detected@,
        inventory.controllable@,
    )
    &&& after == AppSettings {
        shared_monitor: after.shared_monitor,
        peers: after.peers,
        ..before
    }
    &&& after.peers@ == if selects_another(change) {
        without_inputs(before.peers@)
    } else {
        before.peers@
    }
}

/// The display among `monitors` that is selected.
pub open spec fn selected_among(
    selected: Option<SelectedMonitor>,
    monitors: Seq<MonitorDescriptor>,
) -> Option<MonitorDescriptor> {
    match selected {
        Some(selected) => first_matching(monitors, selected.fingerprint@),
        None => None,
    }
}

/// What following the connected displays may make of settings.
pub open spec fn follows_monitors<C: MonitorControl>(
    controller: Option<&C>,
    inventory: MonitorInventory,
    before: AppSettings,
    after: AppSettings,
    change: Option<MonitorSelectionChange>,
) -> bool {
    exists|picked: AppSettings|
        {
            &&& #[trigger] is_reconciled(before, inventory, picked, change)
            &&& match (change, controller, selected_among(
                picked.shared_monitor,
                inventory.controllable@,
            )) {
                (Some(_), Some(controller), Some(monitor)) => exists|
                    done: Result<(), DisplayMuxError>,
                | #[trigger]
                    records_input_data(*controller, monitor.id, picked, after, done),
                _ => after == picked,
            }
        }
}

fn find_selected<'a>(
    selected: &Option<SelectedMonitor>,
    monitors: &'a [MonitorDescriptor],
) -> (found: Option<&'a MonitorDescriptor>)
    ensures
        match found {
            Some(monitor) => selected_among(*selected, monitors@) == Some(*monitor),
            None => selected_among(*selected, monitors@) is None,
        },
{
    match selected {
        Some(selected) => find_matching(monitors, &selected.fingerprint),
        None => None,
    }
}

/// Brings settings in line with the connected displays. If the selection changed, the inputs of
/// the selected display are recorded, as far as they can be read, and the settings have to be
/// stored. The controller may be missing.
pub fn follow_monitors<C: MonitorControl>(
    controller: Option<&C>,
    inventory: &MonitorInventory,
    settings: &mut AppSettings,
) -> (change: Option<MonitorSelectionChange>)
    ensures
        follows_monitors(controller, *inventory, *old(settings), *final(settings), change),
{
    let change = reconcile_monitor_selection(
        settings,
        &inventory.detected,
        &inventory.controllable,
    );
    let another = match &change {
        None => false,
        Some(MonitorSelectionChange::RefreshedMetadata) => false,
        Some(_) => true,
    };
    if another {
        clear_peer_inputs(settings);
    }
    let ghost picked = *settings;
    assert(is_reconciled(*old(settings), *inventory, picked, change));
    if change.is_some() {
        if let Some(controller) = controller {
            let found = find_selected(&settings.shared_monitor, &inventory.controllable);
            if let Some(monitor) = found {
                let _done = refresh_selected_input_data(controller, monitor, settings);
                assert(records_input_data(*controller, monitor.id, picked, *settings, _done));
            }
        }
    }
    change
}

// ---------------------------------------------------------------------------
// The dashboard

/// What the main window shows.
#[derive(Debug)]
pub struct DashboardState {
    pub platform: String,
    pub local_host: DestinationHost,
    pub agent_configured: bool,
    pub ddc_available: bool,
    pub monitor_status: String,
    pub selection_notice: Option<String>,
    pub monitors: Vec<MonitorDescriptor>,
}

/// What the user is told of a change of the selection.
pub open spec fn notice_text(locale: UiLocale, change: MonitorSelectionChange) -> Option<Seq<char>> {
    match change {
        MonitorSelectionChange::SelectedOnlyMonitor { name } => Some(
            localized(
                locale,
                "已自動選取唯一可控制的 DDC/CI 螢幕："@ + name@,
                "Automatically selected the only controllable DDC/CI display: "@ + name@,
            ),
        ),
        MonitorSelectionChange::ReplacedMissingMonitor { previous, replacement } => Some(
            localized(
                locale,
                "先前選取的 "@ + previous@ + " 已消失；已安全更新為唯一可控制的 "@ + replacement@,
                "Previously selected "@ + previous@
                    + " disappeared; safely selected the only controllable display, "@
                    + replacement@,
            ),
        ),
        MonitorSelectionChange::RefreshedMetadata => None,
    }
}

/// Tells the user of a change of the selection, if it is worth telling.
pub fn selection_notice(locale: UiLocale, change: &MonitorSelectionChange) -> (notice: Option<
    String,
>)
    ensures
        match notice {
            Some(text) => notice_text(locale, *change) == Some(text@),
            None => notice_text(locale, *change) is None,
        },
{
    match change {
        MonitorSelectionChange::SelectedOnlyMonitor { name } => Some(
            join2(
                ui_text(
                    locale,
                    "已自動選取唯一可控制的 DDC/CI 螢幕：",
                    "Automatically selected the only controllable DDC/CI display: ",
                ),
                name.as_str(),
            ),
        ),
        MonitorSelectionChange::ReplacedMissingMonitor { previous, replacement } => {
            let head = join3(
                ui_text(locale, "先前選取的 ", "Previously selected "),
                previous.as_str(),
                ui_text(
                    locale,
                    " 已消失；已安全更新為唯一可控制的 ",
                    " disappeared; safely selected the only controllable display, ",
                ),
            );
            Some(join2(head.as_str(), replacement.as_str()))
        },
        MonitorSelectionChange::RefreshedMetadata => None,
    }
}

/// The state of the shared display in words.
pub open spec fn status_text(
    locale: UiLocale,
    selected: Option<SelectedMonitor>,
    detected: Seq<MonitorDescriptor>,
    controllable: Seq<MonitorDescriptor>,
) -> Seq<char> {
    match selected {
        None => localized(
            locale,
            "尚未選擇共用螢幕；目前不會控制任何螢幕"@,
            "No shared display is selected; no display will be controlled"@,
        ),
        Some(monitor) => if selected_among(selected, controllable) is Some {
            localized(
                locale,
                "已鎖定共用螢幕："@ + monitor.name@,
                "Shared display locked: "@ + monitor.name@,
            )
        } else if selected_among(selected, detected) is Some {
            localized(
                locale,
                "已偵測到 "@ + monitor.name@ + "，但目前無法讀取 DDC/CI 輸入"@,
                monitor.name@ + " was detected, but its DDC/CI input cannot be read"@,
            )
        } else if controllable.len() == 0 {
            localized(
                locale,
                "目前沒有可用的 DDC/CI 顯示器"@,
                "No DDC/CI display is currently available"@,
            )
        } else {
            localized(
                locale,
                "找不到先前選擇的共用螢幕："@ + monitor.name@,
                "Previously selected shared display was not found: "@ + monitor.name@,
            )
        },
    }
}

/// Puts the state of the shared display into words.
pub fn monitor_status(locale: UiLocale, settings: &AppSettings, inventory: &MonitorInventory) -> (status:
    String)
    ensures
        status@ == status_text(
            locale,
            settings.shared_monitor,
            inventory.detected@,
            inventory.controllable@,
        ),
{
    let selected = match &settings.shared_monitor {
        Some(selected) => selected,
        None => {
            return ui_text(
                locale,
                "尚未選擇共用螢幕；目前不會控制任何螢幕",
                "No shared display is selected; no display will be controlled",
            ).to_owned();
        },
    };
    let name = selected.name.as_str();
    if find_matching(&inventory.controllable, &selected.fingerprint).is_some() {
        join2(ui_text(locale, "已鎖定共用螢幕：", "Shared display locked: "), name)
    } else if find_matching(&inventory.detected, &selected.fingerprint).is_some() {
        match locale {
            UiLocale::TraditionalChinese => join3(
                "已偵測到 ",
                name,
                "，但目前無法讀取 DDC/CI 輸入",
            ),
            UiLocale::English => join2(
                name,
                " was detected, but its DDC/CI input cannot be read",
            ),
        }
    } else if inventory.controllable.len() == 0 {
        ui_text(
            locale,
            "目前沒有可用的 DDC/CI 顯示器",
            "No DDC/CI display is currently available",
        ).to_owned()
    } else {
        join2(
            ui_text(
                locale,
                "找不到先前選擇的共用螢幕：",
                "Previously selected shared display was not found: ",
            ),
            name,
        )
    }
}

/// What the main window shows for settings, an inventory of the displays and a change of the
/// selection. Without an inventory the failure stands in place of the state of the display.
pub open spec fn shows(
    locale: UiLocale,
    platform: Seq<char>,
    settings: AppSettings,
    inventory: Result<MonitorInventory, DisplayMuxError>,
    change: Option<MonitorSelectionChange>,
    state: DashboardState,
) -> bool {
    &&& state.platform@ == platform
    &&& state.local_host == settings.local_host
    &&& state.agent_configured == (settings.shared_key@.len() >= MIN_SHARED_KEY_LENGTH)
    &&& state.ddc_available == selected_among(settings.shared_monitor, state.monitors@) is Some
    &&& match inventory {
        Ok(inventory) => {
            &&& state.monitors@ == inventory.controllable@
            &&& state.monitor_status@ == status_text(
                locale,
                settings.shared_monitor,
                inventory.detected@,
                inventory.controllable@,
            )
        },
        Err(error) => {
            &&& state.monitors@.len() == 0
            &&& state.monitor_status@ == error_message(
                error@,
                locale == UiLocale::TraditionalChinese,
            )
        },
    }
    &&& optional_text(state.selection_notice) == match change {
        Some(change) => notice_text(locale, change),
        None => None,
    }
}

/// Puts together what the main window shows, from the settings, the displays and the change of
/// the selection.
pub fn get_dashboard_state(
    locale: UiLocale,
    platform: &str,
    settings: &AppSettings,
    inventory: Result<MonitorInventory, DisplayMuxError>,
    change: &Option<MonitorSelectionChange>,
) -> (state: DashboardState)
    ensures
        shows(locale, platform@, *settings, inventory, *change, state),
{
    let notice = match change {
        Some(change) => selection_notice(locale, change),
        None => None,
    };
    let (monitors, status) = match inventory {
        Ok(inventory) => {
            let status = monitor_status(locale, settings, &inventory);
            (inventory.controllable, status)
        },
        Err(error) => (Vec::new(), core_user_error(locale, &error)),
    };
    let ddc_available = find_selected(&settings.shared_monitor, &monitors).is_some();
    DashboardState {
        platform: platform.to_owned(),
        local_host: settings.local_host,
        agent_configured: has_valid_shared_key(settings.shared_key.as_str()),
        ddc_available,
        monitor_status: status,
        selection_notice: notice,
        monitors,
    }
}

/// What looking at the displays may make of settings, and what the window then shows. Settings
/// and window go by the same inventory. Without one the settings stay as they are.
pub open spec fn refreshes<C: MonitorControl>(
    locale: UiLocale,
    platform: Seq<char>,
    controller: C,
    inventory: Result<MonitorInventory, DisplayMuxError>,
    before: AppSettings,
    after: AppSettings,
    refreshed: DashboardRefresh,
) -> bool {
    &&& match inventory {
        Ok(inventory) => follows_monitors(
            Some(&controller),
            inventory,
            before,
            after,
            refreshed.change,
        ),
        Err(_) => after == before && refreshed.change is None,
    }
    &&& shows(locale, platform, after, inventory, refreshed.change, refreshed.state)
}

/// What the main window shows after a look at the displays, and how the selection changed. If it
/// did, the settings have to be stored.
#[derive(Debug)]
pub struct DashboardRefresh {
    pub state: DashboardState,
    pub change: Option<MonitorSelectionChange>,
}

/// Looks at the displays of the platform, brings the settings in line with them, and puts together
/// what the main window shows.
pub fn refresh_dashboard<C: MonitorControl>(
    locale: UiLocale,
    platform: &str,
    controller: Result<C, DisplayMuxError>,
    settings: &mut AppSettings,
) -> (refreshed: DashboardRefresh)
    ensures
        match controller {
            Ok(controller) => exists|inventory: Result<MonitorInventory, DisplayMuxError>|
                #[trigger] is_inventory(controller, inventory) && refreshes(
                    locale,
                    platform@,
                    controller,
                    inventory,
                    *old(settings),
                    *final(settings),
                    refreshed,
                ),
            Err(error) => {
                &&& *final(settings) == *old(settings)
                &&& refreshed.change is None
                &&& shows(
                    locale,
                    platform@,
                    *final(settings),
                    Err(error),
                    None,
                    refreshed.state,
                )
            },
        },
{
    let controller = match controller {
        Ok(controller) => controller,
        Err(error) => {
            let change: Option<MonitorSelectionChange> = None;
            let state = get_dashboard_state(locale, platform, settings, Err(error), &change);
            return DashboardRefresh { state, change };
        },
    };
    let listed = monitor_inventory(&controller);
    let ghost inventory = listed;
    assert(is_inventory(controller, inventory));
    let change = match &listed {
        Ok(displays) => follow_monitors(Some(&controller), displays, settings),
        Err(_) => None,
    };
    let state = get_dashboard_state(locale, platform, settings, listed, &change);
    DashboardRefresh { state, change }
}

} // verus!
