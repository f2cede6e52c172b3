//! Settings on their way from and to the disk, and from the user interface.

use crate::domain::{DestinationHost, DisplayInput};
use crate::error::error_message;
use crate::json::{has_member, json_document, json_members, parse_json};
use crate::locale::{core_user_error, UiLocale};
use crate::network::DEFAULT_AGENT_PORT;
use crate::settings::{
    are_address_checks, assigned_inputs, check_addresses, peer_inputs, settings_fault,
    settings_for_current_build, validate_settings, AddressChecks, AppSettings, HostRoute,
};
use crate::text::same_text;
use vstd::prelude::*;

verus! {

// ---------------------------------------------------------------------------
// File formats

/// What a settings file holds.
#[derive(Clone, Copy, Debug, PartialEq, Eq, Structural)]
pub enum SettingsFormat {
    /// Nothing that can be read.
    Unreadable,
    /// The settings of this host with any number of paired hosts.
    Current,
    /// The settings of one of exactly two hosts.
    Legacy,
}

/// The format of a document with the given member names: the current one if it has a shared
/// display or a list of hosts.
pub open spec fn format_of(document: Option<Set<Seq<char>>>) -> SettingsFormat {
    match document {
        None => SettingsFormat::Unreadable,
        Some(members) => if members.contains("sharedMonitor"@) || members.contains("peers"@) {
            SettingsFormat::Current
        } else {
            SettingsFormat::Legacy
        },
    }
}

/// The format of a document that was read, by whether it has each of two members.
pub fn format_by_members(has_shared_monitor: bool, has_peers: bool) -> (format: SettingsFormat)
    ensures
        format == if has_shared_monitor || has_peers {
            SettingsFormat::Current
        } else {
            SettingsFormat::Legacy
        },
{
    if has_shared_monitor || has_peers {
        SettingsFormat::Current
    } else {
        SettingsFormat::Legacy
    }
}

/// Reads a settings file as far as its format: the document that it holds, and which format that
/// is. `None` where it holds none.
pub fn settings_document(contents: &str) -> (document: Option<(serde_json::Value, SettingsFormat)>)
    ensures
        match document {
            Some((value, format)) => {
                &&& json_document(contents@) == Some(json_members(value))
                &&& format == format_of(json_document(contents@))
            },
            None => json_document(contents@) is None,
        },
{
    match parse_json(contents) {
        Ok(value) => {
            let format = format_by_members(
                has_member(&value, "sharedMonitor"),
                has_member(&value, "peers"),
            );
            Some((value, format))
        },
        Err(_) => None,
    }
}

/// Tells the format of a settings file.
pub fn settings_format(contents: &str) -> (format: SettingsFormat)
    ensures
        format == format_of(json_document(contents@)),
{
    match settings_document(contents) {
        Some((_, format)) => format,
        None => SettingsFormat::Unreadable,
    }
}

// ---------------------------------------------------------------------------
// The two-host format

/// Settings in the format that knew exactly two hosts.
#[derive(Clone, Debug)]
pub struct LegacySettings {
    pub local_host: DestinationHost,
    pub peer_id: String,
    pub peer_name: String,
    pub peer_ip: String,
    pub peer_port: u16,
    pub peer_mac: String,
    pub broadcast_ip: String,
    pub wake_port: u16,
    pub shared_key: String,
    pub wait_seconds: u64,
    pub autostart: bool,
    pub check_updates: bool,
}

/// The earlier settings with every value left at its default.
pub open spec fn is_legacy_default(settings: LegacySettings, local_host: DestinationHost) -> bool {
    &&& settings.local_host == local_host
    &&& settings.peer_id@.len() == 0
    &&& settings.peer_name@.len() == 0
    &&& settings.peer_ip@.len() == 0
    &&& settings.peer_port == DEFAULT_AGENT_PORT
    &&& settings.peer_mac@.len() == 0
    &&& settings.broadcast_ip@ == "255.255.255.255"@
    &&& settings.wake_port == 9
    &&& settings.shared_key@.len() == 0
    &&& settings.wait_seconds == 45
    &&& settings.autostart
    &&& settings.check_updates
}

impl LegacySettings {
    /// The earlier settings with every value left at its default.
    pub fn for_host(local_host: DestinationHost) -> (settings: LegacySettings)
        ensures
            is_legacy_default(settings, local_host),
    {
        LegacySettings {
            local_host,
            peer_id: String::new(),
            peer_name: String::new(),
            peer_ip: String::new(),
            peer_port: DEFAULT_AGENT_PORT,
            peer_mac: String::new(),
            broadcast_ip: "255.255.255.255".to_owned(),
            wake_port: 9,
            shared_key: String::new(),
            wait_seconds: 45,
            autostart: true,
            check_updates: true,
        }
    }
}

/// The defaults on a computer that is not a Mac. Those of a Mac are [`LegacySettings::for_host`]
/// of it.
impl Default for LegacySettings {
    fn default() -> (settings: Self)
        ensures
            is_legacy_default(settings, DestinationHost::Windows),
    {
        LegacySettings::for_host(DestinationHost::Windows)
    }
}

/// The input of a host of a given kind in the two-host format.
pub open spec fn legacy_input(host: DestinationHost) -> DisplayInput {
    match host {
        DestinationHost::Windows => DisplayInput { code: 0x0f },
        DestinationHost::Mac => DisplayInput { code: 0x11 },
    }
}

/// The other kind of host.
pub open spec fn other_host(host: DestinationHost) -> DestinationHost {
    match host {
        DestinationHost::Windows => DestinationHost::Mac,
        DestinationHost::Mac => DestinationHost::Windows,
    }
}

/// Settings that carry `legacy` over. The two-host format does not hold which display is shared,
/// so none is selected. The other host is paired if its id and its address are known.
pub open spec fn is_migrated(legacy: LegacySettings, settings: AppSettings) -> bool {
    &&& settings == AppSettings {
        local_host: legacy.local_host,
        shared_monitor: None,
        local_input: Some(legacy_input(legacy.local_host)),
        supported_inputs: None,
        peers: settings.peers,
        broadcast_ip: legacy.broadcast_ip,
        wake_port: legacy.wake_port,
        shared_key: legacy.shared_key,
        wait_seconds: legacy.wait_seconds,
        autostart: legacy.autostart,
        check_updates: legacy.check_updates,
    }
    &&& settings.peers@ == if legacy.peer_id@.len() == 0 || legacy.peer_ip@.len() == 0 {
        Seq::empty()
    } else {
        seq![
            HostRoute {
                id: legacy.peer_id,
                name: legacy.peer_name,
                platform: other_host(legacy.local_host),
                address: legacy.peer_ip,
                port: legacy.peer_port,
                mac_address: legacy.peer_mac,
                input: Some(legacy_input(other_host(legacy.local_host))),
            },
        ]
    }
}

/// Carries settings in the two-host format over.
pub fn migrate_legacy_settings(legacy: LegacySettings) -> (settings: AppSettings)
    ensures
        is_migrated(legacy, settings),
{
    let local_input = DisplayInput::new(
        match legacy.local_host {
            DestinationHost::Windows => 0x0f,
            DestinationHost::Mac => 0x11,
        },
    ).ok();
    let peer_input = DisplayInput::new(
        match legacy.local_host {
            DestinationHost::Windows => 0x11,
            DestinationHost::Mac => 0x0f,
        },
    ).ok();
    let mut peers: Vec<HostRoute> = Vec::new();
    if !legacy.peer_id.as_str().is_empty() && !legacy.peer_ip.as_str().is_empty() {
        peers.push(
            HostRoute {
                id: legacy.peer_id,
                name: legacy.peer_name,
                platform: match legacy.local_host {
                    DestinationHost::Windows => DestinationHost::Mac,
                    DestinationHost::Mac => DestinationHost::Windows,
                },
                address: legacy.peer_ip,
                port: legacy.peer_port,
                mac_address: legacy.peer_mac,
                input: peer_input,
            },
        );
    }
    AppSettings {
        local_host: legacy.local_host,
        shared_monitor: None,
        local_input,
        supported_inputs: None,
        peers,
        broadcast_ip: legacy.broadcast_ip,
        wake_port: legacy.wake_port,
        shared_key: legacy.shared_key,
        wait_seconds: legacy.wait_seconds,
        autostart: legacy.autostart,
        check_updates: legacy.check_updates,
    }
}

/// Settings that were carried over assign valid inputs, and no input twice.
pub proof fn migrated_inputs_are_in_order(legacy: LegacySettings, settings: AppSettings)
    requires
        is_migrated(legacy, settings),
    ensures
        forall|i: int|
            0 <= i < assigned_inputs(settings).len() ==> (#[trigger] assigned_inputs(
                settings,
            )[i]).valid(),
        assigned_inputs(settings).no_duplicates(),
{
    reveal_with_fuel(peer_inputs, 2);
}

/// The two hosts of the two-host format have inputs that are valid and differ.
pub proof fn legacy_inputs_differ(host: DestinationHost)
    ensures
        legacy_input(host).valid(),
        legacy_input(host) != legacy_input(other_host(host)),
        other_host(other_host(host)) == host,
{
}

// ---------------------------------------------------------------------------
// Settings from the user interface

/// The settings to store when the user saves. The kind of this host, the shared display and
/// what was read from it stay as they are: the user interface cannot forge them.
pub open spec fn merged_settings(
    submitted: AppSettings,
    protected: AppSettings,
    development: bool,
) -> AppSettings {
    AppSettings {
        local_host: protected.local_host,
        shared_monitor: protected.shared_monitor,
        local_input: protected.local_input,
        supported_inputs: protected.supported_inputs,
        autostart: submitted.autostart && !development,
        ..submitted
    }
}

/// Puts together the settings to store when the user saves.
pub fn merge_saved_settings(submitted: AppSettings, protected: AppSettings, development: bool) -> (settings:
    AppSettings)
    ensures
        settings == merged_settings(submitted, protected, development),
{
    let mut settings = settings_for_current_build(submitted, development);
    settings.local_host = protected.local_host;
    settings.shared_monitor = protected.shared_monitor;
    settings.local_input = protected.local_input;
    settings.supported_inputs = protected.supported_inputs;
    settings
}

/// Whether settings that the user saves may be stored, and what is stored. `checks` speaks of the
/// addresses in the submitted settings.
pub open spec fn saves(
    locale: UiLocale,
    local_host: DestinationHost,
    submitted: AppSettings,
    protected: AppSettings,
    development: bool,
    checks: AddressChecks,
    saved: Result<AppSettings, String>,
) -> bool {
    let merged = merged_settings(submitted, protected, development);
    match (saved, settings_fault(locale, local_host, merged, checks)) {
        (Ok(saved), None) => saved == merged,
        (Err(text), Some(fault)) => text@ == error_message(
            fault,
            locale == UiLocale::TraditionalChinese,
        ),
        _ => false,
    }
}

/// Examines settings that the user saves, given which of their addresses are in order.
pub fn save_settings(
    locale: UiLocale,
    local_host: DestinationHost,
    submitted: AppSettings,
    protected: AppSettings,
    development: bool,
    checks: &AddressChecks,
) -> (saved: Result<AppSettings, String>)
    requires
        checks.peers@.len() == submitted.peers@.len(),
    ensures
        saves(locale, local_host, submitted, protected, development, *checks, saved),
{
    let merged = merge_saved_settings(submitted, protected, development);
    match validate_settings(locale, local_host, &merged, checks) {
        Ok(()) => Ok(merged),
        Err(error) => Err(core_user_error(locale, &error)),
    }
}

/// Examines settings that the user saves, their addresses with them.
pub fn submit_settings<A, B, F: Fn(&str) -> Option<A>, G: Fn(&str) -> Option<B>>(
    locale: UiLocale,
    local_host: DestinationHost,
    submitted: AppSettings,
    protected: AppSettings,
    development: bool,
    parse_ip: F,
    parse_ipv4: G,
) -> (saved: Result<AppSettings, String>)
    requires
        forall|text: &str| call_requires(parse_ip, (text,)),
        forall|text: &str| call_requires(parse_ipv4, (text,)),
    ensures
        exists|checks: AddressChecks|
            #[trigger] are_address_checks(submitted, parse_ip, parse_ipv4, checks) && saves(
                locale,
                local_host,
                submitted,
                protected,
                development,
                checks,
                saved,
            ),
{
    let ghost (given_ip, given_ipv4) = (parse_ip, parse_ipv4);
    let checks = check_addresses(&submitted, parse_ip, parse_ipv4);
    assert(are_address_checks(submitted, given_ip, given_ipv4, checks));
    save_settings(locale, local_host, submitted, protected, development, &checks)
}

/// What to do about the login item.
#[derive(Clone, Copy, Debug, PartialEq, Eq, Structural)]
pub enum AutostartChange {
    Keep,
    Enable,
    Disable,
}

/// What to do about the login item, given what the user wants and what there is.
pub fn autostart_change(wanted: bool, enabled: bool) -> (change: AutostartChange)
    ensures
        change == if wanted == enabled {
            AutostartChange::Keep
        } else if wanted {
            AutostartChange::Enable
        } else {
            AutostartChange::Disable
        },
{
    if wanted == enabled {
        AutostartChange::Keep
    } else if wanted {
        AutostartChange::Enable
    } else {
        AutostartChange::Disable
    }
}

/// What to do about the login item when the application starts, by the name of the operating
/// system: a development build is never one, and a Windows build that should be one refreshes it.
pub fn startup_autostart(os: &str, development: bool, autostart: bool) -> (change: AutostartChange)
    ensures
        change == if development {
            AutostartChange::Disable
        } else if os@ == "windows"@ && autostart {
            AutostartChange::Enable
        } else {
            AutostartChange::Keep
        },
{
    if development {
        AutostartChange::Disable
    } else if same_text(os, "windows") && autostart {
        AutostartChange::Enable
    } else {
        AutostartChange::Keep
    }
}

} // verus!
