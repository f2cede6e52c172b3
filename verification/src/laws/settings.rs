//! Laws of settings: when they are accepted, and what is stored.

use crate::domain::{DestinationHost, DisplayInput};
use crate::error::{DisplayMuxError, ErrorView};
use crate::locale::UiLocale;
use crate::network::is_mac_text;
use crate::settings::{
    all_supported, are_address_checks, assigned_inputs, check_addresses, first_route_fault, has_valid_shared_key,
    is_address_flag, lemma_peer_inputs, lemma_peer_inputs_grow, parses, peer_inputs, route_endpoint,
    settings_for_current_build, valid_settings_assign_each_input_once, validate_settings,
    AddressChecks, AppSettings, HostRoute,
};
use crate::stored::{
    autostart_change, format_by_members, merge_saved_settings, migrate_legacy_settings,
    save_settings, saves, submit_settings, AutostartChange, LegacySettings, SettingsFormat,
};
use crate::text::{is_white_space, trim, trim_end};
use vstd::prelude::*;

verus! {

// ---------------------------------------------------------------------------
// Validation

/// Whether a character is a hexadecimal digit.
pub open spec fn is_hex_digit(c: char) -> bool {
    '0' <= c <= '9' || 'a' <= c <= 'f' || 'A' <= c <= 'F'
}

/// Whether a text is six pairs of hexadecimal digits, with colons between them or with hyphens.
pub open spec fn is_six_pairs(text: Seq<char>) -> bool {
    &&& text.len() == 17
    &&& forall|k: int|
        0 <= k < 17 && k % 3 != 2 ==> is_hex_digit(#[trigger] text[k])
    &&& {
        ||| forall|k: int| 0 <= k < 17 && k % 3 == 2 ==> #[trigger] text[k] == ':'
        ||| forall|k: int| 0 <= k < 17 && k % 3 == 2 ==> #[trigger] text[k] == '-'
    }
}

/// Whether a text holds nothing but white space.
pub open spec fn is_all_blank(text: Seq<char>) -> bool {
    forall|i: int| 0 <= i < text.len() ==> is_white_space(#[trigger] text[i])
}

/// Whether an input may be assigned: its value is one byte and not zero.
pub open spec fn is_one_byte(input: Option<DisplayInput>) -> bool {
    input matches Some(input) ==> 1 <= input.code <= 255
}

/// Whether the inputs in settings are in order: each is one, no two hosts have the same, and a
/// display that names its inputs has each that is assigned to a paired host.
pub open spec fn inputs_in_order(settings: AppSettings) -> bool {
    let peers = settings.peers@;
    &&& is_one_byte(settings.local_input)
    &&& forall|i: int| 0 <= i < peers.len() ==> is_one_byte((#[trigger] peers[i]).input)
    &&& forall|i: int|
        0 <= i < peers.len() && (#[trigger] peers[i]).input is Some ==> peers[i].input
            != settings.local_input
    &&& forall|i: int, j: int|
        0 <= i < j < peers.len() && (#[trigger] peers[i]).input is Some ==> peers[i].input != (
        #[trigger] peers[j]).input
    &&& settings.supported_inputs matches Some(supported) ==> forall|i: int|
        0 <= i < peers.len() ==> ((#[trigger] peers[i]).input matches Some(input)
            ==> supported@.contains(input))
}

/// Whether a paired host can be reached: its address is one, and its hardware address is blank or
/// six pairs of hexadecimal digits.
pub open spec fn route_in_order(peer: HostRoute, has_address: bool) -> bool {
    has_address && (is_all_blank(peer.mac_address@) || is_six_pairs(peer.mac_address@))
}

/// Whether settings are in order.
pub open spec fn in_order(
    local_host: DestinationHost,
    settings: AppSettings,
    checks: AddressChecks,
) -> bool {
    &&& settings.local_host == local_host
    &&& inputs_in_order(settings)
    &&& forall|i: int|
        0 <= i < settings.peers@.len() ==> route_in_order(
            #[trigger] settings.peers@[i],
            checks.peers@[i],
        )
    &&& checks.broadcast
    &&& settings.shared_key@.len() == 0 || settings.shared_key@.len() >= 8
}

/// Six pairs of hexadecimal digits are a hardware address in text, and nothing else is.
pub proof fn lemma_six_pairs(text: Seq<char>)
    ensures
        is_six_pairs(text) <==> is_mac_text(text),
{
    if is_mac_text(text) {
        assert forall|k: int| 0 <= k < 17 && k % 3 != 2 implies is_hex_digit(#[trigger] text[k]) by {
        }
        if text[2] == ':' {
            assert forall|k: int| 0 <= k < 17 && k % 3 == 2 implies #[trigger] text[k] == ':' by {}
        } else {
            assert forall|k: int| 0 <= k < 17 && k % 3 == 2 implies #[trigger] text[k] == '-' by {}
        }
    }
    if is_six_pairs(text) {
        assert forall|k: int| 0 <= k < 17 implies if k % 3 == 2 {
            #[trigger] text[k] == text[2]
        } else {
            crate::network::hex_value(text[k]) is Some
        } by {
            if k % 3 != 2 {
                assert(is_hex_digit(text[k]));
            }
        }
    }
}

/// Trimming leaves nothing exactly of white space.
pub proof fn lemma_blank(text: Seq<char>)
    ensures
        trim(text).len() == 0 <==> is_all_blank(text),
    decreases text.len(),
{
    if text.len() > 0 && is_white_space(text[0]) {
        let rest = text.skip(1);
        lemma_blank(rest);
        assert(trim(text) == trim(rest));
        if is_all_blank(text) {
            assert forall|i: int| 0 <= i < rest.len() implies is_white_space(#[trigger] rest[i]) by {
                assert(rest[i] == text[i + 1]);
            }
        }
        if is_all_blank(rest) {
            assert forall|i: int| 0 <= i < text.len() implies is_white_space(#[trigger] text[i]) by {
                if i > 0 {
                    assert(rest[i - 1] == text[i]);
                }
            }
        }
    } else if text.len() > 0 {
        lemma_trim_end_keeps_first(text);
        assert(!is_white_space(text[0]));
    }
}

proof fn lemma_trim_end_keeps_first(text: Seq<char>)
    requires
        text.len() > 0,
        !is_white_space(text[0]),
    ensures
        trim_end(text).len() > 0,
    decreases text.len(),
{
    if is_white_space(text.last()) {
        assert(text.len() > 1);
        lemma_trim_end_keeps_first(text.drop_last());
    }
}

proof fn lemma_routes(locale: UiLocale, peers: Seq<HostRoute>, has_address: Seq<bool>)
    requires
        has_address.len() >= peers.len(),
    ensures
        first_route_fault(locale, peers, has_address) is None <==> forall|i: int|
            0 <= i < peers.len() ==> route_in_order(#[trigger] peers[i], has_address[i]),
    decreases peers.len(),
{
    if peers.len() > 0 {
        let rest = peers.drop_last();
        let last = peers.len() - 1;
        lemma_routes(locale, rest, has_address);
        lemma_blank(peers[last].mac_address@);
        lemma_six_pairs(peers[last].mac_address@);
        if first_route_fault(locale, peers, has_address) is None {
            assert forall|i: int| 0 <= i < peers.len() implies route_in_order(
                #[trigger] peers[i],
                has_address[i],
            ) by {
                if i < last {
                    assert(rest[i] == peers[i]);
                }
            }
        }
        if forall|i: int|
            0 <= i < peers.len() ==> route_in_order(#[trigger] peers[i], has_address[i]) {
            assert forall|i: int| 0 <= i < rest.len() implies route_in_order(
                #[trigger] rest[i],
                has_address[i],
            ) by {
                assert(rest[i] == peers[i]);
            }
            assert(route_in_order(peers[last], has_address[last]));
        }
    }
}

/// Every collected input is that of a paired host.
proof fn lemma_input_owner(peers: Seq<HostRoute>, position: int) -> (owner: int)
    requires
        0 <= position < peer_inputs(peers).len(),
    ensures
        0 <= owner < peers.len(),
        peers[owner].input == Some(peer_inputs(peers)[position]),
        position == peer_inputs(peers.take(owner)).len(),
    decreases peers.len(),
{
    let rest = peers.drop_last();
    let last = peers.len() - 1;
    if peers[last].input is Some && position == peer_inputs(peers).len() - 1 {
        assert(peers.take(last) == rest);
        last
    } else {
        let owner = lemma_input_owner(rest, position);
        assert(rest.take(owner) == peers.take(owner));
        owner
    }
}

proof fn lemma_inputs(settings: AppSettings)
    requires
        inputs_in_order(settings),
    ensures
        forall|i: int|
            0 <= i < assigned_inputs(settings).len() ==> (#[trigger] assigned_inputs(
                settings,
            )[i]).valid(),
        assigned_inputs(settings).no_duplicates(),
        settings.supported_inputs matches Some(supported) ==> all_supported(
            peer_inputs(settings.peers@),
            supported@,
        ),
{
    let peers = settings.peers@;
    let for_peers = peer_inputs(peers);
    let assigned = assigned_inputs(settings);
    let offset: int = if settings.local_input is Some {
        1
    } else {
        0
    };
    assert forall|i: int| 0 <= i < assigned.len() implies (#[trigger] assigned[i]).valid() by {
        if i >= offset {
            let owner = lemma_input_owner(peers, i - offset);
            assert(is_one_byte(peers[owner].input));
        }
    }
    assert forall|i: int, j: int| 0 <= i < j < assigned.len() implies assigned[i] != assigned[j] by {
        let b = lemma_input_owner(peers, j - offset);
        assert(peers[b].input is Some);
        if i >= offset {
            let a = lemma_input_owner(peers, i - offset);
            if a == b {
            } else if b < a {
                lemma_peer_inputs_grow(peers, b, a);
            }
            assert(a < b);
            assert(peers[a].input is Some);
        }
    }
    if let Some(supported) = settings.supported_inputs {
        assert forall|i: int| 0 <= i < for_peers.len() implies supported@.contains(
            #[trigger] for_peers[i],
        ) by {
            let owner = lemma_input_owner(peers, i);
            assert(peers[owner].input is Some);
        }
    }
}

/// Settings are accepted exactly where they are in order: the host kind is right, the assigned
/// inputs are one byte, all different and supported, the addresses are addresses, the hardware
/// addresses are blank or six pairs of hexadecimal digits, and the password is empty or long enough.
pub proof fn settings_in_order_are_accepted(
    locale: UiLocale,
    local_host: DestinationHost,
    settings: AppSettings,
    checks: AddressChecks,
    validated: Result<(), DisplayMuxError>,
)
    requires
        call_ensures(validate_settings, (locale, local_host, &settings, &checks), validated),
        checks.peers@.len() == settings.peers@.len(),
    ensures
        validated is Ok <==> in_order(local_host, settings, checks),
{
    lemma_routes(locale, settings.peers@, checks.peers@);
    if in_order(local_host, settings, checks) {
        lemma_inputs(settings);
    }
    if validated is Ok {
        valid_settings_assign_each_input_once(locale, local_host, settings, checks);
        let peers = settings.peers@;
        assert forall|i: int| 0 <= i < peers.len() implies is_one_byte((#[trigger] peers[i]).input) by {
        }
        assert(inputs_in_order(settings));
    }
}

/// Where only paired hosts are at fault, the error speaks of the first of them: of its name, if
/// its address is none, else of its hardware address.
pub proof fn first_host_at_fault_is_reported(
    locale: UiLocale,
    local_host: DestinationHost,
    settings: AppSettings,
    checks: AddressChecks,
    validated: Result<(), DisplayMuxError>,
    position: int,
    unreachable: DisplayMuxError,
)
    requires
        call_ensures(validate_settings, (locale, local_host, &settings, &checks), validated),
        checks.peers@.len() == settings.peers@.len(),
        settings.local_host == local_host,
        inputs_in_order(settings),
        0 <= position < settings.peers@.len(),
        !route_in_order(settings.peers@[position], checks.peers@[position]),
        forall|i: int|
            0 <= i < position ==> route_in_order(#[trigger] settings.peers@[i], checks.peers@[i]),
        call_ensures(
            route_endpoint::<u8>,
            (locale, &settings.peers@[position], None::<u8>),
            Err(unreachable),
        ),
    ensures
        validated matches Err(error) && if checks.peers@[position] {
            error@ == ErrorView::InvalidMacAddress(settings.peers@[position].mac_address@)
        } else {
            error@ == unreachable@
        },
{
    let peers = settings.peers@;
    lemma_inputs(settings);
    lemma_first_fault(locale, peers, checks.peers@, position);
}

proof fn lemma_first_fault(
    locale: UiLocale,
    peers: Seq<HostRoute>,
    has_address: Seq<bool>,
    position: int,
)
    requires
        has_address.len() >= peers.len(),
        0 <= position < peers.len(),
        !route_in_order(peers[position], has_address[position]),
        forall|i: int|
            0 <= i < position ==> route_in_order(#[trigger] peers[i], has_address[i]),
    ensures
        first_route_fault(locale, peers, has_address) == Some(
            if has_address[position] {
                ErrorView::InvalidMacAddress(peers[position].mac_address@)
            } else {
                crate::settings::invalid_address(locale, peers[position])
            },
        ),
    decreases peers.len(),
{
    let rest = peers.drop_last();
    if position == peers.len() - 1 {
        assert forall|i: int| 0 <= i < rest.len() implies route_in_order(
            #[trigger] rest[i],
            has_address[i],
        ) by {
            assert(rest[i] == peers[i]);
        }
        lemma_routes(locale, rest, has_address);
        lemma_blank(peers[position].mac_address@);
        lemma_six_pairs(peers[position].mac_address@);
    } else {
        assert forall|i: int| 0 <= i < position implies route_in_order(
            #[trigger] rest[i],
            has_address[i],
        ) by {
            assert(rest[i] == peers[i]);
        }
        lemma_first_fault(locale, rest, has_address, position);
    }
}

/// Whether every assigned input is one byte and not zero.
pub open spec fn inputs_are_inputs(settings: AppSettings) -> bool {
    &&& is_one_byte(settings.local_input)
    &&& forall|i: int|
        0 <= i < settings.peers@.len() ==> is_one_byte((#[trigger] settings.peers@[i]).input)
}

/// Whether no two hosts have the same input.
pub open spec fn inputs_differ(settings: AppSettings) -> bool {
    let peers = settings.peers@;
    &&& forall|i: int|
        0 <= i < peers.len() && (#[trigger] peers[i]).input is Some ==> peers[i].input
            != settings.local_input
    &&& forall|i: int, j: int|
        0 <= i < j < peers.len() && (#[trigger] peers[i]).input is Some ==> peers[i].input != (
        #[trigger] peers[j]).input
}

proof fn lemma_valid_inputs(settings: AppSettings)
    ensures
        inputs_are_inputs(settings) <==> forall|i: int|
            0 <= i < assigned_inputs(settings).len() ==> (#[trigger] assigned_inputs(
                settings,
            )[i]).valid(),
{
    let peers = settings.peers@;
    let assigned = assigned_inputs(settings);
    let offset: int = if settings.local_input is Some {
        1
    } else {
        0
    };
    if inputs_are_inputs(settings) {
        assert forall|i: int| 0 <= i < assigned.len() implies (#[trigger] assigned[i]).valid() by {
            if i >= offset {
                let owner = lemma_input_owner(peers, i - offset);
                assert(is_one_byte(peers[owner].input));
            }
        }
    }
    if forall|i: int| 0 <= i < assigned.len() ==> (#[trigger] assigned[i]).valid() {
        if settings.local_input is Some {
            assert(assigned[0].valid());
        }
        assert forall|i: int| 0 <= i < peers.len() implies is_one_byte((#[trigger] peers[i]).input) by {
            if peers[i].input is Some {
                let p = lemma_peer_inputs(peers, i);
                assert(assigned[p + offset].valid());
            }
        }
    }
}

proof fn lemma_distinct_inputs(settings: AppSettings)
    ensures
        inputs_differ(settings) <==> assigned_inputs(settings).no_duplicates(),
{
    let peers = settings.peers@;
    let assigned = assigned_inputs(settings);
    let offset: int = if settings.local_input is Some {
        1
    } else {
        0
    };
    assert(forall|k: int|
        0 <= k < peer_inputs(peers).len() ==> #[trigger] assigned[k + offset] == peer_inputs(
            peers,
        )[k]);
    if inputs_differ(settings) {
        assert forall|i: int, j: int| 0 <= i < j < assigned.len() implies assigned[i]
            != assigned[j] by {
            let b = lemma_input_owner(peers, j - offset);
            assert(peers[b].input is Some);
            if i >= offset {
                let a = lemma_input_owner(peers, i - offset);
                if b < a {
                    lemma_peer_inputs_grow(peers, b, a);
                }
                assert(a < b);
                assert(peers[a].input is Some);
            }
        }
    }
    if assigned.no_duplicates() {
        assert forall|i: int|
            0 <= i < peers.len() && (#[trigger] peers[i]).input is Some implies peers[i].input
            != settings.local_input by {
            let p = lemma_peer_inputs(peers, i);
            assert(assigned[p + offset] == peers[i].input->Some_0);
            if settings.local_input is Some {
                assert(assigned[0] == settings.local_input->Some_0);
            }
        }
        assert forall|i: int, j: int|
            0 <= i < j < peers.len() && (#[trigger] peers[i]).input is Some implies peers[i].input
            != (#[trigger] peers[j]).input by {
            if peers[j].input is Some {
                let p = lemma_peer_inputs(peers, i);
                let q = lemma_peer_inputs(peers, j);
                lemma_peer_inputs_grow(peers, i, j);
                assert(assigned[p + offset] == peers[i].input->Some_0);
                assert(assigned[q + offset] == peers[j].input->Some_0);
            }
        }
    }
}

/// Of several faults the first is reported, in this order: a wrong kind of host, something that is
/// no input, an input that two hosts have. In English the error says which.
pub proof fn faults_of_inputs_are_reported_in_order(
    local_host: DestinationHost,
    settings: AppSettings,
    checks: AddressChecks,
    validated: Result<(), DisplayMuxError>,
)
    requires
        call_ensures(
            validate_settings,
            (UiLocale::English, local_host, &settings, &checks),
            validated,
        ),
    ensures
        settings.local_host != local_host ==> (validated matches Err(error) && error@
            == ErrorView::Backend(
            "This computer's host type must be determined by the operating system"@,
        )),
        settings.local_host == local_host && !inputs_are_inputs(settings) ==> (
        validated matches Err(error) && error@ == ErrorView::Backend(
            "Select a valid display input port"@,
        )),
        settings.local_host == local_host && inputs_are_inputs(settings) && !inputs_differ(settings)
            ==> (validated matches Err(error) && error@ == ErrorView::Backend(
            "Each host must use a different display input port"@,
        )),
{
    lemma_valid_inputs(settings);
    lemma_distinct_inputs(settings);
}

/// Behind the inputs and the hosts the broadcast address and then the password are examined.
pub proof fn last_faults_are_reported_in_order(
    local_host: DestinationHost,
    settings: AppSettings,
    checks: AddressChecks,
    validated: Result<(), DisplayMuxError>,
)
    requires
        call_ensures(
            validate_settings,
            (UiLocale::English, local_host, &settings, &checks),
            validated,
        ),
        checks.peers@.len() == settings.peers@.len(),
        settings.local_host == local_host,
        inputs_in_order(settings),
        forall|i: int|
            0 <= i < settings.peers@.len() ==> route_in_order(
                #[trigger] settings.peers@[i],
                checks.peers@[i],
            ),
    ensures
        !checks.broadcast ==> (validated matches Err(error) && error@ == ErrorView::WakeFailed(
            "Invalid broadcast address"@,
        )),
        checks.broadcast && 1 <= settings.shared_key@.len() < 8 ==> (
        validated matches Err(error) && error@ is Backend),
{
    lemma_inputs(settings);
    lemma_routes(UiLocale::English, settings.peers@, checks.peers@);
}

/// A pairing password is long enough exactly from eight characters on.
pub proof fn password_needs_eight_characters(shared_key: &str, valid: bool)
    requires
        call_ensures(has_valid_shared_key, (shared_key,), valid),
    ensures
        valid <==> shared_key@.len() >= 8,
{
}

// ---------------------------------------------------------------------------
// Storing

/// A development build works with the same settings but is no login item; another build changes
/// nothing.
pub proof fn only_a_development_build_changes_settings(
    settings: AppSettings,
    development: bool,
    used: AppSettings,
)
    requires
        call_ensures(settings_for_current_build, (settings, development), used),
    ensures
        !development ==> used == settings,
        development ==> !used.autostart,
        used.shared_monitor == settings.shared_monitor,
        used.local_host == settings.local_host,
        used.local_input == settings.local_input,
        used.supported_inputs == settings.supported_inputs,
        used.peers == settings.peers,
        used.broadcast_ip == settings.broadcast_ip,
        used.wake_port == settings.wake_port,
        used.shared_key == settings.shared_key,
        used.wait_seconds == settings.wait_seconds,
        used.check_updates == settings.check_updates,
{
}

/// Whether each part of saved settings comes from where it belongs: what the display and the
/// operating system say from the settings before, what the user decides from those submitted.
pub open spec fn is_merged(
    submitted: AppSettings,
    protected: AppSettings,
    development: bool,
    merged: AppSettings,
) -> bool {
    &&& merged.local_host == protected.local_host
    &&& merged.shared_monitor == protected.shared_monitor
    &&& merged.local_input == protected.local_input
    &&& merged.supported_inputs == protected.supported_inputs
    &&& merged.peers == submitted.peers
    &&& merged.broadcast_ip == submitted.broadcast_ip
    &&& merged.wake_port == submitted.wake_port
    &&& merged.shared_key == submitted.shared_key
    &&& merged.wait_seconds == submitted.wait_seconds
    &&& merged.check_updates == submitted.check_updates
    &&& development ==> !merged.autostart
    &&& !development ==> merged.autostart == submitted.autostart
}

/// What is saved takes from the user interface only what the user decides.
pub proof fn saving_cannot_forge_the_display(
    submitted: AppSettings,
    protected: AppSettings,
    development: bool,
    merged: AppSettings,
)
    requires
        call_ensures(merge_saved_settings, (submitted, protected, development), merged),
    ensures
        is_merged(submitted, protected, development, merged),
{
}

/// Settings are saved exactly where they are in order after they were put together, and what is
/// saved is then what was put together; otherwise nothing is saved and the user is told the fault.
pub proof fn settings_in_order_are_saved(
    locale: UiLocale,
    local_host: DestinationHost,
    submitted: AppSettings,
    protected: AppSettings,
    development: bool,
    checks: AddressChecks,
    merged: AppSettings,
    validated: Result<(), DisplayMuxError>,
    told: String,
    saved: Result<AppSettings, String>,
)
    requires
        call_ensures(
            save_settings,
            (locale, local_host, submitted, protected, development, &checks),
            saved,
        ),
        call_ensures(merge_saved_settings, (submitted, protected, development), merged),
        call_ensures(validate_settings, (locale, local_host, &merged, &checks), validated),
        validated matches Err(error) ==> call_ensures(
            crate::locale::core_user_error,
            (locale, &error),
            told,
        ),
        checks.peers@.len() == submitted.peers@.len(),
    ensures
        saved is Ok <==> in_order(local_host, merged, checks),
        saved matches Ok(settings) ==> is_merged(submitted, protected, development, settings),
        saved matches Err(text) ==> text@ == told@,
{
    settings_in_order_are_accepted(locale, local_host, merged, checks, validated);
}

/// The login item is changed exactly where it is not as the user wants it, and then to what the
/// user wants.
pub proof fn login_item_becomes_what_is_wanted(wanted: bool, enabled: bool, change: AutostartChange)
    requires
        call_ensures(autostart_change, (wanted, enabled), change),
    ensures
        change == AutostartChange::Keep <==> wanted == enabled,
        change == AutostartChange::Enable <==> wanted && !enabled,
        change == AutostartChange::Disable <==> !wanted && enabled,
{
}

/// A document with a shared display or with a list of hosts is in the current format, any other in
/// the two-host format.
pub proof fn either_member_marks_the_format(shared: bool, peers: bool, format: SettingsFormat)
    requires
        call_ensures(format_by_members, (shared, peers), format),
    ensures
        format == SettingsFormat::Current <==> shared || peers,
        format == SettingsFormat::Legacy <==> !shared && !peers,
{
}

/// Settings in the two-host format keep everything they say: this host, the network settings, the
/// choices, and the other host, which is of the other kind and has the other input; it is kept
/// exactly where its id and its address are known. No display is taken for granted.
pub proof fn two_host_settings_are_carried_over(legacy: LegacySettings, settings: AppSettings)
    requires
        call_ensures(migrate_legacy_settings, (legacy,), settings),
    ensures
        settings.local_host == legacy.local_host,
        settings.shared_monitor is None,
        settings.supported_inputs is None,
        settings.broadcast_ip == legacy.broadcast_ip,
        settings.wake_port == legacy.wake_port,
        settings.shared_key == legacy.shared_key,
        settings.wait_seconds == legacy.wait_seconds,
        settings.autostart == legacy.autostart,
        settings.check_updates == legacy.check_updates,
        settings.local_input matches Some(input) && input.code == if legacy.local_host
            == DestinationHost::Windows {
            0x0fu32
        } else {
            0x11u32
        },
        legacy.peer_id@.len() > 0 && legacy.peer_ip@.len() > 0 <==> settings.peers@.len() == 1,
        settings.peers@.len() <= 1,
        settings.peers@.len() == 1 ==> {
            let peer = settings.peers@[0];
            &&& peer.id == legacy.peer_id
            &&& peer.name == legacy.peer_name
            &&& peer.address == legacy.peer_ip
            &&& peer.port == legacy.peer_port
            &&& peer.mac_address == legacy.peer_mac
            &&& peer.platform != legacy.local_host
            &&& peer.input matches Some(input) && input.code + settings.local_input->Some_0.code
                == 0x0f + 0x11
        },
{
}

// ---------------------------------------------------------------------------
// Defaults

/// A new installation assumes nothing of displays, inputs and other hosts, has no password, wakes
/// hosts over the general broadcast address and port 9, waits 45 seconds for them, starts with the
/// login session and looks for updates.
pub proof fn new_installation_assumes_nothing(host: DestinationHost, settings: AppSettings)
    requires
        call_ensures(AppSettings::for_host, (host,), settings),
    ensures
        settings.local_host == host,
        settings.shared_monitor is None,
        settings.local_input is None,
        settings.supported_inputs is None,
        settings.peers@.len() == 0,
        settings.broadcast_ip@ == "255.255.255.255"@,
        settings.wake_port == 9,
        settings.shared_key@.len() == 0,
        settings.wait_seconds == 45,
        settings.autostart,
        settings.check_updates,
{
}

/// What is missing in settings of the two-host format is what a new installation has, and the
/// other host is not known; its port would be the usual one.
pub proof fn two_host_defaults_are_those_of_a_new_installation(
    host: DestinationHost,
    settings: AppSettings,
    legacy: LegacySettings,
)
    requires
        call_ensures(AppSettings::for_host, (host,), settings),
        call_ensures(LegacySettings::for_host, (host,), legacy),
    ensures
        legacy.local_host == settings.local_host,
        legacy.broadcast_ip@ == settings.broadcast_ip@,
        legacy.wake_port == settings.wake_port,
        legacy.shared_key@ == settings.shared_key@,
        legacy.wait_seconds == settings.wait_seconds,
        legacy.autostart == settings.autostart,
        legacy.check_updates == settings.check_updates,
        legacy.peer_id@.len() == 0,
        legacy.peer_name@.len() == 0,
        legacy.peer_ip@.len() == 0,
        legacy.peer_mac@.len() == 0,
        legacy.peer_port == 47653,
{
    assert(legacy.shared_key@ =~= settings.shared_key@);
}

// ---------------------------------------------------------------------------
// Addresses

/// What a parser makes of a text: whether it is an address.
pub open spec fn takes_for_address<A, F: Fn(&str) -> Option<A>>(
    parse: F,
    text: Seq<char>,
    flag: bool,
) -> bool {
    forall|given: &str, address: Option<A>|
        given@ == text && #[trigger] call_ensures(parse, (given,), address) ==> flag
            == address is Some
}

/// Each flag says of the address of its own host whether it is one, and the last flag of the
/// broadcast address.
pub proof fn each_flag_speaks_of_its_own_address<
    A,
    B,
    F: Fn(&str) -> Option<A>,
    G: Fn(&str) -> Option<B>,
>(
    settings: AppSettings,
    parse_ip: F,
    parse_ipv4: G,
    checks: AddressChecks,
    i: int,
    flag: bool,
    broadcast: bool,
)
    requires
        call_ensures(check_addresses::<A, B, F, G>, (&settings, parse_ip, parse_ipv4), checks),
        0 <= i < settings.peers@.len(),
        takes_for_address::<A, F>(parse_ip, settings.peers@[i].address@, flag),
        takes_for_address::<B, G>(parse_ipv4, settings.broadcast_ip@, broadcast),
    ensures
        checks.peers@.len() == settings.peers@.len(),
        checks.peers@[i] == flag,
        checks.broadcast == broadcast,
{
    lemma_flag::<A, F>(parse_ip, settings.peers@[i].address@, flag, checks.peers@[i]);
    lemma_flag::<B, G>(parse_ipv4, settings.broadcast_ip@, broadcast, checks.broadcast);
}

proof fn lemma_flag<A, F: Fn(&str) -> Option<A>>(
    parse: F,
    text: Seq<char>,
    flag: bool,
    given: bool,
)
    requires
        takes_for_address::<A, F>(parse, text, flag),
        is_address_flag::<A, F>(parse, text, given),
    ensures
        given == flag,
{
    let address = choose|address: Option<A>|
        #[trigger] parses(parse, text, address) && given == address is Some;
    let t = choose|t: &str| t@ == text && #[trigger] call_ensures(parse, (t,), address);
    assert(call_ensures(parse, (t,), address));
}

/// Submitted settings are saved exactly where they are in order after they were put together, their
/// own addresses being those that the parsers take for one.
pub proof fn submitted_settings_in_order_are_saved<
    A,
    B,
    F: Fn(&str) -> Option<A>,
    G: Fn(&str) -> Option<B>,
>(
    locale: UiLocale,
    local_host: DestinationHost,
    submitted: AppSettings,
    protected: AppSettings,
    development: bool,
    parse_ip: F,
    parse_ipv4: G,
    saved: Result<AppSettings, String>,
    merged: AppSettings,
    checks: AddressChecks,
    validated: Result<(), DisplayMuxError>,
)
    requires
        call_ensures(
            submit_settings::<A, B, F, G>,
            (locale, local_host, submitted, protected, development, parse_ip, parse_ipv4),
            saved,
        ),
        call_ensures(merge_saved_settings, (submitted, protected, development), merged),
        call_ensures(validate_settings, (locale, local_host, &merged, &checks), validated),
        checks.peers@.len() == submitted.peers@.len(),
        forall|i: int|
            0 <= i < submitted.peers@.len() ==> takes_for_address::<A, F>(
                parse_ip,
                (#[trigger] submitted.peers@[i]).address@,
                checks.peers@[i],
            ),
        takes_for_address::<B, G>(parse_ipv4, submitted.broadcast_ip@, checks.broadcast),
    ensures
        saved is Ok <==> in_order(local_host, merged, checks),
        saved matches Ok(settings) ==> is_merged(submitted, protected, development, settings),
{
    let made = choose|made: AddressChecks|
        #[trigger] are_address_checks(submitted, parse_ip, parse_ipv4, made) && saves(
            locale,
            local_host,
            submitted,
            protected,
            development,
            made,
            saved,
        );
    assert forall|i: int| 0 <= i < submitted.peers@.len() implies made.peers@[i]
        == checks.peers@[i] by {
        let peer = submitted.peers@[i];
        lemma_flag::<A, F>(parse_ip, peer.address@, checks.peers@[i], made.peers@[i]);
    }
    lemma_flag::<B, G>(parse_ipv4, submitted.broadcast_ip@, checks.broadcast, made.broadcast);
    assert(made.peers@ =~= checks.peers@);
    settings_in_order_are_accepted(locale, local_host, merged, checks, validated);
}

} // verus!
