//! The settings of one host: the shared display, the paired hosts and their inputs.

use crate::domain::{
    DestinationHost, DiscoveredPeer, DisplayInput, FingerprintView, MonitorDescriptor,
    MonitorFingerprint, MonitorResolution, ResolutionSource,
};
use crate::error::{error_message, DisplayMuxError, ErrorView};
use crate::locale::{core_user_error, localized, ui_text, UiLocale};
use crate::network::{is_mac_text, mac_octet, MacAddress, PeerEndpoint, WakeTarget};
use crate::text::{chars_of, decimal, decimal_string, is_blank, join2, join3, same_text, trim};
use vstd::prelude::*;

verus! {

/// How many characters a pairing password needs.
pub const MIN_SHARED_KEY_LENGTH: usize = 8;

/// The display that the user chose to share.
#[derive(Clone, Debug, PartialEq, Eq)]
pub struct SelectedMonitor {
    pub name: String,
    pub fingerprint: MonitorFingerprint,
    pub max_resolution: Option<MonitorResolution>,
    pub resolution_source: Option<ResolutionSource>,
}

/// What a selection says, its texts as characters.
pub struct SelectedView {
    pub name: Seq<char>,
    pub fingerprint: FingerprintView,
    pub max_resolution: Option<MonitorResolution>,
    pub resolution_source: Option<ResolutionSource>,
}

impl View for SelectedMonitor {
    type V = SelectedView;

    open spec fn view(&self) -> SelectedView {
        SelectedView {
            name: self.name@,
            fingerprint: self.fingerprint@,
            max_resolution: self.max_resolution,
            resolution_source: self.resolution_source,
        }
    }
}

/// The selection of a display.
pub open spec fn selection_of(monitor: MonitorDescriptor) -> SelectedMonitor {
    SelectedMonitor {
        name: monitor.name,
        fingerprint: monitor.fingerprint,
        max_resolution: monitor.max_resolution,
        resolution_source: monitor.resolution_source,
    }
}

impl<'a> vstd::std_specs::convert::FromSpecImpl<&'a MonitorDescriptor> for SelectedMonitor {
    open spec fn obeys_from_spec() -> bool {
        true
    }

    open spec fn from_spec(monitor: &'a MonitorDescriptor) -> Self {
        selection_of(*monitor)
    }
}

impl<'a> From<&'a MonitorDescriptor> for SelectedMonitor {
    fn from(monitor: &'a MonitorDescriptor) -> (selected: Self) {
        SelectedMonitor {
            name: monitor.name.clone(),
            fingerprint: monitor.fingerprint.clone(),
            max_resolution: monitor.max_resolution,
            resolution_source: monitor.resolution_source,
        }
    }
}

impl SelectedMonitor {
    /// Whether two selections say the same.
    pub fn same_as(&self, other: &SelectedMonitor) -> (same: bool)
        ensures
            same == (self@ == other@),
    {
        self.name == other.name && self.fingerprint.same_as(&other.fingerprint)
            && same_resolution(self.max_resolution, other.max_resolution) && same_source(
            self.resolution_source,
            other.resolution_source,
        )
    }
}

fn same_resolution(a: Option<MonitorResolution>, b: Option<MonitorResolution>) -> (same: bool)
    ensures
        same == (a == b),
{
    match (a, b) {
        (Some(x), Some(y)) => x == y,
        (None, None) => true,
        _ => false,
    }
}

fn same_source(a: Option<ResolutionSource>, b: Option<ResolutionSource>) -> (same: bool)
    ensures
        same == (a == b),
{
    match (a, b) {
        (Some(x), Some(y)) => x == y,
        (None, None) => true,
        _ => false,
    }
}

/// A paired host: how to reach it, and the input that it is connected to.
#[derive(Debug, PartialEq, Eq)]
pub struct HostRoute {
    pub id: String,
    pub name: String,
    pub platform: DestinationHost,
    pub address: String,
    pub port: u16,
    pub mac_address: String,
    pub input: Option<DisplayInput>,
}

/// What a route says, its texts as characters.
pub struct RouteView {
    pub id: Seq<char>,
    pub name: Seq<char>,
    pub platform: DestinationHost,
    pub address: Seq<char>,
    pub port: u16,
    pub mac_address: Seq<char>,
    pub input: Option<DisplayInput>,
}

impl View for HostRoute {
    type V = RouteView;

    open spec fn view(&self) -> RouteView {
        RouteView {
            id: self.id@,
            name: self.name@,
            platform: self.platform,
            address: self.address@,
            port: self.port,
            mac_address: self.mac_address@,
            input: self.input,
        }
    }
}

impl Clone for HostRoute {
    fn clone(&self) -> (copy: Self)
        ensures
            copy == *self,
    {
        HostRoute {
            id: self.id.clone(),
            name: self.name.clone(),
            platform: self.platform,
            address: self.address.clone(),
            port: self.port,
            mac_address: self.mac_address.clone(),
            input: self.input,
        }
    }
}

impl HostRoute {
    /// Whether two routes say the same.
    pub fn same_as(&self, other: &HostRoute) -> (same: bool)
        ensures
            same == (self@ == other@),
    {
        self.id == other.id && self.name == other.name && self.platform == other.platform
            && self.address == other.address && self.port == other.port && self.mac_address
            == other.mac_address && same_input(self.input, other.input)
    }
}

fn same_input(a: Option<DisplayInput>, b: Option<DisplayInput>) -> (same: bool)
    ensures
        same == (a == b),
{
    match (a, b) {
        (Some(x), Some(y)) => x == y,
        (None, None) => true,
        _ => false,
    }
}

/// What each of some routes says.
pub open spec fn route_views(routes: Seq<HostRoute>) -> Seq<RouteView> {
    Seq::new(routes.len(), |i: int| routes[i]@)
}

/// The settings of this host.
#[derive(Clone, Debug, PartialEq, Eq)]
pub struct AppSettings {
    pub local_host: DestinationHost,
    pub shared_monitor: Option<SelectedMonitor>,
    pub local_input: Option<DisplayInput>,
    pub supported_inputs: Option<Vec<DisplayInput>>,
    pub peers: Vec<HostRoute>,
    pub broadcast_ip: String,
    pub wake_port: u16,
    pub shared_key: String,
    pub wait_seconds: u64,
    pub autostart: bool,
    pub check_updates: bool,
}

/// The settings of a new installation: nothing is assumed of displays or inputs.
pub open spec fn is_default(settings: AppSettings, local_host: DestinationHost) -> bool {
    &&& settings.local_host == local_host
    &&& settings.shared_monitor is None
    &&& settings.local_input is None
    &&& settings.supported_inputs is None
    &&& settings.peers@.len() == 0
    &&& settings.broadcast_ip@ == "255.255.255.255"@
    &&& settings.wake_port == 9
    &&& settings.shared_key@.len() == 0
    &&& settings.wait_seconds == 45
    &&& settings.autostart
    &&& settings.check_updates
}

impl AppSettings {
    /// The settings of a new installation on a given kind of computer.
    pub fn for_host(local_host: DestinationHost) -> (settings: AppSettings)
        ensures
            is_default(settings, local_host),
    {
        AppSettings {
            local_host,
            shared_monitor: None,
            local_input: None,
            supported_inputs: None,
            peers: Vec::new(),
            broadcast_ip: "255.255.255.255".to_owned(),
            wake_port: 9,
            shared_key: String::new(),
            wait_seconds: 45,
            autostart: true,
            check_updates: true,
        }
    }
}

/// The settings of a new installation on a computer that is not a Mac. Those of a Mac are
/// [`AppSettings::for_host`] of it.
impl Default for AppSettings {
    fn default() -> (settings: Self)
        ensures
            is_default(settings, DestinationHost::Windows),
    {
        AppSettings::for_host(DestinationHost::Windows)
    }
}

/// The kind of this computer by the name of its operating system. Anything but macOS counts
/// as Windows.
pub fn local_host(os: &str) -> (host: DestinationHost)
    ensures
        host == if os@ == "macos"@ {
            DestinationHost::Mac
        } else {
            DestinationHost::Windows
        },
{
    if same_text(os, "macos") {
        DestinationHost::Mac
    } else {
        DestinationHost::Windows
    }
}

/// Whether a pairing password is long enough, counted in characters.
pub fn has_valid_shared_key(shared_key: &str) -> (valid: bool)
    ensures
        valid == (shared_key@.len() >= MIN_SHARED_KEY_LENGTH),
{
    chars_of(shared_key).len() >= MIN_SHARED_KEY_LENGTH
}

/// The settings that this build works with: a development build is never a login item.
pub fn settings_for_current_build(settings: AppSettings, development: bool) -> (used: AppSettings)
    ensures
        used == (AppSettings {
            autostart: settings.autostart && !development,
            ..settings
        }),
{
    let mut settings = settings;
    if development {
        settings.autostart = false;
    }
    settings
}

// ---------------------------------------------------------------------------
// Paired hosts

/// The position of the first route with a given id.
pub open spec fn route_position(routes: Seq<RouteView>, id: Seq<char>) -> Option<nat>
    decreases routes.len(),
{
    if routes.len() == 0 {
        None
    } else if routes[0].id == id {
        Some(0)
    } else {
        match route_position(routes.skip(1), id) {
            Some(position) => Some(position + 1),
            None => None,
        }
    }
}

/// The route at the position is the first with the id; without a position there is none.
pub proof fn route_position_is_first(routes: Seq<RouteView>, id: Seq<char>)
    ensures
        match route_position(routes, id) {
            Some(position) => {
                &&& position < routes.len()
                &&& routes[position as int].id == id
                &&& forall|i: int| 0 <= i < position ==> (#[trigger] routes[i]).id != id
            },
            None => forall|i: int| 0 <= i < routes.len() ==> (#[trigger] routes[i]).id != id,
        },
    decreases routes.len(),
{
    if routes.len() > 0 && routes[0].id != id {
        let rest = routes.skip(1);
        route_position_is_first(rest, id);
        match route_position(rest, id) {
            Some(position) => {
                assert(rest[position as int] == routes[position as int + 1]);
                assert forall|i: int| 0 <= i < position + 1 implies (#[trigger] routes[i]).id != id by {
                    if i > 0 {
                        assert(rest[i - 1] == routes[i]);
                    }
                }
            },
            None => {
                assert forall|i: int| 0 <= i < routes.len() implies (#[trigger] routes[i]).id != id by {
                    if i > 0 {
                        assert(rest[i - 1] == routes[i]);
                    }
                }
            },
        }
    }
}

/// Finds the first route with a given id.
pub fn peer_position(routes: &Vec<HostRoute>, id: &str) -> (position: Option<usize>)
    ensures
        match position {
            Some(position) => position < routes@.len() && route_position(route_views(routes@), id@)
                == Some(position as nat),
            None => route_position(route_views(routes@), id@) is None,
        },
{
    let ghost views = route_views(routes@);
    let mut i: usize = 0;
    while i < routes.len()
        invariant
            i <= routes@.len(),
            views == route_views(routes@),
            forall|k: int| 0 <= k < i ==> (#[trigger] views[k]).id != id@,
        decreases routes@.len() - i,
    {
        if same_text(routes[i].id.as_str(), id) {
            assert(views[i as int].id == id@);
            proof {
                route_position_is_first(views, id@);
            }
            return Some(i);
        }
        assert(views[i as int].id != id@);
        i += 1;
    }
    proof {
        route_position_is_first(views, id@);
    }
    None
}

/// What is said where no paired host has the id.
pub open spec fn unknown_peer(locale: UiLocale) -> Seq<char> {
    localized(
        locale,
        "找不到這台已配對主機，請重新搜尋並加入"@,
        "This paired host was not found. Search for it and add it again."@,
    )
}

/// Finds a paired host.
pub fn find_peer<'a>(locale: UiLocale, settings: &'a AppSettings, peer_id: &str) -> (peer: Result<
    &'a HostRoute,
    String,
>)
    ensures
        match (peer, route_position(route_views(settings.peers@), peer_id@)) {
            (Ok(peer), Some(position)) => *peer == settings.peers@[position as int],
            (Err(text), None) => text@ == unknown_peer(locale),
            _ => false,
        },
{
    match peer_position(&settings.peers, peer_id) {
        Some(position) => Ok(&settings.peers[position]),
        None => Err(
            ui_text(
                locale,
                "找不到這台已配對主機，請重新搜尋並加入",
                "This paired host was not found. Search for it and add it again.",
            ).to_owned(),
        ),
    }
}

/// The route to a host that was discovered, with an input that was assigned to it.
pub open spec fn route_to(peer: DiscoveredPeer, input: Option<DisplayInput>) -> RouteView {
    RouteView {
        id: peer.id@,
        name: peer.name@,
        platform: peer.platform,
        address: peer.address@,
        port: peer.port,
        mac_address: match peer.mac_address {
            Some(mac_address) => mac_address@,
            None => Seq::empty(),
        },
        input,
    }
}

/// The routes after a host was discovered: its route is brought up to date but keeps its input,
/// and a host that was not known is added at the end without an input.
pub open spec fn upserted(routes: Seq<RouteView>, peer: DiscoveredPeer) -> Seq<RouteView> {
    match route_position(routes, peer.id@) {
        Some(position) => routes.update(
            position as int,
            route_to(peer, routes[position as int].input),
        ),
        None => routes.push(route_to(peer, None)),
    }
}

/// Two settings that differ at most in their routes.
pub open spec fn only_peers_changed(before: AppSettings, after: AppSettings) -> bool {
    after == AppSettings { peers: after.peers, ..before }
}

fn new_route(id: String, peer: &DiscoveredPeer, input: Option<DisplayInput>) -> (route: HostRoute)
    requires
        id@ == peer.id@,
    ensures
        route@ == route_to(*peer, input),
{
    HostRoute {
        id,
        name: peer.name.clone(),
        platform: peer.platform,
        address: peer.address.clone(),
        port: peer.port,
        mac_address: match &peer.mac_address {
            Some(mac_address) => mac_address.clone(),
            None => String::new(),
        },
        input,
    }
}

/// Adds a discovered host, or brings its route up to date.
pub fn upsert_discovered_peer(settings: &mut AppSettings, peer: &DiscoveredPeer)
    ensures
        route_views(final(settings).peers@) == upserted(route_views(old(settings).peers@), *peer),
        only_peers_changed(*old(settings), *final(settings)),
{
    let ghost before = route_views(settings.peers@);
    proof {
        route_position_is_first(before, peer.id@);
    }
    match peer_position(&settings.peers, peer.id.as_str()) {
        Some(position) => {
            let id = settings.peers[position].id.clone();
            let input = settings.peers[position].input;
            let route = new_route(id, peer, input);
            let ghost view = route@;
            settings.peers.set(position, route);
            assert(route_views(settings.peers@) == before.update(position as int, view));
        },
        None => {
            let route = new_route(peer.id.clone(), peer, None);
            let ghost view = route@;
            settings.peers.push(route);
            assert(route_views(settings.peers@) == before.push(view));
        },
    }
}

/// The routes after a search: each paired host that was found is brought up to date; no host
/// is added.
pub open spec fn refreshed(routes: Seq<RouteView>, peers: Seq<DiscoveredPeer>) -> Seq<RouteView>
    decreases peers.len(),
{
    if peers.len() == 0 {
        routes
    } else {
        let before = refreshed(routes, peers.drop_last());
        if route_position(before, peers.last().id@) is Some {
            upserted(before, peers.last())
        } else {
            before
        }
    }
}

fn copy_routes(routes: &Vec<HostRoute>) -> (copy: Vec<HostRoute>)
    ensures
        copy@ == routes@,
{
    let mut copy: Vec<HostRoute> = Vec::new();
    let mut i: usize = 0;
    while i < routes.len()
        invariant
            i <= routes@.len(),
            copy@ == routes@.take(i as int),
        decreases routes@.len() - i,
    {
        copy.push(routes[i].clone());
        i += 1;
        assert(routes@.take(i as int) == routes@.take(i - 1).push(routes@[i - 1]));
    }
    assert(routes@.take(i as int) == routes@);
    copy
}

fn same_routes(a: &Vec<HostRoute>, b: &Vec<HostRoute>) -> (same: bool)
    ensures
        same == (route_views(a@) == route_views(b@)),
{
    if a.len() != b.len() {
        assert(route_views(a@).len() != route_views(b@).len());
        return false;
    }
    let mut i: usize = 0;
    while i < a.len()
        invariant
            i <= a@.len(),
            a@.len() == b@.len(),
            forall|k: int| 0 <= k < i ==> (#[trigger] a@[k])@ == b@[k]@,
        decreases a@.len() - i,
    {
        if !a[i].same_as(&b[i]) {
            assert(route_views(a@)[i as int] != route_views(b@)[i as int]);
            return false;
        }
        i += 1;
    }
    assert(route_views(a@) == route_views(b@));
    true
}

/// Brings the routes of the paired hosts that were found up to date. Tells whether anything
/// changed, so that the settings need to be stored.
pub fn refresh_paired_endpoints(settings: &mut AppSettings, peers: &[DiscoveredPeer]) -> (changed:
    bool)
    ensures
        route_views(final(settings).peers@) == refreshed(route_views(old(settings).peers@), peers@),
        only_peers_changed(*old(settings), *final(settings)),
        changed == (route_views(final(settings).peers@) != route_views(old(settings).peers@)),
{
    let before = copy_routes(&settings.peers);
    let mut i: usize = 0;
    while i < peers.len()
        invariant
            i <= peers@.len(),
            before@ == old(settings).peers@,
            route_views(settings.peers@) == refreshed(
                route_views(old(settings).peers@),
                peers@.take(i as int),
            ),
            only_peers_changed(*old(settings), *settings),
        decreases peers@.len() - i,
    {
        assert(peers@.take(i + 1).drop_last() == peers@.take(i as int));
        if peer_position(&settings.peers, peers[i].id.as_str()).is_some() {
            upsert_discovered_peer(settings, &peers[i]);
        }
        i += 1;
    }
    assert(peers@.take(i as int) == peers@);
    !same_routes(&settings.peers, &before)
}

/// Forgets a paired host.
pub fn remove_peer(settings: &mut AppSettings, peer_id: &str)
    ensures
        final(settings).peers@ == old(settings).peers@.filter(
            |peer: HostRoute| peer.id@ != peer_id@,
        ),
        only_peers_changed(*old(settings), *final(settings)),
{
    let ghost all = settings.peers@;
    let ghost kept = |peer: HostRoute| peer.id@ != peer_id@;
    let ghost mut seen: int = 0;
    let mut i: usize = 0;
    assert(all.take(0).filter(kept) + all.skip(0) == all) by {
        reveal(Seq::filter);
    }
    while i < settings.peers.len()
        invariant
            0 <= seen <= all.len(),
            all == old(settings).peers@,
            kept == (|peer: HostRoute| peer.id@ != peer_id@),
            settings.peers@ == all.take(seen).filter(kept) + all.skip(seen),
            i == all.take(seen).filter(kept).len(),
            only_peers_changed(*old(settings), *settings),
        decreases all.len() - seen,
    {
        let ghost head = all.take(seen).filter(kept);
        let ghost tail = all.skip(seen);
        proof {
            assert(tail.len() > 0);
            assert(settings.peers@[i as int] == tail[0]);
            assert(tail[0] == all[seen]);
            assert(all.take(seen + 1).drop_last() == all.take(seen));
            assert(all.take(seen + 1).last() == all[seen]);
            reveal(Seq::filter);
        }
        if same_text(settings.peers[i].id.as_str(), peer_id) {
            settings.peers.remove(i);
            assert(settings.peers@ == head + all.skip(seen + 1));
        } else {
            assert(head + tail == head.push(all[seen]) + all.skip(seen + 1));
            i += 1;
        }
        proof {
            seen = seen + 1;
        }
    }
    assert(all.skip(seen).len() == 0);
    assert(settings.peers@ == all.take(seen).filter(kept));
    assert(all.take(seen) == all);
}

// ---------------------------------------------------------------------------
// Reaching and waking paired hosts

/// What is said of a host whose address is not an IP address.
pub open spec fn invalid_address(locale: UiLocale, peer: HostRoute) -> ErrorView {
    ErrorView::PeerUnavailable(
        localized(
            locale,
            peer.name@ + " 的 IP 位址無效"@,
            peer.name@ + " has an invalid IP address"@,
        ),
    )
}

/// Where a paired host listens. `address` is the address of the route, if it is one.
pub fn route_endpoint<A>(locale: UiLocale, peer: &HostRoute, address: Option<A>) -> (endpoint:
    Result<PeerEndpoint<A>, DisplayMuxError>)
    ensures
        match (endpoint, address) {
            (Ok(endpoint), Some(address)) => endpoint == (PeerEndpoint {
                address,
                port: peer.port,
            }),
            (Err(error), None) => error@ == invalid_address(locale, *peer),
            _ => false,
        },
{
    match address {
        Some(address) => Ok(PeerEndpoint { address, port: peer.port }),
        None => Err(
            DisplayMuxError::PeerUnavailable(
                match locale {
                    UiLocale::TraditionalChinese => join2(peer.name.as_str(), " 的 IP 位址無效"),
                    UiLocale::English => join2(peer.name.as_str(), " has an invalid IP address"),
                },
            ),
        ),
    }
}

/// What is said where a request is made before a password is set.
pub open spec fn password_needed(locale: UiLocale) -> Seq<char> {
    localized(
        locale,
        "請先設定至少 "@ + decimal(MIN_SHARED_KEY_LENGTH as nat) + " 個字元的配對密碼"@,
        "Configure a pairing password of at least "@ + decimal(MIN_SHARED_KEY_LENGTH as nat)
            + " characters first"@,
    )
}

/// Where a request to a paired host goes, or why none is sent. `address` is the address of the
/// route, if it is one.
pub open spec fn is_request_endpoint<A>(
    locale: UiLocale,
    settings: AppSettings,
    peer: HostRoute,
    address: Option<A>,
    endpoint: Result<PeerEndpoint<A>, String>,
) -> bool {
    match endpoint {
        Ok(endpoint) => {
            &&& address == Some(endpoint.address)
            &&& endpoint.port == peer.port
            &&& settings.shared_key@.len() >= MIN_SHARED_KEY_LENGTH
        },
        Err(text) => if address is None {
            text@ == error_message(
                invalid_address(locale, peer),
                locale == UiLocale::TraditionalChinese,
            )
        } else {
            settings.shared_key@.len() < MIN_SHARED_KEY_LENGTH && text@ == password_needed(locale)
        },
    }
}

/// Where to send a request to a paired host. Nothing is sent to an address that is none, nor
/// without a pairing password.
pub fn request_endpoint<A>(
    locale: UiLocale,
    settings: &AppSettings,
    peer: &HostRoute,
    address: Option<A>,
) -> (endpoint: Result<PeerEndpoint<A>, String>)
    ensures
        is_request_endpoint(locale, *settings, *peer, address, endpoint),
{
    let endpoint = match route_endpoint(locale, peer, address) {
        Ok(endpoint) => endpoint,
        Err(error) => return Err(core_user_error(locale, &error)),
    };
    if !has_valid_shared_key(settings.shared_key.as_str()) {
        let length = decimal_string(MIN_SHARED_KEY_LENGTH as u128);
        return Err(
            match locale {
                UiLocale::TraditionalChinese => join3(
                    "請先設定至少 ",
                    length.as_str(),
                    " 個字元的配對密碼",
                ),
                UiLocale::English => join3(
                    "Configure a pairing password of at least ",
                    length.as_str(),
                    " characters first",
                ),
            },
        );
    }
    Ok(endpoint)
}

/// What is said of a host that cannot be woken for want of a hardware address.
pub open spec fn no_mac_address(locale: UiLocale, peer: HostRoute) -> Seq<char> {
    localized(
        locale,
        peer.name@
            + " 沒有提供可用的 MAC 位址，因此無法使用 Wake-on-LAN；主機醒著時仍可切換"@,
        peer.name@
            + " has no usable MAC address, so Wake-on-LAN is unavailable; switching still works while the host is awake"@,
    )
}

/// What is said of a broadcast address that is not an IPv4 address.
pub open spec fn invalid_broadcast(locale: UiLocale) -> Seq<char> {
    localized(locale, "廣播位址格式無效"@, "Invalid broadcast address"@)
}

/// Why a host cannot be woken, if it cannot. `has_broadcast` tells whether the broadcast
/// address of the settings is an IPv4 address.
pub open spec fn wake_fault(locale: UiLocale, peer: HostRoute, has_broadcast: bool) -> Option<
    Seq<char>,
> {
    if trim(peer.mac_address@).len() == 0 {
        Some(no_mac_address(locale, peer))
    } else if !is_mac_text(peer.mac_address@) {
        Some(
            error_message(
                ErrorView::InvalidMacAddress(peer.mac_address@),
                locale == UiLocale::TraditionalChinese,
            ),
        )
    } else if !has_broadcast {
        Some(invalid_broadcast(locale))
    } else {
        None
    }
}

/// Where the wake packet for a paired host goes, or why none is sent. `broadcast_address` is the
/// broadcast address of the settings, if it is an IPv4 address.
pub open spec fn is_wake_target<A>(
    locale: UiLocale,
    settings: AppSettings,
    peer: HostRoute,
    broadcast_address: Option<A>,
    target: Result<WakeTarget<A>, String>,
) -> bool {
    match target {
        Ok(target) => {
            &&& wake_fault(locale, peer, broadcast_address is Some) is None
            &&& forall|k: int|
                0 <= k < 6 ==> #[trigger] target.mac_address.octets@[k] == mac_octet(
                    peer.mac_address@,
                    k,
                )
            &&& broadcast_address == Some(target.broadcast_address)
            &&& target.port == settings.wake_port
        },
        Err(text) => wake_fault(locale, peer, broadcast_address is Some) == Some(text@),
    }
}

/// Where to send the wake packet for a paired host.
pub fn wake_route<A>(
    locale: UiLocale,
    settings: &AppSettings,
    peer: &HostRoute,
    broadcast_address: Option<A>,
) -> (target: Result<WakeTarget<A>, String>)
    ensures
        is_wake_target(locale, *settings, *peer, broadcast_address, target),
{
    if is_blank(peer.mac_address.as_str()) {
        return Err(
            match locale {
                UiLocale::TraditionalChinese => join2(
                    peer.name.as_str(),
                    " 沒有提供可用的 MAC 位址，因此無法使用 Wake-on-LAN；主機醒著時仍可切換",
                ),
                UiLocale::English => join2(
                    peer.name.as_str(),
                    " has no usable MAC address, so Wake-on-LAN is unavailable; switching still works while the host is awake",
                ),
            },
        );
    }
    let mac_address = match MacAddress::parse(peer.mac_address.as_str()) {
        Ok(mac_address) => mac_address,
        Err(error) => return Err(core_user_error(locale, &error)),
    };
    match broadcast_address {
        Some(broadcast_address) => Ok(
            WakeTarget { mac_address, broadcast_address, port: settings.wake_port },
        ),
        None => Err(ui_text(locale, "廣播位址格式無效", "Invalid broadcast address").to_owned()),
    }
}

// ---------------------------------------------------------------------------
// Addresses as text

/// What `parse` may make of a text: the network address that it is, or nothing.
pub open spec fn parses<A, F: Fn(&str) -> Option<A>>(
    parse: F,
    text: Seq<char>,
    address: Option<A>,
) -> bool {
    exists|given: &str| given@ == text && #[trigger] call_ensures(parse, (given,), address)
}

/// Reads the address of a paired host and tells where to send a request to it.
pub fn locate_peer<A, F: Fn(&str) -> Option<A>>(
    locale: UiLocale,
    settings: &AppSettings,
    peer: &HostRoute,
    parse_ip: F,
) -> (endpoint: Result<PeerEndpoint<A>, String>)
    requires
        forall|text: &str| call_requires(parse_ip, (text,)),
    ensures
        exists|address: Option<A>|
            #[trigger] parses(parse_ip, peer.address@, address) && is_request_endpoint(
                locale,
                *settings,
                *peer,
                address,
                endpoint,
            ),
{
    let text = peer.address.as_str();
    let address = parse_ip(text);
    assert(call_ensures(parse_ip, (text,), address));
    assert(parses(parse_ip, peer.address@, address));
    request_endpoint(locale, settings, peer, address)
}

/// Reads the broadcast address of the settings and tells where to send the wake packet for a
/// paired host.
pub fn locate_wake_target<A, F: Fn(&str) -> Option<A>>(
    locale: UiLocale,
    settings: &AppSettings,
    peer: &HostRoute,
    parse_ipv4: F,
) -> (target: Result<WakeTarget<A>, String>)
    requires
        forall|text: &str| call_requires(parse_ipv4, (text,)),
    ensures
        exists|address: Option<A>|
            #[trigger] parses(parse_ipv4, settings.broadcast_ip@, address) && is_wake_target(
                locale,
                *settings,
                *peer,
                address,
                target,
            ),
{
    let text = settings.broadcast_ip.as_str();
    let address = parse_ipv4(text);
    assert(call_ensures(parse_ipv4, (text,), address));
    assert(parses(parse_ipv4, settings.broadcast_ip@, address));
    wake_route(locale, settings, peer, address)
}

// ---------------------------------------------------------------------------
// Validation

/// Which texts of the settings are network addresses: for each route whether its address is
/// an IP address, and whether the broadcast address is an IPv4 address.
#[derive(Debug)]
pub struct AddressChecks {
    pub peers: Vec<bool>,
    pub broadcast: bool,
}

/// Which flag `parse` may give a text: whether the text is a network address.
pub open spec fn is_address_flag<A, F: Fn(&str) -> Option<A>>(
    parse: F,
    text: Seq<char>,
    flag: bool,
) -> bool {
    exists|address: Option<A>| #[trigger] parses(parse, text, address) && flag == address is Some
}

/// What examining the addresses in settings may give: each flag speaks of the text of its route,
/// and the last one of the broadcast address.
pub open spec fn are_address_checks<A, B, F: Fn(&str) -> Option<A>, G: Fn(&str) -> Option<B>>(
    settings: AppSettings,
    parse_ip: F,
    parse_ipv4: G,
    checks: AddressChecks,
) -> bool {
    &&& checks.peers@.len() == settings.peers@.len()
    &&& forall|i: int|
        0 <= i < settings.peers@.len() ==> is_address_flag(
            parse_ip,
            (#[trigger] settings.peers@[i]).address@,
            checks.peers@[i],
        )
    &&& is_address_flag(parse_ipv4, settings.broadcast_ip@, checks.broadcast)
}

fn is_address<A, F: Fn(&str) -> Option<A>>(parse: &F, text: &str) -> (flag: bool)
    requires
        forall|given: &str| call_requires(*parse, (given,)),
    ensures
        is_address_flag(*parse, text@, flag),
{
    let address = parse(text);
    assert(call_ensures(*parse, (text,), address));
    assert(parses(*parse, text@, address));
    address.is_some()
}

/// Examines the addresses in settings.
pub fn check_addresses<A, B, F: Fn(&str) -> Option<A>, G: Fn(&str) -> Option<B>>(
    settings: &AppSettings,
    parse_ip: F,
    parse_ipv4: G,
) -> (checks: AddressChecks)
    requires
        forall|text: &str| call_requires(parse_ip, (text,)),
        forall|text: &str| call_requires(parse_ipv4, (text,)),
    ensures
        are_address_checks(*settings, parse_ip, parse_ipv4, checks),
{
    let mut peers: Vec<bool> = Vec::new();
    let mut i: usize = 0;
    while i < settings.peers.len()
        invariant
            i <= settings.peers@.len(),
            peers@.len() == i,
            forall|text: &str| call_requires(parse_ip, (text,)),
            forall|k: int|
                0 <= k < i ==> is_address_flag(
                    parse_ip,
                    (#[trigger] settings.peers@[k]).address@,
                    peers@[k],
                ),
        decreases settings.peers@.len() - i,
    {
        let flag = is_address(&parse_ip, settings.peers[i].address.as_str());
        peers.push(flag);
        i += 1;
    }
    let broadcast = is_address(&parse_ipv4, settings.broadcast_ip.as_str());
    AddressChecks { peers, broadcast }
}

/// The inputs that are assigned to paired hosts.
pub open spec fn peer_inputs(peers: Seq<HostRoute>) -> Seq<DisplayInput>
    decreases peers.len(),
{
    if peers.len() == 0 {
        Seq::empty()
    } else {
        match peers.last().input {
            Some(input) => peer_inputs(peers.drop_last()).push(input),
            None => peer_inputs(peers.drop_last()),
        }
    }
}

/// The inputs that are assigned to this host and to paired ones.
pub open spec fn assigned_inputs(settings: AppSettings) -> Seq<DisplayInput> {
    match settings.local_input {
        Some(input) => seq![input] + peer_inputs(settings.peers@),
        None => peer_inputs(settings.peers@),
    }
}

/// What is wrong with a route, if anything is.
pub open spec fn route_fault(locale: UiLocale, peer: HostRoute, has_address: bool) -> Option<
    ErrorView,
> {
    if !has_address {
        Some(invalid_address(locale, peer))
    } else if trim(peer.mac_address@).len() > 0 && !is_mac_text(peer.mac_address@) {
        Some(ErrorView::InvalidMacAddress(peer.mac_address@))
    } else {
        None
    }
}

/// What is wrong with the first route that something is wrong with.
pub open spec fn first_route_fault(
    locale: UiLocale,
    peers: Seq<HostRoute>,
    has_address: Seq<bool>,
) -> Option<ErrorView>
    decreases peers.len(),
{
    if peers.len() == 0 {
        None
    } else {
        match first_route_fault(locale, peers.drop_last(), has_address) {
            Some(fault) => Some(fault),
            None => route_fault(locale, peers.last(), has_address[peers.len() - 1]),
        }
    }
}

/// What is said of a pairing password that is too short.
pub open spec fn short_password(locale: UiLocale) -> Seq<char> {
    localized(
        locale,
        "配對密碼至少需要 "@ + decimal(MIN_SHARED_KEY_LENGTH as nat) + " 個字元"@,
        "The pairing password must contain at least "@ + decimal(MIN_SHARED_KEY_LENGTH as nat)
            + " characters"@,
    )
}

/// The first thing that is wrong with settings, in the order in which they are examined.
pub open spec fn settings_fault(
    locale: UiLocale,
    local_host: DestinationHost,
    settings: AppSettings,
    checks: AddressChecks,
) -> Option<ErrorView> {
    let assigned = assigned_inputs(settings);
    if settings.local_host != local_host {
        Some(
            ErrorView::Backend(
                localized(
                    locale,
                    "這台電腦的主機類型必須由作業系統自動判定"@,
                    "This computer's host type must be determined by the operating system"@,
                ),
            ),
        )
    } else if exists|i: int| 0 <= i < assigned.len() && !(#[trigger] assigned[i]).valid() {
        Some(
            ErrorView::Backend(
                localized(
                    locale,
                    "請選擇有效的螢幕輸入 Port"@,
                    "Select a valid display input port"@,
                ),
            ),
        )
    } else if !assigned.no_duplicates() {
        Some(
            ErrorView::Backend(
                localized(
                    locale,
                    "每個主機必須使用不同的螢幕輸入 Port"@,
                    "Each host must use a different display input port"@,
                ),
            ),
        )
    } else if settings.supported_inputs matches Some(supported) && !all_supported(
        peer_inputs(settings.peers@),
        supported@,
    ) {
        Some(
            ErrorView::Backend(
                localized(
                    locale,
                    "輸入值不在這台螢幕的 MCCS capabilities 清單中"@,
                    "The input is not listed in this display's MCCS capabilities"@,
                ),
            ),
        )
    } else if first_route_fault(locale, settings.peers@, checks.peers@) is Some {
        first_route_fault(locale, settings.peers@, checks.peers@)
    } else if !checks.broadcast {
        Some(ErrorView::WakeFailed(invalid_broadcast(locale)))
    } else if 0 < settings.shared_key@.len() < MIN_SHARED_KEY_LENGTH {
        Some(ErrorView::Backend(short_password(locale)))
    } else {
        None
    }
}

/// Whether a display says that it has each of some inputs.
pub open spec fn all_supported(inputs: Seq<DisplayInput>, supported: Seq<DisplayInput>) -> bool {
    forall|i: int| 0 <= i < inputs.len() ==> supported.contains(#[trigger] inputs[i])
}

fn collect_peer_inputs(peers: &Vec<HostRoute>) -> (inputs: Vec<DisplayInput>)
    ensures
        inputs@ == peer_inputs(peers@),
{
    let mut inputs: Vec<DisplayInput> = Vec::new();
    let mut i: usize = 0;
    while i < peers.len()
        invariant
            i <= peers@.len(),
            inputs@ == peer_inputs(peers@.take(i as int)),
        decreases peers@.len() - i,
    {
        assert(peers@.take(i + 1).drop_last() == peers@.take(i as int));
        if let Some(input) = peers[i].input {
            inputs.push(input);
        }
        i += 1;
    }
    assert(peers@.take(i as int) == peers@);
    inputs
}

fn contains_input(inputs: &Vec<DisplayInput>, input: DisplayInput) -> (found: bool)
    ensures
        found == inputs@.contains(input),
{
    let mut i: usize = 0;
    while i < inputs.len()
        invariant
            i <= inputs@.len(),
            forall|k: int| 0 <= k < i ==> inputs@[k] != input,
        decreases inputs@.len() - i,
    {
        if inputs[i] == input {
            return true;
        }
        i += 1;
    }
    false
}

fn has_invalid_input(inputs: &Vec<DisplayInput>) -> (found: bool)
    ensures
        found == exists|i: int| 0 <= i < inputs@.len() && !(#[trigger] inputs@[i]).valid(),
{
    let mut i: usize = 0;
    while i < inputs.len()
        invariant
            i <= inputs@.len(),
            forall|k: int| 0 <= k < i ==> (#[trigger] inputs@[k]).valid(),
        decreases inputs@.len() - i,
    {
        if DisplayInput::new(inputs[i].value()).is_err() {
            assert(!inputs@[i as int].valid());
            return true;
        }
        i += 1;
    }
    false
}

fn has_repeated_input(inputs: &Vec<DisplayInput>) -> (found: bool)
    ensures
        found == !inputs@.no_duplicates(),
{
    let mut seen: Vec<DisplayInput> = Vec::new();
    let mut i: usize = 0;
    while i < inputs.len()
        invariant
            i <= inputs@.len(),
            seen@ == inputs@.take(i as int),
            seen@.no_duplicates(),
        decreases inputs@.len() - i,
    {
        if contains_input(&seen, inputs[i]) {
            let ghost k = choose|k: int| 0 <= k < seen@.len() && seen@[k] == inputs@[i as int];
            assert(inputs@[k] == inputs@[i as int]);
            return true;
        }
        seen.push(inputs[i]);
        i += 1;
        assert(inputs@.take(i as int) == inputs@.take(i - 1).push(inputs@[i - 1]));
    }
    assert(inputs@.take(i as int) == inputs@);
    false
}

fn has_unsupported_input(inputs: &Vec<DisplayInput>, supported: &Vec<DisplayInput>) -> (found: bool)
    ensures
        found == !all_supported(inputs@, supported@),
{
    let mut i: usize = 0;
    while i < inputs.len()
        invariant
            i <= inputs@.len(),
            forall|k: int| 0 <= k < i ==> supported@.contains(#[trigger] inputs@[k]),
        decreases inputs@.len() - i,
    {
        if !contains_input(supported, inputs[i]) {
            assert(!supported@.contains(inputs@[i as int]));
            return true;
        }
        i += 1;
    }
    false
}

/// What is wrong with a route counts whatever routes follow it.
proof fn lemma_first_route_fault(
    locale: UiLocale,
    peers: Seq<HostRoute>,
    has_address: Seq<bool>,
    count: int,
)
    requires
        0 <= count <= peers.len(),
    ensures
        first_route_fault(locale, peers.take(count), has_address) is Some ==> first_route_fault(
            locale,
            peers,
            has_address,
        ) == first_route_fault(locale, peers.take(count), has_address),
    decreases peers.len() - count,
{
    if count < peers.len() {
        assert(peers.take(count + 1).drop_last() == peers.take(count));
        lemma_first_route_fault(locale, peers, has_address, count + 1);
    } else {
        assert(peers.take(count) == peers);
    }
}

fn check_routes(locale: UiLocale, peers: &Vec<HostRoute>, has_address: &Vec<bool>) -> (checked:
    Result<(), DisplayMuxError>)
    requires
        has_address@.len() == peers@.len(),
    ensures
        match checked {
            Ok(()) => first_route_fault(locale, peers@, has_address@) is None,
            Err(error) => first_route_fault(locale, peers@, has_address@) == Some(error@),
        },
{
    let mut i: usize = 0;
    while i < peers.len()
        invariant
            i <= peers@.len(),
            has_address@.len() == peers@.len(),
            first_route_fault(locale, peers@.take(i as int), has_address@) is None,
        decreases peers@.len() - i,
    {
        let peer = &peers[i];
        proof {
            assert(peers@.take(i + 1).drop_last() == peers@.take(i as int));
            assert(peers@.take(i + 1).last() == *peer);
            lemma_first_route_fault(locale, peers@, has_address@, i + 1);
        }
        let address: Option<()> = if has_address[i] {
            Some(())
        } else {
            None
        };
        if let Err(error) = route_endpoint(locale, peer, address) {
            return Err(error);
        }
        if !is_blank(peer.mac_address.as_str()) {
            if let Err(error) = MacAddress::parse(peer.mac_address.as_str()) {
                return Err(error);
            }
        }
        i += 1;
    }
    assert(peers@.take(i as int) == peers@);
    Ok(())
}

/// Examines settings before they are stored.
pub fn validate_settings(
    locale: UiLocale,
    local_host: DestinationHost,
    settings: &AppSettings,
    checks: &AddressChecks,
) -> (validated: Result<(), DisplayMuxError>)
    requires
        checks.peers@.len() == settings.peers@.len(),
    ensures
        match validated {
            Ok(()) => settings_fault(locale, local_host, *settings, *checks) is None,
            Err(error) => settings_fault(locale, local_host, *settings, *checks) == Some(error@),
        },
{
    if settings.local_host != local_host {
        return Err(
            DisplayMuxError::Backend(
                ui_text(
                    locale,
                    "這台電腦的主機類型必須由作業系統自動判定",
                    "This computer's host type must be determined by the operating system",
                ).to_owned(),
            ),
        );
    }
    let for_peers = collect_peer_inputs(&settings.peers);
    let mut assigned: Vec<DisplayInput> = Vec::new();
    if let Some(input) = settings.local_input {
        assigned.push(input);
    }
    let mut i: usize = 0;
    let ghost local = assigned@;
    while i < for_peers.len()
        invariant
            i <= for_peers@.len(),
            assigned@ == local + for_peers@.take(i as int),
        decreases for_peers@.len() - i,
    {
        assigned.push(for_peers[i]);
        i += 1;
        assert(for_peers@.take(i as int) == for_peers@.take(i - 1).push(for_peers@[i - 1]));
    }
    assert(for_peers@.take(i as int) == for_peers@);
    assert(assigned@ == assigned_inputs(*settings));
    if has_invalid_input(&assigned) {
        return Err(
            DisplayMuxError::Backend(
                ui_text(
                    locale,
                    "請選擇有效的螢幕輸入 Port",
                    "Select a valid display input port",
                ).to_owned(),
            ),
        );
    }
    if has_repeated_input(&assigned) {
        return Err(
            DisplayMuxError::Backend(
                ui_text(
                    locale,
                    "每個主機必須使用不同的螢幕輸入 Port",
                    "Each host must use a different display input port",
                ).to_owned(),
            ),
        );
    }
    if let Some(supported) = &settings.supported_inputs {
        if has_unsupported_input(&for_peers, supported) {
            return Err(
                DisplayMuxError::Backend(
                    ui_text(
                        locale,
                        "輸入值不在這台螢幕的 MCCS capabilities 清單中",
                        "The input is not listed in this display's MCCS capabilities",
                    ).to_owned(),
                ),
            );
        }
    }
    if let Err(error) = check_routes(locale, &settings.peers, &checks.peers) {
        return Err(error);
    }
    if !checks.broadcast {
        return Err(
            DisplayMuxError::WakeFailed(
                ui_text(locale, "廣播位址格式無效", "Invalid broadcast address").to_owned(),
            ),
        );
    }
    if !settings.shared_key.as_str().is_empty() && !has_valid_shared_key(
        settings.shared_key.as_str(),
    ) {
        let length = decimal_string(MIN_SHARED_KEY_LENGTH as u128);
        return Err(
            DisplayMuxError::Backend(
                match locale {
                    UiLocale::TraditionalChinese => join3(
                        "配對密碼至少需要 ",
                        length.as_str(),
                        " 個字元",
                    ),
                    UiLocale::English => join3(
                        "The pairing password must contain at least ",
                        length.as_str(),
                        " characters",
                    ),
                },
            ),
        );
    }
    Ok(())
}

// ---------------------------------------------------------------------------
// Laws

/// No two routes lead to the same host.
pub open spec fn distinct_ids(routes: Seq<RouteView>) -> bool {
    forall|i: int, j: int|
        0 <= i < j < routes.len() ==> (#[trigger] routes[i]).id != (#[trigger] routes[j]).id
}

/// Adding or updating a host leaves exactly the hosts there were, and that host; no host comes
/// to be listed twice; the other routes stay as they are; and the input that was assigned to the
/// host is kept.
pub proof fn discovered_host_is_listed_once(routes: Seq<RouteView>, peer: DiscoveredPeer)
    ensures
        ({
            let after = upserted(routes, peer);
            &&& route_position(after, peer.id@) matches Some(position) && after[position as int]
                == route_to(peer, after[position as int].input)
            &&& distinct_ids(routes) ==> distinct_ids(after)
            &&& forall|i: int|
                0 <= i < routes.len() ==> after[i].id == (#[trigger] routes[i]).id && after[i].input
                    == routes[i].input
            &&& forall|i: int|
                0 <= i < routes.len() && routes[i].id != peer.id@ ==> after[i]
                    == #[trigger] routes[i]
            &&& after.len() == if route_position(routes, peer.id@) is Some {
                routes.len()
            } else {
                routes.len() + 1
            }
        }),
{
    let after = upserted(routes, peer);
    route_position_is_first(routes, peer.id@);
    route_position_is_first(after, peer.id@);
    match route_position(routes, peer.id@) {
        Some(position) => {
            assert(after[position as int].id == peer.id@);
            assert forall|i: int| 0 <= i < position implies (#[trigger] after[i]).id != peer.id@ by {
                assert(after[i] == routes[i]);
            }
            if let Some(found) = route_position(after, peer.id@) {
                assert(found == position);
            }
        },
        None => {
            let last = after.len() - 1;
            assert(after[last].id == peer.id@);
            assert forall|i: int| 0 <= i < last implies (#[trigger] after[i]).id != peer.id@ by {
                assert(after[i] == routes[i]);
            }
            if let Some(found) = route_position(after, peer.id@) {
                assert(found == last);
            }
        },
    }
}

/// Adding a host twice is the same as adding it once.
pub proof fn adding_twice_is_adding_once(routes: Seq<RouteView>, peer: DiscoveredPeer)
    ensures
        upserted(upserted(routes, peer), peer) == upserted(routes, peer),
{
    discovered_host_is_listed_once(routes, peer);
    let once = upserted(routes, peer);
    let position = route_position(once, peer.id@)->Some_0 as int;
    route_position_is_first(once, peer.id@);
    assert(once.update(position, route_to(peer, once[position].input)) =~= once);
}

/// A search neither adds nor removes a paired host, and keeps all their inputs. A paired host
/// that was not found keeps its whole route, so that it can still be woken.
pub proof fn search_keeps_hosts_and_inputs(routes: Seq<RouteView>, peers: Seq<DiscoveredPeer>)
    ensures
        refreshed(routes, peers).len() == routes.len(),
        forall|i: int|
            0 <= i < routes.len() ==> {
                &&& refreshed(routes, peers)[i].id == (#[trigger] routes[i]).id
                &&& refreshed(routes, peers)[i].input == routes[i].input
            },
        forall|i: int|
            0 <= i < routes.len() && (forall|k: int|
                0 <= k < peers.len() ==> (#[trigger] peers[k]).id@ != routes[i].id)
                ==> refreshed(routes, peers)[i] == #[trigger] routes[i],
    decreases peers.len(),
{
    if peers.len() > 0 {
        let rest = peers.drop_last();
        let before = refreshed(routes, rest);
        let after = refreshed(routes, peers);
        search_keeps_hosts_and_inputs(routes, rest);
        discovered_host_is_listed_once(before, peers.last());
        assert forall|i: int| 0 <= i < routes.len() implies {
            &&& after[i].id == (#[trigger] routes[i]).id
            &&& after[i].input == routes[i].input
        } by {
            assert(before[i].id == routes[i].id);
        }
        assert forall|i: int|
            0 <= i < routes.len() && (forall|k: int|
                0 <= k < peers.len() ==> (#[trigger] peers[k]).id@ != routes[i].id) implies after[i]
            == #[trigger] routes[i] by {
            assert forall|k: int| 0 <= k < rest.len() implies (#[trigger] rest[k]).id@
                != routes[i].id by {
                assert(rest[k] == peers[k]);
            }
            assert(peers[peers.len() - 1].id@ != routes[i].id);
            assert(before[i] == routes[i]);
        }
    }
}

/// A search brings the route of a paired host that was found up to date: it then leads to where
/// the host was found last.
pub proof fn search_updates_found_hosts(
    routes: Seq<RouteView>,
    peers: Seq<DiscoveredPeer>,
    k: int,
    i: int,
)
    requires
        distinct_ids(routes),
        0 <= i < routes.len(),
        0 <= k < peers.len(),
        peers[k].id@ == routes[i].id,
        forall|later: int| k < later < peers.len() ==> (#[trigger] peers[later]).id@ != routes[i].id,
    ensures
        refreshed(routes, peers)[i] == route_to(peers[k], routes[i].input),
    decreases peers.len(),
{
    let rest = peers.drop_last();
    let before = refreshed(routes, rest);
    search_keeps_hosts_and_inputs(routes, rest);
    discovered_host_is_listed_once(before, peers.last());
    assert(before[i].id == routes[i].id);
    if k == peers.len() - 1 {
        route_position_is_first(before, peers.last().id@);
        let position = route_position(before, peers.last().id@)->Some_0 as int;
        if position != i {
            assert(before[position].id == routes[position].id);
            assert(position < i);
        }
    } else {
        assert(peers[peers.len() - 1].id@ != routes[i].id);
        assert forall|later: int| k < later < rest.len() implies (#[trigger] rest[later]).id@
            != routes[i].id by {
            assert(rest[later] == peers[later]);
        }
        search_updates_found_hosts(routes, rest, k, i);
    }
}

/// A host that was removed is not found any more, and every other host is.
pub proof fn removed_host_is_gone(peers: Seq<HostRoute>, peer_id: Seq<char>, other: HostRoute)
    ensures
        ({
            let kept = peers.filter(|peer: HostRoute| peer.id@ != peer_id);
            &&& route_position(route_views(kept), peer_id) is None
            &&& kept.contains(other) <==> peers.contains(other) && other.id@ != peer_id
        }),
{
    let keep = |peer: HostRoute| peer.id@ != peer_id;
    let kept = peers.filter(keep);
    route_position_is_first(route_views(kept), peer_id);
    broadcast use vstd::seq_lib::group_filter_ensures;

    if let Some(position) = route_position(route_views(kept), peer_id) {
        assert(keep(kept[position as int]));
        assert(route_views(kept)[position as int] == kept[position as int]@);
    }
    if peers.contains(other) && other.id@ != peer_id {
        let i = choose|i: int| 0 <= i < peers.len() && peers[i] == other;
        assert(keep(peers[i]));
        assert(kept.contains(peers[i]));
    }
    if kept.contains(other) {
        peers.lemma_filter_contains_rev(keep, other);
        let i = choose|i: int| 0 <= i < kept.len() && kept[i] == other;
        assert(keep(kept[i]));
    }
}

/// The input of a paired host stands among the collected ones, behind those of the hosts before it.
pub proof fn lemma_peer_inputs(peers: Seq<HostRoute>, i: int) -> (position: int)
    requires
        0 <= i < peers.len(),
        peers[i].input is Some,
    ensures
        0 <= position < peer_inputs(peers).len(),
        peer_inputs(peers)[position] == peers[i].input->Some_0,
        position == peer_inputs(peers.take(i)).len(),
    decreases peers.len(),
{
    let rest = peers.drop_last();
    if i == peers.len() - 1 {
        assert(peers.take(i) == rest);
        peer_inputs(rest).len() as int
    } else {
        assert(rest.take(i) == peers.take(i));
        lemma_peer_inputs(rest, i)
    }
}

/// A host with an input adds one to those that are collected.
pub proof fn lemma_peer_inputs_grow(peers: Seq<HostRoute>, i: int, j: int)
    requires
        0 <= i < j <= peers.len(),
        peers[i].input is Some,
    ensures
        peer_inputs(peers.take(i)).len() < peer_inputs(peers.take(j)).len(),
    decreases j,
{
    assert(peers.take(j).drop_last() == peers.take(j - 1));
    if i < j - 1 {
        lemma_peer_inputs_grow(peers, i, j - 1);
    }
}

/// In settings that were found to be in order, every assigned input is valid, no two hosts have
/// the same one, and a display that names its inputs has each that is assigned to a paired host.
pub proof fn valid_settings_assign_each_input_once(
    locale: UiLocale,
    local_host: DestinationHost,
    settings: AppSettings,
    checks: AddressChecks,
)
    requires
        settings_fault(locale, local_host, settings, checks) is None,
    ensures
        settings.local_input matches Some(input) ==> input.valid(),
        forall|i: int|
            0 <= i < settings.peers@.len() ==> ((#[trigger] settings.peers@[i]).input matches Some(
                input,
            ) ==> {
                &&& input.valid()
                &&& settings.local_input != Some(input)
                &&& settings.supported_inputs matches Some(supported) ==> supported@.contains(input)
            }),
        forall|i: int, j: int|
            0 <= i < j < settings.peers@.len() && (#[trigger] settings.peers@[i]).input is Some
                ==> settings.peers@[i].input != (#[trigger] settings.peers@[j]).input,
{
    let peers = settings.peers@;
    let assigned = assigned_inputs(settings);
    let for_peers = peer_inputs(peers);
    let offset: int = if settings.local_input is Some {
        1
    } else {
        0
    };
    assert(forall|k: int|
        0 <= k < for_peers.len() ==> #[trigger] assigned[k + offset] == for_peers[k]);
    if settings.local_input is Some {
        assert(assigned[0] == settings.local_input->Some_0);
    }
    assert forall|i: int| 0 <= i < peers.len() implies ((#[trigger] peers[i]).input matches Some(
        input,
    ) ==> {
        &&& input.valid()
        &&& settings.local_input != Some(input)
        &&& settings.supported_inputs matches Some(supported) ==> supported@.contains(input)
    }) by {
        if peers[i].input is Some {
            let p = lemma_peer_inputs(peers, i);
            assert(assigned[p + offset] == peers[i].input->Some_0);
        }
    }
    assert forall|i: int, j: int|
        0 <= i < j < peers.len() && (#[trigger] peers[i]).input is Some implies peers[i].input != (
    #[trigger] peers[j]).input by {
        if peers[j].input is Some {
            let p = lemma_peer_inputs(peers, i);
            let q = lemma_peer_inputs(peers, j);
            lemma_peer_inputs_grow(peers, i, j);
            assert(assigned[p + offset] == peers[i].input->Some_0);
            assert(assigned[q + offset] == peers[j].input->Some_0);
        }
    }
}

/// The settings of a new installation are in order.
pub proof fn default_settings_are_in_order(
    locale: UiLocale,
    local_host: DestinationHost,
    settings: AppSettings,
    checks: AddressChecks,
)
    requires
        is_default(settings, local_host),
        checks.broadcast,
    ensures
        settings_fault(locale, local_host, settings, checks) is None,
{
    assert(peer_inputs(settings.peers@).len() == 0);
}

} // verus!
