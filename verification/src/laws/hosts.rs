//! Laws of paired hosts: finding, adding, updating, removing, reaching and waking them.

use crate::domain::DiscoveredPeer;
use crate::laws::settings::{is_six_pairs, lemma_blank, lemma_six_pairs};
use crate::laws::switching::{is_first_host, lemma_first_host, lemma_no_host, no_host};
use crate::locale::UiLocale;
use crate::network::{MacAddress, PeerEndpoint, WakeTarget};
use crate::settings::{
    distinct_ids, find_peer, is_request_endpoint, is_wake_target, locate_peer, locate_wake_target,
    parses, refresh_paired_endpoints, remove_peer, request_endpoint, route_views,
    search_keeps_hosts_and_inputs, search_updates_found_hosts, upsert_discovered_peer, wake_route,
    AppSettings, HostRoute,
};
use vstd::prelude::*;

verus! {

/// Whether a route leads to where a host was found.
pub open spec fn leads_to(route: HostRoute, peer: DiscoveredPeer) -> bool {
    &&& route.id@ == peer.id@
    &&& route.name@ == peer.name@
    &&& route.platform == peer.platform
    &&& route.address@ == peer.address@
    &&& route.port == peer.port
    &&& match peer.mac_address {
        Some(mac_address) => route.mac_address@ == mac_address@,
        None => route.mac_address@.len() == 0,
    }
}

/// Whether two routes say the same.
pub open spec fn same_route(a: HostRoute, b: HostRoute) -> bool {
    &&& a.id@ == b.id@
    &&& a.name@ == b.name@
    &&& a.platform == b.platform
    &&& a.address@ == b.address@
    &&& a.port == b.port
    &&& a.mac_address@ == b.mac_address@
    &&& a.input == b.input
}

/// Whether two settings agree in everything but the paired hosts.
pub open spec fn only_hosts_differ(a: AppSettings, b: AppSettings) -> bool {
    &&& a.local_host == b.local_host
    &&& a.shared_monitor == b.shared_monitor
    &&& a.local_input == b.local_input
    &&& a.supported_inputs == b.supported_inputs
    &&& a.broadcast_ip == b.broadcast_ip
    &&& a.wake_port == b.wake_port
    &&& a.shared_key == b.shared_key
    &&& a.wait_seconds == b.wait_seconds
    &&& a.autostart == b.autostart
    &&& a.check_updates == b.check_updates
}

/// The first host with an id is found under it, and under an id that no host has none is.
pub proof fn first_host_with_the_id_is_found(
    locale: UiLocale,
    settings: AppSettings,
    peer_id: &str,
    position: int,
    found: Result<&HostRoute, String>,
)
    requires
        call_ensures(find_peer, (locale, &settings, peer_id), found),
    ensures
        is_first_host(settings.peers@, peer_id@, position) ==> (found matches Ok(peer) && *peer
            == settings.peers@[position]),
        no_host(settings.peers@, peer_id@) ==> found is Err,
{
    if is_first_host(settings.peers@, peer_id@, position) {
        lemma_first_host(settings.peers@, peer_id@, position);
    }
    if no_host(settings.peers@, peer_id@) {
        lemma_no_host(settings.peers@, peer_id@);
    }
}

/// A host that is paired already is brought up to date in its place: its route leads to where the
/// host was found, its input stays, and so do all other hosts and settings.
pub proof fn paired_host_is_updated_in_place(
    settings: &mut AppSettings,
    peer: DiscoveredPeer,
    position: int,
    i: int,
)
    requires
        call_ensures(upsert_discovered_peer, (settings, &peer), ()),
        is_first_host(old(settings).peers@, peer.id@, position),
        0 <= i < old(settings).peers@.len(),
    ensures
        only_hosts_differ(*old(settings), *final(settings)),
        final(settings).peers@.len() == old(settings).peers@.len(),
        leads_to(final(settings).peers@[position], peer),
        final(settings).peers@[position].input == old(settings).peers@[position].input,
        i != position ==> same_route(final(settings).peers@[i], old(settings).peers@[i]),
{
    lemma_first_host(old(settings).peers@, peer.id@, position);
    let before = route_views(old(settings).peers@);
    let after = route_views(final(settings).peers@);
    assert(after.len() == before.len());
    assert(after[position] == final(settings).peers@[position]@);
    assert(before[position] == old(settings).peers@[position]@);
    assert(after[i] == final(settings).peers@[i]@);
    assert(before[i] == old(settings).peers@[i]@);
}

/// A host that is not paired yet is added behind the others, without an input; the others stay.
pub proof fn new_host_is_added_without_an_input(
    settings: &mut AppSettings,
    peer: DiscoveredPeer,
    i: int,
)
    requires
        call_ensures(upsert_discovered_peer, (settings, &peer), ()),
        no_host(old(settings).peers@, peer.id@),
    ensures
        only_hosts_differ(*old(settings), *final(settings)),
        final(settings).peers@.len() == old(settings).peers@.len() + 1,
        leads_to(final(settings).peers@.last(), peer),
        final(settings).peers@.last().input is None,
        0 <= i < old(settings).peers@.len() ==> same_route(
            final(settings).peers@[i],
            old(settings).peers@[i],
        ),
{
    lemma_no_host(old(settings).peers@, peer.id@);
    let before = route_views(old(settings).peers@);
    let after = route_views(final(settings).peers@);
    assert(after.len() == before.len() + 1);
    assert(after.last() == final(settings).peers@.last()@);
    if 0 <= i < before.len() {
        assert(after[i] == final(settings).peers@[i]@);
        assert(before[i] == old(settings).peers@[i]@);
    }
}

/// A search adds and removes no host and keeps all inputs. A host that was not found keeps its
/// route. Something changed exactly where a route says something else than before.
pub proof fn search_leaves_hosts_that_were_not_found(
    settings: &mut AppSettings,
    peers: &[DiscoveredPeer],
    changed: bool,
    i: int,
)
    requires
        call_ensures(refresh_paired_endpoints, (settings, peers), changed),
    ensures
        only_hosts_differ(*old(settings), *final(settings)),
        final(settings).peers@.len() == old(settings).peers@.len(),
        0 <= i < old(settings).peers@.len() ==> {
            let before = old(settings).peers@[i];
            let after = final(settings).peers@[i];
            &&& after.id@ == before.id@
            &&& after.input == before.input
            &&& (forall|k: int| 0 <= k < peers@.len() ==> (#[trigger] peers@[k]).id@ != before.id@)
                ==> same_route(after, before)
        },
        changed <==> exists|k: int|
            0 <= k < old(settings).peers@.len() && !same_route(
                #[trigger] final(settings).peers@[k],
                old(settings).peers@[k],
            ),
{
    let before = route_views(old(settings).peers@);
    let after = route_views(final(settings).peers@);
    search_keeps_hosts_and_inputs(before, peers@);
    assert(after.len() == before.len());
    if 0 <= i < before.len() {
        assert(before[i] == old(settings).peers@[i]@);
        assert(after[i] == final(settings).peers@[i]@);
    }
    if changed {
        if forall|k: int|
            0 <= k < before.len() ==> same_route(
                #[trigger] final(settings).peers@[k],
                old(settings).peers@[k],
            ) {
            assert forall|k: int| 0 <= k < before.len() implies after[k] == before[k] by {
                assert(same_route(final(settings).peers@[k], old(settings).peers@[k]));
            }
            assert(after =~= before);
        }
    } else {
        assert forall|k: int| 0 <= k < before.len() implies same_route(
            #[trigger] final(settings).peers@[k],
            old(settings).peers@[k],
        ) by {
            assert(after[k] == before[k]);
        }
    }
}

/// After a search the route of a paired host leads to where the host was found last.
pub proof fn search_follows_hosts_that_were_found(
    settings: &mut AppSettings,
    peers: &[DiscoveredPeer],
    changed: bool,
    i: int,
    k: int,
)
    requires
        call_ensures(refresh_paired_endpoints, (settings, peers), changed),
        0 <= i < old(settings).peers@.len(),
        forall|a: int, b: int|
            0 <= a < b < old(settings).peers@.len() ==> (#[trigger] old(settings).peers@[a]).id@
                != (#[trigger] old(settings).peers@[b]).id@,
        0 <= k < peers@.len(),
        peers@[k].id@ == old(settings).peers@[i].id@,
        forall|later: int|
            k < later < peers@.len() ==> (#[trigger] peers@[later]).id@
                != old(settings).peers@[i].id@,
    ensures
        final(settings).peers@.len() == old(settings).peers@.len(),
        leads_to(final(settings).peers@[i], peers@[k]),
{
    let before = route_views(old(settings).peers@);
    let after = route_views(final(settings).peers@);
    assert forall|a: int, b: int| 0 <= a < b < before.len() implies (#[trigger] before[a]).id != (
    #[trigger] before[b]).id by {
        assert(before[a] == old(settings).peers@[a]@);
        assert(before[b] == old(settings).peers@[b]@);
        assert(old(settings).peers@[a].id@ != old(settings).peers@[b].id@);
    }
    assert(distinct_ids(before));
    assert(before[i] == old(settings).peers@[i]@);
    search_keeps_hosts_and_inputs(before, peers@);
    search_updates_found_hosts(before, peers@, k, i);
    assert(after[i] == final(settings).peers@[i]@);
}

/// Removing a host from a single one leaves nothing if it has the id, else that host.
pub proof fn only_the_host_with_the_id_is_removed(settings: &mut AppSettings, peer_id: &str)
    requires
        call_ensures(remove_peer, (settings, peer_id), ()),
        old(settings).peers@.len() == 1,
    ensures
        only_hosts_differ(*old(settings), *final(settings)),
        if old(settings).peers@[0].id@ == peer_id@ {
            final(settings).peers@.len() == 0
        } else {
            final(settings).peers@ == old(settings).peers@
        },
{
    reveal(Seq::filter);
    let peers = old(settings).peers@;
    assert(peers.drop_last().len() == 0);
    assert(peers.drop_last().filter(|peer: HostRoute| peer.id@ != peer_id@).len() == 0);
    if peers[0].id@ != peer_id@ {
        assert(final(settings).peers@ =~= peers);
    }
}

/// Each host is removed or kept for itself, and those that are kept stay in their order: removing
/// from two lists one behind the other leaves what is left of each.
pub proof fn hosts_are_removed_one_by_one(
    first: &mut AppSettings,
    second: &mut AppSettings,
    both: &mut AppSettings,
    peer_id: &str,
)
    requires
        call_ensures(remove_peer, (first, peer_id), ()),
        call_ensures(remove_peer, (second, peer_id), ()),
        call_ensures(remove_peer, (both, peer_id), ()),
        old(both).peers@ == old(first).peers@ + old(second).peers@,
    ensures
        final(both).peers@ == final(first).peers@ + final(second).peers@,
{
    Seq::filter_distributes_over_add(
        old(first).peers@,
        old(second).peers@,
        |peer: HostRoute| peer.id@ != peer_id@,
    );
}

/// A request can be sent exactly where the address is one and the password has at least eight
/// characters; it then goes to that address and to the port of the route.
pub proof fn request_goes_to_the_route<A>(
    locale: UiLocale,
    settings: AppSettings,
    peer: HostRoute,
    address: Option<A>,
    endpoint: Result<PeerEndpoint<A>, String>,
)
    requires
        call_ensures(request_endpoint::<A>, (locale, &settings, &peer, address), endpoint),
    ensures
        endpoint is Ok <==> address is Some && settings.shared_key@.len() >= 8,
        endpoint matches Ok(endpoint) ==> Some(endpoint.address) == address && endpoint.port
            == peer.port,
{
}

/// A host can be woken exactly where its hardware address is six pairs of hexadecimal digits and
/// the broadcast address is one; the packet then goes to that address and to the configured port,
/// for the hardware address of the route.
pub proof fn wake_packet_goes_to_the_broadcast_address<A>(
    locale: UiLocale,
    settings: AppSettings,
    peer: HostRoute,
    mac_text: &str,
    broadcast: Option<A>,
    mac_address: Result<MacAddress, crate::error::DisplayMuxError>,
    target: Result<WakeTarget<A>, String>,
)
    requires
        call_ensures(wake_route::<A>, (locale, &settings, &peer, broadcast), target),
        mac_text@ == peer.mac_address@,
        call_ensures(MacAddress::parse, (mac_text,), mac_address),
    ensures
        target is Ok <==> is_six_pairs(peer.mac_address@) && broadcast is Some,
        target matches Ok(target) ==> {
            &&& Some(target.broadcast_address) == broadcast
            &&& target.port == settings.wake_port
            &&& mac_address matches Ok(mac_address) && forall|k: int|
                0 <= k < 6 ==> target.mac_address.octets@[k] == #[trigger] mac_address.octets@[k]
        },
{
    lemma_six_pairs(peer.mac_address@);
    lemma_blank(peer.mac_address@);
    if is_six_pairs(peer.mac_address@) {
        let text = peer.mac_address@;
        assert(crate::laws::settings::is_hex_digit(text[0]));
        assert(!crate::text::is_white_space(text[0]));
    }
}

/// What a parser makes of a text.
pub open spec fn reads_as<A, F: Fn(&str) -> Option<A>>(
    parse: F,
    text: Seq<char>,
    address: Option<A>,
) -> bool {
    forall|given: &str, answer: Option<A>|
        given@ == text && #[trigger] call_ensures(parse, (given,), answer) ==> answer == address
}

proof fn lemma_parsed<A, F: Fn(&str) -> Option<A>>(
    parse: F,
    text: Seq<char>,
    address: Option<A>,
    answer: Option<A>,
)
    requires
        reads_as::<A, F>(parse, text, address),
        parses(parse, text, answer),
    ensures
        answer == address,
{
    let given = choose|given: &str| given@ == text && #[trigger] call_ensures(
        parse,
        (given,),
        answer,
    );
    assert(call_ensures(parse, (given,), answer));
}

/// A request to a paired host goes to the address that its route spells.
pub proof fn host_is_reached_at_the_address_of_its_route<A, F: Fn(&str) -> Option<A>>(
    locale: UiLocale,
    settings: AppSettings,
    peer: HostRoute,
    parse_ip: F,
    address: Option<A>,
    endpoint: Result<PeerEndpoint<A>, String>,
)
    requires
        call_ensures(locate_peer::<A, F>, (locale, &settings, &peer, parse_ip), endpoint),
        reads_as::<A, F>(parse_ip, peer.address@, address),
    ensures
        endpoint is Ok <==> address is Some && settings.shared_key@.len() >= 8,
        endpoint matches Ok(endpoint) ==> Some(endpoint.address) == address && endpoint.port
            == peer.port,
{
    let answer = choose|answer: Option<A>|
        #[trigger] parses(parse_ip, peer.address@, answer) && is_request_endpoint(
            locale,
            settings,
            peer,
            answer,
            endpoint,
        );
    lemma_parsed::<A, F>(parse_ip, peer.address@, address, answer);
}

/// The wake packet for a host goes to the address that the broadcast setting spells.
pub proof fn host_is_woken_over_the_broadcast_setting<A, F: Fn(&str) -> Option<A>>(
    locale: UiLocale,
    settings: AppSettings,
    peer: HostRoute,
    parse_ipv4: F,
    broadcast: Option<A>,
    target: Result<WakeTarget<A>, String>,
)
    requires
        call_ensures(
            locate_wake_target::<A, F>,
            (locale, &settings, &peer, parse_ipv4),
            target,
        ),
        reads_as::<A, F>(parse_ipv4, settings.broadcast_ip@, broadcast),
    ensures
        target is Ok <==> is_six_pairs(peer.mac_address@) && broadcast is Some,
        target matches Ok(target) ==> Some(target.broadcast_address) == broadcast && target.port
            == settings.wake_port,
{
    let answer = choose|answer: Option<A>|
        #[trigger] parses(parse_ipv4, settings.broadcast_ip@, answer) && is_wake_target(
            locale,
            settings,
            peer,
            answer,
            target,
        );
    lemma_parsed::<A, F>(parse_ipv4, settings.broadcast_ip@, broadcast, answer);
    lemma_six_pairs(peer.mac_address@);
    lemma_blank(peer.mac_address@);
    if is_six_pairs(peer.mac_address@) {
        let text = peer.mac_address@;
        assert(crate::laws::settings::is_hex_digit(text[0]));
        assert(!crate::text::is_white_space(text[0]));
    }
}

} // verus!
