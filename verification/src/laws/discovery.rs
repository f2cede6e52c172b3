//! Laws of finding and pairing hosts.

use crate::discovery::{discover_peers, find_announced, find_peers, is_search, select_peer, FoundPeers};
use crate::domain::DiscoveredPeer;
use crate::error::DisplayMuxError;
use crate::laws::hosts::{leads_to, same_route};
use crate::laws::switching::{is_first_host, lemma_first_host, lemma_no_host, no_host};
use crate::locale::{core_user_error, UiLocale};
use crate::port::PeerDiscovery;
use crate::settings::{refresh_paired_endpoints, route_views, AppSettings};
use vstd::prelude::*;

verus! {

/// What a search answers.
pub open spec fn announces<D: PeerDiscovery>(
    discovery: D,
    listed: Result<Vec<DiscoveredPeer>, DisplayMuxError>,
) -> bool {
    forall|answer: Result<Vec<DiscoveredPeer>, DisplayMuxError>|
        #[trigger] call_ensures(D::peers, (&discovery,), answer) ==> answer == listed
}

/// Whether the host at `position` is the first that announces itself under an id.
pub open spec fn is_first_announced(
    peers: Seq<DiscoveredPeer>,
    id: Seq<char>,
    position: int,
) -> bool {
    &&& 0 <= position < peers.len()
    &&& peers[position].id@ == id
    &&& forall|i: int| 0 <= i < position ==> (#[trigger] peers[i]).id@ != id
}

/// A search finds the hosts that announce themselves; a failure is told to the user; without a
/// search there is only an error.
pub proof fn announced_hosts_are_found<D: PeerDiscovery>(
    locale: UiLocale,
    discovery: D,
    listed: Result<Vec<DiscoveredPeer>, DisplayMuxError>,
    found: Result<Vec<DiscoveredPeer>, String>,
    without: Result<Vec<DiscoveredPeer>, String>,
    told: String,
)
    requires
        call_ensures(find_peers::<D>, (locale, Some(&discovery)), found),
        call_ensures(find_peers::<D>, (locale, None::<&D>), without),
        announces(discovery, listed),
        listed matches Err(failure) ==> call_ensures(core_user_error, (locale, &failure), told),
    ensures
        match listed {
            Ok(peers) => found == Ok::<_, String>(peers),
            Err(_) => found matches Err(text) && text@ == told@,
        },
        without is Err,
{
}

/// A host is found by its id among those that announce themselves: the first with that id.
pub proof fn announced_host_is_found_by_its_id<D: PeerDiscovery>(
    locale: UiLocale,
    discovery: D,
    peers: Vec<DiscoveredPeer>,
    peer_id: &str,
    found: Result<DiscoveredPeer, String>,
    position: int,
)
    requires
        call_ensures(find_announced::<D>, (locale, Some(&discovery), peer_id), found),
        announces(discovery, Ok(peers)),
    ensures
        is_first_announced(peers@, peer_id@, position) ==> found == Ok::<_, String>(
            peers@[position],
        ),
        (forall|i: int| 0 <= i < peers@.len() ==> (#[trigger] peers@[i]).id@ != peer_id@)
            ==> found is Err,
{
    let listed = choose|listed: Result<Vec<DiscoveredPeer>, String>|
        #[trigger] is_search(
            locale,
            Some(&discovery),
            crate::discovery::no_search(locale),
            listed,
        ) && crate::discovery::finds_peer(locale, listed, peer_id@, found);
    assert(listed == Ok::<_, String>(peers));
    if is_first_announced(peers@, peer_id@, position) {
        assert(peers@[position].id@ == peer_id@);
        let i = choose|i: int|
            #[trigger] crate::discovery::is_first_peer(peers@, peer_id@, i) && peers@[i]
                == found->Ok_0;
        if i < position {
            assert(peers@[i].id@ != peer_id@);
        } else if position < i {
            assert(peers@[position].id@ != peer_id@);
        }
    }
}

/// Pairing with a host that announces itself leads to where it was found: in its place, where it
/// was paired already, with its input kept; else behind the others, without an input.
pub proof fn pairing_leads_to_the_host<D: PeerDiscovery>(
    locale: UiLocale,
    discovery: D,
    peers: Vec<DiscoveredPeer>,
    peer_id: &str,
    settings: AppSettings,
    selected: Result<AppSettings, String>,
    position: int,
    place: int,
)
    requires
        call_ensures(select_peer::<D>, (locale, Some(&discovery), peer_id, settings), selected),
        announces(discovery, Ok(peers)),
        is_first_announced(peers@, peer_id@, position),
    ensures
        selected is Ok,
        is_first_host(settings.peers@, peer_id@, place) ==> {
            let after = selected->Ok_0.peers@;
            &&& after.len() == settings.peers@.len()
            &&& leads_to(after[place], peers@[position])
            &&& after[place].input == settings.peers@[place].input
        },
        no_host(settings.peers@, peer_id@) ==> {
            let after = selected->Ok_0.peers@;
            &&& after.len() == settings.peers@.len() + 1
            &&& leads_to(after.last(), peers@[position])
            &&& after.last().input is None
        },
{
    let (listed, found) = choose|
        listed: Result<Vec<DiscoveredPeer>, String>,
        found: Result<DiscoveredPeer, String>,
    |
        {
            &&& is_search(
                locale,
                Some(&discovery),
                crate::discovery::no_search(locale),
                listed,
            )
            &&& #[trigger] crate::discovery::finds_peer(locale, listed, peer_id@, found)
            &&& match (found, selected) {
                (Err(text), Err(told)) => told == text,
                (Ok(peer), Ok(after)) => {
                    &&& crate::settings::only_peers_changed(settings, after)
                    &&& route_views(after.peers@) == crate::settings::upserted(
                        route_views(settings.peers@),
                        peer,
                    )
                },
                _ => false,
            }
        };
    assert(listed == Ok::<_, String>(peers));
    assert(peers@[position].id@ == peer_id@);
    let i = choose|i: int|
        #[trigger] crate::discovery::is_first_peer(peers@, peer_id@, i) && peers@[i]
            == found->Ok_0;
    if i < position {
        assert(peers@[i].id@ != peer_id@);
    } else if position < i {
        assert(peers@[position].id@ != peer_id@);
    }
    let after = selected->Ok_0.peers@;
    let views = route_views(after);
    let before = route_views(settings.peers@);
    if is_first_host(settings.peers@, peer_id@, place) {
        lemma_first_host(settings.peers@, peer_id@, place);
        assert(views.len() == before.len());
        assert(views[place] == after[place]@);
        assert(before[place] == settings.peers@[place]@);
    }
    if no_host(settings.peers@, peer_id@) {
        lemma_no_host(settings.peers@, peer_id@);
        assert(views.len() == before.len() + 1);
        assert(views.last() == after.last()@);
    }
}

/// A search that fails leaves the settings as they are.
pub proof fn failed_search_changes_nothing<D: PeerDiscovery>(
    locale: UiLocale,
    discovery: D,
    failure: DisplayMuxError,
    settings: &mut AppSettings,
    found: Result<FoundPeers, String>,
)
    requires
        call_ensures(discover_peers::<D>, (locale, Some(&discovery), settings), found),
        announces(discovery, Err(failure)),
    ensures
        found is Err,
        *final(settings) == *old(settings),
{
}

/// A search brings the routes of paired hosts up to date by what it found, and hands it on.
pub proof fn search_refreshes_paired_hosts<D: PeerDiscovery>(
    locale: UiLocale,
    discovery: D,
    peers: Vec<DiscoveredPeer>,
    settings: &mut AppSettings,
    found: Result<FoundPeers, String>,
    slice: &[DiscoveredPeer],
    other: &mut AppSettings,
    changed: bool,
)
    requires
        call_ensures(discover_peers::<D>, (locale, Some(&discovery), settings), found),
        announces(discovery, Ok(peers)),
        slice@ == peers@,
        *old(other) == *old(settings),
        call_ensures(refresh_paired_endpoints, (other, slice), changed),
    ensures
        found matches Ok(found) && found.peers == peers && found.changed == changed,
        final(settings).peers@.len() == final(other).peers@.len(),
        forall|i: int|
            0 <= i < final(settings).peers@.len() ==> same_route(
                #[trigger] final(settings).peers@[i],
                final(other).peers@[i],
            ),
{
    let a = route_views(final(settings).peers@);
    let b = route_views(final(other).peers@);
    let listed = choose|listed: Result<Vec<DiscoveredPeer>, String>|
        {
            &&& #[trigger] is_search(
                locale,
                Some(&discovery),
                crate::discovery::search_unavailable(locale),
                listed,
            )
            &&& match listed {
                Err(text) => {
                    &&& found == Err::<FoundPeers, _>(text)
                    &&& *final(settings) == *old(settings)
                },
                Ok(peers) => {
                    &&& found is Ok
                    &&& found->Ok_0.peers == peers
                    &&& a == crate::settings::refreshed(route_views(old(settings).peers@), peers@)
                    &&& found->Ok_0.changed == (a != route_views(old(settings).peers@))
                },
            }
        };
    assert(listed == Ok::<_, String>(peers));
    assert(a == b);
    assert(a.len() == b.len());
    assert forall|i: int| 0 <= i < final(settings).peers@.len() implies same_route(
        #[trigger] final(settings).peers@[i],
        final(other).peers@[i],
    ) by {
        assert(a[i] == final(settings).peers@[i]@);
        assert(b[i] == final(other).peers@[i]@);
    }
}

} // verus!
