//! Pairing with hosts that announce themselves on the local network.

use crate::domain::DiscoveredPeer;
use crate::error::{error_message, DisplayMuxError};
use crate::locale::{core_user_error, localized, ui_text, UiLocale};
use crate::port::PeerDiscovery;
use crate::settings::{
    only_peers_changed, refresh_paired_endpoints, refreshed, route_views, upsert_discovered_peer,
    upserted, AppSettings,
};
use crate::text::same_text;
use vstd::prelude::*;

verus! {

/// Whether `index` is the position of the first host with a given id.
pub open spec fn is_first_peer(peers: Seq<DiscoveredPeer>, id: Seq<char>, index: int) -> bool {
    &&& 0 <= index < peers.len()
    &&& peers[index].id@ == id
    &&& forall|i: int| 0 <= i < index ==> (#[trigger] peers[i]).id@ != id
}

/// Finds the first host with a given id.
pub fn discovered_position(peers: &[DiscoveredPeer], id: &str) -> (index: Option<usize>)
    ensures
        match index {
            Some(index) => is_first_peer(peers@, id@, index as int),
            None => forall|i: int| 0 <= i < peers@.len() ==> (#[trigger] peers@[i]).id@ != id@,
        },
{
    let mut i: usize = 0;
    while i < peers.len()
        invariant
            i <= peers@.len(),
            forall|k: int| 0 <= k < i ==> (#[trigger] peers@[k]).id@ != id@,
        decreases peers@.len() - i,
    {
        if same_text(peers[i].id.as_str(), id) {
            return Some(i);
        }
        i += 1;
    }
    None
}

/// The result of a search: the hosts that were found, and whether the routes of paired hosts
/// changed, so that the settings have to be stored.
#[derive(Debug, PartialEq, Eq)]
pub struct FoundPeers {
    pub peers: Vec<DiscoveredPeer>,
    pub changed: bool,
}

/// What is said where the search could not be started.
pub open spec fn search_unavailable(locale: UiLocale) -> Seq<char> {
    localized(
        locale,
        "無法啟動區域網路搜尋；請確認防火牆允許 DisplayMux 使用私人網路"@,
        "Unable to start local network discovery. Allow DisplayMux through the firewall on private networks."@,
    )
}

/// What a search may give: the hosts that announce themselves, or what is said where there is no
/// search, which is `unavailable`, or where it fails.
pub open spec fn is_search<D: PeerDiscovery>(
    locale: UiLocale,
    discovery: Option<&D>,
    unavailable: Seq<char>,
    found: Result<Vec<DiscoveredPeer>, String>,
) -> bool {
    match discovery {
        None => found matches Err(text) && text@ == unavailable,
        Some(discovery) => exists|listed: Result<Vec<DiscoveredPeer>, DisplayMuxError>|
            {
                &&& #[trigger] call_ensures(D::peers, (discovery,), listed)
                &&& match listed {
                    Err(error) => found matches Err(text) && text@ == error_message(
                        error@,
                        locale == UiLocale::TraditionalChinese,
                    ),
                    Ok(peers) => found == Ok::<_, String>(peers),
                }
            },
    }
}

fn search<D: PeerDiscovery>(
    locale: UiLocale,
    discovery: Option<&D>,
    unavailable: &'static str,
) -> (found: Result<Vec<DiscoveredPeer>, String>)
    ensures
        is_search(locale, discovery, unavailable@, found),
{
    let discovery = match discovery {
        Some(discovery) => discovery,
        None => return Err(unavailable.to_owned()),
    };
    let listed = discovery.peers();
    let ghost answer = listed;
    assert(call_ensures(D::peers, (discovery,), answer));
    match listed {
        Ok(peers) => Ok(peers),
        Err(error) => Err(core_user_error(locale, &error)),
    }
}

/// Looks for hosts.
pub fn find_peers<D: PeerDiscovery>(locale: UiLocale, discovery: Option<&D>) -> (found: Result<
    Vec<DiscoveredPeer>,
    String,
>)
    ensures
        is_search(locale, discovery, search_unavailable(locale), found),
{
    search(
        locale,
        discovery,
        ui_text(
            locale,
            "無法啟動區域網路搜尋；請確認防火牆允許 DisplayMux 使用私人網路",
            "Unable to start local network discovery. Allow DisplayMux through the firewall on private networks.",
        ),
    )
}

/// Looks for hosts and brings the routes of those that are paired up to date.
pub fn discover_peers<D: PeerDiscovery>(
    locale: UiLocale,
    discovery: Option<&D>,
    settings: &mut AppSettings,
) -> (found: Result<FoundPeers, String>)
    ensures
        exists|listed: Result<Vec<DiscoveredPeer>, String>|
            {
                &&& #[trigger] is_search(locale, discovery, search_unavailable(locale), listed)
                &&& match listed {
                    Err(text) => {
                        &&& found == Err::<FoundPeers, _>(text)
                        &&& *final(settings) == *old(settings)
                    },
                    Ok(peers) => {
                        &&& found is Ok
                        &&& found->Ok_0.peers == peers
                        &&& route_views(final(settings).peers@) == refreshed(
                            route_views(old(settings).peers@),
                            peers@,
                        )
                        &&& only_peers_changed(*old(settings), *final(settings))
                        &&& found->Ok_0.changed == (route_views(final(settings).peers@)
                            != route_views(old(settings).peers@))
                    },
                }
            },
{
    match find_peers(locale, discovery) {
        Ok(peers) => {
            let changed = refresh_paired_endpoints(settings, &peers);
            Ok(FoundPeers { peers, changed })
        },
        Err(text) => Err(text),
    }
}

/// What is said where there is no search to choose a host from.
pub open spec fn no_search(locale: UiLocale) -> Seq<char> {
    localized(locale, "區域網路搜尋目前不可用"@, "Local network discovery is unavailable"@)
}

/// What is said of a host that is no longer found.
pub open spec fn peer_offline(locale: UiLocale) -> Seq<char> {
    localized(
        locale,
        "這台主機已離線，請重新搜尋後再試一次"@,
        "This host is offline. Search again and retry."@,
    )
}

/// What looking for a host by its id may give, for the result of a search.
pub open spec fn finds_peer(
    locale: UiLocale,
    listed: Result<Vec<DiscoveredPeer>, String>,
    peer_id: Seq<char>,
    found: Result<DiscoveredPeer, String>,
) -> bool {
    match (listed, found) {
        (Err(text), Err(told)) => told == text,
        (Ok(peers), Ok(peer)) => exists|i: int|
            #[trigger] is_first_peer(peers@, peer_id, i) && peers@[i] == peer,
        (Ok(peers), Err(told)) => {
            &&& forall|i: int| 0 <= i < peers@.len() ==> (#[trigger] peers@[i]).id@ != peer_id
            &&& told@ == peer_offline(locale)
        },
        _ => false,
    }
}

/// Finds a host by its id among those that announce themselves.
pub fn find_announced<D: PeerDiscovery>(
    locale: UiLocale,
    discovery: Option<&D>,
    peer_id: &str,
) -> (found: Result<DiscoveredPeer, String>)
    ensures
        exists|listed: Result<Vec<DiscoveredPeer>, String>|
            #[trigger] is_search(locale, discovery, no_search(locale), listed) && finds_peer(
                locale,
                listed,
                peer_id@,
                found,
            ),
{
    let listed = search(
        locale,
        discovery,
        ui_text(
            locale,
            "區域網路搜尋目前不可用",
            "Local network discovery is unavailable",
        ),
    );
    let ghost answer = listed;
    assert(is_search(locale, discovery, no_search(locale), answer));
    let mut peers = match listed {
        Ok(peers) => peers,
        Err(text) => return Err(text),
    };
    match discovered_position(&peers, peer_id) {
        Some(index) => {
            assert(is_first_peer(answer->Ok_0@, peer_id@, index as int));
            Ok(peers.remove(index))
        },
        None => Err(
            ui_text(
                locale,
                "這台主機已離線，請重新搜尋後再試一次",
                "This host is offline. Search again and retry.",
            ).to_owned(),
        ),
    }
}

/// Pairs with a host that announces itself.
pub fn select_peer<D: PeerDiscovery>(
    locale: UiLocale,
    discovery: Option<&D>,
    peer_id: &str,
    settings: AppSettings,
) -> (selected: Result<AppSettings, String>)
    ensures
        exists|listed: Result<Vec<DiscoveredPeer>, String>, found: Result<DiscoveredPeer, String>|
            {
                &&& is_search(locale, discovery, no_search(locale), listed)
                &&& #[trigger] finds_peer(locale, listed, peer_id@, found)
                &&& match (found, selected) {
                    (Err(text), Err(told)) => told == text,
                    (Ok(peer), Ok(after)) => {
                        &&& only_peers_changed(settings, after)
                        &&& route_views(after.peers@) == upserted(
                            route_views(settings.peers@),
                            peer,
                        )
                    },
                    _ => false,
                }
            },
{
    match find_announced(locale, discovery, peer_id) {
        Ok(peer) => {
            let mut settings = settings;
            upsert_discovered_peer(&mut settings, &peer);
            Ok(settings)
        },
        Err(text) => Err(text),
    }
}

} // verus!
