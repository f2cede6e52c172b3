use displaymux::discovery::{
    discover_peers, discovered_position, find_announced, find_peers, select_peer, FoundPeers,
};
use displaymux::locale::UiLocale;
use displaymux::network::{PeerEndpoint, DEFAULT_AGENT_PORT};
use displaymux::settings::{
    check_addresses, find_peer, has_valid_shared_key, local_host, locate_peer, locate_wake_target,
    peer_position, refresh_paired_endpoints, remove_peer, request_endpoint, route_endpoint,
    settings_for_current_build, upsert_discovered_peer, validate_settings, wake_route,
    AddressChecks, AppSettings, HostRoute,
};
use displaymux::stored::{
    autostart_change, migrate_legacy_settings, save_settings, settings_document, settings_format,
    startup_autostart, submit_settings, AutostartChange, LegacySettings, SettingsFormat,
};
use displaymux::{
    DestinationHost, DiscoveredPeer, DisplayInput, DisplayMuxError, PeerDiscovery,
};

fn input(value: u32) -> DisplayInput {
    DisplayInput::new(value).unwrap()
}

fn peer(id: &str, value: Option<u32>) -> HostRoute {
    HostRoute {
        id: id.to_owned(),
        name: format!("{id} computer"),
        platform: DestinationHost::Mac,
        address: "192.168.1.20".to_owned(),
        port: DEFAULT_AGENT_PORT,
        mac_address: String::new(),
        input: value.map(input),
    }
}

fn discovered(id: &str, address: &str) -> DiscoveredPeer {
    DiscoveredPeer {
        id: id.to_owned(),
        name: format!("{id} found"),
        platform: DestinationHost::Windows,
        address: address.to_owned(),
        port: 5000,
        mac_address: Some("00:11:22:33:44:55".to_owned()),
    }
}

/// The one host address that counts as an address here.
fn parse_ip(text: &str) -> Option<u8> {
    (text == "192.168.1.20").then_some(20)
}

/// The one broadcast address that counts as an address here.
fn parse_ipv4(text: &str) -> Option<u8> {
    (text == "255.255.255.255").then_some(255)
}

fn validate(settings: &AppSettings) -> Result<(), DisplayMuxError> {
    let checks = check_addresses(settings, parse_ip, parse_ipv4);
    validate_settings(
        UiLocale::English,
        DestinationHost::Windows,
        settings,
        &checks,
    )
}

fn backend(text: &str) -> Result<(), DisplayMuxError> {
    Err(DisplayMuxError::Backend(text.to_owned()))
}

#[test]
fn shared_key_requires_at_least_eight_characters() {
    assert!(!has_valid_shared_key("1234567"));
    assert!(has_valid_shared_key("12345678"));
    assert!(has_valid_shared_key("配對密碼八個字元"));
}

#[test]
fn new_install_does_not_assume_a_monitor_or_input() {
    let settings = AppSettings::default();
    assert!(settings.shared_monitor.is_none());
    assert!(settings.local_input.is_none());
    assert!(settings.peers.is_empty());
    assert!(settings.check_updates);
}

#[test]
fn development_builds_do_not_register_autostart() {
    for development in [true, false] {
        let settings = settings_for_current_build(AppSettings::default(), development);
        assert_eq!(settings.autostart, !development);
    }
}

#[test]
fn migration_preserves_the_previous_two_host_configuration() {
    let cases = [
        (DestinationHost::Windows, DestinationHost::Mac, 0x0f, 0x11),
        (DestinationHost::Mac, DestinationHost::Windows, 0x11, 0x0f),
    ];

    for (local_host, peer_platform, local_input, peer_input) in cases {
        let legacy = LegacySettings {
            local_host,
            peer_id: "peer".to_owned(),
            peer_name: "Peer computer".to_owned(),
            peer_ip: "192.168.1.20".to_owned(),
            ..LegacySettings::default()
        };
        let migrated = migrate_legacy_settings(legacy);
        assert!(migrated.shared_monitor.is_none());
        assert_eq!(migrated.local_input.unwrap().value(), local_input);
        assert_eq!(migrated.peers[0].platform, peer_platform);
        assert_eq!(migrated.peers[0].input.unwrap().value(), peer_input);
    }
}

#[test]
fn migration_needs_an_id_and_an_address() {
    let legacy = LegacySettings {
        peer_id: "peer".to_owned(),
        shared_key: "abcdefgh".to_owned(),
        wait_seconds: 7,
        ..LegacySettings::for_host(DestinationHost::Mac)
    };
    let migrated = migrate_legacy_settings(legacy);
    assert!(migrated.peers.is_empty());
    assert_eq!(migrated.shared_key, "abcdefgh");
    assert_eq!(migrated.wait_seconds, 7);
    assert_eq!(migrated.local_host, DestinationHost::Mac);
}

#[test]
fn settings_reject_duplicate_and_unadvertised_input_assignments() {
    let mut settings = AppSettings {
        local_input: DisplayInput::new(0x0f).ok(),
        supported_inputs: Some(vec![
            DisplayInput::new(0x0f).unwrap(),
            DisplayInput::new(0x11).unwrap(),
        ]),
        ..AppSettings::default()
    };
    settings.peers.push(HostRoute {
        id: "peer".to_owned(),
        name: "Peer".to_owned(),
        platform: DestinationHost::Mac,
        address: "192.168.1.20".to_owned(),
        port: DEFAULT_AGENT_PORT,
        mac_address: String::new(),
        input: DisplayInput::new(0x0f).ok(),
    });
    assert!(validate(&settings).is_err());

    settings.peers[0].input = DisplayInput::new(0x1b).ok();
    assert!(validate(&settings).is_err());

    settings.peers[0].input = DisplayInput::new(0x11).ok();
    assert_eq!(validate(&settings), Ok(()));
}

#[test]
fn each_fault_of_settings_has_its_error() {
    assert_eq!(validate(&AppSettings::default()), Ok(()));
    assert_eq!(
        validate(&AppSettings::for_host(DestinationHost::Mac)),
        backend("This computer's host type must be determined by the operating system")
    );
    let with = |peers: Vec<HostRoute>| AppSettings {
        peers,
        ..AppSettings::default()
    };
    let mut invalid = with(vec![peer("a", None)]);
    invalid.peers[0].input = Some(DisplayInput { code: 0 });
    assert_eq!(validate(&invalid), backend("Select a valid display input port"));
    assert_eq!(
        validate(&with(vec![peer("a", Some(0x11)), peer("b", Some(0x11))])),
        backend("Each host must use a different display input port")
    );
    let unsupported = AppSettings {
        supported_inputs: Some(vec![input(0x0f)]),
        ..with(vec![peer("a", Some(0x11))])
    };
    assert_eq!(
        validate(&unsupported),
        backend("The input is not listed in this display's MCCS capabilities")
    );
    let mut unreachable_peer = with(vec![peer("a", None), peer("b", None)]);
    unreachable_peer.peers[1].address = "nowhere".to_owned();
    assert_eq!(
        validate(&unreachable_peer),
        Err(DisplayMuxError::PeerUnavailable(
            "b computer has an invalid IP address".to_owned()
        ))
    );
    let mut odd_mac = with(vec![peer("a", None)]);
    odd_mac.peers[0].mac_address = "00:11".to_owned();
    assert_eq!(
        validate(&odd_mac),
        Err(DisplayMuxError::InvalidMacAddress("00:11".to_owned()))
    );
    let mut blank_mac = with(vec![peer("a", None)]);
    blank_mac.peers[0].mac_address = "  ".to_owned();
    assert_eq!(validate(&blank_mac), Ok(()));
    let broadcast = AppSettings {
        broadcast_ip: "everyone".to_owned(),
        ..AppSettings::default()
    };
    assert_eq!(
        validate(&broadcast),
        Err(DisplayMuxError::WakeFailed(
            "Invalid broadcast address".to_owned()
        ))
    );
    let short = AppSettings {
        shared_key: "1234567".to_owned(),
        ..AppSettings::default()
    };
    assert_eq!(
        validate(&short),
        backend("The pairing password must contain at least 8 characters")
    );
    let local = AppSettings {
        local_input: Some(input(0x77)),
        supported_inputs: Some(vec![]),
        ..AppSettings::default()
    };
    assert_eq!(validate(&local), Ok(()));
}

#[test]
fn host_kind_follows_the_operating_system() {
    assert_eq!(local_host("macos"), DestinationHost::Mac);
    assert_eq!(local_host("windows"), DestinationHost::Windows);
    assert_eq!(local_host("linux"), DestinationHost::Windows);
}

#[test]
fn discovered_hosts_are_added_once_and_keep_their_input() {
    let mut settings = AppSettings {
        peers: vec![peer("a", Some(0x11)), peer("b", None)],
        ..AppSettings::default()
    };
    upsert_discovered_peer(&mut settings, &discovered("a", "10.0.0.1"));
    assert_eq!(settings.peers.len(), 2);
    assert_eq!(
        settings.peers[0],
        HostRoute {
            id: "a".to_owned(),
            name: "a found".to_owned(),
            platform: DestinationHost::Windows,
            address: "10.0.0.1".to_owned(),
            port: 5000,
            mac_address: "00:11:22:33:44:55".to_owned(),
            input: Some(input(0x11)),
        }
    );
    let mut unknown = discovered("c", "10.0.0.3");
    unknown.mac_address = None;
    upsert_discovered_peer(&mut settings, &unknown);
    let once = settings.clone();
    upsert_discovered_peer(&mut settings, &unknown);
    assert_eq!(settings, once);
    assert_eq!(settings.peers.len(), 3);
    assert_eq!(settings.peers[2].mac_address, "");
    assert_eq!(settings.peers[2].input, None);
}

#[test]
fn search_updates_paired_hosts_only() {
    let mut settings = AppSettings {
        peers: vec![peer("a", Some(0x11)), peer("asleep", Some(0x12))],
        ..AppSettings::default()
    };
    let found = [
        discovered("stranger", "10.0.0.9"),
        discovered("a", "10.0.0.1"),
        discovered("a", "10.0.0.2"),
    ];
    assert!(refresh_paired_endpoints(&mut settings, &found));
    assert_eq!(settings.peers.len(), 2);
    assert_eq!(settings.peers[0].address, "10.0.0.2");
    assert_eq!(settings.peers[0].input, Some(input(0x11)));
    assert_eq!(settings.peers[1], peer("asleep", Some(0x12)));
    assert!(!refresh_paired_endpoints(&mut settings, &found[2..]));
    assert!(!refresh_paired_endpoints(&mut settings, &[]));
}

#[test]
fn removed_host_is_forgotten() {
    let mut settings = AppSettings {
        peers: vec![peer("a", None), peer("b", None), peer("a", Some(0x11))],
        ..AppSettings::default()
    };
    remove_peer(&mut settings, "a");
    assert_eq!(settings.peers, vec![peer("b", None)]);
    remove_peer(&mut settings, "a");
    assert_eq!(settings.peers, vec![peer("b", None)]);
    assert_eq!(peer_position(&settings.peers, "a"), None);
    assert_eq!(peer_position(&settings.peers, "b"), Some(0));
    assert_eq!(
        find_peer(UiLocale::English, &settings, "a"),
        Err("This paired host was not found. Search for it and add it again.".to_owned())
    );
    assert_eq!(
        find_peer(UiLocale::English, &settings, "b"),
        Ok(&peer("b", None))
    );
}

#[test]
fn requests_need_an_address_and_a_password() {
    let route = peer("a", None);
    let settings = AppSettings {
        shared_key: "12345678".to_owned(),
        ..AppSettings::default()
    };
    assert_eq!(
        request_endpoint(UiLocale::English, &settings, &route, Some(7_u8)),
        Ok(PeerEndpoint {
            address: 7_u8,
            port: DEFAULT_AGENT_PORT
        })
    );
    assert_eq!(
        request_endpoint::<u8>(UiLocale::English, &settings, &route, None),
        Err(
            "Unable to connect to the other host: a computer has an invalid IP address".to_owned()
        )
    );
    assert_eq!(
        request_endpoint(UiLocale::English, &AppSettings::default(), &route, Some(7_u8)),
        Err("Configure a pairing password of at least 8 characters first".to_owned())
    );
    assert_eq!(
        route_endpoint::<u8>(UiLocale::TraditionalChinese, &route, None),
        Err(DisplayMuxError::PeerUnavailable(
            "a computer 的 IP 位址無效".to_owned()
        ))
    );
}

#[test]
fn waking_needs_a_hardware_address_and_a_broadcast_address() {
    let settings = AppSettings::default();
    let mut route = peer("a", None);
    assert_eq!(
        wake_route(UiLocale::English, &settings, &route, Some(7_u8)).err().as_deref(),
        Some("a computer has no usable MAC address, so Wake-on-LAN is unavailable; switching still works while the host is awake")
    );
    route.mac_address = "00-11-22-aa-BB-cc".to_owned();
    let target = wake_route(UiLocale::English, &settings, &route, Some(7_u8)).unwrap();
    assert_eq!(
        target.mac_address.octets,
        [0x00, 0x11, 0x22, 0xaa, 0xbb, 0xcc]
    );
    assert_eq!(target.broadcast_address, 7);
    assert_eq!(target.port, 9);
    assert_eq!(
        wake_route::<u8>(UiLocale::English, &settings, &route, None).err(),
        Some("Invalid broadcast address".to_owned())
    );
    route.mac_address = "00".to_owned();
    assert_eq!(
        wake_route(UiLocale::English, &settings, &route, Some(7_u8)).err(),
        Some("Invalid MAC address: 00".to_owned())
    );
}

#[test]
fn settings_files_are_told_apart_by_their_members() {
    assert_eq!(settings_format("{\"peers\": []}"), SettingsFormat::Current);
    assert_eq!(
        settings_format("{\"sharedMonitor\": null}"),
        SettingsFormat::Current
    );
    assert_eq!(
        settings_format("{\"peerId\": \"a\"}"),
        SettingsFormat::Legacy
    );
    assert_eq!(settings_format("[\"peers\"]"), SettingsFormat::Legacy);
    assert_eq!(settings_format("{\"peers\": "), SettingsFormat::Unreadable);
    assert_eq!(settings_format(""), SettingsFormat::Unreadable);
    let (value, format) = settings_document("{\"peers\": [7]}").unwrap();
    assert_eq!(format, SettingsFormat::Current);
    assert_eq!(value["peers"][0], 7);
    assert!(settings_document("{").is_none());
}

#[test]
fn saving_cannot_change_what_was_read_from_the_display() {
    let protected = AppSettings {
        local_input: Some(input(0x0f)),
        supported_inputs: Some(vec![input(0x0f), input(0x11)]),
        ..AppSettings::default()
    };
    let submitted = AppSettings {
        local_host: DestinationHost::Mac,
        local_input: Some(input(0x12)),
        supported_inputs: None,
        peers: vec![peer("a", Some(0x11))],
        wait_seconds: 60,
        ..AppSettings::default()
    };
    let checks = AddressChecks {
        peers: vec![true],
        broadcast: true,
    };
    let saved = save_settings(
        UiLocale::English,
        DestinationHost::Windows,
        submitted.clone(),
        protected.clone(),
        true,
        &checks,
    )
    .unwrap();
    assert_eq!(saved.local_host, DestinationHost::Windows);
    assert_eq!(saved.local_input, protected.local_input);
    assert_eq!(saved.supported_inputs, protected.supported_inputs);
    assert_eq!(saved.wait_seconds, 60);
    assert_eq!(saved.peers, submitted.peers);
    assert!(!saved.autostart);
    let mut forged = submitted;
    forged.peers[0].input = Some(input(0x12));
    assert_eq!(
        save_settings(
            UiLocale::English,
            DestinationHost::Windows,
            forged,
            protected,
            false,
            &checks
        ),
        Err("The display operation could not be completed: The input is not listed in this display's MCCS capabilities".to_owned())
    );
}

#[test]
fn login_item_is_changed_only_where_it_differs() {
    assert_eq!(autostart_change(true, true), AutostartChange::Keep);
    assert_eq!(autostart_change(false, false), AutostartChange::Keep);
    assert_eq!(autostart_change(true, false), AutostartChange::Enable);
    assert_eq!(autostart_change(false, true), AutostartChange::Disable);
}

struct Announced(Result<Vec<DiscoveredPeer>, DisplayMuxError>);

impl PeerDiscovery for Announced {
    fn peers(&self) -> Result<Vec<DiscoveredPeer>, DisplayMuxError> {
        self.0.clone()
    }
}

#[test]
fn found_hosts_can_be_paired() {
    let peers = vec![discovered("a", "10.0.0.1"), discovered("b", "10.0.0.2")];
    let announced = Announced(Ok(peers.clone()));
    let paired = select_peer(
        UiLocale::English,
        Some(&announced),
        "b",
        AppSettings::default(),
    )
    .unwrap();
    assert_eq!(paired.peers.len(), 1);
    assert_eq!(paired.peers[0].address, "10.0.0.2");
    assert_eq!(
        select_peer(
            UiLocale::English,
            Some(&announced),
            "c",
            AppSettings::default()
        ),
        Err("This host is offline. Search again and retry.".to_owned())
    );
    let none: Option<&Announced> = None;
    assert_eq!(
        select_peer(UiLocale::English, none, "a", AppSettings::default()),
        Err("Local network discovery is unavailable".to_owned())
    );
    let failing = Announced(Err(DisplayMuxError::StaleRequest));
    assert_eq!(
        select_peer(
            UiLocale::English,
            Some(&failing),
            "a",
            AppSettings::default()
        ),
        Err("The request expired or may have been replayed".to_owned())
    );
    assert_eq!(find_peers(UiLocale::English, Some(&announced)), Ok(peers.clone()));
    assert_eq!(
        find_announced(UiLocale::English, Some(&announced), "b"),
        Ok(peers[1].clone())
    );
    assert_eq!(discovered_position(&peers, "b"), Some(1));
    assert_eq!(discovered_position(&peers, "x"), None);
}

#[test]
fn search_tells_what_was_found_and_what_changed() {
    let announced = Announced(Ok(vec![discovered("a", "10.0.0.1")]));
    let mut settings = AppSettings {
        peers: vec![peer("a", None)],
        ..AppSettings::default()
    };
    let found = discover_peers(UiLocale::English, Some(&announced), &mut settings).unwrap();
    assert_eq!(
        found,
        FoundPeers {
            peers: vec![discovered("a", "10.0.0.1")],
            changed: true
        }
    );
    assert_eq!(settings.peers[0].address, "10.0.0.1");
    let again = discover_peers(UiLocale::English, Some(&announced), &mut settings).unwrap();
    assert!(!again.changed);
    let none: Option<&Announced> = None;
    assert_eq!(
        discover_peers(UiLocale::English, none, &mut settings),
        Err("Unable to start local network discovery. Allow DisplayMux through the firewall on private networks.".to_owned())
    );
    let failing = Announced(Err(DisplayMuxError::AuthenticationFailed));
    assert_eq!(
        discover_peers(UiLocale::TraditionalChinese, Some(&failing), &mut settings),
        Err("另一台主機拒絕了未通過驗證的要求".to_owned())
    );
}

#[test]
fn each_address_flag_speaks_of_its_own_text() {
    let mut settings = AppSettings {
        peers: vec![peer("a", None), peer("b", None), peer("c", None)],
        ..AppSettings::default()
    };
    settings.peers[1].address = "255.255.255.255".to_owned();
    let checks = check_addresses(&settings, parse_ip, parse_ipv4);
    assert_eq!(checks.peers, vec![true, false, true]);
    assert!(checks.broadcast);
    settings.broadcast_ip = "192.168.1.20".to_owned();
    assert!(!check_addresses(&settings, parse_ip, parse_ipv4).broadcast);
}

#[test]
fn hosts_are_reached_at_the_address_of_their_route() {
    let settings = AppSettings {
        shared_key: "12345678".to_owned(),
        ..AppSettings::default()
    };
    let mut route = peer("a", None);
    route.mac_address = "00:11:22:33:44:55".to_owned();
    assert_eq!(
        locate_peer(UiLocale::English, &settings, &route, parse_ip),
        Ok(PeerEndpoint {
            address: 20,
            port: DEFAULT_AGENT_PORT
        })
    );
    let target =
        locate_wake_target(UiLocale::English, &settings, &route, parse_ipv4).unwrap();
    assert_eq!(target.broadcast_address, 255);
    assert_eq!(target.mac_address.octets[5], 0x55);
    route.address = "nowhere".to_owned();
    assert_eq!(
        locate_peer(UiLocale::English, &settings, &route, parse_ip),
        Err(
            "Unable to connect to the other host: a computer has an invalid IP address".to_owned()
        )
    );
}

#[test]
fn submitted_addresses_are_examined() {
    let submit = |address: &str| {
        let mut submitted = AppSettings {
            peers: vec![peer("a", None)],
            ..AppSettings::default()
        };
        submitted.peers[0].address = address.to_owned();
        submit_settings(
            UiLocale::English,
            DestinationHost::Windows,
            submitted,
            AppSettings::default(),
            false,
            parse_ip,
            parse_ipv4,
        )
    };
    assert_eq!(submit("192.168.1.20").unwrap().peers.len(), 1);
    assert_eq!(
        submit("nowhere"),
        Err(
            "Unable to connect to the other host: a computer has an invalid IP address".to_owned()
        )
    );
}

#[test]
fn login_item_at_start() {
    assert_eq!(
        startup_autostart("windows", true, true),
        AutostartChange::Disable
    );
    assert_eq!(
        startup_autostart("macos", true, false),
        AutostartChange::Disable
    );
    assert_eq!(
        startup_autostart("windows", false, true),
        AutostartChange::Enable
    );
    assert_eq!(
        startup_autostart("windows", false, false),
        AutostartChange::Keep
    );
    assert_eq!(
        startup_autostart("macos", false, true),
        AutostartChange::Keep
    );
}
