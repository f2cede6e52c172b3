use displaymux::network::{accept_response, next_nonce, AgentResponse, MacAddress};
use displaymux::DisplayMuxError;

#[test]
fn hardware_addresses_are_six_pairs_of_digits() {
    for text in ["00:11:22:AA:bb:Cc", "00-11-22-AA-bb-Cc"] {
        assert_eq!(
            MacAddress::parse(text).unwrap().octets,
            [0x00, 0x11, 0x22, 0xaa, 0xbb, 0xcc]
        );
    }
    for text in [
        "",
        "00:11:22:33:44",
        "00:11:22:33:44:55:66",
        "00:11:22:33:44:5g",
        "00:11-22:33:44:55",
        "001122334455",
        "00:11:22:33:44:5",
    ] {
        assert_eq!(
            MacAddress::parse(text),
            Err(DisplayMuxError::InvalidMacAddress(text.to_owned()))
        );
    }
}

#[test]
fn magic_packet_repeats_the_address_sixteen_times() {
    let address = MacAddress::parse("01:02:03:04:05:06").unwrap();
    let packet = address.magic_packet();
    assert_eq!(packet.len(), 102);
    assert_eq!(packet[..6], [0xff; 6]);
    for repeat in packet[6..].chunks(6) {
        assert_eq!(repeat, [1, 2, 3, 4, 5, 6]);
    }
}

#[test]
fn only_a_ready_response_is_accepted() {
    let ready = AgentResponse {
        ready: true,
        message: "yes".to_owned(),
    };
    assert_eq!(accept_response(ready.clone()), Ok(ready));
    assert_eq!(
        accept_response(AgentResponse {
            ready: false,
            message: "no".to_owned()
        }),
        Err("no".to_owned())
    );
}

#[test]
fn nonces_hold_process_time_and_number() {
    assert_eq!(
        next_nonce(12, 1_700_000_000_000_000_001, 3),
        "12-1700000000000000001-3"
    );
    assert_eq!(next_nonce(0, 0, 0), "0-0-0");
    assert_eq!(
        next_nonce(u32::MAX, u128::MAX, u64::MAX),
        format!("{}-{}-{}", u32::MAX, u128::MAX, u64::MAX)
    );
    assert_ne!(next_nonce(1, 11, 1), next_nonce(11, 1, 1));
    assert_ne!(next_nonce(1, 1, 11), next_nonce(1, 11, 1));
}
