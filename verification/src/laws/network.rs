//! Laws of hardware addresses, wake packets and requests.

use crate::error::{DisplayMuxError, ErrorView};
use crate::laws::settings::{is_hex_digit, is_six_pairs, lemma_six_pairs};
use crate::laws::text::digit_value;
use crate::network::{
    accept_response, hex_value, next_nonce, nonces_are_distinct, AgentResponse, MacAddress,
};
use crate::text::ascii_upper_char;
use vstd::prelude::*;

verus! {

/// Whether a text writes an octet at a place: its upper half in the first digit, its lower half in
/// the second, letters in either case.
pub open spec fn writes_octet(text: Seq<char>, place: int, octet: u8) -> bool {
    &&& is_hex_digit(text[place])
    &&& is_hex_digit(text[place + 1])
    &&& digit_value(ascii_upper_char(text[place])) == octet / 16
    &&& digit_value(ascii_upper_char(text[place + 1])) == octet % 16
}

proof fn lemma_hex(c: char)
    requires
        is_hex_digit(c),
    ensures
        hex_value(c) == Some(digit_value(ascii_upper_char(c))),
        0 <= hex_value(c)->Some_0 < 16,
{
}

/// A hardware address is read exactly where it is six pairs of hexadecimal digits, and each pair
/// writes the octet that is read. An error names the text.
pub proof fn hardware_address_reads_its_digits(
    text: &str,
    address: Result<MacAddress, DisplayMuxError>,
    k: int,
)
    requires
        call_ensures(MacAddress::parse, (text,), address),
        0 <= k < 6,
    ensures
        address is Ok <==> is_six_pairs(text@),
        address matches Ok(address) ==> writes_octet(text@, 3 * k, address.octets@[k]),
        address matches Err(error) ==> error@ == ErrorView::InvalidMacAddress(text@),
{
    lemma_six_pairs(text@);
    if let Ok(address) = address {
        assert(is_hex_digit(text@[3 * k]));
        assert(is_hex_digit(text@[3 * k + 1]));
        lemma_hex(text@[3 * k]);
        lemma_hex(text@[3 * k + 1]);
        assert(address.octets@[k] == crate::network::mac_octet(text@, k));
    }
}

/// The packet that wakes a host is six bytes `0xff` and then its hardware address sixteen times.
pub proof fn wake_packet_repeats_the_address(
    address: MacAddress,
    packet: Vec<u8>,
    i: int,
    repeat: int,
    k: int,
)
    requires
        call_ensures(MacAddress::magic_packet, (&address,), packet),
        0 <= i < 6,
        0 <= repeat < 16,
        0 <= k < 6,
    ensures
        packet@.len() == 6 + 16 * 6,
        packet@[i] == 0xff,
        packet@[6 + 6 * repeat + k] == address.octets@[k],
{
    let place = 6 + 6 * repeat + k;
    assert(6 <= place < 102);
    assert((place - 6) % 6 == k);
    assert(place % 6 == k);
    assert(packet@[place] == address.octets@[k]);
}

/// A response is accepted exactly where the host is ready, and then handed on; otherwise what the
/// host said is the reason.
pub proof fn only_a_ready_host_is_believed(
    response: AgentResponse,
    accepted: Result<AgentResponse, String>,
)
    requires
        call_ensures(accept_response, (response,), accepted),
    ensures
        accepted is Ok <==> response.ready,
        accepted matches Ok(handed_on) ==> handed_on == response,
        accepted matches Err(reason) ==> reason == response.message,
{
}

/// No two requests have the same nonce.
pub proof fn no_nonce_is_made_twice(
    process_a: u32,
    now_a: u128,
    counter_a: u64,
    a: String,
    process_b: u32,
    now_b: u128,
    counter_b: u64,
    b: String,
)
    requires
        call_ensures(next_nonce, (process_a, now_a, counter_a), a),
        call_ensures(next_nonce, (process_b, now_b, counter_b), b),
    ensures
        a@ == b@ <==> process_a == process_b && now_a == now_b && counter_a == counter_b,
{
    if a@ == b@ {
        nonces_are_distinct(process_a, now_a, counter_a, process_b, now_b, counter_b);
    }
}

} // verus!
