//! Other hosts on the network: how they are reached, woken and asked.

use crate::domain::DisplayInput;
use crate::error::{DisplayMuxError, ErrorView};
use crate::text::{
    chars_of, decimal, decimal_holds_digits_only, decimal_is_injective, decimal_string, join2,
    join3,
};
use vstd::prelude::*;

verus! {

/// The TCP port on which hosts listen.
pub const DEFAULT_AGENT_PORT: u16 = 47653;

/// What one host asks another to do.
#[derive(Debug, Clone, Copy, PartialEq, Eq, Structural)]
pub enum AgentAction {
    /// Say whether you are there.
    Ping,
    /// Make the shared display show an input.
    SwitchInput { input: DisplayInput },
}

/// How a host answers.
#[derive(Debug, Clone, PartialEq, Eq)]
pub struct AgentResponse {
    pub ready: bool,
    pub message: String,
}

/// Where a host listens. `A` is the type of network addresses.
#[derive(Debug, Clone, PartialEq, Eq)]
pub struct PeerEndpoint<A> {
    pub address: A,
    pub port: u16,
}

// ---------------------------------------------------------------------------
// Wake-on-LAN

/// The hardware address of a network interface.
#[derive(Debug, Clone, Copy, PartialEq, Eq)]
pub struct MacAddress {
    pub octets: [u8; 6],
}

/// Where to send a wake packet, and for whom. `A` is the type of network addresses.
#[derive(Debug, Clone, PartialEq, Eq)]
pub struct WakeTarget<A> {
    pub mac_address: MacAddress,
    pub broadcast_address: A,
    pub port: u16,
}

/// The value of a hexadecimal digit.
pub open spec fn hex_value(c: char) -> Option<int> {
    if '0' <= c <= '9' {
        Some(c as u32 - 48)
    } else if 'A' <= c <= 'F' {
        Some(c as u32 - 55)
    } else if 'a' <= c <= 'f' {
        Some(c as u32 - 87)
    } else {
        None
    }
}

/// A hardware address in text: six pairs of hexadecimal digits with colons, or with hyphens,
/// between them.
pub open spec fn is_mac_text(text: Seq<char>) -> bool {
    &&& text.len() == 17
    &&& text[2] == ':' || text[2] == '-'
    &&& forall|k: int|
        0 <= k < 17 ==> if k % 3 == 2 {
            #[trigger] text[k] == text[2]
        } else {
            hex_value(text[k]) is Some
        }
}

/// Octet `k` of a hardware address in text.
pub open spec fn mac_octet(text: Seq<char>, k: int) -> int {
    16 * hex_value(text[3 * k])->0 + hex_value(text[3 * k + 1])->0
}

fn hex_digit(c: char) -> (value: Option<u8>)
    ensures
        match value {
            Some(value) => hex_value(c) == Some(value as int) && value < 16,
            None => hex_value(c) is None,
        },
{
    let code: u32 = c as u32;
    if '0' <= c && c <= '9' {
        Some((code - 48) as u8)
    } else if 'A' <= c && c <= 'F' {
        Some((code - 55) as u8)
    } else if 'a' <= c && c <= 'f' {
        Some((code - 87) as u8)
    } else {
        None
    }
}

impl MacAddress {
    /// Reads a hardware address.
    pub fn parse(text: &str) -> (address: Result<MacAddress, DisplayMuxError>)
        ensures
            match address {
                Ok(address) => {
                    &&& is_mac_text(text@)
                    &&& forall|k: int|
                        0 <= k < 6 ==> #[trigger] address.octets@[k] == mac_octet(text@, k)
                },
                Err(error) => !is_mac_text(text@) && error@ == ErrorView::InvalidMacAddress(text@),
            },
    {
        let chars = chars_of(text);
        if chars.len() != 17 || (chars[2] != ':' && chars[2] != '-') {
            return Err(DisplayMuxError::InvalidMacAddress(text.to_owned()));
        }
        let mut octets: [u8; 6] = [0, 0, 0, 0, 0, 0];
        let mut k: usize = 0;
        while k < 6
            invariant
                k <= 6,
                chars@ == text@,
                chars@.len() == 17,
                forall|i: int| 0 <= i < k ==> #[trigger] octets@[i] == mac_octet(text@, i),
                forall|i: int|
                    0 <= i < 3 * k && i < 17 ==> if i % 3 == 2 {
                        #[trigger] text@[i] == text@[2]
                    } else {
                        hex_value(text@[i]) is Some
                    },
            decreases 6 - k,
        {
            let high = match hex_digit(chars[3 * k]) {
                Some(value) => value,
                None => {
                    assert(hex_value(text@[3 * k]) is None);
                    return Err(DisplayMuxError::InvalidMacAddress(text.to_owned()));
                },
            };
            let low = match hex_digit(chars[3 * k + 1]) {
                Some(value) => value,
                None => {
                    assert(hex_value(text@[3 * k + 1]) is None);
                    return Err(DisplayMuxError::InvalidMacAddress(text.to_owned()));
                },
            };
            if k < 5 && chars[3 * k + 2] != chars[2] {
                assert(text@[3 * k + 2] != text@[2]);
                return Err(DisplayMuxError::InvalidMacAddress(text.to_owned()));
            }
            octets[k] = 16 * high + low;
            k += 1;
        }
        Ok(MacAddress { octets })
    }

    /// The packet that wakes the host with this address: six bytes `0xff`, then the address
    /// sixteen times.
    pub fn magic_packet(&self) -> (packet: Vec<u8>)
        ensures
            packet@ == Seq::new(
                102,
                |i: int|
                    if i < 6 {
                        0xffu8
                    } else {
                        self.octets@[i % 6]
                    },
            ),
    {
        let mut packet: Vec<u8> = Vec::new();
        let mut i: usize = 0;
        while i < 102
            invariant
                i <= 102,
                packet@ == Seq::new(
                    i as nat,
                    |k: int|
                        if k < 6 {
                            0xffu8
                        } else {
                            self.octets@[k % 6]
                        },
                ),
            decreases 102 - i,
        {
            packet.push(
                if i < 6 {
                    0xff
                } else {
                    self.octets[i % 6]
                },
            );
            i += 1;
        }
        packet
    }
}

// ---------------------------------------------------------------------------
// Requests

/// What a response means to the host that asked: the response itself, or why it was refused.
pub fn accept_response(response: AgentResponse) -> (accepted: Result<AgentResponse, String>)
    ensures
        accepted == if response.ready {
            Ok::<AgentResponse, String>(response)
        } else {
            Err::<AgentResponse, String>(response.message)
        },
{
    if response.ready {
        Ok(response)
    } else {
        Err(response.message)
    }
}

/// The nonce of request number `counter` of process `process_id`, made at a time in nanoseconds.
pub open spec fn nonce(process_id: u32, now: u128, counter: u64) -> Seq<char> {
    decimal(process_id as nat) + "-"@ + decimal(now as nat) + "-"@ + decimal(counter as nat)
}

/// Makes the nonce of a request.
pub fn next_nonce(process_id: u32, now: u128, counter: u64) -> (text: String)
    ensures
        text@ == nonce(process_id, now, counter),
{
    let head = join3(
        decimal_string(process_id as u128).as_str(),
        "-",
        decimal_string(now).as_str(),
    );
    let start = join2(head.as_str(), "-");
    join2(start.as_str(), decimal_string(counter as u128).as_str())
}

/// Two texts of digits, each followed by a hyphen and more, agree only if the digits do.
proof fn lemma_digits_before_hyphen(a: nat, b: nat, after_a: Seq<char>, after_b: Seq<char>)
    requires
        decimal(a) + "-"@ + after_a == decimal(b) + "-"@ + after_b,
    ensures
        a == b,
        after_a == after_b,
{
    reveal_strlit("-");
    decimal_holds_digits_only(a);
    decimal_holds_digits_only(b);
    let left = decimal(a) + "-"@ + after_a;
    let right = decimal(b) + "-"@ + after_b;
    let i = decimal(a).len() as int;
    let j = decimal(b).len() as int;
    assert(left[i] == '-');
    assert(right[j] == '-');
    if i < j {
        assert(right[i] == decimal(b)[i]);
    } else if j < i {
        assert(left[j] == decimal(a)[j]);
    }
    assert(left.take(i) == decimal(a));
    assert(right.take(i) == decimal(b));
    decimal_is_injective(a, b);
    assert(left.skip(i + 1) == after_a);
    assert(right.skip(i + 1) == after_b);
}

/// No nonce is made twice: requests that differ in process, time or number have different
/// nonces.
pub proof fn nonces_are_distinct(
    process_a: u32,
    now_a: u128,
    counter_a: u64,
    process_b: u32,
    now_b: u128,
    counter_b: u64,
)
    requires
        nonce(process_a, now_a, counter_a) == nonce(process_b, now_b, counter_b),
    ensures
        process_a == process_b,
        now_a == now_b,
        counter_a == counter_b,
{
    let rest_a = decimal(now_a as nat) + "-"@ + decimal(counter_a as nat);
    let rest_b = decimal(now_b as nat) + "-"@ + decimal(counter_b as nat);
    assert(nonce(process_a, now_a, counter_a) == decimal(process_a as nat) + "-"@ + rest_a);
    assert(nonce(process_b, now_b, counter_b) == decimal(process_b as nat) + "-"@ + rest_b);
    lemma_digits_before_hyphen(process_a as nat, process_b as nat, rest_a, rest_b);
    lemma_digits_before_hyphen(
        now_a as nat,
        now_b as nat,
        decimal(counter_a as nat),
        decimal(counter_b as nat),
    );
    decimal_is_injective(counter_a as nat, counter_b as nat);
}

} // verus!
