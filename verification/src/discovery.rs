//! The discovery emulator: answers the legacy client's hardcoded
//! service-location call with a synthetic descriptor pointing back at
//! localhost, and answers every other path with not-found. The reply is a
//! pure function of the request path — the method plays no part.

use crate::text::{spec_dec_digits, str_eq, u32_to_dec};
use crate::BLAZE_PORT;
use vstd::prelude::*;

verus! {

/// The one path the legacy client's discovery call uses.
pub const DISCOVERY_PATH: &'static str = "/redirector/getServerInstance";

/// The descriptor up to the address value.
pub const XML_HEAD: &'static str = "<?xml version=\"1.0\" encoding=\"UTF-8\"?>\n    <serverinstanceinfo>\n        <address member=\"0\">\n            <valu>\n                <hostname>localhost</hostname>\n                <ip>";

/// The descriptor between the address value and the port value.
pub const XML_MID: &'static str = "</ip>\n                <port>";

/// The descriptor after the port value.
pub const XML_TAIL: &'static str =
    "</port>\n            </valu>\n        </address>\n        <secure>0</secure>\n        <trialservicename></trialservicename>\n        <defaultdnsaddress>0</defaultdnsaddress>\n    </serverinstanceinfo>";

/// One response header of the emulator: a name and a text value.
#[derive(Debug)]
pub struct TextHeader {
    /// Header name, lowercase.
    pub name: String,
    /// Header value text.
    pub value: String,
}

impl View for TextHeader {
    type V = (Seq<char>, Seq<char>);

    open spec fn view(&self) -> (Seq<char>, Seq<char>) {
        (self.name@, self.value@)
    }
}

/// The emulator's reply to one inbound request.
#[derive(Debug)]
pub struct DiscoveryResponse {
    /// Status code served.
    pub status: u16,
    /// Response headers.
    pub headers: Vec<TextHeader>,
    /// Response body.
    pub body: String,
}

/// The three fixed identification headers of the emulated remote-procedure
/// call — its component tag, its command tag, a sequence number of zero —
/// and the XML content type.
pub open spec fn discovery_headers() -> Seq<(Seq<char>, Seq<char>)> {
    seq![
        ("x-blaze-component"@, "redirector"@),
        ("x-blaze-command"@, "getServerInstance"@),
        ("x-blaze-seqno"@, "0"@),
        ("content-type"@, "application/xml"@),
    ]
}

/// The synthetic descriptor: hostname `localhost`, the address 127.0.0.1 as
/// a big-endian 32-bit decimal, and the fixed local game-protocol port.
pub open spec fn discovery_body() -> Seq<char> {
    XML_HEAD@ + spec_dec_digits(2130706433 as nat) + XML_MID@ + spec_dec_digits(
        BLAZE_PORT as nat,
    ) + XML_TAIL@
}

/// `sub` occurs contiguously in `s`.
pub open spec fn contains_seq(s: Seq<char>, sub: Seq<char>) -> bool {
    exists|i: int|
        0 <= i && i + sub.len() <= s.len() && #[trigger] s.subrange(i, i + sub.len() as int) == sub
}

/// Law: the descriptor body names the host `localhost`, carries the
/// loopback address as the decimal rendering of its big-endian 32-bit
/// value, and carries the fixed game-protocol port in decimal, each as a
/// contiguous substring.
pub proof fn lemma_discovery_body_carries_address_and_port()
    ensures
        contains_seq(discovery_body(), "localhost"@),
        contains_seq(discovery_body(), "2130706433"@),
        contains_seq(discovery_body(), "42128"@),
{
    reveal_strlit("localhost");
    reveal_strlit("2130706433");
    reveal_strlit("42128");
    reveal_strlit(
        "<?xml version=\"1.0\" encoding=\"UTF-8\"?>\n    <serverinstanceinfo>\n        <address member=\"0\">\n            <valu>\n                <hostname>localhost</hostname>\n                <ip>",
    );
    assert(discovery_body().subrange(138, 138 + "localhost"@.len() as int) =~= "localhost"@);
    assert(spec_dec_digits(2130706433 as nat) =~= "2130706433"@) by {
        reveal_with_fuel(crate::text::spec_dec_digits, 11);
    }
    assert(spec_dec_digits(BLAZE_PORT as nat) =~= "42128"@) by {
        reveal_with_fuel(crate::text::spec_dec_digits, 6);
    }
    let s = discovery_body();
    let ip = spec_dec_digits(2130706433 as nat);
    let port = spec_dec_digits(BLAZE_PORT as nat);
    let ip_at = XML_HEAD@.len() as int;
    assert(s.subrange(ip_at, ip_at + ip.len() as int) =~= ip);
    let port_at = XML_HEAD@.len() + ip.len() + XML_MID@.len();
    assert(s.subrange(port_at as int, port_at as int + port.len() as int) =~= port);
}

/// The big-endian 32-bit value of the four address bytes.
pub fn ip_be_u32(a: u8, b: u8, c: u8, d: u8) -> (r: u32)
    ensures
        r == (a as int) * 0x1000000 + (b as int) * 0x10000 + (c as int) * 0x100 + (d as int),
{
    (a as u32) * 0x1000000 + (b as u32) * 0x10000 + (c as u32) * 0x100 + (d as u32)
}

/// Serves one discovery request. Any path other than the discovery path gets
/// not-found with an empty body and no headers, whatever the method; the
/// discovery path gets the synthetic descriptor with the identification
/// headers.
pub fn handle_discovery(path: &str) -> (r: DiscoveryResponse)
    ensures
        path@ != DISCOVERY_PATH@ ==> r.status == 404 && r.body@.len() == 0 && r.headers@.len()
            == 0,
        path@ == DISCOVERY_PATH@ ==> r.status == 200 && r.body@ == discovery_body()
            && r.headers@.map_values(|h: TextHeader| h@) == discovery_headers(),
{
    if !str_eq(path, DISCOVERY_PATH) {
        return DiscoveryResponse { status: 404, headers: Vec::new(), body: String::new() };
    }
    let ip = ip_be_u32(127, 0, 0, 1);
    let mut body = String::from_str(XML_HEAD);
    let ip_text = u32_to_dec(ip);
    body.append(ip_text.as_str());
    body.append(XML_MID);
    let port_text = u32_to_dec(BLAZE_PORT as u32);
    body.append(port_text.as_str());
    body.append(XML_TAIL);
    let mut headers: Vec<TextHeader> = Vec::new();
    headers.push(
        TextHeader { name: String::from_str("x-blaze-component"), value: String::from_str("redirector") },
    );
    headers.push(
        TextHeader {
            name: String::from_str("x-blaze-command"),
            value: String::from_str("getServerInstance"),
        },
    );
    headers.push(TextHeader { name: String::from_str("x-blaze-seqno"), value: String::from_str("0") });
    headers.push(
        TextHeader { name: String::from_str("content-type"), value: String::from_str("application/xml") },
    );
    proof {
        assert(headers@.map_values(|h: TextHeader| h@) =~= discovery_headers());
        assert(body@ =~= discovery_body());
    }
    DiscoveryResponse { status: 200, headers, body }
}

} // verus!
