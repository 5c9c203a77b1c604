//! Remote-access gate.

use super::Response;
use vstd::prelude::*;

verus! {

/// The address of a client: the four octets of an IPv4 address, or the eight
/// segments of an IPv6 address.
#[derive(Debug, Clone, Copy)]
pub enum PeerIp {
    V4([u8; 4]),
    V6([u16; 8]),
}

/// The IPv6 loopback address, `::1`.
pub open spec fn ipv6_loopback() -> Seq<u16> {
    seq![0, 0, 0, 0, 0, 0, 0, 1]
}

/// The IPv6 address that stands for an IPv4 address: `::ffff:a.b.c.d`.
pub open spec fn ipv4_mapped(octets: Seq<u8>) -> Seq<u16> {
    seq![
        0,
        0,
        0,
        0,
        0,
        0xffff,
        (octets[0] * 256 + octets[1]) as u16,
        (octets[2] * 256 + octets[3]) as u16,
    ]
}

/// Whether an IPv4 address is in `127.0.0.0/8`.
pub open spec fn ipv4_is_loopback(octets: Seq<u8>) -> bool {
    octets[0] == 127
}

/// Whether an address is a loopback address, or stands for one.
pub open spec fn is_loopback(ip: PeerIp) -> bool {
    match ip {
        PeerIp::V4(octets) => ipv4_is_loopback(octets@),
        PeerIp::V6(segments) => segments@ == ipv6_loopback() || exists|octets: Seq<u8>|
            octets.len() == 4 && segments@ == #[trigger] ipv4_mapped(octets) && ipv4_is_loopback(
                octets,
            ),
    }
}

/// The IPv4 address that an IPv6 address stands for, if it does.
fn to_ipv4_mapped(segments: &[u16; 8]) -> (octets: Option<[u8; 4]>)
    ensures
        octets is Some ==> segments@ == ipv4_mapped(octets->0@),
        octets is None ==> forall|other: Seq<u8>| segments@ != #[trigger] ipv4_mapped(other),
{
    if segments[0] == 0 && segments[1] == 0 && segments[2] == 0 && segments[3] == 0 && segments[4]
        == 0 && segments[5] == 0xffff {
        let octets: [u8; 4] = [
            (segments[6] / 256) as u8,
            (segments[6] % 256) as u8,
            (segments[7] / 256) as u8,
            (segments[7] % 256) as u8,
        ];
        assert(segments@ =~= ipv4_mapped(octets@));
        Some(octets)
    } else {
        assert forall|other: Seq<u8>| segments@ != #[trigger] ipv4_mapped(other) by {
            let mapped = ipv4_mapped(other);
            assert(mapped[0] == 0 && mapped[1] == 0 && mapped[2] == 0 && mapped[3] == 0
                && mapped[4] == 0 && mapped[5] == 0xffff);
        }
        None
    }
}

/// Returns true if `ip` is a loopback address, normalizing IPv4-mapped IPv6
/// peers (e.g. `::ffff:127.0.0.1`) that arise from the dual-stack `[::]` bind.
pub fn is_loopback_peer(ip: PeerIp) -> (loopback: bool)
    ensures
        loopback == is_loopback(ip),
{
    match ip {
        PeerIp::V4(octets) => octets[0] == 127,
        PeerIp::V6(segments) => {
            let is_one = segments[0] == 0 && segments[1] == 0 && segments[2] == 0 && segments[3]
                == 0 && segments[4] == 0 && segments[5] == 0 && segments[6] == 0 && segments[7]
                == 1;
            assert(is_one <==> segments@ =~= ipv6_loopback()) by {
                if segments@ =~= ipv6_loopback() {
                    assert(segments@[0] == 0 && segments@[1] == 0 && segments@[2] == 0
                        && segments@[3] == 0 && segments@[4] == 0 && segments@[5] == 0
                        && segments@[6] == 0 && segments@[7] == 1);
                }
            }
            if is_one {
                true
            } else {
                match to_ipv4_mapped(&segments) {
                    Some(octets) => {
                        proof {
                            assert forall|other: Seq<u8>|
                                other.len() == 4 && segments@ == #[trigger] ipv4_mapped(
                                    other,
                                ) implies other =~= octets@ by {
                                lemma_mapped_is_injective(other, octets@);
                            }
                        }
                        octets[0] == 127
                    },
                    None => false,
                }
            }
        },
    }
}

/// What becomes of a request.
#[derive(Debug)]
pub enum GateDecision {
    /// It is served.
    Forward,
    /// It is answered with this response instead.
    Refuse(Response),
}

/// Whether `decision` is what becomes of a request of `peer`, while remote access is
/// enabled or not.
pub open spec fn gate_decides(
    peer: PeerIp,
    remote_enabled: bool,
    decision: GateDecision,
) -> bool {
    match decision {
        GateDecision::Forward => is_loopback(peer) || remote_enabled,
        GateDecision::Refuse(response) => {
            &&& !is_loopback(peer) && !remote_enabled
            &&& response.is_text(403, "Remote access is disabled. Enable it in c9watch Settings."@)
        },
    }
}

/// Reject non-loopback clients while remote access is disabled. Loopback peers
/// (the desktop app and same-machine browsers) are always allowed. Every route is
/// gated, those that ask for no token too.
pub fn gate_remote(peer: PeerIp, remote_enabled: bool) -> (decision: GateDecision)
    ensures
        gate_decides(peer, remote_enabled, decision),
{
    if is_loopback_peer(peer) || remote_enabled {
        GateDecision::Forward
    } else {
        GateDecision::Refuse(
            Response::Text {
                status: 403,
                body: "Remote access is disabled. Enable it in c9watch Settings.".to_string(),
            },
        )
    }
}

proof fn lemma_mapped_is_injective(a: Seq<u8>, b: Seq<u8>)
    requires
        a.len() == 4,
        b.len() == 4,
        ipv4_mapped(a) == ipv4_mapped(b),
    ensures
        a =~= b,
{
    let (x, y) = (ipv4_mapped(a), ipv4_mapped(b));
    assert(x[6] == y[6] && x[7] == y[7]);
    assert(x[6] == a[0] * 256 + a[1] && y[6] == b[0] * 256 + b[1]);
    assert(x[7] == a[2] * 256 + a[3] && y[7] == b[2] * 256 + b[3]);
}

/// An IPv4 client is judged the same whether its address arrives as IPv4 or mapped
/// into IPv6, as it does on a dual-stack socket.
pub proof fn law_mapping_does_not_change_the_verdict(octets: [u8; 4], segments: [u16; 8])
    requires
        segments@ == ipv4_mapped(octets@),
    ensures
        is_loopback(PeerIp::V6(segments)) == is_loopback(PeerIp::V4(octets)),
{
    assert(segments@[5] == 0xffff);
    assert(ipv6_loopback()[5] == 0);
    assert forall|other: Seq<u8>|
        other.len() == 4 && segments@ == #[trigger] ipv4_mapped(other) implies other
        =~= octets@ by {
        lemma_mapped_is_injective(other, octets@);
    }
}

/// Loopback clients are always served, and enabling remote access never shuts out a
/// client that was served before.
pub proof fn law_loopback_is_always_served(
    peer: PeerIp,
    remote_enabled: bool,
    decision: GateDecision,
    while_enabled: GateDecision,
)
    requires
        gate_decides(peer, remote_enabled, decision),
        gate_decides(peer, true, while_enabled),
    ensures
        is_loopback(peer) ==> decision is Forward,
        while_enabled is Forward,
        decision is Forward <==> is_loopback(peer) || remote_enabled,
{
}

/// A client is a loopback client exactly if its address is `127.x.x.x`, `::1` or
/// `::ffff:127.x.x.x`, read off the numbers of the address.
pub proof fn law_loopback_by_the_numbers(ip: PeerIp, loopback: bool)
    requires
        call_ensures(is_loopback_peer, (ip,), loopback),
    ensures
        ip matches PeerIp::V4(octets) ==> (loopback <==> octets@[0] == 127),
        ip matches PeerIp::V6(segments) ==> (loopback <==> {
            &&& forall|i: int| 0 <= i < 5 ==> #[trigger] segments@[i] == 0
            &&& {
                ||| segments@[5] == 0 && segments@[6] == 0 && segments@[7] == 1
                ||| segments@[5] == 0xffff && 127 * 256 <= segments@[6] < 128 * 256
            }
        }),
{
    if let PeerIp::V6(segments) = ip {
        let s = segments@;
        if (forall|i: int| 0 <= i < 5 ==> #[trigger] s[i] == 0) {
            assert(s[0] == 0 && s[1] == 0 && s[2] == 0 && s[3] == 0 && s[4] == 0);
            if s[5] == 0 && s[6] == 0 && s[7] == 1 {
                assert(s =~= ipv6_loopback());
            }
            if s[5] == 0xffff && 127 * 256 <= s[6] < 128 * 256 {
                let octets: Seq<u8> = seq![
                    127,
                    (s[6] - 127 * 256) as u8,
                    (s[7] as int / 256) as u8,
                    (s[7] as int % 256) as u8,
                ];
                assert(s =~= ipv4_mapped(octets));
                assert(ipv4_is_loopback(octets));
            }
        }
        if s == ipv6_loopback() {
            assert(forall|i: int| 0 <= i < 5 ==> #[trigger] s[i] == 0);
            assert(s[5] == 0 && s[6] == 0 && s[7] == 1);
        }
        assert forall|octets: Seq<u8>|
            octets.len() == 4 && s == #[trigger] ipv4_mapped(octets) && ipv4_is_loopback(
                octets,
            ) implies (forall|i: int| 0 <= i < 5 ==> #[trigger] s[i] == 0) && s[5] == 0xffff && 127
            * 256 <= s[6] < 128 * 256 by {
            let mapped = ipv4_mapped(octets);
            assert(forall|i: int| 0 <= i < 5 ==> #[trigger] mapped[i] == 0);
            assert(mapped[5] == 0xffff);
            assert(mapped[6] == octets[0] * 256 + octets[1]);
        }
    }
}

/// A request is served exactly if its client is a loopback client or remote access is
/// enabled, and is otherwise answered with status 403 and where to enable it.
pub proof fn law_gate_asks_for_the_client_and_the_switch(
    peer: PeerIp,
    loopback: bool,
    remote_enabled: bool,
    decision: GateDecision,
)
    requires
        call_ensures(is_loopback_peer, (peer,), loopback),
        call_ensures(gate_remote, (peer, remote_enabled), decision),
    ensures
        decision is Forward <==> loopback || remote_enabled,
        decision matches GateDecision::Refuse(response) ==> (
        response matches Response::Text { status, body } && status == 403 && body@
            == "Remote access is disabled. Enable it in c9watch Settings."@),
{
}

} // verus!
