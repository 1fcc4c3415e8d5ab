//! Packet information model for display.
use vstd::prelude::*;
use crate::ethernet::{EthernetPacket, EthernetPacketInner, PacketDetail, Timestamp};
use crate::ethernet::addr::{ipv4_text, ipv6_text, mac_text};
use crate::ethernet::ipv4::{Ipv4Packet, Ipv4PacketInner};
use crate::ethernet::ipv4::udp::{UdpPacket, UdpPacketInner};
use crate::ethernet::ipv4::tcp::{TcpPacket, TcpPacketInner};
use crate::ethernet::arp::ArpPacket;
use crate::ethernet::ipv6::Ipv6Packet;
pub use crate::text::strings_view;

verus! {

/// Represents a single protocol layer in the stack
#[derive(Debug)]
pub struct ProtocolLayer {
    /// Human-readable protocol name (e.g., "Internet Control Message Protocol")
    pub name: String,
    /// Protocol slug for the packet list (e.g., "ICMP")
    pub slug: String,
    /// One-line summary of this layer
    pub summary: String,
    /// Detailed field information
    pub details: Vec<String>,
}

/// The text a protocol layer holds.
pub struct ProtocolLayerView {
    /// Human-readable protocol name.
    pub name: Seq<char>,
    /// Protocol slug.
    pub slug: Seq<char>,
    /// One-line summary.
    pub summary: Seq<char>,
    /// Detail lines.
    pub details: Seq<Seq<char>>,
}

/// Display information for a packet.
#[derive(Debug)]
pub struct PacketInfo {
    /// Packet number (1-indexed for display)
    pub number: usize,
    /// Timestamp when the packet was captured
    pub timestamp: Timestamp,
    /// Source address (MAC or IP depending on packet type)
    pub source: String,
    /// Destination address (MAC or IP depending on packet type)
    pub destination: String,
    /// Protocol name
    pub protocol: String,
    /// Packet length in bytes
    pub length: usize,
    /// Additional information about the packet
    pub info: String,
    /// All protocol layers, outermost first
    pub layers: Vec<ProtocolLayer>,
    /// Raw packet bytes for hex dump display
    pub raw: Vec<u8>,
}

/// The values a packet summary holds.
pub struct PacketInfoView {
    /// Packet number.
    pub number: usize,
    /// Capture time.
    pub timestamp: Timestamp,
    /// Source address text.
    pub source: Seq<char>,
    /// Destination address text.
    pub destination: Seq<char>,
    /// Protocol slug of the innermost layer.
    pub protocol: Seq<char>,
    /// Packet length in bytes.
    pub length: usize,
    /// Summary of the innermost layer.
    pub info: Seq<char>,
    /// The layers, outermost first.
    pub layers: Seq<ProtocolLayerView>,
    /// Raw packet bytes.
    pub raw: Seq<u8>,
}

/// The view of each layer in a list.
pub open spec fn layers_view(v: Seq<ProtocolLayer>) -> Seq<ProtocolLayerView> {
    v.map_values(|l: ProtocolLayer| l@)
}

/// Copies a list of strings.
pub fn clone_strings(v: &Vec<String>) -> (r: Vec<String>)
    ensures
        strings_view(r@) == strings_view(v@),
{
    let mut r: Vec<String> = Vec::new();
    let mut i: usize = 0;
    while i < v.len()
        invariant
            i <= v@.len(),
            r@.len() == i,
            strings_view(r@) == strings_view(v@).take(i as int),
        decreases v@.len() - i,
    {
        let c = v[i].clone();
        assert(c@ == v@[i as int]@);
        let ghost before = r@;
        r.push(c);
        assert(r@ == before.push(c));
        i = i + 1;
        assert forall|k: int| 0 <= k < i implies #[trigger] strings_view(r@)[k] == strings_view(v@)[k] by {
            if k < i - 1 {
                assert(strings_view(before)[k] == strings_view(v@).take(i - 1)[k]);
            }
        }
        assert(strings_view(r@) =~= strings_view(v@).take(i as int));
    }
    assert(strings_view(v@).take(i as int) =~= strings_view(v@));
    r
}

impl View for ProtocolLayer {
    type V = ProtocolLayerView;

    open spec fn view(&self) -> ProtocolLayerView {
        ProtocolLayerView {
            name: self.name@,
            slug: self.slug@,
            summary: self.summary@,
            details: strings_view(self.details@),
        }
    }
}

impl View for PacketInfo {
    type V = PacketInfoView;

    open spec fn view(&self) -> PacketInfoView {
        PacketInfoView {
            number: self.number,
            timestamp: self.timestamp,
            source: self.source@,
            destination: self.destination@,
            protocol: self.protocol@,
            length: self.length,
            info: self.info@,
            layers: layers_view(self.layers@),
            raw: self.raw@,
        }
    }
}

impl Clone for ProtocolLayer {
    fn clone(&self) -> (r: Self)
        ensures
            r@ == self@,
    {
        ProtocolLayer {
            name: self.name.clone(),
            slug: self.slug.clone(),
            summary: self.summary.clone(),
            details: clone_strings(&self.details),
        }
    }
}

impl Clone for PacketInfo {
    fn clone(&self) -> (r: Self)
        ensures
            r@ == self@,
    {
        let mut layers: Vec<ProtocolLayer> = Vec::new();
        let mut i: usize = 0;
        while i < self.layers.len()
            invariant
                i <= self.layers@.len(),
                layers@.len() == i,
                layers_view(layers@) == layers_view(self.layers@).take(i as int),
            decreases self.layers@.len() - i,
        {
            let c = self.layers[i].clone();
            let ghost before = layers@;
            layers.push(c);
            i = i + 1;
            assert forall|k: int| 0 <= k < i implies #[trigger] layers_view(layers@)[k]
                == layers_view(self.layers@)[k] by {
                if k < i - 1 {
                    assert(layers_view(before)[k] == self.layers@.map_values(
                        |l: ProtocolLayer| l@,
                    ).take(i - 1)[k]);
                }
            }
            assert(layers_view(layers@) =~= layers_view(self.layers@).take(i as int));
        }
        assert(layers_view(self.layers@).take(i as int) =~= layers_view(self.layers@));
        PacketInfo {
            number: self.number,
            timestamp: self.timestamp,
            source: self.source.clone(),
            destination: self.destination.clone(),
            protocol: self.protocol.clone(),
            length: self.length,
            info: self.info.clone(),
            layers,
            raw: vstd::slice::slice_to_vec(self.raw.as_slice()),
        }
    }
}

/// What one protocol layer shows: its text and its addresses, where it has them.
pub struct LayerFacts {
    /// The text of the layer.
    pub layer: ProtocolLayerView,
    /// The source address text, where the layer has one.
    pub source: Option<Seq<char>>,
    /// The destination address text, where the layer has one.
    pub destination: Option<Seq<char>>,
}

/// The text a packet type gives for one layer.
pub open spec fn layer_of<P: PacketDetail>(p: &P) -> ProtocolLayerView {
    ProtocolLayerView {
        name: p.spec_name(),
        slug: p.spec_slug(),
        summary: p.spec_summary(),
        details: p.spec_details(),
    }
}

/// What a packet type shows for one layer.
pub open spec fn facts_of<P: PacketDetail>(p: &P) -> LayerFacts {
    LayerFacts { layer: layer_of(p), source: p.spec_source(), destination: p.spec_destination() }
}

/// The layers of a UDP datagram, outermost first.
pub open spec fn udp_chain(u: UdpPacket) -> Seq<LayerFacts> {
    seq![facts_of(&u)] + match u.inner {
        UdpPacketInner::Dns(d) => seq![facts_of(&d)],
        UdpPacketInner::Unknown(_) => seq![],
    }
}

/// The layers of a TCP packet, outermost first.
pub open spec fn tcp_chain(t: TcpPacket) -> Seq<LayerFacts> {
    seq![facts_of(&t)] + match t.inner {
        TcpPacketInner::Http(h) => seq![facts_of(&h)],
        TcpPacketInner::Unknown(_) => seq![],
    }
}

/// The layers of an IPv4 packet, outermost first.
pub open spec fn ipv4_chain(p: Ipv4Packet) -> Seq<LayerFacts> {
    seq![facts_of(&p)] + match p.inner {
        Ipv4PacketInner::Icmp(x) => seq![facts_of(&x)],
        Ipv4PacketInner::Igmp(x) => seq![facts_of(&x)],
        Ipv4PacketInner::Tcp(t) => tcp_chain(t),
        Ipv4PacketInner::Udp(u) => udp_chain(u),
        Ipv4PacketInner::Unknown(_) => seq![],
    }
}

/// The layers of an Ethernet frame, outermost first: each decoded packet holds the next.
pub open spec fn packet_chain(p: EthernetPacket) -> Seq<LayerFacts> {
    seq![facts_of(&p)] + match p.inner {
        EthernetPacketInner::Ipv4(x) => ipv4_chain(x),
        EthernetPacketInner::Arp(a) => seq![facts_of(&a)],
        EthernetPacketInner::Ipv6(v) => seq![facts_of(&v)],
        EthernetPacketInner::Unknown(_) => seq![],
    }
}

/// The text of each layer in a chain.
pub open spec fn chain_layers(c: Seq<LayerFacts>) -> Seq<ProtocolLayerView> {
    c.map_values(|f: LayerFacts| f.layer)
}

/// The addresses of the last layer in `c` that has both a source and a destination.
pub open spec fn last_addresses(c: Seq<LayerFacts>) -> Option<(Seq<char>, Seq<char>)>
    decreases c.len(),
{
    if c.len() == 0 {
        None
    } else {
        match (c.last().source, c.last().destination) {
            (Some(s), Some(d)) => Some((s, d)),
            _ => last_addresses(c.drop_last()),
        }
    }
}

/// The addresses a packet summary shows: those of the innermost layer that has both, else
/// the frame's MAC addresses.
pub open spec fn shown_addresses(p: EthernetPacket) -> (Seq<char>, Seq<char>) {
    match last_addresses(packet_chain(p)) {
        Some(a) => a,
        None => (mac_text(p.source.0@), mac_text(p.destination.0@)),
    }
}

/// Layers without a source address after the first `n` do not change which addresses are
/// shown.
proof fn lemma_last_addresses_prefix(c: Seq<LayerFacts>, n: int)
    requires
        0 <= n <= c.len(),
        forall|i: int| n <= i < c.len() ==> (#[trigger] c[i]).source is None,
    ensures
        last_addresses(c) == last_addresses(c.take(n)),
    decreases c.len(),
{
    if c.len() > n {
        let d = c.drop_last();
        assert(c.last() == c[c.len() - 1]);
        assert forall|i: int| n <= i < d.len() implies (#[trigger] d[i]).source is None by {
            assert(d[i] == c[i]);
        }
        lemma_last_addresses_prefix(d, n);
        assert(d.take(n) =~= c.take(n));
    } else {
        assert(c.take(n) =~= c);
    }
}

/// After its first layer, the layers of an IPv4 packet have no source address.
#[verifier::spinoff_prover]
#[verifier::rlimit(100)]
proof fn lemma_ipv4_chain_tail(q: Ipv4Packet)
    ensures
        ipv4_chain(q).len() >= 1,
        ipv4_chain(q)[0] == facts_of(&q),
        forall|i: int| 1 <= i < ipv4_chain(q).len() ==> (#[trigger] ipv4_chain(q)[i]).source is None,
{
    let c = ipv4_chain(q);
    match q.inner {
        Ipv4PacketInner::Tcp(t) => {
            match t.inner {
                TcpPacketInner::Http(h) => {
                    assert(c =~= seq![facts_of(&q), facts_of(&t), facts_of(&h)]);
                },
                TcpPacketInner::Unknown(_) => {
                    assert(c =~= seq![facts_of(&q), facts_of(&t)]);
                },
            }
        },
        Ipv4PacketInner::Udp(u) => {
            match u.inner {
                UdpPacketInner::Dns(d) => {
                    assert(c =~= seq![facts_of(&q), facts_of(&u), facts_of(&d)]);
                },
                UdpPacketInner::Unknown(_) => {
                    assert(c =~= seq![facts_of(&q), facts_of(&u)]);
                },
            }
        },
        Ipv4PacketInner::Icmp(x) => {
            assert(c =~= seq![facts_of(&q), facts_of(&x)]);
        },
        Ipv4PacketInner::Igmp(x) => {
            assert(c =~= seq![facts_of(&q), facts_of(&x)]);
        },
        Ipv4PacketInner::Unknown(_) => {
            assert(c =~= seq![facts_of(&q)]);
        },
    }
}

/// A frame that carries IPv4 shows the IPv4 source and destination addresses.
#[verifier::spinoff_prover]
proof fn lemma_shown_ipv4(p: EthernetPacket, q: Ipv4Packet)
    requires
        p.inner == EthernetPacketInner::Ipv4(q),
    ensures
        shown_addresses(p) == (ipv4_text(q.source.0@), ipv4_text(q.destination.0@)),
{
    let c = packet_chain(p);
    let qc = ipv4_chain(q);
    lemma_ipv4_chain_tail(q);
    assert(c == seq![facts_of(&p)] + qc);
    assert forall|i: int| 2 <= i < c.len() implies (#[trigger] c[i]).source is None by {
        assert(c[i] == qc[i - 1]);
    }
    lemma_last_addresses_prefix(c, 2);
    let t = c.take(2);
    assert(t.len() == 2);
    assert(t.last() == c[1]);
    assert(c[1] == qc[0]);
    assert(t.last() == facts_of(&q));
}

/// A frame that carries IPv4 shows the IPv4 source and destination addresses, in that order,
/// whatever the IPv4 packet carries; one that carries IPv6 shows the IPv6 addresses; any other
/// frame shows its own source and destination MAC addresses.
#[verifier::spinoff_prover]
pub proof fn law_shown_addresses(p: EthernetPacket)
    ensures
        p.inner matches EthernetPacketInner::Ipv4(q) ==> shown_addresses(p) == (
            ipv4_text(q.source.0@),
            ipv4_text(q.destination.0@),
        ),
        p.inner matches EthernetPacketInner::Ipv6(v) ==> shown_addresses(p) == (
            ipv6_text(v.source.0@),
            ipv6_text(v.destination.0@),
        ),
        (p.inner is Arp || p.inner is Unknown) ==> shown_addresses(p) == (
            mac_text(p.source.0@),
            mac_text(p.destination.0@),
        ),
{
    match p.inner {
        EthernetPacketInner::Ipv4(q) => lemma_shown_ipv4(p, q),
        EthernetPacketInner::Ipv6(v) => lemma_shown_ipv6(p, v),
        EthernetPacketInner::Arp(a) => lemma_shown_arp(p, a),
        EthernetPacketInner::Unknown(_) => lemma_shown_frame(p),
    }
}

/// A frame that carries IPv6 shows the IPv6 source and destination addresses.
#[verifier::spinoff_prover]
proof fn lemma_shown_ipv6(p: EthernetPacket, v: Ipv6Packet)
    requires
        p.inner == EthernetPacketInner::Ipv6(v),
    ensures
        shown_addresses(p) == (ipv6_text(v.source.0@), ipv6_text(v.destination.0@)),
{
    let c = packet_chain(p);
    assert(c == seq![facts_of(&p)] + seq![facts_of(&v)]);
    assert(c.len() == 2);
    assert(c.last() == facts_of(&v));
}

/// A frame that carries ARP shows its own MAC addresses.
#[verifier::spinoff_prover]
#[verifier::rlimit(100)]
proof fn lemma_shown_arp(p: EthernetPacket, a: ArpPacket)
    requires
        p.inner == EthernetPacketInner::Arp(a),
    ensures
        shown_addresses(p) == (mac_text(p.source.0@), mac_text(p.destination.0@)),
{
    let c = packet_chain(p);
    assert(c == seq![facts_of(&p)] + seq![facts_of(&a)]);
    assert(c.len() == 2);
    assert(c.last() == facts_of(&a));
    assert(facts_of(&a).source is None);
    let d = c.drop_last();
    assert(last_addresses(c) == last_addresses(d));
    assert(d.len() == 1);
    assert(d[0] == c[0]);
    assert(d.last() == facts_of(&p));
    assert(last_addresses(d) == Some((mac_text(p.source.0@), mac_text(p.destination.0@))));
}

/// A frame of an unknown EtherType shows its own MAC addresses.
#[verifier::spinoff_prover]
proof fn lemma_shown_frame(p: EthernetPacket)
    requires
        p.inner is Unknown,
    ensures
        shown_addresses(p) == (mac_text(p.source.0@), mac_text(p.destination.0@)),
{
    let c = packet_chain(p);
    assert(c == seq![facts_of(&p)] + Seq::<LayerFacts>::empty());
    assert(c.len() == 1);
    assert(c.last() == facts_of(&p));
}

/// The summary of a decoded frame, numbered `number`.
pub open spec fn info_of(p: EthernetPacket, number: usize) -> PacketInfoView {
    PacketInfoView {
        number,
        timestamp: p.timestamp,
        source: shown_addresses(p).0,
        destination: shown_addresses(p).1,
        protocol: packet_chain(p).last().layer.slug,
        length: p.raw@.len() as usize,
        info: packet_chain(p).last().layer.summary,
        layers: chain_layers(packet_chain(p)),
        raw: p.raw@,
    }
}

impl ProtocolLayer {
    /// Create a new protocol layer from a PacketDetail implementor.
    pub fn from_packet_detail<P: PacketDetail>(packet: &P) -> (r: Self)
        ensures
            r@ == layer_of(packet),
    {
        Self {
            name: packet.name().to_owned(),
            slug: packet.slug().to_owned(),
            summary: packet.summary(),
            details: packet.details(),
        }
    }

    /// Appends the layer of `packet`.
    fn push_from<P: PacketDetail>(layers: &mut Vec<Self>, packet: &P)
        ensures
            layers_view(final(layers)@) == layers_view(old(layers)@).push(layer_of(packet)),
    {
        let l = Self::from_packet_detail(packet);
        let ghost before = layers@;
        layers.push(l);
        assert(layers_view(layers@) =~= layers_view(before).push(layer_of(packet)));
    }

    /// Collect all protocol layers of a frame, outermost first, following each decoded
    /// packet into the one it holds.
    pub fn collect_from(root: &EthernetPacket) -> (r: Vec<Self>)
        ensures
            layers_view(r@) == chain_layers(packet_chain(*root)),
    {
        let mut layers: Vec<Self> = Vec::new();
        Self::push_from(&mut layers, root);
        match &root.inner {
            EthernetPacketInner::Ipv4(ip) => {
                Self::push_from(&mut layers, ip);
                match &ip.inner {
                    Ipv4PacketInner::Icmp(x) => Self::push_from(&mut layers, x),
                    Ipv4PacketInner::Igmp(x) => Self::push_from(&mut layers, x),
                    Ipv4PacketInner::Tcp(t) => {
                        Self::push_from(&mut layers, t);
                        match &t.inner {
                            TcpPacketInner::Http(h) => Self::push_from(&mut layers, h),
                            TcpPacketInner::Unknown(_) => {},
                        }
                    },
                    Ipv4PacketInner::Udp(u) => {
                        Self::push_from(&mut layers, u);
                        match &u.inner {
                            UdpPacketInner::Dns(d) => Self::push_from(&mut layers, d),
                            UdpPacketInner::Unknown(_) => {},
                        }
                    },
                    Ipv4PacketInner::Unknown(_) => {},
                }
            },
            EthernetPacketInner::Arp(a) => Self::push_from(&mut layers, a),
            EthernetPacketInner::Ipv6(v) => Self::push_from(&mut layers, v),
            EthernetPacketInner::Unknown(_) => {},
        }
        assert(layers_view(layers@) =~= chain_layers(packet_chain(*root)));
        layers
    }
}

/// Keeps the addresses of `packet` when it has both, else the addresses kept so far.
fn note_addresses<P: PacketDetail>(last: &mut Option<(String, String)>, packet: &P)
    ensures
        kept_view(*final(last)) == match (packet.spec_source(), packet.spec_destination()) {
            (Some(s), Some(d)) => Some((s, d)),
            _ => kept_view(*old(last)),
        },
{
    if let (Some(source), Some(destination)) = (packet.source(), packet.destination()) {
        *last = Some((source, destination));
    }
}

/// The characters of kept addresses.
pub open spec fn kept_view(k: Option<(String, String)>) -> Option<(Seq<char>, Seq<char>)> {
    match k {
        Some(a) => Some((a.0@, a.1@)),
        None => None,
    }
}

/// `last_addresses` of a chain with one more layer.
pub proof fn lemma_last_addresses_push(c: Seq<LayerFacts>, f: LayerFacts)
    ensures
        last_addresses(c.push(f)) == match (f.source, f.destination) {
            (Some(s), Some(d)) => Some((s, d)),
            _ => last_addresses(c),
        },
{
    assert(c.push(f).drop_last() =~= c);
}

impl PacketInfo {
    /// Create a `PacketInfo` from an `EthernetPacket`: the innermost layer gives the protocol
    /// and the summary, the innermost layer with both addresses gives the addresses.
    pub fn from_ethernet(packet: &EthernetPacket, number: usize) -> (r: Self)
        ensures
            r@.number == number,
            r@.timestamp == packet.timestamp,
            r@.length == packet.raw@.len(),
            r@.raw == packet.raw@,
            r@.layers == chain_layers(packet_chain(*packet)),
            r@.protocol == packet_chain(*packet).last().layer.slug,
            r@.info == packet_chain(*packet).last().layer.summary,
            (r@.source, r@.destination) == shown_addresses(*packet),
            r@ == info_of(*packet, number),
    {
        let layers = ProtocolLayer::collect_from(packet);
        let (source, destination) = Self::get_addresses(packet);
        assert(layers_view(layers@).len() == layers@.len());
        let n = layers.len();
        let deepest = &layers[n - 1];
        assert(layers_view(layers@)[n - 1] == deepest@);
        let protocol = deepest.slug.clone();
        let info = deepest.summary.clone();
        Self {
            number,
            timestamp: packet.timestamp,
            source,
            destination,
            protocol,
            length: packet.raw.len(),
            info,
            layers,
            raw: vstd::slice::slice_to_vec(packet.raw),
        }
    }

    /// Get source and destination addresses from the protocol chain: those of the last
    /// layer that has both, else the frame's MAC addresses.
    fn get_addresses(packet: &EthernetPacket) -> (r: (String, String))
        ensures
            (r.0@, r.1@) == shown_addresses(*packet),
    {
        let mut last: Option<(String, String)> = None;
        let ghost mut seen: Seq<LayerFacts> = seq![];
        note_addresses(&mut last, packet);
        proof {
            lemma_last_addresses_push(seen, facts_of(packet));
            seen = seen.push(facts_of(packet));
        }
        assert(kept_view(last) == last_addresses(seen));
        match &packet.inner {
            EthernetPacketInner::Ipv4(ip) => {
                note_addresses(&mut last, ip);
                proof {
                    lemma_last_addresses_push(seen, facts_of(ip));
                    seen = seen.push(facts_of(ip));
                }
                match &ip.inner {
                    Ipv4PacketInner::Icmp(x) => {
                        note_addresses(&mut last, x);
                        proof {
                            lemma_last_addresses_push(seen, facts_of(x));
                            seen = seen.push(facts_of(x));
                        }
                    },
                    Ipv4PacketInner::Igmp(x) => {
                        note_addresses(&mut last, x);
                        proof {
                            lemma_last_addresses_push(seen, facts_of(x));
                            seen = seen.push(facts_of(x));
                        }
                    },
                    Ipv4PacketInner::Tcp(t) => {
                        note_addresses(&mut last, t);
                        proof {
                            lemma_last_addresses_push(seen, facts_of(t));
                            seen = seen.push(facts_of(t));
                        }
                        match &t.inner {
                            TcpPacketInner::Http(h) => {
                                note_addresses(&mut last, h);
                                proof {
                                    lemma_last_addresses_push(seen, facts_of(h));
                                    seen = seen.push(facts_of(h));
                                }
                            },
                            TcpPacketInner::Unknown(_) => {},
                        }
                    },
                    Ipv4PacketInner::Udp(u) => {
                        note_addresses(&mut last, u);
                        proof {
                            lemma_last_addresses_push(seen, facts_of(u));
                            seen = seen.push(facts_of(u));
                        }
                        match &u.inner {
                            UdpPacketInner::Dns(d) => {
                                note_addresses(&mut last, d);
                                proof {
                                    lemma_last_addresses_push(seen, facts_of(d));
                                    seen = seen.push(facts_of(d));
                                }
                            },
                            UdpPacketInner::Unknown(_) => {},
                        }
                    },
                    Ipv4PacketInner::Unknown(_) => {},
                }
            },
            EthernetPacketInner::Arp(a) => {
                note_addresses(&mut last, a);
                proof {
                    lemma_last_addresses_push(seen, facts_of(a));
                    seen = seen.push(facts_of(a));
                }
            },
            EthernetPacketInner::Ipv6(v) => {
                note_addresses(&mut last, v);
                proof {
                    lemma_last_addresses_push(seen, facts_of(v));
                    seen = seen.push(facts_of(v));
                }
            },
            EthernetPacketInner::Unknown(_) => {},
        }
        assert(seen =~= packet_chain(*packet));
        match last {
            Some(a) => a,
            None => (packet.source.to_text(), packet.destination.to_text()),
        }
    }
}

} // verus!
