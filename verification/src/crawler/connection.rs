//! Asking a peer for the peers that it knows.

use crate::address::{
    embeds_ipv4, word_octets, words_ip, AddrV2Message, AddrV2MessageView, AddrV2View, Address,
    AddressView, Network,
};
use crate::connection::configuration::{ConfigurationView, ConnectionConfiguration};
use crate::message::{addr_list, addr_v2_list, NetworkMessage, NetworkMessageView};
use crate::peer::{Peer, PeerProtocolVersion, PeerServices, PeerView};
use crate::time::Duration;
use vstd::prelude::*;

verus! {

/// The longest wait for one message, in seconds.
pub const MESSAGE_TIMEOUT_SECS: u64 = 5;

/// What peers stand for.
pub open spec fn peer_views(peers: Seq<Peer>) -> Seq<PeerView> {
    peers.map_values(|peer: Peer| peer@)
}

/// The peer that a legacy address stands for; nothing for a Tor address.
pub open spec fn legacy_peer(address: AddressView) -> Option<PeerView> {
    match words_ip(address.address) {
        Some(octets) => Some(
            PeerView {
                address: AddrV2View::of_ip(octets),
                port: address.port,
                services: PeerServices::Known(address.services),
                version: PeerProtocolVersion::Unknown,
            },
        ),
        None => None,
    }
}

/// The peers that legacy addresses stand for, in order, without those of Tor.
pub open spec fn legacy_peers(list: Seq<(u32, AddressView)>) -> Seq<PeerView>
    decreases list.len(),
{
    if list.len() == 0 {
        Seq::empty()
    } else {
        let before = legacy_peers(list.drop_last());
        match legacy_peer(list.last().1) {
            Some(peer) => before.push(peer),
            None => before,
        }
    }
}

/// The peer that an address in the form of BIP-155 stands for.
pub open spec fn relayed_peer(message: AddrV2MessageView) -> PeerView {
    PeerView {
        address: message.addr,
        port: message.port,
        services: PeerServices::Known(message.services),
        version: PeerProtocolVersion::Unknown,
    }
}

/// The peers that a message tells of.
pub open spec fn peers_in(message: NetworkMessageView) -> Seq<PeerView> {
    match message {
        NetworkMessageView::Addr(list) => legacy_peers(list),
        NetworkMessageView::AddrV2(list) => list.map_values(
            |entry: AddrV2MessageView| relayed_peer(entry),
        ),
        _ => Seq::empty(),
    }
}

/// The answer that a message calls for while peers are awaited: a pong to a ping.
pub open spec fn reply_to(message: NetworkMessageView) -> Option<NetworkMessageView> {
    match message {
        NetworkMessageView::Ping(nonce) => Some(NetworkMessageView::Pong(nonce)),
        _ => None,
    }
}

/// The peers that messages tell of, one after the other.
pub open spec fn peers_in_all(messages: Seq<NetworkMessageView>) -> Seq<PeerView>
    decreases messages.len(),
{
    if messages.len() == 0 {
        Seq::empty()
    } else {
        peers_in_all(messages.drop_last()) + peers_in(messages.last())
    }
}

/// Whether a peer is the one that an address in the form of BIP-155 tells of: at the same address
/// and port, with the services that are given, and of unknown version.
pub open spec fn is_relayed(peer: PeerView, entry: AddrV2Message) -> bool {
    &&& peer.address == entry.addr@
    &&& peer.port == entry.port
    &&& peer.services == PeerServices::Known(entry.services)
    &&& peer.version is Unknown
}

/// What is to be done next while peers are awaited.
#[derive(Debug, Clone, Copy, PartialEq, Eq, Structural)]
pub enum CollectStep {
    /// Wait this long for a message.
    Wait(Duration),
    /// Stop waiting.
    Done,
}

/// Collects the peers that a peer knows.
#[derive(Debug)]
pub struct PeerCollector {
    timeout: Duration,
    peers: Vec<Peer>,
    done: bool,
}

impl PeerCollector {
    /// The invariant of the collector.
    pub closed spec fn well_formed(self) -> bool {
        self.timeout.well_formed()
    }

    /// The time that collecting may take.
    pub closed spec fn timeout(self) -> Duration {
        self.timeout
    }

    /// The peers that were collected.
    pub closed spec fn collected(self) -> Seq<PeerView> {
        peer_views(self.peers@)
    }

    /// Whether collecting has come to its end before its time.
    pub closed spec fn done(self) -> bool {
        self.done
    }

    /// Begins to collect. Gives the message that asks the peer.
    pub fn begin(timeout: Duration) -> (r: (PeerCollector, NetworkMessage))
        requires
            timeout.well_formed(),
        ensures
            r.0.well_formed(),
            r.0.timeout() == timeout,
            r.0.collected() == Seq::<PeerView>::empty(),
            !r.0.done(),
            r.1@ == NetworkMessageView::GetAddr,
    {
        let collector = PeerCollector { timeout, peers: Vec::new(), done: false };
        assert(collector.collected() =~= Seq::<PeerView>::empty());
        (collector, NetworkMessage::GetAddr)
    }

    /// What is to be done next, by the time that has passed: wait for a message as long as there is
    /// time left, but not longer than the longest wait for one message.
    pub fn next_step(&self, elapsed: Duration) -> (r: CollectStep)
        requires
            self.well_formed(),
            elapsed.well_formed(),
        ensures
            match r {
                CollectStep::Done => {
                    self.done() || elapsed.as_nanos() >= self.timeout().as_nanos()
                },
                CollectStep::Wait(wait) => {
                    let left = self.timeout().as_nanos() - elapsed.as_nanos();
                    let longest = MESSAGE_TIMEOUT_SECS as int * 1_000_000_000;
                    &&& !self.done()
                    &&& elapsed.as_nanos() < self.timeout().as_nanos()
                    &&& wait.well_formed()
                    &&& wait.as_nanos() == (if left < longest {
                        left
                    } else {
                        longest
                    })
                },
            },
    {
        if self.done || !elapsed.is_shorter_than(self.timeout) {
            return CollectStep::Done;
        }
        let left = self.timeout.saturating_sub(elapsed);
        CollectStep::Wait(Duration::from_secs(MESSAGE_TIMEOUT_SECS).shorter(left))
    }

    /// Takes note that no message came in the time that was waited for one: the end, where there
    /// are peers.
    pub fn on_silence(&mut self)
        ensures
            final(self).done() == (old(self).done() || old(self).collected().len() > 0),
            final(self).well_formed() == old(self).well_formed(),
            final(self).timeout() == old(self).timeout(),
            final(self).collected() == old(self).collected(),
    {
        if self.peers.len() > 0 {
            self.done = true;
        }
    }

    /// Takes the peers from a message. Gives the answer that the message calls for.
    pub fn on_message(&mut self, message: NetworkMessage) -> (r: Option<NetworkMessage>)
        ensures
            final(self).collected() == old(self).collected() + peers_in(message@),
            final(self).done() == old(self).done(),
            final(self).well_formed() == old(self).well_formed(),
            final(self).timeout() == old(self).timeout(),
            match r {
                Some(reply) => reply_to(message@) == Some(reply@),
                None => reply_to(message@) is None,
            },
            match message {
                NetworkMessage::AddrV2(list) => {
                    let count = old(self).collected().len();
                    &&& final(self).collected().len() == count + list@.len()
                    &&& final(self).collected().take(count as int) == old(self).collected()
                    &&& forall|i: int|
                        0 <= i < list@.len() ==> is_relayed(
                            final(self).collected()[count + i],
                            #[trigger] list@[i],
                        )
                },
                NetworkMessage::Addr(_) => old(self).collected().is_prefix_of(
                    final(self).collected(),
                ),
                _ => final(self).collected() == old(self).collected(),
            },
            match message {
                NetworkMessage::Ping(nonce) => r matches Some(NetworkMessage::Pong(answer))
                    && answer == nonce,
                _ => r is None,
            },
    {
        let ghost before = self.collected();
        match message {
            NetworkMessage::Addr(list) => {
                self.take_legacy(&list);
                None
            },
            NetworkMessage::AddrV2(list) => {
                self.take_relayed(&list);
                proof {
                    let told = peers_in(NetworkMessageView::AddrV2(addr_v2_list(list@)));
                    assert(self.collected().take(before.len() as int) =~= before);
                    assert forall|i: int| 0 <= i < list@.len() implies is_relayed(
                        self.collected()[before.len() + i],
                        #[trigger] list@[i],
                    ) by {
                        assert(addr_v2_list(list@)[i] == list@[i]@);
                        assert(self.collected()[before.len() + i] == told[i]);
                    }
                }
                None
            },
            NetworkMessage::Ping(nonce) => {
                assert(self.collected() =~= before + Seq::<PeerView>::empty());
                Some(NetworkMessage::Pong(nonce))
            },
            _ => {
                assert(self.collected() =~= before + Seq::<PeerView>::empty());
                None
            },
        }
    }

    /// Takes the peers that legacy addresses stand for.
    fn take_legacy(&mut self, list: &Vec<(u32, Address)>)
        ensures
            final(self).collected() == old(self).collected() + legacy_peers(addr_list(list@)),
            final(self).done() == old(self).done(),
            final(self).timeout() == old(self).timeout(),
    {
        let ghost views = addr_list(list@);
        let ghost start = self.collected();
        let mut i: usize = 0;
        assert(self.collected() =~= start + legacy_peers(views.take(0)));
        while i < list.len()
            invariant
                i <= list@.len(),
                views == addr_list(list@),
                start == old(self).collected(),
                self.collected() == start + legacy_peers(views.take(i as int)),
                self.done() == old(self).done(),
                self.timeout() == old(self).timeout(),
            decreases list@.len() - i,
        {
            let address = list[i].1;
            let ghost now = self.collected();
            proof {
                assert(views.take(i + 1).drop_last() =~= views.take(i as int));
                assert(views[i as int] == (list@[i as int].0, address@));
            }
            match address.socket_addr() {
                Some(socket) => {
                    self.peers.push(
                        Peer::with_services(socket.ip.to_addr_v2(), socket.port, address.services),
                    );
                    assert(self.collected() =~= now.push(legacy_peer(address@)->0));
                },
                None => {},
            }
            i = i + 1;
            assert(self.collected() =~= start + legacy_peers(views.take(i as int)));
        }
        assert(views.take(views.len() as int) =~= views);
    }

    /// Takes the peers that addresses in the form of BIP-155 stand for.
    fn take_relayed(&mut self, list: &Vec<AddrV2Message>)
        ensures
            final(self).collected() == old(self).collected() + peers_in(
                NetworkMessageView::AddrV2(addr_v2_list(list@)),
            ),
            final(self).done() == old(self).done(),
            final(self).timeout() == old(self).timeout(),
    {
        let ghost all = peers_in(NetworkMessageView::AddrV2(addr_v2_list(list@)));
        let ghost start = self.collected();
        let mut i: usize = 0;
        assert(self.collected() =~= start + all.take(0));
        while i < list.len()
            invariant
                i <= list@.len() == all.len(),
                all == peers_in(NetworkMessageView::AddrV2(addr_v2_list(list@))),
                start == old(self).collected(),
                self.collected() == start + all.take(i as int),
                self.done() == old(self).done(),
                self.timeout() == old(self).timeout(),
            decreases list@.len() - i,
        {
            let entry = &list[i];
            let ghost now = self.collected();
            self.peers.push(Peer::with_services(entry.addr.clone(), entry.port, entry.services));
            proof {
                assert(all[i as int] == relayed_peer(entry@));
                assert(self.collected() =~= now.push(all[i as int]));
                assert(now.push(all[i as int]) =~= start + all.take(i + 1));
            }
            i = i + 1;
        }
        assert(all.take(all.len() as int) =~= all);
    }

    /// The peers that were collected.
    pub fn into_peers(self) -> (r: Vec<Peer>)
        ensures
            peer_views(r@) == self.collected(),
    {
        self.peers
    }
}

/// A peer is among those that legacy addresses stand for exactly when one of them stands for it.
pub proof fn law_legacy_peers_are_those_of_the_addresses(
    list: Seq<(u32, AddressView)>,
    peer: PeerView,
)
    ensures
        legacy_peers(list).contains(peer) <==> exists|i: int|
            0 <= i < list.len() && legacy_peer((#[trigger] list[i]).1) == Some(peer),
    decreases list.len(),
{
    if list.len() > 0 {
        let rest = list.drop_last();
        let before = legacy_peers(rest);
        law_legacy_peers_are_those_of_the_addresses(rest, peer);
        assert(forall|i: int| 0 <= i < rest.len() ==> list[i] == #[trigger] rest[i]);
        if let Some(last) = legacy_peer(list.last().1) {
            assert(before.push(last)[before.len() as int] == last);
            assert(forall|i: int|
                0 <= i < before.len() ==> before.push(last)[i] == #[trigger] before[i]);
        }
        if exists|i: int| 0 <= i < rest.len() && legacy_peer((#[trigger] rest[i]).1) == Some(peer) {
            let i = choose|i: int|
                0 <= i < rest.len() && legacy_peer((#[trigger] rest[i]).1) == Some(peer);
            assert(legacy_peer(list[i].1) == Some(peer));
        }
        if exists|i: int| 0 <= i < list.len() && legacy_peer((#[trigger] list[i]).1) == Some(peer) {
            let i = choose|i: int|
                0 <= i < list.len() && legacy_peer((#[trigger] list[i]).1) == Some(peer);
            if i < rest.len() {
                assert(legacy_peer(rest[i].1) == Some(peer));
            }
        }
    }
}

/// The peers in messages are those in the first messages, then those in the others.
pub proof fn law_peers_are_collected_in_order(
    first: Seq<NetworkMessageView>,
    second: Seq<NetworkMessageView>,
)
    ensures
        peers_in_all(first + second) == peers_in_all(first) + peers_in_all(second),
    decreases second.len(),
{
    if second.len() == 0 {
        assert(first + second =~= first);
        assert(peers_in_all(first) + peers_in_all(second) =~= peers_in_all(first));
    } else {
        let whole = first + second;
        assert(whole.drop_last() =~= first + second.drop_last());
        law_peers_are_collected_in_order(first, second.drop_last());
        assert(peers_in_all(whole) =~= peers_in_all(first) + peers_in_all(second));
    }
}

/// Makes connections on a network, all in the same way.
#[derive(Debug)]
pub struct PeerConnector {
    network: Network,
    config: ConnectionConfiguration,
}

impl PeerConnector {
    /// The network to connect on.
    pub closed spec fn on(self) -> Network {
        self.network
    }

    /// How connections are to be made.
    pub closed spec fn how(self) -> ConfigurationView {
        self.config@
    }

    /// Makes connections on a network in some way.
    pub fn new(network: Network, config: ConnectionConfiguration) -> (r: PeerConnector)
        ensures
            r.on() == network,
            r.how() == config@,
    {
        PeerConnector { network, config }
    }

    /// The network to connect on.
    pub fn network(&self) -> (r: Network)
        ensures
            r == self.on(),
    {
        self.network
    }

    /// How connections are to be made.
    pub fn configuration(&self) -> (r: ConnectionConfiguration)
        ensures
            r@ == self.how(),
    {
        self.config.clone()
    }
}

impl Clone for PeerConnector {
    fn clone(&self) -> (r: PeerConnector)
        ensures
            r.on() == self.on(),
            r.how() == self.how(),
    {
        PeerConnector { network: self.network, config: self.config.clone() }
    }
}

/// Each address in the form of BIP-155, of whatever network, tells of one peer: at this very
/// address and port, with the services that are given, and of unknown version. The peers come in
/// the order of the addresses.
pub proof fn law_relayed_addresses_tell_of_their_peers(list: Seq<AddrV2MessageView>)
    ensures
        ({
            let peers = peers_in(NetworkMessageView::AddrV2(list));
            &&& peers.len() == list.len()
            &&& forall|i: int|
                0 <= i < list.len() ==> {
                    &&& (#[trigger] peers[i]).address == list[i].addr
                    &&& peers[i].port == list[i].port
                    &&& peers[i].services == PeerServices::Known(list[i].services)
                    &&& peers[i].version is Unknown
                }
        }),
{
}

/// One legacy address tells of no peer where it starts with the prefix that was set aside for Tor.
/// Else it tells of one peer, with its port and services, and of unknown version: at the IPv4
/// address whose octets are those of the last two words, where the other words embed one, else at
/// the IPv6 address whose octets are those of all words.
pub proof fn law_a_legacy_address_tells_of_its_peer(time: u32, address: AddressView)
    requires
        address.address.len() == 8,
    ensures
        ({
            let w = address.address;
            let peers = peers_in(NetworkMessageView::Addr(seq![(time, address)]));
            let tor = w[0] == 0xFD87 && w[1] == 0xD87E && w[2] == 0xEB43;
            let embedded = w[0] == 0 && w[1] == 0 && w[2] == 0 && w[3] == 0 && w[4] == 0 && (w[5]
                == 0 || w[5] == 0xFFFF);
            if tor {
                peers.len() == 0
            } else {
                &&& peers.len() == 1
                &&& peers[0].port == address.port
                &&& peers[0].services == PeerServices::Known(address.services)
                &&& peers[0].version is Unknown
                &&& if embedded {
                    &&& peers[0].address matches AddrV2View::Ipv4(o)
                    &&& o.len() == 4
                    &&& o[0] * 256 + o[1] == w[6]
                    &&& o[2] * 256 + o[3] == w[7]
                } else {
                    &&& peers[0].address matches AddrV2View::Ipv6(o)
                    &&& o.len() == 16
                    &&& forall|i: int|
                        0 <= i < 8 ==> o[2 * i] * 256 + o[2 * i + 1] == #[trigger] w[i]
                }
            }
        }),
{
    let w = address.address;
    let list = seq![(time, address)];
    let peers = peers_in(NetworkMessageView::Addr(list));
    reveal_with_fuel(legacy_peers, 2);
    assert(list.last().1 == address);
    assert(list.drop_last() =~= Seq::<(u32, AddressView)>::empty());
    if let Some(octets) = words_ip(w) {
        assert(peers =~= seq![legacy_peer(address)->0]);
        if embeds_ipv4(w) {
            let last = w.subrange(6, 8);
            assert(last[0] == w[6] && last[1] == w[7]);
            assert(octets == word_octets(last));
            assert(octets[0] == last[0] / 256 && octets[1] == last[0] % 256);
            assert(octets[2] == last[1] / 256 && octets[3] == last[1] % 256);
        } else {
            assert(octets == word_octets(w));
            assert forall|i: int| 0 <= i < 8 implies octets[2 * i] * 256 + octets[2 * i + 1]
                == #[trigger] w[i] by {
                assert((2 * i) / 2 == i && (2 * i + 1) / 2 == i);
                assert(octets[2 * i] == w[i] / 256);
                assert(octets[2 * i + 1] == w[i] % 256);
            }
        }
    }
}

/// Legacy addresses put together tell of the peers of the first ones, then of those of the others;
/// no addresses tell of no peers.
pub proof fn law_legacy_addresses_tell_of_peers_in_order(
    first: Seq<(u32, AddressView)>,
    second: Seq<(u32, AddressView)>,
)
    ensures
        peers_in(NetworkMessageView::Addr(first + second)) == peers_in(
            NetworkMessageView::Addr(first),
        ) + peers_in(NetworkMessageView::Addr(second)),
        first.len() == 0 ==> peers_in(NetworkMessageView::Addr(first)).len() == 0,
    decreases second.len(),
{
    if second.len() == 0 {
        assert(first + second =~= first);
        assert(legacy_peers(first) + legacy_peers(second) =~= legacy_peers(first));
    } else {
        let whole = first + second;
        assert(whole.drop_last() =~= first + second.drop_last());
        assert(whole.last() == second.last());
        law_legacy_addresses_tell_of_peers_in_order(first, second.drop_last());
        assert(legacy_peers(whole) =~= legacy_peers(first) + legacy_peers(second));
    }
}

/// A ping is answered with a pong of the same number. No other message is answered, and only lists
/// of addresses tell of peers.
pub proof fn law_pings_are_answered(message: NetworkMessageView)
    ensures
        match message {
            NetworkMessageView::Ping(nonce) => reply_to(message) == Some(
                NetworkMessageView::Pong(nonce),
            ),
            _ => reply_to(message) is None,
        },
        !(message is Addr) && !(message is AddrV2) ==> peers_in(message).len() == 0,
{
}

/// A peer is asked for the peers that it knows, and nothing is collected yet.
pub proof fn law_peers_are_asked_for(timeout: Duration, r: (PeerCollector, NetworkMessage))
    requires
        call_ensures(PeerCollector::begin, (timeout,), r),
    ensures
        r.1 is GetAddr,
        r.0.collected().len() == 0,
        !r.0.done(),
        r.0.timeout() == timeout,
{
}

/// As long as there is time left and collecting has not come to its end, a message is waited for:
/// for what is left of the time, but never longer than five seconds.
pub proof fn law_waits_are_limited(collector: PeerCollector, elapsed: Duration, r: CollectStep)
    requires
        call_ensures(PeerCollector::next_step, (&collector, elapsed), r),
    ensures
        ({
            let time = collector.timeout().secs * 1_000_000_000 + collector.timeout().nanos;
            let passed = elapsed.secs * 1_000_000_000 + elapsed.nanos;
            &&& r is Wait <==> !collector.done() && passed < time
            &&& r matches CollectStep::Wait(wait) ==> {
                let length = wait.secs * 1_000_000_000 + wait.nanos;
                &&& wait.nanos < 1_000_000_000
                &&& length <= 5_000_000_000
                &&& length <= time - passed
                &&& length == 5_000_000_000 || length == time - passed
            }
        }),
{
}

/// A list of peers stands for its peers, in order.
pub proof fn law_lists_of_peers_stand_for_their_peers(peers: Seq<Peer>)
    ensures
        peer_views(peers).len() == peers.len(),
        forall|i: int| 0 <= i < peers.len() ==> #[trigger] peer_views(peers)[i] == peers[i]@,
{
}

/// A message adds to the peers that were collected, behind them, those that it tells of: one for
/// each address in the form of BIP-155, at that address and port and with those services. Other
/// messages than lists of addresses add none. A ping is answered with its own number, and nothing
/// else is answered. Whether collecting has come to its end does not change.
pub proof fn law_messages_add_the_peers_that_they_tell_of(
    collector: &mut PeerCollector,
    message: NetworkMessage,
    r: Option<NetworkMessage>,
)
    requires
        call_ensures(PeerCollector::on_message, (collector, message), r),
    ensures
        ({
            let before = old(collector).collected();
            let after = final(collector).collected();
            &&& final(collector).done() == old(collector).done()
            &&& final(collector).timeout() == old(collector).timeout()
            &&& before.len() <= after.len()
            &&& forall|i: int| 0 <= i < before.len() ==> #[trigger] after[i] == before[i]
            &&& match message {
                NetworkMessage::AddrV2(list) => {
                    &&& after.len() == before.len() + list@.len()
                    &&& forall|i: int|
                        0 <= i < list@.len() ==> {
                            let peer = after[before.len() + i];
                            &&& peer.address == (#[trigger] list@[i]).addr@
                            &&& peer.port == list@[i].port
                            &&& peer.services == PeerServices::Known(list@[i].services)
                            &&& peer.version is Unknown
                        }
                },
                NetworkMessage::Addr(list) => after == before + peers_in(
                    NetworkMessageView::Addr(
                        list@.map_values(|entry: (u32, Address)| (entry.0, entry.1@)),
                    ),
                ),
                _ => after == before,
            }
            &&& match message {
                NetworkMessage::Ping(nonce) => r matches Some(NetworkMessage::Pong(answer))
                    && answer == nonce,
                _ => r is None,
            }
        }),
{
    let before = old(collector).collected();
    let after = final(collector).collected();
    assert(after == before + peers_in(message@));
    if let NetworkMessage::Addr(list) = message {
        assert(list@.map_values(|entry: (u32, Address)| (entry.0, entry.1@)) =~= addr_list(list@));
    }
}

/// Silence is the end of collecting exactly when there are peers, and loses none of them.
pub proof fn law_silence_is_the_end_where_there_are_peers(collector: &mut PeerCollector)
    requires
        call_ensures(PeerCollector::on_silence, (collector,), ()),
    ensures
        final(collector).done() <==> old(collector).done() || old(collector).collected().len() > 0,
        final(collector).collected() == old(collector).collected(),
        final(collector).timeout() == old(collector).timeout(),
{
}

/// What was collected is handed out whole and in order.
pub proof fn law_collected_peers_are_handed_out(collector: PeerCollector, r: Vec<Peer>)
    requires
        call_ensures(PeerCollector::into_peers, (collector,), r),
    ensures
        r@.len() == collector.collected().len(),
        forall|i: int| 0 <= i < r@.len() ==> (#[trigger] r@[i])@ == collector.collected()[i],
{
    assert forall|i: int| 0 <= i < r@.len() implies (#[trigger] r@[i])@
        == collector.collected()[i] by {
        assert(peer_views(r@)[i] == r@[i]@);
    }
}

/// What makes connections gives back the network and the configuration that it was made of, and so
/// does a copy of it.
pub proof fn law_connectors_give_back_what_they_are_made_of(
    network: Network,
    config: ConnectionConfiguration,
    connector: PeerConnector,
    copy: PeerConnector,
    on: Network,
    how: ConnectionConfiguration,
)
    requires
        call_ensures(PeerConnector::new, (network, config), connector),
        call_ensures(PeerConnector::clone, (&connector,), copy),
        call_ensures(PeerConnector::network, (&copy,), on),
        call_ensures(PeerConnector::configuration, (&copy,), how),
    ensures
        on == network,
        how@ == config@,
{
}

} // verus!
