//! Sets of peers.

use crate::address::{AddrV2, AddrV2View};
use crate::peer::{Peer, PeerView};
use std::collections::HashMap;
use vstd::prelude::*;

verus! {

broadcast use vstd::std_specs::hash::group_hash_axioms;

/// The modulus of a digest, a prime.
pub const DIGEST_MODULUS: u64 = 4_294_967_291;

/// A number below the modulus that depends on every one of some bytes.
pub open spec fn digest(bytes: Seq<u8>) -> nat
    decreases bytes.len(),
{
    if bytes.len() == 0 {
        0
    } else {
        (digest(bytes.drop_last()) * 31 + bytes.last() as nat) % (DIGEST_MODULUS as nat)
    }
}

impl AddrV2View {
    /// The bytes of the address.
    pub open spec fn bytes(self) -> Seq<u8> {
        match self {
            AddrV2View::Ipv4(octets) => octets,
            AddrV2View::Ipv6(octets) => octets,
            AddrV2View::TorV2(bytes) => bytes,
            AddrV2View::TorV3(bytes) => bytes,
            AddrV2View::I2p(bytes) => bytes,
            AddrV2View::Cjdns(octets) => octets,
            AddrV2View::Unknown(_, bytes) => bytes,
        }
    }
}

/// The number of the bucket that a peer belongs in.
pub open spec fn bucket_of(peer: PeerView) -> nat {
    digest(peer.address.bytes()) * 65536 + peer.port as nat
}

/// The number of the bucket that a peer belongs in.
fn bucket_number(peer: &Peer) -> (r: u64)
    ensures
        r == bucket_of(peer@),
{
    let bytes = match &peer.address {
        AddrV2::Ipv4(octets) => octets.as_slice(),
        AddrV2::Ipv6(octets) => octets.as_slice(),
        AddrV2::TorV2(bytes) => bytes.as_slice(),
        AddrV2::TorV3(bytes) => bytes.as_slice(),
        AddrV2::I2p(bytes) => bytes.as_slice(),
        AddrV2::Cjdns(octets) => octets.as_slice(),
        AddrV2::Unknown(_, bytes) => bytes.as_slice(),
    };
    let mut sum: u64 = 0;
    let mut i: usize = 0;
    while i < bytes.len()
        invariant
            i <= bytes@.len(),
            bytes@ == peer@.address.bytes(),
            sum == digest(bytes@.take(i as int)),
            sum < DIGEST_MODULUS,
        decreases bytes@.len() - i,
    {
        assert(bytes@.take(i + 1).drop_last() =~= bytes@.take(i as int));
        sum = (sum * 31 + bytes[i] as u64) % DIGEST_MODULUS;
        i = i + 1;
    }
    assert(bytes@.take(bytes@.len() as int) =~= bytes@);
    sum * 65536 + peer.port as u64
}

/// Whether a peer is in a bucket.
spec fn in_bucket(bucket: Seq<Peer>, peer: PeerView) -> bool {
    exists|i: int| 0 <= i < bucket.len() && (#[trigger] bucket[i])@ == peer
}

/// Whether a peer is in its bucket.
spec fn in_buckets(buckets: Map<u64, Vec<Peer>>, peer: PeerView) -> bool {
    buckets.contains_key(bucket_of(peer) as u64) && in_bucket(
        buckets[bucket_of(peer) as u64]@,
        peer,
    )
}

/// A set of peers. Two peers are the same where all that is known of them is.
#[derive(Debug)]
pub struct PeerSet {
    buckets: HashMap<u64, Vec<Peer>>,
}

impl View for PeerSet {
    type V = Set<PeerView>;

    closed spec fn view(&self) -> Set<PeerView> {
        Set::new(|peer: PeerView| in_buckets(self.buckets@, peer))
    }
}

impl PeerSet {
    /// The empty set.
    pub fn new() -> (r: PeerSet)
        ensures
            r@ == Set::<PeerView>::empty(),
    {
        let r = PeerSet { buckets: HashMap::new() };
        assert(r@ =~= Set::<PeerView>::empty());
        r
    }

    /// Whether a peer is in a bucket.
    fn bucket_contains(bucket: &Vec<Peer>, peer: &Peer) -> (r: bool)
        ensures
            r == in_bucket(bucket@, peer@),
    {
        let mut i: usize = 0;
        while i < bucket.len()
            invariant
                i <= bucket@.len(),
                forall|j: int| 0 <= j < i ==> (#[trigger] bucket@[j])@ != peer@,
            decreases bucket@.len() - i,
        {
            if bucket[i] == *peer {
                return true;
            }
            i = i + 1;
        }
        false
    }

    /// Whether a peer is in the set.
    pub fn contains(&self, peer: &Peer) -> (r: bool)
        ensures
            r == self@.contains(peer@),
    {
        match self.buckets.get(&bucket_number(peer)) {
            Some(bucket) => PeerSet::bucket_contains(bucket, peer),
            None => false,
        }
    }

    /// Puts a peer in the set. Says whether it was not there yet.
    pub fn insert(&mut self, peer: Peer) -> (r: bool)
        ensures
            r == !old(self)@.contains(peer@),
            final(self)@ == old(self)@.insert(peer@),
    {
        let number: u64 = bucket_number(&peer);
        let ghost before = self.buckets@;
        let ghost added = peer@;
        let mut bucket: Vec<Peer> = match self.buckets.remove(&number) {
            Some(bucket) => bucket,
            None => Vec::new(),
        };
        let ghost old_bucket = bucket@;
        let is_new: bool = !PeerSet::bucket_contains(&bucket, &peer);
        if is_new {
            bucket.push(peer);
        }
        self.buckets.insert(number, bucket);
        proof {
            let after = self.buckets@;
            assert forall|other: PeerView| in_buckets(after, other) <==> in_buckets(before, other)
                || other == added by {
                if bucket_of(other) == bucket_of(added) {
                    if is_new {
                        assert(bucket@ == old_bucket.push(bucket@.last()));
                        assert(bucket@[bucket@.len() - 1]@ == added);
                        if in_bucket(old_bucket, other) {
                            let i = choose|i: int|
                                0 <= i < old_bucket.len() && (#[trigger] old_bucket[i])@ == other;
                            assert(bucket@[i]@ == other);
                        }
                        if in_bucket(bucket@, other) {
                            let i = choose|i: int|
                                0 <= i < bucket@.len() && (#[trigger] bucket@[i])@ == other;
                            if i < old_bucket.len() {
                                assert(old_bucket[i]@ == other);
                            }
                        }
                    }
                }
            }
            assert(self@ =~= old(self)@.insert(added));
        }
        is_new
    }
}

/// A set has exactly the peers that were put in, each once: putting one in says whether it is new,
/// and changes nothing for other peers.
pub proof fn law_sets_have_what_was_put_in(
    set: &mut PeerSet,
    added: Peer,
    is_new: bool,
    peer: PeerView,
    empty: PeerSet,
    asked: Peer,
    found: bool,
)
    requires
        call_ensures(PeerSet::new, (), empty),
        call_ensures(PeerSet::insert, (set, added), is_new),
        call_ensures(PeerSet::contains, (final(set), &asked), found),
    ensures
        !empty@.contains(peer),
        is_new <==> !old(set)@.contains(added@),
        final(set)@.contains(peer) <==> old(set)@.contains(peer) || peer == added@,
        found <==> old(set)@.contains(asked@) || asked@ == added@,
{
}

} // verus!
