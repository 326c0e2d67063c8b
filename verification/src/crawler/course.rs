//! A whole crawl: the session, the visits under way, and the peers on their way from the visits to
//! the session.
//!
//! A visit that was started asks its peer, passes on what the peer told of that was not visited,
//! and ends. What was passed on waits in a channel until it is handed over to the session. When
//! these things happen, and in what order, is open. The session may find at any time that nobody
//! listens to its reports; then it stops, and the visits under way end.

use super::session::{
    law_visits_are_bounded, lemma_contains_concat, lemma_looked_ahead, lemma_push_no_duplicates,
    SessionView,
};
use super::task::{law_untested_peers_are_kept, untested};
use crate::peer::PeerView;
use vstd::prelude::*;

verus! {

/// Where a whole crawl stands.
#[verifier::ext_equal]
pub struct CourseView {
    /// The session.
    pub session: SessionView,
    /// The peers that are being visited and have told of no peers yet.
    pub asking: Set<PeerView>,
    /// The peers that are being visited and have told of all their peers.
    pub ending: Set<PeerView>,
    /// What visits have passed on and was not handed over, in order.
    pub channel: Seq<Seq<PeerView>>,
    /// Whether the session has found that nobody listens to its reports.
    pub closed: bool,
}

/// Something that happens in a crawl.
pub enum CourseEvent {
    /// The session starts a visit.
    Visit,
    /// The session starts no visit, but waits.
    Wait,
    /// The peer at a visit tells of peers, and some of them are passed on.
    Tell {
        /// The peer that is visited.
        peer: PeerView,
        /// The peers that it tells of.
        told: Seq<PeerView>,
        /// The peers that are passed on.
        passed_on: Seq<PeerView>,
    },
    /// The visit to a peer is over. Where no connection was made, or nobody listens to reports, the
    /// peer has told of no peers.
    End(PeerView),
    /// What was passed on first is handed over to the session.
    Deliver,
    /// The session finds that nobody listens to its reports any more.
    Closed,
}

impl CourseEvent {
    /// The peers that were told of, and those that are told of in the event.
    pub open spec fn adds_to(self, told_before: Set<PeerView>) -> Set<PeerView> {
        match self {
            CourseEvent::Tell { peer, told, passed_on } => told_before.union(told.to_set()),
            _ => told_before,
        }
    }
}

/// Whether what is passed on is right: it was told of, and what was told of is passed on unless it
/// was visited or is next.
pub open spec fn passes_on(
    told: Seq<PeerView>,
    tested: Set<PeerView>,
    passed_on: Seq<PeerView>,
) -> bool {
    &&& forall|peer: PeerView| #[trigger] passed_on.contains(peer) ==> told.contains(peer)
    &&& forall|peer: PeerView| #[trigger]
        told.contains(peer) ==> passed_on.contains(peer) || tested.contains(peer)
}

/// Whether a peer is among those that wait in a channel.
pub open spec fn in_channel(channel: Seq<Seq<PeerView>>, peer: PeerView) -> bool {
    exists|i: int| 0 <= i < channel.len() && (#[trigger] channel[i]).contains(peer)
}

impl CourseView {
    /// Whether the crawl is over: no visit is under way, every peer that became known was looked
    /// at, and the channel is empty.
    pub open spec fn is_over(self) -> bool {
        &&& self.session.active == 0
        &&& self.session.idle()
        &&& self.channel.len() == 0
    }

    /// Whether the crawl stops: it is over, or nobody listens.
    pub open spec fn stops(self) -> bool {
        self.session.stops(self.closed, self.channel.len() == 0)
    }

    /// Whether a visit is under way.
    pub open spec fn is_visiting(self, peer: PeerView) -> bool {
        self.asking.contains(peer) || self.ending.contains(peer)
    }

    /// What holds of every crawl: what holds of its session, and the visits under way are those
    /// that the session counts.
    pub open spec fn well_formed(self) -> bool {
        &&& self.session.well_formed()
        &&& self.asking.finite()
        &&& self.ending.finite()
        &&& self.asking.disjoint(self.ending)
        &&& self.session.active == self.asking.len() + self.ending.len()
        &&& forall|peer: PeerView| #[trigger]
            self.is_visiting(peer) ==> self.session.visited.contains(peer)
    }

    /// The crawl after an event; nothing where the event cannot happen. Once nobody listens, visits
    /// under way end, and nothing else happens.
    pub open spec fn after(self, event: CourseEvent) -> Option<CourseView> {
        if self.closed && !(event is End) {
            None
        } else {
            match event {
                CourseEvent::Visit => match self.session.to_visit() {
                    Some(peer) => Some(
                        CourseView {
                            session: self.session.stepped(),
                            asking: self.asking.insert(peer),
                            ..self
                        },
                    ),
                    None => None,
                },
                CourseEvent::Wait => match self.session.to_visit() {
                    Some(_) => None,
                    None => Some(CourseView { session: self.session.stepped(), ..self }),
                },
                CourseEvent::Tell { peer, told, passed_on } => if self.asking.contains(peer)
                    && passes_on(told, self.session.tested, passed_on) {
                    Some(
                        CourseView {
                            asking: self.asking.remove(peer),
                            ending: self.ending.insert(peer),
                            channel: if passed_on.len() > 0 {
                                self.channel.push(passed_on)
                            } else {
                                self.channel
                            },
                            ..self
                        },
                    )
                } else {
                    None
                },
                CourseEvent::End(peer) => if self.is_visiting(peer) {
                    Some(
                        CourseView {
                            session: self.session.visit_over(),
                            asking: self.asking.remove(peer),
                            ending: self.ending.remove(peer),
                            ..self
                        },
                    )
                } else {
                    None
                },
                CourseEvent::Deliver => if self.channel.len() > 0 {
                    Some(
                        CourseView {
                            session: self.session.with_peers(self.channel[0]),
                            channel: self.channel.drop_first(),
                            ..self
                        },
                    )
                } else {
                    None
                },
                CourseEvent::Closed => Some(CourseView { closed: true, ..self }),
            }
        }
    }
}

/// A crawl after events, from the moment that the seed was handed over; nothing where the events
/// cannot happen one after the other.
pub open spec fn course(max: nat, seed: PeerView, events: Seq<CourseEvent>) -> Option<CourseView>
    decreases events.len(),
{
    if events.len() == 0 {
        Some(
            CourseView {
                session: SessionView::fresh(max).with_peers(seq![seed]),
                asking: Set::empty(),
                ending: Set::empty(),
                channel: Seq::empty(),
                closed: false,
            },
        )
    } else {
        match course(max, seed, events.drop_last()) {
            Some(before) => before.after(events.last()),
            None => None,
        }
    }
}

/// The seed, and all peers that visited peers told of.
pub open spec fn told_of(seed: PeerView, events: Seq<CourseEvent>) -> Set<PeerView>
    decreases events.len(),
{
    if events.len() == 0 {
        set![seed]
    } else {
        events.last().adds_to(told_of(seed, events.drop_last()))
    }
}

/// The number of events in which something happens, rather than that the session waits.
pub open spec fn happenings(events: Seq<CourseEvent>) -> nat
    decreases events.len(),
{
    if events.len() == 0 {
        0
    } else if events.last() is Wait {
        happenings(events.drop_last())
    } else {
        happenings(events.drop_last()) + 1
    }
}

/// What a visit passes on is right: the peers that were not tested when they were looked through,
/// though more may have been tested by the time that they are passed on.
pub proof fn law_visits_pass_on_what_was_not_tested(
    told: Seq<PeerView>,
    earlier: Set<PeerView>,
    tested: Set<PeerView>,
)
    requires
        earlier.subset_of(tested),
    ensures
        passes_on(told, tested, untested(told, earlier)),
{
    assert forall|peer: PeerView| #[trigger] untested(told, earlier).contains(peer)
        <==> told.contains(peer) && !earlier.contains(peer) by {
        law_untested_peers_are_kept(told, earlier, peer);
    }
    assert forall|peer: PeerView| #[trigger] told.contains(peer) implies untested(
        told,
        earlier,
    ).contains(peer) || tested.contains(peer) by {
        law_untested_peers_are_kept(told, earlier, peer);
    }
}

/// What was tested stays tested.
pub proof fn law_tested_peers_stay_tested(before: CourseView, event: CourseEvent)
    requires
        before.well_formed(),
        before.after(event) is Some,
    ensures
        before.session.tested.subset_of(before.after(event)->0.session.tested),
{
    lemma_looked_ahead(before.session);
}

/// What an event does to what waits in the channel and what the session knows.
proof fn lemma_step(before: CourseView, event: CourseEvent, told_before: Set<PeerView>)
    requires
        before.well_formed(),
        before.after(event) is Some,
        forall|peer: PeerView| #[trigger]
            told_before.contains(peer) <==> before.session.known.contains(peer) || in_channel(
                before.channel,
                peer,
            ),
    ensures
        before.after(event)->0.well_formed(),
        ({
            let after = before.after(event)->0;
            forall|peer: PeerView| #[trigger]
                event.adds_to(told_before).contains(peer) <==> after.session.known.contains(peer)
                    || in_channel(after.channel, peer)
        }),
{
    let after = before.after(event)->0;
    lemma_looked_ahead(before.session);
    match event {
        CourseEvent::Visit => {
            let peer = before.session.to_visit()->0;
            let ahead = before.session.looked_ahead();
            let visited = ahead.visited;
            assert(!visited.contains(peer));
            assert(!before.is_visiting(peer));
            lemma_push_no_duplicates(visited, peer);
            assert forall|other: PeerView| #[trigger] after.is_visiting(
                other,
            ) implies after.session.visited.contains(other) by {
                assert(other == peer || before.is_visiting(other));
            }
        },
        CourseEvent::Wait => {
            assert forall|other: PeerView| #[trigger] after.is_visiting(
                other,
            ) implies after.session.visited.contains(other) by {
                assert(before.is_visiting(other));
            }
        },
        CourseEvent::Tell { peer, told, passed_on } => {
            assert forall|other: PeerView| #[trigger] after.is_visiting(
                other,
            ) implies after.session.visited.contains(other) by {
                assert(before.is_visiting(other));
            }
            assert forall|other: PeerView| #[trigger] in_channel(after.channel, other)
                <==> in_channel(before.channel, other) || passed_on.contains(other) by {
                lemma_channel_push(before.channel, passed_on, other);
            }
            assert forall|other: PeerView| told.to_set().contains(other) <==> told.contains(
                other,
            ) by {}
            assert forall|other: PeerView| #[trigger] told_before.union(told.to_set()).contains(
                other,
            ) <==> after.session.known.contains(other) || in_channel(after.channel, other) by {
                assert(before.session.known.contains(other) <==> before.session.tested.contains(
                    other,
                ) || before.session.pending.contains(other));
                assert(told.contains(other) ==> passed_on.contains(other)
                    || before.session.tested.contains(other));
                assert(passed_on.contains(other) ==> told.contains(other));
                assert(told_before.contains(other) <==> before.session.known.contains(other)
                    || in_channel(before.channel, other));
                assert(in_channel(after.channel, other) <==> in_channel(before.channel, other)
                    || passed_on.contains(other));
            }
        },
        CourseEvent::End(peer) => {
            assert forall|other: PeerView| #[trigger] after.is_visiting(
                other,
            ) implies after.session.visited.contains(other) by {
                assert(before.is_visiting(other));
            }
            assert(before.asking.remove(peer).disjoint(before.ending.remove(peer)));
            if before.asking.contains(peer) {
                assert(before.ending.remove(peer) =~= before.ending);
            } else {
                assert(before.asking.remove(peer) =~= before.asking);
            }
        },
        CourseEvent::Deliver => {
            let batch = before.channel[0];
            lemma_with_peers(before.session, batch);
            assert forall|other: PeerView| #[trigger] after.is_visiting(
                other,
            ) implies after.session.visited.contains(other) by {
                assert(before.is_visiting(other));
            }
            assert forall|other: PeerView| #[trigger] told_before.contains(other)
                <==> after.session.known.contains(other) || in_channel(after.channel, other) by {
                lemma_channel_first(before.channel, other);
                assert(batch.to_set().contains(other) <==> batch.contains(other));
            }
        },
        CourseEvent::Closed => {
            assert forall|other: PeerView| #[trigger] after.is_visiting(
                other,
            ) implies after.session.visited.contains(other) by {
                assert(before.is_visiting(other));
            }
        },
    }
}

/// Peers that become known keep what holds of every crawl.
proof fn lemma_with_peers(session: SessionView, peers: Seq<PeerView>)
    requires
        session.well_formed(),
    ensures
        session.with_peers(peers).well_formed(),
{
    lemma_contains_concat(session.pending, peers);
}

/// What waits in a channel once something was passed on.
proof fn lemma_channel_push(
    channel: Seq<Seq<PeerView>>,
    passed_on: Seq<PeerView>,
    peer: PeerView,
)
    ensures
        in_channel(channel.push(passed_on), peer) <==> in_channel(channel, peer)
            || passed_on.contains(peer),
{
    let more = channel.push(passed_on);
    if in_channel(channel, peer) {
        let i = choose|i: int| 0 <= i < channel.len() && (#[trigger] channel[i]).contains(peer);
        assert(more[i].contains(peer));
    }
    if passed_on.contains(peer) {
        assert(more[channel.len() as int].contains(peer));
    }
    if in_channel(more, peer) {
        let i = choose|i: int| 0 <= i < more.len() && (#[trigger] more[i]).contains(peer);
        if i < channel.len() {
            assert(channel[i].contains(peer));
        }
    }
}

/// What waits in a channel, by what is first in it.
proof fn lemma_channel_first(channel: Seq<Seq<PeerView>>, peer: PeerView)
    requires
        channel.len() > 0,
    ensures
        in_channel(channel, peer) <==> channel[0].contains(peer) || in_channel(
            channel.drop_first(),
            peer,
        ),
{
    let rest = channel.drop_first();
    if in_channel(rest, peer) {
        let i = choose|i: int| 0 <= i < rest.len() && (#[trigger] rest[i]).contains(peer);
        assert(channel[i + 1].contains(peer));
    }
    if in_channel(channel, peer) {
        let i = choose|i: int| 0 <= i < channel.len() && (#[trigger] channel[i]).contains(peer);
        if i > 0 {
            assert(rest[i - 1].contains(peer));
        }
    }
}

/// Nothing gets lost in a crawl, and nothing comes from elsewhere: at every moment, the peers that
/// the session knows or that wait in the channel are the seed and the peers that visited peers told
/// of.
pub proof fn law_nothing_told_of_is_lost(max: nat, seed: PeerView, events: Seq<CourseEvent>)
    requires
        max > 0,
        course(max, seed, events) is Some,
    ensures
        course(max, seed, events)->0.well_formed(),
        forall|peer: PeerView| #[trigger]
            told_of(seed, events).contains(peer) <==> course(
                max,
                seed,
                events,
            )->0.session.known.contains(peer) || in_channel(
                course(max, seed, events)->0.channel,
                peer,
            ),
    decreases events.len(),
{
    let now = course(max, seed, events)->0;
    if events.len() == 0 {
        let fresh = SessionView::fresh(max);
        lemma_with_peers(fresh, seq![seed]);
        assert forall|peer: PeerView| #[trigger] told_of(seed, events).contains(peer)
            <==> now.session.known.contains(peer) || in_channel(now.channel, peer) by {
            assert(seq![seed].to_set().contains(peer) <==> peer == seed) by {
                assert(seq![seed][0] == seed);
            }
        }
    } else {
        law_nothing_told_of_is_lost(max, seed, events.drop_last());
        let before = course(max, seed, events.drop_last())->0;
        lemma_step(before, events.last(), told_of(seed, events.drop_last()));
    }
}

/// When a crawl is over, visits were started to the seed and to every peer that a visited peer told
/// of, to each of them once, and to no other.
pub proof fn law_finished_crawl_visited_each_peer_once(
    max: nat,
    seed: PeerView,
    events: Seq<CourseEvent>,
)
    requires
        max > 0,
        course(max, seed, events) is Some,
        course(max, seed, events)->0.is_over(),
    ensures
        course(max, seed, events)->0.session.visited.no_duplicates(),
        course(max, seed, events)->0.session.visited.to_set() == told_of(seed, events),
{
    law_nothing_told_of_is_lost(max, seed, events);
    let now = course(max, seed, events)->0;
    assert forall|peer: PeerView| now.session.visited.to_set().contains(peer)
        <==> #[trigger] told_of(seed, events).contains(peer) by {
        assert(now.session.tested.contains(peer) <==> now.session.visited.contains(peer));
        assert(now.session.known.contains(peer) <==> now.session.tested.contains(peer)
            || now.session.pending.contains(peer));
        assert(!now.session.pending.contains(peer));
        assert(!in_channel(now.channel, peer));
    }
    assert(now.session.visited.to_set() =~= told_of(seed, events));
}

/// A bound on what can still happen in a crawl in which only so many peers are told of.
spec fn potential(now: CourseView, count: nat) -> int {
    4 * (count - now.session.visited.len()) + 3 * now.asking.len() + now.ending.len()
        + now.channel.len() + (if now.closed {
        0int
    } else {
        1int
    })
}

/// A crawl comes to an end where only so many peers are told of: at most four things happen for
/// each of them, and once at most the session finds that nobody listens.
pub proof fn law_crawl_comes_to_an_end(
    max: nat,
    seed: PeerView,
    events: Seq<CourseEvent>,
    peers: Set<PeerView>,
)
    requires
        max > 0,
        course(max, seed, events) is Some,
        peers.finite(),
        told_of(seed, events).subset_of(peers),
    ensures
        happenings(events) <= 4 * peers.len() + 1,
{
    lemma_potential(max, seed, events, peers);
    law_nothing_told_of_is_lost(max, seed, events);
    let now = course(max, seed, events)->0;
    assert(now.session.known.subset_of(peers)) by {
        assert forall|peer: PeerView| now.session.known.contains(peer) implies peers.contains(
            peer,
        ) by {
            assert(told_of(seed, events).contains(peer));
        }
    }
    law_visits_are_bounded(now.session, peers);
}

/// Everything that happens uses up some of what can still happen.
proof fn lemma_potential(
    max: nat,
    seed: PeerView,
    events: Seq<CourseEvent>,
    peers: Set<PeerView>,
)
    requires
        max > 0,
        course(max, seed, events) is Some,
    ensures
        happenings(events) + potential(course(max, seed, events)->0, peers.len()) <= 4
            * peers.len() + 1,
    decreases events.len(),
{
    if events.len() > 0 {
        let earlier = events.drop_last();
        lemma_potential(max, seed, earlier, peers);
        law_nothing_told_of_is_lost(max, seed, earlier);
        let before = course(max, seed, earlier)->0;
        let after = course(max, seed, events)->0;
        lemma_looked_ahead(before.session);
        match events.last() {
            CourseEvent::Visit => {
                let peer = before.session.to_visit()->0;
                assert(!before.session.looked_ahead().visited.contains(peer));
                assert(!before.is_visiting(peer));
            },
            CourseEvent::Wait => {},
            CourseEvent::Tell { peer, told, passed_on } => {
                assert(!before.ending.contains(peer));
            },
            CourseEvent::End(peer) => {
                if before.asking.contains(peer) {
                    assert(before.ending.remove(peer) =~= before.ending);
                } else {
                    assert(before.asking.remove(peer) =~= before.asking);
                }
            },
            CourseEvent::Deliver => {},
            CourseEvent::Closed => {},
        }
    }
}

/// A crawl does not get stuck: where the session waits, the crawl is over, or a visit is under way
/// that will end, or something waits to be handed over.
pub proof fn law_waiting_crawl_is_over_or_goes_on(
    max: nat,
    seed: PeerView,
    events: Seq<CourseEvent>,
)
    requires
        max > 0,
        course(max, seed, events) is Some,
        events.len() > 0,
        events.last() is Wait,
    ensures
        ({
            let now = course(max, seed, events)->0;
            ||| now.is_over()
            ||| now.channel.len() > 0
            ||| exists|peer: PeerView| #[trigger] now.is_visiting(peer)
        }),
{
    law_nothing_told_of_is_lost(max, seed, events);
    law_nothing_told_of_is_lost(max, seed, events.drop_last());
    let before = course(max, seed, events.drop_last())->0;
    let now = course(max, seed, events)->0;
    lemma_looked_ahead(before.session);
    if now.session.active > 0 {
        if now.asking.len() > 0 {
            assert(now.is_visiting(now.asking.choose()));
        } else {
            assert(now.is_visiting(now.ending.choose()));
        }
    }
}

/// What happens once a crawl stops: no visit is started, and the crawl still stops.
proof fn lemma_stopped(before: CourseView, event: CourseEvent)
    requires
        before.well_formed(),
        before.stops(),
        before.after(event) is Some,
    ensures
        !(event is Visit),
        before.after(event)->0.stops(),
        before.after(event)->0.session.visited == before.session.visited,
{
    if !before.closed {
        assert(before.asking.len() == 0 && before.ending.len() == 0);
    }
}

/// A crawl that stops, because it ran dry or because nobody listens, is stopped for good: whatever
/// happens then, no visit is started any more.
pub proof fn law_stopped_crawl_starts_no_visit(
    max: nat,
    seed: PeerView,
    events: Seq<CourseEvent>,
    i: int,
)
    requires
        max > 0,
        course(max, seed, events) is Some,
        0 <= i <= events.len(),
        course(max, seed, events.take(i))->0.stops(),
    ensures
        course(max, seed, events)->0.stops(),
        course(max, seed, events)->0.session.visited == course(
            max,
            seed,
            events.take(i),
        )->0.session.visited,
        forall|j: int| i <= j < events.len() ==> !(#[trigger] events[j] is Visit),
    decreases events.len(),
{
    if i < events.len() {
        let earlier = events.drop_last();
        assert(earlier.take(i) =~= events.take(i));
        law_stopped_crawl_starts_no_visit(max, seed, earlier, i);
        law_nothing_told_of_is_lost(max, seed, earlier);
        lemma_stopped(course(max, seed, earlier)->0, events.last());
        assert forall|j: int| i <= j < events.len() implies !(#[trigger] events[j] is Visit) by {
            if j < earlier.len() {
                assert(earlier[j] == events[j]);
            }
        }
    } else {
        assert(events.take(i) =~= events);
    }
}

/// Once the session finds that nobody listens, no visit is started: only the visits that are under
/// way at that moment end, and nothing else happens.
pub proof fn law_nothing_starts_where_nobody_listens(
    max: nat,
    seed: PeerView,
    events: Seq<CourseEvent>,
    i: int,
)
    requires
        max > 0,
        course(max, seed, events) is Some,
        0 <= i < events.len(),
        events[i] is Closed,
    ensures
        course(max, seed, events)->0.closed,
        course(max, seed, events)->0.session.visited == course(
            max,
            seed,
            events.take(i),
        )->0.session.visited,
        forall|j: int| i < j < events.len() ==> #[trigger] events[j] is End,
        events.len() - i - 1 + course(max, seed, events)->0.session.active == course(
            max,
            seed,
            events.take(i),
        )->0.session.active,
    decreases events.len(),
{
    let earlier = events.drop_last();
    law_nothing_told_of_is_lost(max, seed, earlier);
    if i < earlier.len() {
        assert(earlier[i] == events[i]);
        assert(earlier.take(i) =~= events.take(i));
        law_nothing_starts_where_nobody_listens(max, seed, earlier, i);
        let before = course(max, seed, earlier)->0;
        if let CourseEvent::End(peer) = events.last() {
            assert(before.is_visiting(peer));
            if before.asking.contains(peer) {
                assert(before.asking.len() > 0);
            } else {
                assert(before.ending.len() > 0);
            }
        }
        assert forall|j: int| i < j < events.len() implies #[trigger] events[j] is End by {
            if j < earlier.len() {
                assert(earlier[j] == events[j]);
            }
        }
    } else {
        assert(events.take(i) =~= earlier);
    }
}

} // verus!
