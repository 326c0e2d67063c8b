//! The course of a crawl.
//!
//! Peers that become known are visited, each one once, and only so many at a time. The crawl is
//! over when every peer that became known was visited, or when nobody listens to its reports.

use super::connection::peer_views;
use super::peer_set::PeerSet;
use crate::peer::{Peer, PeerView};
use crate::time::Duration;
use std::collections::VecDeque;
use vstd::prelude::*;

verus! {

/// How a crawl is to go.
#[derive(Debug, Clone, Copy, PartialEq, Eq, Structural)]
pub struct SessionConfig {
    /// How many peers are visited at a time, at most.
    pub max_concurrent_tasks: usize,
    /// How long making a connection may take, and how long asking a peer for peers.
    pub peer_timeout: Duration,
}

/// What is to be done next in a crawl.
#[derive(Debug)]
pub enum SessionStep {
    /// Start a visit to this peer.
    Visit(Peer),
    /// Wait until a visit is over.
    AwaitVisit,
    /// Wait until peers become known or a visit is over; the peers come first where there are both.
    AwaitNews,
}

/// Where a crawl stands.
#[verifier::ext_equal]
pub struct SessionView {
    /// How many peers are visited at a time, at most.
    pub max: nat,
    /// How many peers are being visited.
    pub active: nat,
    /// The peers that were visited or are next.
    pub tested: Set<PeerView>,
    /// The peers that became known last and were not looked at.
    pub pending: Seq<PeerView>,
    /// The peer that is visited next.
    pub next: Option<PeerView>,
    /// The peers to which visits were started, in order.
    pub visited: Seq<PeerView>,
    /// All peers that became known.
    pub known: Set<PeerView>,
}

/// The place of the first of some peers that was not visited, or their number where there is none.
pub open spec fn first_untested(peers: Seq<PeerView>, tested: Set<PeerView>) -> nat
    decreases peers.len(),
{
    if peers.len() == 0 || !tested.contains(peers[0]) {
        0
    } else {
        1 + first_untested(peers.drop_first(), tested)
    }
}

impl SessionView {
    /// What holds of every crawl: no more peers are visited at a time than may be; the peers that
    /// were visited are all different; the peers that were visited and the next one are those that
    /// are not to be visited again; and every peer that became known is one of those, or still to
    /// be looked at.
    pub open spec fn well_formed(self) -> bool {
        &&& self.active <= self.max
        &&& self.max > 0
        &&& self.visited.no_duplicates()
        &&& forall|peer: PeerView| #[trigger]
            self.tested.contains(peer) <==> self.visited.contains(peer) || self.next == Some(peer)
        &&& self.next matches Some(peer) ==> !self.visited.contains(peer)
        &&& forall|peer: PeerView| #[trigger]
            self.known.contains(peer) <==> self.tested.contains(peer) || self.pending.contains(peer)
    }

    /// Whether every peer that became known was looked at.
    pub open spec fn idle(self) -> bool {
        self.pending.len() == 0 && self.next is None
    }

    /// The crawl once the next peer to visit was looked for among those that became known.
    pub open spec fn looked_ahead(self) -> SessionView {
        let skipped = first_untested(self.pending, self.tested);
        if self.next is Some {
            self
        } else if skipped == self.pending.len() {
            SessionView { pending: Seq::empty(), ..self }
        } else {
            let peer = self.pending[skipped as int];
            SessionView {
                pending: self.pending.skip(skipped as int + 1),
                tested: self.tested.insert(peer),
                next: Some(peer),
                ..self
            }
        }
    }

    /// A crawl in which no peer is known yet.
    pub open spec fn fresh(max: nat) -> SessionView {
        SessionView {
            max,
            active: 0,
            tested: Set::empty(),
            pending: Seq::empty(),
            next: None,
            visited: Seq::empty(),
            known: Set::empty(),
        }
    }

    /// The crawl once peers became known.
    pub open spec fn with_peers(self, peers: Seq<PeerView>) -> SessionView {
        SessionView {
            pending: self.pending + peers,
            known: self.known.union(peers.to_set()),
            ..self
        }
    }

    /// The peer to which a visit can be started.
    pub open spec fn to_visit(self) -> Option<PeerView> {
        if self.looked_ahead().active < self.looked_ahead().max {
            self.looked_ahead().next
        } else {
            None
        }
    }

    /// The crawl once a visit was started, where one can be.
    pub open spec fn stepped(self) -> SessionView {
        match self.to_visit() {
            Some(peer) => SessionView {
                active: self.active + 1,
                next: None,
                visited: self.visited.push(peer),
                ..self.looked_ahead()
            },
            None => self.looked_ahead(),
        }
    }

    /// Whether the crawl stops: nobody listens to its reports, or no visit is under way, every peer
    /// that became known was looked at, and no peers wait to be handed over.
    pub open spec fn stops(self, reports_closed: bool, channel_empty: bool) -> bool {
        reports_closed || (self.active == 0 && self.idle() && channel_empty)
    }

    /// The crawl once a visit is over.
    pub open spec fn visit_over(self) -> SessionView {
        SessionView { active: (self.active - 1) as nat, ..self }
    }
}

/// Decides which peers are visited, and when.
pub struct CrawlSession {
    max: usize,
    active: usize,
    tested: PeerSet,
    pending: VecDeque<Peer>,
    next: Option<Peer>,
    visited: Ghost<Seq<PeerView>>,
    known: Ghost<Set<PeerView>>,
}

impl View for CrawlSession {
    type V = SessionView;

    closed spec fn view(&self) -> SessionView {
        SessionView {
            max: self.max as nat,
            active: self.active as nat,
            tested: self.tested@,
            pending: peer_views(self.pending@),
            next: match self.next {
                Some(peer) => Some(peer@),
                None => None,
            },
            visited: self.visited@,
            known: self.known@,
        }
    }
}

impl CrawlSession {
    /// A crawl in which no peer is known yet.
    pub fn new(config: &SessionConfig) -> (r: CrawlSession)
        requires
            config.max_concurrent_tasks > 0,
        ensures
            r@ == SessionView::fresh(config.max_concurrent_tasks as nat),
            r@.well_formed(),
    {
        let r = CrawlSession {
            max: config.max_concurrent_tasks,
            active: 0,
            tested: PeerSet::new(),
            pending: VecDeque::new(),
            next: None,
            visited: Ghost(Seq::empty()),
            known: Ghost(Set::empty()),
        };
        assert(r@.pending =~= Seq::<PeerView>::empty());
        r
    }

    /// Takes note of peers that became known.
    pub fn on_peers(&mut self, peers: Vec<Peer>)
        requires
            old(self)@.well_formed(),
        ensures
            final(self)@ == old(self)@.with_peers(peer_views(peers@)),
            final(self)@.well_formed(),
    {
        let ghost views = peer_views(peers@);
        let ghost before = self@;
        let mut i: usize = 0;
        assert(before.pending + views.take(0) =~= before.pending);
        while i < peers.len()
            invariant
                i <= peers@.len(),
                views == peer_views(peers@),
                self@ == (SessionView {
                    pending: before.pending + views.take(i as int),
                    ..before
                }),
            decreases peers@.len() - i,
        {
            let ghost now = self.pending@;
            self.pending.push_back(peers[i].clone());
            assert(self@.pending =~= peer_views(now).push(views[i as int]));
            i = i + 1;
            assert(self@.pending =~= before.pending + views.take(i as int));
        }
        proof {
            assert(views.take(views.len() as int) =~= views);
            self.known@ = self.known@.union(views.to_set());
            lemma_contains_concat(before.pending, views);
        }
    }

    /// What is to be done next: visit the first peer that was not visited, as soon as there is room
    /// for one more visit; where all were, wait for news.
    pub fn next_step(&mut self) -> (r: SessionStep)
        requires
            old(self)@.well_formed(),
        ensures
            final(self)@.well_formed(),
            final(self)@ == old(self)@.stepped(),
            match old(self)@.to_visit() {
                Some(peer) => r matches SessionStep::Visit(visited) && visited@ == peer,
                None => if final(self)@.next is None {
                    r is AwaitNews && final(self)@.idle()
                } else {
                    r is AwaitVisit
                },
            },
    {
        self.look_ahead();
        let ghost ahead = self@;
        if self.next.is_none() {
            return SessionStep::AwaitNews;
        }
        if self.active >= self.max {
            return SessionStep::AwaitVisit;
        }
        match self.next.take() {
            Some(peer) => {
                self.active = self.active + 1;
                proof {
                    self.visited@ = self.visited@.push(peer@);
                    lemma_push_no_duplicates(ahead.visited, peer@);
                }
                SessionStep::Visit(peer)
            },
            None => SessionStep::AwaitNews,
        }
    }

    /// Looks for the next peer to visit among those that became known.
    fn look_ahead(&mut self)
        requires
            old(self)@.well_formed(),
        ensures
            final(self)@ == old(self)@.looked_ahead(),
            final(self)@.well_formed(),
            final(self)@.next is None ==> final(self)@.pending.len() == 0,
    {
        while self.next.is_none()
            invariant_except_break
                self@.well_formed(),
                self@.looked_ahead() == old(self)@.looked_ahead(),
            ensures
                self@.well_formed(),
                self@ == old(self)@.looked_ahead(),
                self@.next is None ==> self@.pending.len() == 0,
            decreases self.pending@.len(),
        {
            let ghost before = self@;
            match self.pending.pop_front() {
                None => {
                    assert(self@ =~= before.looked_ahead());
                    break;
                },
                Some(peer) => {
                    proof {
                        assert(before.pending[0] == peer@);
                        assert(self@.pending =~= before.pending.drop_first());
                        lemma_contains_first(before.pending);
                    }
                    if self.tested.insert(peer.clone()) {
                        proof {
                            assert(before.pending.skip(1) =~= before.pending.drop_first());
                            assert(self@.tested =~= before.tested.insert(peer@));
                        }
                        self.next = Some(peer);
                        assert(self@ =~= before.looked_ahead());
                    } else {
                        proof {
                            assert(self@.tested =~= before.tested);
                            let rest = before.pending.drop_first();
                            let skipped = first_untested(rest, before.tested) as int;
                            lemma_first_untested(rest, before.tested);
                            if skipped < rest.len() {
                                assert(rest.skip(skipped + 1) =~= before.pending.skip(skipped + 2));
                            }
                            assert(self@.looked_ahead() =~= before.looked_ahead());
                        }
                    }
                },
            }
        }
    }

    /// Takes note that a visit is over.
    pub fn on_visit_over(&mut self)
        requires
            old(self)@.well_formed(),
            old(self)@.active > 0,
        ensures
            final(self)@ == old(self)@.visit_over(),
            final(self)@.well_formed(),
    {
        self.active = self.active - 1;
    }

    /// Whether no visit is under way and every peer that became known was looked at. The crawl has
    /// run dry then, if all peers that visits told of have been handed over.
    pub fn is_over(&self) -> (r: bool)
        ensures
            r == (self@.active == 0 && self@.idle()),
    {
        self.active == 0 && self.pending.len() == 0 && self.next.is_none()
    }

    /// Whether the crawl stops, given whether nobody can receive its reports any more, and whether
    /// the channel is empty in which visits leave the peers that they were told of.
    pub fn stops(&self, reports_closed: bool, channel_empty: bool) -> (r: bool)
        ensures
            r == self@.stops(reports_closed, channel_empty),
    {
        reports_closed || (self.is_over() && channel_empty)
    }

    /// The peers that are not to be visited again.
    pub fn tested(&self) -> (r: &PeerSet)
        ensures
            r@ == self@.tested,
    {
        &self.tested
    }

    /// How many peers are being visited.
    pub fn active(&self) -> (r: usize)
        ensures
            r == self@.active,
    {
        self.active
    }
}

/// Looking ahead keeps what holds of every crawl.
pub(crate) proof fn lemma_looked_ahead(session: SessionView)
    requires
        session.well_formed(),
    ensures
        session.looked_ahead().well_formed(),
        session.looked_ahead().next is None ==> session.looked_ahead().idle(),
        session.tested.subset_of(session.looked_ahead().tested),
    decreases session.pending.len(),
{
    if session.next is None && session.pending.len() > 0 {
        let rest = session.pending.drop_first();
        lemma_contains_first(session.pending);
        if session.tested.contains(session.pending[0]) {
            let later = SessionView { pending: rest, ..session };
            let skipped = first_untested(rest, session.tested) as int;
            lemma_first_untested(rest, session.tested);
            lemma_looked_ahead(later);
            if skipped < rest.len() {
                assert(rest.skip(skipped + 1) =~= session.pending.skip(skipped + 2));
            }
            assert(session.looked_ahead() =~= later.looked_ahead());
        } else {
            assert(session.pending.skip(1) =~= rest);
        }
    }
}

/// The place of the first peer that was not visited is one among the peers, or behind them.
proof fn lemma_first_untested(peers: Seq<PeerView>, tested: Set<PeerView>)
    ensures
        first_untested(peers, tested) <= peers.len(),
    decreases peers.len(),
{
    if peers.len() > 0 && tested.contains(peers[0]) {
        lemma_first_untested(peers.drop_first(), tested);
    }
}

/// What two sequences contain, put together.
pub(crate) proof fn lemma_contains_concat(first: Seq<PeerView>, second: Seq<PeerView>)
    ensures
        forall|peer: PeerView| #[trigger]
            (first + second).contains(peer) <==> first.contains(peer) || second.to_set().contains(
                peer,
            ),
{
    assert forall|peer: PeerView| #[trigger]
        (first + second).contains(peer) <==> first.contains(peer) || second.to_set().contains(
            peer,
        ) by {
        let whole = first + second;
        if first.contains(peer) {
            let i = choose|i: int| 0 <= i < first.len() && first[i] == peer;
            assert(whole[i] == peer);
        }
        if second.contains(peer) {
            let i = choose|i: int| 0 <= i < second.len() && second[i] == peer;
            assert(whole[first.len() + i] == peer);
        }
        if whole.contains(peer) {
            let i = choose|i: int| 0 <= i < whole.len() && whole[i] == peer;
            if i < first.len() {
                assert(first[i] == peer);
            } else {
                assert(second[i - first.len()] == peer);
            }
        }
    }
}

/// What a sequence contains, by its first element.
proof fn lemma_contains_first(peers: Seq<PeerView>)
    requires
        peers.len() > 0,
    ensures
        forall|peer: PeerView| #[trigger]
            peers.contains(peer) <==> peers[0] == peer || peers.drop_first().contains(peer),
{
    let rest = peers.drop_first();
    assert forall|peer: PeerView| #[trigger]
        peers.contains(peer) <==> peers[0] == peer || rest.contains(peer) by {
        if rest.contains(peer) {
            let i = choose|i: int| 0 <= i < rest.len() && rest[i] == peer;
            assert(peers[i + 1] == peer);
        }
        if peers.contains(peer) {
            let i = choose|i: int| 0 <= i < peers.len() && peers[i] == peer;
            if i > 0 {
                assert(rest[i - 1] == peer);
            }
        }
    }
}

/// A sequence without duplicates stays one when something new is added.
pub(crate) proof fn lemma_push_no_duplicates(peers: Seq<PeerView>, added: PeerView)
    requires
        peers.no_duplicates(),
        !peers.contains(added),
    ensures
        peers.push(added).no_duplicates(),
        forall|peer: PeerView| #[trigger]
            peers.push(added).contains(peer) <==> peers.contains(peer) || peer == added,
{
    let more = peers.push(added);
    assert(more[peers.len() as int] == added);
    assert forall|peer: PeerView| #[trigger]
        more.contains(peer) <==> peers.contains(peer) || peer == added by {
        if peers.contains(peer) {
            let i = choose|i: int| 0 <= i < peers.len() && peers[i] == peer;
            assert(more[i] == peer);
        }
        if more.contains(peer) {
            let i = choose|i: int| 0 <= i < more.len() && more[i] == peer;
            if i < peers.len() {
                assert(peers[i] == peer);
            }
        }
    }
}

/// No peer is visited twice, and no more peers are visited at a time than may be.
pub proof fn law_each_peer_is_visited_once(session: SessionView)
    requires
        session.well_formed(),
    ensures
        session.active <= session.max,
        forall|i: int, j: int|
            0 <= i < j < session.visited.len() ==> session.visited[i] != session.visited[j],
{
}

/// When every peer that became known was looked at, the peers to which visits were started are
/// exactly those that became known.
pub proof fn law_every_known_peer_is_visited(session: SessionView)
    requires
        session.well_formed(),
        session.idle(),
    ensures
        session.visited.to_set() == session.known,
{
    assert forall|peer: PeerView| session.visited.to_set().contains(peer)
        <==> #[trigger] session.known.contains(peer) by {
        assert(session.tested.contains(peer) <==> session.visited.contains(peer));
        assert(!session.pending.contains(peer));
    }
    assert(session.visited.to_set() =~= session.known);
}

/// A crawl comes to an end where only so many peers can become known: no more visits are started
/// than there are such peers.
pub proof fn law_visits_are_bounded(session: SessionView, peers: Set<PeerView>)
    requires
        session.well_formed(),
        peers.finite(),
        session.known.subset_of(peers),
    ensures
        session.visited.len() <= peers.len(),
{
    session.visited.unique_seq_to_set();
    assert forall|peer: PeerView| session.visited.to_set().contains(peer) implies peers.contains(
        peer,
    ) by {
        assert(session.tested.contains(peer));
        assert(session.known.contains(peer));
    }
    vstd::set_lib::lemma_len_subset(session.visited.to_set(), peers);
}

/// A visit is started as soon as there is room for one and a peer that became known was not looked
/// at or tested. It goes to the peer that was found before, else to the first of those that were
/// not looked at and are not tested; the ones before it are passed over, and none behind it. Only
/// this peer becomes tested.
pub proof fn law_visits_start_in_order_and_without_delay(session: SessionView)
    requires
        session.well_formed(),
    ensures
        ({
            let after = session.stepped();
            let waiting = session.next is Some || exists|i: int|
                0 <= i < session.pending.len() && !session.tested.contains(
                    #[trigger] session.pending[i],
                );
            &&& session.to_visit() is Some <==> waiting && session.active < session.max
            &&& after.max == session.max
            &&& after.known == session.known
            &&& match session.to_visit() {
                None => {
                    &&& after.active == session.active
                    &&& after.visited == session.visited
                    &&& after.next is Some <==> waiting
                    &&& after.next is Some ==> session.active == session.max
                    &&& after.next is None ==> after.pending.len() == 0
                },
                Some(peer) => {
                    &&& after.active == session.active + 1
                    &&& after.visited == session.visited.push(peer)
                    &&& after.tested == session.tested.insert(peer)
                    &&& after.next is None
                    &&& match session.next {
                        Some(found) => peer == found && after.pending == session.pending,
                        None => exists|i: int|
                            {
                                &&& 0 <= i < session.pending.len()
                                &&& #[trigger] session.pending[i] == peer
                                &&& !session.tested.contains(peer)
                                &&& forall|j: int|
                                    0 <= j < i ==> session.tested.contains(
                                        #[trigger] session.pending[j],
                                    )
                                &&& after.pending == session.pending.skip(i + 1)
                            },
                    }
                },
            }
        }),
{
    let skipped = first_untested(session.pending, session.tested) as int;
    lemma_first_untested(session.pending, session.tested);
    lemma_first_untested_place(session.pending, session.tested);
    lemma_looked_ahead(session);
    if session.next is None && skipped < session.pending.len() {
        assert(!session.tested.contains(session.pending[skipped]));
    }
    if let Some(peer) = session.to_visit() {
        if session.next is Some {
            assert(session.tested.contains(peer));
            assert(session.stepped().tested =~= session.tested.insert(peer));
        }
    }
}

/// The place of the first peer that was not visited: those before it were, and it was not.
proof fn lemma_first_untested_place(peers: Seq<PeerView>, tested: Set<PeerView>)
    ensures
        ({
            let place = first_untested(peers, tested) as int;
            &&& forall|i: int| 0 <= i < place && i < peers.len() ==> tested.contains(
                #[trigger] peers[i],
            )
            &&& place < peers.len() ==> !tested.contains(peers[place])
        }),
    decreases peers.len(),
{
    if peers.len() > 0 && tested.contains(peers[0]) {
        let rest = peers.drop_first();
        lemma_first_untested_place(rest, tested);
        let place = first_untested(peers, tested) as int;
        assert forall|i: int| 0 <= i < place && i < peers.len() implies tested.contains(
            #[trigger] peers[i],
        ) by {
            if i > 0 {
                assert(rest[i - 1] == peers[i]);
            }
        }
        if place < peers.len() {
            assert(rest[place - 1] == peers[place]);
        }
    }
}

/// Peers that become known wait behind those that became known before, in their order, and nothing
/// else changes. A visit that is over makes room for one more, and nothing else changes. A crawl
/// starts with nothing known.
pub proof fn law_news_change_nothing_else(
    session: SessionView,
    peers: Seq<PeerView>,
    peer: PeerView,
    max: nat,
)
    requires
        session.active > 0,
    ensures
        ({
            let told = session.with_peers(peers);
            let over = session.visit_over();
            let start = SessionView::fresh(max);
            &&& told.pending == session.pending + peers
            &&& told.known.contains(peer) <==> session.known.contains(peer) || peers.contains(peer)
            &&& told.tested == session.tested && told.next == session.next
            &&& told.visited == session.visited
            &&& told.active == session.active && told.max == session.max
            &&& over.active + 1 == session.active && over.max == session.max
            &&& over.tested == session.tested && over.next == session.next
            &&& over.visited == session.visited && over.known == session.known
            &&& over.pending == session.pending
            &&& start.max == max && start.active == 0 && start.next is None
            &&& start.pending.len() == 0 && start.visited.len() == 0
            &&& !start.tested.contains(peer) && !start.known.contains(peer)
        }),
{
}

/// A crawl stops when nobody listens. Else it stops exactly when no visit is under way, no peer
/// that became known is left to look at or to visit, and nothing waits in the channel.
pub proof fn law_crawls_stop_when_nothing_is_left(
    session: CrawlSession,
    reports_closed: bool,
    channel_empty: bool,
    r: bool,
)
    requires
        call_ensures(CrawlSession::stops, (&session, reports_closed, channel_empty), r),
    ensures
        reports_closed ==> r,
        !reports_closed ==> (r <==> session@.active == 0 && session@.pending.len() == 0
            && session@.next is None && channel_empty),
{
}

/// A crawl starts with nothing known, and with as many visits at a time as are allowed.
pub proof fn law_crawls_start_with_nothing(config: SessionConfig, r: CrawlSession)
    requires
        call_ensures(CrawlSession::new, (&config,), r),
    ensures
        r@.max == config.max_concurrent_tasks,
        r@.active == 0,
        r@.next is None,
        r@.pending.len() == 0,
        r@.visited.len() == 0,
        forall|peer: PeerView| !#[trigger] r@.tested.contains(peer),
        forall|peer: PeerView| !#[trigger] r@.known.contains(peer),
{
}

/// Peers that a session is told of wait to be looked at, each of them, behind those that it was
/// told of before; and the session changes in nothing else.
pub proof fn law_all_news_are_taken_note_of(session: &mut CrawlSession, peers: Vec<Peer>)
    requires
        call_ensures(CrawlSession::on_peers, (session, peers), ()),
    ensures
        ({
            let before = old(session)@;
            let after = final(session)@;
            let count = before.pending.len();
            &&& after.pending.len() == count + peers@.len()
            &&& forall|i: int|
                0 <= i < count ==> #[trigger] after.pending[i] == before.pending[i]
            &&& forall|i: int|
                0 <= i < peers@.len() ==> after.pending[count + i] == (#[trigger] peers@[i])@
            &&& after.tested == before.tested && after.next == before.next
            &&& after.active == before.active && after.max == before.max
            &&& after.visited == before.visited
        }),
{
    let before = old(session)@;
    let after = final(session)@;
    let views = peer_views(peers@);
    assert(after.pending == before.pending + views);
    assert forall|i: int| 0 <= i < peers@.len() implies after.pending[before.pending.len() + i] == (
    #[trigger] peers@[i])@ by {
        assert(views[i] == peers@[i]@);
    }
}

/// A session that is asked for its next step names a peer to visit whenever there is room and a
/// peer that is not tested: the one that it found before, else the first that waits. That peer
/// becomes tested, and one more visit is under way. Where there is no room, a visit is to be waited
/// for; and where there is no such peer, news.
pub proof fn law_next_steps_visit_the_first_untested_peer(
    session: &mut CrawlSession,
    r: SessionStep,
)
    requires
        old(session)@.well_formed(),
        call_ensures(CrawlSession::next_step, (session,), r),
    ensures
        ({
            let before = old(session)@;
            let after = final(session)@;
            let waiting = before.next is Some || exists|i: int|
                0 <= i < before.pending.len() && !before.tested.contains(
                    #[trigger] before.pending[i],
                );
            &&& r is Visit <==> waiting && before.active < before.max
            &&& r is AwaitVisit <==> waiting && before.active == before.max
            &&& r is AwaitNews <==> !waiting
            &&& after.max == before.max
            &&& match r {
                SessionStep::Visit(peer) => {
                    &&& after.active == before.active + 1
                    &&& after.visited == before.visited.push(peer@)
                    &&& after.tested == before.tested.insert(peer@)
                    &&& match before.next {
                        Some(found) => peer@ == found,
                        None => exists|i: int|
                            {
                                &&& 0 <= i < before.pending.len()
                                &&& #[trigger] before.pending[i] == peer@
                                &&& !before.tested.contains(peer@)
                                &&& forall|j: int|
                                    0 <= j < i ==> before.tested.contains(
                                        #[trigger] before.pending[j],
                                    )
                                &&& after.pending == before.pending.skip(i + 1)
                            },
                    }
                },
                _ => after.active == before.active && after.visited == before.visited,
            }
        }),
{
    law_visits_start_in_order_and_without_delay(old(session)@);
}

/// A visit that is over makes room for one more, and changes nothing else.
pub proof fn law_visits_that_are_over_make_room(session: &mut CrawlSession)
    requires
        old(session)@.active > 0,
        call_ensures(CrawlSession::on_visit_over, (session,), ()),
    ensures
        final(session)@.active + 1 == old(session)@.active,
        final(session)@.max == old(session)@.max,
        final(session)@.pending == old(session)@.pending,
        final(session)@.next == old(session)@.next,
        final(session)@.tested == old(session)@.tested,
        final(session)@.visited == old(session)@.visited,
{
}

/// A session tells which peers are tested and how many visits are under way, as they are.
pub proof fn law_sessions_tell_where_they_stand(
    session: CrawlSession,
    tested: &PeerSet,
    active: usize,
    over: bool,
)
    requires
        call_ensures(CrawlSession::tested, (&session,), tested),
        call_ensures(CrawlSession::active, (&session,), active),
        call_ensures(CrawlSession::is_over, (&session,), over),
    ensures
        tested@ == session@.tested,
        active == session@.active,
        over <==> session@.active == 0 && session@.pending.len() == 0 && session@.next is None,
{
}

} // verus!
