//! The visit to one peer.
//!
//! A connection to the peer is made, the outcome reported, and the peer asked for the peers that it
//! knows. Those that were not visited yet are passed on.

use super::connection::peer_views;
use super::message::{CrawlerMessage, CrawlerMessageView};
use super::peer_set::PeerSet;
use crate::peer::{Peer, PeerView};
use vstd::prelude::*;

verus! {

/// What has come of a visit.
#[derive(Debug, Clone, Copy, PartialEq, Eq, Structural)]
pub enum TaskResult {
    /// A connection was made, and peers were found that had not been visited.
    FoundPeers,
    /// A connection was made, and no such peers were found.
    NoPeersFound,
    /// No connection was made.
    ConnectionFailed,
    /// Nobody listens to the reports any longer.
    ChannelClosed,
}

/// How far a visit has come.
#[derive(Debug)]
pub enum TaskStage {
    /// A connection to the peer is being made.
    Connecting(Peer),
    /// It is being reported that no connection was made.
    ReportingFailure,
    /// It is being reported that a connection was made.
    ReportingListening,
    /// The peer is being asked for peers.
    Asking,
    /// The peers that were found are being passed on.
    Announcing,
    /// The visit is over.
    Over,
}

/// What a `TaskStage` stands for.
#[verifier::ext_equal]
pub enum TaskStageView {
    /// A connection to the peer is being made.
    Connecting(PeerView),
    /// It is being reported that no connection was made.
    ReportingFailure,
    /// It is being reported that a connection was made.
    ReportingListening,
    /// The peer is being asked for peers.
    Asking,
    /// The peers that were found are being passed on.
    Announcing,
    /// The visit is over.
    Over,
}

impl View for TaskStage {
    type V = TaskStageView;

    open spec fn view(&self) -> TaskStageView {
        match self {
            TaskStage::Connecting(peer) => TaskStageView::Connecting(peer@),
            TaskStage::ReportingFailure => TaskStageView::ReportingFailure,
            TaskStage::ReportingListening => TaskStageView::ReportingListening,
            TaskStage::Asking => TaskStageView::Asking,
            TaskStage::Announcing => TaskStageView::Announcing,
            TaskStage::Over => TaskStageView::Over,
        }
    }
}

/// Something that happens on a visit.
#[derive(Debug)]
pub enum TaskEvent {
    /// No connection was made, or not in time.
    ConnectFailed,
    /// A connection was made; this is the peer as it has introduced itself.
    Connected(Peer),
    /// What was to be sent has been.
    Sent,
    /// What was to be sent could not be, because nobody listens.
    Closed,
    /// The peer told of these peers.
    PeersReceived(Vec<Peer>),
    /// Asking the peer failed.
    PeersFailed,
}

/// What a `TaskEvent` stands for.
#[verifier::ext_equal]
pub enum TaskEventView {
    /// No connection was made.
    ConnectFailed,
    /// A connection was made.
    Connected(PeerView),
    /// What was to be sent has been.
    Sent,
    /// What was to be sent could not be.
    Closed,
    /// The peer told of these peers.
    PeersReceived(Seq<PeerView>),
    /// Asking the peer failed.
    PeersFailed,
}

impl View for TaskEvent {
    type V = TaskEventView;

    open spec fn view(&self) -> TaskEventView {
        match self {
            TaskEvent::ConnectFailed => TaskEventView::ConnectFailed,
            TaskEvent::Connected(peer) => TaskEventView::Connected(peer@),
            TaskEvent::Sent => TaskEventView::Sent,
            TaskEvent::Closed => TaskEventView::Closed,
            TaskEvent::PeersReceived(peers) => TaskEventView::PeersReceived(peer_views(peers@)),
            TaskEvent::PeersFailed => TaskEventView::PeersFailed,
        }
    }
}

/// What is to be done next on a visit.
#[derive(Debug)]
pub enum TaskAction {
    /// Send this report.
    Report(CrawlerMessage),
    /// Ask the peer for the peers that it knows.
    Ask,
    /// Pass these peers on.
    Announce(Vec<Peer>),
    /// End the visit with this result.
    Finish(TaskResult),
}

/// What a `TaskAction` stands for.
#[verifier::ext_equal]
pub enum TaskActionView {
    /// Send this report.
    Report(CrawlerMessageView),
    /// Ask the peer for the peers that it knows.
    Ask,
    /// Pass these peers on.
    Announce(Seq<PeerView>),
    /// End the visit with this result.
    Finish(TaskResult),
}

impl View for TaskAction {
    type V = TaskActionView;

    open spec fn view(&self) -> TaskActionView {
        match self {
            TaskAction::Report(message) => TaskActionView::Report(message@),
            TaskAction::Ask => TaskActionView::Ask,
            TaskAction::Announce(peers) => TaskActionView::Announce(peer_views(peers@)),
            TaskAction::Finish(result) => TaskActionView::Finish(*result),
        }
    }
}

/// The peers that were not visited, in order.
pub open spec fn untested(peers: Seq<PeerView>, tested: Set<PeerView>) -> Seq<PeerView>
    decreases peers.len(),
{
    if peers.len() == 0 {
        Seq::empty()
    } else if tested.contains(peers.last()) {
        untested(peers.drop_last(), tested)
    } else {
        untested(peers.drop_last(), tested).push(peers.last())
    }
}

/// Whether an event can happen at a stage.
pub open spec fn expects(stage: TaskStageView, event: TaskEventView) -> bool {
    match stage {
        TaskStageView::Connecting(_) => event is ConnectFailed || event is Connected,
        TaskStageView::ReportingFailure => event is Sent || event is Closed,
        TaskStageView::ReportingListening => event is Sent || event is Closed,
        TaskStageView::Asking => event is PeersReceived || event is PeersFailed,
        TaskStageView::Announcing => event is Sent || event is Closed,
        TaskStageView::Over => false,
    }
}

/// How a visit goes on after an event.
pub open spec fn task_step(
    stage: TaskStageView,
    event: TaskEventView,
    tested: Set<PeerView>,
) -> (TaskStageView, TaskActionView) {
    match (stage, event) {
        (TaskStageView::Connecting(peer), TaskEventView::ConnectFailed) => (
            TaskStageView::ReportingFailure,
            TaskActionView::Report(CrawlerMessageView::NonListening(peer)),
        ),
        (TaskStageView::Connecting(_), TaskEventView::Connected(peer)) => (
            TaskStageView::ReportingListening,
            TaskActionView::Report(CrawlerMessageView::Listening(peer)),
        ),
        (TaskStageView::ReportingFailure, TaskEventView::Sent) => (
            TaskStageView::Over,
            TaskActionView::Finish(TaskResult::ConnectionFailed),
        ),
        (TaskStageView::ReportingListening, TaskEventView::Sent) => (
            TaskStageView::Asking,
            TaskActionView::Ask,
        ),
        (TaskStageView::Asking, TaskEventView::PeersReceived(peers)) => if untested(
            peers,
            tested,
        ).len() > 0 {
            (TaskStageView::Announcing, TaskActionView::Announce(untested(peers, tested)))
        } else {
            (TaskStageView::Over, TaskActionView::Finish(TaskResult::NoPeersFound))
        },
        (TaskStageView::Asking, _) => (
            TaskStageView::Over,
            TaskActionView::Finish(TaskResult::NoPeersFound),
        ),
        (TaskStageView::Announcing, TaskEventView::Sent) => (
            TaskStageView::Over,
            TaskActionView::Finish(TaskResult::FoundPeers),
        ),
        _ => (TaskStageView::Over, TaskActionView::Finish(TaskResult::ChannelClosed)),
    }
}

/// The peers that were not visited, in order.
pub fn filter_untested(peers: Vec<Peer>, tested: &PeerSet) -> (r: Vec<Peer>)
    ensures
        peer_views(r@) == untested(peer_views(peers@), tested@),
{
    let ghost views = peer_views(peers@);
    let mut filtered: Vec<Peer> = Vec::new();
    let mut i: usize = 0;
    assert(peer_views(filtered@) =~= untested(views.take(0), tested@));
    while i < peers.len()
        invariant
            i <= peers@.len(),
            views == peer_views(peers@),
            peer_views(filtered@) == untested(views.take(i as int), tested@),
        decreases peers@.len() - i,
    {
        let ghost before = filtered@;
        assert(views.take(i + 1).drop_last() =~= views.take(i as int));
        assert(views.take(i + 1).last() == peers@[i as int]@);
        if !tested.contains(&peers[i]) {
            filtered.push(peers[i].clone());
            assert(peer_views(filtered@) =~= peer_views(before).push(peers@[i as int]@));
        }
        i = i + 1;
    }
    assert(views.take(views.len() as int) =~= views);
    filtered
}

/// Begins a visit to a peer, to which a connection is then to be made.
pub fn begin(peer: Peer) -> (r: TaskStage)
    ensures
        r@ == TaskStageView::Connecting(peer@),
{
    TaskStage::Connecting(peer)
}

/// Goes on with a visit after an event.
pub fn process(stage: TaskStage, event: TaskEvent, tested: &PeerSet) -> (r: (
    TaskStage,
    TaskAction,
))
    requires
        expects(stage@, event@),
    ensures
        (r.0@, r.1@) == task_step(stage@, event@, tested@),
{
    match (stage, event) {
        (TaskStage::Connecting(peer), TaskEvent::ConnectFailed) => (
            TaskStage::ReportingFailure,
            TaskAction::Report(CrawlerMessage::NonListening(peer)),
        ),
        (TaskStage::Connecting(_), TaskEvent::Connected(peer)) => (
            TaskStage::ReportingListening,
            TaskAction::Report(CrawlerMessage::Listening(peer)),
        ),
        (TaskStage::ReportingFailure, TaskEvent::Sent) => (
            TaskStage::Over,
            TaskAction::Finish(TaskResult::ConnectionFailed),
        ),
        (TaskStage::ReportingListening, TaskEvent::Sent) => (TaskStage::Asking, TaskAction::Ask),
        (TaskStage::Asking, TaskEvent::PeersReceived(peers)) => {
            let filtered = filter_untested(peers, tested);
            if filtered.len() > 0 {
                (TaskStage::Announcing, TaskAction::Announce(filtered))
            } else {
                (TaskStage::Over, TaskAction::Finish(TaskResult::NoPeersFound))
            }
        },
        (TaskStage::Asking, _) => (
            TaskStage::Over,
            TaskAction::Finish(TaskResult::NoPeersFound),
        ),
        (TaskStage::Announcing, TaskEvent::Sent) => (
            TaskStage::Over,
            TaskAction::Finish(TaskResult::FoundPeers),
        ),
        _ => (TaskStage::Over, TaskAction::Finish(TaskResult::ChannelClosed)),
    }
}

/// What is passed on was not visited, and whatever the peer told of that was not visited is passed
/// on.
pub proof fn law_untested_peers_are_kept(
    peers: Seq<PeerView>,
    tested: Set<PeerView>,
    peer: PeerView,
)
    ensures
        untested(peers, tested).contains(peer) <==> peers.contains(peer) && !tested.contains(peer),
    decreases peers.len(),
{
    if peers.len() > 0 {
        let rest = peers.drop_last();
        let last = peers.last();
        let before = untested(rest, tested);
        law_untested_peers_are_kept(rest, tested, peer);
        assert(peers =~= rest.push(last));
        lemma_push_contains(rest, last, peer);
        lemma_push_contains(before, last, peer);
    }
}

/// What a sequence contains once something was added to it.
proof fn lemma_push_contains(peers: Seq<PeerView>, added: PeerView, peer: PeerView)
    ensures
        peers.push(added).contains(peer) <==> peers.contains(peer) || peer == added,
{
    let more = peers.push(added);
    assert(more[peers.len() as int] == added);
    assert(forall|i: int| 0 <= i < peers.len() ==> more[i] == #[trigger] peers[i]);
    if peers.contains(peer) {
        let i = choose|i: int| 0 <= i < peers.len() && peers[i] == peer;
        assert(more[i] == peer);
    }
    if more.contains(peer) {
        let i = choose|i: int| 0 <= i < more.len() && more[i] == peer;
        if i < peers.len() {
            assert(peers[i] == peer);
        }
    }
}

/// What is kept of some peers is what a filter keeps of them.
proof fn lemma_untested_is_filter(
    peers: Seq<PeerView>,
    tested: Set<PeerView>,
    keep: spec_fn(PeerView) -> bool,
)
    requires
        forall|peer: PeerView| #[trigger] keep(peer) <==> !tested.contains(peer),
    ensures
        untested(peers, tested) == peers.filter(keep),
    decreases peers.len(),
{
    reveal(Seq::filter);
    if peers.len() > 0 {
        lemma_untested_is_filter(peers.drop_last(), tested, keep);
    }
}

/// Of the peers that a visited peer tells of, those that were not tested are passed on: all of them
/// and no others, in the order and as often as they were told of. Where there are none, the visit
/// is over without result.
pub proof fn law_all_untested_peers_are_passed_on(
    peers: Vec<Peer>,
    tested: PeerSet,
    r: (TaskStage, TaskAction),
)
    requires
        call_ensures(process, (TaskStage::Asking, TaskEvent::PeersReceived(peers), &tested), r),
    ensures
        match r.1 {
            TaskAction::Announce(found) => {
                let told = peers@.map_values(|peer: Peer| peer@);
                let passed_on = found@.map_values(|peer: Peer| peer@);
                &&& r.0 is Announcing
                &&& passed_on.len() > 0
                &&& passed_on == told.filter(|peer: PeerView| !tested@.contains(peer))
                &&& forall|peer: PeerView| #[trigger]
                    passed_on.contains(peer) <==> told.contains(peer) && !tested@.contains(peer)
            },
            _ => {
                &&& r.0 is Over
                &&& r.1 == TaskAction::Finish(TaskResult::NoPeersFound)
                &&& forall|i: int| 0 <= i < peers@.len() ==> tested@.contains(#[trigger] peers@[i]@)
            },
        },
{
    let told = peers@.map_values(|peer: Peer| peer@);
    let keep = |peer: PeerView| !tested@.contains(peer);
    assert(told =~= peer_views(peers@));
    assert forall|peer: PeerView| #[trigger]
        untested(told, tested@).contains(peer) <==> told.contains(peer) && !tested@.contains(
            peer,
        ) by {
        law_untested_peers_are_kept(told, tested@, peer);
    }
    lemma_untested_is_filter(told, tested@, keep);
    if let TaskAction::Announce(found) = r.1 {
        assert(found@.map_values(|peer: Peer| peer@) =~= peer_views(found@));
    } else {
        assert forall|i: int| 0 <= i < peers@.len() implies tested@.contains(
            #[trigger] peers@[i]@,
        ) by {
            assert(told[i] == peers@[i]@);
            law_untested_peers_are_kept(told, tested@, told[i]);
        }
    }
}

/// A visit starts with a report: the first thing to be done once the outcome of connecting is known
/// is to report that the peer listens, as it has introduced itself, or that it does not.
pub proof fn law_visit_starts_with_report(
    peer: PeerView,
    event: TaskEventView,
    tested: Set<PeerView>,
)
    requires
        expects(TaskStageView::Connecting(peer), event),
    ensures
        task_step(TaskStageView::Connecting(peer), event, tested).1 == TaskActionView::Report(
            match event {
                TaskEventView::Connected(met) => CrawlerMessageView::Listening(met),
                _ => CrawlerMessageView::NonListening(peer),
            },
        ),
{
}

/// A visit ends at once where nobody listens.
pub proof fn law_visit_ends_where_nobody_listens(stage: TaskStageView, tested: Set<PeerView>)
    requires
        expects(stage, TaskEventView::Closed),
    ensures
        task_step(stage, TaskEventView::Closed, tested) == (
            TaskStageView::Over,
            TaskActionView::Finish(TaskResult::ChannelClosed),
        ),
{
}

/// What a filter keeps of some peers is what was not tested, all of it, in the same order.
pub proof fn law_filtered_peers_are_those_not_tested(
    peers: Vec<Peer>,
    tested: PeerSet,
    r: Vec<Peer>,
)
    requires
        call_ensures(filter_untested, (peers, &tested), r),
    ensures
        r@.map_values(|peer: Peer| peer@) == peers@.map_values(|peer: Peer| peer@).filter(
            |peer: PeerView| !tested@.contains(peer),
        ),
{
    let told = peers@.map_values(|peer: Peer| peer@);
    assert(told =~= peer_views(peers@));
    assert(r@.map_values(|peer: Peer| peer@) =~= peer_views(r@));
    lemma_untested_is_filter(told, tested@, |peer: PeerView| !tested@.contains(peer));
}

/// How a visit goes on after each event. What connecting has come to is reported: the peer that was
/// met listens, or the peer that was to be visited does not. Only a peer that was met and reported
/// is asked for peers. Where something was to be sent and nobody listens, where no connection was
/// made, and where asking failed, the visit is over with a result that says so; and it found peers
/// exactly when some were passed on.
pub proof fn law_visits_go_on_by_what_happens(
    stage: TaskStage,
    event: TaskEvent,
    tested: PeerSet,
    r: (TaskStage, TaskAction),
)
    requires
        expects(stage@, event@),
        call_ensures(process, (stage, event, &tested), r),
    ensures
        r.1 is Finish <==> r.0 is Over,
        r.1 is Ask <==> r.0 is Asking,
        r.1 is Ask <==> stage is ReportingListening && event is Sent,
        r.1 is Announce <==> r.0 is Announcing,
        r.1 is Announce ==> event is PeersReceived,
        r.1 is Report <==> event is Connected || event is ConnectFailed,
        event matches TaskEvent::Connected(met) ==> {
            &&& r.0 is ReportingListening
            &&& r.1 matches TaskAction::Report(CrawlerMessage::Listening(peer)) && peer@ == met@
        },
        event is ConnectFailed ==> {
            &&& r.0 is ReportingFailure
            &&& r.1 matches TaskAction::Report(CrawlerMessage::NonListening(peer))
                && stage matches TaskStage::Connecting(sought) && peer@ == sought@
        },
        r.1 matches TaskAction::Finish(result) ==> {
            &&& result is ChannelClosed <==> event is Closed
            &&& result is ConnectionFailed <==> stage is ReportingFailure && event is Sent
            &&& result is FoundPeers <==> stage is Announcing && event is Sent
            &&& result is NoPeersFound <==> stage is Asking
        },
        event is PeersFailed ==> r.1 is Finish,
        event is Closed ==> r.1 is Finish,
{
}

/// What can happen next on a visit is what its last action may come to: what is to be sent is sent
/// or not, the peer that is asked answers or does not, and nothing happens once the visit is over.
/// A visit begins with connecting to its peer, which works or fails.
pub proof fn law_visits_expect_what_their_actions_come_to(
    stage: TaskStage,
    event: TaskEvent,
    tested: PeerSet,
    r: (TaskStage, TaskAction),
    peer: Peer,
    start: TaskStage,
    next: TaskEvent,
)
    requires
        expects(stage@, event@),
        call_ensures(process, (stage, event, &tested), r),
        call_ensures(begin, (peer,), start),
    ensures
        expects(r.0@, next@) <==> (match r.1 {
            TaskAction::Report(_) => next is Sent || next is Closed,
            TaskAction::Announce(_) => next is Sent || next is Closed,
            TaskAction::Ask => next is PeersReceived || next is PeersFailed,
            TaskAction::Finish(_) => false,
        }),
        start matches TaskStage::Connecting(sought) && sought@ == peer@,
        expects(start@, next@) <==> next is Connected || next is ConnectFailed,
{
}

} // verus!
