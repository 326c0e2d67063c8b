//! What a crawler reports.

use crate::peer::{Peer, PeerView};
use vstd::prelude::*;

verus! {

/// A report of a crawler on a peer.
#[derive(Debug)]
pub enum CrawlerMessage {
    /// The peer listens: a connection to it was made.
    Listening(Peer),
    /// No connection to the peer could be made; it may not listen, or be offline.
    NonListening(Peer),
}

/// What a `CrawlerMessage` stands for.
#[verifier::ext_equal]
pub enum CrawlerMessageView {
    /// The peer listens.
    Listening(PeerView),
    /// No connection to the peer could be made.
    NonListening(PeerView),
}

impl View for CrawlerMessage {
    type V = CrawlerMessageView;

    open spec fn view(&self) -> CrawlerMessageView {
        match self {
            CrawlerMessage::Listening(peer) => CrawlerMessageView::Listening(peer@),
            CrawlerMessage::NonListening(peer) => CrawlerMessageView::NonListening(peer@),
        }
    }
}

impl CrawlerMessageView {
    /// The report as text.
    pub open spec fn shown(self) -> Seq<char> {
        match self {
            CrawlerMessageView::Listening(peer) => "Listening Peer: "@ + peer.shown(),
            CrawlerMessageView::NonListening(peer) => "Non-listening Peer: "@ + peer.shown(),
        }
    }
}

impl CrawlerMessage {
    /// Shows the report.
    pub fn to_string(&self) -> (r: String)
        ensures
            r@ == self@.shown(),
    {
        match self {
            CrawlerMessage::Listening(peer) => {
                let mut text = "Listening Peer: ".to_owned();
                text.append(peer.to_string().as_str());
                text
            },
            CrawlerMessage::NonListening(peer) => {
                let mut text = "Non-listening Peer: ".to_owned();
                text.append(peer.to_string().as_str());
                text
            },
        }
    }
}

impl Clone for CrawlerMessage {
    fn clone(&self) -> (r: CrawlerMessage)
        ensures
            r@ == self@,
    {
        match self {
            CrawlerMessage::Listening(peer) => CrawlerMessage::Listening(peer.clone()),
            CrawlerMessage::NonListening(peer) => CrawlerMessage::NonListening(peer.clone()),
        }
    }
}

/// A report is shown as what it says of its peer, and the peer.
pub proof fn law_reports_show_their_peer(peer: Peer, shown: String, yes: String, no: String)
    requires
        call_ensures(Peer::to_string, (&peer,), shown),
        call_ensures(CrawlerMessage::to_string, (&CrawlerMessage::Listening(peer),), yes),
        call_ensures(CrawlerMessage::to_string, (&CrawlerMessage::NonListening(peer),), no),
    ensures
        yes@ == "Listening Peer: "@ + shown@,
        no@ == "Non-listening Peer: "@ + shown@,
{
}

} // verus!
