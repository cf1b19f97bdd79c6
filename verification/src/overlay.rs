//! The peer-overlay transport of last resort: configuration of the overlay
//! runtime, the ephemeral node identity, and the decisions of its run loop.
//! The loop drains runtime events forever; success of the candidate is the
//! runtime having bound its listener, not having reached any peer.  The
//! networking runtime itself lives in the surrounding application.

use vstd::prelude::*;
use vstd::string::StrSliceExecFns;
use crate::config::Endpoint;

verus! {

/// Settings of the overlay runtime.
pub struct P2PConfig {
    /// The address the runtime binds its listener on.
    pub listen_addr: Endpoint,
    /// Bootstrap peers, in the order they are dialed.
    pub bootstrap_nodes: Vec<String>,
}

/// A bootstrap peer reference is shaped like a multiaddr: nonempty and
/// rooted at `/`.
pub open spec fn peer_addr_shaped(s: Seq<char>) -> bool {
    s.len() >= 1 && s[0] == '/'
}

/// An overlay configuration is well formed when every bootstrap peer
/// reference is shaped like a multiaddr.
pub open spec fn p2p_config_valid(c: P2PConfig) -> bool {
    forall|i: int| 0 <= i < c.bootstrap_nodes@.len() ==> peer_addr_shaped(c.bootstrap_nodes@[i]@)
}

/// Checks an overlay configuration before the runtime is constructed.
pub fn validate_p2p_config(c: &P2PConfig) -> (r: bool)
    ensures
        r == p2p_config_valid(*c),
{
    let mut i: usize = 0;
    while i < c.bootstrap_nodes.len()
        invariant
            i <= c.bootstrap_nodes@.len(),
            forall|j: int| 0 <= j < i ==> peer_addr_shaped(c.bootstrap_nodes@[j]@),
        decreases c.bootstrap_nodes@.len() - i,
    {
        let s = &c.bootstrap_nodes[i];
        if s.unicode_len() < 1 {
            return false;
        }
        if s.as_str().get_char(0) != '/' {
            return false;
        }
        i = i + 1;
    }
    true
}

/// The identity of one overlay instantiation: the identifier derived from a
/// freshly generated keypair.  Created per instantiation and never persisted
/// across restarts.
pub struct NodeIdentity {
    /// The derived node identifier, as text.
    pub node_id: String,
}

/// A runtime event of the overlay loop, reduced to what the loop decides on.
pub enum OverlayEvent {
    /// The runtime acquired a listening address.
    NewListenAddr(String),
    /// A liveness probe completed.
    LivenessProbe,
    /// Any other runtime event.
    Other,
}

/// What the run loop does for one event.
pub enum OverlayAction {
    /// Announce the acquired listening address.
    AnnounceListening(String),
    /// Note the probe at low severity.
    NoteProbe,
    /// Ignore the event by design.
    Ignore,
}

/// One step of the overlay run loop: a newly acquired listening address is
/// announced, a liveness probe is noted at low severity, and every other
/// event kind is ignored by design.  The loop itself has no terminal state
/// short of process shutdown or an unrecoverable transport error.
pub fn handle_overlay_event(e: OverlayEvent) -> (r: OverlayAction)
    ensures
        r == (match e {
            OverlayEvent::NewListenAddr(addr) => OverlayAction::AnnounceListening(addr),
            OverlayEvent::LivenessProbe => OverlayAction::NoteProbe,
            OverlayEvent::Other => OverlayAction::Ignore,
        }),
{
    match e {
        OverlayEvent::NewListenAddr(addr) => OverlayAction::AnnounceListening(addr),
        OverlayEvent::LivenessProbe => OverlayAction::NoteProbe,
        OverlayEvent::Other => OverlayAction::Ignore,
    }
}

} // verus!
