//! Decisions of the WebRTC connection: its state, its ICE servers and the
//! wait for the connection.

use vstd::prelude::*;
use vstd::string::*;

verus! {

/// WebRTC connection state.
#[derive(Debug, Clone, Copy, PartialEq, Eq, Structural)]
pub enum WebRtcState {
    Disconnected,
    Connecting,
    Connected,
    Reconnecting,
    Failed,
}

/// State of the underlying peer connection, as the WebRTC stack reports it.
#[derive(Debug, Clone, Copy, PartialEq, Eq, Structural)]
pub enum PeerState {
    New,
    Connecting,
    Connected,
    Disconnected,
    Failed,
    Closed,
}

/// The connection state a peer-connection state stands for.
pub open spec fn state_of_peer(p: PeerState) -> WebRtcState {
    match p {
        PeerState::New => WebRtcState::Connecting,
        PeerState::Connecting => WebRtcState::Connecting,
        PeerState::Connected => WebRtcState::Connected,
        PeerState::Disconnected => WebRtcState::Disconnected,
        PeerState::Failed => WebRtcState::Failed,
        PeerState::Closed => WebRtcState::Disconnected,
    }
}

/// The connection counts as connected exactly when the peer connection is,
/// as failed exactly when it failed, as connecting while it is new or
/// connecting, and as disconnected once it is disconnected or closed.
pub proof fn law_connection_follows_peer(p: PeerState)
    ensures
        state_of_peer(p) == WebRtcState::Connected <==> p == PeerState::Connected,
        state_of_peer(p) == WebRtcState::Failed <==> p == PeerState::Failed,
        state_of_peer(p) == WebRtcState::Connecting <==> (p == PeerState::New || p
            == PeerState::Connecting),
        state_of_peer(p) == WebRtcState::Disconnected <==> (p == PeerState::Disconnected || p
            == PeerState::Closed),
{
}

/// What the wait for a connection does on seeing a state.
#[derive(Debug, Clone, Copy, PartialEq, Eq, Structural)]
pub enum WaitStep {
    /// The connection is established.
    Ready,
    /// The connection failed.
    Failed,
    /// Look again later.
    Retry,
}

impl WebRtcState {
    /// The state of a connection that has just been created: disconnected,
    /// until the peer connection reports otherwise.
    pub fn initial() -> (s: WebRtcState)
        ensures
            s == WebRtcState::Disconnected,
    {
        WebRtcState::Disconnected
    }

    /// The connection state a peer-connection state stands for.
    pub fn from_peer_state(p: PeerState) -> (s: WebRtcState)
        ensures
            s == state_of_peer(p),
    {
        match p {
            PeerState::New => WebRtcState::Connecting,
            PeerState::Connecting => WebRtcState::Connecting,
            PeerState::Connected => WebRtcState::Connected,
            PeerState::Disconnected => WebRtcState::Disconnected,
            PeerState::Failed => WebRtcState::Failed,
            PeerState::Closed => WebRtcState::Disconnected,
        }
    }

    /// What waiting for the connection does on seeing this state.
    pub fn wait_step(self) -> (w: WaitStep)
        ensures
            w == (if self == WebRtcState::Connected {
                WaitStep::Ready
            } else if self == WebRtcState::Failed {
                WaitStep::Failed
            } else {
                WaitStep::Retry
            }),
    {
        match self {
            WebRtcState::Connected => WaitStep::Ready,
            WebRtcState::Failed => WaitStep::Failed,
            _ => WaitStep::Retry,
        }
    }
}

/// The ICE server URLs for STUN servers given as `host:port`: each is
/// prefixed with `stun:`, in order.
pub fn stun_urls(servers: &Vec<String>) -> (urls: Vec<String>)
    ensures
        urls@.len() == servers@.len(),
        forall|i: int| 0 <= i < servers@.len() ==> #[trigger] urls@[i]@ == "stun:"@ + servers@[i]@,
{
    let n = servers.len();
    let mut urls: Vec<String> = Vec::new();
    let mut i: usize = 0;
    while i < n
        invariant
            n == servers@.len(),
            i <= n,
            urls@.len() == i,
            forall|j: int| 0 <= j < i ==> #[trigger] urls@[j]@ == "stun:"@ + servers@[j]@,
        decreases n - i,
    {
        let mut url = String::from_str("stun:");
        url.append(servers[i].as_str());
        urls.push(url);
        i = i + 1;
    }
    urls
}

/// What a data-channel message hands on to the session: the payload of a
/// binary message; a text message is passed over.
pub fn inbound_payload(is_string: bool, data: Vec<u8>) -> (r: Option<Vec<u8>>)
    ensures
        r == (if is_string {
            None::<Vec<u8>>
        } else {
            Some(data)
        }),
{
    if is_string {
        None
    } else {
        Some(data)
    }
}

} // verus!
