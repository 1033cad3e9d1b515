//! Decisions of the signaling client that exchanges WebRTC session
//! descriptions with a peer through a WebSocket server.

use vstd::prelude::*;
use vstd::string::*;
use crate::text::{occurs_in, replace_all, replaced};

verus! {

/// Signaling message for WebRTC SDP exchange.
#[derive(Debug, Clone)]
pub enum SignalingMessage {
    /// Initial connection message
    Init { client_id: String },
    /// Pair with host using code
    Pair { pairing_code: String },
    /// WebRTC offer with SDP
    Offer { sdp: String },
    /// WebRTC answer with SDP
    Answer { sdp: String },
    /// Pairing successful
    Paired { peer_id: String },
    /// Error message
    Error { message: String },
    /// Acknowledgment
    Acknowledged,
}

/// Why a signaling exchange failed.
#[derive(Debug, Clone)]
pub enum SignalingError {
    /// The server answered the initial message with an error.
    InitFailed { message: String },
    /// The server answered the initial message with something else.
    UnexpectedInitReply,
    /// The server answered the pairing request with an error.
    PairingFailed { message: String },
    /// The server answered the pairing request with something else.
    UnexpectedPairReply,
}

/// A frame received on the WebSocket, by kind.
#[derive(Debug, Clone)]
pub enum WsFrame {
    /// A text frame
    Text(String),
    /// A binary frame
    Binary(Vec<u8>),
    /// A ping, with its payload
    Ping(Vec<u8>),
    /// A pong
    Pong(Vec<u8>),
    /// A close frame
    Close,
    /// A raw frame
    Frame,
}

/// What to do with a received frame.
#[derive(Debug, Clone)]
pub enum FrameStep {
    /// Parse this text as a signaling message.
    Parse(String),
    /// Answer with a pong carrying this payload, then read on.
    Pong(Vec<u8>),
    /// The server closed the connection.
    Closed,
    /// Ignore the frame and read on.
    Skip,
}

/// The URL a signaling URL is connected to: `http://` becomes `ws://`,
/// then `https://` becomes `wss://`.
pub open spec fn websocket_url(url: Seq<char>) -> Seq<char> {
    replaced(replaced(url, "http://"@, "ws://"@), "https://"@, "wss://"@)
}

/// Rewrites an HTTP(S) signaling URL into the WebSocket URL to connect to.
pub fn ws_url(url: &str) -> (r: String)
    ensures
        r@ == websocket_url(url@),
{
    proof {
        reveal_strlit("http://");
        reveal_strlit("https://");
    }
    let first = replace_all(url, "http://", "ws://");
    replace_all(first.as_str(), "https://", "wss://")
}

/// A string holding no occurrence of a pattern is left as it is.
proof fn lemma_replaced_without_occurrence(s: Seq<char>, pat: Seq<char>, rep: Seq<char>)
    requires
        pat.len() > 0,
        !occurs_in(pat, s),
    ensures
        replaced(s, pat, rep) == s,
    decreases s.len(),
{
    if s.len() > 0 {
        if pat.len() <= s.len() && s.subrange(0, pat.len() as int) == pat {
            assert(s.subrange(0int, 0int + pat.len()) == pat);
        }
        assert forall|i: int|
            0 <= i && i + pat.len() <= s.skip(1).len() implies #[trigger] s.skip(1).subrange(
            i,
            i + pat.len(),
        ) != pat by {
            assert(s.skip(1).subrange(i, i + pat.len()) =~= s.subrange(i + 1, i + 1 + pat.len()));
        }
        lemma_replaced_without_occurrence(s.skip(1), pat, rep);
        assert(seq![s[0]] + s.skip(1) =~= s);
    }
}

/// A URL that names neither `http://` nor `https://` is connected to as it is.
pub proof fn law_websocket_url_keeps_other_urls(url: Seq<char>)
    requires
        !occurs_in("http://"@, url),
        !occurs_in("https://"@, url),
    ensures
        websocket_url(url) == url,
{
    reveal_strlit("http://");
    reveal_strlit("https://");
    lemma_replaced_without_occurrence(url, "http://"@, "ws://"@);
    lemma_replaced_without_occurrence(url, "https://"@, "wss://"@);
}

/// A pattern that does not occur in `rest`, and cannot start within
/// `prefix`, does not occur in `prefix + rest`.
proof fn lemma_no_occurrence_after(prefix: Seq<char>, rest: Seq<char>, pat: Seq<char>)
    requires
        pat.len() > 0,
        !occurs_in(pat, rest),
        forall|i: int|
            0 <= i < prefix.len() && i + pat.len() <= prefix.len() + rest.len() ==> #[trigger] (prefix
                + rest).subrange(i, i + pat.len()) != pat,
    ensures
        !occurs_in(pat, prefix + rest),
{
    let s = prefix + rest;
    assert forall|i: int| 0 <= i && i + pat.len() <= s.len() implies #[trigger] s.subrange(
        i,
        i + pat.len(),
    ) != pat by {
        if i >= prefix.len() {
            assert(s.subrange(i, i + pat.len()) =~= rest.subrange(
                i - prefix.len(),
                i - prefix.len() + pat.len(),
            ));
        }
    }
}

/// The scheme of an HTTP(S) signaling URL is rewritten to its WebSocket
/// counterpart and the rest of the URL kept: `http://` gives `ws://` and
/// `https://` gives `wss://`.
pub proof fn law_websocket_url_rewrites_scheme(rest: Seq<char>)
    requires
        !occurs_in("http://"@, rest),
        !occurs_in("https://"@, rest),
    ensures
        websocket_url("http://"@ + rest) == "ws://"@ + rest,
        websocket_url("https://"@ + rest) == "wss://"@ + rest,
{
    reveal_strlit("http://");
    reveal_strlit("https://");
    reveal_strlit("ws://");
    reveal_strlit("wss://");
    let http = "http://"@;
    let https = "https://"@;
    let ws = "ws://"@;
    let wss = "wss://"@;
    // http://rest
    let a = http + rest;
    assert(a.subrange(0, 7) =~= http);
    assert(a.skip(7) =~= rest);
    lemma_replaced_without_occurrence(rest, http, ws);
    assert(replaced(a, http, ws) == ws + rest);
    assert forall|i: int| 0 <= i < ws.len() && i + https.len() <= ws.len() + rest.len() implies #[trigger] (ws
        + rest).subrange(i, i + https.len()) != https by {
        assert((ws + rest).subrange(i, i + https.len())[0] == ws[i]);
    }
    lemma_no_occurrence_after(ws, rest, https);
    lemma_replaced_without_occurrence(ws + rest, https, wss);
    // https://rest
    let b = https + rest;
    assert forall|i: int| 0 <= i < https.len() && i + http.len() <= https.len() + rest.len() implies #[trigger] (
    https + rest).subrange(i, i + http.len()) != http by {
        if i == 0 {
            assert((https + rest).subrange(i, i + http.len())[4] == 's');
        } else {
            assert((https + rest).subrange(i, i + http.len())[0] == https[i]);
        }
    }
    lemma_no_occurrence_after(https, rest, http);
    lemma_replaced_without_occurrence(b, http, ws);
    assert(b.subrange(0, 8) =~= https);
    assert(b.skip(8) =~= rest);
    lemma_replaced_without_occurrence(rest, https, wss);
    assert(replaced(b, https, wss) == wss + rest);
}

impl SignalingMessage {
    /// The initial message; the server assigns the actual ID.
    pub fn init_request() -> (m: SignalingMessage)
        ensures
            m matches SignalingMessage::Init { client_id } && client_id@ == "auto"@,
    {
        SignalingMessage::Init { client_id: String::from_str("auto") }
    }

    /// The request to pair with the host holding `code`.
    pub fn pair_request(code: &str) -> (m: SignalingMessage)
        ensures
            m matches SignalingMessage::Pair { pairing_code } && pairing_code@ == code@,
    {
        SignalingMessage::Pair { pairing_code: String::from_str(code) }
    }

    /// An offer carrying `sdp`.
    pub fn offer(sdp: String) -> (m: SignalingMessage)
        ensures
            m == (SignalingMessage::Offer { sdp }),
    {
        SignalingMessage::Offer { sdp }
    }

    /// An answer carrying `sdp`.
    pub fn answer(sdp: String) -> (m: SignalingMessage)
        ensures
            m == (SignalingMessage::Answer { sdp }),
    {
        SignalingMessage::Answer { sdp }
    }
}

/// The client ID assigned in answer to the initial message.
pub fn init_outcome(reply: SignalingMessage) -> (r: Result<String, SignalingError>)
    ensures
        match reply {
            SignalingMessage::Init { client_id } => r == Ok::<String, SignalingError>(client_id),
            SignalingMessage::Error { message } => r == Err::<String, SignalingError>(
                SignalingError::InitFailed { message },
            ),
            _ => r matches Err(SignalingError::UnexpectedInitReply),
        },
{
    match reply {
        SignalingMessage::Init { client_id } => Ok(client_id),
        SignalingMessage::Error { message } => Err(SignalingError::InitFailed { message }),
        _ => Err(SignalingError::UnexpectedInitReply),
    }
}

/// The peer ID assigned in answer to a pairing request.
pub fn pair_outcome(reply: SignalingMessage) -> (r: Result<String, SignalingError>)
    ensures
        match reply {
            SignalingMessage::Paired { peer_id } => r == Ok::<String, SignalingError>(peer_id),
            SignalingMessage::Error { message } => r == Err::<String, SignalingError>(
                SignalingError::PairingFailed { message },
            ),
            _ => r matches Err(SignalingError::UnexpectedPairReply),
        },
{
    match reply {
        SignalingMessage::Paired { peer_id } => Ok(peer_id),
        SignalingMessage::Error { message } => Err(SignalingError::PairingFailed { message }),
        _ => Err(SignalingError::UnexpectedPairReply),
    }
}

/// The SDP of an offer; every other message is passed over while waiting
/// for an offer.
pub fn offer_sdp(msg: SignalingMessage) -> (r: Option<String>)
    ensures
        match msg {
            SignalingMessage::Offer { sdp } => r == Some(sdp),
            _ => r is None,
        },
{
    match msg {
        SignalingMessage::Offer { sdp } => Some(sdp),
        _ => None,
    }
}

/// The SDP of an answer; every other message is passed over while waiting
/// for an answer.
pub fn answer_sdp(msg: SignalingMessage) -> (r: Option<String>)
    ensures
        match msg {
            SignalingMessage::Answer { sdp } => r == Some(sdp),
            _ => r is None,
        },
{
    match msg {
        SignalingMessage::Answer { sdp } => Some(sdp),
        _ => None,
    }
}

/// What to do with a received WebSocket frame: text is parsed, a ping is
/// answered with a pong carrying its payload, a close ends the exchange and
/// anything else is skipped.
pub fn frame_step(frame: WsFrame) -> (s: FrameStep)
    ensures
        match frame {
            WsFrame::Text(t) => s == FrameStep::Parse(t),
            WsFrame::Ping(p) => s == FrameStep::Pong(p),
            WsFrame::Close => s is Closed,
            _ => s is Skip,
        },
{
    match frame {
        WsFrame::Text(t) => FrameStep::Parse(t),
        WsFrame::Ping(p) => FrameStep::Pong(p),
        WsFrame::Close => FrameStep::Closed,
        _ => FrameStep::Skip,
    }
}

} // verus!
