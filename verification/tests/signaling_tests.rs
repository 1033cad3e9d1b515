use p2p_claude_daemon::signaling::{
    answer_sdp, frame_step, init_outcome, offer_sdp, pair_outcome, ws_url, FrameStep, SignalingError,
    SignalingMessage, WsFrame,
};
use p2p_claude_daemon::text::{replace_all, str_equal};

#[test]
fn http_urls_become_websocket_urls() {
    assert_eq!(ws_url("http://localhost:8080/ws"), "ws://localhost:8080/ws");
    assert_eq!(ws_url("https://example.com/ws"), "wss://example.com/ws");
    assert_eq!(ws_url("ws://localhost:8080/ws"), "ws://localhost:8080/ws");
    assert_eq!(ws_url("http://a/?next=http://b"), "ws://a/?next=ws://b");
}

#[test]
fn replace_matches_std() {
    for (s, p, r) in [("aaa", "aa", "b"), ("abcabc", "bc", "XY"), ("", "x", "y"), ("héllo wörld", "ö", "o")] {
        assert_eq!(replace_all(s, p, r), s.replace(p, r));
    }
    assert!(str_equal("héllo", "héllo"));
    assert!(!str_equal("héllo", "hello"));
}

#[test]
fn init_reply_gives_client_id() {
    assert!(matches!(SignalingMessage::init_request(), SignalingMessage::Init { ref client_id } if client_id == "auto"));
    assert_eq!(init_outcome(SignalingMessage::Init { client_id: "c-7".to_string() }).unwrap(), "c-7");
    assert!(matches!(
        init_outcome(SignalingMessage::Error { message: "full".to_string() }),
        Err(SignalingError::InitFailed { ref message }) if message == "full"
    ));
    assert!(matches!(init_outcome(SignalingMessage::Acknowledged), Err(SignalingError::UnexpectedInitReply)));
}

#[test]
fn pair_reply_gives_peer_id() {
    assert!(matches!(SignalingMessage::pair_request("123456"), SignalingMessage::Pair { ref pairing_code } if pairing_code == "123456"));
    assert_eq!(pair_outcome(SignalingMessage::Paired { peer_id: "host".to_string() }).unwrap(), "host");
    assert!(matches!(
        pair_outcome(SignalingMessage::Error { message: "bad code".to_string() }),
        Err(SignalingError::PairingFailed { ref message }) if message == "bad code"
    ));
    assert!(matches!(pair_outcome(SignalingMessage::Offer { sdp: String::new() }), Err(SignalingError::UnexpectedPairReply)));
}

#[test]
fn offers_and_answers_are_picked_out() {
    assert_eq!(offer_sdp(SignalingMessage::offer("v=0".to_string())), Some("v=0".to_string()));
    assert_eq!(offer_sdp(SignalingMessage::Answer { sdp: "v=0".to_string() }), None);
    assert_eq!(answer_sdp(SignalingMessage::answer("v=1".to_string())), Some("v=1".to_string()));
    assert_eq!(answer_sdp(SignalingMessage::Acknowledged), None);
}

#[test]
fn frames_are_dispatched() {
    assert!(matches!(frame_step(WsFrame::Text("{}".to_string())), FrameStep::Parse(ref t) if t == "{}"));
    assert!(matches!(frame_step(WsFrame::Ping(vec![1, 2])), FrameStep::Pong(ref p) if p == &vec![1, 2]));
    assert!(matches!(frame_step(WsFrame::Close), FrameStep::Closed));
    assert!(matches!(frame_step(WsFrame::Binary(vec![0])), FrameStep::Skip));
    assert!(matches!(frame_step(WsFrame::Pong(vec![])), FrameStep::Skip));
}
