use p2p_claude_daemon::media::{AudioProcessor, ImageProcessor, MediaBuffer, MediaError, MediaTrack, MediaType};
use p2p_claude_daemon::protocol::{FileEntry, FileType};
use p2p_claude_daemon::webrtc::{inbound_payload, stun_urls, PeerState, WaitStep, WebRtcState};

#[test]
fn buffer_collects_until_its_limit() {
    let mut b = MediaBuffer::new(MediaType::Audio, 1);
    assert!(b.is_empty());
    b.push(&[1, 2, 3]).unwrap();
    b.push(&vec![9u8; 1048573]).unwrap();
    assert_eq!(b.len(), 1048576);
    assert_eq!(b.push(&[0]), Err(MediaError::BufferOverflow));
    assert_eq!(b.len(), 1048576);
    let bytes = b.finish();
    assert_eq!(&bytes[..3], &[1, 2, 3]);
    assert_eq!(bytes.len(), 1048576);
}

#[test]
fn zero_sized_buffer_refuses_data() {
    let mut b = MediaBuffer::new(MediaType::Image, 0);
    assert_eq!(b.push(&[]), Ok(()));
    assert_eq!(b.push(&[7]), Err(MediaError::BufferOverflow));
    assert!(b.finish().is_empty());
}

#[test]
fn tracks_carry_their_ids() {
    let a = MediaTrack::new_audio();
    assert_eq!(a.media_type(), MediaType::Audio);
    assert_eq!(a.stream_id(), "media-stream");
    assert_eq!(a.track_id(), "audio-track");
    let v = MediaTrack::new_video();
    assert_eq!(v.media_type(), MediaType::Video);
    assert_eq!(v.track_id(), "video-track");
}

#[test]
fn processors_pass_through() {
    assert_eq!(AudioProcessor::process_audio(&[1, 2]).unwrap(), "");
    assert!(AudioProcessor::synthesize_audio("hi").unwrap().is_empty());
    assert_eq!(ImageProcessor::process_image(&[5, 6, 7]).unwrap().to_vec(), vec![5, 6, 7]);
    assert_eq!(ImageProcessor::ocr(&[1]).unwrap(), "");
}

#[test]
fn peer_states_map_to_connection_states() {
    assert_eq!(WebRtcState::from_peer_state(PeerState::New), WebRtcState::Connecting);
    assert_eq!(WebRtcState::from_peer_state(PeerState::Connecting), WebRtcState::Connecting);
    assert_eq!(WebRtcState::from_peer_state(PeerState::Connected), WebRtcState::Connected);
    assert_eq!(WebRtcState::from_peer_state(PeerState::Disconnected), WebRtcState::Disconnected);
    assert_eq!(WebRtcState::from_peer_state(PeerState::Failed), WebRtcState::Failed);
    assert_eq!(WebRtcState::from_peer_state(PeerState::Closed), WebRtcState::Disconnected);
    assert_eq!(WebRtcState::Connected.wait_step(), WaitStep::Ready);
    assert_eq!(WebRtcState::Failed.wait_step(), WaitStep::Failed);
    assert_eq!(WebRtcState::Reconnecting.wait_step(), WaitStep::Retry);
}

#[test]
fn stun_servers_get_scheme() {
    let urls = stun_urls(&vec!["stun.l.google.com:19302".to_string(), "h:1".to_string()]);
    assert_eq!(urls, vec!["stun:stun.l.google.com:19302".to_string(), "stun:h:1".to_string()]);
    assert!(stun_urls(&vec![]).is_empty());
}

#[test]
fn listing_entries_from_metadata() {
    let d = FileEntry::from_metadata("subdir".to_string(), true, false, false, 4096, Some(10));
    assert_eq!(d.ty, FileType::Dir);
    assert_eq!(d.size, None);
    let f = FileEntry::from_metadata("test.txt".to_string(), false, false, true, 5, None);
    assert_eq!(f.ty, FileType::File);
    assert_eq!(f.size, Some(5));
    assert_eq!(f.modified, None);
    let l = FileEntry::from_metadata("link".to_string(), false, true, false, 0, Some(1));
    assert_eq!(l.ty, FileType::Symlink);
}

#[test]
fn only_binary_messages_are_handed_on() {
    assert_eq!(inbound_payload(false, vec![1, 2]), Some(vec![1, 2]));
    assert_eq!(inbound_payload(true, b"{}".to_vec()), None);
}

#[test]
fn new_connection_starts_disconnected() {
    assert_eq!(WebRtcState::initial(), WebRtcState::Disconnected);
    assert_eq!(WebRtcState::initial().wait_step(), WaitStep::Retry);
}

#[test]
fn buffer_holds_accepted_chunks_in_order() {
    let mut b = MediaBuffer::new(MediaType::Video, 1);
    let big = vec![5u8; 1048570];
    assert_eq!(b.push(&[1, 2]), Ok(()));
    assert_eq!(b.push(&big), Ok(()));
    assert_eq!(b.push(&[9; 10]), Err(MediaError::BufferOverflow));
    assert_eq!(b.push(&[3, 4]), Ok(()));
    assert_eq!(b.push(&[6, 7, 8]), Err(MediaError::BufferOverflow));
    assert_eq!(b.push(&[0, 0]), Ok(()));
    assert_eq!(b.len(), 2 + 1048570 + 2 + 2);
    let bytes = b.finish();
    let mut expected = vec![1u8, 2];
    expected.extend_from_slice(&big);
    expected.extend_from_slice(&[3, 4, 0, 0]);
    assert_eq!(&bytes[..], &expected[..]);
}
