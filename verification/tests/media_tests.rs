use velocity::media::{mix_frames, MediaAction, MediaSession, MediaState, PlaybackQueue, SampleChunker};
use velocity::voice::{VoiceConnectionInfo, VoiceMessage};

fn descriptor(channel: &str) -> VoiceConnectionInfo {
    VoiceConnectionInfo {
        guild_id: Some(String::from("9")),
        channel_id: String::from(channel),
        endpoint: String::from("ep.example"),
        token: String::from("tk"),
        session_id: String::from("sess"),
        user_id: String::from("42"),
    }
}

fn connect(channel: &str) -> VoiceMessage {
    VoiceMessage::Connect {
        info: descriptor(channel),
        input_device: None,
        output_device: None,
    }
}

#[test]
fn leave_with_no_transport_is_a_no_op() {
    let mut m = MediaSession::new();
    assert_eq!(m.state, MediaState::Idle);
    let first = m.on_message(VoiceMessage::Leave);
    assert!(first.is_empty());
    assert_eq!(m.state, MediaState::Idle);
    let second = m.on_message(VoiceMessage::Leave);
    assert!(second.is_empty());
    assert_eq!(m.state, MediaState::Idle);
}

#[test]
fn connect_then_leave_tears_down() {
    let mut m = MediaSession::new();
    let acts = m.on_message(connect("77"));
    assert_eq!(acts.len(), 1);
    assert!(matches!(acts[0], MediaAction::Establish { .. }));
    assert_eq!(m.state, MediaState::Connecting);
    m.on_establish_result(true);
    assert_eq!(m.state, MediaState::Connected);
    let leave = m.on_message(VoiceMessage::Leave);
    assert_eq!(leave.len(), 1);
    assert!(matches!(leave[0], MediaAction::Teardown));
    assert_eq!(m.state, MediaState::Idle);
}

#[test]
fn new_connect_replaces_active_transport() {
    let mut m = MediaSession::new();
    m.on_message(connect("77"));
    m.on_establish_result(true);
    let acts = m.on_message(connect("88"));
    assert_eq!(acts.len(), 2);
    assert!(matches!(acts[0], MediaAction::Teardown));
    match &acts[1] {
        MediaAction::Establish { info, .. } => assert_eq!(info.channel_id, "88"),
        other => panic!("expected establish, got {:?}", other),
    }
}

#[test]
fn failed_establishment_returns_to_idle() {
    let mut m = MediaSession::new();
    m.on_message(connect("77"));
    m.on_establish_result(false);
    assert_eq!(m.state, MediaState::Idle);
}

#[test]
fn connect_with_unusable_ids_is_abandoned() {
    let mut m = MediaSession::new();
    let acts = m.on_message(connect("not-a-number"));
    assert!(acts.is_empty());
    assert_eq!(m.state, MediaState::Idle);
}

#[test]
fn mix_sums_and_extends_with_silence() {
    let frames = vec![vec![1000i16, -2000], vec![500]];
    assert_eq!(mix_frames(&frames), vec![1500i16, -2000]);
}

#[test]
fn mix_clamps_loud_speakers() {
    let frames = vec![vec![30000i16, -30000], vec![30000, -30000]];
    assert_eq!(mix_frames(&frames), vec![32767i16, -32768]);
}

#[test]
fn mix_of_nothing_is_empty() {
    let frames: Vec<Vec<i16>> = Vec::new();
    assert!(mix_frames(&frames).is_empty());
}

#[test]
fn playback_queue_pops_in_order_then_silence() {
    let mut q = PlaybackQueue::new();
    q.push_samples(&vec![3i16, 1, 4]);
    assert_eq!(q.len(), 3);
    assert_eq!(q.pop_or_silence(), 3);
    assert_eq!(q.pop_or_silence(), 1);
    assert_eq!(q.pop_or_silence(), 4);
    assert_eq!(q.pop_or_silence(), 0);
    assert_eq!(q.len(), 0);
}

#[test]
fn playback_queue_trims_oldest_beyond_cap() {
    let mut q = PlaybackQueue::new();
    let cap = 48000 * 2 * 2;
    q.push_samples(&vec![7i16; cap]);
    q.push_samples(&vec![9i16; 3]);
    q.trim_excess();
    assert_eq!(q.len(), cap);
    assert_eq!(q.pop_or_silence(), 7);
    let mut last = 0i16;
    for _ in 0..cap - 1 {
        last = q.pop_or_silence();
    }
    assert_eq!(last, 9);
}

#[test]
fn trim_leaves_short_queue_alone() {
    let mut q = PlaybackQueue::new();
    q.push_samples(&vec![5i16, 6]);
    q.trim_excess();
    assert_eq!(q.len(), 2);
    assert_eq!(q.pop_or_silence(), 5);
}

#[test]
fn chunker_splits_samples_across_reads() {
    let mut c = SampleChunker::new();
    let samples = vec![0x0403_0201u32, 0x0807_0605];
    let (out, used) = c.read_bytes(&samples, 5);
    assert_eq!(out, vec![0x01u8, 0x02, 0x03, 0x04, 0x05]);
    assert_eq!(used, 2);
    let (rest, used2) = c.read_bytes(&Vec::new(), 10);
    assert_eq!(rest, vec![0x06u8, 0x07, 0x08]);
    assert_eq!(used2, 0);
    let (empty, used3) = c.read_bytes(&Vec::new(), 10);
    assert!(empty.is_empty());
    assert_eq!(used3, 0);
}

#[test]
fn chunker_reads_whole_samples_when_room() {
    let mut c = SampleChunker::new();
    let (out, used) = c.read_bytes(&vec![0xAABB_CCDDu32], 8);
    assert_eq!(out, vec![0xDDu8, 0xCC, 0xBB, 0xAA]);
    assert_eq!(used, 1);
}
