use alma_negra::voice::{Receiver, SpeakerPacket, VoiceAction, VoiceDataManager, VoiceEvent};

fn tick(packets: Vec<(u32, Option<Vec<i16>>)>) -> VoiceEvent {
    VoiceEvent::VoiceTick {
        speaking: packets
            .into_iter()
            .map(|(ssrc, decoded_voice)| SpeakerPacket { ssrc, decoded_voice })
            .collect(),
    }
}

fn saved(action: VoiceAction) -> Option<(u64, Vec<i16>)> {
    match action {
        VoiceAction::SaveRecording { user_id, samples } => Some((user_id, samples)),
        _ => None,
    }
}

#[test]
fn store_starts_empty() {
    let manager = VoiceDataManager::new();
    assert!(manager.audio_of(7).is_none());
}

#[test]
fn store_keeps_first_recording() {
    let mut manager = VoiceDataManager::new();
    manager.add_audio(7, vec![1, 2, 3]);
    manager.add_audio(7, vec![9, 9]);
    assert_eq!(manager.audio_of(7), Some(&vec![1, 2, 3]));
}

#[test]
fn store_keeps_users_apart() {
    let mut manager = VoiceDataManager::new();
    manager.add_audio(1, vec![10]);
    manager.add_audio(2, vec![20, 21]);
    assert_eq!(manager.audio_of(1), Some(&vec![10]));
    assert_eq!(manager.audio_of(2), Some(&vec![20, 21]));
    assert!(manager.audio_of(3).is_none());
}

#[test]
fn store_accepts_empty_recording_first() {
    let mut manager = VoiceDataManager::new();
    manager.add_audio(5, vec![]);
    manager.add_audio(5, vec![1]);
    assert_eq!(manager.audio_of(5), Some(&vec![]));
}

#[test]
fn leaving_speaker_gets_own_samples() {
    let mut receiver = Receiver::new();
    let a = receiver.act(VoiceEvent::SpeakingStateUpdate { ssrc: 11, user_id: Some(4242) });
    assert!(matches!(a, VoiceAction::Nothing));
    let a = receiver.act(tick(vec![(11, Some(vec![1, -2, 3]))]));
    assert!(matches!(a, VoiceAction::Nothing));
    let a = receiver.act(VoiceEvent::ClientDisconnect { user_id: 4242 });
    assert_eq!(saved(a), Some((4242, vec![1, -2, 3])));
}

#[test]
fn ticks_append_in_order() {
    let mut receiver = Receiver::new();
    receiver.act(VoiceEvent::SpeakingStateUpdate { ssrc: 1, user_id: Some(10) });
    receiver.act(tick(vec![(1, Some(vec![1, 2]))]));
    receiver.act(tick(vec![(1, Some(vec![3])), (1, Some(vec![4, 5]))]));
    let a = receiver.act(VoiceEvent::ClientDisconnect { user_id: 10 });
    assert_eq!(saved(a), Some((10, vec![1, 2, 3, 4, 5])));
}

#[test]
fn user_without_audio_is_reported_missing() {
    let mut receiver = Receiver::new();
    receiver.act(VoiceEvent::SpeakingStateUpdate { ssrc: 1, user_id: Some(10) });
    let a = receiver.act(VoiceEvent::ClientDisconnect { user_id: 99 });
    assert!(matches!(a, VoiceAction::RecordingMissing { user_id: 99 }));
}

#[test]
fn unknown_source_is_not_attributed_to_a_user() {
    let mut receiver = Receiver::new();
    receiver.act(tick(vec![(77, Some(vec![5, 6]))]));
    let a = receiver.act(VoiceEvent::ClientDisconnect { user_id: 77 });
    assert!(matches!(a, VoiceAction::RecordingMissing { user_id: 77 }));
}

#[test]
fn speakers_are_recorded_apart() {
    let mut receiver = Receiver::new();
    receiver.act(VoiceEvent::SpeakingStateUpdate { ssrc: 1, user_id: Some(100) });
    receiver.act(VoiceEvent::SpeakingStateUpdate { ssrc: 2, user_id: Some(200) });
    receiver.act(tick(vec![(1, Some(vec![1])), (2, Some(vec![2])), (3, Some(vec![3]))]));
    assert_eq!(saved(receiver.act(VoiceEvent::ClientDisconnect { user_id: 100 })), Some((100, vec![1])));
    assert_eq!(saved(receiver.act(VoiceEvent::ClientDisconnect { user_id: 200 })), Some((200, vec![2])));
}

#[test]
fn speaking_update_without_user_is_ignored() {
    let mut receiver = Receiver::new();
    receiver.act(VoiceEvent::SpeakingStateUpdate { ssrc: 1, user_id: None });
    receiver.act(tick(vec![(1, Some(vec![8]))]));
    let a = receiver.act(VoiceEvent::ClientDisconnect { user_id: 1 });
    assert!(matches!(a, VoiceAction::RecordingMissing { user_id: 1 }));
}

#[test]
fn latest_source_owner_wins() {
    let mut receiver = Receiver::new();
    receiver.act(VoiceEvent::SpeakingStateUpdate { ssrc: 1, user_id: Some(10) });
    receiver.act(VoiceEvent::SpeakingStateUpdate { ssrc: 1, user_id: Some(20) });
    receiver.act(tick(vec![(1, Some(vec![4]))]));
    assert!(matches!(
        receiver.act(VoiceEvent::ClientDisconnect { user_id: 10 }),
        VoiceAction::RecordingMissing { user_id: 10 }
    ));
    assert_eq!(saved(receiver.act(VoiceEvent::ClientDisconnect { user_id: 20 })), Some((20, vec![4])));
}

#[test]
fn packet_without_decoded_voice_records_nothing() {
    let mut receiver = Receiver::new();
    receiver.act(VoiceEvent::SpeakingStateUpdate { ssrc: 1, user_id: Some(10) });
    receiver.act(tick(vec![(1, None)]));
    assert!(matches!(
        receiver.act(VoiceEvent::ClientDisconnect { user_id: 10 }),
        VoiceAction::RecordingMissing { user_id: 10 }
    ));
}

#[test]
fn empty_decoded_voice_still_opens_a_recording() {
    let mut receiver = Receiver::new();
    receiver.act(VoiceEvent::SpeakingStateUpdate { ssrc: 1, user_id: Some(10) });
    receiver.act(tick(vec![(1, Some(vec![]))]));
    assert_eq!(saved(receiver.act(VoiceEvent::ClientDisconnect { user_id: 10 })), Some((10, vec![])));
}

#[test]
fn leaving_keeps_the_recording() {
    let mut receiver = Receiver::new();
    receiver.act(VoiceEvent::SpeakingStateUpdate { ssrc: 1, user_id: Some(10) });
    receiver.act(tick(vec![(1, Some(vec![1]))]));
    receiver.act(VoiceEvent::ClientDisconnect { user_id: 10 });
    receiver.act(tick(vec![(1, Some(vec![2]))]));
    assert_eq!(saved(receiver.act(VoiceEvent::ClientDisconnect { user_id: 10 })), Some((10, vec![1, 2])));
}

#[test]
fn silence_is_announced_once() {
    let mut receiver = Receiver::new();
    assert!(matches!(receiver.act(tick(vec![])), VoiceAction::AnnounceNoSpeakers));
    assert!(matches!(receiver.act(tick(vec![])), VoiceAction::Nothing));
    assert!(matches!(receiver.act(tick(vec![(1, Some(vec![1]))])), VoiceAction::Nothing));
    assert!(matches!(receiver.act(tick(vec![])), VoiceAction::AnnounceNoSpeakers));
}

#[test]
fn packet_events_change_nothing() {
    let mut receiver = Receiver::new();
    assert!(matches!(receiver.act(VoiceEvent::RtpPacket), VoiceAction::Nothing));
    assert!(matches!(receiver.act(VoiceEvent::RtcpPacket), VoiceAction::Nothing));
    assert!(matches!(
        receiver.act(VoiceEvent::ClientDisconnect { user_id: 0 }),
        VoiceAction::RecordingMissing { user_id: 0 }
    ));
}

#[test]
fn large_user_ids_are_keyed_exactly() {
    let mut receiver = Receiver::new();
    receiver.act(VoiceEvent::SpeakingStateUpdate { ssrc: 3, user_id: Some(u64::MAX) });
    receiver.act(tick(vec![(3, Some(vec![i16::MIN, i16::MAX]))]));
    assert!(matches!(
        receiver.act(VoiceEvent::ClientDisconnect { user_id: u64::MAX / 10 }),
        VoiceAction::RecordingMissing { .. }
    ));
    assert_eq!(
        saved(receiver.act(VoiceEvent::ClientDisconnect { user_id: u64::MAX })),
        Some((u64::MAX, vec![i16::MIN, i16::MAX]))
    );
}

#[test]
fn speaker_keys_name_the_owner() {
    let mut receiver = Receiver::new();
    assert_eq!(receiver.key_of_speaker(9), "?");
    receiver.act(VoiceEvent::SpeakingStateUpdate { ssrc: 9, user_id: Some(31415) });
    assert_eq!(receiver.key_of_speaker(9), "31415");
    assert_eq!(receiver.key_of_speaker(8), "?");
}

#[test]
fn later_mapping_does_not_claim_earlier_samples() {
    let mut receiver = Receiver::new();
    receiver.act(tick(vec![(4, Some(vec![1, 2]))]));
    receiver.act(VoiceEvent::SpeakingStateUpdate { ssrc: 4, user_id: Some(44) });
    receiver.act(tick(vec![(4, Some(vec![3]))]));
    assert_eq!(saved(receiver.act(VoiceEvent::ClientDisconnect { user_id: 44 })), Some((44, vec![3])));
}
