//! Per-user voice recording: the store of first recordings per user
//! (`VoiceDataManager`) and the receiver of voice events (`Receiver`), which
//! maps audio sources to users, collects the decoded samples of every voice
//! tick under the speaker's key, and hands a user's recording out when the
//! user leaves the call.

use crate::decimal::{decimal, decimal_string};
use crate::shared_maps::{
    new_audio_map, new_ssrc_map, insert_ssrc_owner, recorded_audio, recording, ssrc_owner,
    ssrc_owners, store_recording, take_recording, AudioMap, SsrcMap,
};
use std::collections::HashMap;
use vstd::prelude::*;
use vstd::string::*;

verus! {

broadcast use vstd::std_specs::hash::group_hash_axioms;

/// The samples of one recording: mono, signed 16-bit.
pub type AudioData = Vec<i16>;

/// Keeps, per user, the first recording that was added for that user.
pub struct VoiceDataManager {
    all_audio: HashMap<u32, AudioData>,
}

impl View for VoiceDataManager {
    type V = Map<u32, Seq<i16>>;

    closed spec fn view(&self) -> Map<u32, Seq<i16>> {
        self.all_audio@.map_values(|v: Vec<i16>| v@)
    }
}

/// The store after a recording is offered for `user`: a user who already has
/// one keeps it, a user who has none gets `audio`.
pub open spec fn keep_first_audio(store: Map<u32, Seq<i16>>, user: u32, audio: Seq<i16>) -> Map<
    u32,
    Seq<i16>,
> {
    if store.contains_key(user) {
        store
    } else {
        store.insert(user, audio)
    }
}

impl VoiceDataManager {
    /// An empty store.
    pub fn new() -> (manager: VoiceDataManager)
        ensures
            manager@.dom().is_empty(),
    {
        let manager = VoiceDataManager { all_audio: HashMap::new() };
        assert(manager@.dom() =~= Set::<u32>::empty());
        manager
    }

    /// Stores `audio` as the recording of `user`, unless `user` already has one.
    pub fn add_audio(&mut self, user: u32, audio: Vec<i16>)
        ensures
            final(self)@ == keep_first_audio(old(self)@, user, audio@),
    {
        if !self.all_audio.contains_key(&user) {
            self.all_audio.insert(user, audio);
        }
        assert(self@ =~= keep_first_audio(old(self)@, user, audio@));
    }

    /// The recording stored for `user`, if any.
    pub fn audio_of(&self, user: u32) -> (found: Option<&Vec<i16>>)
        ensures
            match found {
                Some(samples) => self@.contains_key(user) && samples@ == self@[user],
                None => !self@.contains_key(user),
            },
    {
        self.all_audio.get(&user)
    }
}

/// One speaker's share of a voice tick: the audio source it came from and its
/// decoded samples, absent when decoding was off or the packet was lost.
pub struct SpeakerPacket {
    pub ssrc: u32,
    pub decoded_voice: Option<Vec<i16>>,
}

/// The voice events a receiver acts on.
#[allow(inconsistent_fields)]
pub enum VoiceEvent {
    /// A user was seen speaking on the audio source `ssrc`.
    SpeakingStateUpdate { ssrc: u32, user_id: Option<u64> },
    /// The audio of one tick, one entry per user who spoke in it.
    VoiceTick { speaking: Vec<SpeakerPacket> },
    /// A raw RTP packet arrived.
    RtpPacket,
    /// An RTCP packet arrived.
    RtcpPacket,
    /// A user left the call.
    ClientDisconnect { user_id: u64 },
}

/// What the caller is to do after the receiver has acted on an event.
pub enum VoiceAction {
    /// Nothing more.
    Nothing,
    /// Announce that nobody is speaking any more.
    AnnounceNoSpeakers,
    /// Save `samples` as the recording of `user_id`.
    SaveRecording { user_id: u64, samples: Vec<i16> },
    /// Report that no audio was recorded for `user_id`.
    RecordingMissing { user_id: u64 },
}

/// A `VoiceAction` with its samples taken by their view.
pub enum VoiceActionView {
    Nothing,
    AnnounceNoSpeakers,
    SaveRecording { user_id: u64, samples: Seq<i16> },
    RecordingMissing { user_id: u64 },
}

impl View for VoiceAction {
    type V = VoiceActionView;

    open spec fn view(&self) -> VoiceActionView {
        match self {
            VoiceAction::Nothing => VoiceActionView::Nothing,
            VoiceAction::AnnounceNoSpeakers => VoiceActionView::AnnounceNoSpeakers,
            VoiceAction::SaveRecording { user_id, samples } => VoiceActionView::SaveRecording {
                user_id: *user_id,
                samples: samples@,
            },
            VoiceAction::RecordingMissing { user_id } => VoiceActionView::RecordingMissing {
                user_id: *user_id,
            },
        }
    }
}

/// The state of a receiver: whether the last tick had no speaker, which user
/// each audio source belongs to, and the samples recorded under each key.
pub struct ReceiverView {
    pub last_tick_was_empty: bool,
    pub known_ssrcs: Map<u32, u64>,
    pub users_audio: Map<Seq<char>, Seq<i16>>,
}

/// The key under which the audio of user `user_id` is recorded: its decimal id.
pub open spec fn user_key(user_id: u64) -> Seq<char> {
    decimal(user_id as nat)
}

/// The key under which audio from an audio source of unknown owner is recorded.
pub open spec fn unknown_speaker_key() -> Seq<char> {
    seq!['?']
}

/// The key under which audio from `ssrc` is recorded.
pub open spec fn speaker_key(known_ssrcs: Map<u32, u64>, ssrc: u32) -> Seq<char> {
    if known_ssrcs.contains_key(ssrc) {
        user_key(known_ssrcs[ssrc])
    } else {
        unknown_speaker_key()
    }
}

/// The samples recorded under `key`, empty when there are none.
pub open spec fn recording_or_empty(audio: Map<Seq<char>, Seq<i16>>, key: Seq<char>) -> Seq<i16> {
    if audio.contains_key(key) {
        audio[key]
    } else {
        Seq::empty()
    }
}

/// The decoded samples of a packet, by view.
pub open spec fn packet_samples(packet: SpeakerPacket) -> Option<Seq<i16>> {
    match packet.decoded_voice {
        Some(v) => Some(v@),
        None => None,
    }
}

/// The recordings after the packets of a tick are taken in order: each packet
/// with decoded samples appends them to the recording of its speaker's key.
pub open spec fn record_packets(
    known_ssrcs: Map<u32, u64>,
    audio: Map<Seq<char>, Seq<i16>>,
    packets: Seq<SpeakerPacket>,
) -> Map<Seq<char>, Seq<i16>>
    decreases packets.len(),
{
    if packets.len() == 0 {
        audio
    } else {
        let before = record_packets(known_ssrcs, audio, packets.drop_last());
        let last = packets.last();
        match packet_samples(last) {
            Some(samples) => {
                let key = speaker_key(known_ssrcs, last.ssrc);
                before.insert(key, recording_or_empty(before, key) + samples)
            },
            None => before,
        }
    }
}

/// The state of a receiver after it has acted on `event`.
pub open spec fn next_state(state: ReceiverView, event: VoiceEvent) -> ReceiverView {
    match event {
        VoiceEvent::SpeakingStateUpdate { ssrc, user_id } => match user_id {
            Some(user) => ReceiverView {
                known_ssrcs: state.known_ssrcs.insert(ssrc, user),
                ..state
            },
            None => state,
        },
        VoiceEvent::VoiceTick { speaking } => if speaking@.len() == 0 {
            ReceiverView { last_tick_was_empty: true, ..state }
        } else {
            ReceiverView {
                last_tick_was_empty: false,
                users_audio: record_packets(state.known_ssrcs, state.users_audio, speaking@),
                ..state
            }
        },
        _ => state,
    }
}

/// What the caller is to do after a receiver in `state` has acted on `event`.
pub open spec fn next_action(state: ReceiverView, event: VoiceEvent) -> VoiceActionView {
    match event {
        VoiceEvent::VoiceTick { speaking } => if speaking@.len() == 0
            && !state.last_tick_was_empty {
            VoiceActionView::AnnounceNoSpeakers
        } else {
            VoiceActionView::Nothing
        },
        VoiceEvent::ClientDisconnect { user_id } => if state.users_audio.contains_key(
            user_key(user_id),
        ) {
            VoiceActionView::SaveRecording {
                user_id,
                samples: state.users_audio[user_key(user_id)],
            }
        } else {
            VoiceActionView::RecordingMissing { user_id }
        },
        _ => VoiceActionView::Nothing,
    }
}

/// Receives the voice events of one call.
pub struct Receiver {
    last_tick_was_empty: bool,
    known_ssrcs: SsrcMap,
    users_audio: AudioMap,
}

impl View for Receiver {
    type V = ReceiverView;

    closed spec fn view(&self) -> ReceiverView {
        ReceiverView {
            last_tick_was_empty: self.last_tick_was_empty,
            known_ssrcs: ssrc_owners(self.known_ssrcs),
            users_audio: recorded_audio(self.users_audio),
        }
    }
}

impl Receiver {
    /// A receiver that knows no audio source, has recorded nothing, and has
    /// not seen an empty tick.
    pub fn new() -> (receiver: Receiver)
        ensures
            !receiver@.last_tick_was_empty,
            receiver@.known_ssrcs.dom().is_empty(),
            receiver@.users_audio.dom().is_empty(),
    {
        Receiver {
            last_tick_was_empty: false,
            known_ssrcs: new_ssrc_map(),
            users_audio: new_audio_map(),
        }
    }

    /// The key under which audio from `ssrc` is recorded: the decimal id of
    /// the user who speaks on it, or `?` when that user is not known.
    pub fn key_of_speaker(&self, ssrc: u32) -> (key: String)
        ensures
            key@ == speaker_key(self@.known_ssrcs, ssrc),
    {
        match ssrc_owner(&self.known_ssrcs, ssrc) {
            Some(user) => decimal_string(user),
            None => {
                proof {
                    reveal_strlit("?");
                }
                String::from_str("?")
            },
        }
    }

    /// Takes the packets of a non-empty tick in order.
    fn record_tick(&mut self, speaking: &Vec<SpeakerPacket>)
        ensures
            final(self)@ == (ReceiverView {
                users_audio: record_packets(
                    old(self)@.known_ssrcs,
                    old(self)@.users_audio,
                    speaking@,
                ),
                ..old(self)@
            }),
    {
        let ghost start = self@;
        let n = speaking.len();
        let mut i: usize = 0;
        while i < n
            invariant
                n == speaking@.len(),
                i <= n,
                self@ == (ReceiverView {
                    users_audio: record_packets(
                        start.known_ssrcs,
                        start.users_audio,
                        speaking@.take(i as int),
                    ),
                    ..start
                }),
            decreases n - i,
        {
            let packet = &speaking[i];
            proof {
                assert(speaking@.take(i + 1).drop_last() =~= speaking@.take(i as int));
                assert(speaking@.take(i + 1).last() == speaking@[i as int]);
            }
            let key = self.key_of_speaker(packet.ssrc);
            match &packet.decoded_voice {
                Some(voice) => {
                    let mut samples = voice.clone();
                    assert(samples@ =~= voice@);
                    let mut stored = match take_recording(&mut self.users_audio, key.as_str()) {
                        Some(previous) => previous,
                        None => Vec::new(),
                    };
                    stored.append(&mut samples);
                    store_recording(&mut self.users_audio, key, stored);
                    proof {
                        assert(recorded_audio(self.users_audio) =~= record_packets(
                            start.known_ssrcs,
                            start.users_audio,
                            speaking@.take(i + 1),
                        ));
                    }
                },
                None => {},
            }
            i = i + 1;
        }
        assert(speaking@.take(n as int) =~= speaking@);
    }

    /// Acts on one voice event: learns which user speaks on an audio source,
    /// records the samples of a tick under each speaker's key, notes whether
    /// the tick had no speaker, and hands out a leaving user's recording.
    pub fn act(&mut self, event: VoiceEvent) -> (action: VoiceAction)
        ensures
            final(self)@ == next_state(old(self)@, event),
            action@ == next_action(old(self)@, event),
    {
        match event {
            VoiceEvent::SpeakingStateUpdate { ssrc, user_id } => {
                if let Some(user) = user_id {
                    insert_ssrc_owner(&mut self.known_ssrcs, ssrc, user);
                }
                VoiceAction::Nothing
            },
            VoiceEvent::VoiceTick { speaking } => {
                let count = speaking.len();
                let last_tick_was_empty = self.last_tick_was_empty;
                if count == 0 && !last_tick_was_empty {
                    self.last_tick_was_empty = true;
                    VoiceAction::AnnounceNoSpeakers
                } else if count != 0 {
                    self.last_tick_was_empty = false;
                    self.record_tick(&speaking);
                    VoiceAction::Nothing
                } else {
                    VoiceAction::Nothing
                }
            },
            VoiceEvent::RtpPacket => VoiceAction::Nothing,
            VoiceEvent::RtcpPacket => VoiceAction::Nothing,
            VoiceEvent::ClientDisconnect { user_id } => {
                let key = decimal_string(user_id);
                match recording(&self.users_audio, key.as_str()) {
                    Some(samples) => VoiceAction::SaveRecording { user_id, samples },
                    None => VoiceAction::RecordingMissing { user_id },
                }
            },
        }
    }
}

} // verus!
