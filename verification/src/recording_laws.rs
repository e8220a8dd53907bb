//! Laws of voice recording: what a store keeps, when silence is announced,
//! whose recording the samples of a tick extend, and what a leaving user is
//! handed.

use crate::decimal::{decimal, lemma_decimal_injective, lemma_decimal_is_digits};
use crate::voice::{
    keep_first_audio, next_action, next_state, packet_samples, record_packets,
    recording_or_empty, speaker_key, unknown_speaker_key, user_key, ReceiverView, SpeakerPacket,
    VoiceActionView, VoiceEvent,
};
use vstd::prelude::*;

verus! {

/// Once a user has a recording in the store, offering another one changes
/// nothing; the recording of every other user is untouched either way.
pub proof fn lemma_first_recording_kept(
    store: Map<u32, Seq<i16>>,
    user: u32,
    first: Seq<i16>,
    second: Seq<i16>,
)
    ensures
        keep_first_audio(keep_first_audio(store, user, first), user, second) == keep_first_audio(
            store,
            user,
            first,
        ),
        keep_first_audio(store, user, first).contains_key(user),
        keep_first_audio(store, user, first)[user] == (if store.contains_key(user) {
            store[user]
        } else {
            first
        }),
        forall|other: u32|
            other != user ==> (#[trigger] keep_first_audio(store, user, first).contains_key(other)
                <==> store.contains_key(other)),
        forall|other: u32|
            other != user && store.contains_key(other) ==> #[trigger] keep_first_audio(
                store,
                user,
                first,
            )[other] == store[other],
{
}

/// After a tick the receiver remembers whether the tick had no speaker, and
/// silence is announced only when a tick without speakers follows a tick with
/// speakers: a second silent tick announces nothing.
pub proof fn lemma_silence_announced_once(
    state: ReceiverView,
    speaking: Vec<SpeakerPacket>,
    quiet: Vec<SpeakerPacket>,
)
    requires
        quiet@.len() == 0,
    ensures
        next_state(state, VoiceEvent::VoiceTick { speaking }).last_tick_was_empty == (
        speaking@.len() == 0),
        (next_action(state, VoiceEvent::VoiceTick { speaking })
            == VoiceActionView::AnnounceNoSpeakers) <==> (speaking@.len() == 0
            && !state.last_tick_was_empty),
        next_action(
            next_state(state, VoiceEvent::VoiceTick { speaking: quiet }),
            VoiceEvent::VoiceTick { speaking: quiet },
        ) == VoiceActionView::Nothing,
{
}

/// Distinct users are recorded under distinct keys, and no user under the key
/// of unknown speakers.
pub proof fn lemma_user_keys_distinct(a: u64, b: u64)
    ensures
        a != b ==> user_key(a) != user_key(b),
        user_key(a) != unknown_speaker_key(),
{
    lemma_decimal_injective(a as nat, b as nat);
    lemma_decimal_is_digits(a as nat);
    if user_key(a) == unknown_speaker_key() {
        assert(decimal(a as nat)[0] == '?');
    }
}

/// The samples, in order, that the packets of a tick contribute under `key`.
pub open spec fn samples_for_key(
    known_ssrcs: Map<u32, u64>,
    packets: Seq<SpeakerPacket>,
    key: Seq<char>,
) -> Seq<i16>
    decreases packets.len(),
{
    if packets.len() == 0 {
        Seq::empty()
    } else {
        let before = samples_for_key(known_ssrcs, packets.drop_last(), key);
        match packet_samples(packets.last()) {
            Some(samples) => if speaker_key(known_ssrcs, packets.last().ssrc) == key {
                before + samples
            } else {
                before
            },
            None => before,
        }
    }
}

/// Whether some packet of a tick carries decoded samples for `key`.
pub open spec fn tick_reaches_key(
    known_ssrcs: Map<u32, u64>,
    packets: Seq<SpeakerPacket>,
    key: Seq<char>,
) -> bool {
    exists|i: int|
        0 <= i < packets.len() && speaker_key(known_ssrcs, #[trigger] packets[i].ssrc) == key
            && packet_samples(packets[i]) is Some
}

/// Taking the packets of a tick extends the recording under each key by
/// exactly the samples of the packets for that key, in their order; a key
/// gets an entry when it had one or some packet for it carries samples.
pub proof fn lemma_tick_extends_recordings(
    known_ssrcs: Map<u32, u64>,
    audio: Map<Seq<char>, Seq<i16>>,
    packets: Seq<SpeakerPacket>,
    key: Seq<char>,
)
    ensures
        record_packets(known_ssrcs, audio, packets).contains_key(key) <==> (audio.contains_key(key)
            || tick_reaches_key(known_ssrcs, packets, key)),
        recording_or_empty(record_packets(known_ssrcs, audio, packets), key) == recording_or_empty(
            audio,
            key,
        ) + samples_for_key(known_ssrcs, packets, key),
    decreases packets.len(),
{
    if packets.len() == 0 {
        assert(recording_or_empty(audio, key) + Seq::<i16>::empty() =~= recording_or_empty(
            audio,
            key,
        ));
    } else {
        let prefix = packets.drop_last();
        let last = packets.last();
        lemma_tick_extends_recordings(known_ssrcs, audio, prefix, key);
        let before = record_packets(known_ssrcs, audio, prefix);
        assert(tick_reaches_key(known_ssrcs, packets, key) <==> (tick_reaches_key(
            known_ssrcs,
            prefix,
            key,
        ) || (speaker_key(known_ssrcs, last.ssrc) == key && packet_samples(last) is Some))) by {
            if tick_reaches_key(known_ssrcs, prefix, key) {
                let i = choose|i: int|
                    0 <= i < prefix.len() && speaker_key(known_ssrcs, #[trigger] prefix[i].ssrc)
                        == key && packet_samples(prefix[i]) is Some;
                assert(packets[i] == prefix[i]);
            }
            if tick_reaches_key(known_ssrcs, packets, key) {
                let i = choose|i: int|
                    0 <= i < packets.len() && speaker_key(known_ssrcs, #[trigger] packets[i].ssrc)
                        == key && packet_samples(packets[i]) is Some;
                if i < packets.len() - 1 {
                    assert(prefix[i] == packets[i]);
                }
            }
            if speaker_key(known_ssrcs, last.ssrc) == key && packet_samples(last) is Some {
                assert(packets[packets.len() - 1] == last);
            }
        }
        match packet_samples(last) {
            Some(samples) => {
                if speaker_key(known_ssrcs, last.ssrc) == key {
                    assert(recording_or_empty(audio, key) + samples_for_key(
                        known_ssrcs,
                        packets,
                        key,
                    ) =~= recording_or_empty(audio, key) + samples_for_key(
                        known_ssrcs,
                        prefix,
                        key,
                    ) + samples);
                }
            },
            None => {},
        }
    }
}

/// A user who leaves right after a tick is handed the recording the user had
/// before it, followed by the samples of the user's packets in the tick, in
/// order; a user with neither is reported as having no recording.
pub proof fn lemma_leaving_user_gets_recorded_audio(
    state: ReceiverView,
    speaking: Vec<SpeakerPacket>,
    user: u64,
)
    requires
        speaking@.len() > 0,
    ensures
        ({
            let after = next_state(state, VoiceEvent::VoiceTick { speaking });
            let key = user_key(user);
            next_action(after, VoiceEvent::ClientDisconnect { user_id: user }) == if state.users_audio.contains_key(key)
                || tick_reaches_key(state.known_ssrcs, speaking@, key) {
                VoiceActionView::SaveRecording {
                    user_id: user,
                    samples: recording_or_empty(state.users_audio, key) + samples_for_key(
                        state.known_ssrcs,
                        speaking@,
                        key,
                    ),
                }
            } else {
                VoiceActionView::RecordingMissing { user_id: user }
            }
        }),
{
    lemma_tick_extends_recordings(
        state.known_ssrcs,
        state.users_audio,
        speaking@,
        user_key(user),
    );
}

/// Packets from audio sources that do not belong to `user` leave the
/// recording of `user` as it was.
pub proof fn lemma_other_speakers_leave_recording_alone(
    state: ReceiverView,
    speaking: Vec<SpeakerPacket>,
    user: u64,
)
    requires
        forall|i: int|
            0 <= i < speaking@.len() ==> !(state.known_ssrcs.contains_key(#[trigger] speaking@[i].ssrc)
                && state.known_ssrcs[speaking@[i].ssrc] == user),
    ensures
        ({
            let after = next_state(state, VoiceEvent::VoiceTick { speaking });
            let key = user_key(user);
            &&& after.users_audio.contains_key(key) <==> state.users_audio.contains_key(key)
            &&& recording_or_empty(after.users_audio, key) == recording_or_empty(
                state.users_audio,
                key,
            )
        }),
{
    let key = user_key(user);
    let packets = speaking@;
    lemma_tick_extends_recordings(state.known_ssrcs, state.users_audio, packets, key);
    assert forall|i: int| 0 <= i < packets.len() implies speaker_key(
        state.known_ssrcs,
        #[trigger] packets[i].ssrc,
    ) != key by {
        let ssrc = packets[i].ssrc;
        if state.known_ssrcs.contains_key(ssrc) {
            lemma_user_keys_distinct(state.known_ssrcs[ssrc], user);
        } else {
            lemma_user_keys_distinct(user, user);
        }
    }
    lemma_no_samples_for_foreign_key(state.known_ssrcs, packets, key);
    assert(recording_or_empty(state.users_audio, key) + Seq::<i16>::empty() =~= recording_or_empty(
        state.users_audio,
        key,
    ));
}

/// A tick none of whose packets is recorded under `key` contributes nothing to it.
proof fn lemma_no_samples_for_foreign_key(
    known_ssrcs: Map<u32, u64>,
    packets: Seq<SpeakerPacket>,
    key: Seq<char>,
)
    requires
        forall|i: int|
            0 <= i < packets.len() ==> speaker_key(known_ssrcs, #[trigger] packets[i].ssrc) != key,
    ensures
        samples_for_key(known_ssrcs, packets, key) == Seq::<i16>::empty(),
        !tick_reaches_key(known_ssrcs, packets, key),
    decreases packets.len(),
{
    if packets.len() > 0 {
        let prefix = packets.drop_last();
        assert forall|i: int| 0 <= i < prefix.len() implies speaker_key(
            known_ssrcs,
            #[trigger] prefix[i].ssrc,
        ) != key by {
            assert(prefix[i] == packets[i]);
        }
        lemma_no_samples_for_foreign_key(known_ssrcs, prefix, key);
        assert(packets[packets.len() - 1] == packets.last());
    }
}

/// A user who announced the audio source `ssrc` and then spoke on it in a
/// tick, having had no recording before, is handed exactly the samples of
/// that tick on leaving.
pub proof fn lemma_speaker_gets_own_samples_back(
    state: ReceiverView,
    ssrc: u32,
    user: u64,
    voice: Vec<i16>,
    speaking: Vec<SpeakerPacket>,
)
    requires
        !state.users_audio.contains_key(user_key(user)),
        speaking@ == seq![SpeakerPacket { ssrc, decoded_voice: Some(voice) }],
    ensures
        ({
            let announced = next_state(
                state,
                VoiceEvent::SpeakingStateUpdate { ssrc, user_id: Some(user) },
            );
            let after = next_state(announced, VoiceEvent::VoiceTick { speaking });
            next_action(after, VoiceEvent::ClientDisconnect { user_id: user })
                == VoiceActionView::SaveRecording { user_id: user, samples: voice@ }
        }),
{
    let announced = next_state(state, VoiceEvent::SpeakingStateUpdate { ssrc, user_id: Some(user) });
    let packets = speaking@;
    let key = user_key(user);
    assert(packets.drop_last() =~= Seq::<SpeakerPacket>::empty());
    assert(speaker_key(announced.known_ssrcs, ssrc) == key);
    assert(packets.last() == packets[0]);
    assert(samples_for_key(announced.known_ssrcs, packets.drop_last(), key) == Seq::<i16>::empty());
    assert(samples_for_key(announced.known_ssrcs, packets, key) =~= voice@);
    assert(tick_reaches_key(announced.known_ssrcs, packets, key)) by {
        assert(speaker_key(announced.known_ssrcs, packets[0].ssrc) == key);
    }
    lemma_leaving_user_gets_recorded_audio(announced, speaking, user);
    assert(recording_or_empty(announced.users_audio, key) + voice@ =~= voice@);
}

/// Only speaking-state updates change which user an audio source belongs to,
/// the latest update for a source wins, and leaving, RTP and RTCP events
/// change no state at all.
pub proof fn lemma_source_owner_latest_wins(state: ReceiverView, ssrc: u32, first: u64, second: u64)
    ensures
        next_state(
            next_state(state, VoiceEvent::SpeakingStateUpdate { ssrc, user_id: Some(first) }),
            VoiceEvent::SpeakingStateUpdate { ssrc, user_id: Some(second) },
        ).known_ssrcs[ssrc] == second,
        next_state(state, VoiceEvent::ClientDisconnect { user_id: first }) == state,
        next_state(state, VoiceEvent::RtpPacket) == state,
        next_state(state, VoiceEvent::RtcpPacket) == state,
{
}

/// The state of a receiver after it has acted on `events`, in order.
pub open spec fn run(state: ReceiverView, events: Seq<VoiceEvent>) -> ReceiverView
    decreases events.len(),
{
    if events.len() == 0 {
        state
    } else {
        next_state(run(state, events.drop_last()), events.last())
    }
}

/// Which user each audio source belongs to after `events`: the user named by
/// the latest speaking-state update for that source, else as in `owners`.
pub open spec fn owners_after(owners: Map<u32, u64>, events: Seq<VoiceEvent>) -> Map<u32, u64>
    decreases events.len(),
{
    if events.len() == 0 {
        owners
    } else {
        let before = owners_after(owners, events.drop_last());
        match events.last() {
            VoiceEvent::SpeakingStateUpdate { ssrc, user_id: Some(user) } => before.insert(
                ssrc,
                user,
            ),
            _ => before,
        }
    }
}

/// The samples heard under `key` over `events`, in order: each tick
/// contributes the samples of its packets whose source, when the tick came,
/// was recorded under `key`.
pub open spec fn samples_heard(owners: Map<u32, u64>, events: Seq<VoiceEvent>, key: Seq<char>) -> Seq<
    i16,
>
    decreases events.len(),
{
    if events.len() == 0 {
        Seq::empty()
    } else {
        let before = samples_heard(owners, events.drop_last(), key);
        match events.last() {
            VoiceEvent::VoiceTick { speaking } => before + samples_for_key(
                owners_after(owners, events.drop_last()),
                speaking@,
                key,
            ),
            _ => before,
        }
    }
}

/// Whether some tick of `events` carried decoded samples for `key`.
pub open spec fn key_heard(owners: Map<u32, u64>, events: Seq<VoiceEvent>, key: Seq<char>) -> bool
    decreases events.len(),
{
    if events.len() == 0 {
        false
    } else {
        key_heard(owners, events.drop_last(), key) || match events.last() {
            VoiceEvent::VoiceTick { speaking } => tick_reaches_key(
                owners_after(owners, events.drop_last()),
                speaking@,
                key,
            ),
            _ => false,
        }
    }
}

/// Over any sequence of events, the audio sources belong to the users that
/// the speaking-state updates named, the latest update for a source winning.
pub proof fn lemma_run_owners(state: ReceiverView, events: Seq<VoiceEvent>)
    ensures
        run(state, events).known_ssrcs == owners_after(state.known_ssrcs, events),
    decreases events.len(),
{
    if events.len() > 0 {
        lemma_run_owners(state, events.drop_last());
    }
}

/// Over any sequence of events, the recording under each key is the one it
/// had, followed by every sample heard under that key, in order; a key has a
/// recording when it had one or some tick carried samples for it.
pub proof fn lemma_run_recordings(state: ReceiverView, events: Seq<VoiceEvent>, key: Seq<char>)
    ensures
        run(state, events).users_audio.contains_key(key) <==> (state.users_audio.contains_key(key)
            || key_heard(state.known_ssrcs, events, key)),
        recording_or_empty(run(state, events).users_audio, key) == recording_or_empty(
            state.users_audio,
            key,
        ) + samples_heard(state.known_ssrcs, events, key),
    decreases events.len(),
{
    if events.len() == 0 {
        assert(recording_or_empty(state.users_audio, key) + Seq::<i16>::empty() =~= recording_or_empty(
            state.users_audio,
            key,
        ));
    } else {
        let prefix = events.drop_last();
        lemma_run_recordings(state, prefix, key);
        lemma_run_owners(state, prefix);
        let before = run(state, prefix);
        match events.last() {
            VoiceEvent::VoiceTick { speaking } => {
                lemma_tick_extends_recordings(
                    before.known_ssrcs,
                    before.users_audio,
                    speaking@,
                    key,
                );
                if speaking@.len() == 0 {
                    assert(samples_for_key(before.known_ssrcs, speaking@, key) == Seq::<i16>::empty());
                    assert(!tick_reaches_key(before.known_ssrcs, speaking@, key));
                }
                assert(recording_or_empty(state.users_audio, key) + samples_heard(
                    state.known_ssrcs,
                    events,
                    key,
                ) =~= recording_or_empty(state.users_audio, key) + samples_heard(
                    state.known_ssrcs,
                    prefix,
                    key,
                ) + samples_for_key(before.known_ssrcs, speaking@, key));
            },
            _ => {},
        }
    }
}

/// Over any sequence of events, a user who leaves is handed the recording
/// the user had, followed by every sample heard from the user's sources, in
/// order; a user with neither is reported as having no recording.
pub proof fn lemma_leaving_user_gets_everything_heard(
    state: ReceiverView,
    events: Seq<VoiceEvent>,
    user: u64,
)
    ensures
        ({
            let key = user_key(user);
            next_action(run(state, events), VoiceEvent::ClientDisconnect { user_id: user })
                == if state.users_audio.contains_key(key) || key_heard(
                state.known_ssrcs,
                events,
                key,
            ) {
                VoiceActionView::SaveRecording {
                    user_id: user,
                    samples: recording_or_empty(state.users_audio, key) + samples_heard(
                        state.known_ssrcs,
                        events,
                        key,
                    ),
                }
            } else {
                VoiceActionView::RecordingMissing { user_id: user }
            }
        }),
{
    lemma_run_recordings(state, events, user_key(user));
}

/// A receiver that had recorded nothing hands a leaving user exactly the
/// samples heard from the user's sources, or reports that it has none.
pub proof fn lemma_fresh_receiver_hands_out_heard_samples(
    state: ReceiverView,
    events: Seq<VoiceEvent>,
    user: u64,
)
    requires
        state.users_audio.dom().is_empty(),
    ensures
        ({
            let key = user_key(user);
            next_action(run(state, events), VoiceEvent::ClientDisconnect { user_id: user })
                == if key_heard(state.known_ssrcs, events, key) {
                VoiceActionView::SaveRecording {
                    user_id: user,
                    samples: samples_heard(state.known_ssrcs, events, key),
                }
            } else {
                VoiceActionView::RecordingMissing { user_id: user }
            }
        }),
{
    let key = user_key(user);
    lemma_leaving_user_gets_everything_heard(state, events, user);
    assert(!state.users_audio.dom().contains(key));
    assert(Seq::<i16>::empty() + samples_heard(state.known_ssrcs, events, key) =~= samples_heard(
        state.known_ssrcs,
        events,
        key,
    ));
}

/// Whether `user` owns the audio source `ssrc` in `owners`.
pub open spec fn owned_by(owners: Map<u32, u64>, ssrc: u32, user: u64) -> bool {
    owners.contains_key(ssrc) && owners[ssrc] == user
}

/// All decoded samples of `packets`, in order.
pub open spec fn all_samples(packets: Seq<SpeakerPacket>) -> Seq<i16>
    decreases packets.len(),
{
    if packets.len() == 0 {
        Seq::empty()
    } else {
        match packet_samples(packets.last()) {
            Some(samples) => all_samples(packets.drop_last()) + samples,
            None => all_samples(packets.drop_last()),
        }
    }
}

/// In a tick, a user is credited with exactly the samples of the packets
/// from sources the user owns at that moment: packets from sources owned by
/// nobody (recorded under the unknown key) or by others count for nothing.
pub proof fn lemma_user_hears_only_own_sources(
    owners: Map<u32, u64>,
    packets: Seq<SpeakerPacket>,
    user: u64,
)
    ensures
        samples_for_key(owners, packets, user_key(user)) == all_samples(
            packets.filter(|packet: SpeakerPacket| owned_by(owners, packet.ssrc, user)),
        ),
    decreases packets.len(),
{
    reveal_with_fuel(Seq::<_>::filter, 1);
    let pred = |packet: SpeakerPacket| owned_by(owners, packet.ssrc, user);
    if packets.len() > 0 {
        let prefix = packets.drop_last();
        let last = packets.last();
        lemma_user_hears_only_own_sources(owners, prefix, user);
        let kept = prefix.filter(pred);
        if owners.contains_key(last.ssrc) {
            lemma_user_keys_distinct(owners[last.ssrc], user);
        } else {
            lemma_user_keys_distinct(user, user);
        }
        if pred(last) {
            assert(kept.push(last).drop_last() =~= kept);
            assert(kept.push(last).last() == last);
        }
    }
}

/// Speaking-state updates never move samples already heard: a source that
/// is mapped to a user later does not bring its earlier samples along.
pub proof fn lemma_updates_do_not_reattribute(
    owners: Map<u32, u64>,
    events: Seq<VoiceEvent>,
    ssrc: u32,
    user_id: Option<u64>,
    key: Seq<char>,
)
    ensures
        samples_heard(owners, events.push(VoiceEvent::SpeakingStateUpdate { ssrc, user_id }), key)
            == samples_heard(owners, events, key),
        key_heard(owners, events.push(VoiceEvent::SpeakingStateUpdate { ssrc, user_id }), key)
            == key_heard(owners, events, key),
{
    let extended = events.push(VoiceEvent::SpeakingStateUpdate { ssrc, user_id });
    assert(extended.drop_last() =~= events);
}

/// Whether the latest tick of `events` had no speaker, or, without ticks,
/// whether the receiver last saw an empty tick before them.
pub open spec fn latest_tick_was_empty(state: ReceiverView, events: Seq<VoiceEvent>) -> bool
    decreases events.len(),
{
    if events.len() == 0 {
        state.last_tick_was_empty
    } else {
        match events.last() {
            VoiceEvent::VoiceTick { speaking } => speaking@.len() == 0,
            _ => latest_tick_was_empty(state, events.drop_last()),
        }
    }
}

/// Over any history, silence is announced by exactly the ticks without
/// speakers whose preceding tick had speakers (or, with no preceding tick,
/// when the receiver had not seen an empty one): once per run of silent ticks.
pub proof fn lemma_silence_announced_once_per_run(
    state: ReceiverView,
    events: Seq<VoiceEvent>,
    speaking: Vec<SpeakerPacket>,
)
    ensures
        run(state, events).last_tick_was_empty == latest_tick_was_empty(state, events),
        (next_action(run(state, events), VoiceEvent::VoiceTick { speaking })
            == VoiceActionView::AnnounceNoSpeakers) <==> (speaking@.len() == 0
            && !latest_tick_was_empty(state, events)),
    decreases events.len(),
{
    if events.len() > 0 {
        lemma_silence_announced_once_per_run(state, events.drop_last(), speaking);
    }
}

/// Events other than ticks leave every recording as it was, so two users'
/// departures with no tick between them are answered alike.
pub proof fn lemma_disconnects_agree_without_ticks(
    state: ReceiverView,
    between: Seq<VoiceEvent>,
    user: u64,
)
    requires
        forall|i: int| 0 <= i < between.len() ==> !(#[trigger] between[i] is VoiceTick),
    ensures
        run(state, between).users_audio == state.users_audio,
        next_action(run(state, between), VoiceEvent::ClientDisconnect { user_id: user })
            == next_action(state, VoiceEvent::ClientDisconnect { user_id: user }),
    decreases between.len(),
{
    if between.len() > 0 {
        let prefix = between.drop_last();
        assert forall|i: int| 0 <= i < prefix.len() implies !(#[trigger] prefix[i] is VoiceTick) by {
            assert(prefix[i] == between[i]);
        }
        lemma_disconnects_agree_without_ticks(state, prefix, user);
        assert(between.last() == between[between.len() - 1]);
    }
}

/// The store after the recordings `offers` are offered in order.
pub open spec fn offer_all(store: Map<u32, Seq<i16>>, offers: Seq<(u32, Seq<i16>)>) -> Map<
    u32,
    Seq<i16>,
>
    decreases offers.len(),
{
    if offers.len() == 0 {
        store
    } else {
        keep_first_audio(offer_all(store, offers.drop_last()), offers.last().0, offers.last().1)
    }
}

/// Over any sequence of offers, the store holds exactly the users it held
/// and the users offered, a user it held keeps that recording, and any other
/// user has the recording of the user's first offer.
pub proof fn lemma_store_keeps_first_offers(
    store: Map<u32, Seq<i16>>,
    offers: Seq<(u32, Seq<i16>)>,
    user: u32,
)
    ensures
        offer_all(store, offers).contains_key(user) <==> (store.contains_key(user) || exists|j: int|
            0 <= j < offers.len() && (#[trigger] offers[j]).0 == user),
        store.contains_key(user) ==> offer_all(store, offers)[user] == store[user],
        forall|j: int|
            0 <= j < offers.len() && (#[trigger] offers[j]).0 == user && !store.contains_key(user)
                && (forall|k: int| 0 <= k < j ==> offers[k].0 != user) ==> offer_all(
                store,
                offers,
            )[user] == offers[j].1,
    decreases offers.len(),
{
    if offers.len() > 0 {
        let prefix = offers.drop_last();
        lemma_store_keeps_first_offers(store, prefix, user);
        let last = offers.len() - 1;
        assert(offers.last() == offers[last]);
        assert forall|j: int| 0 <= j < prefix.len() implies #[trigger] prefix[j] == offers[j] by {}
        if exists|j: int| 0 <= j < offers.len() && (#[trigger] offers[j]).0 == user {
            let j = choose|j: int| 0 <= j < offers.len() && (#[trigger] offers[j]).0 == user;
            if j < last {
                assert(prefix[j].0 == user);
            }
        }
        if exists|j: int| 0 <= j < prefix.len() && (#[trigger] prefix[j]).0 == user {
            let j = choose|j: int| 0 <= j < prefix.len() && (#[trigger] prefix[j]).0 == user;
            assert(offers[j].0 == user);
        }
        assert forall|j: int|
            0 <= j < offers.len() && (#[trigger] offers[j]).0 == user && !store.contains_key(user)
                && (forall|k: int| 0 <= k < j ==> offers[k].0 != user) implies offer_all(
            store,
            offers,
        )[user] == offers[j].1 by {
            if j < last {
                assert(prefix[j].0 == user);
                assert forall|k: int| 0 <= k < j implies prefix[k].0 != user by {
                    assert(prefix[k] == offers[k]);
                }
            } else {
                assert forall|k: int| 0 <= k < prefix.len() implies (#[trigger] prefix[k]).0
                    != user by {
                    assert(prefix[k] == offers[k]);
                }
            }
        }
    }
}

/// A tick in which somebody speaks asks for nothing: its samples are only
/// added to the recordings.
pub proof fn lemma_ticks_with_speakers_ask_nothing(state: ReceiverView, speaking: Vec<SpeakerPacket>)
    requires
        speaking@.len() > 0,
    ensures
        next_action(state, VoiceEvent::VoiceTick { speaking }) == VoiceActionView::Nothing,
{
}

/// Only a user's departure hands a recording out or reports it missing, and
/// for that user; only a tick without speakers announces silence.
pub proof fn lemma_only_departures_hand_out_recordings(state: ReceiverView, event: VoiceEvent)
    ensures
        next_action(state, event) is SaveRecording ==> (event matches VoiceEvent::ClientDisconnect {
            user_id,
        } && next_action(state, event)->SaveRecording_user_id == user_id),
        next_action(state, event) is RecordingMissing ==> (event matches VoiceEvent::ClientDisconnect {
            user_id,
        } && next_action(state, event)->RecordingMissing_user_id == user_id),
        next_action(state, event) is AnnounceNoSpeakers ==> (event matches VoiceEvent::VoiceTick {
            speaking,
        } && speaking@.len() == 0),
{
}

} // verus!
