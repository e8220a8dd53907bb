//! The concurrent maps (`dashmap::DashMap`) that hold a receiver's state:
//! which user each audio source belongs to, and the samples recorded per user.
//!
//! `DashMap` changes its contents through `&self`; every wrapper here that
//! changes a map takes it by `&mut`, so that the change is visible to the
//! contracts, and a read takes it by `&`.

use dashmap::DashMap;
use vstd::prelude::*;

verus! {

/// Audio source (SSRC) to the id of the user who speaks on it.
pub type SsrcMap = DashMap<u32, u64>;

/// User key to the samples recorded for that user.
pub type AudioMap = DashMap<String, Vec<i16>>;

#[verifier::external_type_specification]
#[verifier::external_body]
#[verifier::reject_recursive_types(K)]
#[verifier::reject_recursive_types(V)]
#[verifier::reject_recursive_types(S)]
pub struct ExDashMap<K, V, S>(DashMap<K, V, S>);

/// What a map from audio source (SSRC) to user id holds.
pub uninterp spec fn ssrc_owners(m: DashMap<u32, u64>) -> Map<u32, u64>;

/// What a map from user key to recorded samples holds, keys and samples taken
/// by their views.
pub uninterp spec fn recorded_audio(m: DashMap<String, Vec<i16>>) -> Map<Seq<char>, Seq<i16>>;

/// `DashMap::new` for the source-to-user map: the map it makes is empty.
#[verifier::external_body]
pub(crate) fn new_ssrc_map() -> (created: SsrcMap)
    ensures
        ssrc_owners(created).dom() == Set::<u32>::empty(),
{
    DashMap::new()
}

/// `DashMap::insert` for the source-to-user map: afterwards `ssrc` maps to
/// `user` and every other entry is as it was.
#[verifier::external_body]
pub(crate) fn insert_ssrc_owner(m: &mut DashMap<u32, u64>, ssrc: u32, user: u64)
    ensures
        ssrc_owners(*final(m)) == ssrc_owners(*old(m)).insert(ssrc, user),
{
    m.insert(ssrc, user);
}

/// `DashMap::get` for the source-to-user map, the entry copied out: the user
/// that `ssrc` maps to, if any.
#[verifier::external_body]
pub(crate) fn ssrc_owner(m: &DashMap<u32, u64>, ssrc: u32) -> (r: Option<u64>)
    ensures
        r == (if ssrc_owners(*m).contains_key(ssrc) {
            Some(ssrc_owners(*m)[ssrc])
        } else {
            None
        }),
{
    m.get(&ssrc).map(|entry| *entry.value())
}

/// `DashMap::new` for the recording map: the map it makes is empty.
#[verifier::external_body]
pub(crate) fn new_audio_map() -> (created: AudioMap)
    ensures
        recorded_audio(created).dom() == Set::<Seq<char>>::empty(),
{
    DashMap::new()
}

/// `DashMap::remove` for the recording map, the removed value handed out:
/// the samples stored under `key`, if any, and the map without that entry.
#[verifier::external_body]
pub(crate) fn take_recording(m: &mut DashMap<String, Vec<i16>>, key: &str) -> (r: Option<Vec<i16>>)
    ensures
        recorded_audio(*final(m)) == recorded_audio(*old(m)).remove(key@),
        match r {
            Some(v) => recorded_audio(*old(m)).contains_key(key@) && v@ == recorded_audio(
                *old(m),
            )[key@],
            None => !recorded_audio(*old(m)).contains_key(key@),
        },
{
    m.remove(key).map(|entry| entry.1)
}

/// `DashMap::insert` for the recording map: afterwards `key` maps to
/// `samples` and every other entry is as it was.
#[verifier::external_body]
pub(crate) fn store_recording(m: &mut DashMap<String, Vec<i16>>, key: String, samples: Vec<i16>)
    ensures
        recorded_audio(*final(m)) == recorded_audio(*old(m)).insert(key@, samples@),
{
    m.insert(key, samples);
}

/// `DashMap::get` for the recording map, the entry cloned out: the samples
/// stored under `key`, if any.
#[verifier::external_body]
pub(crate) fn recording(m: &DashMap<String, Vec<i16>>, key: &str) -> (r: Option<Vec<i16>>)
    ensures
        match r {
            Some(v) => recorded_audio(*m).contains_key(key@) && v@ == recorded_audio(*m)[key@],
            None => !recorded_audio(*m).contains_key(key@),
        },
{
    m.get(key).map(|entry| entry.value().clone())
}

} // verus!
