//! The playback registry: the per-guild record of the single active track.

use std::collections::HashMap;

use vstd::prelude::*;

use crate::player::MediaInfo;

verus! {

broadcast use vstd::std_specs::hash::group_hash_axioms;

/// The track a guild is currently playing.
#[derive(Debug, Clone)]
pub struct ActiveTrack {
    /// Caller-chosen token of the transport's track handle.
    pub track_id: u64,
    /// Metadata of the stream being played.
    pub media_info: MediaInfo,
    /// The text channel where replies about this track are sent.
    pub channel_id: u64,
}

/// A guild's record in the registry.  A guild with no record is idle.
#[derive(Debug, Clone)]
pub enum RegistryEntry {
    /// A play request won the idle guild and is about to start its stream;
    /// the reservation keeps a second concurrent request from also starting.
    Reserved,
    /// A stream is running.
    Active(ActiveTrack),
}

/// Per-guild record of the currently active track.  At most one record per
/// guild, hence at most one active track per guild.
pub struct PlaybackRegistry {
    entries: HashMap<u64, RegistryEntry>,
}

impl PlaybackRegistry {
    /// The guild's record, or `None` when the guild is idle.
    pub closed spec fn entry(self, guild_id: u64) -> Option<RegistryEntry> {
        if self.entries@.contains_key(guild_id) {
            Some(self.entries@[guild_id])
        } else {
            None
        }
    }

    /// Whether the guild neither plays nor is reserved.
    pub open spec fn is_idle(self, guild_id: u64) -> bool {
        self.entry(guild_id) is None
    }

    /// The active track of the guild, if a stream is running.
    pub open spec fn active(self, guild_id: u64) -> Option<ActiveTrack> {
        match self.entry(guild_id) {
            Some(RegistryEntry::Active(track)) => Some(track),
            _ => None,
        }
    }

    /// An empty registry: every guild idle.
    pub fn new() -> (r: PlaybackRegistry)
        ensures
            forall|g: u64| #[trigger] r.entry(g) is None,
    {
        PlaybackRegistry { entries: HashMap::new() }
    }

    /// Atomically checks whether the guild is idle and, exactly then,
    /// reserves it as about to play.  Two play requests racing for the same
    /// idle guild serialize on the registry, so at most one can acquire it.
    pub fn try_acquire(&mut self, guild_id: u64) -> (r: bool)
        ensures
            r == old(self).entry(guild_id) is None,
            r ==> final(self).entry(guild_id) == Some(RegistryEntry::Reserved),
            !r ==> final(self).entry(guild_id) == old(self).entry(guild_id),
            forall|g: u64|
                g != guild_id ==> #[trigger] final(self).entry(g) == old(self).entry(g),
    {
        if self.entries.contains_key(&guild_id) {
            false
        } else {
            self.entries.insert(guild_id, RegistryEntry::Reserved);
            true
        }
    }

    /// Installs the active track, once its stream has been started.
    pub fn set(&mut self, guild_id: u64, track: ActiveTrack)
        ensures
            final(self).entry(guild_id) == Some(RegistryEntry::Active(track)),
            forall|g: u64|
                g != guild_id ==> #[trigger] final(self).entry(g) == old(self).entry(g),
    {
        self.entries.insert(guild_id, RegistryEntry::Active(track));
    }

    /// Removes the guild's record: the guild returns to idle.
    pub fn clear(&mut self, guild_id: u64)
        ensures
            final(self).entry(guild_id) is None,
            forall|g: u64|
                g != guild_id ==> #[trigger] final(self).entry(g) == old(self).entry(g),
    {
        self.entries.remove(&guild_id);
    }

    /// The active track, for read-only queries.  A reserved guild has no
    /// running stream yet, so it reads as not playing.
    pub fn get(&self, guild_id: u64) -> (r: Option<&ActiveTrack>)
        ensures
            match r {
                Some(track) => self.active(guild_id) == Some(*track),
                None => self.active(guild_id) is None,
            },
    {
        match self.entries.get(&guild_id) {
            Some(RegistryEntry::Active(track)) => Some(track),
            _ => None,
        }
    }
}

} // verus!
