//! The playback session manager: per-guild decisions for play commands,
//! track completions, skips and stops, plus the duration display rule.

use vstd::prelude::*;
use vstd::string::*;

use crate::display::{decimal_string, padded2_string, spec_decimal, spec_padded2};
use crate::playlist::{spec_offset, PlaylistInfo, PlaylistItem, PlaylistStore, PLAYLIST_LIMIT};
use crate::registry::{ActiveTrack, PlaybackRegistry, RegistryEntry};

verus! {

broadcast use crate::playlist::PlaylistStore::lemma_queue_record;

/// Why a play request could not be satisfied.
#[derive(Debug, Copy, Clone, PartialEq, Eq)]
pub enum PlayerError {
    /// The media resolver found nothing for the query.
    MusicNotFound,
    /// The requesting user is not in a voice channel.
    UserOffVoiceChannel,
    /// The guild's pending queue is at its capacity bound.
    PlaylistFull,
    /// The voice transport failed to join the requested channel.
    VoiceJoinFailed,
}

/// The mathematical value of a [`MediaInfo`].
pub ghost struct MediaInfoView {
    pub title: Seq<char>,
    pub thumb: Seq<char>,
    pub artist: Seq<char>,
    pub video_duration: Option<u64>,
    pub url: Seq<char>,
    pub duration: Seq<char>,
}

/// Metadata of a resolved stream.  Immutable once resolved; an absent
/// `video_duration` marks a live, unbounded stream.
#[derive(Debug, Clone)]
pub struct MediaInfo {
    pub title: String,
    pub thumb: String,
    pub artist: String,
    /// Total length in whole seconds, absent for a live stream.
    pub video_duration: Option<u64>,
    pub url: String,
    /// The length as displayed, under the rule of [`format_duration`].
    pub duration: String,
}

impl View for MediaInfo {
    type V = MediaInfoView;

    open spec fn view(&self) -> MediaInfoView {
        MediaInfoView {
            title: self.title@,
            thumb: self.thumb@,
            artist: self.artist@,
            video_duration: self.video_duration,
            url: self.url@,
            duration: self.duration@,
        }
    }
}

impl MediaInfo {
    /// A field-by-field copy.  (`clone` is opaque to the verifier, so the
    /// library copies explicitly where the copy's value matters.)
    pub fn duplicate(&self) -> (r: MediaInfo)
        ensures
            r@ == self@,
    {
        MediaInfo {
            title: self.title.clone(),
            thumb: self.thumb.clone(),
            artist: self.artist.clone(),
            video_duration: self.video_duration,
            url: self.url.clone(),
            duration: self.duration.clone(),
        }
    }
}

/// The display rule for track lengths: `MM:SS`, or `HH:MM:SS` once the hour
/// component is nonzero, every component zero-padded to two places.
pub open spec fn spec_format_secs(total: nat) -> Seq<char> {
    let h = total / 3600;
    let m = (total / 60) % 60;
    let s = total % 60;
    if h > 0 {
        spec_padded2(h) + seq![':'] + spec_padded2(m) + seq![':'] + spec_padded2(s)
    } else {
        spec_padded2(m) + seq![':'] + spec_padded2(s)
    }
}

/// The display rule for a possibly absent track length: a stream with no
/// known duration displays as `Live`.
pub open spec fn spec_format_duration(duration: Option<u64>) -> Seq<char> {
    match duration {
        None => seq!['L', 'i', 'v', 'e'],
        Some(total) => spec_format_secs(total as nat),
    }
}

/// Formats a track length in seconds for display.
pub fn format_duration(duration: Option<u64>) -> (r: String)
    ensures
        r@ == spec_format_duration(duration),
{
    match duration {
        None => {
            let s = String::from_str("Live");
            proof {
                reveal_strlit("Live");
                assert(s@ =~= spec_format_duration(duration));
            }
            s
        },
        Some(total) => {
            let h = total / 3600;
            let m = (total / 60) % 60;
            let sec = total % 60;
            let mut out: String;
            if h > 0 {
                out = padded2_string(h);
                out.append(":");
                let ms = padded2_string(m);
                out.append(ms.as_str());
                out.append(":");
                let ss = padded2_string(sec);
                out.append(ss.as_str());
            } else {
                out = padded2_string(m);
                out.append(":");
                let ss = padded2_string(sec);
                out.append(ss.as_str());
            }
            proof {
                reveal_strlit(":");
                assert(out@ =~= spec_format_duration(duration));
            }
            out
        },
    }
}

/// The outcome of a play request.
#[derive(Debug, Clone)]
pub enum PlayerStatus {
    /// The guild was idle: the caller must start this request's stream now
    /// and then install the track with [`Player::set_active`].
    Playing(PlaylistItem),
    /// The guild was busy: the request was appended to its queue.
    Queued,
}

/// The per-guild playback coordinator: the single queue store and track
/// registry, and the decisions that drive them.
///
/// All transport and chat I/O happens outside, between calls: a
/// [`PlayerStatus::Playing`] or popped item directs the caller to join and
/// start a stream, a `None` from [`Player::next`] directs it to stop and
/// leave the channel.
pub struct Player {
    playlist: PlaylistStore,
    registry: PlaybackRegistry,
}

/// How one play request changes a guild: an idle guild is won and reserved,
/// a busy one queues the request, a full queue rejects it.
pub open spec fn add_transition(
    pre: Player,
    post: Player,
    guild_id: u64,
    item: PlaylistItem,
    r: Result<PlayerStatus, PlayerError>,
) -> bool {
    &&& post.wf()
    &&& forall|g: u64| g != guild_id ==> #[trigger] post.entry(g) == pre.entry(g)
    &&& forall|g: u64|
        #![trigger post.queue(g)]
        #![trigger post.has_queue(g)]
        g != guild_id ==> post.queue(g) == pre.queue(g) && post.has_queue(g) == pre.has_queue(g)
    &&& if pre.is_idle(guild_id) {
        &&& r == Ok::<PlayerStatus, PlayerError>(PlayerStatus::Playing(item))
        &&& post.entry(guild_id) == Some(RegistryEntry::Reserved)
        &&& post.queue(guild_id) == pre.queue(guild_id)
        &&& post.has_queue(guild_id) == pre.has_queue(guild_id)
    } else if pre.queue(guild_id).len() < PLAYLIST_LIMIT {
        &&& r == Ok::<PlayerStatus, PlayerError>(PlayerStatus::Queued)
        &&& post.entry(guild_id) == pre.entry(guild_id)
        &&& post.queue(guild_id) == pre.queue(guild_id).push(item)
        &&& post.has_queue(guild_id)
    } else {
        &&& r == Err::<PlayerStatus, PlayerError>(PlayerError::PlaylistFull)
        &&& post.entry(guild_id) == pre.entry(guild_id)
        &&& post.queue(guild_id) == pre.queue(guild_id)
        &&& post.has_queue(guild_id) == pre.has_queue(guild_id)
    }
}

/// How a track completion (or skip) changes a guild: the queue's head
/// advances to playback, or an exhausted guild returns to idle.
pub open spec fn next_transition(
    pre: Player,
    post: Player,
    guild_id: u64,
    r: Option<PlaylistItem>,
) -> bool {
    &&& post.wf()
    &&& forall|g: u64| g != guild_id ==> #[trigger] post.entry(g) == pre.entry(g)
    &&& forall|g: u64|
        #![trigger post.queue(g)]
        #![trigger post.has_queue(g)]
        g != guild_id ==> post.queue(g) == pre.queue(g) && post.has_queue(g) == pre.has_queue(g)
    &&& if pre.queue(guild_id).len() == 0 {
        &&& r is None
        &&& post.entry(guild_id) is None
        &&& !post.has_queue(guild_id)
        &&& post.queue(guild_id) == pre.queue(guild_id)
    } else {
        &&& r == Some(pre.queue(guild_id)[0])
        &&& post.entry(guild_id) == pre.entry(guild_id)
        &&& post.queue(guild_id) == pre.queue(guild_id).drop_first()
        &&& (post.has_queue(guild_id) <==> pre.queue(guild_id).len() > 1)
    }
}

/// How a stop changes a guild: queue discarded, registry cleared, idle.
pub open spec fn stop_transition(pre: Player, post: Player, guild_id: u64) -> bool {
    &&& post.wf()
    &&& forall|g: u64| g != guild_id ==> #[trigger] post.entry(g) == pre.entry(g)
    &&& forall|g: u64|
        #![trigger post.queue(g)]
        #![trigger post.has_queue(g)]
        g != guild_id ==> post.queue(g) == pre.queue(g) && post.has_queue(g) == pre.has_queue(g)
    &&& post.entry(guild_id) is None
    &&& !post.has_queue(guild_id)
    &&& post.queue(guild_id).len() == 0
}

impl Player {
    /// The guild's registry record, or `None` when the guild is idle.
    pub closed spec fn entry(self, guild_id: u64) -> Option<RegistryEntry> {
        self.registry.entry(guild_id)
    }

    /// Whether the guild neither plays nor is reserved.
    pub open spec fn is_idle(self, guild_id: u64) -> bool {
        self.entry(guild_id) is None
    }

    /// The guild's active track, if a stream is running.
    pub open spec fn active(self, guild_id: u64) -> Option<ActiveTrack> {
        match self.entry(guild_id) {
            Some(RegistryEntry::Active(track)) => Some(track),
            _ => None,
        }
    }

    /// The handle token of the guild's running stream, if any.
    pub open spec fn spec_track_id(self, guild_id: u64) -> Option<u64> {
        match self.active(guild_id) {
            Some(track) => Some(track.track_id),
            None => None,
        }
    }

    /// The guild's pending requests in playback order.
    pub closed spec fn queue(self, guild_id: u64) -> Seq<PlaylistItem> {
        self.playlist.queue(guild_id)
    }

    /// Whether the guild has a queue record.
    pub closed spec fn has_queue(self, guild_id: u64) -> bool {
        self.playlist.has_queue(guild_id)
    }

    /// The coordinator invariant: every queue is nonempty and bounded, and a
    /// guild with pending requests is never idle — its requests were queued
    /// behind a then-active track, and completions clear the queue before
    /// they clear the registry.
    pub closed spec fn wf(self) -> bool {
        &&& self.playlist.wf()
        &&& forall|g: u64|
            #[trigger] self.playlist.has_queue(g) ==> self.registry.entry(g) is Some
    }

    /// A coordinator with every guild idle and nothing queued.
    pub fn new() -> (r: Player)
        ensures
            r.wf(),
            forall|g: u64| #[trigger] r.entry(g) is None,
            forall|g: u64| !(#[trigger] r.has_queue(g)),
            forall|g: u64| (#[trigger] r.queue(g)).len() == 0,
    {
        Player { playlist: PlaylistStore::new(), registry: PlaybackRegistry::new() }
    }

    /// A play command, after its query has been resolved: wins an idle guild
    /// (the caller then starts the stream), or queues the request on a busy
    /// one, or rejects it when the queue is full.
    pub fn add(&mut self, guild_id: u64, item: PlaylistItem) -> (r: Result<
        PlayerStatus,
        PlayerError,
    >)
        requires
            old(self).wf(),
        ensures
            add_transition(*old(self), *final(self), guild_id, item, r),
    {
        if self.registry.try_acquire(guild_id) {
            Ok(PlayerStatus::Playing(item))
        } else {
            match self.playlist.insert(guild_id, item) {
                Ok(_) => Ok(PlayerStatus::Queued),
                Err(_) => Err(PlayerError::PlaylistFull),
            }
        }
    }

    /// Installs the guild's active track, once the caller has started its
    /// stream.
    pub fn set_active(&mut self, guild_id: u64, track: ActiveTrack)
        requires
            old(self).wf(),
        ensures
            final(self).wf(),
            final(self).entry(guild_id) == Some(RegistryEntry::Active(track)),
            forall|g: u64| g != guild_id ==> #[trigger] final(self).entry(g) == old(self).entry(g),
            forall|g: u64|
                #[trigger] final(self).queue(g) == old(self).queue(g) && final(self).has_queue(g)
                    == old(self).has_queue(g),
    {
        self.registry.set(guild_id, track);
    }

    /// The track-completion step, also invoked synchronously by a skip: pops
    /// the guild's next request for the caller to start, or, with nothing
    /// queued, clears the registry so the caller tears the session down.
    pub fn next(&mut self, guild_id: u64) -> (r: Option<PlaylistItem>)
        requires
            old(self).wf(),
        ensures
            next_transition(*old(self), *final(self), guild_id, r),
    {
        match self.playlist.next(guild_id) {
            None => {
                self.registry.clear(guild_id);
                None
            },
            Some(item) => Some(item),
        }
    }

    /// A user-requested skip: the completion step taken synchronously.  On
    /// an idle guild there is nothing to advance: the step returns `None`
    /// without error, and the guild stays idle.
    pub fn skip(&mut self, guild_id: u64) -> (r: Option<PlaylistItem>)
        requires
            old(self).wf(),
        ensures
            next_transition(*old(self), *final(self), guild_id, r),
    {
        self.next(guild_id)
    }

    /// A stop: discards the queue and clears the registry; the caller stops
    /// the stream and leaves the channel.  Idempotent on an idle guild.
    pub fn stop(&mut self, guild_id: u64)
        requires
            old(self).wf(),
        ensures
            stop_transition(*old(self), *final(self), guild_id),
    {
        self.playlist.reset(guild_id);
        self.registry.clear(guild_id);
    }

    /// Whether a snapshot of the guild's queue would be absent: nothing is
    /// queued, the page size is zero, or the page starts at or past the end.
    pub open spec fn spec_snapshot_absent(self, guild_id: u64, page: usize, limit: usize) -> bool {
        ||| !self.has_queue(guild_id)
        ||| limit == 0
        ||| spec_offset(page, limit) >= self.queue(guild_id).len()
    }

    /// A read-only page of the guild's queue, under the pagination rule of
    /// [`PlaylistStore::info`].
    pub fn playlist_info(&self, guild_id: u64, page: usize, limit: usize) -> (r: Option<
        PlaylistInfo,
    >)
        requires
            self.wf(),
        ensures
            r is None <==> self.spec_snapshot_absent(guild_id, page, limit),
            r matches Some(info) ==> {
                let q = self.queue(guild_id);
                let off = spec_offset(page, limit);
                let count = if limit as int <= q.len() - off {
                    limit as int
                } else {
                    q.len() - off
                };
                &&& info.limit_per_page == limit
                &&& info.total_tracks == q.len()
                &&& info.total_pages == q.len() as int / limit as int + 1
                &&& info.items@.len() == count
                &&& forall|i: int|
                    0 <= i < count ==> (#[trigger] info.items@[i]).index == off + i
                        && info.items@[i].media_info@ == q[off + i].media_info@
            },
    {
        self.playlist.info(guild_id, page, limit)
    }

    /// The guild's active track, for read-only queries.
    pub fn get(&self, guild_id: u64) -> (r: Option<&ActiveTrack>)
        ensures
            match r {
                Some(track) => self.active(guild_id) == Some(*track),
                None => self.active(guild_id) is None,
            },
    {
        self.registry.get(guild_id)
    }

    /// The handle to pause, or `None` to silently do nothing on an idle
    /// guild.
    pub fn pause(&self, guild_id: u64) -> (r: Option<u64>)
        ensures
            r == self.spec_track_id(guild_id),
    {
        match self.registry.get(guild_id) {
            Some(track) => Some(track.track_id),
            None => None,
        }
    }

    /// The handle to resume, or `None` to silently do nothing on an idle
    /// guild.
    pub fn unpause(&self, guild_id: u64) -> (r: Option<u64>)
        ensures
            r == self.spec_track_id(guild_id),
    {
        match self.registry.get(guild_id) {
            Some(track) => Some(track.track_id),
            None => None,
        }
    }

    /// The handle whose volume to change, or `None` to report that nothing
    /// plays.  The fraction itself passes through the caller unmodified.
    pub fn volume(&self, guild_id: u64) -> (r: Option<u64>)
        ensures
            r == self.spec_track_id(guild_id),
    {
        match self.registry.get(guild_id) {
            Some(track) => Some(track.track_id),
            None => None,
        }
    }

    /// The track-status line for the guild, given the transport's readings
    /// of the running stream: elapsed over total, and the volume percentage.
    pub open spec fn spec_trackinfo(self, guild_id: u64, position: u64, volume: u64) -> Seq<
        char,
    > {
        match self.active(guild_id) {
            None => "Not playing."@,
            Some(track) => "Duration: "@ + spec_format_secs(position as nat) + "/"@
                + spec_format_duration(track.media_info.video_duration) + "\nVolume: "@
                + spec_decimal(volume as nat) + "/100"@,
        }
    }

    /// Formats the guild's track status.  `position` and `volume` are the
    /// caller's readings of the running stream; they are ignored when the
    /// guild has none.
    pub fn trackinfo(&self, guild_id: u64, position: u64, volume: u64) -> (r: String)
        ensures
            r@ == self.spec_trackinfo(guild_id, position, volume),
    {
        match self.registry.get(guild_id) {
            None => String::from_str("Not playing."),
            Some(track) => {
                let mut out = String::from_str("Duration: ");
                let pos_s = format_duration(Some(position));
                out.append(pos_s.as_str());
                out.append("/");
                let dur_s = format_duration(track.media_info.video_duration);
                out.append(dur_s.as_str());
                out.append("\nVolume: ");
                let vol_s = decimal_string(volume);
                out.append(vol_s.as_str());
                out.append("/100");
                proof {
                    assert(out@ =~= self.spec_trackinfo(guild_id, position, volume));
                }
                out
            },
        }
    }
}

} // verus!
