//! The playlist store: per-guild bounded FIFO queues of pending play
//! requests.  A queue is created lazily on first insert and deleted when it
//! empties, so a guild with nothing pending carries no footprint.

use std::collections::HashMap;

use vstd::prelude::*;

use crate::player::MediaInfo;

verus! {

broadcast use vstd::std_specs::hash::group_hash_axioms;

/// Capacity bound of each guild's queue.
pub const PLAYLIST_LIMIT: usize = 50;

/// A pending play request.  The store owns it from insertion until it is
/// popped for playback; ownership then transfers to the caller.
#[derive(Debug, Clone)]
pub struct PlaylistItem {
    /// The user who requested the track.
    pub user_id: u64,
    /// The guild the request belongs to.
    pub guild_id: u64,
    /// The text channel where replies about this track are sent.
    pub channel_id: u64,
    /// The query the request was resolved from.
    pub uri: String,
    /// Caller-chosen token of the resolved stream handle.
    pub source: u64,
    /// Metadata of the resolved stream.
    pub media_info: MediaInfo,
    /// When the request was enqueued, in the caller's clock.
    pub enqueued_at: u64,
}

/// One row of a paginated queue view.
#[derive(Debug, Clone)]
pub struct PlaylistItemInfo {
    /// The item's position in the full queue, 0-based.
    pub index: usize,
    /// Metadata of the item's stream.
    pub media_info: MediaInfo,
}

/// A read-only page of a guild's queue.
#[derive(Debug, Clone)]
pub struct PlaylistInfo {
    /// The page size the view was requested with.
    pub limit_per_page: usize,
    /// Total number of pages at this page size.
    pub total_pages: usize,
    /// Total number of queued tracks.
    pub total_tracks: usize,
    /// The items of the requested page.
    pub items: Vec<PlaylistItemInfo>,
}

/// Why the store refused an operation.
#[derive(Debug, Copy, Clone, PartialEq, Eq)]
pub enum PlaylistError {
    /// The guild's queue is at its capacity bound.
    PlaylistFull,
    /// The guild has nothing queued.
    PlaylistEmpty,
}

/// The element offset a page selects: pages are 1-indexed and clamped to 1.
pub open spec fn spec_offset(page: usize, limit: usize) -> int {
    let p: int = if page == 0 {
        1
    } else {
        page as int
    };
    (p - 1) * limit
}

/// Per-guild bounded FIFO queues, keyed by guild.
pub struct PlaylistStore {
    queues: HashMap<u64, Vec<PlaylistItem>>,
}

impl PlaylistStore {
    /// Whether the guild has a queue record.
    pub closed spec fn has_queue(self, guild_id: u64) -> bool {
        self.queues@.contains_key(guild_id)
    }

    /// The guild's pending requests in playback order; empty when the guild
    /// has no queue record.
    pub closed spec fn queue(self, guild_id: u64) -> Seq<PlaylistItem> {
        if self.queues@.contains_key(guild_id) {
            self.queues@[guild_id]@
        } else {
            Seq::empty()
        }
    }

    /// Every queue record is nonempty and within the capacity bound.
    pub closed spec fn wf(self) -> bool {
        forall|g: u64|
            #[trigger] self.queues@.contains_key(g) ==> 0 < self.queues@[g]@.len()
                <= PLAYLIST_LIMIT
    }

    /// Queues of other guilds are untouched.
    pub open spec fn others_unchanged(pre: PlaylistStore, post: PlaylistStore, guild_id: u64) -> bool {
        forall|g: u64|
            #![trigger post.queue(g)]
            #![trigger post.has_queue(g)]
            g != guild_id ==> post.queue(g) == pre.queue(g) && post.has_queue(g) == pre.has_queue(
                g,
            )
    }

    /// Relates a queue's contents to the existence of its record: an absent
    /// record reads as empty, and a well-formed record is nonempty and
    /// bounded.
    pub broadcast proof fn lemma_queue_record(s: PlaylistStore, g: u64)
        ensures
            #![trigger s.queue(g)]
            !s.has_queue(g) ==> s.queue(g).len() == 0,
            s.wf() ==> (s.queue(g).len() > 0 <==> s.has_queue(g)),
            s.wf() ==> s.queue(g).len() <= PLAYLIST_LIMIT,
    {
    }

    /// An empty store: no guild has a queue.
    pub fn new() -> (r: PlaylistStore)
        ensures
            r.wf(),
            forall|g: u64| !(#[trigger] r.has_queue(g)),
    {
        PlaylistStore { queues: HashMap::new() }
    }

    /// Appends a request to the guild's queue, creating the queue if absent.
    /// Fails with [`PlaylistError::PlaylistFull`] exactly when the queue
    /// already holds [`PLAYLIST_LIMIT`] items, and then changes nothing.
    pub fn insert(&mut self, guild_id: u64, item: PlaylistItem) -> (r: Result<(), PlaylistError>)
        requires
            old(self).wf(),
        ensures
            final(self).wf(),
            PlaylistStore::others_unchanged(*old(self), *final(self), guild_id),
            r is Err <==> old(self).queue(guild_id).len() == PLAYLIST_LIMIT,
            r is Err ==> r == Err::<(), PlaylistError>(PlaylistError::PlaylistFull)
                && final(self).queue(guild_id) == old(self).queue(guild_id) && final(self).has_queue(
                guild_id,
            ),
            r is Ok ==> final(self).queue(guild_id) == old(self).queue(guild_id).push(item)
                && final(self).has_queue(guild_id),
    {
        let mut q: Vec<PlaylistItem> = match self.queues.remove(&guild_id) {
            Some(q) => q,
            None => Vec::new(),
        };
        if q.len() == PLAYLIST_LIMIT {
            self.queues.insert(guild_id, q);
            proof {
                assert(self.queues@ =~= old(self).queues@);
            }
            return Err(PlaylistError::PlaylistFull);
        }
        q.push(item);
        self.queues.insert(guild_id, q);
        Ok(())
    }

    /// Unconditionally discards the guild's queue; reports whether one
    /// existed.
    pub fn reset(&mut self, guild_id: u64) -> (r: Option<()>)
        requires
            old(self).wf(),
        ensures
            final(self).wf(),
            PlaylistStore::others_unchanged(*old(self), *final(self), guild_id),
            !final(self).has_queue(guild_id),
            r is Some <==> old(self).has_queue(guild_id),
    {
        match self.queues.remove(&guild_id) {
            Some(_) => Some(()),
            None => None,
        }
    }

    /// Removes and returns the head of the guild's queue, the oldest
    /// request.  Returns `None` exactly when nothing is queued.  A queue
    /// that empties is deleted, so an idle guild keeps no record.
    pub fn next(&mut self, guild_id: u64) -> (r: Option<PlaylistItem>)
        requires
            old(self).wf(),
        ensures
            final(self).wf(),
            PlaylistStore::others_unchanged(*old(self), *final(self), guild_id),
            r is None <==> old(self).queue(guild_id).len() == 0,
            r is None ==> final(self).queue(guild_id) == old(self).queue(guild_id)
                && !final(self).has_queue(guild_id),
            r matches Some(item) ==> item == old(self).queue(guild_id)[0] && final(self).queue(
                guild_id,
            ) == old(self).queue(guild_id).drop_first() && (final(self).has_queue(guild_id)
                <==> old(self).queue(guild_id).len() > 1),
    {
        match self.queues.remove(&guild_id) {
            None => None,
            Some(mut q) => {
                let item = q.remove(0);
                if q.len() > 0 {
                    self.queues.insert(guild_id, q);
                }
                proof {
                    assert(final(self).queue(guild_id) =~= old(self).queue(
                        guild_id,
                    ).drop_first());
                }
                Some(item)
            },
        }
    }

    /// A read-only page of the guild's queue.  `page` is 1-indexed and
    /// clamped to 1.  Returns `None` exactly when the guild has nothing
    /// queued, the page size is zero, or the page starts at or past the end
    /// of the queue.  Each returned row carries the item's position in the
    /// full queue.
    pub fn info(&self, guild_id: u64, page: usize, limit: usize) -> (r: Option<PlaylistInfo>)
        requires
            self.wf(),
        ensures
            r is None <==> !self.has_queue(guild_id) || limit == 0 || spec_offset(page, limit)
                >= self.queue(guild_id).len(),
            r matches Some(info) ==> {
                let q = self.queue(guild_id);
                let off = spec_offset(page, limit);
                let count = if limit as int <= q.len() - off {
                    limit as int
                } else {
                    q.len() - off
                };
                &&& info.limit_per_page == limit
                &&& info.total_tracks == q.len()
                &&& info.total_pages == q.len() as int / limit as int + 1
                &&& info.items@.len() == count
                &&& forall|i: int|
                    0 <= i < count ==> (#[trigger] info.items@[i]).index == off + i
                        && info.items@[i].media_info@ == q[off + i].media_info@
            },
    {
        let q: &Vec<PlaylistItem> = match self.queues.get(&guild_id) {
            None => {
                return None;
            },
            Some(q) => q,
        };
        if limit == 0 {
            return None;
        }
        let p1: usize = if page == 0 {
            0
        } else {
            page - 1
        };
        if p1 > 0 && p1 >= q.len() {
            proof {
                assert(spec_offset(page, limit) >= p1) by (nonlinear_arith)
                    requires
                        limit >= 1,
                        p1 > 0,
                        spec_offset(page, limit) == p1 * limit,
                ;
            }
            return None;
        }
        if p1 > 0 && limit >= q.len() {
            proof {
                assert(spec_offset(page, limit) >= limit) by (nonlinear_arith)
                    requires
                        p1 >= 1,
                        spec_offset(page, limit) == p1 * limit,
                ;
            }
            return None;
        }
        proof {
            assert(p1 * limit <= 2401) by (nonlinear_arith)
                requires
                    p1 <= 49,
                    p1 > 0 ==> limit <= 49,
            ;
        }
        let offset: usize = p1 * limit;
        if offset >= q.len() {
            return None;
        }
        let end: usize = if limit >= q.len() - offset {
            q.len()
        } else {
            offset + limit
        };
        let mut items: Vec<PlaylistItemInfo> = Vec::new();
        let mut i: usize = offset;
        while i < end
            invariant
                offset <= i <= end <= q.len(),
                items@.len() == i - offset,
                forall|j: int|
                    0 <= j < items@.len() ==> (#[trigger] items@[j]).index == offset + j
                        && items@[j].media_info@ == q@[offset + j].media_info@,
            decreases end - i,
        {
            let media_info = q[i].media_info.duplicate();
            items.push(PlaylistItemInfo { index: i, media_info });
            i += 1;
        }
        Some(
            PlaylistInfo {
                limit_per_page: limit,
                total_pages: q.len() / limit + 1,
                total_tracks: q.len(),
                items,
            },
        )
    }
}

} // verus!
