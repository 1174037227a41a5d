//! The coordinator's global guarantees, proved from the transition
//! relations that the [`crate::player::Player`] methods ensure.
//!
//! Commands and completion callbacks for one guild serialize on the
//! guild-scoped critical section, so any concurrent execution acts on the
//! guild as some sequence of transitions; the lemmas here quantify over
//! such sequences.

use vstd::prelude::*;

use crate::player::{add_transition, next_transition, Player, PlayerError, PlayerStatus};
use crate::playlist::{PlaylistItem, PLAYLIST_LIMIT};

verus! {

/// A run of play requests on one guild: `states` are the coordinator states
/// seen by the successive requests, `items[i]` and `results[i]` the request
/// and outcome of the step from `states[i]` to `states[i + 1]`.
pub open spec fn add_chain(
    states: Seq<Player>,
    guild_id: u64,
    items: Seq<PlaylistItem>,
    results: Seq<Result<PlayerStatus, PlayerError>>,
) -> bool {
    &&& states.len() == results.len() + 1
    &&& items.len() == results.len()
    &&& forall|i: int|
        0 <= i < results.len() ==> add_transition(
            states[i],
            #[trigger] states[i + 1],
            guild_id,
            items[i],
            results[i],
        )
}

/// A play request never returns a busy guild to idle.
proof fn lemma_add_keeps_busy(
    states: Seq<Player>,
    guild_id: u64,
    items: Seq<PlaylistItem>,
    results: Seq<Result<PlayerStatus, PlayerError>>,
    i: int,
    j: int,
)
    requires
        add_chain(states, guild_id, items, results),
        0 <= i <= j < states.len(),
        !states[i].is_idle(guild_id),
    ensures
        !states[j].is_idle(guild_id),
    decreases j - i,
{
    if i < j {
        lemma_add_keeps_busy(states, guild_id, items, results, i + 1, j);
    }
}

/// Single-active-track: along any sequence of play requests on one guild,
/// at most one request finds the guild idle and starts a stream; every
/// later request is queued or rejected, never started.
pub proof fn lemma_single_active_track(
    states: Seq<Player>,
    guild_id: u64,
    items: Seq<PlaylistItem>,
    results: Seq<Result<PlayerStatus, PlayerError>>,
    i: int,
    j: int,
)
    requires
        add_chain(states, guild_id, items, results),
        0 <= i < j < results.len(),
        results[i] matches Ok(PlayerStatus::Playing(_)),
    ensures
        !(results[j] matches Ok(PlayerStatus::Playing(_))),
{
    assert(add_transition(states[i], states[i + 1], guild_id, items[i], results[i]));
    assert(!states[i + 1].is_idle(guild_id));
    lemma_add_keeps_busy(states, guild_id, items, results, i + 1, j);
    assert(add_transition(states[j], states[j + 1], guild_id, items[j], results[j]));
}

/// FIFO fairness: three requests queued, in order, on a busy guild with an
/// empty queue are started in the same order by the following completions.
pub proof fn lemma_fifo_order(
    s0: Player,
    s1: Player,
    s2: Player,
    s3: Player,
    s4: Player,
    s5: Player,
    s6: Player,
    guild_id: u64,
    a: PlaylistItem,
    b: PlaylistItem,
    c: PlaylistItem,
    r1: Result<PlayerStatus, PlayerError>,
    r2: Result<PlayerStatus, PlayerError>,
    r3: Result<PlayerStatus, PlayerError>,
    x: Option<PlaylistItem>,
    y: Option<PlaylistItem>,
    z: Option<PlaylistItem>,
)
    requires
        !s0.is_idle(guild_id),
        s0.queue(guild_id).len() == 0,
        add_transition(s0, s1, guild_id, a, r1),
        add_transition(s1, s2, guild_id, b, r2),
        add_transition(s2, s3, guild_id, c, r3),
        next_transition(s3, s4, guild_id, x),
        next_transition(s4, s5, guild_id, y),
        next_transition(s5, s6, guild_id, z),
    ensures
        x == Some(a),
        y == Some(b),
        z == Some(c),
{
    assert(s3.queue(guild_id) =~= seq![a, b, c]);
    assert(s4.queue(guild_id) =~= seq![b, c]);
    assert(s5.queue(guild_id) =~= seq![c]);
}

/// A run of completion (or skip) steps on one guild: `results[i]` is what
/// the step from `states[i]` to `states[i + 1]` popped for playback.
pub open spec fn next_chain(
    states: Seq<Player>,
    guild_id: u64,
    results: Seq<Option<PlaylistItem>>,
) -> bool {
    &&& states.len() == results.len() + 1
    &&& forall|i: int|
        0 <= i < results.len() ==> next_transition(
            states[i],
            #[trigger] states[i + 1],
            guild_id,
            results[i],
        )
}

/// After `k` completion steps, the pending requests are the original queue
/// with its first `k` entries gone.
proof fn lemma_next_chain_suffix(
    states: Seq<Player>,
    guild_id: u64,
    results: Seq<Option<PlaylistItem>>,
    k: int,
)
    requires
        next_chain(states, guild_id, results),
        0 <= k <= results.len(),
        k <= states[0].queue(guild_id).len(),
    ensures
        states[k].queue(guild_id) == states[0].queue(guild_id).skip(k),
    decreases k,
{
    if k > 0 {
        lemma_next_chain_suffix(states, guild_id, results, k - 1);
        assert(next_transition(states[k - 1], states[k - 1 + 1], guild_id, results[k - 1]));
        assert(states[k].queue(guild_id) =~= states[0].queue(guild_id).skip(k));
    } else {
        assert(states[0].queue(guild_id) =~= states[0].queue(guild_id).skip(0));
    }
}

/// FIFO fairness in general: a run of completions starts the pending
/// requests in exactly their queue order.
pub proof fn lemma_completions_follow_queue_order(
    states: Seq<Player>,
    guild_id: u64,
    results: Seq<Option<PlaylistItem>>,
    i: int,
)
    requires
        next_chain(states, guild_id, results),
        0 <= i < results.len(),
        i < states[0].queue(guild_id).len(),
    ensures
        results[i] == Some(states[0].queue(guild_id)[i]),
{
    lemma_next_chain_suffix(states, guild_id, results, i);
    assert(next_transition(states[i], states[i + 1], guild_id, results[i]));
    assert(states[0].queue(guild_id).skip(i)[0] == states[0].queue(guild_id)[i]);
}

/// States and outcomes of a prefix of queueing requests: while a busy
/// guild's queue is below the capacity bound, every request is queued and
/// the queue grows by exactly one.
proof fn lemma_queued_prefix(
    states: Seq<Player>,
    guild_id: u64,
    items: Seq<PlaylistItem>,
    results: Seq<Result<PlayerStatus, PlayerError>>,
    k: int,
)
    requires
        add_chain(states, guild_id, items, results),
        !states[0].is_idle(guild_id),
        states[0].queue(guild_id).len() == 0,
        0 <= k <= results.len(),
        k <= PLAYLIST_LIMIT,
    ensures
        !states[k].is_idle(guild_id),
        states[k].queue(guild_id).len() == k,
        forall|i: int| 0 <= i < k ==> results[i] == Ok::<PlayerStatus, PlayerError>(
            PlayerStatus::Queued,
        ),
    decreases k,
{
    if k > 0 {
        lemma_queued_prefix(states, guild_id, items, results, k - 1);
        assert(add_transition(states[k - 1], states[k - 1 + 1], guild_id, items[k - 1], results[k - 1]));
    }
}

/// Capacity bound: on a busy guild with an empty queue, the first
/// [`PLAYLIST_LIMIT`] requests are queued and the one after that is
/// rejected as full.
pub proof fn lemma_capacity_bound(
    states: Seq<Player>,
    guild_id: u64,
    items: Seq<PlaylistItem>,
    results: Seq<Result<PlayerStatus, PlayerError>>,
)
    requires
        add_chain(states, guild_id, items, results),
        results.len() == PLAYLIST_LIMIT + 1,
        !states[0].is_idle(guild_id),
        states[0].queue(guild_id).len() == 0,
    ensures
        forall|i: int| 0 <= i < PLAYLIST_LIMIT ==> results[i] == Ok::<PlayerStatus, PlayerError>(
            PlayerStatus::Queued,
        ),
        results[PLAYLIST_LIMIT as int] == Err::<PlayerStatus, PlayerError>(
            PlayerError::PlaylistFull,
        ),
{
    lemma_queued_prefix(states, guild_id, items, results, PLAYLIST_LIMIT as int);
    assert(add_transition(
        states[PLAYLIST_LIMIT as int],
        states[PLAYLIST_LIMIT as int + 1],
        guild_id,
        items[PLAYLIST_LIMIT as int],
        results[PLAYLIST_LIMIT as int],
    ));
}

/// Queue cleanup: popping the last pending request deletes the guild's
/// queue record, so every subsequent snapshot of the guild is absent, not
/// an empty page.
pub proof fn lemma_cleanup_after_last_pop(
    pre: Player,
    post: Player,
    guild_id: u64,
    r: Option<PlaylistItem>,
)
    requires
        pre.queue(guild_id).len() == 1,
        next_transition(pre, post, guild_id, r),
    ensures
        !post.has_queue(guild_id),
        forall|page: usize, limit: usize|
            #[trigger] post.spec_snapshot_absent(guild_id, page, limit),
{
}

/// Idle teardown: when the track of a playing guild with an empty queue
/// ends, the completion step reports nothing to start — directing the
/// caller to stop the transport and leave the channel — the registry is
/// cleared, and the guild reads as not playing.
pub proof fn lemma_idle_teardown(pre: Player, post: Player, guild_id: u64, r: Option<PlaylistItem>)
    requires
        !pre.is_idle(guild_id),
        pre.queue(guild_id).len() == 0,
        next_transition(pre, post, guild_id, r),
    ensures
        r is None,
        post.is_idle(guild_id),
        forall|position: u64, volume: u64|
            #[trigger] post.spec_trackinfo(guild_id, position, volume) == "Not playing."@,
{
}

} // verus!
