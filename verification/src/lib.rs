//! Per-guild media playback coordination.
//!
//! A chat bot plays streamed media into voice sessions for many independent
//! communities ("guilds") at once.  This library is the coordinator at the
//! center of that bot: for every guild it tracks what is currently playing,
//! what is queued, and how playback advances when a track ends, while command
//! handlers and the voice transport's completion callback may all touch the
//! same guild's state.
//!
//! The pieces:
//! - [`playlist`]: a per-guild bounded FIFO queue of pending play requests;
//! - [`registry`]: the per-guild record of the single active track;
//! - [`player`]: the session manager that decides, for each command or
//!   completion event, how the guild's state changes and what the caller must
//!   do to the transport;
//! - [`display`]: verified decimal rendering used by the duration formatter;
//! - [`query`]: normalization of user queries for the media resolver;
//! - [`laws`]: proofs of the coordinator's global guarantees (a single
//!   active track per guild, FIFO fairness, the capacity bound, queue
//!   cleanup, and idle teardown).
//!
//! All network and audio I/O (resolving a query, joining a voice channel,
//! starting or stopping a stream, sending chat replies) lives outside this
//! library; callers perform it between calls, as directed by the returned
//! decisions.

use vstd::prelude::*;

pub mod display;
pub mod laws;
pub mod player;
pub mod playlist;
pub mod query;
pub mod registry;

verus! {

} // verus!
