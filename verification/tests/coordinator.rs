use bender::player::{MediaInfo, Player, PlayerError, PlayerStatus};
use bender::playlist::{PlaylistItem, PLAYLIST_LIMIT};
use bender::registry::ActiveTrack;

fn media(title: &str, duration: Option<u64>) -> MediaInfo {
    MediaInfo {
        title: title.to_string(),
        thumb: "thumb".to_string(),
        artist: "artist".to_string(),
        video_duration: duration,
        url: "https://example.test/t".to_string(),
        duration: "03:00".to_string(),
    }
}

fn item(guild_id: u64, title: &str) -> PlaylistItem {
    PlaylistItem {
        user_id: 11,
        guild_id,
        channel_id: 22,
        uri: title.to_string(),
        source: 33,
        media_info: media(title, Some(180)),
        enqueued_at: 0,
    }
}

fn active(track_id: u64, duration: Option<u64>) -> ActiveTrack {
    ActiveTrack { track_id, media_info: media("now", duration), channel_id: 22 }
}

/// Drives a winning play request to the playing state, as the command
/// handler would after starting the stream.
fn start_playing(player: &mut Player, guild_id: u64, track_id: u64) {
    match player.add(guild_id, item(guild_id, "first")) {
        Ok(PlayerStatus::Playing(won)) => {
            let track = ActiveTrack { track_id, media_info: won.media_info, channel_id: won.channel_id };
            player.set_active(guild_id, track);
        }
        other => panic!("expected to win the idle guild, got {:?}", other),
    }
}

#[test]
fn only_one_request_wins_an_idle_guild() {
    let mut player = Player::new();
    let first = player.add(7, item(7, "a"));
    assert!(matches!(first, Ok(PlayerStatus::Playing(_))));
    let second = player.add(7, item(7, "b"));
    assert!(matches!(second, Ok(PlayerStatus::Queued)));
    let third = player.add(7, item(7, "c"));
    assert!(matches!(third, Ok(PlayerStatus::Queued)));
}

#[test]
fn completions_start_requests_in_queue_order() {
    let mut player = Player::new();
    start_playing(&mut player, 7, 100);
    for title in ["a", "b", "c"] {
        assert!(matches!(player.add(7, item(7, title)), Ok(PlayerStatus::Queued)));
    }
    assert_eq!(player.next(7).unwrap().media_info.title, "a");
    assert_eq!(player.next(7).unwrap().media_info.title, "b");
    assert_eq!(player.next(7).unwrap().media_info.title, "c");
    assert!(player.next(7).is_none());
}

#[test]
fn full_queue_rejects_the_next_request() {
    let mut player = Player::new();
    start_playing(&mut player, 7, 100);
    for k in 0..PLAYLIST_LIMIT {
        let r = player.add(7, item(7, &format!("t{}", k)));
        assert!(matches!(r, Ok(PlayerStatus::Queued)), "request {} should queue", k);
    }
    let overflow = player.add(7, item(7, "overflow"));
    assert!(matches!(overflow, Err(PlayerError::PlaylistFull)));
}

#[test]
fn snapshot_is_absent_after_the_last_pop() {
    let mut player = Player::new();
    start_playing(&mut player, 7, 100);
    assert!(matches!(player.add(7, item(7, "only")), Ok(PlayerStatus::Queued)));
    assert!(player.playlist_info(7, 1, 3).is_some());
    assert_eq!(player.next(7).unwrap().media_info.title, "only");
    assert!(player.playlist_info(7, 1, 3).is_none());
}

#[test]
fn track_end_with_empty_queue_tears_down() {
    let mut player = Player::new();
    start_playing(&mut player, 7, 100);
    assert!(player.get(7).is_some());
    let next = player.next(7);
    assert!(next.is_none());
    assert!(player.get(7).is_none());
    assert_eq!(player.trackinfo(7, 0, 0), "Not playing.");
    // the guild is idle again: a new request wins it
    assert!(matches!(player.add(7, item(7, "again")), Ok(PlayerStatus::Playing(_))));
}

#[test]
fn trackinfo_reports_elapsed_total_and_volume() {
    let mut player = Player::new();
    start_playing(&mut player, 7, 100);
    player.set_active(7, active(100, Some(3661)));
    assert_eq!(player.trackinfo(7, 45, 100), "Duration: 00:45/01:01:01\nVolume: 100/100");
}

#[test]
fn trackinfo_of_live_stream() {
    let mut player = Player::new();
    start_playing(&mut player, 7, 100);
    player.set_active(7, active(100, None));
    assert_eq!(player.trackinfo(7, 125, 40), "Duration: 02:05/Live\nVolume: 40/100");
}

#[test]
fn trackinfo_when_idle() {
    let player = Player::new();
    assert_eq!(player.trackinfo(7, 45, 100), "Not playing.");
}

#[test]
fn pause_and_unpause_hand_out_the_running_handle() {
    let mut player = Player::new();
    assert!(player.pause(7).is_none());
    assert!(player.unpause(7).is_none());
    start_playing(&mut player, 7, 42);
    assert_eq!(player.pause(7), Some(42));
    assert_eq!(player.unpause(7), Some(42));
}

#[test]
fn volume_is_absent_when_idle() {
    let mut player = Player::new();
    assert!(player.volume(7).is_none());
    start_playing(&mut player, 7, 42);
    assert_eq!(player.volume(7), Some(42));
}

#[test]
fn a_reserved_guild_reads_as_not_playing() {
    let mut player = Player::new();
    let r = player.add(7, item(7, "a"));
    assert!(matches!(r, Ok(PlayerStatus::Playing(_))));
    // the stream has not started yet: no handle to pause, nothing to show
    assert!(player.get(7).is_none());
    assert!(player.pause(7).is_none());
    assert_eq!(player.trackinfo(7, 0, 0), "Not playing.");
}

#[test]
fn get_reads_back_the_installed_track() {
    let mut player = Player::new();
    start_playing(&mut player, 7, 100);
    player.set_active(7, active(100, Some(3661)));
    let track = player.get(7).unwrap();
    assert_eq!(track.track_id, 100);
    assert_eq!(track.channel_id, 22);
    assert_eq!(track.media_info.title, "now");
    assert_eq!(track.media_info.video_duration, Some(3661));
}

#[test]
fn stop_discards_queue_and_registry() {
    let mut player = Player::new();
    start_playing(&mut player, 7, 100);
    for title in ["a", "b"] {
        assert!(matches!(player.add(7, item(7, title)), Ok(PlayerStatus::Queued)));
    }
    player.stop(7);
    assert!(player.get(7).is_none());
    assert!(player.playlist_info(7, 1, 3).is_none());
    assert!(player.next(7).is_none());
}

#[test]
fn stop_is_idempotent_on_an_idle_guild() {
    let mut player = Player::new();
    player.stop(7);
    player.stop(7);
    assert!(player.get(7).is_none());
}

#[test]
fn skip_advances_like_a_completion() {
    let mut player = Player::new();
    start_playing(&mut player, 7, 100);
    assert!(matches!(player.add(7, item(7, "a")), Ok(PlayerStatus::Queued)));
    assert_eq!(player.skip(7).unwrap().media_info.title, "a");
    assert!(player.skip(7).is_none());
    assert!(player.get(7).is_none());
}

#[test]
fn guilds_do_not_interfere() {
    let mut player = Player::new();
    start_playing(&mut player, 1, 100);
    // the other guild is idle and can be won independently
    assert!(matches!(player.add(2, item(2, "x")), Ok(PlayerStatus::Playing(_))));
    player.stop(1);
    // stopping one guild leaves the other reserved
    assert!(matches!(player.add(2, item(2, "y")), Ok(PlayerStatus::Queued)));
}
