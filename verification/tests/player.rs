use std::time::Duration;

use sonoryn::ids::{GuildId, UserId};
use sonoryn::media::track::{
    RequestedBy, ResolvedTrack, Track, TrackId, TrackMetadata, TrackRequest, TrackSource,
};
use sonoryn::player::{LoopMode, PlayerManager};

fn resolved(id: u64, title: &str) -> ResolvedTrack {
    ResolvedTrack {
        source: TrackSource::YouTube,
        metadata: TrackMetadata {
            title: title.to_owned(),
            artist: Some("Artist".to_owned()),
            duration: Some(Duration::from_secs(60 + id)),
            artwork_url: None,
            webpage_url: format!("https://example.test/{id}"),
        },
        locator: format!("https://example.test/{id}"),
    }
}

fn track(id: u64, title: &str) -> Track {
    Track::from_resolved(
        TrackId::new(id),
        TrackRequest::new(title.to_owned()).expect("request"),
        RequestedBy::new(UserId::new(7)),
        resolved(id, title),
    )
}

fn queued_ids(players: &PlayerManager, guild: GuildId) -> Vec<u64> {
    players.snapshot(guild).queue.iter().map(|track| track.id.get()).collect()
}

#[test]
fn queue_is_fifo_and_snapshots_are_detached() {
    let guild_id = GuildId::new(42);
    let mut players = PlayerManager::new();
    assert_eq!(players.enqueue(guild_id, track(1, "first")), 1);
    assert_eq!(players.enqueue(guild_id, track(2, "second")), 2);
    let before = players.snapshot(guild_id);
    let started = players.start_next(guild_id).expect("next track");
    assert_eq!(started.id, TrackId::new(1));
    let after = players.snapshot(guild_id);
    assert_eq!(after.queue.len(), 1);
    assert_eq!(before.queue.len(), 2);
}

#[test]
fn shuffle_queued_preserves_current_track_and_membership() {
    let guild_id = GuildId::new(42);
    let mut players = PlayerManager::new();
    players.enqueue(guild_id, track(1, "current"));
    for id in 2..=7 {
        players.enqueue(guild_id, track(id, &format!("track {id}")));
    }
    players.start_next(guild_id).expect("current track");

    assert_eq!(players.shuffle_queued(guild_id), 6);
    let snapshot = players.snapshot(guild_id);
    assert_eq!(
        snapshot.now_playing.as_ref().map(|track| track.id),
        Some(TrackId::new(1))
    );
    let mut ids = snapshot.queue.iter().map(|track| track.id.get()).collect::<Vec<_>>();
    ids.sort_unstable();
    assert_eq!(ids, [2, 3, 4, 5, 6, 7]);
}

#[test]
fn shuffle_queued_handles_short_queues_without_mutation() {
    let guild_id = GuildId::new(42);
    let mut players = PlayerManager::new();
    assert_eq!(players.shuffle_queued(guild_id), 0);
    players.enqueue(guild_id, track(1, "only"));
    let before = players.snapshot(guild_id);
    assert_eq!(players.shuffle_queued(guild_id), 1);
    assert_eq!(players.snapshot(guild_id), before);
}

#[test]
fn shuffle_changes_the_order_of_a_long_queue() {
    let guild_id = GuildId::new(42);
    let mut players = PlayerManager::new();
    for id in 1..=60 {
        players.enqueue(guild_id, track(id, "track"));
    }
    let before = queued_ids(&players, guild_id);
    assert_eq!(players.shuffle_queued(guild_id), 60);
    assert_ne!(queued_ids(&players, guild_id), before);
}

#[test]
fn clear_returns_removed_state() {
    let guild_id = GuildId::new(42);
    let mut players = PlayerManager::new();
    players.enqueue(guild_id, track(1, "first"));
    let removed = players.clear(guild_id);
    assert_eq!(removed.queued_len(), 1);
    assert!(players.snapshot(guild_id).is_idle());
}

#[test]
fn fifo_transition_moves_from_idle_to_playing_to_next_track() {
    let guild = GuildId::new(42);
    let mut players = PlayerManager::new();
    players.enqueue(guild, track(1, "first"));
    players.enqueue(guild, track(2, "second"));

    let first = players.start_next(guild).expect("first track");
    assert_eq!(first.id, TrackId::new(1));
    assert_eq!(players.snapshot(guild).queued_len(), 1);

    assert!(players.complete_current(guild, first.id));
    let second = players.start_next(guild).expect("second track");
    assert_eq!(second.id, TrackId::new(2));
    assert!(players.snapshot(guild).queue.is_empty());
}

#[test]
fn stale_completion_cannot_clear_a_newer_track() {
    let guild = GuildId::new(42);
    let mut players = PlayerManager::new();
    players.enqueue(guild, track(1, "first"));
    players.enqueue(guild, track(2, "second"));

    let first = players.start_next(guild).expect("first track");
    assert!(players.finish_current(guild, first.id));
    let second = players.start_next(guild).expect("second track");

    assert!(!players.finish_current(guild, first.id));
    assert_eq!(
        players.snapshot(guild).now_playing.map(|track| track.id),
        Some(second.id)
    );
}

#[test]
fn queue_loop_requeues_completed_track_after_remaining_items() {
    let guild = GuildId::new(42);
    let mut players = PlayerManager::new();
    players.enqueue(guild, track(1, "first"));
    players.enqueue(guild, track(2, "second"));
    players.set_loop_mode(guild, LoopMode::Queue);

    let first = players.start_next(guild).expect("first track");
    assert!(players.complete_current(guild, first.id));

    let snapshot = players.snapshot(guild);
    assert_eq!(
        snapshot.queue.iter().map(|track| track.id).collect::<Vec<_>>(),
        [TrackId::new(2), TrackId::new(1)]
    );
}

#[test]
fn clear_isolated_to_one_guild_and_returns_removed_state() {
    let left = GuildId::new(1);
    let right = GuildId::new(2);
    let mut players = PlayerManager::new();
    players.enqueue(left, track(1, "left"));
    players.enqueue(right, track(2, "right"));
    players.start_next(left).expect("left track");

    let removed = players.clear(left);
    assert_eq!(removed.now_playing.map(|track| track.id), Some(TrackId::new(1)));
    assert!(players.snapshot(left).is_idle());
    assert_eq!(players.snapshot(right).queued_len(), 1);
}

#[test]
fn track_loop_plays_the_same_track_again() {
    let guild = GuildId::new(42);
    let mut players = PlayerManager::new();
    players.enqueue(guild, track(1, "first"));
    players.enqueue(guild, track(2, "second"));
    players.set_loop_mode(guild, LoopMode::Track);
    assert_eq!(players.loop_mode(guild), LoopMode::Track);

    let first = players.start_next(guild).expect("first track");
    assert!(players.complete_current(guild, first.id));
    assert_eq!(queued_ids(&players, guild), [1, 2]);
    assert_eq!(players.start_next(guild).map(|track| track.id.get()), Some(1));
    assert_eq!(queued_ids(&players, guild), [2]);
}

#[test]
fn a_skipped_track_is_not_looped() {
    let guild = GuildId::new(42);
    let mut players = PlayerManager::new();
    players.enqueue(guild, track(1, "first"));
    players.set_loop_mode(guild, LoopMode::Queue);
    let first = players.start_next(guild).expect("first track");
    assert!(players.finish_current(guild, first.id));
    assert!(players.snapshot(guild).is_idle());
}

#[test]
fn clearing_resets_the_loop_mode() {
    let guild = GuildId::new(42);
    let mut players = PlayerManager::new();
    players.set_loop_mode(guild, LoopMode::Queue);
    players.clear(guild);
    assert_eq!(players.loop_mode(guild), LoopMode::Off);
}

#[test]
fn a_playing_guild_starts_nothing_else() {
    let guild = GuildId::new(42);
    let mut players = PlayerManager::new();
    assert!(players.start_next(guild).is_none());
    players.enqueue(guild, track(1, "first"));
    players.enqueue(guild, track(2, "second"));
    assert!(players.start_next(guild).is_some());
    assert!(players.start_next(guild).is_none());
    assert_eq!(queued_ids(&players, guild), [2]);
}

#[test]
fn removing_takes_the_entry_at_the_index() {
    let guild = GuildId::new(42);
    let mut players = PlayerManager::new();
    assert!(players.remove_queued(guild, 0).is_none());
    for id in 1..=4 {
        players.enqueue(guild, track(id, "track"));
    }
    assert_eq!(players.remove_queued(guild, 1).map(|track| track.id.get()), Some(2));
    assert_eq!(queued_ids(&players, guild), [1, 3, 4]);
    assert!(players.remove_queued(guild, 3).is_none());
}

#[test]
fn moving_reorders_and_moving_back_restores() {
    let guild = GuildId::new(42);
    let mut players = PlayerManager::new();
    for id in 1..=5 {
        players.enqueue(guild, track(id, "track"));
    }
    assert_eq!(players.move_queued(guild, 1, 3).map(|track| track.id.get()), Some(2));
    assert_eq!(queued_ids(&players, guild), [1, 3, 4, 2, 5]);
    assert!(players.move_queued(guild, 3, 1).is_some());
    assert_eq!(queued_ids(&players, guild), [1, 2, 3, 4, 5]);
    assert_eq!(players.move_queued(guild, 2, 2).map(|track| track.id.get()), Some(3));
    assert!(players.move_queued(guild, 5, 0).is_none());
    assert!(players.move_queued(guild, 0, 5).is_none());
    assert_eq!(queued_ids(&players, guild), [1, 2, 3, 4, 5]);
}

#[test]
fn resolved_tracks_get_fresh_identifiers() {
    let guild = GuildId::new(42);
    let other = GuildId::new(43);
    let mut players = PlayerManager::new();
    let request = TrackRequest::new("song".to_owned()).expect("request");
    let (first, position) = players.enqueue_resolved(
        guild,
        request.clone(),
        RequestedBy::new(UserId::new(7)),
        resolved(9, "nine"),
    );
    assert_eq!((first.id.get(), position), (1, 1));
    let (second, position) = players.enqueue_resolved(
        other,
        request,
        RequestedBy::new(UserId::new(8)),
        resolved(10, "ten"),
    );
    assert_eq!((second.id.get(), position), (2, 1));
    assert_eq!(second.requested_by.user_id, UserId::new(8));
    assert_eq!(second.metadata.title, "ten");
    assert_eq!(queued_ids(&players, guild), [1]);
}
