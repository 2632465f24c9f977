use std::time::Duration;

use sonoryn::history::{HistoryManager, HISTORY_LIMIT};
use sonoryn::ids::{GuildId, UserId};
use sonoryn::media::track::{
    RequestedBy, ResolvedTrack, Track, TrackId, TrackMetadata, TrackRequest, TrackSource,
};

fn track(id: u64) -> Track {
    Track::from_resolved(
        TrackId::new(id),
        TrackRequest::new(format!("track {id}")).expect("request"),
        RequestedBy::new(UserId::new(7)),
        ResolvedTrack {
            source: TrackSource::YouTube,
            metadata: TrackMetadata {
                title: format!("track {id}"),
                artist: None,
                duration: Some(Duration::from_secs(id)),
                artwork_url: None,
                webpage_url: format!("https://example.test/{id}"),
            },
            locator: format!("https://example.test/{id}"),
        },
    )
}

#[test]
fn history_is_bounded_and_keeps_newest_tracks() {
    let guild_id = GuildId::new(42);
    let mut history = HistoryManager::new();
    for id in 1..=(HISTORY_LIMIT as u64 + 3) {
        history.push(guild_id, track(id));
    }

    let snapshot = history.snapshot(guild_id);
    assert_eq!(snapshot.len(), HISTORY_LIMIT);
    assert_eq!(snapshot.first().map(|track| track.id.get()), Some(4));
    assert_eq!(
        snapshot.last().map(|track| track.id.get()),
        Some(HISTORY_LIMIT as u64 + 3)
    );
}

#[test]
fn pop_latest_is_lifo() {
    let guild_id = GuildId::new(42);
    let mut history = HistoryManager::new();
    history.push(guild_id, track(1));
    history.push(guild_id, track(2));

    assert_eq!(history.pop_latest(guild_id).map(|track| track.id.get()), Some(2));
    assert_eq!(history.pop_latest(guild_id).map(|track| track.id.get()), Some(1));
    assert!(history.pop_latest(guild_id).is_none());
}

#[test]
fn histories_of_guilds_are_apart() {
    let mut history = HistoryManager::new();
    history.push(GuildId::new(1), track(1));
    assert!(history.snapshot(GuildId::new(2)).is_empty());
    assert!(history.pop_latest(GuildId::new(2)).is_none());
    assert_eq!(history.snapshot(GuildId::new(1)).len(), 1);
}
