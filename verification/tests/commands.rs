use std::time::Duration;

use sonoryn::commands::diagnostics;
use sonoryn::commands::invoking_user_id;
use sonoryn::commands::music;
use sonoryn::commands::play;
use sonoryn::commands::play::{
    autocomplete_choice, autocomplete_choices, autocomplete_query, autocomplete_request,
    AUTOCOMPLETE_LIMIT,
};
use sonoryn::commands::playback;
use sonoryn::commands::playback::{format_duration, render_queue};
use sonoryn::commands::playback_controls;
use sonoryn::commands::playback_controls::{format_position, parse_seek_position};
use sonoryn::commands::playlist;
use sonoryn::commands::playlist::{is_http_url, playlist_limit};
use sonoryn::commands::queue;
use sonoryn::commands::queue::loop_mode_name;
use sonoryn::commands::transport::TransportCommand;
use sonoryn::commands::voice_control;
use sonoryn::gateway_control::{
    Answer, ControlFailure, GatewayControl, JoinFailure, LeaveFailure, PlaybackAction,
    PlaybackControlResult, VoiceJoinResult, VoiceLeaveResult,
};
use sonoryn::ids::{ChannelId, GuildId, UserId};
use sonoryn::media::resolver::ResolveError;
use sonoryn::media::track::{
    RequestedBy, ResolvedTrack, Track, TrackId, TrackMetadata, TrackRequest, TrackSource,
};
use sonoryn::player::{LoopMode, PlayerManager, PlayerSnapshot};
use sonoryn::tools::ToolRun;
use sonoryn::voice_worker::{
    PlaybackState, PublishedPlayback, SkipTrackResult, TrackEnqueueResult,
};

const GUILD: Option<GuildId> = Some(GuildId(1));
const USER: Option<UserId> = Some(UserId(2));
const CHANNEL: Option<ChannelId> = Some(ChannelId(3));

fn broken(message: &str) -> ResolveError {
    ResolveError::BackendFailed {
        backend: "yt-dlp".to_owned(),
        message: message.to_owned(),
    }
}

fn resolved(id: u64, title: &str) -> ResolvedTrack {
    ResolvedTrack {
        source: TrackSource::YouTube,
        metadata: TrackMetadata {
            title: title.to_owned(),
            artist: Some("Artist".to_owned()),
            duration: Some(Duration::from_secs(65)),
            artwork_url: None,
            webpage_url: format!("https://example.test/{id}"),
        },
        locator: format!("https://example.test/{id}"),
    }
}

fn track(id: u64, title: &str) -> Track {
    Track::from_resolved(
        TrackId::new(id),
        TrackRequest::new(title.to_owned()).expect("request"),
        RequestedBy::new(UserId::new(7)),
        resolved(id, title),
    )
}

fn given<T>(result: T) -> Answer<T> {
    Answer::Given(result)
}

#[test]
fn formats_track_durations() {
    assert_eq!(music::format_duration(Duration::from_secs(65)), "1:05");
    assert_eq!(music::format_duration(Duration::from_secs(3_661)), "1:01:01");
}

#[test]
fn join_result_rejects_a_different_connected_channel() {
    assert!(music::joined_channel_result(ChannelId::new(2), ChannelId::new(2)).is_ok());
    assert!(music::joined_channel_result(ChannelId::new(2), ChannelId::new(3)).is_err());
}

#[test]
fn autocomplete_turns_free_text_into_multi_result_search() {
    let request = autocomplete_request("artist song");
    assert_eq!(
        request.input(),
        format!("ytsearch{AUTOCOMPLETE_LIMIT}:artist song")
    );
}

#[test]
fn autocomplete_keeps_urls_exact() {
    let request = autocomplete_request("https://example.test/watch/1");
    assert_eq!(request.input(), "https://example.test/watch/1");
}

#[test]
fn autocomplete_uses_public_track_url_as_submitted_value() {
    let track = ResolvedTrack {
        source: TrackSource::YouTube,
        metadata: TrackMetadata {
            title: "A song".to_owned(),
            artist: Some("An artist".to_owned()),
            duration: Some(Duration::from_secs(123)),
            artwork_url: None,
            webpage_url: "https://example.test/watch/1".to_owned(),
        },
        locator: "https://example.test/watch/1".to_owned(),
    };

    let choice = autocomplete_choice(track).expect("choice");
    assert_eq!(choice.name, "A song — An artist");
    assert_eq!(choice.value, "https://example.test/watch/1");
}

#[test]
fn autocomplete_offers_a_bounded_number_of_short_addresses() {
    assert!(autocomplete_query(None).is_none());
    assert!(autocomplete_query(Some("  ")).is_none());
    assert_eq!(
        autocomplete_query(Some(" song ")).expect("request").input(),
        "ytsearch10:song"
    );
    let mut tracks = (0..15).map(|id| resolved(id, "song")).collect::<Vec<_>>();
    tracks[1].metadata.webpage_url = format!("https://example.test/{}", "x".repeat(80));
    tracks[2].metadata.artist = Some(" ".to_owned());
    tracks[3].metadata.title = "t".repeat(120);
    let choices = autocomplete_choices(tracks);
    assert_eq!(choices.len(), AUTOCOMPLETE_LIMIT);
    assert_eq!(choices[1].value, "https://example.test/2");
    assert_eq!(choices[1].name, "song");
    assert_eq!(choices[2].name.chars().count(), 100);
    assert_eq!(choices[9].value, "https://example.test/10");
}

#[test]
fn empty_queue_has_compact_response() {
    assert_eq!(render_queue(&PlayerSnapshot::default()), "The queue is empty.");
}

#[test]
fn queue_preview_is_bounded_and_neutralizes_mentions() {
    let snapshot = PlayerSnapshot {
        now_playing: Some(track(1, "@everyone *current*")),
        queue: (2..=13)
            .map(|id| track(id, &format!("track {id}")))
            .collect(),
    };

    let rendered = render_queue(&snapshot);
    assert!(rendered.contains("@\u{200b}everyone \\*current\\*"));
    assert!(rendered.contains("1. **track 2**"));
    assert!(rendered.contains("10. **track 11**"));
    assert!(!rendered.contains("11. **track 12**"));
    assert!(rendered.contains("… and 2 more."));
}

#[test]
fn queue_text_is_exact() {
    let snapshot = PlayerSnapshot {
        now_playing: None,
        queue: vec![track(2, "two")],
    };
    assert_eq!(
        render_queue(&snapshot),
        "Queue:\n1. **two** — Artist (1:05) · requested by user `7`"
    );
    let snapshot = PlayerSnapshot {
        now_playing: Some(track(1, "one")),
        queue: vec![track(2, "two")],
    };
    assert_eq!(
        render_queue(&snapshot),
        "Now playing: **one** — Artist (1:05) · requested by user `7`\n\n\
         Queue:\n1. **two** — Artist (1:05) · requested by user `7`"
    );
}

#[test]
fn duration_formats_hours_and_minutes() {
    assert_eq!(format_duration(65), "1:05");
    assert_eq!(format_duration(3_661), "1:01:01");
}

#[test]
fn seek_parser_accepts_seconds_and_clock_forms() {
    assert_eq!(parse_seek_position("90"), Some(Duration::from_secs(90)));
    assert_eq!(parse_seek_position("1:30"), Some(Duration::from_secs(90)));
    assert_eq!(
        parse_seek_position("1:02:03"),
        Some(Duration::from_secs(3_723))
    );
}

#[test]
fn seek_parser_rejects_invalid_clock_fields() {
    assert_eq!(parse_seek_position("1:75"), None);
    assert_eq!(parse_seek_position("1:60:00"), None);
    assert_eq!(parse_seek_position("1:2:70"), None);
    assert_eq!(parse_seek_position("nope"), None);
}

#[test]
fn seek_positions_render_consistently() {
    assert_eq!(format_position(Duration::from_secs(90)), "1:30");
    assert_eq!(format_position(Duration::from_secs(3_723)), "1:02:03");
}

#[test]
fn shown_positions_are_read_back() {
    for seconds in [0, 1, 59, 60, 3_599, 3_600, 86_399, 18_446_744_073_709_551] {
        let position = Duration::from_secs(seconds);
        assert_eq!(parse_seek_position(&format_position(position)), Some(position));
    }
    assert_eq!(parse_seek_position("18446744073709552"), None);
    assert_eq!(parse_seek_position(" +5 "), Some(Duration::from_secs(5)));
    assert_eq!(parse_seek_position("1:2:3:4"), None);
    assert_eq!(parse_seek_position(""), None);
}

#[test]
fn playlist_limits_are_bounded() {
    assert_eq!(playlist_limit(None), Some(10));
    assert_eq!(playlist_limit(Some(1)), Some(1));
    assert_eq!(playlist_limit(Some(25)), Some(25));
    assert_eq!(playlist_limit(Some(0)), None);
    assert_eq!(playlist_limit(Some(26)), None);
}

#[test]
fn playlist_command_requires_http_urls() {
    assert!(is_http_url("https://example.test/list"));
    assert!(is_http_url(" http://example.test/list "));
    assert!(!is_http_url("artist playlist"));
}

#[test]
fn loop_mode_names_are_stable() {
    assert_eq!(loop_mode_name(LoopMode::Off), "off");
    assert_eq!(loop_mode_name(LoopMode::Track), "track");
    assert_eq!(loop_mode_name(LoopMode::Queue), "queue");
}

#[test]
fn the_member_comes_before_the_user() {
    assert_eq!(invoking_user_id(USER, None), USER);
    assert_eq!(invoking_user_id(Some(UserId(9)), USER), Some(UserId(9)));
    assert_eq!(invoking_user_id(None, USER), USER);
    assert_eq!(invoking_user_id(None, None), None);
}

#[test]
fn play_runs_from_the_submission_to_the_reply() {
    let mut players = PlayerManager::new();
    let request = play::play(GUILD, USER, CHANNEL, "song".to_owned()).expect("request");
    assert_eq!(request.request.input(), "song");
    let join = request.resolved(Ok(resolved(1, "[Song]")), CHANNEL).expect("join");
    let wake = join
        .joined(given(VoiceJoinResult::Joined { channel_id: ChannelId(3) }), &mut players)
        .expect("wake");
    assert_eq!(wake.position, 1);
    players.start_next(GuildId(1)).expect("track");
    assert_eq!(
        wake.woken(given(PlaybackControlResult::Accepted), &players),
        "Playing **\\[Song\\]** — Artist"
    );

    let again = play::play(GUILD, USER, CHANNEL, "more".to_owned())
        .expect("request")
        .resolved(Ok(resolved(2, "More")), CHANNEL)
        .expect("join")
        .joined(
            given(VoiceJoinResult::AlreadyConnected { channel_id: ChannelId(3) }),
            &mut players,
        )
        .expect("wake");
    assert_eq!(
        again.woken(given(PlaybackControlResult::Accepted), &players),
        "Queued **More** — Artist at position 1."
    );
}

#[test]
fn play_ends_early_with_a_reply() {
    let refused = |guild, user, channel, query: &str| {
        play::play(guild, user, channel, query.to_owned()).expect_err("refusal")
    };
    assert_eq!(refused(None, USER, CHANNEL, "x"), "This command can only be used in a server.");
    assert_eq!(refused(GUILD, None, CHANNEL, "x"), "I could not determine the invoking user.");
    assert_eq!(
        refused(GUILD, USER, None, "x"),
        "Join a voice channel first, then run `/play`."
    );
    assert_eq!(refused(GUILD, USER, CHANNEL, " "), "track request cannot be empty");

    let request = || play::play(GUILD, USER, CHANNEL, "song".to_owned()).expect("request");
    assert_eq!(
        request().resolved(Err(broken("a_b")), CHANNEL).expect_err("refusal"),
        "I could not resolve that track: resolver backend \\`yt-dlp\\` exited unsuccessfully: a\\_b"
    );
    assert_eq!(
        request().resolved(Ok(resolved(1, "x")), None).expect_err("refusal"),
        "You left voice while I was resolving that track."
    );

    let mut players = PlayerManager::new();
    for (answer, reply) in [
        (
            given(VoiceJoinResult::AlreadyConnected { channel_id: ChannelId(9) }),
            "I am already connected to <#9>. Join that channel to control playback.",
        ),
        (
            given(VoiceJoinResult::InProgress { channel_id: ChannelId(9) }),
            "A voice join for <#9> is already in progress. Try `/play` again once it connects.",
        ),
        (given(VoiceJoinResult::Cancelled), "The voice join was cancelled."),
        (
            given(VoiceJoinResult::Failed(JoinFailure::TimedOut)),
            "Discord did not complete the voice rendezvous in time.",
        ),
        (Answer::Unavailable, "The Gateway control loop is unavailable."),
        (Answer::Ended, "The voice join ended before returning a result."),
    ] {
        let join = request().resolved(Ok(resolved(1, "x")), CHANNEL).expect("join");
        assert_eq!(join.joined(answer, &mut players).expect_err("refusal"), reply);
        assert!(players.snapshot(GuildId(1)).is_idle());
    }

    for (answer, reply) in [
        (
            given(PlaybackControlResult::NotConnected),
            "The voice worker disconnected before playback could start.",
        ),
        (
            given(PlaybackControlResult::WrongVoiceChannel { channel_id: ChannelId(4) }),
            "I am connected to <#4>. Join that channel to control playback.",
        ),
        (
            given(PlaybackControlResult::NothingPlaying),
            "The track was queued, but the player did not start it.",
        ),
        (given(PlaybackControlResult::AlreadyPaused), "Queued **x** — Artist."),
        (
            given(PlaybackControlResult::Failed(ControlFailure::WorkerUnavailable)),
            "The guild voice worker is unavailable.",
        ),
        (Answer::Ended, "The voice worker ended before returning a playback result."),
    ] {
        let wake = request()
            .resolved(Ok(resolved(1, "x")), CHANNEL)
            .expect("join")
            .joined(given(VoiceJoinResult::Joined { channel_id: ChannelId(3) }), &mut players)
            .expect("wake");
        assert_eq!(wake.woken(answer, &players), reply);
    }
}

#[test]
fn playlist_queues_every_track_in_order() {
    let mut players = PlayerManager::new();
    players.enqueue(GuildId(1), track(99, "before"));
    let request = playlist::playlist(
        GUILD,
        USER,
        CHANNEL,
        " https://list.test ".to_owned(),
        Some(5),
    )
    .expect("request");
    assert_eq!(request.limit, 5);
    let mut homeless = resolved(2, "two");
    homeless.metadata.webpage_url = String::new();
    let wake = request
        .resolved(Ok(vec![resolved(1, "one"), homeless]), CHANNEL)
        .expect("join")
        .joined(given(VoiceJoinResult::Joined { channel_id: ChannelId(3) }), &mut players)
        .expect("wake");
    assert_eq!((wake.added, wake.first_position), (2, 2));
    let queue = players.snapshot(GuildId(1)).queue;
    assert_eq!(
        queue.iter().map(|track| track.request.input()).collect::<Vec<_>>(),
        ["before", "https://example.test/1", " https://list.test "]
    );
    assert_eq!(queue[2].id, TrackId(2));
    assert_eq!(
        wake.woken(given(PlaybackControlResult::Accepted)),
        "Added **2** tracks from the playlist; first queue position was **2**."
    );
}

#[test]
fn playlist_ends_early_with_a_reply() {
    let refused = |channel, url: &str, limit| {
        playlist::playlist(GUILD, USER, channel, url.to_owned(), limit).expect_err("refusal")
    };
    assert_eq!(
        refused(None, "https://x", None),
        "Join a voice channel first, then run `/playlist`."
    );
    assert_eq!(
        refused(CHANNEL, "x", None),
        "`/playlist` requires an HTTP or HTTPS playlist URL."
    );
    assert_eq!(
        refused(CHANNEL, "https://x", Some(26)),
        "Playlist limit must be between 1 and 25 tracks."
    );
    let request = || {
        playlist::playlist(GUILD, USER, CHANNEL, "https://x".to_owned(), None).expect("request")
    };
    assert_eq!(
        request().resolved(Ok(Vec::new()), CHANNEL).expect_err("refusal"),
        "That playlist did not contain any playable tracks."
    );
    assert_eq!(
        request().resolved(Err(ResolveError::NoResults), CHANNEL).expect_err("refusal"),
        "I could not resolve that playlist: resolver backend returned no matching track"
    );
    assert_eq!(
        request().resolved(Ok(vec![resolved(1, "x")]), None).expect_err("refusal"),
        "You left voice while I was resolving that playlist."
    );
    let mut players = PlayerManager::new();
    let join = request().resolved(Ok(vec![resolved(1, "x")]), CHANNEL).expect("join");
    let busy = given(VoiceJoinResult::AlreadyConnected { channel_id: ChannelId(9) });
    assert_eq!(
        join.joined(busy, &mut players).expect_err("refusal"),
        "I am already connected to <#9>. Join that channel to add a playlist."
    );
    assert!(players.snapshot(GuildId(1)).is_idle());
    let wake = request()
        .resolved(Ok(vec![resolved(1, "x")]), CHANNEL)
        .expect("join")
        .joined(given(VoiceJoinResult::Joined { channel_id: ChannelId(3) }), &mut players)
        .expect("wake");
    assert_eq!(
        wake.woken(given(PlaybackControlResult::Accepted)),
        "Added **1** track from the playlist; first queue position was **1**."
    );
}

#[test]
fn seek_and_volume_send_their_requests() {
    let seek = playback_controls::seek("1:30", GUILD, USER, CHANNEL).expect("seek");
    assert_eq!(
        seek.control,
        GatewayControl::Playback {
            guild_id: GuildId(1),
            channel_id: ChannelId(3),
            action: PlaybackAction::Seek { position_millis: 90_000 },
        }
    );
    assert_eq!(seek.answered(given(PlaybackControlResult::Accepted)), "Seeked to **1:30**.");
    assert_eq!(
        playback_controls::seek("x", None, USER, CHANNEL).expect_err("refusal"),
        "Use a seek position like `90`, `1:30`, or `1:02:03`."
    );
    assert_eq!(
        playback_controls::seek("1", GUILD, USER, None).expect_err("refusal"),
        "Join my voice channel first to control playback."
    );

    let volume = playback_controls::volume(40, GUILD, USER, CHANNEL).expect("volume");
    assert_eq!(volume.percent, 40);
    assert_eq!(
        volume.answered(given(PlaybackControlResult::NothingPlaying)),
        "Volume set to **40%** for the next track."
    );
    let volume = playback_controls::volume(100, GUILD, USER, CHANNEL).expect("volume");
    assert_eq!(
        volume.answered(given(PlaybackControlResult::Accepted)),
        "Volume set to **100%**."
    );
    for percent in [-1, 101, 300] {
        assert_eq!(
            playback_controls::volume(percent, GUILD, USER, CHANNEL).expect_err("refusal"),
            "Volume must be between 0 and 100 percent."
        );
    }
}

#[test]
fn queue_changes_need_the_worker_s_consent() {
    let mut players = PlayerManager::new();
    let guild = GuildId(1);
    assert_eq!(
        queue::require_queue_control_context(GUILD, USER, CHANNEL),
        Ok(GatewayControl::Playback {
            guild_id: guild,
            channel_id: ChannelId(3),
            action: PlaybackAction::CheckContext,
        })
    );
    assert_eq!(
        queue::require_queue_control_context(GUILD, USER, None),
        Err("Join my voice channel first to edit the queue.".to_owned())
    );
    let accepted = || given(PlaybackControlResult::Accepted);
    assert_eq!(queue::shuffle(guild, accepted(), &mut players), "The queue is empty.");
    players.enqueue(guild, track(1, "one"));
    assert_eq!(
        queue::shuffle(guild, accepted(), &mut players),
        "There is only one queued track, so there is nothing to shuffle."
    );
    players.enqueue(guild, track(2, "two"));
    assert_eq!(queue::shuffle(guild, accepted(), &mut players), "Shuffled 2 queued tracks.");

    let before = players.snapshot(guild);
    for (answer, reply) in [
        (given(PlaybackControlResult::NotConnected), "I am not connected to voice here."),
        (
            given(PlaybackControlResult::WrongVoiceChannel { channel_id: ChannelId(8) }),
            "I am connected to <#8>. Join that channel to edit the queue.",
        ),
        (
            given(PlaybackControlResult::NothingPlaying),
            "The voice worker rejected the queue-control context.",
        ),
        (Answer::Unavailable, "The Gateway control loop is unavailable."),
    ] {
        assert_eq!(
            queue::loop_mode(guild, Some("queue".to_owned()), answer, &mut players),
            reply
        );
        assert_eq!(players.loop_mode(guild), LoopMode::Off);
        assert_eq!(players.snapshot(guild), before);
    }
    assert_eq!(
        queue::loop_mode(guild, None, accepted(), &mut players),
        "Loop mode: **off**."
    );
    assert_eq!(
        queue::loop_mode(guild, Some("queue".to_owned()), accepted(), &mut players),
        "Loop mode: **queue**."
    );
    assert_eq!(players.loop_mode(guild), LoopMode::Queue);
    assert_eq!(
        queue::loop_mode(guild, Some("nope".to_owned()), accepted(), &mut players),
        "That loop mode is not supported."
    );
    assert_eq!(players.loop_mode(guild), LoopMode::Queue);
    assert_eq!(queue::parse_loop_mode("track"), Some(LoopMode::Track));
}

#[test]
fn join_and_leave_are_answered() {
    assert_eq!(
        voice_control::join(GUILD, USER, CHANNEL),
        Ok(GatewayControl::JoinVoice { guild_id: GuildId(1), channel_id: ChannelId(3) })
    );
    assert_eq!(
        voice_control::join(GUILD, USER, None),
        Err("Join a voice channel first, then run `/join`.".to_owned())
    );
    assert_eq!(
        voice_control::joined(given(VoiceJoinResult::Joined { channel_id: ChannelId(3) })),
        "Connected to <#3> with DAVE/E2EE enabled."
    );
    assert_eq!(
        voice_control::joined(Answer::Ended),
        "The voice join task ended before returning a result."
    );
    let failed = JoinFailure::RequestFailed("closed".to_owned());
    assert_eq!(
        voice_control::joined(given(VoiceJoinResult::Failed(failed))),
        "Failed to request the voice join: closed"
    );
    assert_eq!(
        voice_control::leave(GUILD, USER, CHANNEL),
        Ok(GatewayControl::LeaveVoice {
            guild_id: GuildId(1),
            channel_id: ChannelId(3),
        })
    );
    assert_eq!(
        voice_control::leave(None, USER, CHANNEL),
        Err("This command can only be used in a server.".to_owned())
    );
    assert_eq!(
        voice_control::leave(GUILD, None, CHANNEL),
        Err("I could not determine the invoking user.".to_owned())
    );
    assert_eq!(
        voice_control::leave(GUILD, USER, None),
        Err("Join my voice channel first to disconnect me.".to_owned())
    );
    assert_eq!(
        voice_control::left(given(VoiceLeaveResult::WrongVoiceChannel { channel_id: ChannelId(3) })),
        "My voice channel is <#3>. Join that channel to disconnect me."
    );
    assert_eq!(
        voice_control::left(given(VoiceLeaveResult::Left { channel_id: ChannelId(3) })),
        "Disconnected from <#3>."
    );
    assert_eq!(
        voice_control::left(given(VoiceLeaveResult::CancelledJoin { channel_id: ChannelId(3) })),
        "Cancelled the pending join for <#3>."
    );
    assert_eq!(
        voice_control::left(given(VoiceLeaveResult::NotConnected)),
        "I am not connected to voice here."
    );
    let failure = LeaveFailure::WorkerStopped("closed".to_owned());
    assert_eq!(
        voice_control::left(given(VoiceLeaveResult::Failed(failure))),
        "Stopped the voice worker, but failed to leave voice: closed"
    );
    assert_eq!(
        voice_control::left(Answer::Ended),
        "The voice leave task ended before returning a result."
    );
}

#[test]
fn diagnostics_describe_the_runtime() {
    assert_eq!(diagnostics::ping(), "Sonoryn is online.");
    let found = ToolRun::Finished {
        stdout: b"\n  2026.01 `x`@y \nmore".to_vec(),
        stderr: Vec::new(),
    };
    let missing = ToolRun::NotStarted("No such file".to_owned());
    assert_eq!(
        diagnostics::health(&found, &missing),
        "**Sonoryn health**\nGateway: online\nyt-dlp: available — `2026.01 ˋxˋ＠y`\n\
         FFmpeg: unavailable (No such file)"
    );
    let quiet = ToolRun::Finished { stdout: b" ".to_vec(), stderr: Vec::new() };
    assert_eq!(diagnostics::tool_health(&quiet), "available");
    assert_eq!(
        diagnostics::tool_health(&ToolRun::Failed("exit status: 1".to_owned())),
        "failed (exit status: 1)"
    );
    assert_eq!(
        diagnostics::first_output_line(&Vec::new(), &b"on stderr".to_vec()).as_deref(),
        Some("on stderr")
    );
    assert_eq!(diagnostics::compact(&"x".repeat(121)), format!("{}…", "x".repeat(120)));
    assert_eq!(
        diagnostics::voice(GUILD, USER, CHANNEL),
        "Your cached voice channel is <#3>."
    );
    assert_eq!(
        diagnostics::voice(GUILD, USER, None),
        "I do not currently see you in a voice channel."
    );
}

#[test]
fn nowplaying_shows_the_current_track() {
    let mut players = PlayerManager::new();
    assert_eq!(playback::nowplaying(GUILD, &players), "Nothing is playing right now.");
    assert_eq!(playback::queue(GUILD, &players), "The queue is empty.");
    players.enqueue(GuildId(1), track(1, "a|b"));
    players.start_next(GuildId(1));
    assert_eq!(
        playback::nowplaying(GUILD, &players),
        "Now playing: **a\\|b** — Artist (1:05) · requested by user `7`"
    );
    assert_eq!(
        playback::nowplaying(None, &players),
        "This command can only be used in a server."
    );
}

#[test]
fn music_commands_answer_for_a_worker_with_its_own_queue() {
    let request = music::play(GUILD, USER, CHANNEL, "song".to_owned()).expect("request");
    let join = request.resolved(Ok(resolved(4, "Song")), TrackId(4)).expect("join");
    assert_eq!(join.track.requested_by.user_id, UserId(2));
    let refused = music::play(GUILD, USER, CHANNEL, "song".to_owned())
        .expect("request")
        .resolved(Err(broken("gone")), TrackId(5));
    assert_eq!(
        refused.expect_err("refusal"),
        "I couldn't resolve that track: resolver backend `yt-dlp` exited unsuccessfully: gone"
    );
    assert_eq!(
        music::ensure_voice(given(VoiceJoinResult::Joined { channel_id: ChannelId(3) }), ChannelId(3)),
        Ok(())
    );
    assert_eq!(
        music::ensure_voice(
            given(VoiceJoinResult::AlreadyConnected { channel_id: ChannelId(5) }),
            ChannelId(3)
        ),
        Err("I'm already active in <#5>. Join that channel to control playback.".to_owned())
    );
    assert_eq!(
        music::enqueued("Song", given(TrackEnqueueResult::Accepted { position: 0 })),
        "▶️ Loading **Song**."
    );
    assert_eq!(
        music::enqueued("Song", given(TrackEnqueueResult::Accepted { position: 2 })),
        "➕ Queued **Song** at position **2**."
    );
    assert_eq!(
        music::enqueued("Song", Answer::Ended),
        "The guild player ended before accepting the track."
    );
    assert_eq!(
        music::skipped(given(SkipTrackResult::Skipped { title: "Song".to_owned() })),
        "⏭️ Skipped **Song**."
    );
    assert_eq!(
        music::skipped(given(SkipTrackResult::NotConnected)),
        "I'm not connected to voice here."
    );

    let shown = PublishedPlayback {
        channel_id: ChannelId(3),
        state: PlaybackState::Playing,
        current: Some(track(1, "one")),
        queue: (2..=13).map(|id| track(id, &format!("t{id}"))).collect(),
    };
    let text = music::queue(GUILD, Some(&shown));
    assert!(text.starts_with("**Now playing:** one\n\n**Up next:**\n1. t2\n"));
    assert!(text.ends_with("10. t11\n…and 2 more."));
    assert_eq!(
        music::nowplaying(GUILD, Some(&shown)),
        "🎵 **one** — Artist\nState: **playing** · Duration: **1:05** · Requested by <@7>\n\
         https://example.test/1"
    );
    assert_eq!(music::queue(GUILD, None), "There is no active player in this server.");
    assert_eq!(music::nowplaying(GUILD, None), "Nothing is playing right now.");
    let long = PublishedPlayback {
        channel_id: ChannelId(3),
        state: PlaybackState::Idle,
        current: None,
        queue: (0..3).map(|id| track(id, &"é".repeat(400))).collect(),
    };
    let text = music::queue(GUILD, Some(&long));
    assert!(text.starts_with("**Now:** idle\n\n**Up next:**\n1. é"));
    assert!(text.ends_with("é\n…"));
    assert!(text.contains("\n2. é"));
    assert!(!text.contains("\n3. é"));
    assert!(text.len() <= 1_803);
    assert_eq!(music::playback_label(PlaybackState::Loading), "loading");
}

#[test]
fn texts_are_cut_and_escaped() {
    assert_eq!(play::truncate_chars("abcd", 3), "ab…");
    assert_eq!(play::truncate_chars("abc", 3), "abc");
    assert_eq!(play::truncate_chars("abc", 0), "");
    assert_eq!(playback::truncate_chars("abcd", 3), "abc…");
    assert_eq!(playback::truncate_chars("abc", 3), "abc");
    assert_eq!(play::escape_markdown("a*[b]@"), "a\\*\\[b\\]@");
    assert_eq!(playback::escape_markdown("a>*[b]@c"), "a\\>\\*[b]@\u{200b}c");
}

#[test]
fn play_and_playlist_name_their_requests() {
    let mut players = PlayerManager::new();
    let joining = GatewayControl::JoinVoice {
        guild_id: GuildId(1),
        channel_id: ChannelId(3),
    };
    let waking = GatewayControl::Playback {
        guild_id: GuildId(1),
        channel_id: ChannelId(3),
        action: PlaybackAction::Wake,
    };
    let joined = || given(VoiceJoinResult::Joined { channel_id: ChannelId(3) });

    let join = play::play(GUILD, USER, CHANNEL, "song".to_owned())
        .expect("request")
        .resolved(Ok(resolved(1, "x")), CHANNEL)
        .expect("join");
    assert_eq!(join.control(), joining);
    assert_eq!(join.joined(joined(), &mut players).expect("wake").control(), waking);

    let join = playlist::playlist(GUILD, USER, CHANNEL, "https://x".to_owned(), None)
        .expect("request")
        .resolved(Ok(vec![resolved(1, "x")]), CHANNEL)
        .expect("join");
    assert_eq!(join.control(), joining);
    assert_eq!(join.joined(joined(), &mut players).expect("wake").control(), waking);
}

#[test]
fn queue_positions_are_one_based() {
    let guild = GuildId(1);
    let mut players = PlayerManager::new();
    for id in 1..=3 {
        players.enqueue(guild, track(id, "song"));
    }
    let accepted = || given(PlaybackControlResult::Accepted);
    let ids = |players: &PlayerManager| -> Vec<u64> {
        players.snapshot(guild).queue.iter().map(|track| track.id.get()).collect()
    };
    let label = playback::format_track(&track(2, "song"));

    assert_eq!(
        queue::move_track(guild, 2, 1, accepted(), &mut players),
        format!("Moved {label} to position 1.")
    );
    assert_eq!(ids(&players), [2, 1, 3]);
    assert_eq!(
        queue::remove(guild, 1, accepted(), &mut players),
        format!("Removed {label} from the queue.")
    );
    assert_eq!(ids(&players), [1, 3]);
    for position in [i64::MIN, 0, 3, i64::MAX] {
        assert_eq!(
            queue::remove(guild, position, accepted(), &mut players),
            "There is no queued track at that position."
        );
        assert_eq!(
            queue::move_track(guild, 1, position, accepted(), &mut players),
            "There is no queued track at that position."
        );
    }
    let elsewhere = || {
        given(PlaybackControlResult::WrongVoiceChannel { channel_id: ChannelId(9) })
    };
    assert_eq!(
        queue::remove(guild, 1, elsewhere(), &mut players),
        "I am connected to <#9>. Join that channel to edit the queue."
    );
    assert_eq!(
        queue::move_track(guild, 1, 2, elsewhere(), &mut players),
        "I am connected to <#9>. Join that channel to edit the queue."
    );
    assert_eq!(ids(&players), [1, 3]);
}

#[test]
fn transport_commands_ask_and_answer() {
    let commands = [
        (TransportCommand::Skip, PlaybackAction::Skip, "Skipped the current track."),
        (TransportCommand::Pause, PlaybackAction::Pause, "Paused playback."),
        (TransportCommand::Resume, PlaybackAction::Resume, "Resumed playback."),
        (
            TransportCommand::Stop,
            PlaybackAction::Stop,
            "Stopped playback and cleared the queue.",
        ),
    ];
    for (command, action, done) in commands {
        assert_eq!(
            command.begin(GUILD, USER, CHANNEL),
            Ok(GatewayControl::Playback {
                guild_id: GuildId(1),
                channel_id: ChannelId(3),
                action,
            })
        );
        assert_eq!(
            command.begin(GUILD, USER, None),
            Err("Join my voice channel first to control playback.".to_owned())
        );
        assert_eq!(command.answered(given(PlaybackControlResult::Accepted)), done);
        assert_eq!(
            command.answered(given(PlaybackControlResult::NothingPlaying)),
            "Nothing is playing right now."
        );
        assert_eq!(
            command.answered(given(PlaybackControlResult::AlreadyPaused)),
            "Playback is already paused."
        );
        assert_eq!(
            command.answered(given(PlaybackControlResult::AlreadyPlaying)),
            "Playback is already running."
        );
        assert_eq!(
            command.answered(Answer::Ended),
            "The voice worker ended before returning a playback result."
        );
    }
}
