//! What commands hand over once they begin, for every member of a server who
//! is in a voice channel.

use std::time::Duration;

use vstd::prelude::*;

use super::{diagnostics, music, play, playback, playback_controls, playlist, queue, voice_control};
use crate::clock;
use crate::commands::transport::TransportCommand;
use crate::gateway_control::{Answer, GatewayControl, PlaybackAction, VoiceJoinResult};
use crate::ids::{ChannelId, GuildId, UserId};
use crate::media::resolver::ResolveError;
use crate::media::track::{ResolvedTrack, TrackId, TrackRequest};
use crate::player::{PlayerManager, PlayerSnapshot};
use crate::text;
use crate::tools::ToolRun;
use crate::voice_worker::PublishedPlayback;

verus! {

/// Joining and leaving ask for the member's own channel in the server where
/// the command was invoked, and so does a change of the queue, which only asks
/// whether it is allowed.
pub proof fn law_voice_requests_name_the_members_channel(
    guild_id: GuildId,
    user_id: UserId,
    channel_id: ChannelId,
    join: Result<GatewayControl, String>,
    leave: Result<GatewayControl, String>,
    edit: Result<GatewayControl, String>,
)
    requires
        call_ensures(voice_control::join, (Some(guild_id), Some(user_id), Some(channel_id)), join),
        call_ensures(
            voice_control::leave,
            (Some(guild_id), Some(user_id), Some(channel_id)),
            leave,
        ),
        call_ensures(
            queue::require_queue_control_context,
            (Some(guild_id), Some(user_id), Some(channel_id)),
            edit,
        ),
    ensures
        join == Ok::<GatewayControl, String>(GatewayControl::JoinVoice { guild_id, channel_id }),
        leave == Ok::<GatewayControl, String>(GatewayControl::LeaveVoice { guild_id, channel_id }),
        edit == Ok::<GatewayControl, String>(
            GatewayControl::Playback { guild_id, channel_id, action: PlaybackAction::CheckContext },
        ),
{
}

/// The commands for the current track ask the member's own channel for what
/// they are named after.
pub proof fn law_transport_requests_name_the_members_channel(
    guild_id: GuildId,
    user_id: UserId,
    channel_id: ChannelId,
    skip: Result<GatewayControl, String>,
    pause: Result<GatewayControl, String>,
    resume: Result<GatewayControl, String>,
    stop: Result<GatewayControl, String>,
)
    requires
        call_ensures(
            TransportCommand::begin,
            (TransportCommand::Skip, Some(guild_id), Some(user_id), Some(channel_id)),
            skip,
        ),
        call_ensures(
            TransportCommand::begin,
            (TransportCommand::Pause, Some(guild_id), Some(user_id), Some(channel_id)),
            pause,
        ),
        call_ensures(
            TransportCommand::begin,
            (TransportCommand::Resume, Some(guild_id), Some(user_id), Some(channel_id)),
            resume,
        ),
        call_ensures(
            TransportCommand::begin,
            (TransportCommand::Stop, Some(guild_id), Some(user_id), Some(channel_id)),
            stop,
        ),
    ensures
        skip == Ok::<GatewayControl, String>(
            GatewayControl::Playback { guild_id, channel_id, action: PlaybackAction::Skip },
        ),
        pause == Ok::<GatewayControl, String>(
            GatewayControl::Playback { guild_id, channel_id, action: PlaybackAction::Pause },
        ),
        resume == Ok::<GatewayControl, String>(
            GatewayControl::Playback { guild_id, channel_id, action: PlaybackAction::Resume },
        ),
        stop == Ok::<GatewayControl, String>(
            GatewayControl::Playback { guild_id, channel_id, action: PlaybackAction::Stop },
        ),
{
}

/// A seek to a plain number of seconds asks for that many thousand
/// milliseconds; a volume from zero to a hundred is asked for as it is.
pub proof fn law_seek_and_volume_ask_for_what_was_given(
    seconds: nat,
    position: &str,
    percent: i64,
    guild_id: GuildId,
    user_id: UserId,
    channel_id: ChannelId,
    seek: Result<playback_controls::SeekCommand, String>,
    volume: Result<playback_controls::VolumeCommand, String>,
)
    requires
        position@ == text::decimal(seconds),
        seconds * 1_000 <= u64::MAX,
        0 <= percent <= 100,
        call_ensures(
            playback_controls::seek,
            (position, Some(guild_id), Some(user_id), Some(channel_id)),
            seek,
        ),
        call_ensures(
            playback_controls::volume,
            (percent, Some(guild_id), Some(user_id), Some(channel_id)),
            volume,
        ),
    ensures
        seek is Ok,
        seek->Ok_0.control == (GatewayControl::Playback {
            guild_id,
            channel_id,
            action: PlaybackAction::Seek { position_millis: (seconds * 1_000) as u64 },
        }),
        clock::whole_seconds(seek->Ok_0.position) == seconds,
        volume is Ok,
        volume->Ok_0.control == (GatewayControl::Playback {
            guild_id,
            channel_id,
            action: PlaybackAction::Volume { percent: percent as u8 },
        }),
        volume->Ok_0.percent == percent,
{
    playback_controls::law_plain_seconds_are_read(seconds);
}

/// A query that is not blank is resolved as it was typed, for the member and
/// the server; a playlist with the number of tracks that was given.
pub proof fn law_queries_are_resolved_as_typed(
    guild_id: GuildId,
    user_id: UserId,
    channel_id: ChannelId,
    query: String,
    limit: i64,
    played: Result<play::PlayRequest, String>,
    owned: Result<music::MusicRequest, String>,
    listed: Result<playlist::PlaylistRequest, String>,
)
    requires
        !text::laws::is_blank(query@),
        call_ensures(
            play::play,
            (Some(guild_id), Some(user_id), Some(channel_id), query),
            played,
        ),
        call_ensures(
            music::play,
            (Some(guild_id), Some(user_id), Some(channel_id), query),
            owned,
        ),
        call_ensures(
            playlist::playlist,
            (Some(guild_id), Some(user_id), Some(channel_id), query, Some(limit)),
            listed,
        ),
    ensures
        played is Ok,
        played->Ok_0.guild_id == guild_id && played->Ok_0.user_id == user_id,
        played->Ok_0.request@ == query@,
        owned is Ok,
        owned->Ok_0.guild_id == guild_id && owned->Ok_0.user_id == user_id,
        owned->Ok_0.channel_id == channel_id,
        owned->Ok_0.request@ == query@,
        listed matches Ok(next) ==> next.guild_id == guild_id && next.user_id == user_id
            && next.request@ == query@ && next.limit == limit && 1 <= limit <= 25,
{
    text::laws::law_trimmed_has_no_white_space_around(query@);
}

/// A resolved track goes on to the channel that the member is in by then, for
/// the same member and under the same query.
pub proof fn law_resolved_tracks_go_to_the_members_channel(
    request: play::PlayRequest,
    owner: music::MusicRequest,
    track: ResolvedTrack,
    id: TrackId,
    channel_id: ChannelId,
    played: Result<play::PlayJoin, String>,
    owned: Result<music::MusicJoin, String>,
)
    requires
        call_ensures(
            play::PlayRequest::resolved,
            (request, Ok::<ResolvedTrack, ResolveError>(track), Some(channel_id)),
            played,
        ),
        call_ensures(
            music::MusicRequest::resolved,
            (owner, Ok::<ResolvedTrack, ResolveError>(track), id),
            owned,
        ),
    ensures
        played is Ok,
        played->Ok_0.channel_id == channel_id,
        played->Ok_0.guild_id == request.guild_id,
        played->Ok_0.user_id == request.user_id,
        played->Ok_0.request == request.request,
        played->Ok_0.resolved == track,
        owned is Ok,
        owned->Ok_0.channel_id == owner.channel_id,
        owned->Ok_0.guild_id == owner.guild_id,
        owned->Ok_0.track.id == id,
        owned->Ok_0.track.request == owner.request,
        owned->Ok_0.track.requested_by.user_id == owner.user_id,
        owned->Ok_0.track.metadata == track.metadata,
        owned->Ok_0.track.locator == track.locator,
        owned->Ok_0.track.source == track.source,
{
}

/// Voice is joined, and the worker woken, in the channel and the server that
/// the command is about.
pub proof fn law_joining_and_waking_name_the_channel(
    join: play::PlayJoin,
    wake: play::PlayWake,
    listed: playlist::PlaylistJoin,
    queued: playlist::PlaylistWake,
    joined: GatewayControl,
    woken: GatewayControl,
    listing: GatewayControl,
    started: GatewayControl,
)
    requires
        call_ensures(play::PlayJoin::control, (&join,), joined),
        call_ensures(play::PlayWake::control, (&wake,), woken),
        call_ensures(playlist::PlaylistJoin::control, (&listed,), listing),
        call_ensures(playlist::PlaylistWake::control, (&queued,), started),
    ensures
        joined == (GatewayControl::JoinVoice {
            guild_id: join.guild_id,
            channel_id: join.channel_id,
        }),
        woken == (GatewayControl::Playback {
            guild_id: wake.guild_id,
            channel_id: wake.channel_id,
            action: PlaybackAction::Wake,
        }),
        listing == (GatewayControl::JoinVoice {
            guild_id: listed.guild_id,
            channel_id: listed.channel_id,
        }),
        started == (GatewayControl::Playback {
            guild_id: queued.guild_id,
            channel_id: queued.channel_id,
            action: PlaybackAction::Wake,
        }),
{
}

/// While something is typed it is looked up without the white space around
/// it; a blank value is not looked up.
pub proof fn law_typed_text_is_looked_up(
    typed: &str,
    blank: &str,
    request: Option<TrackRequest>,
    nothing: Option<TrackRequest>,
)
    requires
        !text::laws::is_blank(typed@),
        text::laws::is_blank(blank@),
        call_ensures(play::autocomplete_query, (Some(typed),), request),
        call_ensures(play::autocomplete_query, (Some(blank),), nothing),
    ensures
        request is Some,
        nothing is None,
        request->0@ == text::trimmed(typed@) || request->0@ == "ytsearch10:"@ + text::trimmed(
            typed@,
        ),
{
    text::laws::law_trimmed_has_no_white_space_around(typed@);
    text::laws::law_trimmed_has_no_white_space_around(blank@);
    play::law_typed_queries_are_searched(text::trimmed(typed@));
}

/// What is told of the queue and of the current track is the server's own; a
/// command from elsewhere is told that it belongs into a server.
pub proof fn law_playback_is_told_for_the_server(
    guild_id: GuildId,
    players: &PlayerManager,
    snapshot: PlayerSnapshot,
    listed: String,
    rendered: String,
    current: String,
    outside: String,
)
    requires
        call_ensures(PlayerManager::snapshot, (players, guild_id), snapshot),
        call_ensures(playback::render_queue, (&snapshot,), rendered),
        call_ensures(playback::queue, (Some(guild_id), players), listed),
        call_ensures(playback::nowplaying, (Some(guild_id), players), current),
        call_ensures(playback::queue, (None::<GuildId>, players), outside),
    ensures
        listed@ == rendered@,
        snapshot.now_playing is Some ==> current@ == "Now playing: "@ + playback::track_label(
            snapshot.now_playing->0,
        ) && current@.is_prefix_of(listed@),
        snapshot.now_playing is None ==> current@ == "Nothing is playing right now."@,
        outside@ == "This command can only be used in a server."@,
{
    playback::law_queue_reply_begins_with_the_current_track(
        snapshot.now_playing,
        snapshot.queue@,
    );
}

/// A worker's queue is told where there is a worker. Without one, or without a
/// current track, nothing is told to play.
pub proof fn law_worker_playback_is_told_for_the_server(
    guild_id: GuildId,
    shown: &PublishedPlayback,
    listed: String,
    rendered: String,
    missing: String,
    current: String,
    silent: String,
)
    requires
        call_ensures(music::render_queue, (shown,), rendered),
        call_ensures(music::queue, (Some(guild_id), Some(shown)), listed),
        call_ensures(music::queue, (Some(guild_id), None::<&PublishedPlayback>), missing),
        call_ensures(music::nowplaying, (Some(guild_id), Some(shown)), current),
        call_ensures(music::nowplaying, (Some(guild_id), None::<&PublishedPlayback>), silent),
    ensures
        listed@ == rendered@,
        missing@ == "There is no active player in this server."@,
        silent@ == "Nothing is playing right now."@,
        shown.current is None ==> current@ == silent@,
        shown.current is Some ==> ("🎵 **"@ + shown.current->0.metadata.title@
            + "**"@).is_prefix_of(current@),
{
    if shown.current is Some {
        music::law_current_track_is_told_in_full(shown.state, shown.current->0);
    }
}

/// The bot's health is told of each program under its own name.
pub proof fn law_health_tells_both_programs(ytdlp: &ToolRun, ffmpeg: &ToolRun, reply: String)
    requires
        call_ensures(diagnostics::health, (ytdlp, ffmpeg), reply),
    ensures
        text::contains(reply@, "yt-dlp: "@ + diagnostics::tool_state(*ytdlp) + "\nFFmpeg: "@),
        ("\nFFmpeg: "@ + diagnostics::tool_state(*ffmpeg)).is_suffix_of(reply@),
{
    reveal_strlit("**Sonoryn health**\nGateway: online\nyt-dlp: ");
    reveal_strlit("yt-dlp: ");
    reveal_strlit("\nFFmpeg: ");
    let head = "**Sonoryn health**\nGateway: online\nyt-dlp: "@;
    let first = diagnostics::tool_state(*ytdlp);
    let second = diagnostics::tool_state(*ffmpeg);
    let told = "yt-dlp: "@ + first + "\nFFmpeg: "@;
    let at = head.len() - 8;
    assert(reply@ =~= head + first + "\nFFmpeg: "@ + second);
    assert(reply@.subrange(at, at + told.len()) =~= told);
    assert(text::occurs_at(reply@, told, at));
    let end = "\nFFmpeg: "@ + second;
    assert(reply@.subrange(reply@.len() - end.len(), reply@.len() as int) =~= end);
}

/// A worker's channel is of use exactly if it is the one asked for, also where
/// the bot was there before.
pub proof fn law_voice_is_ensured_in_the_wanted_channel(
    channel_id: ChannelId,
    other: ChannelId,
    joined: Result<(), String>,
    connected: Result<(), String>,
    elsewhere: Result<(), String>,
)
    requires
        channel_id != other,
        call_ensures(
            music::ensure_voice,
            (Answer::Given(VoiceJoinResult::Joined { channel_id }), channel_id),
            joined,
        ),
        call_ensures(
            music::ensure_voice,
            (Answer::Given(VoiceJoinResult::AlreadyConnected { channel_id }), channel_id),
            connected,
        ),
        call_ensures(
            music::ensure_voice,
            (Answer::Given(VoiceJoinResult::AlreadyConnected { channel_id: other }), channel_id),
            elsewhere,
        ),
    ensures
        joined is Ok,
        connected is Ok,
        elsewhere is Err,
{
}

/// A position that a member types is the span of time that it stands for.
pub proof fn law_typed_position_is_a_span(
    seconds: nat,
    position: &str,
    span: Option<Duration>,
)
    requires
        seconds * 1_000 <= u64::MAX,
        position@ == text::decimal(seconds),
        call_ensures(playback_controls::parse_seek_position, (position,), span),
    ensures
        span is Some,
        clock::duration_nanos(span->0) == seconds * 1_000_000_000,
{
    playback_controls::law_plain_seconds_are_read(seconds);
}

} // verus!
