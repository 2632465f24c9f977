//! When commands begin, what they ask for, and that their answers tell what
//! came of it.

use vstd::prelude::*;

use super::{diagnostics, music, play, playback_controls, playlist, queue, voice_control};
use crate::clock;
use crate::commands;
use crate::commands::transport::TransportCommand;
use crate::gateway_control::{
    Answer, ControlFailure, JoinFailure, LeaveFailure, PlaybackAction, PlaybackControlResult,
    VoiceJoinResult, VoiceLeaveResult,
};
use crate::ids::{ChannelId, GuildId, UserId};
use crate::media::resolver::ResolveError;
use crate::media::track::ResolvedTrack;
use crate::media::ytdlp;
use crate::number;
use crate::number::NumberFault;
use crate::player::LoopMode;
use crate::text;
use crate::voice_worker::{SkipTrackResult, TrackEnqueueResult};

verus! {

/// A command that runs in a server needs the server and the user, and says
/// which of the two it lacks. The user is the server's member where there is
/// one.
pub proof fn law_commands_need_server_and_user(
    guild_id: Option<GuildId>,
    user_id: Option<UserId>,
    member: Option<UserId>,
)
    ensures
        commands::refusal(guild_id, user_id) is None <==> guild_id is Some && user_id is Some,
        guild_id is None ==> commands::refusal(guild_id, user_id) == Some(
            "This command can only be used in a server."@,
        ),
        guild_id is Some && user_id is None ==> commands::refusal(guild_id, user_id) == Some(
            "I could not determine the invoking user."@,
        ),
        member is Some ==> commands::invoker(member, user_id) == member,
        member is None ==> commands::invoker(member, user_id) == user_id,
{
}

/// A command that acts on voice begins exactly for a server member who is in a
/// voice channel, and tells a member who is in none to join one.
pub proof fn law_voice_commands_need_a_channel(
    guild_id: Option<GuildId>,
    user_id: Option<UserId>,
    channel_id: Option<ChannelId>,
)
    ensures
        ({
            let begins = guild_id is Some && user_id is Some && channel_id is Some;
            let lacks_channel = guild_id is Some && user_id is Some && channel_id is None;
            let control = playback_controls::control_refusal(guild_id, user_id, channel_id);
            let context = queue::context_refusal(guild_id, user_id, channel_id);
            let join = voice_control::join_refusal(guild_id, user_id, channel_id);
            let leave = voice_control::leave_refusal(guild_id, user_id, channel_id);
            &&& control is None <==> begins
            &&& context is None <==> begins
            &&& join is None <==> begins
            &&& leave is None <==> begins
            &&& lacks_channel ==> {
                &&& control == Some("Join my voice channel first to control playback."@)
                &&& context == Some("Join my voice channel first to edit the queue."@)
                &&& join == Some("Join a voice channel first, then run `/join`."@)
                &&& leave == Some("Join my voice channel first to disconnect me."@)
            }
            &&& guild_id is None || user_id is None ==> {
                &&& control == commands::refusal(guild_id, user_id)
                &&& context == commands::refusal(guild_id, user_id)
                &&& join == commands::refusal(guild_id, user_id)
                &&& leave == commands::refusal(guild_id, user_id)
            }
        }),
{
}

/// Playing begins exactly for a server member in a voice channel whose query is
/// not blank. A blank query is told so only where nothing else is amiss.
pub proof fn law_play_needs_a_query(
    guild_id: Option<GuildId>,
    user_id: Option<UserId>,
    channel_id: Option<ChannelId>,
    query: Seq<char>,
)
    ensures
        ({
            let present = guild_id is Some && user_id is Some && channel_id is Some;
            let blank = text::laws::is_blank(query);
            let managed = play::begin_refusal(guild_id, user_id, channel_id, query);
            let owned = music::begin_refusal(guild_id, user_id, channel_id, query);
            &&& managed is None <==> present && !blank
            &&& owned is None <==> present && !blank
            &&& present && blank ==> managed == Some("track request cannot be empty"@) && owned
                == Some("track request cannot be empty"@)
            &&& guild_id is Some && user_id is Some && channel_id is None ==> managed == Some(
                "Join a voice channel first, then run `/play`."@,
            ) && owned == Some("Join a voice channel first, then run `/play`."@)
            &&& guild_id is None || user_id is None ==> managed == commands::refusal(guild_id, user_id)
                && owned == commands::refusal(guild_id, user_id)
        }),
{
    text::laws::law_trimmed_has_no_white_space_around(query);
}

/// A playlist begins exactly for a server member in a voice channel with a web
/// address, white space aside, and a limit from one to twenty-five tracks. The
/// limit is taken as given; ten tracks are meant where none is given.
pub proof fn law_playlist_needs_an_address_and_a_limit(
    guild_id: Option<GuildId>,
    user_id: Option<UserId>,
    channel_id: Option<ChannelId>,
    url: Seq<char>,
    limit: Option<i64>,
)
    ensures
        ({
            let present = guild_id is Some && user_id is Some && channel_id is Some;
            let address = ytdlp::begins_like_url(text::trimmed(url));
            let limited = limit is None || 1 <= limit->0 <= 25;
            let refused = playlist::begin_refusal(guild_id, user_id, channel_id, url, limit);
            &&& refused is None <==> present && address && limited
            &&& present && !address ==> refused == Some(
                "`/playlist` requires an HTTP or HTTPS playlist URL."@,
            )
            &&& present && address && !limited ==> refused == Some(
                "Playlist limit must be between 1 and 25 tracks."@,
            )
            &&& guild_id is Some && user_id is Some && channel_id is None ==> refused == Some(
                "Join a voice channel first, then run `/playlist`."@,
            )
            &&& guild_id is None || user_id is None ==> refused == commands::refusal(guild_id, user_id)
        }),
        limit is None ==> playlist::limit_of(limit) == Some(10usize),
        limit is Some && 1 <= limit->0 <= 25 ==> playlist::limit_of(limit) == Some(
            limit->0 as usize,
        ),
        limit is Some && !(1 <= limit->0 <= 25) ==> playlist::limit_of(limit) is None,
{
}

/// Seeking begins exactly where the position is read and playback control
/// begins; a position that is not read is told first.
pub proof fn law_seek_needs_a_position(
    position: Seq<char>,
    guild_id: Option<GuildId>,
    user_id: Option<UserId>,
    channel_id: Option<ChannelId>,
)
    ensures
        ({
            let refused = playback_controls::seek_refusal(position, guild_id, user_id, channel_id);
            let read = playback_controls::seek_seconds(position) is Some;
            &&& refused is None <==> read && guild_id is Some && user_id is Some && channel_id
                is Some
            &&& !read ==> refused == Some("Use a seek position like `90`, `1:30`, or `1:02:03`."@)
            &&& read ==> refused == playback_controls::control_refusal(
                guild_id,
                user_id,
                channel_id,
            )
        }),
{
}

/// The reply mentions the channel.
pub open spec fn mentions(reply: Seq<char>, channel_id: ChannelId) -> bool {
    text::contains(reply, seq!['<', '#'] + text::decimal(channel_id.0 as nat) + seq!['>'])
}

proof fn lemma_mentions(before: Seq<char>, channel_id: ChannelId, after: Seq<char>)
    requires
        before.len() >= 2,
        before[before.len() - 2] == '<',
        before[before.len() - 1] == '#',
        after.len() > 0,
        after[0] == '>',
    ensures
        mentions(commands::about_channel(before, channel_id, after), channel_id),
{
    let reply = commands::about_channel(before, channel_id, after);
    let mention = seq!['<', '#'] + text::decimal(channel_id.0 as nat) + seq!['>'];
    let at = before.len() - 2;
    assert(reply.subrange(at, at + mention.len()) =~= mention);
    assert(text::occurs_at(reply, mention, at));
}

/// A track is queued only where the bot is, or comes to be, in the channel
/// asked for. Elsewhere the reply mentions the channel that the bot is in or
/// is about to join; a failure is told in its own words.
pub proof fn law_tracks_are_queued_only_in_the_wanted_channel(
    result: VoiceJoinResult,
    wanted: ChannelId,
)
    ensures
        ({
            let managed = play::join_refusal(result, wanted);
            let listed = playlist::join_refusal(result, wanted);
            let owned = music::join_refusal(result, wanted);
            match result {
                VoiceJoinResult::Joined { channel_id } => managed is None && listed is None && (
                owned is None <==> channel_id == wanted) && (owned is Some ==> mentions(
                    owned->0,
                    channel_id,
                )),
                VoiceJoinResult::AlreadyConnected { channel_id } => {
                    &&& managed is None <==> channel_id == wanted
                    &&& listed is None <==> channel_id == wanted
                    &&& owned is None <==> channel_id == wanted
                    &&& channel_id != wanted ==> mentions(managed->0, channel_id) && mentions(
                        listed->0,
                        channel_id,
                    ) && mentions(owned->0, channel_id)
                },
                VoiceJoinResult::InProgress { channel_id } => {
                    &&& managed is Some && mentions(managed->0, channel_id)
                    &&& listed is Some && mentions(listed->0, channel_id)
                    &&& owned is Some && mentions(owned->0, channel_id)
                },
                VoiceJoinResult::Cancelled => {
                    &&& managed == Some("The voice join was cancelled."@)
                    &&& listed == Some("The voice join was cancelled."@)
                    &&& owned == Some("The voice join was cancelled."@)
                },
                VoiceJoinResult::Failed(failure) => {
                    &&& managed == Some(failure.message())
                    &&& listed == Some(failure.message())
                    &&& owned == Some(failure.message())
                },
            }
        }),
{
    reveal_strlit("I am already connected to <#");
    reveal_strlit(">. Join that channel to control playback.");
    reveal_strlit(">. Join that channel to add a playlist.");
    reveal_strlit("A voice join for <#");
    reveal_strlit("> is already in progress. Try `/play` again once it connects.");
    reveal_strlit("> is already in progress. Try again once it connects.");
    reveal_strlit("I'm already active in <#");
    reveal_strlit("A voice connection to <#");
    reveal_strlit("> is already starting. Try `/play` again once it connects.");
    match result {
        VoiceJoinResult::Joined { channel_id } => {
            lemma_mentions(
                "I'm already active in <#"@,
                channel_id,
                ">. Join that channel to control playback."@,
            );
        },
        VoiceJoinResult::AlreadyConnected { channel_id } => {
            lemma_mentions(
                "I'm already active in <#"@,
                channel_id,
                ">. Join that channel to control playback."@,
            );
            lemma_mentions(
                "I am already connected to <#"@,
                channel_id,
                ">. Join that channel to control playback."@,
            );
            lemma_mentions(
                "I am already connected to <#"@,
                channel_id,
                ">. Join that channel to add a playlist."@,
            );
        },
        VoiceJoinResult::InProgress { channel_id } => {
            lemma_mentions(
                "A voice join for <#"@,
                channel_id,
                "> is already in progress. Try `/play` again once it connects."@,
            );
            lemma_mentions(
                "A voice join for <#"@,
                channel_id,
                "> is already in progress. Try again once it connects."@,
            );
            lemma_mentions(
                "A voice connection to <#"@,
                channel_id,
                "> is already starting. Try `/play` again once it connects."@,
            );
        },
        _ => {},
    }
}

/// A resolution that failed ends the command with the failure's own words,
/// shortened and escaped for a single track. One that succeeded goes on unless
/// the user has left voice, or the playlist held nothing.
pub proof fn law_resolution_decides_whether_to_go_on(
    outcome: Result<ResolvedTrack, ResolveError>,
    tracks: Result<Vec<ResolvedTrack>, ResolveError>,
    channel_id: Option<ChannelId>,
)
    ensures
        play::resolve_refusal(outcome, channel_id) is None <==> outcome is Ok && channel_id is Some,
        outcome is Ok && channel_id is None ==> play::resolve_refusal(outcome, channel_id) == Some(
            "You left voice while I was resolving that track."@,
        ),
        outcome is Err ==> play::resolve_refusal(outcome, channel_id) == Some(
            "I could not resolve that track: "@ + play::escaped(
                play::truncated(outcome->Err_0.message(), 240),
            ),
        ),
        playlist::resolve_refusal(tracks, channel_id) is None <==> tracks is Ok
            && tracks->Ok_0@.len() > 0 && channel_id is Some,
        tracks is Ok && tracks->Ok_0@.len() == 0 ==> playlist::resolve_refusal(tracks, channel_id)
            == Some("That playlist did not contain any playable tracks."@),
        tracks is Ok && tracks->Ok_0@.len() > 0 && channel_id is None ==> playlist::resolve_refusal(
            tracks,
            channel_id,
        ) == Some("You left voice while I was resolving that playlist."@),
        tracks is Err ==> playlist::resolve_refusal(tracks, channel_id) == Some(
            "I could not resolve that playlist: "@ + tracks->Err_0.message(),
        ),
{
}

/// A request that was answered has that answer. One that could not be
/// delivered, or was dropped, is told as that failure and never as a success.
pub proof fn law_unanswered_requests_fail(
    playback: PlaybackControlResult,
    join: VoiceJoinResult,
    leave: VoiceLeaveResult,
    ended: JoinFailure,
)
    ensures
        Answer::Given(playback).outcome() == playback,
        Answer::<PlaybackControlResult>::Unavailable.outcome() == PlaybackControlResult::Failed(
            ControlFailure::ControlLoopUnavailable,
        ),
        Answer::<PlaybackControlResult>::Ended.outcome() == PlaybackControlResult::Failed(
            ControlFailure::WorkerEnded,
        ),
        Answer::Given(join).joined(ended) == join,
        Answer::<VoiceJoinResult>::Unavailable.joined(ended) == VoiceJoinResult::Failed(
            JoinFailure::ControlLoopUnavailable,
        ),
        Answer::<VoiceJoinResult>::Ended.joined(ended) == VoiceJoinResult::Failed(ended),
        Answer::Given(leave).left() == leave,
        Answer::<VoiceLeaveResult>::Unavailable.left() == VoiceLeaveResult::Failed(
            LeaveFailure::ControlLoopUnavailable,
        ),
        Answer::<VoiceLeaveResult>::Ended.left() == VoiceLeaveResult::Failed(
            LeaveFailure::LeaveTaskEnded,
        ),
{
}

/// The commands that act on the current track ask for what they are named
/// after and answer each outcome in words of its own.
pub proof fn law_transport_commands_do_what_they_say(
    command: TransportCommand,
    failure: ControlFailure,
    channel_id: ChannelId,
)
    ensures
        command is Skip <==> command.asked() is Skip,
        command is Pause <==> command.asked() is Pause,
        command is Resume <==> command.asked() is Resume,
        command is Stop <==> command.asked() is Stop,
        command.answer(PlaybackControlResult::Accepted) == match command.asked() {
            PlaybackAction::Skip => "Skipped the current track."@,
            PlaybackAction::Pause => "Paused playback."@,
            PlaybackAction::Resume => "Resumed playback."@,
            _ => "Stopped playback and cleared the queue."@,
        },
        command.answer(PlaybackControlResult::NothingPlaying) == "Nothing is playing right now."@,
        command.answer(PlaybackControlResult::NotConnected) == "I am not connected to voice here."@,
        command.answer(PlaybackControlResult::AlreadyPaused) == "Playback is already paused."@,
        command.answer(PlaybackControlResult::AlreadyPlaying) == "Playback is already running."@,
        command.answer(PlaybackControlResult::Failed(failure)) == failure.message(),
        mentions(
            command.answer(PlaybackControlResult::WrongVoiceChannel { channel_id }),
            channel_id,
        ),
{
    reveal_strlit("I am connected to <#");
    reveal_strlit(">. Join that channel to control playback.");
    lemma_mentions(
        "I am connected to <#"@,
        channel_id,
        ">. Join that channel to control playback."@,
    );
}

/// An accepted seek tells the position, a volume the percentage that was set,
/// also where it counts only from the next track on. What was refused is told
/// as that.
pub proof fn law_seek_and_volume_tell_what_was_set(
    seek: playback_controls::SeekCommand,
    volume: playback_controls::VolumeCommand,
    failure: ControlFailure,
    channel_id: ChannelId,
)
    ensures
        seek.answer(PlaybackControlResult::Accepted) == "Seeked to **"@ + number::clock_text(
            clock::whole_seconds(seek.position),
        ) + "**."@,
        seek.answer(PlaybackControlResult::NothingPlaying) == "Nothing is playing right now."@,
        seek.answer(PlaybackControlResult::NotConnected) == "I am not connected to voice here."@,
        seek.answer(PlaybackControlResult::Failed(failure)) == failure.message(),
        mentions(
            seek.answer(PlaybackControlResult::WrongVoiceChannel { channel_id }),
            channel_id,
        ),
        volume.answer(PlaybackControlResult::Accepted) == "Volume set to **"@ + text::decimal(
            volume.percent as nat,
        ) + "%**."@,
        volume.answer(PlaybackControlResult::NothingPlaying) == "Volume set to **"@ + text::decimal(
            volume.percent as nat,
        ) + "%** for the next track."@,
        volume.answer(PlaybackControlResult::NotConnected) == "I am not connected to voice here."@,
        volume.answer(PlaybackControlResult::Failed(failure)) == failure.message(),
        mentions(
            volume.answer(PlaybackControlResult::WrongVoiceChannel { channel_id }),
            channel_id,
        ),
        forall|odd: PlaybackControlResult|
            odd is AlreadyPaused || odd is AlreadyPlaying ==> #[trigger] seek.answer(odd)
                == "The voice worker rejected the seek request."@,
        forall|odd: PlaybackControlResult|
            odd is AlreadyPaused || odd is AlreadyPlaying ==> #[trigger] volume.answer(odd)
                == "The voice worker rejected the volume request."@,
{
    reveal_strlit("I am connected to <#");
    reveal_strlit(">. Join that channel to control playback.");
    lemma_mentions(
        "I am connected to <#"@,
        channel_id,
        ">. Join that channel to control playback."@,
    );
}

/// A played track is told to play exactly when it is the current one, and
/// otherwise at which position it waits.
pub proof fn law_play_tells_whether_the_track_plays(
    wake: play::PlayWake,
    failure: ControlFailure,
    channel_id: ChannelId,
    playing: bool,
)
    ensures
        wake.answer(PlaybackControlResult::Accepted, true) == "Playing "@ + play::track_label(
            wake.track,
        ),
        wake.answer(PlaybackControlResult::Accepted, false) == "Queued "@ + play::track_label(
            wake.track,
        ) + " at position "@ + text::decimal(wake.position as nat) + "."@,
        wake.answer(PlaybackControlResult::AlreadyPlaying, playing) == "Queued "@
            + play::track_label(wake.track) + "."@,
        wake.answer(PlaybackControlResult::AlreadyPaused, playing) == "Queued "@
            + play::track_label(wake.track) + "."@,
        wake.answer(PlaybackControlResult::NothingPlaying, playing)
            == "The track was queued, but the player did not start it."@,
        wake.answer(PlaybackControlResult::NotConnected, playing)
            == "The voice worker disconnected before playback could start."@,
        wake.answer(PlaybackControlResult::Failed(failure), playing) == failure.message(),
        mentions(
            wake.answer(PlaybackControlResult::WrongVoiceChannel { channel_id }, playing),
            channel_id,
        ),
{
    reveal_strlit("I am connected to <#");
    reveal_strlit(">. Join that channel to control playback.");
    lemma_mentions(
        "I am connected to <#"@,
        channel_id,
        ">. Join that channel to control playback."@,
    );
}

/// A playlist is told with the number of its tracks, one or several, and the
/// position of the first.
pub proof fn law_playlist_tells_how_many_and_where(
    wake: playlist::PlaylistWake,
    failure: ControlFailure,
    channel_id: ChannelId,
)
    ensures
        wake.added == 1 ==> wake.answer(PlaybackControlResult::Accepted)
            == "Added **1** track from the playlist; first queue position was **"@ + text::decimal(
            wake.first_position as nat,
        ) + "**."@,
        wake.added != 1 ==> wake.answer(PlaybackControlResult::Accepted) == "Added **"@
            + text::decimal(wake.added as nat)
            + "** tracks from the playlist; first queue position was **"@ + text::decimal(
            wake.first_position as nat,
        ) + "**."@,
        wake.answer(PlaybackControlResult::AlreadyPlaying) == "Added **"@ + text::decimal(
            wake.added as nat,
        ) + "** playlist tracks to the queue."@,
        wake.answer(PlaybackControlResult::AlreadyPaused) == wake.answer(
            PlaybackControlResult::AlreadyPlaying,
        ),
        wake.answer(PlaybackControlResult::NothingPlaying)
            == "The playlist was queued, but the player did not start it."@,
        wake.answer(PlaybackControlResult::NotConnected)
            == "The playlist was queued, but the voice worker disconnected before playback started."@,
        wake.answer(PlaybackControlResult::Failed(failure)) == failure.message(),
        mentions(
            wake.answer(PlaybackControlResult::WrongVoiceChannel { channel_id }),
            channel_id,
        ),
{
    reveal_strlit("The playlist was queued, but I am connected to <#");
    reveal_strlit(">.");
    lemma_mentions("The playlist was queued, but I am connected to <#"@, channel_id, ">."@);
    reveal_strlit("");
    reveal_strlit("s");
    reveal_strlit("Added **");
    reveal_strlit("** track");
    reveal_strlit(" from the playlist; first queue position was **");
    reveal_strlit("Added **1** track from the playlist; first queue position was **");
    reveal_strlit("** tracks from the playlist; first queue position was **");
    let position = text::decimal(wake.first_position as nat);
    let reply = wake.answer(PlaybackControlResult::Accepted);
    if wake.added == 1 {
        assert(text::decimal(1) =~= seq!['1']);
        assert(reply =~= "Added **1** track from the playlist; first queue position was **"@
            + position + "**."@);
    } else {
        assert("** track"@ + "s"@ + " from the playlist; first queue position was **"@
            =~= "** tracks from the playlist; first queue position was **"@);
        assert(reply =~= "Added **"@ + text::decimal(wake.added as nat)
            + "** tracks from the playlist; first queue position was **"@ + position + "**."@);
    }
}

/// The queue is changed only where the voice worker accepts that. Every other
/// outcome ends the command and is told.
pub proof fn law_queue_changes_need_consent(
    result: PlaybackControlResult,
    failure: ControlFailure,
    channel_id: ChannelId,
)
    ensures
        queue::check_refusal(result) is None <==> result == PlaybackControlResult::Accepted,
        queue::check_refusal(PlaybackControlResult::NotConnected) == Some(
            "I am not connected to voice here."@,
        ),
        queue::check_refusal(PlaybackControlResult::Failed(failure)) == Some(failure.message()),
        mentions(
            queue::check_refusal(PlaybackControlResult::WrongVoiceChannel { channel_id })->0,
            channel_id,
        ),
        result is NothingPlaying || result is AlreadyPaused || result is AlreadyPlaying
            ==> queue::check_refusal(result) == Some(
            "The voice worker rejected the queue-control context."@,
        ),
{
    reveal_strlit("I am connected to <#");
    reveal_strlit(">. Join that channel to edit the queue.");
    lemma_mentions("I am connected to <#"@, channel_id, ">. Join that channel to edit the queue."@);
}

/// Shuffling tells how many tracks were shuffled, or that there were too few.
/// A queue position is one of the queued tracks, counted from one.
pub proof fn law_shuffle_and_positions_count_the_queue(count: nat, position: i64)
    ensures
        queue::shuffle_answer(0) == "The queue is empty."@,
        queue::shuffle_answer(1)
            == "There is only one queued track, so there is nothing to shuffle."@,
        count >= 2 ==> queue::shuffle_answer(count) == "Shuffled "@ + text::decimal(count)
            + " queued tracks."@,
        queue::is_position(position, count) <==> exists|i: int|
            0 <= i < count && #[trigger] (i + 1) == position,
{
    if queue::is_position(position, count) {
        let i = position - 1;
        assert(i + 1 == position);
    }
}

/// A voice join or leave is answered by a mention of the channel that it was
/// about, or in the words of the failure.
pub proof fn law_joining_and_leaving_are_told(
    channel_id: ChannelId,
    join: JoinFailure,
    leave: LeaveFailure,
)
    ensures
        voice_control::join_answer(VoiceJoinResult::Joined { channel_id }) == "Connected to <#"@
            + text::decimal(channel_id.0 as nat) + "> with DAVE/E2EE enabled."@,
        voice_control::join_answer(VoiceJoinResult::AlreadyConnected { channel_id })
            == "I am already connected to <#"@ + text::decimal(channel_id.0 as nat) + ">."@,
        voice_control::join_answer(VoiceJoinResult::InProgress { channel_id })
            == "A voice join for <#"@ + text::decimal(channel_id.0 as nat)
            + "> is already in progress."@,
        voice_control::join_answer(VoiceJoinResult::Cancelled) == "The voice join was cancelled."@,
        voice_control::join_answer(VoiceJoinResult::Failed(join)) == join.message(),
        voice_control::leave_answer(VoiceLeaveResult::Left { channel_id })
            == "Disconnected from <#"@ + text::decimal(channel_id.0 as nat) + ">."@,
        voice_control::leave_answer(VoiceLeaveResult::CancelledJoin { channel_id })
            == "Cancelled the pending join for <#"@ + text::decimal(channel_id.0 as nat) + ">."@,
        voice_control::leave_answer(VoiceLeaveResult::NotConnected)
            == "I am not connected to voice here."@,
        voice_control::leave_answer(VoiceLeaveResult::WrongVoiceChannel { channel_id })
            == "My voice channel is <#"@ + text::decimal(channel_id.0 as nat)
            + ">. Join that channel to disconnect me."@,
        voice_control::leave_answer(VoiceLeaveResult::Failed(leave)) == leave.message(),
{
}

/// A failure that carries an error tells it behind what failed.
pub proof fn law_failures_tell_their_errors(error: String)
    ensures
        error@.is_suffix_of(JoinFailure::RequestFailed(error).message()),
        error@.is_suffix_of(JoinFailure::SessionFailed(error).message()),
        error@.is_suffix_of(LeaveFailure::JoinCancelled(error).message()),
        error@.is_suffix_of(LeaveFailure::WorkerStopped(error).message()),
        "Failed to request the voice join: "@.is_prefix_of(
            JoinFailure::RequestFailed(error).message(),
        ),
        "Failed to establish the Discord voice session: "@.is_prefix_of(
            JoinFailure::SessionFailed(error).message(),
        ),
        "Cancelled the pending join, but failed to leave voice: "@.is_prefix_of(
            LeaveFailure::JoinCancelled(error).message(),
        ),
        "Stopped the voice worker, but failed to leave voice: "@.is_prefix_of(
            LeaveFailure::WorkerStopped(error).message(),
        ),
{
    lemma_behind("Failed to request the voice join: "@, error@);
    lemma_behind("Failed to establish the Discord voice session: "@, error@);
    lemma_behind("Cancelled the pending join, but failed to leave voice: "@, error@);
    lemma_behind("Stopped the voice worker, but failed to leave voice: "@, error@);
}

proof fn lemma_behind(first: Seq<char>, second: Seq<char>)
    ensures
        first.is_prefix_of(first + second),
        second.is_suffix_of(first + second),
{
    let whole = first + second;
    assert(whole.subrange(0, first.len() as int) =~= first);
    assert(whole.subrange(whole.len() - second.len(), whole.len() as int) =~= second);
}

/// A track that a worker took is told to load when nothing is before it, and
/// otherwise to wait at its position. A skipped track is told by its title.
pub proof fn law_worker_answers_tell_the_track(
    title: Seq<char>,
    position: usize,
    skipped: String,
    error: String,
)
    ensures
        music::enqueue_answer(title, Answer::Given(TrackEnqueueResult::Accepted { position }))
            == if position == 0 {
            "▶️ Loading **"@ + title + "**."@
        } else {
            "➕ Queued **"@ + title + "** at position **"@ + text::decimal(position as nat)
                + "**."@
        },
        music::enqueue_answer(title, Answer::Given(TrackEnqueueResult::NotConnected))
            == "The voice session ended before I could queue the track."@,
        music::enqueue_answer(title, Answer::Given(TrackEnqueueResult::Failed(error))) == error@,
        music::enqueue_answer(title, Answer::Unavailable)
            == "The Gateway control loop is unavailable."@,
        music::enqueue_answer(title, Answer::Ended)
            == "The guild player ended before accepting the track."@,
        music::skip_answer(Answer::Given(SkipTrackResult::Skipped { title: skipped }))
            == "⏭️ Skipped **"@ + skipped@ + "**."@,
        music::skip_answer(Answer::Given(SkipTrackResult::NothingPlaying))
            == "Nothing is playing right now."@,
        music::skip_answer(Answer::Given(SkipTrackResult::NotConnected))
            == "I'm not connected to voice here."@,
        music::skip_answer(Answer::Given(SkipTrackResult::Failed(error))) == error@,
        music::skip_answer(Answer::Unavailable) == "The Gateway control loop is unavailable."@,
        music::skip_answer(Answer::Ended) == "The guild player ended before returning a skip result."@,
{
}

/// A member's voice channel is mentioned where it is known.
pub proof fn law_known_voice_channel_is_mentioned(
    guild_id: Option<GuildId>,
    user_id: Option<UserId>,
    channel_id: Option<ChannelId>,
)
    ensures
        ({
            let reply = diagnostics::voice_answer(guild_id, user_id, channel_id);
            &&& guild_id is Some && user_id is Some && channel_id is Some ==> mentions(
                reply,
                channel_id->0,
            )
            &&& guild_id is Some && user_id is Some && channel_id is None ==> reply
                == "I do not currently see you in a voice channel."@
            &&& guild_id is None || user_id is None ==> Some(reply) == commands::refusal(guild_id, user_id)
        }),
{
    if channel_id is Some {
        reveal_strlit("Your cached voice channel is <#");
        reveal_strlit(">.");
        lemma_mentions("Your cached voice channel is <#"@, channel_id->0, ">."@);
    }
}

/// Each failure has words of its own for what is amiss.
pub proof fn law_failures_have_their_words(
    control: ControlFailure,
    join: JoinFailure,
    leave: LeaveFailure,
    fault: NumberFault,
)
    ensures
        match control {
            ControlFailure::ShuttingDown => control.message() == "Sonoryn is shutting down."@,
            ControlFailure::WorkerUnavailable => control.message()
                == "The guild voice worker is unavailable."@,
            ControlFailure::ControlLoopUnavailable => control.message()
                == "The Gateway control loop is unavailable."@,
            ControlFailure::WorkerEnded => control.message()
                == "The voice worker ended before returning a playback result."@,
        },
        match join {
            JoinFailure::ShuttingDown => join.message() == "Sonoryn is shutting down."@,
            JoinFailure::GatewayNotReady => join.message()
                == "The Discord Gateway is not ready yet."@,
            JoinFailure::ServerUnavailable => join.message()
                == "Discord has not allocated a voice server for this guild yet."@,
            JoinFailure::TimedOut => join.message()
                == "Discord did not complete the voice rendezvous in time."@,
            JoinFailure::ControlLoopUnavailable => join.message()
                == "The Gateway control loop is unavailable."@,
            JoinFailure::JoinEnded => join.message()
                == "The voice join ended before returning a result."@,
            JoinFailure::JoinTaskEnded => join.message()
                == "The voice join task ended before returning a result."@,
            _ => true,
        },
        match leave {
            LeaveFailure::ShuttingDown => leave.message() == "Sonoryn is shutting down."@,
            LeaveFailure::ControlLoopUnavailable => leave.message()
                == "The Gateway control loop is unavailable."@,
            LeaveFailure::LeaveTaskEnded => leave.message()
                == "The voice leave task ended before returning a result."@,
            _ => true,
        },
        match fault {
            NumberFault::Empty => fault.message() == "cannot parse integer from empty string"@,
            NumberFault::InvalidDigit => fault.message() == "invalid digit found in string"@,
            NumberFault::TooLarge => fault.message() == "number too large to fit in target type"@,
        },
{
}

/// A loop mode is chosen by its name and by nothing else, and told by it.
pub proof fn law_loop_modes_go_by_their_names(choice: Seq<char>, mode: LoopMode)
    ensures
        queue::chosen_mode(choice) == Some(LoopMode::Off) <==> choice == "off"@,
        queue::chosen_mode(choice) == Some(LoopMode::Track) <==> choice == "track"@,
        queue::chosen_mode(choice) == Some(LoopMode::Queue) <==> choice == "queue"@,
        queue::chosen_mode(choice) == Some(mode) ==> queue::loop_answer(mode) == "Loop mode: **"@
            + choice + "**."@,
{
    queue::law_mode_names_choose_their_modes(LoopMode::Off);
    queue::law_mode_names_choose_their_modes(LoopMode::Track);
    queue::law_mode_names_choose_their_modes(LoopMode::Queue);
}

} // verus!
