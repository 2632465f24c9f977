//! `/shuffle`, `/remove`, `/move` and `/loop`.

use vstd::prelude::*;
use vstd::string::*;

use super::{channel_text, require_member};
use crate::commands;
use crate::commands::playback;
use crate::commands::playback::format_track;
use crate::gateway_control::{Answer, GatewayControl, PlaybackAction, PlaybackControlResult};
use crate::ids::{ChannelId, GuildId, UserId};
use crate::player::{LoopMode, PlayerManager, PlayerState};
use crate::text;
use crate::text::{push_decimal, same_text};

verus! {

/// Why a change of the queue does not begin.
pub open spec fn context_refusal(
    guild_id: Option<GuildId>,
    user_id: Option<UserId>,
    channel_id: Option<ChannelId>,
) -> Option<Seq<char>> {
    match commands::refusal(guild_id, user_id) {
        Some(reply) => Some(reply),
        None => if channel_id is None {
            Some("Join my voice channel first to edit the queue."@)
        } else {
            None
        },
    }
}

/// Begins a change of the queue: the voice worker is to be asked whether the
/// invoker is in its channel.
pub fn require_queue_control_context(
    guild_id: Option<GuildId>,
    user_id: Option<UserId>,
    channel_id: Option<ChannelId>,
) -> (result: Result<GatewayControl, String>)
    ensures
        match result {
            Ok(control) => context_refusal(guild_id, user_id, channel_id) is None && control
                == (GatewayControl::Playback {
                guild_id: guild_id->0,
                channel_id: channel_id->0,
                action: PlaybackAction::CheckContext,
            }),
            Err(reply) => context_refusal(guild_id, user_id, channel_id) == Some(reply@),
        },
{
    match require_member(guild_id, user_id) {
        Err(reply) => Err(reply),
        Ok((guild_id, _)) => match channel_id {
            None => Err("Join my voice channel first to edit the queue.".to_owned()),
            Some(channel_id) => Ok(
                GatewayControl::Playback {
                    guild_id,
                    channel_id,
                    action: PlaybackAction::CheckContext,
                },
            ),
        },
    }
}

/// Why a change of the queue ends once the voice worker was asked.
pub open spec fn check_refusal(result: PlaybackControlResult) -> Option<Seq<char>> {
    match result {
        PlaybackControlResult::Accepted => None,
        PlaybackControlResult::NotConnected => Some("I am not connected to voice here."@),
        PlaybackControlResult::WrongVoiceChannel { channel_id } => Some(
            commands::about_channel(
                "I am connected to <#"@,
                channel_id,
                ">. Join that channel to edit the queue."@,
            ),
        ),
        PlaybackControlResult::Failed(failure) => Some(failure.message()),
        _ => Some("The voice worker rejected the queue-control context."@),
    }
}

/// The reply that ends a change of the queue, unless the voice worker allows
/// it.
pub fn refuse_context(answer: Answer<PlaybackControlResult>) -> (reply: Option<String>)
    ensures
        match reply {
            Some(text) => check_refusal(answer.outcome()) == Some(text@),
            None => check_refusal(answer.outcome()) is None,
        },
{
    match answer.playback_result() {
        PlaybackControlResult::Accepted => None,
        PlaybackControlResult::NotConnected => {
            Some("I am not connected to voice here.".to_owned())
        },
        PlaybackControlResult::WrongVoiceChannel { channel_id } => Some(
            channel_text(
                "I am connected to <#",
                channel_id,
                ">. Join that channel to edit the queue.",
            ),
        ),
        PlaybackControlResult::Failed(failure) => Some(failure.text()),
        PlaybackControlResult::NothingPlaying
        | PlaybackControlResult::AlreadyPaused
        | PlaybackControlResult::AlreadyPlaying => {
            Some("The voice worker rejected the queue-control context.".to_owned())
        },
    }
}

/// How `/shuffle` is answered for a queue of `count` tracks.
pub open spec fn shuffle_answer(count: nat) -> Seq<char> {
    if count == 0 {
        "The queue is empty."@
    } else if count == 1 {
        "There is only one queued track, so there is nothing to shuffle."@
    } else {
        "Shuffled "@ + text::decimal(count) + " queued tracks."@
    }
}

/// Takes the voice worker's answer, shuffles the queue if it allows that, and
/// answers `/shuffle`. Without its consent nothing changes.
pub fn shuffle(
    guild_id: GuildId,
    answer: Answer<PlaybackControlResult>,
    players: &mut PlayerManager,
) -> (reply: String)
    ensures
        ({
            let before = old(players).player(guild_id);
            let after = final(players).player(guild_id);
            match check_refusal(answer.outcome()) {
                Some(refused) => reply@ == refused && *final(players) == *old(players),
                None => {
                    &&& reply@ == shuffle_answer(before.queue.len())
                    &&& after.queue.to_multiset() == before.queue.to_multiset()
                    &&& after.now_playing == before.now_playing
                    &&& after.loop_mode == before.loop_mode
                    &&& before.queue.len() < 2 ==> after == before
                    &&& final(players).same_elsewhere(old(players), guild_id)
                    &&& final(players).last_track_id() == old(players).last_track_id()
                },
            }
        }),
{
    if let Some(reply) = refuse_context(answer) {
        return reply;
    }
    let count: usize = players.shuffle_queued(guild_id);
    if count == 0 {
        "The queue is empty.".to_owned()
    } else if count == 1 {
        "There is only one queued track, so there is nothing to shuffle.".to_owned()
    } else {
        let mut reply: String = "Shuffled ".to_owned();
        push_decimal(&mut reply, count as u64);
        reply.append(" queued tracks.");
        reply
    }
}

/// A one-based position of a queue of `len` tracks. The current track is not
/// counted.
pub open spec fn is_position(position: i64, len: nat) -> bool {
    1 <= position <= len
}

/// The index that a one-based position stands for, if it is one.
fn queue_index(position: i64, len: usize) -> (index: Option<usize>)
    ensures
        match index {
            Some(index) => is_position(position, len as nat) && index == position - 1,
            None => !is_position(position, len as nat),
        },
{
    if position < 1 || position as u64 > len as u64 {
        None
    } else {
        Some((position as u64 - 1) as usize)
    }
}

/// Takes the voice worker's answer, drops the queued track at a one-based
/// position if the worker allows it, and answers `/remove`. Without its
/// consent, or without such a position, nothing changes.
pub fn remove(
    guild_id: GuildId,
    position: i64,
    answer: Answer<PlaybackControlResult>,
    players: &mut PlayerManager,
) -> (reply: String)
    ensures
        ({
            let before = old(players).player(guild_id);
            match check_refusal(answer.outcome()) {
                Some(refused) => reply@ == refused && *final(players) == *old(players),
                None => if is_position(position, before.queue.len()) {
                    &&& reply@ == "Removed "@ + playback::track_label(before.queue[position - 1])
                        + " from the queue."@
                    &&& final(players).player(guild_id) == before.removed(position - 1)
                    &&& final(players).same_elsewhere(old(players), guild_id)
                    &&& final(players).last_track_id() == old(players).last_track_id()
                } else {
                    reply@ == "There is no queued track at that position."@ && *final(players)
                        == *old(players)
                },
            }
        }),
{
    if let Some(reply) = refuse_context(answer) {
        return reply;
    }
    let len: usize = players.snapshot(guild_id).queued_len();
    if let Some(index) = queue_index(position, len) {
        if let Some(track) = players.remove_queued(guild_id, index) {
            let mut reply: String = "Removed ".to_owned();
            reply.append(format_track(&track).as_str());
            reply.append(" from the queue.");
            return reply;
        }
    }
    "There is no queued track at that position.".to_owned()
}

/// Takes the voice worker's answer, moves the queued track at one one-based
/// position to another if the worker allows it, and answers `/move`. Without
/// its consent, or without such positions, nothing changes.
pub fn move_track(
    guild_id: GuildId,
    from: i64,
    to: i64,
    answer: Answer<PlaybackControlResult>,
    players: &mut PlayerManager,
) -> (reply: String)
    ensures
        ({
            let before = old(players).player(guild_id);
            let len = before.queue.len();
            match check_refusal(answer.outcome()) {
                Some(refused) => reply@ == refused && *final(players) == *old(players),
                None => if is_position(from, len) && is_position(to, len) {
                    &&& reply@ == "Moved "@ + playback::track_label(before.queue[from - 1])
                        + " to position "@ + text::decimal(to as nat) + "."@
                    &&& final(players).player(guild_id) == before.moved(from - 1, to - 1)
                    &&& final(players).same_elsewhere(old(players), guild_id)
                    &&& final(players).last_track_id() == old(players).last_track_id()
                } else {
                    reply@ == "There is no queued track at that position."@ && *final(players)
                        == *old(players)
                },
            }
        }),
{
    if let Some(reply) = refuse_context(answer) {
        return reply;
    }
    let len: usize = players.snapshot(guild_id).queued_len();
    if let (Some(from_index), Some(to_index)) = (queue_index(from, len), queue_index(to, len)) {
        if let Some(track) = players.move_queued(guild_id, from_index, to_index) {
            let mut reply: String = "Moved ".to_owned();
            reply.append(format_track(&track).as_str());
            reply.append(" to position ");
            push_decimal(&mut reply, to as u64);
            reply.append(".");
            return reply;
        }
    }
    "There is no queued track at that position.".to_owned()
}

/// A queue position counts queued tracks alone: removing or moving one leaves
/// the current track, the loop mode and every other queued track as they were,
/// and a moved track stands at the position asked for.
pub proof fn law_positions_count_queued_tracks(before: PlayerState, from: i64, to: i64)
    requires
        is_position(from, before.queue.len()),
        is_position(to, before.queue.len()),
    ensures
        before.removed(from - 1).now_playing == before.now_playing,
        before.removed(from - 1).loop_mode == before.loop_mode,
        before.removed(from - 1).queue.len() == before.queue.len() - 1,
        before.moved(from - 1, to - 1).now_playing == before.now_playing,
        before.moved(from - 1, to - 1).loop_mode == before.loop_mode,
        before.moved(from - 1, to - 1).queue.len() == before.queue.len(),
        before.moved(from - 1, to - 1).queue[to - 1] == before.queue[from - 1],
        before.moved(from - 1, to - 1).removed(to - 1) == before.removed(from - 1),
{
    assert(before.moved(from - 1, to - 1).queue.remove(to - 1) =~= before.queue.remove(from - 1));
}

/// The loop mode that a choice stands for.
pub open spec fn chosen_mode(choice: Seq<char>) -> Option<LoopMode> {
    if choice == "off"@ {
        Some(LoopMode::Off)
    } else if choice == "track"@ {
        Some(LoopMode::Track)
    } else if choice == "queue"@ {
        Some(LoopMode::Queue)
    } else {
        None
    }
}

/// The name of a loop mode.
pub open spec fn mode_name(mode: LoopMode) -> Seq<char> {
    match mode {
        LoopMode::Off => "off"@,
        LoopMode::Track => "track"@,
        LoopMode::Queue => "queue"@,
    }
}

/// The name of a loop mode.
pub fn loop_mode_name(mode: LoopMode) -> (name: &'static str)
    ensures
        name@ == mode_name(mode),
{
    match mode {
        LoopMode::Off => "off",
        LoopMode::Track => "track",
        LoopMode::Queue => "queue",
    }
}

/// The loop mode that a choice stands for.
pub fn parse_loop_mode(choice: &str) -> (mode: Option<LoopMode>)
    ensures
        mode == chosen_mode(choice@),
{
    if same_text(choice, "off") {
        Some(LoopMode::Off)
    } else if same_text(choice, "track") {
        Some(LoopMode::Track)
    } else if same_text(choice, "queue") {
        Some(LoopMode::Queue)
    } else {
        None
    }
}

/// How `/loop` is answered.
pub open spec fn loop_answer(mode: LoopMode) -> Seq<char> {
    "Loop mode: **"@ + mode_name(mode) + "**."@
}

/// Takes the voice worker's answer, changes the loop mode if one was chosen
/// and the worker allows it, and answers `/loop`.
pub fn loop_mode(
    guild_id: GuildId,
    choice: Option<String>,
    answer: Answer<PlaybackControlResult>,
    players: &mut PlayerManager,
) -> (reply: String)
    ensures
        ({
            let before = old(players).player(guild_id);
            match check_refusal(answer.outcome()) {
                Some(refused) => reply@ == refused && *final(players) == *old(players),
                None => match choice {
                    None => reply@ == loop_answer(before.loop_mode) && *final(players) == *old(
                        players,
                    ),
                    Some(choice) => match chosen_mode(choice@) {
                        None => reply@ == "That loop mode is not supported."@ && *final(players)
                            == *old(players),
                        Some(mode) => {
                            &&& reply@ == loop_answer(mode)
                            &&& final(players).player(guild_id) == (PlayerState {
                                loop_mode: mode,
                                ..before
                            })
                            &&& final(players).same_elsewhere(old(players), guild_id)
                            &&& final(players).last_track_id() == old(players).last_track_id()
                        },
                    },
                },
            }
        }),
{
    if let Some(reply) = refuse_context(answer) {
        return reply;
    }
    let current: LoopMode = match choice {
        None => players.loop_mode(guild_id),
        Some(choice) => match parse_loop_mode(choice.as_str()) {
            None => {
                return "That loop mode is not supported.".to_owned();
            },
            Some(mode) => {
                players.set_loop_mode(guild_id, mode);
                mode
            },
        },
    };
    let mut reply: String = "Loop mode: **".to_owned();
    reply.append(loop_mode_name(current));
    reply.append("**.");
    reply
}

/// The name of a loop mode chooses that mode.
pub proof fn law_mode_names_choose_their_modes(mode: LoopMode)
    ensures
        chosen_mode(mode_name(mode)) == Some(mode),
{
    reveal_strlit("off");
    reveal_strlit("track");
    reveal_strlit("queue");
    assert("off"@.len() == 3);
    assert("track"@[0] != "queue"@[0]);
}

} // verus!
