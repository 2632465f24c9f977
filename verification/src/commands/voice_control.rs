//! `/join` and `/leave`.

use vstd::prelude::*;
use vstd::string::*;

use super::{channel_text, require_member};
use crate::commands;
use crate::gateway_control::{
    Answer, GatewayControl, JoinFailure, VoiceJoinResult, VoiceLeaveResult,
};
use crate::ids::{ChannelId, GuildId, UserId};

verus! {

/// Why `/join` does not begin.
pub open spec fn join_refusal(
    guild_id: Option<GuildId>,
    user_id: Option<UserId>,
    channel_id: Option<ChannelId>,
) -> Option<Seq<char>> {
    match commands::refusal(guild_id, user_id) {
        Some(reply) => Some(reply),
        None => if channel_id is None {
            Some("Join a voice channel first, then run `/join`."@)
        } else {
            None
        },
    }
}

/// Begins `/join`: the request to send to the Gateway task.
pub fn join(
    guild_id: Option<GuildId>,
    user_id: Option<UserId>,
    channel_id: Option<ChannelId>,
) -> (result: Result<GatewayControl, String>)
    ensures
        match result {
            Ok(control) => join_refusal(guild_id, user_id, channel_id) is None && control
                == (GatewayControl::JoinVoice {
                guild_id: guild_id->0,
                channel_id: channel_id->0,
            }),
            Err(reply) => join_refusal(guild_id, user_id, channel_id) == Some(reply@),
        },
{
    match require_member(guild_id, user_id) {
        Err(reply) => Err(reply),
        Ok((guild_id, _)) => match channel_id {
            None => Err("Join a voice channel first, then run `/join`.".to_owned()),
            Some(channel_id) => Ok(GatewayControl::JoinVoice { guild_id, channel_id }),
        },
    }
}

/// How `/join` is answered.
pub open spec fn join_answer(result: VoiceJoinResult) -> Seq<char> {
    match result {
        VoiceJoinResult::Joined { channel_id } => commands::about_channel(
            "Connected to <#"@,
            channel_id,
            "> with DAVE/E2EE enabled."@,
        ),
        VoiceJoinResult::AlreadyConnected { channel_id } => commands::about_channel(
            "I am already connected to <#"@,
            channel_id,
            ">."@,
        ),
        VoiceJoinResult::InProgress { channel_id } => commands::about_channel(
            "A voice join for <#"@,
            channel_id,
            "> is already in progress."@,
        ),
        VoiceJoinResult::Cancelled => "The voice join was cancelled."@,
        VoiceJoinResult::Failed(failure) => failure.message(),
    }
}

/// Answers `/join`.
pub fn joined(answer: Answer<VoiceJoinResult>) -> (reply: String)
    ensures
        reply@ == join_answer(answer.joined(JoinFailure::JoinTaskEnded)),
{
    match answer.join_result(JoinFailure::JoinTaskEnded) {
        VoiceJoinResult::Joined { channel_id } => channel_text(
            "Connected to <#",
            channel_id,
            "> with DAVE/E2EE enabled.",
        ),
        VoiceJoinResult::AlreadyConnected { channel_id } => channel_text(
            "I am already connected to <#",
            channel_id,
            ">.",
        ),
        VoiceJoinResult::InProgress { channel_id } => channel_text(
            "A voice join for <#",
            channel_id,
            "> is already in progress.",
        ),
        VoiceJoinResult::Cancelled => "The voice join was cancelled.".to_owned(),
        VoiceJoinResult::Failed(failure) => failure.text(),
    }
}

/// Why `/leave` does not begin.
pub open spec fn leave_refusal(
    guild_id: Option<GuildId>,
    user_id: Option<UserId>,
    channel_id: Option<ChannelId>,
) -> Option<Seq<char>> {
    match commands::refusal(guild_id, user_id) {
        Some(reply) => Some(reply),
        None => if channel_id is None {
            Some("Join my voice channel first to disconnect me."@)
        } else {
            None
        },
    }
}

/// Begins `/leave`: the request to send to the Gateway task. It names the
/// invoker's channel, so that only its own channel disconnects the bot.
pub fn leave(
    guild_id: Option<GuildId>,
    user_id: Option<UserId>,
    channel_id: Option<ChannelId>,
) -> (result: Result<GatewayControl, String>)
    ensures
        match result {
            Ok(control) => leave_refusal(guild_id, user_id, channel_id) is None && control
                == (GatewayControl::LeaveVoice {
                guild_id: guild_id->0,
                channel_id: channel_id->0,
            }),
            Err(reply) => leave_refusal(guild_id, user_id, channel_id) == Some(reply@),
        },
{
    match require_member(guild_id, user_id) {
        Err(reply) => Err(reply),
        Ok((guild_id, _)) => match channel_id {
            None => Err("Join my voice channel first to disconnect me.".to_owned()),
            Some(channel_id) => Ok(GatewayControl::LeaveVoice { guild_id, channel_id }),
        },
    }
}

/// How `/leave` is answered.
pub open spec fn leave_answer(result: VoiceLeaveResult) -> Seq<char> {
    match result {
        VoiceLeaveResult::Left { channel_id } => commands::about_channel(
            "Disconnected from <#"@,
            channel_id,
            ">."@,
        ),
        VoiceLeaveResult::CancelledJoin { channel_id } => commands::about_channel(
            "Cancelled the pending join for <#"@,
            channel_id,
            ">."@,
        ),
        VoiceLeaveResult::NotConnected => "I am not connected to voice here."@,
        VoiceLeaveResult::WrongVoiceChannel { channel_id } => commands::about_channel(
            "My voice channel is <#"@,
            channel_id,
            ">. Join that channel to disconnect me."@,
        ),
        VoiceLeaveResult::Failed(failure) => failure.message(),
    }
}

/// Answers `/leave`.
pub fn left(answer: Answer<VoiceLeaveResult>) -> (reply: String)
    ensures
        reply@ == leave_answer(answer.left()),
{
    match answer.leave_result() {
        VoiceLeaveResult::Left { channel_id } => channel_text(
            "Disconnected from <#",
            channel_id,
            ">.",
        ),
        VoiceLeaveResult::CancelledJoin { channel_id } => channel_text(
            "Cancelled the pending join for <#",
            channel_id,
            ">.",
        ),
        VoiceLeaveResult::NotConnected => "I am not connected to voice here.".to_owned(),
        VoiceLeaveResult::WrongVoiceChannel { channel_id } => channel_text(
            "My voice channel is <#",
            channel_id,
            ">. Join that channel to disconnect me.",
        ),
        VoiceLeaveResult::Failed(failure) => failure.text(),
    }
}

} // verus!
