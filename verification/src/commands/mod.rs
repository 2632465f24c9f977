//! What slash commands ask for and how they are answered.
//!
//! A command runs in steps. Each step either ends it with a reply or says what
//! has to be asked next; the answer is handed to the following step.

use vstd::prelude::*;
use vstd::string::*;

use crate::ids::{ChannelId, GuildId, UserId};
use crate::text;
use crate::text::push_decimal;

pub mod diagnostics;
pub mod effects;
pub mod laws;
pub mod music;
pub mod play;
pub mod playback;
pub mod playback_controls;
pub mod playlist;
pub mod queue;
pub mod requests;
pub mod transport;
pub mod voice_control;

verus! {

/// The user who invoked a command: the guild member, or the user of a direct
/// message.
pub open spec fn invoker(member: Option<UserId>, user: Option<UserId>) -> Option<UserId> {
    match member {
        Some(id) => Some(id),
        None => user,
    }
}

/// The user who invoked a command.
pub fn invoking_user_id(member: Option<UserId>, user: Option<UserId>) -> (id: Option<UserId>)
    ensures
        id == invoker(member, user),
{
    match member {
        Some(id) => Some(id),
        None => user,
    }
}

/// Why a command cannot run where it was invoked.
pub open spec fn refusal(guild_id: Option<GuildId>, user_id: Option<UserId>) -> Option<Seq<char>> {
    if guild_id is None {
        Some("This command can only be used in a server."@)
    } else if user_id is None {
        Some("I could not determine the invoking user."@)
    } else {
        None
    }
}

/// Where and by whom a command was invoked, or the reply that ends it.
pub fn require_member(guild_id: Option<GuildId>, user_id: Option<UserId>) -> (result: Result<
    (GuildId, UserId),
    String,
>)
    ensures
        match result {
            Ok((guild, user)) => refusal(guild_id, user_id) is None && guild_id == Some(guild)
                && user_id == Some(user),
            Err(reply) => refusal(guild_id, user_id) == Some(reply@),
        },
{
    match guild_id {
        None => Err("This command can only be used in a server.".to_owned()),
        Some(guild) => match user_id {
            None => Err("I could not determine the invoking user.".to_owned()),
            Some(user) => Ok((guild, user)),
        },
    }
}

/// Where a command was invoked, or the reply that ends it.
pub fn require_guild(guild_id: Option<GuildId>) -> (result: Result<GuildId, String>)
    ensures
        match result {
            Ok(guild) => guild_id == Some(guild),
            Err(reply) => guild_id is None && reply@
                == "This command can only be used in a server."@,
        },
{
    match guild_id {
        None => Err("This command can only be used in a server.".to_owned()),
        Some(guild) => Ok(guild),
    }
}

/// A text that mentions a channel.
pub open spec fn about_channel(before: Seq<char>, channel_id: ChannelId, after: Seq<char>) -> Seq<
    char,
> {
    before + text::decimal(channel_id.0 as nat) + after
}

/// A text that mentions a channel.
pub fn channel_text(before: &str, channel_id: ChannelId, after: &str) -> (text: String)
    ensures
        text@ == about_channel(before@, channel_id, after@),
{
    let mut text: String = before.to_owned();
    push_decimal(&mut text, channel_id.get());
    text.append(after);
    text
}

} // verus!
