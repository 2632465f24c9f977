//! `/skip`, `/pause`, `/resume` and `/stop`.

use vstd::prelude::*;
use vstd::string::*;

use super::channel_text;
use super::playback_controls::require_voice_channel;
use crate::commands;
use crate::commands::playback_controls;
use crate::gateway_control::{Answer, GatewayControl, PlaybackAction, PlaybackControlResult};
use crate::ids::{ChannelId, GuildId, UserId};

verus! {

/// A command that acts on the current track and has no options.
#[derive(Debug, Clone, Copy, PartialEq, Eq, Structural)]
pub enum TransportCommand {
    Skip,
    Pause,
    Resume,
    Stop,
}

impl TransportCommand {
    /// What the command asks of the voice worker.
    pub open spec fn asked(self) -> PlaybackAction {
        match self {
            TransportCommand::Skip => PlaybackAction::Skip,
            TransportCommand::Pause => PlaybackAction::Pause,
            TransportCommand::Resume => PlaybackAction::Resume,
            TransportCommand::Stop => PlaybackAction::Stop,
        }
    }

    /// What the command asks of the voice worker.
    pub fn action(self) -> (action: PlaybackAction)
        ensures
            action == self.asked(),
    {
        match self {
            TransportCommand::Skip => PlaybackAction::Skip,
            TransportCommand::Pause => PlaybackAction::Pause,
            TransportCommand::Resume => PlaybackAction::Resume,
            TransportCommand::Stop => PlaybackAction::Stop,
        }
    }

    /// Begins the command: the request to send to the Gateway task. It names
    /// the invoker's channel, so that only the worker's own channel reaches it.
    pub fn begin(
        self,
        guild_id: Option<GuildId>,
        user_id: Option<UserId>,
        channel_id: Option<ChannelId>,
    ) -> (result: Result<GatewayControl, String>)
        ensures
            match result {
                Ok(control) => playback_controls::control_refusal(guild_id, user_id, channel_id)
                    is None && control == (GatewayControl::Playback {
                    guild_id: guild_id->0,
                    channel_id: channel_id->0,
                    action: self.asked(),
                }),
                Err(reply) => playback_controls::control_refusal(guild_id, user_id, channel_id)
                    == Some(reply@),
            },
    {
        match require_voice_channel(guild_id, user_id, channel_id) {
            Ok((guild_id, channel_id)) => Ok(
                GatewayControl::Playback { guild_id, channel_id, action: self.action() },
            ),
            Err(reply) => Err(reply),
        }
    }

    /// How the command is answered that was accepted.
    pub open spec fn done(self) -> Seq<char> {
        match self {
            TransportCommand::Skip => "Skipped the current track."@,
            TransportCommand::Pause => "Paused playback."@,
            TransportCommand::Resume => "Resumed playback."@,
            TransportCommand::Stop => "Stopped playback and cleared the queue."@,
        }
    }

    /// How the command is answered.
    pub open spec fn answer(self, result: PlaybackControlResult) -> Seq<char> {
        match result {
            PlaybackControlResult::Accepted => self.done(),
            PlaybackControlResult::NothingPlaying => "Nothing is playing right now."@,
            PlaybackControlResult::NotConnected => "I am not connected to voice here."@,
            PlaybackControlResult::WrongVoiceChannel { channel_id } => commands::about_channel(
                "I am connected to <#"@,
                channel_id,
                ">. Join that channel to control playback."@,
            ),
            PlaybackControlResult::AlreadyPaused => "Playback is already paused."@,
            PlaybackControlResult::AlreadyPlaying => "Playback is already running."@,
            PlaybackControlResult::Failed(failure) => failure.message(),
        }
    }

    /// Answers the command.
    pub fn answered(self, answer: Answer<PlaybackControlResult>) -> (reply: String)
        ensures
            reply@ == self.answer(answer.outcome()),
    {
        match answer.playback_result() {
            PlaybackControlResult::Accepted => match self {
                TransportCommand::Skip => "Skipped the current track.".to_owned(),
                TransportCommand::Pause => "Paused playback.".to_owned(),
                TransportCommand::Resume => "Resumed playback.".to_owned(),
                TransportCommand::Stop => "Stopped playback and cleared the queue.".to_owned(),
            },
            PlaybackControlResult::NothingPlaying => "Nothing is playing right now.".to_owned(),
            PlaybackControlResult::NotConnected => "I am not connected to voice here.".to_owned(),
            PlaybackControlResult::WrongVoiceChannel { channel_id } => channel_text(
                "I am connected to <#",
                channel_id,
                ">. Join that channel to control playback.",
            ),
            PlaybackControlResult::AlreadyPaused => "Playback is already paused.".to_owned(),
            PlaybackControlResult::AlreadyPlaying => "Playback is already running.".to_owned(),
            PlaybackControlResult::Failed(failure) => failure.text(),
        }
    }
}

} // verus!
