//! Requests that commands send to the task that owns the Gateway connection,
//! and the answers that come back.

use vstd::prelude::*;
use vstd::string::*;

use crate::ids::{ChannelId, GuildId};

verus! {

/// A request to the task that owns the Gateway connection.
#[derive(Debug, Clone, Copy, PartialEq, Eq, Structural)]
pub enum GatewayControl {
    JoinVoice { guild_id: GuildId, channel_id: ChannelId },
    LeaveVoice { guild_id: GuildId, channel_id: ChannelId },
    Playback { guild_id: GuildId, channel_id: ChannelId, action: PlaybackAction },
}

/// What a command asks of a guild's voice worker.
#[derive(Debug, Clone, Copy, PartialEq, Eq, Structural)]
pub enum PlaybackAction {
    CheckContext,
    Wake,
    Previous,
    Skip,
    Seek { position_millis: u64 },
    Volume { percent: u8 },
    Pause,
    Resume,
    Stop,
}

/// Why a playback request got no answer from a voice worker.
#[derive(Debug, Clone, Copy, PartialEq, Eq, Structural)]
pub enum ControlFailure {
    ShuttingDown,
    WorkerUnavailable,
    ControlLoopUnavailable,
    WorkerEnded,
}

impl ControlFailure {
    pub open spec fn message(self) -> Seq<char> {
        match self {
            ControlFailure::ShuttingDown => "Sonoryn is shutting down."@,
            ControlFailure::WorkerUnavailable => "The guild voice worker is unavailable."@,
            ControlFailure::ControlLoopUnavailable => "The Gateway control loop is unavailable."@,
            ControlFailure::WorkerEnded =>
                "The voice worker ended before returning a playback result."@,
        }
    }

    /// The failure in words.
    pub fn text(&self) -> (text: String)
        ensures
            text@ == self.message(),
    {
        match self {
            ControlFailure::ShuttingDown => "Sonoryn is shutting down.".to_owned(),
            ControlFailure::WorkerUnavailable => "The guild voice worker is unavailable.".to_owned(),
            ControlFailure::ControlLoopUnavailable => {
                "The Gateway control loop is unavailable.".to_owned()
            },
            ControlFailure::WorkerEnded => {
                "The voice worker ended before returning a playback result.".to_owned()
            },
        }
    }
}

/// A voice worker's answer to a playback request.
#[derive(Debug, Clone, Copy, PartialEq, Eq, Structural)]
pub enum PlaybackControlResult {
    Accepted,
    NotConnected,
    WrongVoiceChannel { channel_id: ChannelId },
    NothingPlaying,
    AlreadyPaused,
    AlreadyPlaying,
    Failed(ControlFailure),
}

/// Why a voice join did not come about.
#[derive(Debug, PartialEq, Eq)]
pub enum JoinFailure {
    ShuttingDown,
    GatewayNotReady,
    RequestFailed(String),
    ServerUnavailable,
    TimedOut,
    SessionFailed(String),
    ControlLoopUnavailable,
    JoinEnded,
    JoinTaskEnded,
}

impl JoinFailure {
    pub open spec fn message(self) -> Seq<char> {
        match self {
            JoinFailure::ShuttingDown => "Sonoryn is shutting down."@,
            JoinFailure::GatewayNotReady => "The Discord Gateway is not ready yet."@,
            JoinFailure::RequestFailed(error) => "Failed to request the voice join: "@ + error@,
            JoinFailure::ServerUnavailable =>
                "Discord has not allocated a voice server for this guild yet."@,
            JoinFailure::TimedOut => "Discord did not complete the voice rendezvous in time."@,
            JoinFailure::SessionFailed(error) => "Failed to establish the Discord voice session: "@
                + error@,
            JoinFailure::ControlLoopUnavailable => "The Gateway control loop is unavailable."@,
            JoinFailure::JoinEnded => "The voice join ended before returning a result."@,
            JoinFailure::JoinTaskEnded => "The voice join task ended before returning a result."@,
        }
    }

    /// The failure in words.
    pub fn text(&self) -> (text: String)
        ensures
            text@ == self.message(),
    {
        match self {
            JoinFailure::ShuttingDown => "Sonoryn is shutting down.".to_owned(),
            JoinFailure::GatewayNotReady => "The Discord Gateway is not ready yet.".to_owned(),
            JoinFailure::RequestFailed(error) => {
                "Failed to request the voice join: ".to_owned().concat(error.as_str())
            },
            JoinFailure::ServerUnavailable => {
                "Discord has not allocated a voice server for this guild yet.".to_owned()
            },
            JoinFailure::TimedOut => {
                "Discord did not complete the voice rendezvous in time.".to_owned()
            },
            JoinFailure::SessionFailed(error) => {
                "Failed to establish the Discord voice session: ".to_owned().concat(error.as_str())
            },
            JoinFailure::ControlLoopUnavailable => {
                "The Gateway control loop is unavailable.".to_owned()
            },
            JoinFailure::JoinEnded => "The voice join ended before returning a result.".to_owned(),
            JoinFailure::JoinTaskEnded => {
                "The voice join task ended before returning a result.".to_owned()
            },
        }
    }
}

/// The outcome of a voice join.
#[derive(Debug, PartialEq, Eq)]
pub enum VoiceJoinResult {
    Joined { channel_id: ChannelId },
    AlreadyConnected { channel_id: ChannelId },
    InProgress { channel_id: ChannelId },
    Cancelled,
    Failed(JoinFailure),
}

/// Why leaving voice did not fully succeed.
#[derive(Debug, PartialEq, Eq)]
pub enum LeaveFailure {
    ShuttingDown,
    JoinCancelled(String),
    WorkerStopped(String),
    ControlLoopUnavailable,
    LeaveTaskEnded,
}

impl LeaveFailure {
    pub open spec fn message(self) -> Seq<char> {
        match self {
            LeaveFailure::ShuttingDown => "Sonoryn is shutting down."@,
            LeaveFailure::JoinCancelled(error) =>
                "Cancelled the pending join, but failed to leave voice: "@ + error@,
            LeaveFailure::WorkerStopped(error) =>
                "Stopped the voice worker, but failed to leave voice: "@ + error@,
            LeaveFailure::ControlLoopUnavailable => "The Gateway control loop is unavailable."@,
            LeaveFailure::LeaveTaskEnded => "The voice leave task ended before returning a result."@,
        }
    }

    /// The failure in words.
    pub fn text(&self) -> (text: String)
        ensures
            text@ == self.message(),
    {
        match self {
            LeaveFailure::ShuttingDown => "Sonoryn is shutting down.".to_owned(),
            LeaveFailure::JoinCancelled(error) => {
                "Cancelled the pending join, but failed to leave voice: ".to_owned().concat(
                    error.as_str(),
                )
            },
            LeaveFailure::WorkerStopped(error) => {
                "Stopped the voice worker, but failed to leave voice: ".to_owned().concat(
                    error.as_str(),
                )
            },
            LeaveFailure::ControlLoopUnavailable => {
                "The Gateway control loop is unavailable.".to_owned()
            },
            LeaveFailure::LeaveTaskEnded => {
                "The voice leave task ended before returning a result.".to_owned()
            },
        }
    }
}

/// The outcome of leaving voice.
#[derive(Debug, PartialEq, Eq)]
pub enum VoiceLeaveResult {
    Left { channel_id: ChannelId },
    CancelledJoin { channel_id: ChannelId },
    NotConnected,
    WrongVoiceChannel { channel_id: ChannelId },
    Failed(LeaveFailure),
}

/// What became of a request to the Gateway task.
#[derive(Debug, PartialEq, Eq)]
pub enum Answer<T> {
    /// The request was answered.
    Given(T),
    /// The request could not be delivered.
    Unavailable,
    /// The request was dropped without an answer.
    Ended,
}

impl Answer<PlaybackControlResult> {
    /// The result of a playback request, answered or not.
    pub open spec fn outcome(self) -> PlaybackControlResult {
        match self {
            Answer::Given(result) => result,
            Answer::Unavailable => PlaybackControlResult::Failed(
                ControlFailure::ControlLoopUnavailable,
            ),
            Answer::Ended => PlaybackControlResult::Failed(ControlFailure::WorkerEnded),
        }
    }

    /// The result of a playback request, answered or not.
    pub fn playback_result(self) -> (result: PlaybackControlResult)
        ensures
            result == self.outcome(),
    {
        match self {
            Answer::Given(result) => result,
            Answer::Unavailable => PlaybackControlResult::Failed(
                ControlFailure::ControlLoopUnavailable,
            ),
            Answer::Ended => PlaybackControlResult::Failed(ControlFailure::WorkerEnded),
        }
    }
}

impl Answer<VoiceJoinResult> {
    /// The result of a voice join, answered or not. `ended` is how a join
    /// fails that was dropped.
    pub open spec fn joined(self, ended: JoinFailure) -> VoiceJoinResult {
        match self {
            Answer::Given(result) => result,
            Answer::Unavailable => VoiceJoinResult::Failed(JoinFailure::ControlLoopUnavailable),
            Answer::Ended => VoiceJoinResult::Failed(ended),
        }
    }

    /// The result of a voice join, answered or not.
    pub fn join_result(self, ended: JoinFailure) -> (result: VoiceJoinResult)
        ensures
            result == self.joined(ended),
    {
        match self {
            Answer::Given(result) => result,
            Answer::Unavailable => VoiceJoinResult::Failed(JoinFailure::ControlLoopUnavailable),
            Answer::Ended => VoiceJoinResult::Failed(ended),
        }
    }
}

impl Answer<VoiceLeaveResult> {
    /// The result of leaving voice, answered or not.
    pub open spec fn left(self) -> VoiceLeaveResult {
        match self {
            Answer::Given(result) => result,
            Answer::Unavailable => VoiceLeaveResult::Failed(LeaveFailure::ControlLoopUnavailable),
            Answer::Ended => VoiceLeaveResult::Failed(LeaveFailure::LeaveTaskEnded),
        }
    }

    /// The result of leaving voice, answered or not.
    pub fn leave_result(self) -> (result: VoiceLeaveResult)
        ensures
            result == self.left(),
    {
        match self {
            Answer::Given(result) => result,
            Answer::Unavailable => VoiceLeaveResult::Failed(LeaveFailure::ControlLoopUnavailable),
            Answer::Ended => VoiceLeaveResult::Failed(LeaveFailure::LeaveTaskEnded),
        }
    }
}

} // verus!
