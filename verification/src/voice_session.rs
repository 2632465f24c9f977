//! One guild's connected voice session: which inputs start, pause, skip, end
//! and replay tracks, and when the session stops.
//!
//! The session decides; the task that owns the transport performs the calls
//! that a step asks for and reports back how they went.

use vstd::prelude::*;

use crate::gateway_control::{
    JoinFailure, PlaybackAction, PlaybackControlResult, VoiceJoinResult,
};
use crate::history;
use crate::history::HistoryManager;
use crate::ids::{ChannelId, GuildId};
use crate::media::decoder::FfmpegDecodeOptions;
use crate::media::track::{Track, TrackId};
use crate::player::{LoopMode, PlayerManager, PlayerSnapshot, PlayerState};

pub mod laws;
pub mod outcomes;

verus! {

/// How long a session with nothing to play stays connected, in seconds.
pub const IDLE_TIMEOUT_SECONDS: u64 = 300;

/// How many decoded frames may wait for the session.
pub const DECODER_FRAME_CAPACITY: usize = 2;

/// How loud a session is before it is told otherwise, in percent.
pub const FULL_VOLUME: u8 = 100;

/// How long one frame plays, in milliseconds.
pub const FRAME_MILLIS: u64 = 20;

/// The track that a session is decoding, and how far it has played.
#[derive(Debug, Clone, Copy, PartialEq, Eq, Structural)]
pub struct ActivePlayback {
    pub track_id: TrackId,
    pub paused: bool,
    pub speaking: bool,
    pub position_millis: u64,
}

impl ActivePlayback {
    /// A track that has just begun.
    pub open spec fn begun(track_id: TrackId) -> ActivePlayback {
        ActivePlayback { track_id, paused: false, speaking: false, position_millis: 0 }
    }

    /// One frame more has played.
    pub open spec fn played(self) -> ActivePlayback {
        ActivePlayback {
            position_millis: if self.position_millis + FRAME_MILLIS <= u64::MAX {
                (self.position_millis + FRAME_MILLIS) as u64
            } else {
                u64::MAX
            },
            ..self
        }
    }
}

/// A track to decode, and how.
#[derive(Debug)]
pub struct PlaybackStart {
    pub track: Track,
    pub options: FfmpegDecodeOptions,
}

/// What remains to be done once the session has stopped speaking.
#[derive(Debug)]
pub enum AfterSpeech {
    Shutdown,
    Previous { current: Option<Track>, previous: Track },
    Skip { track_id: TrackId, current: Option<Track> },
    Pause,
    Stop { result: PlaybackControlResult },
    Completed { track_id: TrackId, current: Option<Track>, loop_mode: LoopMode },
    Broken { track_id: TrackId },
}

/// What the session waits for.
#[derive(Debug)]
pub enum SessionPhase {
    /// The transport is being set up.
    Connecting,
    /// Any input may come.
    Running,
    /// The transport is ending speech.
    EndingSpeech(AfterSpeech),
    /// The transport is beginning speech, with a frame to send after it.
    BeginningSpeech,
    /// The transport is sending a frame.
    Sending,
    /// Nothing more happens.
    Stopped,
}

/// Why a session ended.
#[derive(Debug, PartialEq, Eq)]
pub enum VoiceWorkerStopReason {
    Requested,
    IdleTimedOut,
    ConnectFailed(String),
    VoiceFailed(String),
}

/// What happened to the session.
#[derive(Debug)]
pub enum SessionInput {
    /// The transport is set up.
    Connected,
    /// The transport could not be set up.
    ConnectFailed(String),
    /// A command came, or the command channel closed, before the transport
    /// was set up.
    ConnectInterrupted,
    /// Shutdown was asked for, or the command channel closed.
    Shutdown,
    /// A command asked for a playback action.
    Playback(PlaybackAction),
    /// The voice transport reported an ordinary event.
    VoiceEvent,
    /// The voice transport failed.
    VoiceFailed(String),
    /// The decoder produced a frame.
    Frame,
    /// The decoder reached the end of the track.
    Finished,
    /// The decoder failed, or ended without saying how.
    DecoderFailed,
    /// The idle timer ran out.
    IdleTimeout,
    /// Speech ended.
    SpeechEnded,
    /// Speech could not be ended.
    SpeechEndFailed(String),
    /// Speech began.
    SpeechBegan,
    /// Speech could not be begun.
    SpeechBeginFailed(String),
    /// The frame was sent.
    FrameSent,
    /// The frame was invalid or could not be sent.
    FrameFailed(String),
}

/// The transport call that a step asks for. Its outcome is the next input.
#[derive(Debug, Clone, Copy, PartialEq, Eq, Structural)]
pub enum TransportCall {
    Nothing,
    EndSpeech,
    BeginSpeech,
    SendFrame,
}

/// What happens to the idle timer.
#[derive(Debug, Clone, Copy, PartialEq, Eq, Structural)]
pub enum TimerChange {
    Keep,
    Disarm,
    Rearm,
}

/// What the session's owner has to do.
#[derive(Debug)]
pub struct SessionStep {
    /// Abort the decoder that was running before this step.
    pub cancel: bool,
    /// Start decoding this track.
    pub start: Option<PlaybackStart>,
    /// Start pacing frames anew.
    pub reset_pacer: bool,
    pub call: TransportCall,
    /// Answer the request that asked for the voice join.
    pub join_reply: Option<VoiceJoinResult>,
    /// Answer the playback request.
    pub reply: Option<PlaybackControlResult>,
    pub timer: TimerChange,
    /// Close the transport and report the end of the session.
    pub stop: Option<VoiceWorkerStopReason>,
}

impl SessionStep {
    /// A step with nothing to do.
    pub open spec fn quiet() -> SessionStep {
        SessionStep {
            cancel: false,
            start: None,
            reset_pacer: false,
            call: TransportCall::Nothing,
            join_reply: None,
            reply: None,
            timer: TimerChange::Keep,
            stop: None,
        }
    }

    /// A step that only answers a playback request.
    pub open spec fn answering(result: PlaybackControlResult) -> SessionStep {
        SessionStep { reply: Some(result), ..SessionStep::quiet() }
    }

    fn idle() -> (step: Self)
        ensures
            step == SessionStep::quiet(),
    {
        SessionStep {
            cancel: false,
            start: None,
            reset_pacer: false,
            call: TransportCall::Nothing,
            join_reply: None,
            reply: None,
            timer: TimerChange::Keep,
            stop: None,
        }
    }
}

/// One guild's voice session.
#[derive(Debug)]
pub struct VoiceSession {
    pub guild_id: GuildId,
    pub channel_id: ChannelId,
    pub active: Option<ActivePlayback>,
    pub volume: u8,
    pub idle_timer: bool,
    pub phase: SessionPhase,
}

/// A session together with the playback state and the history that it acts
/// upon.
#[verifier::ext_equal]
pub struct SessionModel {
    pub session: VoiceSession,
    pub player: PlayerState,
    pub history: Seq<Track>,
}

/// The player once `previous` stands before `current`, which stands before the
/// queue, and nothing plays.
pub open spec fn rewound(
    player: PlayerState,
    current: Option<Track>,
    previous: Track,
) -> PlayerState {
    let back = match current {
        Some(track) => if player.is_current(track.id) {
            PlayerState { queue: seq![track] + player.queue, ..player.finished(track.id) }
        } else {
            player
        },
        None => player,
    };
    PlayerState { queue: seq![previous] + back.queue, ..back }
}

impl SessionModel {
    /// The first queued track starts decoding, if nothing plays.
    pub open spec fn advanced(self, step: SessionStep) -> (SessionModel, SessionStep) {
        if self.player.can_start() {
            let track = self.player.queue[0];
            (
                SessionModel {
                    session: VoiceSession {
                        active: Some(ActivePlayback::begun(track.id)),
                        ..self.session
                    },
                    player: self.player.started(),
                    ..self
                },
                SessionStep {
                    start: Some(
                        PlaybackStart {
                            track,
                            options: FfmpegDecodeOptions {
                                position_millis: 0,
                                volume_percent: self.session.volume,
                            },
                        },
                    ),
                    ..step
                },
            )
        } else {
            (
                SessionModel { session: VoiceSession { active: None, ..self.session }, ..self },
                step,
            )
        }
    }

    /// The session is ready for the next input. The idle timer runs exactly
    /// while no track is active.
    pub open spec fn settled(self, step: SessionStep) -> (SessionModel, SessionStep) {
        let active = self.session.active is Some;
        (
            SessionModel {
                session: VoiceSession {
                    idle_timer: !active,
                    phase: SessionPhase::Running,
                    ..self.session
                },
                ..self
            },
            SessionStep {
                timer: if active {
                    TimerChange::Disarm
                } else if self.session.idle_timer {
                    TimerChange::Keep
                } else {
                    TimerChange::Rearm
                },
                ..step
            },
        )
    }

    /// The session ends: its decoder is aborted and its player is emptied.
    pub open spec fn halted(self, reason: VoiceWorkerStopReason, step: SessionStep) -> (
        SessionModel,
        SessionStep,
    ) {
        (
            SessionModel {
                session: VoiceSession {
                    active: None,
                    phase: SessionPhase::Stopped,
                    ..self.session
                },
                player: PlayerState::idle(),
                ..self
            },
            SessionStep {
                cancel: step.cancel || self.session.active is Some,
                stop: Some(reason),
                ..step
            },
        )
    }

    /// What follows once the session no longer speaks.
    pub open spec fn resumed(self, after: AfterSpeech, step: SessionStep) -> (
        SessionModel,
        SessionStep,
    ) {
        match after {
            AfterSpeech::Shutdown => self.halted(VoiceWorkerStopReason::Requested, step),
            AfterSpeech::Previous { current, previous } => {
                let model = SessionModel {
                    player: rewound(self.player, current, previous),
                    history: history::forgotten(self.history),
                    ..self
                };
                let (model, step) = model.advanced(step);
                model.settled(
                    SessionStep { reply: Some(PlaybackControlResult::Accepted), ..step },
                )
            },
            AfterSpeech::Skip { track_id, current } => {
                let model = SessionModel {
                    player: self.player.finished(track_id),
                    history: if self.player.is_current(track_id) && current is Some {
                        history::remembered(self.history, current->0)
                    } else {
                        self.history
                    },
                    ..self
                };
                let (model, step) = model.advanced(step);
                model.settled(
                    SessionStep { reply: Some(PlaybackControlResult::Accepted), ..step },
                )
            },
            AfterSpeech::Pause => {
                let model = SessionModel {
                    session: VoiceSession {
                        active: match self.session.active {
                            Some(active) => Some(ActivePlayback { speaking: false, ..active }),
                            None => None,
                        },
                        ..self.session
                    },
                    ..self
                };
                model.settled(
                    SessionStep { reply: Some(PlaybackControlResult::Accepted), ..step },
                )
            },
            AfterSpeech::Stop { result } => self.settled(
                SessionStep { reply: Some(result), ..step },
            ),
            AfterSpeech::Completed { track_id, current, loop_mode } => {
                let model = SessionModel {
                    player: self.player.completed(track_id),
                    history: if self.player.is_current(track_id) && loop_mode != LoopMode::Track
                        && current is Some {
                        history::remembered(self.history, current->0)
                    } else {
                        self.history
                    },
                    ..self
                };
                let (model, step) = model.advanced(step);
                model.settled(step)
            },
            AfterSpeech::Broken { track_id } => {
                let model = SessionModel { player: self.player.finished(track_id), ..self };
                let (model, step) = model.advanced(step);
                model.settled(step)
            },
        }
    }

    /// Speech ends first, if the session speaks; then comes what follows.
    pub open spec fn hushed(self, speaking: bool, after: AfterSpeech, step: SessionStep) -> (
        SessionModel,
        SessionStep,
    ) {
        if speaking {
            (
                SessionModel {
                    session: VoiceSession {
                        phase: SessionPhase::EndingSpeech(after),
                        ..self.session
                    },
                    ..self
                },
                SessionStep { call: TransportCall::EndSpeech, ..step },
            )
        } else {
            self.resumed(after, step)
        }
    }

    /// The session without its active track.
    pub open spec fn dropped(self) -> SessionModel {
        SessionModel { session: VoiceSession { active: None, ..self.session }, ..self }
    }

    /// The session speaks.
    pub open spec fn is_speaking(self) -> bool {
        self.session.active matches Some(active) && active.speaking
    }

    /// The session decodes what the player shows as current.
    pub open spec fn plays_current(self) -> bool {
        self.session.active matches Some(active) && self.player.is_current(active.track_id)
    }

    /// The current track is decoded anew, from a position on, and the request
    /// is accepted; with nothing to decode, it is answered that nothing plays.
    pub open spec fn redecoded(self, position_millis: u64) -> (SessionModel, SessionStep) {
        if self.plays_current() {
            let model = SessionModel {
                session: VoiceSession {
                    active: Some(ActivePlayback { position_millis, ..self.session.active->0 }),
                    ..self.session
                },
                ..self
            };
            model.settled(
                SessionStep {
                    cancel: true,
                    start: Some(
                        PlaybackStart {
                            track: self.player.now_playing->0,
                            options: FfmpegDecodeOptions {
                                position_millis,
                                volume_percent: self.session.volume,
                            },
                        },
                    ),
                    ..SessionStep::answering(PlaybackControlResult::Accepted)
                },
            )
        } else {
            self.settled(SessionStep::answering(PlaybackControlResult::NothingPlaying))
        }
    }

    /// The position that the active track has reached.
    pub open spec fn position(self) -> u64 {
        match self.session.active {
            Some(active) => active.position_millis,
            None => 0,
        }
    }

    /// What a playback action leads to while the session runs.
    pub open spec fn controlled(self, action: PlaybackAction) -> (SessionModel, SessionStep) {
        match action {
            PlaybackAction::CheckContext => self.settled(
                SessionStep::answering(PlaybackControlResult::Accepted),
            ),
            PlaybackAction::Wake => if self.session.active is Some {
                self.settled(SessionStep::answering(PlaybackControlResult::Accepted))
            } else {
                let (model, step) = self.advanced(SessionStep::quiet());
                model.settled(
                    SessionStep {
                        reply: Some(
                            if model.session.active is Some {
                                PlaybackControlResult::Accepted
                            } else {
                                PlaybackControlResult::NothingPlaying
                            },
                        ),
                        ..step
                    },
                )
            },
            PlaybackAction::Previous => match history::newest(self.history) {
                None => self.settled(
                    SessionStep::answering(PlaybackControlResult::NothingPlaying),
                ),
                Some(previous) => self.dropped().hushed(
                    self.is_speaking(),
                    AfterSpeech::Previous { current: self.player.now_playing, previous },
                    SessionStep { cancel: self.session.active is Some, ..SessionStep::quiet() },
                ),
            },
            PlaybackAction::Skip => match self.session.active {
                None => self.settled(
                    SessionStep::answering(PlaybackControlResult::NothingPlaying),
                ),
                Some(active) => self.dropped().hushed(
                    active.speaking,
                    AfterSpeech::Skip {
                        track_id: active.track_id,
                        current: self.player.now_playing,
                    },
                    SessionStep { cancel: true, ..SessionStep::quiet() },
                ),
            },
            PlaybackAction::Seek { position_millis } => self.redecoded(position_millis),
            PlaybackAction::Volume { percent } => {
                let model = SessionModel {
                    session: VoiceSession { volume: percent, ..self.session },
                    ..self
                };
                model.redecoded(self.position())
            },
            PlaybackAction::Pause => match self.session.active {
                None => self.settled(
                    SessionStep::answering(PlaybackControlResult::NothingPlaying),
                ),
                Some(active) => if active.paused {
                    self.settled(SessionStep::answering(PlaybackControlResult::AlreadyPaused))
                } else {
                    let model = SessionModel {
                        session: VoiceSession {
                            active: Some(ActivePlayback { paused: true, ..active }),
                            ..self.session
                        },
                        ..self
                    };
                    model.hushed(active.speaking, AfterSpeech::Pause, SessionStep::quiet())
                },
            },
            PlaybackAction::Resume => match self.session.active {
                None => self.settled(
                    SessionStep::answering(PlaybackControlResult::NothingPlaying),
                ),
                Some(active) => if !active.paused {
                    self.settled(SessionStep::answering(PlaybackControlResult::AlreadyPlaying))
                } else {
                    let model = SessionModel {
                        session: VoiceSession {
                            active: Some(ActivePlayback { paused: false, ..active }),
                            ..self.session
                        },
                        ..self
                    };
                    model.settled(
                        SessionStep {
                            reset_pacer: true,
                            ..SessionStep::answering(PlaybackControlResult::Accepted)
                        },
                    )
                },
            },
            PlaybackAction::Stop => {
                let model = SessionModel { player: PlayerState::idle(), ..self.dropped() };
                model.hushed(
                    self.is_speaking(),
                    AfterSpeech::Stop {
                        result: if self.player.now_playing is None && self.player.queue.len() == 0 {
                            PlaybackControlResult::NothingPlaying
                        } else {
                            PlaybackControlResult::Accepted
                        },
                    },
                    SessionStep { cancel: self.session.active is Some, ..SessionStep::quiet() },
                )
            },
        }
    }

    /// What an input leads to while the session runs.
    pub open spec fn run(self, input: SessionInput) -> (SessionModel, SessionStep) {
        match input {
            SessionInput::Shutdown => {
                let model = SessionModel { player: PlayerState::idle(), ..self.dropped() };
                model.hushed(
                    self.is_speaking(),
                    AfterSpeech::Shutdown,
                    SessionStep { cancel: self.session.active is Some, ..SessionStep::quiet() },
                )
            },
            SessionInput::Playback(action) => self.controlled(action),
            SessionInput::VoiceFailed(error) => self.halted(
                VoiceWorkerStopReason::VoiceFailed(error),
                SessionStep::quiet(),
            ),
            SessionInput::Frame => match self.session.active {
                None => self.settled(SessionStep::quiet()),
                Some(active) => if active.speaking {
                    (
                        SessionModel {
                            session: VoiceSession { phase: SessionPhase::Sending, ..self.session },
                            ..self
                        },
                        SessionStep { call: TransportCall::SendFrame, ..SessionStep::quiet() },
                    )
                } else {
                    (
                        SessionModel {
                            session: VoiceSession {
                                phase: SessionPhase::BeginningSpeech,
                                ..self.session
                            },
                            ..self
                        },
                        SessionStep { call: TransportCall::BeginSpeech, ..SessionStep::quiet() },
                    )
                },
            },
            SessionInput::Finished => match self.session.active {
                None => self.settled(SessionStep::quiet()),
                Some(active) => self.dropped().hushed(
                    active.speaking,
                    AfterSpeech::Completed {
                        track_id: active.track_id,
                        current: self.player.now_playing,
                        loop_mode: self.player.loop_mode,
                    },
                    SessionStep::quiet(),
                ),
            },
            SessionInput::DecoderFailed => match self.session.active {
                None => self.settled(SessionStep::quiet()),
                Some(active) => self.dropped().hushed(
                    active.speaking,
                    AfterSpeech::Broken { track_id: active.track_id },
                    SessionStep::quiet(),
                ),
            },
            SessionInput::IdleTimeout => if self.session.active is Some {
                self.settled(SessionStep::quiet())
            } else if self.player.now_playing is None && self.player.queue.len() == 0 {
                self.halted(VoiceWorkerStopReason::IdleTimedOut, SessionStep::quiet())
            } else {
                let model = SessionModel {
                    session: VoiceSession { idle_timer: false, ..self.session },
                    ..self
                };
                let (model, step) = model.advanced(SessionStep::quiet());
                model.settled(step)
            },
            _ => self.settled(SessionStep::quiet()),
        }
    }

    /// What an input leads to. An input that the phase does not wait for
    /// changes nothing.
    pub open spec fn next(self, input: SessionInput) -> (SessionModel, SessionStep) {
        match self.session.phase {
            SessionPhase::Connecting => match input {
                SessionInput::Connected => {
                    let model = SessionModel {
                        session: VoiceSession { idle_timer: false, ..self.session },
                        ..self
                    };
                    model.settled(
                        SessionStep {
                            join_reply: Some(
                                VoiceJoinResult::Joined { channel_id: self.session.channel_id },
                            ),
                            ..SessionStep::quiet()
                        },
                    )
                },
                SessionInput::ConnectFailed(error) => (
                    SessionModel {
                        session: VoiceSession { phase: SessionPhase::Stopped, ..self.session },
                        ..self
                    },
                    SessionStep {
                        join_reply: Some(
                            VoiceJoinResult::Failed(JoinFailure::SessionFailed(error)),
                        ),
                        stop: Some(VoiceWorkerStopReason::ConnectFailed(error)),
                        ..SessionStep::quiet()
                    },
                ),
                SessionInput::ConnectInterrupted => (
                    SessionModel {
                        session: VoiceSession { phase: SessionPhase::Stopped, ..self.session },
                        player: PlayerState::idle(),
                        ..self
                    },
                    SessionStep {
                        join_reply: Some(VoiceJoinResult::Cancelled),
                        stop: Some(VoiceWorkerStopReason::Requested),
                        ..SessionStep::quiet()
                    },
                ),
                _ => (self, SessionStep::quiet()),
            },
            SessionPhase::Running => self.run(input),
            SessionPhase::EndingSpeech(after) => match input {
                SessionInput::SpeechEnded => self.resumed(after, SessionStep::quiet()),
                SessionInput::SpeechEndFailed(error) => match after {
                    AfterSpeech::Shutdown => self.halted(
                        VoiceWorkerStopReason::Requested,
                        SessionStep::quiet(),
                    ),
                    _ => self.halted(VoiceWorkerStopReason::VoiceFailed(error), SessionStep::quiet()),
                },
                _ => (self, SessionStep::quiet()),
            },
            SessionPhase::BeginningSpeech => match input {
                SessionInput::SpeechBegan => (
                    SessionModel {
                        session: VoiceSession {
                            active: match self.session.active {
                                Some(active) => Some(ActivePlayback { speaking: true, ..active }),
                                None => None,
                            },
                            phase: SessionPhase::Sending,
                            ..self.session
                        },
                        ..self
                    },
                    SessionStep { call: TransportCall::SendFrame, ..SessionStep::quiet() },
                ),
                SessionInput::SpeechBeginFailed(error) => self.halted(
                    VoiceWorkerStopReason::VoiceFailed(error),
                    SessionStep::quiet(),
                ),
                _ => (self, SessionStep::quiet()),
            },
            SessionPhase::Sending => match input {
                SessionInput::FrameSent => SessionModel {
                    session: VoiceSession {
                        active: match self.session.active {
                            Some(active) => Some(active.played()),
                            None => None,
                        },
                        ..self.session
                    },
                    ..self
                }.settled(SessionStep::quiet()),
                SessionInput::FrameFailed(error) => self.halted(
                    VoiceWorkerStopReason::VoiceFailed(error),
                    SessionStep::quiet(),
                ),
                _ => (self, SessionStep::quiet()),
            },
            SessionPhase::Stopped => (self, SessionStep::quiet()),
        }
    }
}


impl VoiceSession {
    /// A session whose transport is being set up.
    pub fn new(guild_id: GuildId, channel_id: ChannelId) -> (session: Self)
        ensures
            session == (VoiceSession {
                guild_id,
                channel_id,
                active: None,
                volume: FULL_VOLUME,
                idle_timer: false,
                phase: SessionPhase::Connecting,
            }),
    {
        VoiceSession {
            guild_id,
            channel_id,
            active: None,
            volume: FULL_VOLUME,
            idle_timer: false,
            phase: SessionPhase::Connecting,
        }
    }

    /// The decoder is listened to: a track is active and not paused.
    pub fn decoder_enabled(&self) -> (enabled: bool)
        ensures
            enabled == (self.active matches Some(active) && !active.paused),
    {
        match &self.active {
            Some(active) => !active.paused,
            None => false,
        }
    }

    /// The idle timer is listened to: no track is active.
    pub fn is_idle(&self) -> (idle: bool)
        ensures
            idle == (self.active is None),
    {
        self.active.is_none()
    }

    /// Takes an input and says what has to be done about it.
    pub fn handle(
        &mut self,
        input: SessionInput,
        players: &mut PlayerManager,
        history: &mut HistoryManager,
    ) -> (step: SessionStep)
        ensures
            ({
                let guild = old(self).guild_id;
                let before = SessionModel {
                    session: *old(self),
                    player: old(players).player(guild),
                    history: old(history).history(guild),
                };
                let after = SessionModel {
                    session: *final(self),
                    player: final(players).player(guild),
                    history: final(history).history(guild),
                };
                (after, step) == before.next(input)
            }),
            final(players).same_elsewhere(old(players), old(self).guild_id),
            final(players).last_track_id() == old(players).last_track_id(),
            final(history).same_elsewhere(old(history), old(self).guild_id),
    {
        let mut phase: SessionPhase = SessionPhase::Running;
        std::mem::swap(&mut phase, &mut self.phase);
        match phase {
            SessionPhase::Connecting => self.connecting(input, players),
            SessionPhase::Running => self.running(input, players, history),
            SessionPhase::EndingSpeech(after) => match input {
                SessionInput::SpeechEnded => self.resume(after, players, history, SessionStep::idle()),
                SessionInput::SpeechEndFailed(error) => match after {
                    AfterSpeech::Shutdown => {
                        self.halt(VoiceWorkerStopReason::Requested, players, SessionStep::idle())
                    },
                    _ => self.halt(VoiceWorkerStopReason::VoiceFailed(error), players, SessionStep::idle()),
                },
                _ => {
                    self.phase = SessionPhase::EndingSpeech(after);
                    SessionStep::idle()
                },
            },
            SessionPhase::BeginningSpeech => match input {
                SessionInput::SpeechBegan => {
                    self.mark_speaking(true);
                    self.phase = SessionPhase::Sending;
                    let mut step: SessionStep = SessionStep::idle();
                    step.call = TransportCall::SendFrame;
                    step
                },
                SessionInput::SpeechBeginFailed(error) => {
                    self.halt(VoiceWorkerStopReason::VoiceFailed(error), players, SessionStep::idle())
                },
                _ => {
                    self.phase = SessionPhase::BeginningSpeech;
                    SessionStep::idle()
                },
            },
            SessionPhase::Sending => match input {
                SessionInput::FrameSent => {
                    self.mark_played();
                    self.settle(SessionStep::idle())
                },
                SessionInput::FrameFailed(error) => {
                    self.halt(VoiceWorkerStopReason::VoiceFailed(error), players, SessionStep::idle())
                },
                _ => {
                    self.phase = SessionPhase::Sending;
                    SessionStep::idle()
                },
            },
            SessionPhase::Stopped => {
                self.phase = SessionPhase::Stopped;
                SessionStep::idle()
            },
        }
    }

    fn connecting(&mut self, input: SessionInput, players: &mut PlayerManager) -> (step: SessionStep)
        ensures
            (
                SessionModel {
                    session: *final(self),
                    player: final(players).player(old(self).guild_id),
                    history: Seq::empty(),
                },
                step,
            ) == (SessionModel {
                session: VoiceSession { phase: SessionPhase::Connecting, ..*old(self) },
                player: old(players).player(old(self).guild_id),
                history: Seq::empty(),
            }).next(input),
            final(players).same_elsewhere(old(players), old(self).guild_id),
            final(players).last_track_id() == old(players).last_track_id(),
    {
        let mut step: SessionStep = SessionStep::idle();
        match input {
            SessionInput::Connected => {
                self.idle_timer = false;
                step.join_reply = Some(VoiceJoinResult::Joined { channel_id: self.channel_id });
                self.settle(step)
            },
            SessionInput::ConnectFailed(error) => {
                self.phase = SessionPhase::Stopped;
                step.join_reply = Some(
                    VoiceJoinResult::Failed(JoinFailure::SessionFailed(error.clone())),
                );
                step.stop = Some(VoiceWorkerStopReason::ConnectFailed(error));
                step
            },
            SessionInput::ConnectInterrupted => {
                let _ = players.clear(self.guild_id);
                self.phase = SessionPhase::Stopped;
                step.join_reply = Some(VoiceJoinResult::Cancelled);
                step.stop = Some(VoiceWorkerStopReason::Requested);
                step
            },
            _ => {
                self.phase = SessionPhase::Connecting;
                step
            },
        }
    }

    fn running(
        &mut self,
        input: SessionInput,
        players: &mut PlayerManager,
        history: &mut HistoryManager,
    ) -> (step: SessionStep)
        requires
            old(self).phase is Running,
        ensures
            (
                SessionModel {
                    session: *final(self),
                    player: final(players).player(old(self).guild_id),
                    history: final(history).history(old(self).guild_id),
                },
                step,
            ) == (SessionModel {
                session: *old(self),
                player: old(players).player(old(self).guild_id),
                history: old(history).history(old(self).guild_id),
            }).run(input),
            final(players).same_elsewhere(old(players), old(self).guild_id),
            final(players).last_track_id() == old(players).last_track_id(),
            final(history).same_elsewhere(old(history), old(self).guild_id),
    {
        let mut step: SessionStep = SessionStep::idle();
        match input {
            SessionInput::Shutdown => {
                let _ = players.clear(self.guild_id);
                step.cancel = self.active.is_some();
                let speaking: bool = self.speaks();
                self.active = None;
                self.hush(speaking, AfterSpeech::Shutdown, players, history, step)
            },
            SessionInput::Playback(action) => self.control(action, players, history),
            SessionInput::VoiceFailed(error) => {
                self.halt(VoiceWorkerStopReason::VoiceFailed(error), players, step)
            },
            SessionInput::Frame => match self.active {
                None => self.settle(step),
                Some(active) => {
                    if active.speaking {
                        self.phase = SessionPhase::Sending;
                        step.call = TransportCall::SendFrame;
                    } else {
                        self.phase = SessionPhase::BeginningSpeech;
                        step.call = TransportCall::BeginSpeech;
                    }
                    step
                },
            },
            SessionInput::Finished => match self.active {
                None => self.settle(step),
                Some(active) => {
                    let after: AfterSpeech = AfterSpeech::Completed {
                        track_id: active.track_id,
                        current: players.snapshot(self.guild_id).now_playing,
                        loop_mode: players.loop_mode(self.guild_id),
                    };
                    self.active = None;
                    self.hush(active.speaking, after, players, history, step)
                },
            },
            SessionInput::DecoderFailed => match self.active {
                None => self.settle(step),
                Some(active) => {
                    self.active = None;
                    self.hush(
                        active.speaking,
                        AfterSpeech::Broken { track_id: active.track_id },
                        players,
                        history,
                        step,
                    )
                },
            },
            SessionInput::IdleTimeout => {
                if self.active.is_some() {
                    self.settle(step)
                } else if players.snapshot(self.guild_id).is_idle() {
                    self.halt(VoiceWorkerStopReason::IdleTimedOut, players, step)
                } else {
                    self.idle_timer = false;
                    let step: SessionStep = self.advance(players, step);
                    self.settle(step)
                }
            },
            _ => self.settle(step),
        }
    }

    fn control(
        &mut self,
        action: PlaybackAction,
        players: &mut PlayerManager,
        history: &mut HistoryManager,
    ) -> (step: SessionStep)
        ensures
            (
                SessionModel {
                    session: *final(self),
                    player: final(players).player(old(self).guild_id),
                    history: final(history).history(old(self).guild_id),
                },
                step,
            ) == (SessionModel {
                session: *old(self),
                player: old(players).player(old(self).guild_id),
                history: old(history).history(old(self).guild_id),
            }).controlled(action),
            final(players).same_elsewhere(old(players), old(self).guild_id),
            final(players).last_track_id() == old(players).last_track_id(),
            final(history).same_elsewhere(old(history), old(self).guild_id),
    {
        let mut step: SessionStep = SessionStep::idle();
        match action {
            PlaybackAction::CheckContext => {
                step.reply = Some(PlaybackControlResult::Accepted);
                self.settle(step)
            },
            PlaybackAction::Wake => {
                if self.active.is_none() {
                    step = self.advance(players, step);
                }
                if self.active.is_some() {
                    step.reply = Some(PlaybackControlResult::Accepted);
                } else {
                    step.reply = Some(PlaybackControlResult::NothingPlaying);
                }
                self.settle(step)
            },
            PlaybackAction::Previous => {
                let mut played: Vec<Track> = history.snapshot(self.guild_id);
                match played.pop() {
                    None => {
                        step.reply = Some(PlaybackControlResult::NothingPlaying);
                        self.settle(step)
                    },
                    Some(previous) => {
                        let current: Option<Track> = players.snapshot(self.guild_id).now_playing;
                        step.cancel = self.active.is_some();
                        let speaking: bool = self.speaks();
                        self.active = None;
                        self.hush(
                            speaking,
                            AfterSpeech::Previous { current, previous },
                            players,
                            history,
                            step,
                        )
                    },
                }
            },
            PlaybackAction::Skip => match self.active {
                None => {
                    step.reply = Some(PlaybackControlResult::NothingPlaying);
                    self.settle(step)
                },
                Some(active) => {
                    let current: Option<Track> = players.snapshot(self.guild_id).now_playing;
                    step.cancel = true;
                    self.active = None;
                    self.hush(
                        active.speaking,
                        AfterSpeech::Skip { track_id: active.track_id, current },
                        players,
                        history,
                        step,
                    )
                },
            },
            PlaybackAction::Seek { position_millis } => self.redecode(position_millis, players),
            PlaybackAction::Volume { percent } => {
                self.volume = percent;
                let position_millis: u64 = match &self.active {
                    Some(active) => active.position_millis,
                    None => 0,
                };
                self.redecode(position_millis, players)
            },
            PlaybackAction::Pause => match self.active {
                None => {
                    step.reply = Some(PlaybackControlResult::NothingPlaying);
                    self.settle(step)
                },
                Some(active) => {
                    if active.paused {
                        step.reply = Some(PlaybackControlResult::AlreadyPaused);
                        self.settle(step)
                    } else {
                        self.active = Some(
                            ActivePlayback {
                                track_id: active.track_id,
                                paused: true,
                                speaking: active.speaking,
                                position_millis: active.position_millis,
                            },
                        );
                        self.hush(active.speaking, AfterSpeech::Pause, players, history, step)
                    }
                },
            },
            PlaybackAction::Resume => match self.active {
                None => {
                    step.reply = Some(PlaybackControlResult::NothingPlaying);
                    self.settle(step)
                },
                Some(active) => {
                    if !active.paused {
                        step.reply = Some(PlaybackControlResult::AlreadyPlaying);
                    } else {
                        self.active = Some(
                            ActivePlayback {
                                track_id: active.track_id,
                                paused: false,
                                speaking: active.speaking,
                                position_millis: active.position_millis,
                            },
                        );
                        step.reset_pacer = true;
                        step.reply = Some(PlaybackControlResult::Accepted);
                    }
                    self.settle(step)
                },
            },
            PlaybackAction::Stop => {
                let removed: PlayerSnapshot = players.clear(self.guild_id);
                let result: PlaybackControlResult = if removed.is_idle() {
                    PlaybackControlResult::NothingPlaying
                } else {
                    PlaybackControlResult::Accepted
                };
                step.cancel = self.active.is_some();
                let speaking: bool = self.speaks();
                self.active = None;
                self.hush(speaking, AfterSpeech::Stop { result }, players, history, step)
            },
        }
    }

    fn hush(
        &mut self,
        speaking: bool,
        after: AfterSpeech,
        players: &mut PlayerManager,
        history: &mut HistoryManager,
        step: SessionStep,
    ) -> (done: SessionStep)
        ensures
            (
                SessionModel {
                    session: *final(self),
                    player: final(players).player(old(self).guild_id),
                    history: final(history).history(old(self).guild_id),
                },
                done,
            ) == (SessionModel {
                session: *old(self),
                player: old(players).player(old(self).guild_id),
                history: old(history).history(old(self).guild_id),
            }).hushed(speaking, after, step),
            final(players).same_elsewhere(old(players), old(self).guild_id),
            final(players).last_track_id() == old(players).last_track_id(),
            final(history).same_elsewhere(old(history), old(self).guild_id),
    {
        if speaking {
            let mut step: SessionStep = step;
            self.phase = SessionPhase::EndingSpeech(after);
            step.call = TransportCall::EndSpeech;
            step
        } else {
            self.resume(after, players, history, step)
        }
    }

    fn resume(
        &mut self,
        after: AfterSpeech,
        players: &mut PlayerManager,
        history: &mut HistoryManager,
        step: SessionStep,
    ) -> (done: SessionStep)
        ensures
            (
                SessionModel {
                    session: *final(self),
                    player: final(players).player(old(self).guild_id),
                    history: final(history).history(old(self).guild_id),
                },
                done,
            ) == (SessionModel {
                session: *old(self),
                player: old(players).player(old(self).guild_id),
                history: old(history).history(old(self).guild_id),
            }).resumed(after, step),
            final(players).same_elsewhere(old(players), old(self).guild_id),
            final(players).last_track_id() == old(players).last_track_id(),
            final(history).same_elsewhere(old(history), old(self).guild_id),
    {
        let guild_id: GuildId = self.guild_id;
        match after {
            AfterSpeech::Shutdown => self.halt(VoiceWorkerStopReason::Requested, players, step),
            AfterSpeech::Previous { current, previous } => {
                rewind(players, guild_id, current, previous);
                let _ = history.pop_latest(guild_id);
                let mut step: SessionStep = self.advance(players, step);
                step.reply = Some(PlaybackControlResult::Accepted);
                self.settle(step)
            },
            AfterSpeech::Skip { track_id, current } => {
                if players.finish_current(guild_id, track_id) {
                    if let Some(track) = current {
                        history.push(guild_id, track);
                    }
                }
                let mut step: SessionStep = self.advance(players, step);
                step.reply = Some(PlaybackControlResult::Accepted);
                self.settle(step)
            },
            AfterSpeech::Pause => {
                let mut step: SessionStep = step;
                self.mark_speaking(false);
                step.reply = Some(PlaybackControlResult::Accepted);
                self.settle(step)
            },
            AfterSpeech::Stop { result } => {
                let mut step: SessionStep = step;
                step.reply = Some(result);
                self.settle(step)
            },
            AfterSpeech::Completed { track_id, current, loop_mode } => {
                if players.complete_current(guild_id, track_id) && loop_mode != LoopMode::Track {
                    if let Some(track) = current {
                        history.push(guild_id, track);
                    }
                }
                let step: SessionStep = self.advance(players, step);
                self.settle(step)
            },
            AfterSpeech::Broken { track_id } => {
                let _ = players.finish_current(guild_id, track_id);
                let step: SessionStep = self.advance(players, step);
                self.settle(step)
            },
        }
    }

    fn advance(&mut self, players: &mut PlayerManager, step: SessionStep) -> (done: SessionStep)
        ensures
            ({
                let player = old(players).player(old(self).guild_id);
                &&& final(players).player(old(self).guild_id) == player.started()
                &&& player.can_start() ==> *final(self) == (VoiceSession {
                    active: Some(ActivePlayback::begun(player.queue[0].id)),
                    ..*old(self)
                }) && done == (SessionStep {
                    start: Some(
                        PlaybackStart {
                            track: player.queue[0],
                            options: FfmpegDecodeOptions {
                                position_millis: 0,
                                volume_percent: old(self).volume,
                            },
                        },
                    ),
                    ..step
                })
                &&& !player.can_start() ==> *final(self) == (VoiceSession {
                    active: None,
                    ..*old(self)
                }) && done == step
            }),
            final(players).same_elsewhere(old(players), old(self).guild_id),
            final(players).last_track_id() == old(players).last_track_id(),
    {
        let mut step: SessionStep = step;
        match players.start_next(self.guild_id) {
            Some(track) => {
                self.active = Some(
                    ActivePlayback {
                        track_id: track.id,
                        paused: false,
                        speaking: false,
                        position_millis: 0,
                    },
                );
                step.start = Some(
                    PlaybackStart {
                        track,
                        options: FfmpegDecodeOptions {
                            position_millis: 0,
                            volume_percent: self.volume,
                        },
                    },
                );
            },
            None => {
                self.active = None;
            },
        }
        step
    }

    fn settle(&mut self, step: SessionStep) -> (done: SessionStep)
        ensures
            *final(self) == (VoiceSession {
                idle_timer: old(self).active is None,
                phase: SessionPhase::Running,
                ..*old(self)
            }),
            done == (SessionStep {
                timer: if old(self).active is Some {
                    TimerChange::Disarm
                } else if old(self).idle_timer {
                    TimerChange::Keep
                } else {
                    TimerChange::Rearm
                },
                ..step
            }),
    {
        let mut step: SessionStep = step;
        if self.active.is_some() {
            self.idle_timer = false;
            step.timer = TimerChange::Disarm;
        } else if self.idle_timer {
            step.timer = TimerChange::Keep;
        } else {
            self.idle_timer = true;
            step.timer = TimerChange::Rearm;
        }
        self.phase = SessionPhase::Running;
        step
    }

    fn halt(
        &mut self,
        reason: VoiceWorkerStopReason,
        players: &mut PlayerManager,
        step: SessionStep,
    ) -> (done: SessionStep)
        ensures
            *final(self) == (VoiceSession {
                active: None,
                phase: SessionPhase::Stopped,
                ..*old(self)
            }),
            final(players).player(old(self).guild_id) == PlayerState::idle(),
            done == (SessionStep {
                cancel: step.cancel || old(self).active is Some,
                stop: Some(reason),
                ..step
            }),
            final(players).same_elsewhere(old(players), old(self).guild_id),
            final(players).last_track_id() == old(players).last_track_id(),
    {
        let mut step: SessionStep = step;
        let _ = players.clear(self.guild_id);
        if self.active.is_some() {
            step.cancel = true;
        }
        self.active = None;
        self.phase = SessionPhase::Stopped;
        step.stop = Some(reason);
        step
    }

    fn speaks(&self) -> (speaking: bool)
        ensures
            speaking == (self.active matches Some(active) && active.speaking),
    {
        match &self.active {
            Some(active) => active.speaking,
            None => false,
        }
    }

    fn mark_speaking(&mut self, speaking: bool)
        ensures
            *final(self) == (VoiceSession {
                active: match old(self).active {
                    Some(active) => Some(ActivePlayback { speaking, ..active }),
                    None => None,
                },
                ..*old(self)
            }),
    {
        if let Some(active) = self.active {
            self.active = Some(
                ActivePlayback {
                    track_id: active.track_id,
                    paused: active.paused,
                    speaking,
                    position_millis: active.position_millis,
                },
            );
        }
    }

    fn mark_played(&mut self)
        ensures
            *final(self) == (VoiceSession {
                active: match old(self).active {
                    Some(active) => Some(active.played()),
                    None => None,
                },
                ..*old(self)
            }),
    {
        if let Some(active) = self.active {
            self.active = Some(
                ActivePlayback {
                    track_id: active.track_id,
                    paused: active.paused,
                    speaking: active.speaking,
                    position_millis: active.position_millis.saturating_add(FRAME_MILLIS),
                },
            );
        }
    }

    fn redecode(&mut self, position_millis: u64, players: &PlayerManager) -> (step: SessionStep)
        ensures
            (
                SessionModel {
                    session: *final(self),
                    player: players.player(old(self).guild_id),
                    history: Seq::empty(),
                },
                step,
            ) == (SessionModel {
                session: *old(self),
                player: players.player(old(self).guild_id),
                history: Seq::empty(),
            }).redecoded(position_millis),
    {
        let mut step: SessionStep = SessionStep::idle();
        step.reply = Some(PlaybackControlResult::NothingPlaying);
        if let Some(active) = self.active {
            if let Some(track) = players.snapshot(self.guild_id).now_playing {
                if track.id == active.track_id {
                    self.active = Some(
                        ActivePlayback {
                            track_id: active.track_id,
                            paused: active.paused,
                            speaking: active.speaking,
                            position_millis,
                        },
                    );
                    step.cancel = true;
                    step.start = Some(
                        PlaybackStart {
                            track,
                            options: FfmpegDecodeOptions {
                                position_millis,
                                volume_percent: self.volume,
                            },
                        },
                    );
                    step.reply = Some(PlaybackControlResult::Accepted);
                }
            }
        }
        self.settle(step)
    }
}

/// Puts `previous`, and the current track behind it if it is still `current`,
/// before the queue.
fn rewind(players: &mut PlayerManager, guild_id: GuildId, current: Option<Track>, previous: Track)
    ensures
        final(players).player(guild_id) == rewound(
            old(players).player(guild_id),
            current,
            previous,
        ),
        final(players).same_elsewhere(old(players), guild_id),
        final(players).last_track_id() == old(players).last_track_id(),
{
    let ghost start = players.player(guild_id).queue;
    if let Some(current) = current {
        if players.finish_current(guild_id, current.id) {
            let position: usize = players.enqueue(guild_id, current);
            let _ = players.move_queued(guild_id, position - 1, 0);
            assert(players.player(guild_id).queue =~= seq![current] + start);
        }
    }
    let ghost middle = players.player(guild_id).queue;
    let ghost newest = previous;
    let position: usize = players.enqueue(guild_id, previous);
    let _ = players.move_queued(guild_id, position - 1, 0);
    assert(players.player(guild_id).queue =~= seq![newest] + middle);
}


impl SessionModel {
    /// What holds of a session between two inputs, while nothing but the
    /// session changes its player.
    pub open spec fn well_formed(self) -> bool {
        let playing = self.session.active matches Some(active) && self.player.is_current(
            active.track_id,
        );
        match self.session.phase {
            SessionPhase::Connecting => self.session.active is None,
            SessionPhase::Running => self.session.idle_timer == (self.session.active is None) && (
            self.session.active is Some ==> playing),
            SessionPhase::EndingSpeech(after) => if after is Pause {
                playing && self.session.active->0.paused && self.session.active->0.speaking
            } else {
                self.session.active is None
            },
            SessionPhase::BeginningSpeech => playing && !self.session.active->0.speaking,
            SessionPhase::Sending => playing && self.session.active->0.speaking,
            SessionPhase::Stopped => self.session.active is None,
        }
    }

    /// The session after a playback action, with speech ended without failure
    /// where the action asks for that.
    pub open spec fn performed(self, action: PlaybackAction) -> SessionModel {
        let after = self.next(SessionInput::Playback(action)).0;
        if after.session.phase is EndingSpeech {
            after.next(SessionInput::SpeechEnded).0
        } else {
            after
        }
    }
}

} // verus!
