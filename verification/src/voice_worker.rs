//! A voice worker that owns its queue: it prepares one track at a time, plays
//! it and goes on with the next.
//!
//! The worker decides; the task that owns the transport performs what a step
//! asks for and reports back how it went.

use std::collections::VecDeque;

use vstd::prelude::*;

use crate::gateway_control::{JoinFailure, VoiceJoinResult};
use crate::ids::{ChannelId, GuildId};
use crate::media::track::Track;
use crate::voice_session::VoiceWorkerStopReason;

pub mod outcomes;

verus! {

/// How many decoded frames may wait for the worker.
pub const DECODE_FRAME_BUFFER: usize = 2;

/// What a worker is asked for.
#[derive(Debug)]
pub enum VoiceWorkerCommand {
    Enqueue { track: Track },
    Skip,
    Shutdown,
}

/// How a request to queue a track is answered. Position zero is the track that
/// plays next, with nothing before it.
#[derive(Debug, PartialEq, Eq)]
pub enum TrackEnqueueResult {
    Accepted { position: usize },
    NotConnected,
    Failed(String),
}

/// How a request to skip a track is answered.
#[derive(Debug, PartialEq, Eq)]
pub enum SkipTrackResult {
    Skipped { title: String },
    NothingPlaying,
    NotConnected,
    Failed(String),
}

/// An answer to a command.
#[derive(Debug, PartialEq, Eq)]
pub enum WorkerReply {
    Enqueue(TrackEnqueueResult),
    Skip(SkipTrackResult),
}

/// What a worker shows of itself.
#[derive(Debug, Clone, Copy, PartialEq, Eq, Structural)]
pub enum PlaybackState {
    Idle,
    Loading,
    Playing,
}

/// A worker's queue and state as others see it.
#[derive(Debug)]
pub struct PublishedPlayback {
    pub channel_id: ChannelId,
    pub state: PlaybackState,
    pub current: Option<Track>,
    pub queue: Vec<Track>,
}

/// What remains to be done once the worker has stopped speaking.
#[derive(Debug)]
pub enum AfterSilence {
    Skip { title: String },
    Finish,
}

/// What the worker waits for.
#[derive(Debug)]
pub enum WorkerPhase {
    /// The transport is being set up.
    Connecting,
    /// The commands that were postponed are being handed in again.
    Replaying,
    /// Any input may come.
    Running,
    /// The transport is beginning speech for a track that is ready.
    BeginningSpeech,
    /// The transport is sending a frame.
    Sending,
    /// The transport is ending speech with silence.
    EndingSpeech(AfterSilence),
    /// The transport is ending speech for the last time.
    Closing(VoiceWorkerStopReason),
    /// Nothing more happens.
    Stopped,
}

/// What happened to the worker.
#[derive(Debug)]
pub enum WorkerInput {
    Connected,
    ConnectFailed(String),
    Command(VoiceWorkerCommand),
    /// Every command that was postponed has been handed in again.
    Replayed,
    /// No more commands will come.
    CommandsClosed,
    /// The voice transport reported an ordinary event.
    VoiceEvent,
    VoiceFailed(String),
    /// The track that was being prepared is ready to be decoded.
    Prepared,
    /// The track that was being prepared cannot be played.
    PrepareFailed,
    Frame,
    /// The decoder reached the end of the track.
    Finished,
    /// The decoder failed, or ended without saying how.
    DecoderFailed,
    SpeechBegan,
    SpeechBeginFailed(String),
    FrameSent,
    FrameFailed(String),
    SpeechEnded,
    SpeechEndFailed(String),
}

/// The transport call that a step asks for. Its outcome is the next input.
#[derive(Debug, Clone, Copy, PartialEq, Eq, Structural)]
pub enum SpeechCall {
    Nothing,
    Begin,
    Send,
    End,
}

/// What the worker's owner has to do.
#[derive(Debug)]
pub struct WorkerStep {
    /// Answer the request that asked for the voice join.
    pub join_reply: Option<VoiceJoinResult>,
    /// Keep the command. Once connected, hand in what was kept, in order, and
    /// then [`WorkerInput::Replayed`].
    pub postpone: bool,
    /// Answer the command.
    pub reply: Option<WorkerReply>,
    /// Give up preparing a track.
    pub abort_prepare: bool,
    /// Abort the decoder.
    pub abort_decoder: bool,
    /// Wait for the decoder, which has reached its end.
    pub await_decoder: bool,
    /// Prepare this track.
    pub prepare: Option<Track>,
    /// Start decoding the track that is ready.
    pub start_decoder: bool,
    /// Show the worker's queue and state to others.
    pub publish: bool,
    pub call: SpeechCall,
    /// Close the transport, withdraw what was shown and report the end.
    pub stop: Option<VoiceWorkerStopReason>,
}

impl WorkerStep {
    /// A step with nothing to do.
    pub open spec fn quiet() -> WorkerStep {
        WorkerStep {
            join_reply: None,
            postpone: false,
            reply: None,
            abort_prepare: false,
            abort_decoder: false,
            await_decoder: false,
            prepare: None,
            start_decoder: false,
            publish: false,
            call: SpeechCall::Nothing,
            stop: None,
        }
    }

    fn idle() -> (step: Self)
        ensures
            step == WorkerStep::quiet(),
    {
        WorkerStep {
            join_reply: None,
            postpone: false,
            reply: None,
            abort_prepare: false,
            abort_decoder: false,
            await_decoder: false,
            prepare: None,
            start_decoder: false,
            publish: false,
            call: SpeechCall::Nothing,
            stop: None,
        }
    }
}

/// A worker, as the contracts speak of it.
#[verifier::ext_equal]
pub struct WorkerModel {
    pub queue: Seq<Track>,
    pub current: Option<Track>,
    pub preparing: bool,
    pub active: bool,
    pub speaking: bool,
    pub phase: WorkerPhase,
}

impl WorkerModel {
    /// The state that is shown.
    pub open spec fn state(self) -> PlaybackState {
        if self.active {
            PlaybackState::Playing
        } else if self.preparing {
            PlaybackState::Loading
        } else {
            PlaybackState::Idle
        }
    }

    /// The position that a track gets which is queued now.
    pub open spec fn position(self) -> nat {
        if self.current is None && self.queue.len() == 0 {
            0
        } else {
            self.queue.len() + 1
        }
    }

    /// The worker is ready for the next input. If it has nothing at hand, it
    /// begins to prepare the first queued track.
    pub open spec fn settled(self, step: WorkerStep) -> (WorkerModel, WorkerStep) {
        let ready = WorkerModel { phase: WorkerPhase::Running, ..self };
        if self.current is None && !self.preparing && !self.active && self.queue.len() > 0 {
            (
                WorkerModel {
                    queue: self.queue.drop_first(),
                    current: Some(self.queue[0]),
                    preparing: true,
                    ..ready
                },
                WorkerStep { prepare: Some(self.queue[0]), publish: true, ..step },
            )
        } else {
            (ready, step)
        }
    }

    /// The worker has let go of everything and reports its end.
    pub open spec fn stopped(self, reason: VoiceWorkerStopReason, step: WorkerStep) -> (
        WorkerModel,
        WorkerStep,
    ) {
        (
            WorkerModel { phase: WorkerPhase::Stopped, ..self },
            WorkerStep { stop: Some(reason), ..step },
        )
    }

    /// The worker lets go of its track: preparation and decoder are aborted.
    pub open spec fn released(self) -> WorkerModel {
        WorkerModel { current: None, preparing: false, active: false, ..self }
    }

    /// The worker ends: queue and track are dropped, and speech ends for the
    /// last time.
    pub open spec fn closed(self, reason: VoiceWorkerStopReason, step: WorkerStep) -> (
        WorkerModel,
        WorkerStep,
    ) {
        let bare = WorkerModel { queue: Seq::empty(), ..self.released() };
        let step = WorkerStep {
            abort_prepare: self.preparing,
            abort_decoder: self.active,
            ..step
        };
        if self.speaking {
            (
                WorkerModel { phase: WorkerPhase::Closing(reason), ..bare },
                WorkerStep { call: SpeechCall::End, ..step },
            )
        } else {
            bare.stopped(reason, WorkerStep { publish: true, ..step })
        }
    }

    /// What follows once the worker no longer speaks.
    pub open spec fn silenced(self, after: AfterSilence, step: WorkerStep) -> (
        WorkerModel,
        WorkerStep,
    ) {
        let step = WorkerStep { publish: true, ..step };
        match after {
            AfterSilence::Skip { title } => self.settled(
                WorkerStep {
                    reply: Some(WorkerReply::Skip(SkipTrackResult::Skipped { title })),
                    ..step
                },
            ),
            AfterSilence::Finish => self.settled(step),
        }
    }

    /// Speech ends first, if the worker speaks; then comes what follows.
    pub open spec fn hushed(self, after: AfterSilence, step: WorkerStep) -> (
        WorkerModel,
        WorkerStep,
    ) {
        if self.speaking {
            (
                WorkerModel { phase: WorkerPhase::EndingSpeech(after), ..self },
                WorkerStep { call: SpeechCall::End, ..step },
            )
        } else {
            self.silenced(after, step)
        }
    }

    /// What a command leads to while the worker runs.
    pub open spec fn commanded(self, command: VoiceWorkerCommand) -> (WorkerModel, WorkerStep) {
        match command {
            VoiceWorkerCommand::Enqueue { track } => {
                let queued = WorkerModel { queue: self.queue.push(track), ..self };
                queued.settled(
                    WorkerStep {
                        reply: Some(
                            WorkerReply::Enqueue(
                                TrackEnqueueResult::Accepted { position: self.position() as usize },
                            ),
                        ),
                        publish: true,
                        ..WorkerStep::quiet()
                    },
                )
            },
            VoiceWorkerCommand::Skip => match self.current {
                None => self.settled(
                    WorkerStep {
                        reply: Some(WorkerReply::Skip(SkipTrackResult::NothingPlaying)),
                        ..WorkerStep::quiet()
                    },
                ),
                Some(track) => self.released().hushed(
                    AfterSilence::Skip { title: track.metadata.title },
                    WorkerStep {
                        abort_prepare: self.preparing,
                        abort_decoder: self.active,
                        ..WorkerStep::quiet()
                    },
                ),
            },
            VoiceWorkerCommand::Shutdown => self.closed(
                VoiceWorkerStopReason::Requested,
                WorkerStep::quiet(),
            ),
        }
    }

    /// What a postponed command leads to. No track is begun before the last of
    /// them.
    pub open spec fn replayed(self, command: VoiceWorkerCommand) -> (WorkerModel, WorkerStep) {
        match command {
            VoiceWorkerCommand::Enqueue { track } => (
                WorkerModel { queue: self.queue.push(track), ..self },
                WorkerStep {
                    reply: Some(
                        WorkerReply::Enqueue(
                            TrackEnqueueResult::Accepted { position: self.position() as usize },
                        ),
                    ),
                    publish: true,
                    ..WorkerStep::quiet()
                },
            ),
            VoiceWorkerCommand::Skip => (
                self,
                WorkerStep {
                    reply: Some(WorkerReply::Skip(SkipTrackResult::NothingPlaying)),
                    ..WorkerStep::quiet()
                },
            ),
            VoiceWorkerCommand::Shutdown => self.closed(
                VoiceWorkerStopReason::Requested,
                WorkerStep::quiet(),
            ),
        }
    }

    /// What an input leads to while the worker runs.
    pub open spec fn run(self, input: WorkerInput) -> (WorkerModel, WorkerStep) {
        match input {
            WorkerInput::Command(command) => self.commanded(command),
            WorkerInput::CommandsClosed => self.closed(
                VoiceWorkerStopReason::Requested,
                WorkerStep::quiet(),
            ),
            WorkerInput::VoiceFailed(error) => self.closed(
                VoiceWorkerStopReason::VoiceFailed(error),
                WorkerStep::quiet(),
            ),
            WorkerInput::Prepared => if self.preparing {
                (
                    WorkerModel {
                        preparing: false,
                        phase: WorkerPhase::BeginningSpeech,
                        ..self
                    },
                    WorkerStep { call: SpeechCall::Begin, ..WorkerStep::quiet() },
                )
            } else {
                self.settled(WorkerStep::quiet())
            },
            WorkerInput::PrepareFailed => if self.preparing {
                WorkerModel { preparing: false, current: None, ..self }.settled(
                    WorkerStep { publish: true, ..WorkerStep::quiet() },
                )
            } else {
                self.settled(WorkerStep::quiet())
            },
            WorkerInput::Frame => if self.active {
                (
                    WorkerModel { phase: WorkerPhase::Sending, ..self },
                    WorkerStep { call: SpeechCall::Send, ..WorkerStep::quiet() },
                )
            } else {
                self.settled(WorkerStep::quiet())
            },
            WorkerInput::Finished => if self.active {
                WorkerModel { active: false, current: None, ..self }.hushed(
                    AfterSilence::Finish,
                    WorkerStep { await_decoder: true, ..WorkerStep::quiet() },
                )
            } else {
                self.settled(WorkerStep::quiet())
            },
            WorkerInput::DecoderFailed => if self.active {
                WorkerModel { active: false, current: None, ..self }.hushed(
                    AfterSilence::Finish,
                    WorkerStep { abort_decoder: true, ..WorkerStep::quiet() },
                )
            } else {
                self.settled(WorkerStep::quiet())
            },
            _ => self.settled(WorkerStep::quiet()),
        }
    }

    /// What an input leads to. An input that the phase does not wait for
    /// changes nothing.
    pub open spec fn next(self, input: WorkerInput, channel_id: ChannelId) -> (
        WorkerModel,
        WorkerStep,
    ) {
        match self.phase {
            WorkerPhase::Connecting => match input {
                WorkerInput::Connected => (
                    WorkerModel { phase: WorkerPhase::Replaying, ..self },
                    WorkerStep {
                        join_reply: Some(VoiceJoinResult::Joined { channel_id }),
                        publish: true,
                        ..WorkerStep::quiet()
                    },
                ),
                WorkerInput::ConnectFailed(error) => self.stopped(
                    VoiceWorkerStopReason::ConnectFailed(error),
                    WorkerStep {
                        join_reply: Some(
                            VoiceJoinResult::Failed(JoinFailure::SessionFailed(error)),
                        ),
                        ..WorkerStep::quiet()
                    },
                ),
                WorkerInput::Command(VoiceWorkerCommand::Shutdown) | WorkerInput::CommandsClosed =>
                    self.stopped(
                    VoiceWorkerStopReason::Requested,
                    WorkerStep {
                        join_reply: Some(VoiceJoinResult::Cancelled),
                        ..WorkerStep::quiet()
                    },
                ),
                WorkerInput::Command(_) => (
                    self,
                    WorkerStep { postpone: true, ..WorkerStep::quiet() },
                ),
                _ => (self, WorkerStep::quiet()),
            },
            WorkerPhase::Replaying => match input {
                WorkerInput::Command(command) => self.replayed(command),
                WorkerInput::Replayed => self.settled(WorkerStep::quiet()),
                _ => (self, WorkerStep::quiet()),
            },
            WorkerPhase::Running => self.run(input),
            WorkerPhase::BeginningSpeech => match input {
                WorkerInput::SpeechBegan => WorkerModel {
                    speaking: true,
                    active: true,
                    ..self
                }.settled(
                    WorkerStep { start_decoder: true, publish: true, ..WorkerStep::quiet() },
                ),
                WorkerInput::SpeechBeginFailed(error) => self.closed(
                    VoiceWorkerStopReason::VoiceFailed(error),
                    WorkerStep::quiet(),
                ),
                _ => (self, WorkerStep::quiet()),
            },
            WorkerPhase::Sending => match input {
                WorkerInput::FrameSent => self.settled(WorkerStep::quiet()),
                WorkerInput::FrameFailed(error) => self.closed(
                    VoiceWorkerStopReason::VoiceFailed(error),
                    WorkerStep::quiet(),
                ),
                _ => (self, WorkerStep::quiet()),
            },
            WorkerPhase::EndingSpeech(after) => match input {
                WorkerInput::SpeechEnded => WorkerModel { speaking: false, ..self }.silenced(
                    after,
                    WorkerStep::quiet(),
                ),
                WorkerInput::SpeechEndFailed(error) => self.closed(
                    VoiceWorkerStopReason::VoiceFailed(error),
                    WorkerStep {
                        reply: match after {
                            AfterSilence::Skip { .. } => Some(
                                WorkerReply::Skip(SkipTrackResult::Failed(error)),
                            ),
                            AfterSilence::Finish => None,
                        },
                        ..WorkerStep::quiet()
                    },
                ),
                _ => (self, WorkerStep::quiet()),
            },
            WorkerPhase::Closing(reason) => match input {
                WorkerInput::SpeechEnded => WorkerModel { speaking: false, ..self }.stopped(
                    reason,
                    WorkerStep { publish: true, ..WorkerStep::quiet() },
                ),
                WorkerInput::SpeechEndFailed(error) => self.stopped(
                    VoiceWorkerStopReason::VoiceFailed(error),
                    WorkerStep::quiet(),
                ),
                _ => (self, WorkerStep::quiet()),
            },
            WorkerPhase::Stopped => (self, WorkerStep::quiet()),
        }
    }

    /// What holds of a worker between two inputs.
    pub open spec fn well_formed(self) -> bool {
        &&& self.preparing ==> self.current is Some && !self.active && !self.speaking
        &&& self.active ==> self.current is Some && self.speaking
        &&& match self.phase {
            WorkerPhase::Connecting => self.queue.len() == 0 && self.current is None
                && !self.speaking,
            WorkerPhase::Replaying => self.current is None && !self.speaking,
            WorkerPhase::Running => if self.current is Some {
                self.preparing || self.active
            } else {
                self.queue.len() == 0 && !self.speaking
            },
            WorkerPhase::BeginningSpeech => self.current is Some && !self.preparing
                && !self.active && !self.speaking,
            WorkerPhase::Sending => self.active,
            WorkerPhase::EndingSpeech(_) => self.current is None && self.speaking,
            WorkerPhase::Closing(_) => self.current is None && self.queue.len() == 0,
            WorkerPhase::Stopped => self.current is None && self.queue.len() == 0,
        }
    }
}

/// A voice worker that owns its queue.
#[derive(Debug)]
pub struct GuildPlayback {
    guild_id: GuildId,
    channel_id: ChannelId,
    queue: VecDeque<Track>,
    current: Option<Track>,
    preparing: bool,
    active: bool,
    speaking: bool,
    phase: WorkerPhase,
}

impl View for GuildPlayback {
    type V = WorkerModel;

    closed spec fn view(&self) -> WorkerModel {
        WorkerModel {
            queue: self.queue@,
            current: self.current,
            preparing: self.preparing,
            active: self.active,
            speaking: self.speaking,
            phase: self.phase,
        }
    }
}

impl GuildPlayback {
    /// The guild and the channel that the worker serves.
    pub closed spec fn place(&self) -> (GuildId, ChannelId) {
        (self.guild_id, self.channel_id)
    }

    /// A worker whose transport is being set up.
    pub fn new(guild_id: GuildId, channel_id: ChannelId) -> (worker: Self)
        ensures
            worker.place() == (guild_id, channel_id),
            worker@ == (WorkerModel {
                queue: Seq::empty(),
                current: None,
                preparing: false,
                active: false,
                speaking: false,
                phase: WorkerPhase::Connecting,
            }),
            worker@.well_formed(),
    {
        GuildPlayback {
            guild_id,
            channel_id,
            queue: VecDeque::new(),
            current: None,
            preparing: false,
            active: false,
            speaking: false,
            phase: WorkerPhase::Connecting,
        }
    }

    /// A track is being prepared.
    pub fn is_preparing(&self) -> (preparing: bool)
        ensures
            preparing == self@.preparing,
    {
        self.preparing
    }

    /// A track is being decoded.
    pub fn is_active(&self) -> (active: bool)
        ensures
            active == self@.active,
    {
        self.active
    }

    /// What the worker shows of itself.
    pub fn published(&self) -> (shown: PublishedPlayback)
        ensures
            shown.channel_id == self.place().1,
            shown.state == self@.state(),
            shown.current == self@.current,
            shown.queue@ == self@.queue,
    {
        let state: PlaybackState = if self.active {
            PlaybackState::Playing
        } else if self.preparing {
            PlaybackState::Loading
        } else {
            PlaybackState::Idle
        };
        let mut queue: Vec<Track> = Vec::new();
        let mut i: usize = 0;
        while i < self.queue.len()
            invariant
                i <= self.queue@.len(),
                queue@ == self.queue@.take(i as int),
            decreases self.queue@.len() - i,
        {
            queue.push(self.queue[i].clone());
            assert(self.queue@.take(i + 1) =~= self.queue@.take(i as int).push(
                self.queue@[i as int],
            ));
            i += 1;
        }
        assert(self.queue@.take(i as int) =~= self.queue@);
        PublishedPlayback {
            channel_id: self.channel_id,
            state,
            current: self.current.clone(),
            queue,
        }
    }

    /// Takes an input and says what has to be done about it.
    pub fn handle(&mut self, input: WorkerInput) -> (step: WorkerStep)
        ensures
            (final(self)@, step) == old(self)@.next(input, old(self).place().1),
            final(self).place() == old(self).place(),
    {
        let mut phase: WorkerPhase = WorkerPhase::Running;
        std::mem::swap(&mut phase, &mut self.phase);
        match phase {
            WorkerPhase::Connecting => self.connecting(input),
            WorkerPhase::Replaying => self.replaying(input),
            WorkerPhase::Running => self.running(input),
            WorkerPhase::BeginningSpeech => match input {
                WorkerInput::SpeechBegan => {
                    self.speaking = true;
                    self.active = true;
                    let mut step: WorkerStep = WorkerStep::idle();
                    step.start_decoder = true;
                    step.publish = true;
                    self.settle(step)
                },
                WorkerInput::SpeechBeginFailed(error) => {
                    self.shutdown(VoiceWorkerStopReason::VoiceFailed(error), WorkerStep::idle())
                },
                _ => {
                    self.phase = WorkerPhase::BeginningSpeech;
                    WorkerStep::idle()
                },
            },
            WorkerPhase::Sending => match input {
                WorkerInput::FrameSent => self.settle(WorkerStep::idle()),
                WorkerInput::FrameFailed(error) => {
                    self.shutdown(VoiceWorkerStopReason::VoiceFailed(error), WorkerStep::idle())
                },
                _ => {
                    self.phase = WorkerPhase::Sending;
                    WorkerStep::idle()
                },
            },
            WorkerPhase::EndingSpeech(after) => match input {
                WorkerInput::SpeechEnded => {
                    self.speaking = false;
                    self.go_on(after, WorkerStep::idle())
                },
                WorkerInput::SpeechEndFailed(error) => {
                    let mut step: WorkerStep = WorkerStep::idle();
                    if let AfterSilence::Skip { .. } = after {
                        step.reply = Some(WorkerReply::Skip(SkipTrackResult::Failed(error.clone())));
                    }
                    self.shutdown(VoiceWorkerStopReason::VoiceFailed(error), step)
                },
                _ => {
                    self.phase = WorkerPhase::EndingSpeech(after);
                    WorkerStep::idle()
                },
            },
            WorkerPhase::Closing(reason) => match input {
                WorkerInput::SpeechEnded => {
                    self.speaking = false;
                    let mut step: WorkerStep = WorkerStep::idle();
                    step.publish = true;
                    self.stop(reason, step)
                },
                WorkerInput::SpeechEndFailed(error) => {
                    self.stop(VoiceWorkerStopReason::VoiceFailed(error), WorkerStep::idle())
                },
                _ => {
                    self.phase = WorkerPhase::Closing(reason);
                    WorkerStep::idle()
                },
            },
            WorkerPhase::Stopped => {
                self.phase = WorkerPhase::Stopped;
                WorkerStep::idle()
            },
        }
    }

    fn connecting(&mut self, input: WorkerInput) -> (step: WorkerStep)
        ensures
            (final(self)@, step) == (WorkerModel {
                phase: WorkerPhase::Connecting,
                ..old(self)@
            }).next(input, old(self).place().1),
            final(self).place() == old(self).place(),
    {
        let mut step: WorkerStep = WorkerStep::idle();
        match input {
            WorkerInput::Connected => {
                step.join_reply = Some(VoiceJoinResult::Joined { channel_id: self.channel_id });
                step.publish = true;
                self.phase = WorkerPhase::Replaying;
                step
            },
            WorkerInput::ConnectFailed(error) => {
                step.join_reply = Some(
                    VoiceJoinResult::Failed(JoinFailure::SessionFailed(error.clone())),
                );
                self.stop(VoiceWorkerStopReason::ConnectFailed(error), step)
            },
            WorkerInput::Command(command) => match command {
                VoiceWorkerCommand::Shutdown => {
                    step.join_reply = Some(VoiceJoinResult::Cancelled);
                    self.stop(VoiceWorkerStopReason::Requested, step)
                },
                _ => {
                    self.phase = WorkerPhase::Connecting;
                    step.postpone = true;
                    step
                },
            },
            WorkerInput::CommandsClosed => {
                step.join_reply = Some(VoiceJoinResult::Cancelled);
                self.stop(VoiceWorkerStopReason::Requested, step)
            },
            _ => {
                self.phase = WorkerPhase::Connecting;
                step
            },
        }
    }

    fn replaying(&mut self, input: WorkerInput) -> (step: WorkerStep)
        ensures
            (final(self)@, step) == (WorkerModel {
                phase: WorkerPhase::Replaying,
                ..old(self)@
            }).next(input, old(self).place().1),
            final(self).place() == old(self).place(),
    {
        let mut step: WorkerStep = WorkerStep::idle();
        self.phase = WorkerPhase::Replaying;
        match input {
            WorkerInput::Command(command) => match command {
                VoiceWorkerCommand::Enqueue { track } => {
                    let position: usize = self.enqueue(track);
                    step.reply = Some(
                        WorkerReply::Enqueue(TrackEnqueueResult::Accepted { position }),
                    );
                    step.publish = true;
                    step
                },
                VoiceWorkerCommand::Skip => {
                    step.reply = Some(WorkerReply::Skip(SkipTrackResult::NothingPlaying));
                    step
                },
                VoiceWorkerCommand::Shutdown => {
                    self.shutdown(VoiceWorkerStopReason::Requested, step)
                },
            },
            WorkerInput::Replayed => self.settle(step),
            _ => step,
        }
    }

    fn running(&mut self, input: WorkerInput) -> (step: WorkerStep)
        ensures
            (final(self)@, step) == old(self)@.run(input),
            final(self).place() == old(self).place(),
    {
        let mut step: WorkerStep = WorkerStep::idle();
        match input {
            WorkerInput::Command(command) => self.apply_command(command),
            WorkerInput::CommandsClosed => self.shutdown(VoiceWorkerStopReason::Requested, step),
            WorkerInput::VoiceFailed(error) => {
                self.shutdown(VoiceWorkerStopReason::VoiceFailed(error), step)
            },
            WorkerInput::Prepared => {
                if self.preparing {
                    self.preparing = false;
                    self.phase = WorkerPhase::BeginningSpeech;
                    step.call = SpeechCall::Begin;
                    step
                } else {
                    self.settle(step)
                }
            },
            WorkerInput::PrepareFailed => {
                if self.preparing {
                    self.preparing = false;
                    self.current = None;
                    step.publish = true;
                }
                self.settle(step)
            },
            WorkerInput::Frame => {
                if self.active {
                    self.phase = WorkerPhase::Sending;
                    step.call = SpeechCall::Send;
                    step
                } else {
                    self.settle(step)
                }
            },
            WorkerInput::Finished => {
                if self.active {
                    step.await_decoder = true;
                    self.finish_current(step)
                } else {
                    self.settle(step)
                }
            },
            WorkerInput::DecoderFailed => {
                if self.active {
                    step.abort_decoder = true;
                    self.finish_current(step)
                } else {
                    self.settle(step)
                }
            },
            _ => self.settle(step),
        }
    }

    fn apply_command(&mut self, command: VoiceWorkerCommand) -> (step: WorkerStep)
        ensures
            (final(self)@, step) == old(self)@.commanded(command),
            final(self).place() == old(self).place(),
    {
        let mut step: WorkerStep = WorkerStep::idle();
        match command {
            VoiceWorkerCommand::Enqueue { track } => {
                let position: usize = self.enqueue(track);
                step.reply = Some(
                    WorkerReply::Enqueue(TrackEnqueueResult::Accepted { position }),
                );
                step.publish = true;
                self.settle(step)
            },
            VoiceWorkerCommand::Skip => {
                let title: Option<String> = match &self.current {
                    Some(track) => Some(track.metadata.title.clone()),
                    None => None,
                };
                match title {
                    None => {
                        step.reply = Some(WorkerReply::Skip(SkipTrackResult::NothingPlaying));
                        self.settle(step)
                    },
                    Some(title) => {
                        step.abort_prepare = self.preparing;
                        step.abort_decoder = self.active;
                        self.current = None;
                        self.preparing = false;
                        self.active = false;
                        self.hush(AfterSilence::Skip { title }, step)
                    },
                }
            },
            VoiceWorkerCommand::Shutdown => self.shutdown(VoiceWorkerStopReason::Requested, step),
        }
    }

    /// Queues a track and says at which position.
    fn enqueue(&mut self, track: Track) -> (position: usize)
        ensures
            position == old(self)@.position(),
            final(self)@ == (WorkerModel { queue: old(self)@.queue.push(track), ..old(self)@ }),
            final(self).place() == old(self).place(),
    {
        let next: bool = self.current.is_none() && self.queue.len() == 0;
        self.queue.push_back(track);
        if next {
            0
        } else {
            self.queue.len()
        }
    }

    fn finish_current(&mut self, step: WorkerStep) -> (done: WorkerStep)
        ensures
            (final(self)@, done) == (WorkerModel {
                active: false,
                current: None,
                ..old(self)@
            }).hushed(AfterSilence::Finish, step),
            final(self).place() == old(self).place(),
    {
        self.active = false;
        self.current = None;
        self.hush(AfterSilence::Finish, step)
    }

    fn hush(&mut self, after: AfterSilence, step: WorkerStep) -> (done: WorkerStep)
        ensures
            (final(self)@, done) == old(self)@.hushed(after, step),
            final(self).place() == old(self).place(),
    {
        if self.speaking {
            let mut step: WorkerStep = step;
            self.phase = WorkerPhase::EndingSpeech(after);
            step.call = SpeechCall::End;
            step
        } else {
            self.go_on(after, step)
        }
    }

    fn go_on(&mut self, after: AfterSilence, step: WorkerStep) -> (done: WorkerStep)
        ensures
            (final(self)@, done) == old(self)@.silenced(after, step),
            final(self).place() == old(self).place(),
    {
        let mut step: WorkerStep = step;
        step.publish = true;
        if let AfterSilence::Skip { title } = after {
            step.reply = Some(WorkerReply::Skip(SkipTrackResult::Skipped { title }));
        }
        self.settle(step)
    }

    fn settle(&mut self, step: WorkerStep) -> (done: WorkerStep)
        ensures
            (final(self)@, done) == old(self)@.settled(step),
            final(self).place() == old(self).place(),
    {
        self.phase = WorkerPhase::Running;
        self.start_next_if_idle(step)
    }

    fn start_next_if_idle(&mut self, step: WorkerStep) -> (done: WorkerStep)
        requires
            old(self)@.phase is Running,
        ensures
            (final(self)@, done) == old(self)@.settled(step),
            final(self).place() == old(self).place(),
    {
        let mut step: WorkerStep = step;
        if self.current.is_some() || self.preparing || self.active {
            return step;
        }
        if let Some(track) = self.queue.pop_front() {
            self.current = Some(track.clone());
            self.preparing = true;
            step.prepare = Some(track);
            step.publish = true;
        }
        step
    }

    fn shutdown(&mut self, reason: VoiceWorkerStopReason, step: WorkerStep) -> (done: WorkerStep)
        ensures
            (final(self)@, done) == old(self)@.closed(reason, step),
            final(self).place() == old(self).place(),
    {
        let mut step: WorkerStep = step;
        step.abort_prepare = self.preparing;
        step.abort_decoder = self.active;
        self.queue.clear();
        self.preparing = false;
        self.active = false;
        self.current = None;
        if self.speaking {
            self.phase = WorkerPhase::Closing(reason);
            step.call = SpeechCall::End;
            step
        } else {
            step.publish = true;
            self.stop(reason, step)
        }
    }

    fn stop(&mut self, reason: VoiceWorkerStopReason, step: WorkerStep) -> (done: WorkerStep)
        ensures
            (final(self)@, done) == old(self)@.stopped(reason, step),
            final(self).place() == old(self).place(),
    {
        let mut step: WorkerStep = step;
        self.phase = WorkerPhase::Stopped;
        step.stop = Some(reason);
        step
    }
}

/// A worker stays well formed whatever comes in: it prepares or decodes at
/// most one track, its current one, and it speaks while it decodes.
pub proof fn law_worker_stays_well_formed(
    worker: WorkerModel,
    input: WorkerInput,
    channel_id: ChannelId,
)
    requires
        worker.well_formed(),
    ensures
        worker.next(input, channel_id).0.well_formed(),
{
    let after = worker.next(input, channel_id).0;
    match worker.phase {
        WorkerPhase::Connecting => {
            assert(after.well_formed());
        },
        WorkerPhase::Running => {
            match input {
                WorkerInput::Command(command) => {
                    match command {
                        VoiceWorkerCommand::Enqueue { .. } => {
                            assert(after.well_formed());
                        },
                        VoiceWorkerCommand::Skip => {
                            assert(after.well_formed());
                        },
                        VoiceWorkerCommand::Shutdown => {
                            assert(after.well_formed());
                        },
                    }
                },
                WorkerInput::Finished => {
                    assert(after.well_formed());
                },
                WorkerInput::DecoderFailed => {
                    assert(after.well_formed());
                },
                _ => {
                    assert(after.well_formed());
                },
            }
        },
        WorkerPhase::EndingSpeech(rest) => {
            assert(after.well_formed());
        },
        _ => {
            assert(after.well_formed());
        },
    }
}

/// A worker that has nothing at hand begins with a track as soon as it is
/// queued; any other worker puts it behind the tracks that it has.
pub proof fn law_enqueued_track_waits_its_turn(
    worker: WorkerModel,
    track: Track,
    channel_id: ChannelId,
)
    requires
        worker.well_formed(),
        worker.phase is Running,
    ensures
        ({
            let (after, step) = worker.next(
                WorkerInput::Command(VoiceWorkerCommand::Enqueue { track }),
                channel_id,
            );
            &&& worker.position() == 0 ==> step.prepare == Some(track) && after.current == Some(
                track,
            )
            &&& worker.current is Some ==> step.prepare is None && after.queue
                == worker.queue.push(track) && after.queue.len() == worker.position()
        }),
{
    if worker.position() == 0 {
        assert(worker.queue.push(track)[0] == track);
    }
}

/// The worker after tracks were handed in, one after the other.
pub open spec fn handed_in(
    worker: WorkerModel,
    tracks: Seq<Track>,
    channel_id: ChannelId,
) -> WorkerModel
    decreases tracks.len(),
{
    if tracks.len() == 0 {
        worker
    } else {
        handed_in(worker, tracks.drop_last(), channel_id).next(
            WorkerInput::Command(VoiceWorkerCommand::Enqueue { track: tracks.last() }),
            channel_id,
        ).0
    }
}

/// Tracks that were asked for while the worker connected are all queued, in
/// order, before the first of them is begun; each is told its place in that
/// queue, and a skip among them finds nothing to skip.
pub proof fn law_postponed_tracks_keep_their_order(
    worker: WorkerModel,
    tracks: Seq<Track>,
    track: Track,
    channel_id: ChannelId,
)
    requires
        worker.well_formed(),
        worker.phase is Connecting,
        tracks.len() < usize::MAX,
    ensures
        ({
            let connected = worker.next(WorkerInput::Connected, channel_id).0;
            let queued = handed_in(connected, tracks, channel_id);
            let (after, step) = queued.next(WorkerInput::Replayed, channel_id);
            &&& queued.queue == tracks && queued.current is None
            &&& queued.next(
                WorkerInput::Command(VoiceWorkerCommand::Enqueue { track }),
                channel_id,
            ).1.reply == Some(
                WorkerReply::Enqueue(
                    TrackEnqueueResult::Accepted {
                        position: if tracks.len() == 0 {
                            0
                        } else {
                            (tracks.len() + 1) as usize
                        },
                    },
                ),
            )
            &&& queued.next(WorkerInput::Command(VoiceWorkerCommand::Skip), channel_id) == (
                queued,
                WorkerStep {
                    reply: Some(WorkerReply::Skip(SkipTrackResult::NothingPlaying)),
                    ..WorkerStep::quiet()
                },
            )
            &&& tracks.len() > 0 ==> step.prepare == Some(tracks[0]) && after.current == Some(
                tracks[0],
            ) && after.queue == tracks.drop_first()
            &&& tracks.len() == 0 ==> step == WorkerStep::quiet() && after.current is None
        }),
{
    lemma_handed_in(worker.next(WorkerInput::Connected, channel_id).0, tracks, channel_id);
}

proof fn lemma_handed_in(worker: WorkerModel, tracks: Seq<Track>, channel_id: ChannelId)
    requires
        worker.phase is Replaying,
        worker.queue.len() == 0,
    ensures
        handed_in(worker, tracks, channel_id) == (WorkerModel { queue: tracks, ..worker }),
    decreases tracks.len(),
{
    if tracks.len() > 0 {
        lemma_handed_in(worker, tracks.drop_last(), channel_id);
        assert(tracks.drop_last().push(tracks.last()) =~= tracks);
    } else {
        assert(worker.queue =~= tracks);
    }
}

/// Skipping lets go of the current track alone and goes on with the first
/// queued one.
pub proof fn law_skip_goes_on_with_the_queue(worker: WorkerModel, channel_id: ChannelId)
    requires
        worker.well_formed(),
        worker.phase is Running,
        worker.current is Some,
    ensures
        ({
            let (after, step) = worker.next(
                WorkerInput::Command(VoiceWorkerCommand::Skip),
                channel_id,
            );
            let (done, last) = if after.phase is EndingSpeech {
                after.next(WorkerInput::SpeechEnded, channel_id)
            } else {
                (after, step)
            };
            &&& last.reply == Some(
                WorkerReply::Skip(
                    SkipTrackResult::Skipped { title: worker.current->0.metadata.title },
                ),
            )
            &&& worker.queue.len() == 0 ==> done.current is None && done.queue.len() == 0
            &&& worker.queue.len() > 0 ==> done.current == Some(worker.queue[0]) && done.queue
                == worker.queue.drop_first() && last.prepare == Some(worker.queue[0])
        }),
{
}

/// A worker that reports its end holds nothing any more.
pub proof fn law_ended_worker_holds_nothing(
    worker: WorkerModel,
    input: WorkerInput,
    channel_id: ChannelId,
)
    requires
        worker.well_formed(),
        worker.next(input, channel_id).1.stop is Some,
    ensures
        worker.next(input, channel_id).0.current is None,
        worker.next(input, channel_id).0.queue.len() == 0,
        worker.next(input, channel_id).0.phase is Stopped,
{
    law_worker_stays_well_formed(worker, input, channel_id);
}

} // verus!
