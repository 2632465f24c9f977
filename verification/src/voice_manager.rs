//! Which guild has a voice join under way and which has a voice worker.
//!
//! The registry decides what is answered, started and forgotten. The task that
//! owns the Gateway connection sends what the decisions ask for.

use std::collections::HashMap;

use vstd::prelude::*;

use crate::gateway_control::{
    ControlFailure, GatewayControl, JoinFailure, LeaveFailure, PlaybackAction,
    PlaybackControlResult, VoiceJoinResult, VoiceLeaveResult,
};
use crate::ids::{ChannelId, GuildId, UserId};
use crate::player::{PlayerManager, PlayerState};
use crate::voice_session::VoiceWorkerStopReason;

pub mod laws;

verus! {

/// How long a voice join may take, in seconds.
pub const JOIN_TIMEOUT_SECONDS: u64 = 15;

/// How many commands may wait for a voice worker.
pub const VOICE_COMMAND_CAPACITY: usize = 16;

/// How many reports of voice workers may wait for the registry.
pub const VOICE_EVENT_CAPACITY: usize = 64;

/// A voice join that waits for Discord.
#[derive(Debug, Clone, Copy, PartialEq, Eq, Structural)]
pub struct PendingJoin {
    pub request_id: u64,
    pub channel_id: ChannelId,
}

/// A voice worker that was started.
#[derive(Debug, Clone, Copy, PartialEq, Eq, Structural)]
pub struct VoiceWorkerHandle {
    pub generation: u64,
    pub channel_id: ChannelId,
}

/// What voice workers and join timers report.
#[derive(Debug)]
pub enum VoiceWorkerEvent {
    JoinTimedOut { guild_id: GuildId, request_id: u64 },
    Stopped { guild_id: GuildId, generation: u64, reason: VoiceWorkerStopReason },
}

/// What Discord said of a pending join.
#[derive(Debug, Clone, Copy, PartialEq, Eq, Structural)]
pub enum RendezvousOutcome {
    Ready,
    ServerUnavailable,
}

/// What a join request leads to.
#[derive(Debug)]
pub enum JoinDecision {
    /// Answer the request.
    Reply(VoiceJoinResult),
    /// Ask the Gateway to move the bot, deafened, into the channel.
    Request { guild_id: GuildId, channel_id: ChannelId, bot_user_id: UserId },
}

/// What a join request has become once the Gateway was asked.
#[derive(Debug)]
pub enum JoinProgress {
    /// Answer the request.
    Reply(VoiceJoinResult),
    /// Wait for Discord, for [`JOIN_TIMEOUT_SECONDS`] at most.
    Waiting { request_id: u64 },
}

/// What a leave request leads to.
#[derive(Debug, Clone, Copy, PartialEq, Eq, Structural)]
pub enum LeavePlan {
    /// Answer that nothing is connected.
    NotConnected,
    /// Answer that the bot is in another channel, or on its way there.
    WrongChannel { channel_id: ChannelId },
    /// Answer the pending join with its cancellation and clear the voice state.
    CancelJoin { channel_id: ChannelId },
    /// Shut the worker down and clear the voice state.
    StopWorker { channel_id: ChannelId },
}

/// What a playback request leads to.
#[derive(Debug, Clone, Copy, PartialEq, Eq, Structural)]
pub enum PlaybackRoute {
    /// Answer the request.
    Reply(PlaybackControlResult),
    /// Hand the action to the guild's worker.
    Forward(PlaybackAction),
}

/// What a control request leads to.
#[derive(Debug)]
pub enum ControlStep {
    Join(JoinDecision),
    Leave(LeavePlan),
    Playback(PlaybackRoute),
}

/// An answer to a control request.
#[derive(Debug, PartialEq, Eq)]
pub enum ControlReply {
    Join(VoiceJoinResult),
    Leave(VoiceLeaveResult),
    Playback(PlaybackControlResult),
}

/// What a finished rendezvous leads to.
#[derive(Debug)]
pub enum RendezvousAction {
    /// Start a voice worker; it answers the join.
    StartWorker { guild_id: GuildId, channel_id: ChannelId, generation: u64 },
    /// Answer the join and clear the voice state.
    Refuse { guild_id: GuildId, result: VoiceJoinResult },
}

/// What a report of a voice worker or a join timer leads to.
#[derive(Debug)]
pub enum WorkerEventAction {
    /// The report is out of date.
    Ignore,
    /// Answer the pending join and clear the voice state.
    FailJoin { result: VoiceJoinResult },
    /// The worker is gone.
    Forget,
    /// The worker is gone; clear the voice state.
    Disconnect,
}

/// One step of the shutdown.
#[derive(Debug, Clone, Copy, PartialEq, Eq, Structural)]
pub enum ShutdownStep {
    /// Answer the guild's pending join with its cancellation.
    CancelJoin { guild_id: GuildId },
    /// Tell the guild's worker to shut down.
    StopWorker { guild_id: GuildId },
    /// Wait until every worker has ended.
    AwaitWorkers,
    /// Clear the guild's voice state.
    Disconnect { guild_id: GuildId },
}

/// The guilds whose joins are cancelled and whose workers are shut down, and
/// the steps in which this is done.
#[derive(Debug)]
pub struct ShutdownPlan {
    pub cancelled: Vec<GuildId>,
    pub stopped: Vec<GuildId>,
    pub steps: Vec<ShutdownStep>,
}

impl ShutdownPlan {
    /// The steps: joins are cancelled, workers are told to stop and awaited,
    /// and then the voice states are cleared.
    pub open spec fn is_ordered(self) -> bool {
        self.steps@ == self.cancelled@.map_values(
            |guild_id: GuildId| ShutdownStep::CancelJoin { guild_id },
        ) + self.stopped@.map_values(|guild_id: GuildId| ShutdownStep::StopWorker { guild_id })
            + seq![ShutdownStep::AwaitWorkers] + (self.cancelled@ + self.stopped@).map_values(
            |guild_id: GuildId| ShutdownStep::Disconnect { guild_id },
        )
    }
}

/// The registry's contents, as the contracts speak of them.
#[verifier::ext_equal]
pub struct VoiceRegistry {
    pub pending: Map<u64, PendingJoin>,
    pub workers: Map<u64, VoiceWorkerHandle>,
    pub last_id: u64,
}

/// The identifier handed out after `last`.
pub open spec fn next_voice_id(last: u64) -> u64 {
    if last == u64::MAX {
        0
    } else {
        (last + 1) as u64
    }
}

impl VoiceRegistry {
    /// No guild has both a pending join and a worker.
    pub open spec fn well_formed(self) -> bool {
        self.pending.dom().disjoint(self.workers.dom())
    }

    /// How a guild that is already registered answers a join.
    pub open spec fn joining(self, guild_id: GuildId) -> Option<VoiceJoinResult> {
        if self.workers.contains_key(guild_id.0) {
            Some(
                VoiceJoinResult::AlreadyConnected {
                    channel_id: self.workers[guild_id.0].channel_id,
                },
            )
        } else if self.pending.contains_key(guild_id.0) {
            Some(
                VoiceJoinResult::InProgress { channel_id: self.pending[guild_id.0].channel_id },
            )
        } else {
            None
        }
    }

    /// What a join request leads to.
    pub open spec fn join(
        self,
        guild_id: GuildId,
        channel_id: ChannelId,
        bot_user_id: Option<UserId>,
    ) -> JoinDecision {
        match self.joining(guild_id) {
            Some(result) => JoinDecision::Reply(result),
            None => match bot_user_id {
                None => JoinDecision::Reply(VoiceJoinResult::Failed(JoinFailure::GatewayNotReady)),
                Some(bot_user_id) => JoinDecision::Request { guild_id, channel_id, bot_user_id },
            },
        }
    }

    /// A join waits under a fresh identifier.
    pub open spec fn awaiting(self, guild_id: GuildId, channel_id: ChannelId) -> VoiceRegistry {
        let request_id = next_voice_id(self.last_id);
        VoiceRegistry {
            pending: self.pending.insert(guild_id.0, PendingJoin { request_id, channel_id }),
            last_id: request_id,
            ..self
        }
    }

    /// The channel that a guild is connected to or about to join.
    pub open spec fn channel(self, guild_id: GuildId) -> Option<ChannelId> {
        if self.pending.contains_key(guild_id.0) {
            Some(self.pending[guild_id.0].channel_id)
        } else if self.workers.contains_key(guild_id.0) {
            Some(self.workers[guild_id.0].channel_id)
        } else {
            None
        }
    }

    /// What a leave request of somebody in `channel_id` leads to.
    pub open spec fn leave(self, guild_id: GuildId, channel_id: ChannelId) -> LeavePlan {
        match self.channel(guild_id) {
            None => LeavePlan::NotConnected,
            Some(connected) => if connected != channel_id {
                LeavePlan::WrongChannel { channel_id: connected }
            } else if self.pending.contains_key(guild_id.0) {
                LeavePlan::CancelJoin { channel_id }
            } else {
                LeavePlan::StopWorker { channel_id }
            },
        }
    }

    /// The registry after a leave request of somebody in `channel_id`.
    pub open spec fn left(self, guild_id: GuildId, channel_id: ChannelId) -> VoiceRegistry {
        if self.leave(guild_id, channel_id) is WrongChannel {
            self
        } else {
            self.without(guild_id)
        }
    }

    /// The registry without one guild.
    pub open spec fn without(self, guild_id: GuildId) -> VoiceRegistry {
        VoiceRegistry {
            pending: self.pending.remove(guild_id.0),
            workers: self.workers.remove(guild_id.0),
            ..self
        }
    }

    /// What a playback request leads to.
    pub open spec fn route(
        self,
        guild_id: GuildId,
        channel_id: ChannelId,
        action: PlaybackAction,
    ) -> PlaybackRoute {
        if !self.workers.contains_key(guild_id.0) {
            PlaybackRoute::Reply(PlaybackControlResult::NotConnected)
        } else if self.workers[guild_id.0].channel_id != channel_id {
            PlaybackRoute::Reply(
                PlaybackControlResult::WrongVoiceChannel {
                    channel_id: self.workers[guild_id.0].channel_id,
                },
            )
        } else {
            PlaybackRoute::Forward(action)
        }
    }

    /// A pending join is over: a worker takes its place, or it is refused.
    pub open spec fn met(self, guild_id: GuildId, outcome: RendezvousOutcome) -> VoiceRegistry {
        if !self.pending.contains_key(guild_id.0) {
            self
        } else {
            match outcome {
                RendezvousOutcome::Ready => {
                    let generation = next_voice_id(self.last_id);
                    VoiceRegistry {
                        pending: self.pending.remove(guild_id.0),
                        workers: self.workers.insert(
                            guild_id.0,
                            VoiceWorkerHandle {
                                generation,
                                channel_id: self.pending[guild_id.0].channel_id,
                            },
                        ),
                        last_id: generation,
                    }
                },
                RendezvousOutcome::ServerUnavailable => VoiceRegistry {
                    pending: self.pending.remove(guild_id.0),
                    ..self
                },
            }
        }
    }

    /// What the end of a pending join leads to.
    pub open spec fn meeting(self, guild_id: GuildId, outcome: RendezvousOutcome) -> Seq<
        RendezvousAction,
    > {
        if !self.pending.contains_key(guild_id.0) {
            Seq::empty()
        } else {
            match outcome {
                RendezvousOutcome::Ready => seq![
                    RendezvousAction::StartWorker {
                        guild_id,
                        channel_id: self.pending[guild_id.0].channel_id,
                        generation: next_voice_id(self.last_id),
                    },
                ],
                RendezvousOutcome::ServerUnavailable => seq![
                    RendezvousAction::Refuse {
                        guild_id,
                        result: VoiceJoinResult::Failed(JoinFailure::ServerUnavailable),
                    },
                ],
            }
        }
    }

    /// The registry after a run of finished rendezvous.
    pub open spec fn met_all(self, completed: Seq<(GuildId, RendezvousOutcome)>) -> VoiceRegistry
        decreases completed.len(),
    {
        if completed.len() == 0 {
            self
        } else {
            self.met_all(completed.drop_last()).met(completed.last().0, completed.last().1)
        }
    }

    /// What a run of finished rendezvous leads to, in order.
    pub open spec fn meetings(self, completed: Seq<(GuildId, RendezvousOutcome)>) -> Seq<
        RendezvousAction,
    >
        decreases completed.len(),
    {
        if completed.len() == 0 {
            Seq::empty()
        } else {
            self.meetings(completed.drop_last()) + self.met_all(completed.drop_last()).meeting(
                completed.last().0,
                completed.last().1,
            )
        }
    }

    /// The report speaks of a join or a worker that is still registered.
    pub open spec fn is_current(self, event: VoiceWorkerEvent) -> bool {
        match event {
            VoiceWorkerEvent::JoinTimedOut { guild_id, request_id } => self.pending.contains_key(
                guild_id.0,
            ) && self.pending[guild_id.0].request_id == request_id,
            VoiceWorkerEvent::Stopped { guild_id, generation, .. } => self.workers.contains_key(
                guild_id.0,
            ) && self.workers[guild_id.0].generation == generation,
        }
    }

    /// The registry after a report.
    pub open spec fn reported(self, event: VoiceWorkerEvent) -> VoiceRegistry {
        if !self.is_current(event) {
            self
        } else {
            match event {
                VoiceWorkerEvent::JoinTimedOut { guild_id, .. } => VoiceRegistry {
                    pending: self.pending.remove(guild_id.0),
                    ..self
                },
                VoiceWorkerEvent::Stopped { guild_id, .. } => VoiceRegistry {
                    workers: self.workers.remove(guild_id.0),
                    ..self
                },
            }
        }
    }

    /// What a report leads to.
    pub open spec fn reaction(self, event: VoiceWorkerEvent) -> WorkerEventAction {
        if !self.is_current(event) {
            WorkerEventAction::Ignore
        } else {
            match event {
                VoiceWorkerEvent::JoinTimedOut { .. } => WorkerEventAction::FailJoin {
                    result: VoiceJoinResult::Failed(JoinFailure::TimedOut),
                },
                VoiceWorkerEvent::Stopped { reason, .. } => if reason
                    is Requested {
                    WorkerEventAction::Forget
                } else {
                    WorkerEventAction::Disconnect
                },
            }
        }
    }
}

impl LeavePlan {
    /// How a leave request is answered once the Gateway was told.
    pub open spec fn outcome(self, told: Result<(), String>) -> VoiceLeaveResult {
        match self {
            LeavePlan::NotConnected => VoiceLeaveResult::NotConnected,
            LeavePlan::WrongChannel { channel_id } => VoiceLeaveResult::WrongVoiceChannel {
                channel_id,
            },
            LeavePlan::CancelJoin { channel_id } => match told {
                Ok(_) => VoiceLeaveResult::CancelledJoin { channel_id },
                Err(error) => VoiceLeaveResult::Failed(LeaveFailure::JoinCancelled(error)),
            },
            LeavePlan::StopWorker { channel_id } => match told {
                Ok(_) => VoiceLeaveResult::Left { channel_id },
                Err(error) => VoiceLeaveResult::Failed(LeaveFailure::WorkerStopped(error)),
            },
        }
    }

    /// The guild's player after a leave request. A worker that is shut down
    /// empties it by itself.
    pub open spec fn player_after(self, before: PlayerState) -> PlayerState {
        match self {
            LeavePlan::NotConnected | LeavePlan::CancelJoin { .. } => PlayerState::idle(),
            LeavePlan::WrongChannel { .. } | LeavePlan::StopWorker { .. } => before,
        }
    }

    /// Answers a leave request. `told` says how clearing the voice state went;
    /// it does not matter where it was not to be cleared.
    pub fn result(self, told: Result<(), String>) -> (result: VoiceLeaveResult)
        ensures
            result == self.outcome(told),
    {
        match self {
            LeavePlan::NotConnected => VoiceLeaveResult::NotConnected,
            LeavePlan::WrongChannel { channel_id } => VoiceLeaveResult::WrongVoiceChannel {
                channel_id,
            },
            LeavePlan::CancelJoin { channel_id } => match told {
                Ok(_) => VoiceLeaveResult::CancelledJoin { channel_id },
                Err(error) => VoiceLeaveResult::Failed(LeaveFailure::JoinCancelled(error)),
            },
            LeavePlan::StopWorker { channel_id } => match told {
                Ok(_) => VoiceLeaveResult::Left { channel_id },
                Err(error) => VoiceLeaveResult::Failed(LeaveFailure::WorkerStopped(error)),
            },
        }
    }
}

/// Voice joins and voice workers of every guild.
#[derive(Debug)]
pub struct VoiceManager {
    pending: HashMap<u64, PendingJoin>,
    workers: HashMap<u64, VoiceWorkerHandle>,
    next_id: u64,
}

impl View for VoiceManager {
    type V = VoiceRegistry;

    closed spec fn view(&self) -> VoiceRegistry {
        VoiceRegistry {
            pending: self.pending@,
            workers: self.workers@,
            last_id: self.next_id,
        }
    }
}

impl VoiceManager {
    #[verifier::type_invariant]
    spec fn well_formed(self) -> bool {
        self@.well_formed()
    }

    pub fn new() -> (manager: Self)
        ensures
            manager@ == (VoiceRegistry {
                pending: Map::empty(),
                workers: Map::empty(),
                last_id: 0,
            }),
    {
        VoiceManager { pending: HashMap::new(), workers: HashMap::new(), next_id: 0 }
    }

    /// Takes a control request. A leave takes effect at once; a join waits
    /// for the Gateway, see [`VoiceManager::join_requested`].
    pub fn handle_control(
        &mut self,
        control: GatewayControl,
        bot_user_id: Option<UserId>,
        players: &mut PlayerManager,
    ) -> (step: ControlStep)
        ensures
            match control {
                GatewayControl::JoinVoice { guild_id, channel_id } => {
                    &&& step == ControlStep::Join(
                        old(self)@.join(guild_id, channel_id, bot_user_id),
                    )
                    &&& final(self)@ == old(self)@
                    &&& *final(players) == *old(players)
                },
                GatewayControl::LeaveVoice { guild_id, channel_id } => {
                    &&& step == ControlStep::Leave(old(self)@.leave(guild_id, channel_id))
                    &&& final(self)@ == old(self)@.left(guild_id, channel_id)
                    &&& final(players).player(guild_id) == step->Leave_0.player_after(
                        old(players).player(guild_id),
                    )
                    &&& final(players).same_elsewhere(old(players), guild_id)
                    &&& final(players).last_track_id() == old(players).last_track_id()
                    &&& step->Leave_0 is WrongChannel ==> *final(players) == *old(players)
                },
                GatewayControl::Playback { guild_id, channel_id, action } => {
                    &&& step == ControlStep::Playback(
                        old(self)@.route(guild_id, channel_id, action),
                    )
                    &&& final(self)@ == old(self)@
                    &&& *final(players) == *old(players)
                },
            },
    {
        match control {
            GatewayControl::JoinVoice { guild_id, channel_id } => ControlStep::Join(
                self.join_voice(guild_id, channel_id, bot_user_id),
            ),
            GatewayControl::LeaveVoice { guild_id, channel_id } => ControlStep::Leave(
                self.leave_voice(guild_id, channel_id, players),
            ),
            GatewayControl::Playback { guild_id, channel_id, action } => ControlStep::Playback(
                self.route_playback(guild_id, channel_id, action),
            ),
        }
    }

    /// Decides on a join request.
    pub fn join_voice(
        &self,
        guild_id: GuildId,
        channel_id: ChannelId,
        bot_user_id: Option<UserId>,
    ) -> (decision: JoinDecision)
        ensures
            decision == self@.join(guild_id, channel_id, bot_user_id),
    {
        match self.registered(guild_id) {
            Some(result) => JoinDecision::Reply(result),
            None => match bot_user_id {
                None => JoinDecision::Reply(VoiceJoinResult::Failed(JoinFailure::GatewayNotReady)),
                Some(bot_user_id) => JoinDecision::Request { guild_id, channel_id, bot_user_id },
            },
        }
    }

    /// Takes how asking the Gateway for a join went.
    pub fn join_requested(
        &mut self,
        guild_id: GuildId,
        channel_id: ChannelId,
        asked: Result<(), String>,
    ) -> (progress: JoinProgress)
        ensures
            match old(self)@.joining(guild_id) {
                Some(result) => {
                    &&& progress == JoinProgress::Reply(result)
                    &&& final(self)@ == old(self)@
                },
                None => match asked {
                    Err(error) => {
                        &&& progress == JoinProgress::Reply(
                            VoiceJoinResult::Failed(JoinFailure::RequestFailed(error)),
                        )
                        &&& final(self)@ == old(self)@
                    },
                    Ok(_) => {
                        &&& progress == JoinProgress::Waiting {
                            request_id: next_voice_id(old(self)@.last_id),
                        }
                        &&& final(self)@ == old(self)@.awaiting(guild_id, channel_id)
                    },
                },
            },
            final(self)@.well_formed(),
    {
        proof {
            use_type_invariant(&*self);
        }
        if let Some(result) = self.registered(guild_id) {
            return JoinProgress::Reply(result);
        }
        match asked {
            Err(error) => JoinProgress::Reply(
                VoiceJoinResult::Failed(JoinFailure::RequestFailed(error)),
            ),
            Ok(_) => {
                let request_id: u64 = self.next_id();
                let mut pending: HashMap<u64, PendingJoin> = self.take_pending();
                pending.insert(guild_id.0, PendingJoin { request_id, channel_id });
                self.pending = pending;
                JoinProgress::Waiting { request_id }
            },
        }
    }

    /// Takes a guild out of the registry and says what has to be told to whom.
    /// The guild's player is emptied, unless a worker is left to do so. Nothing
    /// changes where the bot is in another channel than the invoker.
    pub fn leave_voice(
        &mut self,
        guild_id: GuildId,
        channel_id: ChannelId,
        players: &mut PlayerManager,
    ) -> (plan: LeavePlan)
        ensures
            plan == old(self)@.leave(guild_id, channel_id),
            final(self)@ == old(self)@.left(guild_id, channel_id),
            final(self)@.well_formed(),
            final(players).player(guild_id) == plan.player_after(old(players).player(guild_id)),
            final(players).same_elsewhere(old(players), guild_id),
            final(players).last_track_id() == old(players).last_track_id(),
            plan is WrongChannel ==> *final(players) == *old(players),
    {
        proof {
            use_type_invariant(&*self);
        }
        match self.connected_channel(guild_id) {
            None => {
                let _ = players.clear(guild_id);
                assert(self@ =~= old(self)@.without(guild_id));
                return LeavePlan::NotConnected;
            },
            Some(connected) => {
                if connected != channel_id {
                    return LeavePlan::WrongChannel { channel_id: connected };
                }
            },
        }
        let mut pending: HashMap<u64, PendingJoin> = self.take_pending();
        let cancelled: Option<PendingJoin> = pending.remove(&guild_id.0);
        self.pending = pending;
        if cancelled.is_some() {
            let _ = players.clear(guild_id);
            assert(self@ =~= old(self)@.without(guild_id));
            return LeavePlan::CancelJoin { channel_id };
        }
        let mut workers: HashMap<u64, VoiceWorkerHandle> = self.take_workers();
        let _ = workers.remove(&guild_id.0);
        self.workers = workers;
        assert(self@ =~= old(self)@.without(guild_id));
        LeavePlan::StopWorker { channel_id }
    }

    /// Decides on a playback request.
    pub fn route_playback(
        &self,
        guild_id: GuildId,
        channel_id: ChannelId,
        action: PlaybackAction,
    ) -> (route: PlaybackRoute)
        ensures
            route == self@.route(guild_id, channel_id, action),
    {
        match self.workers.get(&guild_id.0) {
            None => PlaybackRoute::Reply(PlaybackControlResult::NotConnected),
            Some(worker) => {
                if worker.channel_id != channel_id {
                    PlaybackRoute::Reply(
                        PlaybackControlResult::WrongVoiceChannel { channel_id: worker.channel_id },
                    )
                } else {
                    PlaybackRoute::Forward(action)
                }
            },
        }
    }

    /// How a playback request is answered whose worker no longer listens.
    pub fn undelivered() -> (result: PlaybackControlResult)
        ensures
            result == PlaybackControlResult::Failed(ControlFailure::WorkerUnavailable),
    {
        PlaybackControlResult::Failed(ControlFailure::WorkerUnavailable)
    }

    /// Takes the pending joins that a dispatch has decided.
    pub fn handle_dispatch(
        &mut self,
        completed: &Vec<(GuildId, RendezvousOutcome)>,
    ) -> (actions: Vec<RendezvousAction>)
        ensures
            final(self)@ == old(self)@.met_all(completed@),
            actions@ == old(self)@.meetings(completed@),
            final(self)@.well_formed(),
    {
        let mut actions: Vec<RendezvousAction> = Vec::new();
        let mut i: usize = 0;
        proof {
            use_type_invariant(&*self);
            assert(completed@.take(0) =~= Seq::empty());
        }
        while i < completed.len()
            invariant
                i <= completed@.len(),
                self@ == old(self)@.met_all(completed@.take(i as int)),
                actions@ == old(self)@.meetings(completed@.take(i as int)),
                self@.well_formed(),
            decreases completed@.len() - i,
        {
            let (guild_id, outcome) = completed[i];
            assert(completed@.take(i + 1).drop_last() =~= completed@.take(i as int));
            assert(completed@.take(i + 1).last() == (guild_id, outcome));
            let ghost done = actions@;
            let ghost before = self@;
            if let Some(action) = self.meet(guild_id, outcome) {
                actions.push(action);
            }
            assert(actions@ =~= done + before.meeting(guild_id, outcome));
            i += 1;
        }
        assert(completed@.take(i as int) =~= completed@);
        actions
    }

    fn meet(&mut self, guild_id: GuildId, outcome: RendezvousOutcome) -> (action: Option<
        RendezvousAction,
    >)
        ensures
            final(self)@ == old(self)@.met(guild_id, outcome),
            old(self)@.meeting(guild_id, outcome) == match action {
                Some(action) => seq![action],
                None => Seq::empty(),
            },
            final(self)@.well_formed(),
    {
        proof {
            use_type_invariant(&*self);
        }
        let mut pending: HashMap<u64, PendingJoin> = self.take_pending();
        let met: Option<PendingJoin> = pending.remove(&guild_id.0);
        self.pending = pending;
        match met {
            None => {
                assert(self@ =~= old(self)@);
                None
            },
            Some(join) => match outcome {
                RendezvousOutcome::Ready => {
                    let generation: u64 = self.next_id();
                    let mut workers: HashMap<u64, VoiceWorkerHandle> = self.take_workers();
                    workers.insert(
                        guild_id.0,
                        VoiceWorkerHandle { generation, channel_id: join.channel_id },
                    );
                    self.workers = workers;
                    Some(
                        RendezvousAction::StartWorker {
                            guild_id,
                            channel_id: join.channel_id,
                            generation,
                        },
                    )
                },
                RendezvousOutcome::ServerUnavailable => Some(
                    RendezvousAction::Refuse {
                        guild_id,
                        result: VoiceJoinResult::Failed(JoinFailure::ServerUnavailable),
                    },
                ),
            },
        }
    }

    /// Takes a report of a voice worker or a join timer.
    pub fn handle_worker_event(&mut self, event: VoiceWorkerEvent) -> (action: WorkerEventAction)
        ensures
            action == old(self)@.reaction(event),
            final(self)@ == old(self)@.reported(event),
            final(self)@.well_formed(),
    {
        proof {
            use_type_invariant(&*self);
        }
        match event {
            VoiceWorkerEvent::JoinTimedOut { guild_id, request_id } => {
                let should_cancel: bool = match self.pending.get(&guild_id.0) {
                    Some(pending) => pending.request_id == request_id,
                    None => false,
                };
                if !should_cancel {
                    return WorkerEventAction::Ignore;
                }
                let mut pending: HashMap<u64, PendingJoin> = self.take_pending();
                let _ = pending.remove(&guild_id.0);
                self.pending = pending;
                WorkerEventAction::FailJoin {
                    result: VoiceJoinResult::Failed(JoinFailure::TimedOut),
                }
            },
            VoiceWorkerEvent::Stopped { guild_id, generation, reason } => {
                let is_current: bool = match self.workers.get(&guild_id.0) {
                    Some(worker) => worker.generation == generation,
                    None => false,
                };
                if !is_current {
                    return WorkerEventAction::Ignore;
                }
                let mut workers: HashMap<u64, VoiceWorkerHandle> = self.take_workers();
                let _ = workers.remove(&guild_id.0);
                self.workers = workers;
                match reason {
                    VoiceWorkerStopReason::Requested => WorkerEventAction::Forget,
                    VoiceWorkerStopReason::IdleTimedOut => WorkerEventAction::Disconnect,
                    VoiceWorkerStopReason::ConnectFailed(_) => WorkerEventAction::Disconnect,
                    VoiceWorkerStopReason::VoiceFailed(_) => WorkerEventAction::Disconnect,
                }
            },
        }
    }

    /// Answers a control request during shutdown.
    pub fn reject_control(control: GatewayControl) -> (reply: ControlReply)
        ensures
            reply == match control {
                GatewayControl::JoinVoice { .. } => ControlReply::Join(
                    VoiceJoinResult::Failed(JoinFailure::ShuttingDown),
                ),
                GatewayControl::LeaveVoice { .. } => ControlReply::Leave(
                    VoiceLeaveResult::Failed(LeaveFailure::ShuttingDown),
                ),
                GatewayControl::Playback { .. } => ControlReply::Playback(
                    PlaybackControlResult::Failed(ControlFailure::ShuttingDown),
                ),
            },
    {
        match control {
            GatewayControl::JoinVoice { .. } => ControlReply::Join(
                VoiceJoinResult::Failed(JoinFailure::ShuttingDown),
            ),
            GatewayControl::LeaveVoice { .. } => ControlReply::Leave(
                VoiceLeaveResult::Failed(LeaveFailure::ShuttingDown),
            ),
            GatewayControl::Playback { .. } => ControlReply::Playback(
                PlaybackControlResult::Failed(ControlFailure::ShuttingDown),
            ),
        }
    }

    /// Empties the registry. Every pending join is cancelled and every worker
    /// shut down, each once.
    pub fn shutdown(&mut self) -> (plan: ShutdownPlan)
        ensures
            final(self)@ == (VoiceRegistry {
                pending: Map::empty(),
                workers: Map::empty(),
                last_id: old(self)@.last_id,
            }),
            forall|guild: GuildId|
                plan.cancelled@.contains(guild) <==> #[trigger] old(self)@.pending.contains_key(
                    guild.0,
                ),
            forall|guild: GuildId|
                plan.stopped@.contains(guild) <==> #[trigger] old(self)@.workers.contains_key(
                    guild.0,
                ),
            plan.cancelled@.no_duplicates(),
            plan.stopped@.no_duplicates(),
            plan.is_ordered(),
    {
        let cancelled: Vec<GuildId> = guilds_of(&self.pending);
        let stopped: Vec<GuildId> = guilds_of(&self.workers);
        let _ = self.take_pending();
        let _ = self.take_workers();
        let steps: Vec<ShutdownStep> = shutdown_steps(&cancelled, &stopped);
        ShutdownPlan { cancelled, stopped, steps }
    }

    fn registered(&self, guild_id: GuildId) -> (result: Option<VoiceJoinResult>)
        ensures
            result == self@.joining(guild_id),
    {
        if let Some(worker) = self.workers.get(&guild_id.0) {
            return Some(VoiceJoinResult::AlreadyConnected { channel_id: worker.channel_id });
        }
        match self.pending.get(&guild_id.0) {
            Some(pending) => Some(VoiceJoinResult::InProgress { channel_id: pending.channel_id }),
            None => None,
        }
    }

    fn connected_channel(&self, guild_id: GuildId) -> (channel_id: Option<ChannelId>)
        ensures
            channel_id == self@.channel(guild_id),
    {
        if let Some(pending) = self.pending.get(&guild_id.0) {
            return Some(pending.channel_id);
        }
        match self.workers.get(&guild_id.0) {
            Some(worker) => Some(worker.channel_id),
            None => None,
        }
    }

    fn take_pending(&mut self) -> (pending: HashMap<u64, PendingJoin>)
        ensures
            pending@ == old(self)@.pending,
            final(self)@ == (VoiceRegistry { pending: Map::empty(), ..old(self)@ }),
    {
        let mut pending: HashMap<u64, PendingJoin> = HashMap::new();
        std::mem::swap(&mut pending, &mut self.pending);
        pending
    }

    fn take_workers(&mut self) -> (workers: HashMap<u64, VoiceWorkerHandle>)
        ensures
            workers@ == old(self)@.workers,
            final(self)@ == (VoiceRegistry { workers: Map::empty(), ..old(self)@ }),
    {
        let mut workers: HashMap<u64, VoiceWorkerHandle> = HashMap::new();
        std::mem::swap(&mut workers, &mut self.workers);
        workers
    }

    fn next_id(&mut self) -> (id: u64)
        ensures
            id == next_voice_id(old(self)@.last_id),
            final(self)@ == (VoiceRegistry { last_id: id, ..old(self)@ }),
    {
        proof {
            use_type_invariant(&*self);
        }
        self.next_id = self.next_id.wrapping_add(1);
        self.next_id
    }
}

fn shutdown_steps(cancelled: &Vec<GuildId>, stopped: &Vec<GuildId>) -> (steps: Vec<ShutdownStep>)
    ensures
        steps@ == cancelled@.map_values(|guild_id: GuildId| ShutdownStep::CancelJoin { guild_id })
            + stopped@.map_values(|guild_id: GuildId| ShutdownStep::StopWorker { guild_id }) + seq![
            ShutdownStep::AwaitWorkers,
        ] + (cancelled@ + stopped@).map_values(
            |guild_id: GuildId| ShutdownStep::Disconnect { guild_id },
        ),
{
    let ghost cancel = |guild_id: GuildId| ShutdownStep::CancelJoin { guild_id };
    let ghost stop = |guild_id: GuildId| ShutdownStep::StopWorker { guild_id };
    let ghost disconnect = |guild_id: GuildId| ShutdownStep::Disconnect { guild_id };
    let mut steps: Vec<ShutdownStep> = Vec::new();
    for i in 0..cancelled.len()
        invariant
            steps@.len() == i,
            forall|k: int|
                0 <= k < i ==> #[trigger] steps@[k] == (ShutdownStep::CancelJoin {
                    guild_id: cancelled@[k],
                }),
    {
        steps.push(ShutdownStep::CancelJoin { guild_id: cancelled[i] });
    }
    let ghost first = steps@;
    assert(first =~= cancelled@.map_values(cancel));
    for i in 0..stopped.len()
        invariant
            steps@.len() == first.len() + i,
            first =~= steps@.take(first.len() as int),
            forall|k: int|
                0 <= k < i ==> #[trigger] steps@[first.len() + k] == (ShutdownStep::StopWorker {
                    guild_id: stopped@[k],
                }),
    {
        steps.push(ShutdownStep::StopWorker { guild_id: stopped[i] });
    }
    let ghost second = steps@;
    assert(second =~= first + stopped@.map_values(stop)) by {
        assert forall|k: int| 0 <= k < second.len() implies second[k] == (first
            + stopped@.map_values(stop))[k] by {
            if k < first.len() {
                assert(second.take(first.len() as int)[k] == first[k]);
            } else {
                assert(second[first.len() + (k - first.len())] == second[k]);
            }
        }
    }
    steps.push(ShutdownStep::AwaitWorkers);
    push_disconnects(&mut steps, cancelled);
    push_disconnects(&mut steps, stopped);
    assert((cancelled@ + stopped@).map_values(disconnect) =~= cancelled@.map_values(disconnect)
        + stopped@.map_values(disconnect));
    steps
}

fn push_disconnects(steps: &mut Vec<ShutdownStep>, guilds: &Vec<GuildId>)
    ensures
        final(steps)@ == old(steps)@ + guilds@.map_values(
            |guild_id: GuildId| ShutdownStep::Disconnect { guild_id },
        ),
{
    let ghost disconnect = |guild_id: GuildId| ShutdownStep::Disconnect { guild_id };
    for i in 0..guilds.len()
        invariant
            steps@ == old(steps)@ + guilds@.take(i as int).map_values(disconnect),
            disconnect == (|guild_id: GuildId| ShutdownStep::Disconnect { guild_id }),
    {
        steps.push(ShutdownStep::Disconnect { guild_id: guilds[i] });
        assert(guilds@.take(i + 1).map_values(disconnect) =~= guilds@.take(i as int).map_values(
            disconnect,
        ).push(disconnect(guilds@[i as int])));
    }
    assert(guilds@.take(guilds@.len() as int) =~= guilds@);
}

/// The guilds that a map holds something for, each once.
fn guilds_of<V>(entries: &HashMap<u64, V>) -> (guilds: Vec<GuildId>)
    ensures
        forall|guild: GuildId|
            guilds@.contains(guild) <==> #[trigger] entries@.contains_key(guild.0),
        guilds@.no_duplicates(),
{
    let mut guilds: Vec<GuildId> = Vec::new();
    let ghost keys = vstd::std_specs::iter::IteratorSpec::remaining(
        &vstd::std_specs::hash::spec_keys_iter(entries),
    ).unref();
    for key in it: entries.keys()
        invariant
            it.seq().unref() == keys,
            guilds@.len() == it.index(),
            forall|j: int| 0 <= j < guilds@.len() ==> guilds@[j].0 == #[trigger] keys[j],
    {
        guilds.push(GuildId(*key));
    }
    proof {
        assert(keys.no_duplicates());
        assert forall|guild: GuildId| guilds@.contains(guild) == #[trigger] entries@.contains_key(
            guild.0,
        ) by {
            if guilds@.contains(guild) {
                let j = guilds@.index_of(guild);
                assert(keys.contains(keys[j]));
            }
            if entries@.contains_key(guild.0) {
                assert(keys.to_set().contains(guild.0));
                let j = keys.index_of(guild.0);
                assert(guilds@[j] == guild);
            }
        }
        assert forall|a: int, b: int|
            0 <= a < guilds@.len() && 0 <= b < guilds@.len() && a != b implies guilds@[a]
            != guilds@[b] by {
            assert(keys[a] != keys[b]);
        }
    }
    guilds
}

/// No guild ever has both a pending join and a worker, whatever is asked,
/// decided or reported.
pub proof fn law_registry_stays_well_formed(
    registry: VoiceRegistry,
    guild_id: GuildId,
    channel_id: ChannelId,
    outcome: RendezvousOutcome,
    event: VoiceWorkerEvent,
)
    requires
        registry.well_formed(),
    ensures
        registry.joining(guild_id) is None ==> registry.awaiting(
            guild_id,
            channel_id,
        ).well_formed(),
        registry.left(guild_id, channel_id).well_formed(),
        registry.met(guild_id, outcome).well_formed(),
        registry.reported(event).well_formed(),
{
}

/// A join that Discord completes ends in exactly one worker, for the channel
/// that was asked for, and a leave from there takes it out again.
pub proof fn law_join_then_leave_restores_the_registry(
    registry: VoiceRegistry,
    guild_id: GuildId,
    channel_id: ChannelId,
)
    requires
        registry.well_formed(),
        registry.joining(guild_id) is None,
    ensures
        ({
            let connected = registry.awaiting(guild_id, channel_id).met(
                guild_id,
                RendezvousOutcome::Ready,
            );
            &&& connected.joining(guild_id) == Some(
                VoiceJoinResult::AlreadyConnected { channel_id },
            )
            &&& connected.leave(guild_id, channel_id) == LeavePlan::StopWorker { channel_id }
            &&& connected.left(guild_id, channel_id).pending == registry.pending
            &&& connected.left(guild_id, channel_id).workers == registry.workers
        }),
{
    let connected = registry.awaiting(guild_id, channel_id).met(guild_id, RendezvousOutcome::Ready);
    assert(connected.left(guild_id, channel_id).pending =~= registry.pending);
    assert(connected.left(guild_id, channel_id).workers =~= registry.workers);
}

/// A report on a join that has been given up, or on a worker that has been
/// replaced, changes nothing and leads to nothing.
pub proof fn law_stale_reports_are_ignored(
    registry: VoiceRegistry,
    guild_id: GuildId,
    stale: u64,
    reason: VoiceWorkerStopReason,
)
    ensures
        registry.pending.contains_key(guild_id.0) && registry.pending[guild_id.0].request_id
            != stale || !registry.pending.contains_key(guild_id.0) ==> ({
            let event = VoiceWorkerEvent::JoinTimedOut { guild_id, request_id: stale };
            registry.reported(event) == registry && registry.reaction(event) is Ignore
        }),
        registry.workers.contains_key(guild_id.0) && registry.workers[guild_id.0].generation
            != stale || !registry.workers.contains_key(guild_id.0) ==> ({
            let event = VoiceWorkerEvent::Stopped { guild_id, generation: stale, reason };
            registry.reported(event) == registry && registry.reaction(event) is Ignore
        }),
{
}

/// A guild that leaves and joins again is safe from the timer of its first
/// join.
pub proof fn law_old_join_timer_spares_the_new_join(
    registry: VoiceRegistry,
    guild_id: GuildId,
    first: ChannelId,
    second: ChannelId,
)
    requires
        registry.joining(guild_id) is None,
    ensures
        ({
            let waiting = registry.awaiting(guild_id, first);
            let again = waiting.left(guild_id, first).awaiting(guild_id, second);
            let timer = VoiceWorkerEvent::JoinTimedOut {
                guild_id,
                request_id: waiting.pending[guild_id.0].request_id,
            };
            again.reported(timer) == again && again.reaction(timer) is Ignore
        }),
{
}

/// A worker that ends by itself leaves the voice state to be cleared; one that
/// was shut down on request does not.
pub proof fn law_voice_state_is_cleared_once(
    registry: VoiceRegistry,
    guild_id: GuildId,
    reason: VoiceWorkerStopReason,
)
    requires
        registry.well_formed(),
        registry.workers.contains_key(guild_id.0),
    ensures
        ({
            let event = VoiceWorkerEvent::Stopped {
                guild_id,
                generation: registry.workers[guild_id.0].generation,
                reason,
            };
            &&& registry.reaction(event) is Disconnect <==> !(reason is Requested)
            &&& registry.reported(event).joining(guild_id) == (VoiceRegistry {
                workers: Map::empty(),
                ..registry
            }).joining(guild_id)
            &&& registry.left(
                guild_id,
                registry.workers[guild_id.0].channel_id,
            ).reaction(event) is Ignore
        }),
{
}

/// A playback request reaches the worker exactly when it comes from the
/// channel that the worker is connected to.
pub proof fn law_playback_stays_in_its_channel(
    registry: VoiceRegistry,
    guild_id: GuildId,
    channel_id: ChannelId,
    action: PlaybackAction,
)
    ensures
        registry.route(guild_id, channel_id, action) is Forward
            <==> registry.workers.contains_key(guild_id.0)
            && registry.workers[guild_id.0].channel_id == channel_id,
{
}

/// A leave request ends a join or a worker exactly when it comes from the
/// channel that the guild is in or about to join; from any other channel it
/// changes nothing and is told which channel that is.
pub proof fn law_leaving_stays_in_its_channel(
    registry: VoiceRegistry,
    guild_id: GuildId,
    channel_id: ChannelId,
    before: PlayerState,
)
    ensures
        registry.leave(guild_id, channel_id) is CancelJoin || registry.leave(
            guild_id,
            channel_id,
        ) is StopWorker <==> registry.channel(guild_id) == Some(channel_id),
        registry.channel(guild_id) is Some && registry.channel(guild_id) != Some(channel_id) ==> {
            &&& registry.left(guild_id, channel_id) == registry
            &&& registry.leave(guild_id, channel_id) == LeavePlan::WrongChannel {
                channel_id: registry.channel(guild_id)->0,
            }
            &&& registry.leave(guild_id, channel_id).player_after(before) == before
        },
        registry.left(guild_id, channel_id).channel(guild_id) is Some ==> registry.left(
            guild_id,
            channel_id,
        ) == registry,
{
}

/// On shutdown every guild in the registry is disconnected from the Gateway,
/// and only once its join was cancelled or its worker was told to stop and has
/// ended.
pub proof fn law_workers_end_before_the_gateway_disconnects(
    plan: ShutdownPlan,
    guild_id: GuildId,
)
    requires
        plan.is_ordered(),
        plan.cancelled@.contains(guild_id) || plan.stopped@.contains(guild_id),
    ensures
        exists|told: int, awaited: int, disconnected: int|
            0 <= told < awaited < disconnected < plan.steps@.len() && (#[trigger] plan.steps@[told]
                == (ShutdownStep::CancelJoin { guild_id }) || plan.steps@[told]
                == (ShutdownStep::StopWorker { guild_id })) && #[trigger] plan.steps@[awaited]
                == ShutdownStep::AwaitWorkers && #[trigger] plan.steps@[disconnected]
                == (ShutdownStep::Disconnect { guild_id }),
{
    let steps = plan.steps@;
    let waiting = plan.cancelled@.len() + plan.stopped@.len();
    let both = plan.cancelled@ + plan.stopped@;
    let at = if plan.cancelled@.contains(guild_id) {
        plan.cancelled@.index_of(guild_id)
    } else {
        plan.cancelled@.len() + plan.stopped@.index_of(guild_id)
    };
    assert(both[at] == guild_id);
    assert(steps[at] == (ShutdownStep::CancelJoin { guild_id }) || steps[at]
        == (ShutdownStep::StopWorker { guild_id }));
    assert(steps[waiting as int] == ShutdownStep::AwaitWorkers);
    assert(steps[waiting + 1 + at] == (ShutdownStep::Disconnect { guild_id }));
}

} // verus!
