//! What joins, leaves, rendezvous and reports do to each guild.

use vstd::prelude::*;

use super::{
    ControlReply, JoinDecision, JoinProgress, LeavePlan, PlaybackRoute, RendezvousAction, RendezvousOutcome,
    ShutdownPlan, ShutdownStep, VoiceManager, VoiceRegistry, VoiceWorkerEvent, WorkerEventAction,
};
use crate::gateway_control::{
    ControlFailure, GatewayControl, JoinFailure, LeaveFailure, PlaybackAction,
    PlaybackControlResult, VoiceJoinResult, VoiceLeaveResult,
};
use crate::ids::{ChannelId, GuildId, UserId};
use crate::player::{LoopMode, PlayerState};
use crate::voice_manager;
use crate::voice_session::VoiceWorkerStopReason;

verus! {

/// The two registries hold the same of every guild but one.
pub open spec fn same_but(before: VoiceRegistry, after: VoiceRegistry, guild_id: GuildId) -> bool {
    &&& forall|other: u64|
        other != guild_id.0 ==> (#[trigger] after.pending.contains_key(other)
            <==> before.pending.contains_key(other)) && after.pending[other]
            == before.pending[other]
    &&& forall|other: u64|
        other != guild_id.0 ==> (#[trigger] after.workers.contains_key(other)
            <==> before.workers.contains_key(other)) && after.workers[other]
            == before.workers[other]
}

/// A join asks the Gateway for exactly the channel that was named, as the bot,
/// unless the guild is connected or about to be: then it is told to which
/// channel. Before the bot is known no join is asked for.
pub proof fn law_join_asks_unless_registered(
    registry: VoiceRegistry,
    guild_id: GuildId,
    channel_id: ChannelId,
    bot_user_id: Option<UserId>,
)
    requires
        registry.well_formed(),
    ensures
        ({
            let decision = registry.join(guild_id, channel_id, bot_user_id);
            let free = !registry.workers.contains_key(guild_id.0)
                && !registry.pending.contains_key(guild_id.0);
            &&& registry.workers.contains_key(guild_id.0) ==> decision == JoinDecision::Reply(
                VoiceJoinResult::AlreadyConnected {
                    channel_id: registry.workers[guild_id.0].channel_id,
                },
            )
            &&& registry.pending.contains_key(guild_id.0) ==> decision == JoinDecision::Reply(
                VoiceJoinResult::InProgress {
                    channel_id: registry.pending[guild_id.0].channel_id,
                },
            )
            &&& free && bot_user_id is None ==> decision == JoinDecision::Reply(
                VoiceJoinResult::Failed(JoinFailure::GatewayNotReady),
            )
            &&& free && bot_user_id is Some ==> decision == JoinDecision::Request {
                guild_id,
                channel_id,
                bot_user_id: bot_user_id->0,
            }
        }),
{
}

/// A join that was asked for waits for the channel that was named, under an
/// identifier that differs from the last. No other guild is touched.
pub proof fn law_asked_join_waits(
    registry: VoiceRegistry,
    guild_id: GuildId,
    channel_id: ChannelId,
)
    ensures
        ({
            let after = registry.awaiting(guild_id, channel_id);
            &&& after.pending.contains_key(guild_id.0)
            &&& after.pending[guild_id.0].channel_id == channel_id
            &&& after.pending[guild_id.0].request_id == after.last_id
            &&& after.last_id != registry.last_id
            &&& registry.last_id < u64::MAX ==> after.last_id == registry.last_id + 1
            &&& after.workers == registry.workers
            &&& same_but(registry, after, guild_id)
        }),
        voice_manager::next_voice_id(u64::MAX) == 0,
{
}

/// A rendezvous that is ready turns the pending join into a worker for the
/// channel that was asked for, under a fresh generation, and starts that one
/// worker. Where Discord has no server the join is dropped and told so. A
/// guild without a pending join is left alone, and so is every other.
pub proof fn law_rendezvous_ends_the_pending_join(
    registry: VoiceRegistry,
    guild_id: GuildId,
    outcome: RendezvousOutcome,
)
    requires
        registry.well_formed(),
    ensures
        ({
            let after = registry.met(guild_id, outcome);
            let actions = registry.meeting(guild_id, outcome);
            &&& same_but(registry, after, guild_id)
            &&& if !registry.pending.contains_key(guild_id.0) {
                after == registry && actions.len() == 0
            } else {
                &&& actions.len() == 1
                &&& !after.pending.contains_key(guild_id.0)
                &&& match outcome {
                    RendezvousOutcome::Ready => {
                        &&& after.workers.contains_key(guild_id.0)
                        &&& after.workers[guild_id.0].channel_id
                            == registry.pending[guild_id.0].channel_id
                        &&& after.workers[guild_id.0].generation == after.last_id
                        &&& after.last_id != registry.last_id
                        &&& actions[0] == RendezvousAction::StartWorker {
                            guild_id,
                            channel_id: registry.pending[guild_id.0].channel_id,
                            generation: after.last_id,
                        }
                    },
                    RendezvousOutcome::ServerUnavailable => {
                        &&& !after.workers.contains_key(guild_id.0)
                        &&& after.last_id == registry.last_id
                        &&& actions[0] == RendezvousAction::Refuse {
                            guild_id,
                            result: VoiceJoinResult::Failed(JoinFailure::ServerUnavailable),
                        }
                    },
                }
            }
        }),
{
}

/// Rendezvous are dealt with one after the other: what the first of them lead
/// to comes first, and the others find the registry as those left it.
pub proof fn law_rendezvous_are_dealt_with_in_order(
    registry: VoiceRegistry,
    first: Seq<(GuildId, RendezvousOutcome)>,
    second: Seq<(GuildId, RendezvousOutcome)>,
    guild_id: GuildId,
    outcome: RendezvousOutcome,
)
    ensures
        registry.met_all(first + second) == registry.met_all(first).met_all(second),
        registry.meetings(first + second) == registry.meetings(first) + registry.met_all(
            first,
        ).meetings(second),
        registry.met_all(seq![(guild_id, outcome)]) == registry.met(guild_id, outcome),
        registry.meetings(seq![(guild_id, outcome)]) == registry.meeting(guild_id, outcome),
        registry.met_all(Seq::<(GuildId, RendezvousOutcome)>::empty()) == registry,
        registry.meetings(Seq::<(GuildId, RendezvousOutcome)>::empty()).len() == 0,
    decreases second.len(),
{
    let one = seq![(guild_id, outcome)];
    let none = Seq::<(GuildId, RendezvousOutcome)>::empty();
    assert(one.drop_last() =~= none);
    assert(registry.met_all(one.drop_last()) == registry);
    assert(registry.meetings(one.drop_last()) =~= Seq::<RendezvousAction>::empty());
    assert(registry.meetings(one) =~= registry.meeting(guild_id, outcome));
    if second.len() == 0 {
        assert(first + second =~= first);
        assert(registry.meetings(first) + registry.met_all(first).meetings(second)
            =~= registry.meetings(first));
    } else {
        law_rendezvous_are_dealt_with_in_order(
            registry,
            first,
            second.drop_last(),
            guild_id,
            outcome,
        );
        assert((first + second).drop_last() =~= first + second.drop_last());
        assert((first + second).last() == second.last());
        assert(registry.meetings(first + second) =~= registry.meetings(first) + registry.met_all(
            first,
        ).meetings(second));
    }
}

/// A join that ran out of time is dropped and told so; a worker that ended is
/// forgotten, and the voice state is cleared unless the end was asked for. No
/// other guild is touched, nor a join by the end of a worker or the reverse.
pub proof fn law_current_reports_take_effect(
    registry: VoiceRegistry,
    guild_id: GuildId,
    reason: VoiceWorkerStopReason,
)
    ensures
        registry.pending.contains_key(guild_id.0) ==> ({
            let event = VoiceWorkerEvent::JoinTimedOut {
                guild_id,
                request_id: registry.pending[guild_id.0].request_id,
            };
            let after = registry.reported(event);
            &&& !after.pending.contains_key(guild_id.0)
            &&& after.workers == registry.workers
            &&& after.last_id == registry.last_id
            &&& same_but(registry, after, guild_id)
            &&& registry.reaction(event) == WorkerEventAction::FailJoin {
                result: VoiceJoinResult::Failed(JoinFailure::TimedOut),
            }
        }),
        registry.workers.contains_key(guild_id.0) ==> ({
            let event = VoiceWorkerEvent::Stopped {
                guild_id,
                generation: registry.workers[guild_id.0].generation,
                reason,
            };
            let after = registry.reported(event);
            &&& !after.workers.contains_key(guild_id.0)
            &&& after.pending == registry.pending
            &&& after.last_id == registry.last_id
            &&& same_but(registry, after, guild_id)
            &&& reason is Requested ==> registry.reaction(event) is Forget
            &&& reason !is Requested ==> registry.reaction(event) is Disconnect
        }),
{
}

/// Leaving from the right channel cancels a pending join or stops the worker,
/// and takes the guild out of the registry and no other. With neither there,
/// the guild is told to be unconnected and its player is emptied.
pub proof fn law_leaving_takes_the_guild_out(
    registry: VoiceRegistry,
    guild_id: GuildId,
    channel_id: ChannelId,
)
    requires
        registry.well_formed(),
    ensures
        ({
            let plan = registry.leave(guild_id, channel_id);
            let after = registry.left(guild_id, channel_id);
            let joining = registry.pending.contains_key(guild_id.0);
            let working = registry.workers.contains_key(guild_id.0);
            &&& same_but(registry, after, guild_id)
            &&& after.last_id == registry.last_id
            &&& !joining && !working ==> plan is NotConnected && after.pending == registry.pending
                && after.workers == registry.workers
            &&& joining && registry.pending[guild_id.0].channel_id == channel_id ==> plan
                == LeavePlan::CancelJoin { channel_id } && !after.pending.contains_key(guild_id.0)
            &&& working && registry.workers[guild_id.0].channel_id == channel_id ==> plan
                == LeavePlan::StopWorker { channel_id } && !after.workers.contains_key(guild_id.0)
            &&& joining && registry.pending[guild_id.0].channel_id != channel_id ==> plan
                == LeavePlan::WrongChannel {
                channel_id: registry.pending[guild_id.0].channel_id,
            } && after == registry
            &&& working && registry.workers[guild_id.0].channel_id != channel_id ==> plan
                == LeavePlan::WrongChannel {
                channel_id: registry.workers[guild_id.0].channel_id,
            } && after == registry
        }),
{
    let after = registry.left(guild_id, channel_id);
    if !registry.pending.contains_key(guild_id.0) && !registry.workers.contains_key(guild_id.0) {
        assert(after.pending =~= registry.pending);
        assert(after.workers =~= registry.workers);
    }
}

/// A leave is answered by what was done, or by the error that came when the
/// voice state was to be cleared. The player is emptied at once unless a
/// worker is left to do so, and stays as it is where nothing was left.
pub proof fn law_leave_answers_tell_what_was_done(
    plan: LeavePlan,
    error: String,
    before: PlayerState,
)
    ensures
        ({
            let done = plan.outcome(Ok(()));
            let failed = plan.outcome(Err(error));
            let player = plan.player_after(before);
            let emptied = player.now_playing is None && player.queue.len() == 0
                && player.loop_mode == LoopMode::Off;
            match plan {
                LeavePlan::NotConnected => done is NotConnected && failed is NotConnected && emptied,
                LeavePlan::WrongChannel { channel_id } => done
                    == VoiceLeaveResult::WrongVoiceChannel { channel_id } && failed == done
                    && player == before,
                LeavePlan::CancelJoin { channel_id } => done == VoiceLeaveResult::CancelledJoin {
                    channel_id,
                } && failed == VoiceLeaveResult::Failed(LeaveFailure::JoinCancelled(error))
                    && emptied,
                LeavePlan::StopWorker { channel_id } => done == VoiceLeaveResult::Left {
                    channel_id,
                } && failed == VoiceLeaveResult::Failed(LeaveFailure::WorkerStopped(error))
                    && player == before,
            }
        }),
{
}

/// A playback request is handed on as it is to the worker of the same channel.
/// With no worker it is told that nothing is connected, and from another
/// channel which one is.
pub proof fn law_playback_requests_are_handed_on(
    registry: VoiceRegistry,
    guild_id: GuildId,
    channel_id: ChannelId,
    action: PlaybackAction,
)
    ensures
        ({
            let route = registry.route(guild_id, channel_id, action);
            &&& !registry.workers.contains_key(guild_id.0) ==> route == PlaybackRoute::Reply(
                PlaybackControlResult::NotConnected,
            )
            &&& registry.workers.contains_key(guild_id.0) ==> if registry.workers[guild_id.0].channel_id
                == channel_id {
                route == PlaybackRoute::Forward(action)
            } else {
                route == PlaybackRoute::Reply(
                    PlaybackControlResult::WrongVoiceChannel {
                        channel_id: registry.workers[guild_id.0].channel_id,
                    },
                )
            }
        }),
{
}

/// On shutdown every pending join is cancelled and every worker told to stop,
/// in this order and once; then the workers are awaited, and then each of the
/// guilds is disconnected, once. There are no other steps.
pub proof fn law_shutdown_steps_are_these(plan: ShutdownPlan, i: int)
    requires
        plan.is_ordered(),
        0 <= i < plan.cancelled@.len() + plan.stopped@.len(),
    ensures
        ({
            let joins = plan.cancelled@.len() as int;
            let all = (plan.cancelled@.len() + plan.stopped@.len()) as int;
            let guild_id = if i < joins {
                plan.cancelled@[i]
            } else {
                plan.stopped@[i - joins]
            };
            &&& plan.steps@.len() == 2 * all + 1
            &&& i < joins ==> plan.steps@[i] == (ShutdownStep::CancelJoin { guild_id })
            &&& i >= joins ==> plan.steps@[i] == (ShutdownStep::StopWorker { guild_id })
            &&& plan.steps@[all] == ShutdownStep::AwaitWorkers
            &&& plan.steps@[all + 1 + i] == (ShutdownStep::Disconnect { guild_id })
        }),
{
}

/// During shutdown every request is told so, and a request whose worker no
/// longer listens that it is unavailable.
pub proof fn law_late_requests_are_told(
    guild_id: GuildId,
    channel_id: ChannelId,
    action: PlaybackAction,
    join: ControlReply,
    leave: ControlReply,
    playback: ControlReply,
    undelivered: PlaybackControlResult,
)
    requires
        call_ensures(
            VoiceManager::reject_control,
            (GatewayControl::JoinVoice { guild_id, channel_id },),
            join,
        ),
        call_ensures(
            VoiceManager::reject_control,
            (GatewayControl::LeaveVoice { guild_id, channel_id },),
            leave,
        ),
        call_ensures(
            VoiceManager::reject_control,
            (GatewayControl::Playback { guild_id, channel_id, action },),
            playback,
        ),
        call_ensures(VoiceManager::undelivered, (), undelivered),
    ensures
        join == ControlReply::Join(VoiceJoinResult::Failed(JoinFailure::ShuttingDown)),
        leave == ControlReply::Leave(VoiceLeaveResult::Failed(LeaveFailure::ShuttingDown)),
        playback == ControlReply::Playback(
            PlaybackControlResult::Failed(ControlFailure::ShuttingDown),
        ),
        undelivered == PlaybackControlResult::Failed(ControlFailure::WorkerUnavailable),
{
}

/// A join that the Gateway was asked for waits, one that it could not be asked
/// for is told the error, and one that came too late is told where the guild is
/// by now. Only the first changes the registry.
pub proof fn law_asking_the_gateway_decides_the_join(
    asked: &mut VoiceManager,
    failed: &mut VoiceManager,
    guild_id: GuildId,
    channel_id: ChannelId,
    error: String,
    waiting: JoinProgress,
    told: JoinProgress,
)
    requires
        call_ensures(
            VoiceManager::join_requested,
            (asked, guild_id, channel_id, Ok::<(), String>(())),
            waiting,
        ),
        call_ensures(
            VoiceManager::join_requested,
            (failed, guild_id, channel_id, Err::<(), String>(error)),
            told,
        ),
    ensures
        final(failed)@ == old(failed)@,
        ({
            let registered = old(failed)@.workers.contains_key(guild_id.0) || old(
                failed,
            )@.pending.contains_key(guild_id.0);
            !registered ==> told == JoinProgress::Reply(
                VoiceJoinResult::Failed(JoinFailure::RequestFailed(error)),
            )
        }),
        ({
            let registered = old(asked)@.workers.contains_key(guild_id.0) || old(
                asked,
            )@.pending.contains_key(guild_id.0);
            &&& registered ==> waiting is Reply && final(asked)@ == old(asked)@
            &&& !registered ==> {
                &&& waiting is Waiting
                &&& final(asked)@.pending.contains_key(guild_id.0)
                &&& final(asked)@.pending[guild_id.0].channel_id == channel_id
                &&& final(asked)@.pending[guild_id.0].request_id == waiting->request_id
                &&& final(asked)@.workers == old(asked)@.workers
            }
        }),
{
}

} // verus!
