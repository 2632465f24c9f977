use std::time::Duration;

use sonoryn::gateway_control::{
    ControlFailure, GatewayControl, JoinFailure, LeaveFailure, PlaybackAction,
    PlaybackControlResult, VoiceJoinResult, VoiceLeaveResult,
};
use sonoryn::history::HistoryManager;
use sonoryn::ids::{ChannelId, GuildId, UserId};
use sonoryn::media::decoder::FfmpegDecodeOptions;
use sonoryn::media::track::{
    RequestedBy, ResolvedTrack, Track, TrackId, TrackMetadata, TrackRequest, TrackSource,
};
use sonoryn::metrics::Metrics;
use sonoryn::player::{LoopMode, PlayerManager};
use sonoryn::runtime::{
    next_startup_step, record_command, record_dispatch, registration_from,
    verify_runtime_dependencies, verify_runtime_dependency, DispatchReport, GatewayLoop,
    GatewayNotice, Registration, StartupStep,
};
use sonoryn::tools::ToolRun;
use sonoryn::voice_manager::{
    ControlReply, ControlStep, JoinDecision, JoinProgress, LeavePlan, PlaybackRoute,
    RendezvousAction, RendezvousOutcome, ShutdownStep, VoiceManager, VoiceWorkerEvent,
    WorkerEventAction,
};
use sonoryn::voice_session::{
    SessionInput, SessionPhase, SessionStep, TimerChange, TransportCall, VoiceSession,
    VoiceWorkerStopReason,
};
use sonoryn::voice_worker::{
    GuildPlayback, PlaybackState, SkipTrackResult, SpeechCall, TrackEnqueueResult,
    VoiceWorkerCommand, WorkerInput, WorkerReply, DECODE_FRAME_BUFFER,
};

const GUILD: GuildId = GuildId(1);
const CHANNEL: ChannelId = ChannelId(3);

fn track(id: u64) -> Track {
    Track::from_resolved(
        TrackId::new(id),
        TrackRequest::new(format!("track {id}")).expect("request"),
        RequestedBy::new(UserId::new(7)),
        ResolvedTrack {
            source: TrackSource::YouTube,
            metadata: TrackMetadata {
                title: format!("track {id}"),
                artist: None,
                duration: Some(Duration::from_secs(id)),
                artwork_url: None,
                webpage_url: format!("https://example.test/{id}"),
            },
            locator: format!("https://example.test/{id}"),
        },
    )
}

struct Stage {
    session: VoiceSession,
    players: PlayerManager,
    history: HistoryManager,
}

impl Stage {
    fn connected(tracks: u64) -> Stage {
        let mut stage = Stage {
            session: VoiceSession::new(GUILD, CHANNEL),
            players: PlayerManager::new(),
            history: HistoryManager::new(),
        };
        for id in 1..=tracks {
            stage.players.enqueue(GUILD, track(id));
        }
        let step = stage.give(SessionInput::Connected);
        assert_eq!(step.join_reply, Some(VoiceJoinResult::Joined { channel_id: CHANNEL }));
        assert_eq!(step.timer, TimerChange::Rearm);
        stage
    }

    fn give(&mut self, input: SessionInput) -> SessionStep {
        self.session.handle(input, &mut self.players, &mut self.history)
    }

    fn act(&mut self, action: PlaybackAction) -> SessionStep {
        self.give(SessionInput::Playback(action))
    }

    fn speak(&mut self) {
        assert_eq!(self.give(SessionInput::Frame).call, TransportCall::BeginSpeech);
        assert_eq!(self.give(SessionInput::SpeechBegan).call, TransportCall::SendFrame);
        self.give(SessionInput::FrameSent);
    }

    fn playing(&self) -> Option<u64> {
        self.players.snapshot(GUILD).now_playing.map(|track| track.id.get())
    }

    fn queued(&self) -> Vec<u64> {
        self.players.snapshot(GUILD).queue.iter().map(|track| track.id.get()).collect()
    }

    fn played(&self) -> Vec<u64> {
        self.history.snapshot(GUILD).iter().map(|track| track.id.get()).collect()
    }
}

#[test]
fn waking_starts_the_first_queued_track() {
    let mut stage = Stage::connected(2);
    let step = stage.act(PlaybackAction::Wake);
    assert_eq!(step.reply, Some(PlaybackControlResult::Accepted));
    assert_eq!(step.start.map(|start| start.track.id.get()), Some(1));
    assert_eq!(step.timer, TimerChange::Disarm);
    assert!(stage.session.decoder_enabled());
    assert!(!stage.session.is_idle());
    let step = stage.act(PlaybackAction::Wake);
    assert_eq!(step.reply, Some(PlaybackControlResult::Accepted));
    assert!(step.start.is_none());

    let mut empty = Stage::connected(0);
    assert_eq!(
        empty.act(PlaybackAction::Wake).reply,
        Some(PlaybackControlResult::NothingPlaying)
    );
}

#[test]
fn skipping_and_going_back_restore_the_player() {
    let mut stage = Stage::connected(3);
    stage.act(PlaybackAction::Wake);
    stage.speak();
    let step = stage.act(PlaybackAction::Skip);
    assert!(step.cancel);
    assert_eq!(step.call, TransportCall::EndSpeech);
    assert!(step.reply.is_none());
    let step = stage.give(SessionInput::SpeechEnded);
    assert_eq!(step.reply, Some(PlaybackControlResult::Accepted));
    assert_eq!(stage.playing(), Some(2));
    assert_eq!(stage.played(), [1]);

    let step = stage.act(PlaybackAction::Previous);
    assert_eq!(step.reply, Some(PlaybackControlResult::Accepted));
    assert_eq!(stage.playing(), Some(1));
    assert_eq!(stage.queued(), [2, 3]);
    assert!(stage.played().is_empty());
    assert_eq!(
        stage.act(PlaybackAction::Previous).reply,
        Some(PlaybackControlResult::NothingPlaying)
    );
    assert_eq!(stage.playing(), Some(1));
}

#[test]
fn pausing_keeps_the_track_and_never_times_out() {
    let mut stage = Stage::connected(1);
    assert_eq!(
        stage.act(PlaybackAction::Pause).reply,
        Some(PlaybackControlResult::NothingPlaying)
    );
    stage.act(PlaybackAction::Wake);
    assert_eq!(
        stage.act(PlaybackAction::Resume).reply,
        Some(PlaybackControlResult::AlreadyPlaying)
    );
    stage.speak();
    assert_eq!(stage.act(PlaybackAction::Pause).call, TransportCall::EndSpeech);
    let step = stage.give(SessionInput::SpeechEnded);
    assert_eq!(step.reply, Some(PlaybackControlResult::Accepted));
    assert!(!stage.session.decoder_enabled());
    assert_eq!(
        stage.act(PlaybackAction::Pause).reply,
        Some(PlaybackControlResult::AlreadyPaused)
    );
    assert!(stage.give(SessionInput::IdleTimeout).stop.is_none());
    let step = stage.act(PlaybackAction::Resume);
    assert!(step.reset_pacer);
    assert!(stage.session.decoder_enabled());
}

#[test]
fn stopping_empties_the_player() {
    let mut stage = Stage::connected(3);
    stage.act(PlaybackAction::Wake);
    let step = stage.act(PlaybackAction::Stop);
    assert!(step.cancel);
    assert_eq!(step.reply, Some(PlaybackControlResult::Accepted));
    assert_eq!(step.timer, TimerChange::Rearm);
    assert!(stage.players.snapshot(GUILD).is_idle());
    assert_eq!(
        stage.act(PlaybackAction::Stop).reply,
        Some(PlaybackControlResult::NothingPlaying)
    );
}

#[test]
fn finished_tracks_are_remembered_unless_they_repeat() {
    let mut stage = Stage::connected(2);
    stage.act(PlaybackAction::Wake);
    stage.players.set_loop_mode(GUILD, LoopMode::Track);
    let step = stage.give(SessionInput::Finished);
    assert_eq!(step.start.map(|start| start.track.id.get()), Some(1));
    assert!(stage.played().is_empty());
    stage.players.set_loop_mode(GUILD, LoopMode::Off);
    stage.give(SessionInput::Finished);
    assert_eq!(stage.played(), [1]);
    assert_eq!(stage.playing(), Some(2));
    let step = stage.give(SessionInput::DecoderFailed);
    assert_eq!(stage.played(), [1]);
    assert!(stage.players.snapshot(GUILD).is_idle());
    assert_eq!(step.timer, TimerChange::Rearm);
}

#[test]
fn idle_sessions_disconnect_only_when_nothing_is_queued() {
    let mut stage = Stage::connected(0);
    stage.players.enqueue(GUILD, track(5));
    let step = stage.give(SessionInput::IdleTimeout);
    assert_eq!(step.start.map(|start| start.track.id.get()), Some(5));
    assert!(step.stop.is_none());

    let mut stage = Stage::connected(0);
    let step = stage.give(SessionInput::IdleTimeout);
    assert_eq!(step.stop, Some(VoiceWorkerStopReason::IdleTimedOut));
    assert!(matches!(stage.session.phase, SessionPhase::Stopped));
    assert!(stage.give(SessionInput::Shutdown).stop.is_none());
}

#[test]
fn sessions_end_on_request_and_on_failure() {
    let mut stage = Stage::connected(2);
    stage.act(PlaybackAction::Wake);
    stage.speak();
    let step = stage.give(SessionInput::Shutdown);
    assert!(step.cancel);
    assert_eq!(step.call, TransportCall::EndSpeech);
    let step = stage.give(SessionInput::SpeechEndFailed("late".to_owned()));
    assert_eq!(step.stop, Some(VoiceWorkerStopReason::Requested));
    assert!(stage.players.snapshot(GUILD).is_idle());

    let mut stage = Stage::connected(2);
    stage.act(PlaybackAction::Wake);
    stage.speak();
    stage.act(PlaybackAction::Skip);
    let step = stage.give(SessionInput::SpeechEndFailed("broken".to_owned()));
    assert_eq!(step.stop, Some(VoiceWorkerStopReason::VoiceFailed("broken".to_owned())));
    assert!(step.reply.is_none());

    let mut stage = Stage::connected(1);
    stage.act(PlaybackAction::Wake);
    let step = stage.give(SessionInput::VoiceFailed("lost".to_owned()));
    assert!(step.cancel);
    assert_eq!(step.stop, Some(VoiceWorkerStopReason::VoiceFailed("lost".to_owned())));

    let mut stage = Stage::connected(1);
    stage.act(PlaybackAction::Wake);
    stage.give(SessionInput::Frame);
    let step = stage.give(SessionInput::SpeechBeginFailed("mute".to_owned()));
    assert_eq!(step.stop, Some(VoiceWorkerStopReason::VoiceFailed("mute".to_owned())));

    let mut stage = Stage::connected(1);
    stage.act(PlaybackAction::Wake);
    stage.speak();
    assert_eq!(stage.give(SessionInput::Frame).call, TransportCall::SendFrame);
    let step = stage.give(SessionInput::FrameFailed("udp".to_owned()));
    assert_eq!(step.stop, Some(VoiceWorkerStopReason::VoiceFailed("udp".to_owned())));
}

#[test]
fn a_session_that_does_not_connect_answers_the_join() {
    let mut stage = Stage {
        session: VoiceSession::new(GUILD, CHANNEL),
        players: PlayerManager::new(),
        history: HistoryManager::new(),
    };
    stage.players.enqueue(GUILD, track(1));
    let step = stage.give(SessionInput::ConnectFailed("no route".to_owned()));
    assert_eq!(
        step.join_reply,
        Some(VoiceJoinResult::Failed(JoinFailure::SessionFailed("no route".to_owned())))
    );
    assert_eq!(
        step.stop,
        Some(VoiceWorkerStopReason::ConnectFailed("no route".to_owned()))
    );
    assert_eq!(stage.queued(), [1]);

    let mut stage = Stage {
        session: VoiceSession::new(GUILD, CHANNEL),
        players: PlayerManager::new(),
        history: HistoryManager::new(),
    };
    stage.players.enqueue(GUILD, track(1));
    let step = stage.give(SessionInput::ConnectInterrupted);
    assert_eq!(step.join_reply, Some(VoiceJoinResult::Cancelled));
    assert!(stage.queued().is_empty());
}

#[test]
fn seeking_decodes_the_current_track_anew() {
    let mut stage = Stage::connected(0);
    let step = stage.act(PlaybackAction::Seek { position_millis: 5 });
    assert_eq!(step.reply, Some(PlaybackControlResult::NothingPlaying));
    assert!(!step.cancel && step.start.is_none());

    let mut stage = Stage::connected(2);
    stage.act(PlaybackAction::Wake);
    stage.speak();
    let step = stage.act(PlaybackAction::Seek { position_millis: 61_500 });
    assert_eq!(step.reply, Some(PlaybackControlResult::Accepted));
    assert!(step.cancel);
    assert_eq!(step.call, TransportCall::Nothing);
    let start = step.start.expect("start");
    assert_eq!(start.track.id.get(), 1);
    assert_eq!(start.options, FfmpegDecodeOptions { position_millis: 61_500, volume_percent: 100 });
    assert_eq!(stage.queued(), [2]);
    assert!(stage.played().is_empty());
    assert_eq!(
        stage.act(PlaybackAction::CheckContext).reply,
        Some(PlaybackControlResult::Accepted)
    );
}

#[test]
fn a_volume_is_kept_for_the_tracks_that_follow() {
    let mut stage = Stage::connected(2);
    let step = stage.act(PlaybackAction::Volume { percent: 40 });
    assert_eq!(step.reply, Some(PlaybackControlResult::NothingPlaying));
    assert!(step.start.is_none());
    let start = stage.act(PlaybackAction::Wake).start.expect("start");
    assert_eq!(start.options, FfmpegDecodeOptions { position_millis: 0, volume_percent: 40 });

    stage.speak();
    stage.give(SessionInput::Frame);
    stage.give(SessionInput::FrameSent);
    let step = stage.act(PlaybackAction::Volume { percent: 70 });
    assert_eq!(step.reply, Some(PlaybackControlResult::Accepted));
    assert!(step.cancel);
    let start = step.start.expect("start");
    assert_eq!(start.track.id.get(), 1);
    assert_eq!(start.options, FfmpegDecodeOptions { position_millis: 40, volume_percent: 70 });

    stage.act(PlaybackAction::Skip);
    let start = stage.give(SessionInput::SpeechEnded).start.expect("start");
    assert_eq!(start.track.id.get(), 2);
    assert_eq!(start.options, FfmpegDecodeOptions { position_millis: 0, volume_percent: 70 });
}

fn waiting(manager: &mut VoiceManager) -> u64 {
    match manager.join_requested(GUILD, CHANNEL, Ok(())) {
        JoinProgress::Waiting { request_id } => request_id,
        other => panic!("{other:?}"),
    }
}

#[test]
fn joining_goes_from_request_to_worker() {
    let mut manager = VoiceManager::new();
    assert!(matches!(
        manager.join_voice(GUILD, CHANNEL, None),
        JoinDecision::Reply(VoiceJoinResult::Failed(JoinFailure::GatewayNotReady))
    ));
    assert!(matches!(
        manager.join_voice(GUILD, CHANNEL, Some(UserId(9))),
        JoinDecision::Request { .. }
    ));
    assert!(matches!(
        manager.join_requested(GUILD, CHANNEL, Err("closed".to_owned())),
        JoinProgress::Reply(VoiceJoinResult::Failed(JoinFailure::RequestFailed(_)))
    ));
    assert_eq!(waiting(&mut manager), 1);
    assert!(matches!(
        manager.join_voice(GUILD, ChannelId(9), Some(UserId(9))),
        JoinDecision::Reply(VoiceJoinResult::InProgress { channel_id: CHANNEL })
    ));
    let actions = manager.handle_dispatch(&vec![
        (GuildId(2), RendezvousOutcome::Ready),
        (GUILD, RendezvousOutcome::Ready),
        (GUILD, RendezvousOutcome::Ready),
    ]);
    assert_eq!(actions.len(), 1);
    assert!(matches!(
        actions[0],
        RendezvousAction::StartWorker { guild_id: GUILD, channel_id: CHANNEL, generation: 2 }
    ));
    assert!(matches!(
        manager.join_voice(GUILD, ChannelId(9), None),
        JoinDecision::Reply(VoiceJoinResult::AlreadyConnected { channel_id: CHANNEL })
    ));
}

#[test]
fn unavailable_servers_refuse_the_join() {
    let mut manager = VoiceManager::new();
    waiting(&mut manager);
    let actions = manager.handle_dispatch(&vec![(GUILD, RendezvousOutcome::ServerUnavailable)]);
    match &actions[0] {
        RendezvousAction::Refuse { guild_id, result: VoiceJoinResult::Failed(failure) } => {
            assert_eq!(*guild_id, GUILD);
            assert_eq!(
                failure.text(),
                "Discord has not allocated a voice server for this guild yet."
            );
        }
        other => panic!("{other:?}"),
    }
    assert!(matches!(
        manager.join_voice(GUILD, CHANNEL, Some(UserId(9))),
        JoinDecision::Request { .. }
    ));
}

#[test]
fn stale_reports_change_nothing() {
    let mut manager = VoiceManager::new();
    let mut players = PlayerManager::new();
    let first = waiting(&mut manager);
    assert_eq!(
        manager.leave_voice(GUILD, CHANNEL, &mut players),
        LeavePlan::CancelJoin { channel_id: CHANNEL }
    );
    let second = waiting(&mut manager);
    assert_ne!(first, second);
    let stale = VoiceWorkerEvent::JoinTimedOut { guild_id: GUILD, request_id: first };
    assert!(matches!(manager.handle_worker_event(stale), WorkerEventAction::Ignore));
    let current = VoiceWorkerEvent::JoinTimedOut { guild_id: GUILD, request_id: second };
    assert!(matches!(
        manager.handle_worker_event(current),
        WorkerEventAction::FailJoin {
            result: VoiceJoinResult::Failed(JoinFailure::TimedOut)
        }
    ));

    waiting(&mut manager);
    manager.handle_dispatch(&vec![(GUILD, RendezvousOutcome::Ready)]);
    let stopped = |generation, reason| VoiceWorkerEvent::Stopped {
        guild_id: GUILD,
        generation,
        reason,
    };
    assert!(matches!(
        manager.handle_worker_event(stopped(1, VoiceWorkerStopReason::IdleTimedOut)),
        WorkerEventAction::Ignore
    ));
    assert!(matches!(
        manager.handle_worker_event(stopped(4, VoiceWorkerStopReason::IdleTimedOut)),
        WorkerEventAction::Disconnect
    ));
    waiting(&mut manager);
    manager.handle_dispatch(&vec![(GUILD, RendezvousOutcome::Ready)]);
    assert!(matches!(
        manager.handle_worker_event(stopped(6, VoiceWorkerStopReason::Requested)),
        WorkerEventAction::Forget
    ));
}

#[test]
fn leaving_tells_what_was_left() {
    let mut manager = VoiceManager::new();
    let mut players = PlayerManager::new();
    players.enqueue(GUILD, track(1));
    let plan = manager.leave_voice(GUILD, CHANNEL, &mut players);
    assert_eq!(plan.result(Ok(())), VoiceLeaveResult::NotConnected);
    assert!(players.snapshot(GUILD).is_idle());

    waiting(&mut manager);
    manager.handle_dispatch(&vec![(GUILD, RendezvousOutcome::Ready)]);
    players.enqueue(GUILD, track(1));
    let step = manager.handle_control(
        GatewayControl::LeaveVoice { guild_id: GUILD, channel_id: CHANNEL },
        None,
        &mut players,
    );
    match step {
        ControlStep::Leave(plan) => {
            assert_eq!(plan, LeavePlan::StopWorker { channel_id: CHANNEL });
            assert_eq!(plan.result(Ok(())), VoiceLeaveResult::Left { channel_id: CHANNEL });
            assert_eq!(
                plan.result(Err("closed".to_owned())),
                VoiceLeaveResult::Failed(LeaveFailure::WorkerStopped("closed".to_owned()))
            );
        }
        other => panic!("{other:?}"),
    }
    assert!(!players.snapshot(GUILD).is_idle());
    let cancelled = LeavePlan::CancelJoin { channel_id: CHANNEL };
    assert_eq!(
        cancelled.result(Ok(())),
        VoiceLeaveResult::CancelledJoin { channel_id: CHANNEL }
    );
    assert_eq!(
        LeaveFailure::JoinCancelled("closed".to_owned()).text(),
        "Cancelled the pending join, but failed to leave voice: closed"
    );
}

#[test]
fn leaving_from_another_channel_changes_nothing() {
    let elsewhere = ChannelId(CHANNEL.get() + 1);
    let mut manager = VoiceManager::new();
    let mut players = PlayerManager::new();
    players.enqueue(GUILD, track(1));
    let request_id = waiting(&mut manager);
    let refused = LeavePlan::WrongChannel { channel_id: CHANNEL };
    assert_eq!(manager.leave_voice(GUILD, elsewhere, &mut players), refused);
    assert_eq!(
        refused.result(Ok(())),
        VoiceLeaveResult::WrongVoiceChannel { channel_id: CHANNEL }
    );
    manager.handle_dispatch(&vec![(GUILD, RendezvousOutcome::Ready)]);
    let step = manager.handle_control(
        GatewayControl::LeaveVoice { guild_id: GUILD, channel_id: elsewhere },
        None,
        &mut players,
    );
    assert!(matches!(step, ControlStep::Leave(plan) if plan == refused));
    assert_eq!(players.snapshot(GUILD).queued_len(), 1);
    let stopped = VoiceWorkerEvent::Stopped {
        guild_id: GUILD,
        generation: request_id + 1,
        reason: VoiceWorkerStopReason::Requested,
    };
    assert!(matches!(manager.handle_worker_event(stopped), WorkerEventAction::Forget));
}

#[test]
fn playback_reaches_the_worker_of_its_channel() {
    let mut manager = VoiceManager::new();
    let mut players = PlayerManager::new();
    let route = |manager: &VoiceManager, channel| {
        manager.route_playback(GUILD, channel, PlaybackAction::Skip)
    };
    assert_eq!(
        route(&manager, CHANNEL),
        PlaybackRoute::Reply(PlaybackControlResult::NotConnected)
    );
    waiting(&mut manager);
    manager.handle_dispatch(&vec![(GUILD, RendezvousOutcome::Ready)]);
    assert_eq!(route(&manager, CHANNEL), PlaybackRoute::Forward(PlaybackAction::Skip));
    assert_eq!(
        route(&manager, ChannelId(8)),
        PlaybackRoute::Reply(PlaybackControlResult::WrongVoiceChannel { channel_id: CHANNEL })
    );
    let control = GatewayControl::Playback {
        guild_id: GUILD,
        channel_id: CHANNEL,
        action: PlaybackAction::Pause,
    };
    assert!(matches!(
        manager.handle_control(control, None, &mut players),
        ControlStep::Playback(PlaybackRoute::Forward(PlaybackAction::Pause))
    ));
    assert_eq!(
        VoiceManager::undelivered(),
        PlaybackControlResult::Failed(ControlFailure::WorkerUnavailable)
    );
    assert_eq!(
        VoiceManager::reject_control(control),
        ControlReply::Playback(PlaybackControlResult::Failed(ControlFailure::ShuttingDown))
    );
    assert_eq!(ControlFailure::ShuttingDown.text(), "Sonoryn is shutting down.");
}

#[test]
fn shutdown_empties_the_registry() {
    let mut manager = VoiceManager::new();
    for guild in 1..=3 {
        manager.join_requested(GuildId(guild), CHANNEL, Ok(()));
    }
    manager.handle_dispatch(&vec![(GuildId(2), RendezvousOutcome::Ready)]);
    let plan = manager.shutdown();
    let mut cancelled = plan.cancelled.iter().map(|guild| guild.get()).collect::<Vec<_>>();
    cancelled.sort_unstable();
    assert_eq!(cancelled, [1, 3]);
    assert_eq!(plan.stopped, [GuildId(2)]);
    let place = |step: ShutdownStep| plan.steps.iter().position(|other| *other == step);
    let awaited = place(ShutdownStep::AwaitWorkers).expect("awaited");
    for guild_id in [GuildId(1), GuildId(3)] {
        assert!(place(ShutdownStep::CancelJoin { guild_id }).expect("cancelled") < awaited);
        assert!(place(ShutdownStep::Disconnect { guild_id }).expect("disconnected") > awaited);
    }
    let guild_id = GuildId(2);
    assert!(place(ShutdownStep::StopWorker { guild_id }).expect("stopped") < awaited);
    assert!(place(ShutdownStep::Disconnect { guild_id }).expect("disconnected") > awaited);
    assert_eq!(plan.steps.len(), 7);
    let plan = manager.shutdown();
    assert!(plan.cancelled.is_empty());
    assert!(plan.stopped.is_empty());
    assert_eq!(plan.steps, [ShutdownStep::AwaitWorkers]);
}

#[test]
fn a_worker_plays_its_queue_in_order() {
    let mut worker = GuildPlayback::new(GUILD, CHANNEL);
    let step = worker.handle(WorkerInput::Command(VoiceWorkerCommand::Enqueue { track: track(1) }));
    assert!(step.postpone);
    let step = worker.handle(WorkerInput::Connected);
    assert_eq!(step.join_reply, Some(VoiceJoinResult::Joined { channel_id: CHANNEL }));
    let enqueue = |worker: &mut GuildPlayback, id| {
        worker.handle(WorkerInput::Command(VoiceWorkerCommand::Enqueue { track: track(id) }))
    };
    let accepted = |position| {
        Some(WorkerReply::Enqueue(TrackEnqueueResult::Accepted { position }))
    };
    let step = enqueue(&mut worker, 1);
    assert_eq!(step.reply, accepted(0));
    assert!(step.prepare.is_none());
    let step = worker.handle(WorkerInput::Replayed);
    assert_eq!(step.prepare.map(|track| track.id.get()), Some(1));
    assert!(worker.is_preparing());
    assert_eq!(worker.published().state, PlaybackState::Loading);
    assert_eq!(enqueue(&mut worker, 2).reply, accepted(1));
    assert_eq!(enqueue(&mut worker, 3).reply, accepted(2));

    assert_eq!(worker.handle(WorkerInput::Prepared).call, SpeechCall::Begin);
    let step = worker.handle(WorkerInput::SpeechBegan);
    assert!(step.start_decoder && step.publish);
    assert!(worker.is_active());
    assert_eq!(worker.handle(WorkerInput::Frame).call, SpeechCall::Send);
    worker.handle(WorkerInput::FrameSent);
    let step = worker.handle(WorkerInput::Finished);
    assert!(step.await_decoder);
    assert_eq!(step.call, SpeechCall::End);
    let step = worker.handle(WorkerInput::SpeechEnded);
    assert_eq!(step.prepare.map(|track| track.id.get()), Some(2));

    let step = worker.handle(WorkerInput::Command(VoiceWorkerCommand::Skip));
    assert!(step.abort_prepare);
    assert_eq!(
        step.reply,
        Some(WorkerReply::Skip(SkipTrackResult::Skipped { title: "track 2".to_owned() }))
    );
    assert_eq!(step.prepare.map(|track| track.id.get()), Some(3));
    let step = worker.handle(WorkerInput::PrepareFailed);
    assert!(step.publish);
    let shown = worker.published();
    assert_eq!(shown.state, PlaybackState::Idle);
    assert!(shown.current.is_none() && shown.queue.is_empty());
    assert_eq!(
        worker.handle(WorkerInput::Command(VoiceWorkerCommand::Skip)).reply,
        Some(WorkerReply::Skip(SkipTrackResult::NothingPlaying))
    );
}

#[test]
fn postponed_commands_are_applied_before_the_first_track() {
    let mut worker = GuildPlayback::new(GUILD, CHANNEL);
    worker.handle(WorkerInput::Connected);
    let mut give = |command| worker.handle(WorkerInput::Command(command));
    let accepted = |position| {
        Some(WorkerReply::Enqueue(TrackEnqueueResult::Accepted { position }))
    };
    let first = give(VoiceWorkerCommand::Enqueue { track: track(1) });
    let second = give(VoiceWorkerCommand::Enqueue { track: track(2) });
    let skip = give(VoiceWorkerCommand::Skip);
    assert_eq!(first.reply, accepted(0));
    assert_eq!(second.reply, accepted(2));
    assert!(first.prepare.is_none() && second.prepare.is_none());
    assert_eq!(skip.reply, Some(WorkerReply::Skip(SkipTrackResult::NothingPlaying)));
    let step = worker.handle(WorkerInput::Replayed);
    assert_eq!(step.prepare.map(|track| track.id.get()), Some(1));
    assert_eq!(worker.published().queue.len(), 1);
    assert_eq!(DECODE_FRAME_BUFFER, 2);
}

#[test]
fn a_worker_lets_go_of_everything_when_it_ends() {
    let mut worker = GuildPlayback::new(GUILD, CHANNEL);
    worker.handle(WorkerInput::Connected);
    worker.handle(WorkerInput::Replayed);
    worker.handle(WorkerInput::Command(VoiceWorkerCommand::Enqueue { track: track(1) }));
    worker.handle(WorkerInput::Command(VoiceWorkerCommand::Enqueue { track: track(2) }));
    worker.handle(WorkerInput::Prepared);
    worker.handle(WorkerInput::SpeechBegan);
    worker.handle(WorkerInput::Command(VoiceWorkerCommand::Skip));
    let step = worker.handle(WorkerInput::SpeechEndFailed("lost".to_owned()));
    assert_eq!(
        step.reply,
        Some(WorkerReply::Skip(SkipTrackResult::Failed("lost".to_owned())))
    );
    assert_eq!(step.call, SpeechCall::End);
    let step = worker.handle(WorkerInput::SpeechEndFailed("again".to_owned()));
    assert_eq!(step.stop, Some(VoiceWorkerStopReason::VoiceFailed("again".to_owned())));
    assert!(worker.published().queue.is_empty());

    let mut worker = GuildPlayback::new(GUILD, CHANNEL);
    let step = worker.handle(WorkerInput::CommandsClosed);
    assert_eq!(step.join_reply, Some(VoiceJoinResult::Cancelled));
    assert_eq!(step.stop, Some(VoiceWorkerStopReason::Requested));
}

#[test]
fn the_runtime_keeps_its_books() {
    assert_eq!(registration_from(None), Ok(Registration::Global));
    assert_eq!(registration_from(Some("12")), Ok(Registration::Guild(GuildId(12))));
    assert_eq!(
        registration_from(Some("1x")),
        Err("invalid SONORYN_DEV_GUILD_ID: invalid digit found in string".to_owned())
    );

    let mut metrics = Metrics::new();
    let mut state = GatewayLoop::new(Registration::Global);
    assert!(!state.observe(GatewayNotice::Reconnect, &mut metrics));
    assert!(!state.observe(GatewayNotice::InvalidSession, &mut metrics));
    assert!(!state.observe(GatewayNotice::Other, &mut metrics));
    assert!(state.observe(GatewayNotice::Ready { user_id: UserId(5) }, &mut metrics));
    state.commands_synchronized();
    assert!(!state.observe(GatewayNotice::Ready { user_id: UserId(6) }, &mut metrics));
    assert_eq!(state.bot_user_id, Some(UserId(6)));
    assert!(GatewayLoop::new(Registration::Skipped).synchronized);

    record_dispatch(&mut metrics, DispatchReport::AtCapacity);
    record_dispatch(&mut metrics, DispatchReport::Ignored);
    record_command(&mut metrics, Duration::from_micros(3), true);
    record_command(&mut metrics, Duration::from_micros(4), false);
    let snapshot = metrics.snapshot();
    assert_eq!((snapshot.reconnects, snapshot.failures), (2, 2));
    assert_eq!((snapshot.commands, snapshot.command_latency_micros), (2, 7));
}

#[test]
fn missing_programs_end_the_start_up() {
    assert_eq!(
        verify_runtime_dependency("ffmpeg", &ToolRun::NotStarted("no file".to_owned())),
        Err("required runtime dependency `ffmpeg` is not available on PATH: no file".to_owned())
    );
    assert_eq!(
        verify_runtime_dependency("ffmpeg", &ToolRun::Failed("exit status: 2".to_owned())),
        Err("runtime dependency `ffmpeg` failed its startup check with status exit status: 2"
            .to_owned())
    );
    let run = ToolRun::Finished { stdout: vec![b'v'; 200], stderr: Vec::new() };
    assert_eq!(verify_runtime_dependency("ffmpeg", &run), Ok(Some("v".repeat(160))));
    let run = ToolRun::Finished { stdout: Vec::new(), stderr: Vec::new() };
    assert_eq!(verify_runtime_dependency("ffmpeg", &run), Ok(None));
}

#[test]
fn ffmpeg_is_checked_only_after_yt_dlp() {
    let found = ToolRun::Finished { stdout: b"1".to_vec(), stderr: Vec::new() };
    let missing = ToolRun::NotStarted("No such file".to_owned());
    let failed = ToolRun::Failed("exit status: 1".to_owned());
    let no_ytdlp =
        "required runtime dependency `yt-dlp` is not available on PATH: No such file".to_owned();
    let bad_ffmpeg =
        "runtime dependency `ffmpeg` failed its startup check with status exit status: 1".to_owned();

    assert_eq!(verify_runtime_dependencies(&found, &found), Ok(()));
    assert_eq!(verify_runtime_dependencies(&missing, &failed), Err(no_ytdlp.clone()));
    assert_eq!(verify_runtime_dependencies(&found, &failed), Err(bad_ffmpeg.clone()));

    assert_eq!(
        next_startup_step(None, None),
        StartupStep::Run { binary: "yt-dlp", argument: "--version" }
    );
    assert_eq!(next_startup_step(Some(&missing), None), StartupStep::Refuse(no_ytdlp));
    assert_eq!(
        next_startup_step(Some(&found), None),
        StartupStep::Run { binary: "ffmpeg", argument: "-version" }
    );
    assert_eq!(next_startup_step(Some(&found), Some(&failed)), StartupStep::Refuse(bad_ffmpeg));
    assert_eq!(next_startup_step(Some(&found), Some(&found)), StartupStep::Ready);
}
