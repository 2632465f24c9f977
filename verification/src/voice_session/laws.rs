//! What holds of a voice session whatever comes in.

use vstd::prelude::*;

use super::{
    ActivePlayback, AfterSpeech, PlaybackStart, SessionInput, SessionModel, SessionPhase,
    SessionStep, VoiceSession, VoiceWorkerStopReason,
};
use crate::gateway_control::{PlaybackAction, PlaybackControlResult};
use crate::media::decoder::FfmpegDecodeOptions;
use crate::history;
use crate::player::PlayerState;

verus! {

/// The track that starts is the current and the active one, at the position
/// and as loud as the session has it.
pub open spec fn begins(model: SessionModel, start: PlaybackStart) -> bool {
    &&& model.player.now_playing == Some(start.track)
    &&& model.session.active is Some
    &&& model.session.active->0.track_id == start.track.id
    &&& model.session.active->0.position_millis == start.options.position_millis
    &&& model.session.volume == start.options.volume_percent
}

/// A result of an input keeps to the rules that hold of every input.
spec fn keeps_order(result: (SessionModel, SessionStep)) -> bool {
    &&& result.0.well_formed()
    &&& result.1.start matches Some(start) ==> begins(result.0, start)
    &&& result.1.stop is Some ==> result.0.session.phase is Stopped && (result.0.player
        == PlayerState::idle() || result.1.stop->0 is ConnectFailed)
}

proof fn lemma_resumed_keeps_order(model: SessionModel, after: AfterSpeech, step: SessionStep)
    requires
        after is Pause ==> model.session.active is Some && model.player.is_current(
            model.session.active->0.track_id,
        ),
        after !is Pause ==> model.session.active is None,
        step.start is None,
        step.stop is None,
    ensures
        keeps_order(model.resumed(after, step)),
{
    match after {
        AfterSpeech::Shutdown => {},
        AfterSpeech::Previous { .. } => {},
        AfterSpeech::Skip { .. } => {},
        AfterSpeech::Pause => {},
        AfterSpeech::Stop { .. } => {},
        AfterSpeech::Completed { .. } => {},
        AfterSpeech::Broken { .. } => {},
    }
}

proof fn lemma_controlled_keeps_order(model: SessionModel, action: PlaybackAction)
    requires
        model.well_formed(),
        model.session.phase is Running,
    ensures
        keeps_order(model.controlled(action)),
{
    let cancelling = SessionStep {
        cancel: model.session.active is Some,
        ..SessionStep::quiet()
    };
    match action {
        PlaybackAction::CheckContext => {},
        PlaybackAction::Wake => {},
        PlaybackAction::Previous => {
            if let Some(previous) = history::newest(model.history) {
                lemma_resumed_keeps_order(
                    model.dropped(),
                    AfterSpeech::Previous { current: model.player.now_playing, previous },
                    cancelling,
                );
            }
        },
        PlaybackAction::Skip => {
            if let Some(active) = model.session.active {
                lemma_resumed_keeps_order(
                    model.dropped(),
                    AfterSpeech::Skip {
                        track_id: active.track_id,
                        current: model.player.now_playing,
                    },
                    cancelling,
                );
            }
        },
        PlaybackAction::Seek { .. } => {},
        PlaybackAction::Volume { .. } => {},
        PlaybackAction::Pause => {},
        PlaybackAction::Resume => {},
        PlaybackAction::Stop => {},
    }
}

proof fn lemma_run_keeps_order(model: SessionModel, input: SessionInput)
    requires
        model.well_formed(),
        model.session.phase is Running,
    ensures
        keeps_order(model.run(input)),
{
    match input {
        SessionInput::Shutdown => {
            assert(keeps_order(model.run(input)));
        },
        SessionInput::Playback(action) => {
            lemma_controlled_keeps_order(model, action);
            assert(model.run(input) == model.controlled(action));
        },
        SessionInput::VoiceFailed(_) => {
            assert(keeps_order(model.run(input)));
        },
        SessionInput::Frame => {
            assert(keeps_order(model.run(input)));
        },
        SessionInput::Finished => {
            if let Some(active) = model.session.active {
                lemma_resumed_keeps_order(
                    model.dropped(),
                    AfterSpeech::Completed {
                        track_id: active.track_id,
                        current: model.player.now_playing,
                        loop_mode: model.player.loop_mode,
                    },
                    SessionStep::quiet(),
                );
            }
            assert(keeps_order(model.run(input)));
        },
        SessionInput::DecoderFailed => {
            if let Some(active) = model.session.active {
                lemma_resumed_keeps_order(
                    model.dropped(),
                    AfterSpeech::Broken { track_id: active.track_id },
                    SessionStep::quiet(),
                );
            }
            assert(keeps_order(model.run(input)));
        },
        SessionInput::IdleTimeout => {
            assert(keeps_order(model.run(input)));
        },
        _ => {
            assert(model.run(input) == model.settled(SessionStep::quiet()));
            assert(keeps_order(model.run(input)));
        },
    }
}

proof fn lemma_next_keeps_order(model: SessionModel, input: SessionInput)
    requires
        model.well_formed(),
    ensures
        keeps_order(model.next(input)),
{
    match model.session.phase {
        SessionPhase::Connecting => {
            assert(keeps_order(model.next(input)));
        },
        SessionPhase::Running => {
            lemma_run_keeps_order(model, input);
            assert(model.next(input) == model.run(input));
        },
        SessionPhase::EndingSpeech(after) => {
            lemma_resumed_keeps_order(model, after, SessionStep::quiet());
            assert(keeps_order(model.next(input)));
        },
        SessionPhase::BeginningSpeech => {
            assert(keeps_order(model.next(input)));
        },
        SessionPhase::Sending => {
            assert(keeps_order(model.next(input)));
        },
        SessionPhase::Stopped => {
            assert(keeps_order(model.next(input)));
        },
    }
}

/// A session stays well formed whatever comes in: what it decodes is what the
/// player shows as current, and the idle timer runs exactly while it waits
/// with no track active. A track that starts is the current and the active
/// track from then on, at the position and as loud as the session has it.
pub proof fn law_session_stays_well_formed(model: SessionModel, input: SessionInput)
    requires
        model.well_formed(),
    ensures
        model.next(input).0.well_formed(),
        model.next(input).1.start matches Some(start) ==> begins(model.next(input).0, start),
{
    lemma_next_keeps_order(model, input);
}

/// A session with no active track that runs into its idle timer disconnects if
/// the player holds nothing, and otherwise starts what came in meanwhile.
pub proof fn law_idle_session_disconnects_only_when_empty(model: SessionModel)
    requires
        model.well_formed(),
        model.session.phase is Running,
        model.session.active is None,
    ensures
        model.player.all_tracks().len() == 0 <==> model.next(SessionInput::IdleTimeout).1.stop
            == Some(VoiceWorkerStopReason::IdleTimedOut),
        model.player.can_start() ==> model.next(SessionInput::IdleTimeout).1.start is Some
            && model.next(SessionInput::IdleTimeout).1.start->0.track == model.player.queue[0],
{
}

/// A session with an active track, paused or not, is not idle: the idle timer
/// neither runs nor ends it.
pub proof fn law_active_session_never_times_out(model: SessionModel)
    requires
        model.well_formed(),
        model.session.phase is Running,
        model.session.active is Some,
    ensures
        !model.session.idle_timer,
        model.next(SessionInput::IdleTimeout).0 == model,
        model.next(SessionInput::IdleTimeout).1.stop is None,
{
}

/// A session that ends once it was connected leaves its player empty.
pub proof fn law_ended_session_is_empty(model: SessionModel, input: SessionInput)
    requires
        model.well_formed(),
        model.session.phase !is Connecting,
        model.next(input).1.stop is Some,
    ensures
        model.next(input).0.player == PlayerState::idle(),
        model.next(input).0.session.active is None,
        model.next(input).0.session.phase is Stopped,
{
    lemma_next_keeps_order(model, input);
}

/// Nothing changes a session that has ended.
pub proof fn law_ended_session_stays_ended(model: SessionModel, input: SessionInput)
    requires
        model.session.phase is Stopped,
    ensures
        model.next(input) == (model, SessionStep::quiet()),
{
}

proof fn lemma_resumed_answers(model: SessionModel, after: AfterSpeech, step: SessionStep)
    requires
        after is Previous || after is Skip || after is Pause || after is Stop,
    ensures
        model.resumed(after, step).1.reply is Some,
        model.resumed(after, step).0.session.phase is Running,
{
    match after {
        AfterSpeech::Previous { .. } => {},
        AfterSpeech::Skip { .. } => {},
        _ => {},
    }
}

/// The action is answered, or it is once speech has ended.
spec fn is_answered(result: (SessionModel, SessionStep)) -> bool {
    ||| result.1.reply is Some && result.0.session.phase is Running
    ||| result.1.reply is None && result.0.session.phase is EndingSpeech && result.0.next(
        SessionInput::SpeechEnded,
    ).1.reply is Some
}

proof fn lemma_hushed_answers(
    model: SessionModel,
    speaking: bool,
    after: AfterSpeech,
    step: SessionStep,
)
    requires
        after is Previous || after is Skip || after is Pause || after is Stop,
        step.reply is None,
    ensures
        is_answered(model.hushed(speaking, after, step)),
{
    let (hushed, _) = model.hushed(speaking, after, step);
    if speaking {
        lemma_resumed_answers(hushed, after, SessionStep::quiet());
        assert(hushed.next(SessionInput::SpeechEnded) == hushed.resumed(
            after,
            SessionStep::quiet(),
        ));
    } else {
        lemma_resumed_answers(model, after, step);
    }
}

/// A playback action on a running session is answered at once, unless speech
/// has to end first; then the answer comes when it has ended.
pub proof fn law_actions_are_answered(model: SessionModel, action: PlaybackAction)
    requires
        model.session.phase is Running,
    ensures
        ({
            let (after, step) = model.next(SessionInput::Playback(action));
            ||| step.reply is Some && after.session.phase is Running
            ||| step.reply is None && after.session.phase is EndingSpeech && after.next(
                SessionInput::SpeechEnded,
            ).1.reply is Some
        }),
{
    let result = model.controlled(action);
    assert(model.next(SessionInput::Playback(action)) == result);
    let cancelling = SessionStep {
        cancel: model.session.active is Some,
        ..SessionStep::quiet()
    };
    match action {
        PlaybackAction::Previous => {
            if let Some(previous) = history::newest(model.history) {
                let after = AfterSpeech::Previous { current: model.player.now_playing, previous };
                lemma_hushed_answers(model.dropped(), model.is_speaking(), after, cancelling);
                assert(result == model.dropped().hushed(model.is_speaking(), after, cancelling));
            }
            assert(is_answered(result));
        },
        PlaybackAction::Skip => {
            if let Some(active) = model.session.active {
                let after = AfterSpeech::Skip {
                    track_id: active.track_id,
                    current: model.player.now_playing,
                };
                lemma_hushed_answers(model.dropped(), active.speaking, after, cancelling);
                assert(result == model.dropped().hushed(active.speaking, after, cancelling));
            }
            assert(is_answered(result));
        },
        PlaybackAction::Pause => {
            if let Some(active) = model.session.active {
                if !active.paused {
                    let paused = SessionModel {
                        session: VoiceSession {
                            active: Some(ActivePlayback { paused: true, ..active }),
                            ..model.session
                        },
                        ..model
                    };
                    lemma_hushed_answers(
                        paused,
                        active.speaking,
                        AfterSpeech::Pause,
                        SessionStep::quiet(),
                    );
                    assert(result == paused.hushed(
                        active.speaking,
                        AfterSpeech::Pause,
                        SessionStep::quiet(),
                    ));
                }
            }
            assert(is_answered(result));
        },
        PlaybackAction::Stop => {
            let stopped = SessionModel { player: PlayerState::idle(), ..model.dropped() };
            let after = AfterSpeech::Stop {
                result: if model.player.now_playing is None && model.player.queue.len() == 0 {
                    PlaybackControlResult::NothingPlaying
                } else {
                    PlaybackControlResult::Accepted
                },
            };
            lemma_hushed_answers(stopped, model.is_speaking(), after, cancelling);
            assert(result == stopped.hushed(model.is_speaking(), after, cancelling));
            assert(is_answered(result));
        },
        _ => {
            assert(is_answered(result));
        },
    }
}

/// Stopping leaves nothing queued, nothing current and nothing active.
pub proof fn law_stop_empties_the_player(model: SessionModel)
    requires
        model.session.phase is Running,
    ensures
        model.performed(PlaybackAction::Stop).player == PlayerState::idle(),
        model.performed(PlaybackAction::Stop).session.active is None,
        model.performed(PlaybackAction::Stop).session.phase is Running,
{
}

/// Pausing and resuming give back the same track at the same place, no longer
/// speaking; neither touches the player or the history.
pub proof fn law_resume_undoes_pause(model: SessionModel)
    requires
        model.well_formed(),
        model.session.phase is Running,
        model.session.active is Some,
        !model.session.active->0.paused,
    ensures
        ({
            let paused = model.performed(PlaybackAction::Pause);
            let resumed = paused.performed(PlaybackAction::Resume);
            &&& paused.session.active->0.paused
            &&& paused.player == model.player
            &&& paused.history == model.history
            &&& resumed == (SessionModel {
                session: VoiceSession {
                    active: Some(
                        ActivePlayback { speaking: false, ..model.session.active->0 },
                    ),
                    ..model.session
                },
                ..model
            })
        }),
{
}

/// Seeking decodes the current track anew from the position asked for and
/// touches neither player nor history. With no track active it changes nothing
/// and is told that nothing plays.
pub proof fn law_seek_keeps_the_track(model: SessionModel, position_millis: u64)
    requires
        model.well_formed(),
        model.session.phase is Running,
    ensures
        ({
            let (after, step) = model.next(
                SessionInput::Playback(PlaybackAction::Seek { position_millis }),
            );
            if model.session.active is Some {
                &&& step.reply == Some(PlaybackControlResult::Accepted)
                &&& step.cancel
                &&& step.start == Some(
                    PlaybackStart {
                        track: model.player.now_playing->0,
                        options: FfmpegDecodeOptions {
                            position_millis,
                            volume_percent: model.session.volume,
                        },
                    },
                )
                &&& after == (SessionModel {
                    session: VoiceSession {
                        active: Some(
                            ActivePlayback { position_millis, ..model.session.active->0 },
                        ),
                        ..model.session
                    },
                    ..model
                })
            } else {
                step.reply == Some(PlaybackControlResult::NothingPlaying) && after == model
            }
        }),
{
}

/// A volume is kept for every track that starts from then on. A track that is
/// active goes on where it was, as loud as that; with none active the request
/// is told that nothing plays.
pub proof fn law_volume_is_kept(model: SessionModel, percent: u8)
    requires
        model.well_formed(),
        model.session.phase is Running,
    ensures
        ({
            let (after, step) = model.next(
                SessionInput::Playback(PlaybackAction::Volume { percent }),
            );
            &&& after == (SessionModel {
                session: VoiceSession { volume: percent, ..model.session },
                ..model
            })
            &&& model.session.active is None ==> step.reply == Some(
                PlaybackControlResult::NothingPlaying,
            ) && step.start is None
            &&& model.session.active is Some ==> step.reply == Some(
                PlaybackControlResult::Accepted,
            ) && step.cancel && step.start is Some && step.start->0.options
                == (FfmpegDecodeOptions {
                position_millis: model.session.active->0.position_millis,
                volume_percent: percent,
            }) && step.start->0.track == model.player.now_playing->0
            &&& model.session.active is None && model.player.can_start() ==> ({
                let woken = after.next(SessionInput::Playback(PlaybackAction::Wake)).1;
                woken.start is Some && woken.start->0.track == model.player.queue[0]
                    && woken.start->0.options.volume_percent == percent
            })
        }),
{
}

/// Skipping moves the current track into the history and starts the first
/// queued one.
pub proof fn law_skip_remembers_and_advances(model: SessionModel)
    requires
        model.well_formed(),
        model.session.phase is Running,
        model.session.active is Some,
    ensures
        ({
            let skipped = model.performed(PlaybackAction::Skip);
            &&& skipped.history == history::remembered(model.history, model.player.now_playing->0)
            &&& skipped.player == (PlayerState { now_playing: None, ..model.player }).started()
        }),
{
}

/// Going back after a skip restores the player and the history, while the
/// history has room for the skipped track.
pub proof fn law_previous_undoes_skip(model: SessionModel)
    requires
        model.well_formed(),
        model.session.phase is Running,
        model.session.active is Some,
        model.history.len() < history::HISTORY_LIMIT,
    ensures
        ({
            let back = model.performed(PlaybackAction::Skip).performed(PlaybackAction::Previous);
            &&& back.player == model.player
            &&& back.history == model.history
            &&& back.session.active matches Some(active) && active.track_id
                == model.session.active->0.track_id
        }),
{
    let track = model.player.now_playing->0;
    let skipped = model.performed(PlaybackAction::Skip);
    let back = skipped.performed(PlaybackAction::Previous);
    law_skip_remembers_and_advances(model);
    history::law_pop_undoes_push(model.history, track);
    assert(skipped.session.phase is Running);
    assert(history::newest(skipped.history) == Some(track));
    assert(back.player.queue =~= model.player.queue);
    assert(back.player =~= model.player);
}

} // verus!
