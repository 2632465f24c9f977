//! What each input of a voice session leads to, told by the tracks that play,
//! wait and are remembered afterwards.

use vstd::prelude::*;

use super::{
    ActivePlayback, PlaybackStart, SessionInput, SessionModel, SessionPhase,
    SessionStep, TimerChange, TransportCall, VoiceSession, VoiceWorkerStopReason,
};
use crate::gateway_control::{JoinFailure, PlaybackAction, PlaybackControlResult, VoiceJoinResult};
use crate::history::HistoryManager;
use crate::ids::{ChannelId, GuildId};
use crate::media::decoder::FfmpegDecodeOptions;
use crate::media::track::Track;
use crate::player::{LoopMode, PlayerManager};

verus! {

impl SessionModel {
    /// The session once an input has been dealt with, and its last step: where
    /// speech has to end first, it ends without failure.
    pub open spec fn dealt_with(self, input: SessionInput) -> (SessionModel, SessionStep) {
        let (after, step) = self.next(input);
        if after.session.phase is EndingSpeech {
            after.next(SessionInput::SpeechEnded)
        } else {
            (after, step)
        }
    }
}

/// Of the tracks in `waiting`, the first plays from its beginning and the
/// others are queued in their order; with none waiting nothing plays and the
/// idle timer runs. Guild, channel, volume and loop mode are those of `before`.
pub open spec fn goes_on_with(
    before: SessionModel,
    after: SessionModel,
    step: SessionStep,
    waiting: Seq<Track>,
) -> bool {
    &&& after.session.phase is Running
    &&& after.session.guild_id == before.session.guild_id
    &&& after.session.channel_id == before.session.channel_id
    &&& after.session.volume == before.session.volume
    &&& after.player.loop_mode == before.player.loop_mode
    &&& step.stop is None
    &&& step.join_reply is None
    &&& step.call == TransportCall::Nothing
    &&& !step.reset_pacer
    &&& if waiting.len() == 0 {
        &&& after.player.now_playing is None
        &&& after.player.queue.len() == 0
        &&& after.session.active is None
        &&& after.session.idle_timer
        &&& step.start is None
    } else {
        &&& after.player.now_playing == Some(waiting[0])
        &&& after.player.queue == waiting.skip(1)
        &&& after.session.active == Some(
            ActivePlayback {
                track_id: waiting[0].id,
                paused: false,
                speaking: false,
                position_millis: 0,
            },
        )
        &&& !after.session.idle_timer
        &&& step.start == Some(
            PlaybackStart {
                track: waiting[0],
                options: FfmpegDecodeOptions {
                    position_millis: 0,
                    volume_percent: before.session.volume,
                },
            },
        )
    }
}

/// The track that stood for longest left the history if it was full; `track`
/// is now its newest.
pub open spec fn newly_remembered(before: Seq<Track>, after: Seq<Track>, track: Track) -> bool {
    &&& after.len() > 0
    &&& after.last() == track
    &&& after.drop_last() == before || (before.len() == 20 && after.drop_last() == before.skip(1))
    &&& before.len() < 20 ==> after.len() == before.len() + 1
}

/// When the decoder of the active track fails, only that track leaves: the
/// queue goes on with its first track, in its order and at the same volume,
/// and the history stays as it was. No decoder is left to abort.
pub proof fn law_failed_track_gives_way_to_the_queue(model: SessionModel)
    requires
        model.well_formed(),
        model.session.phase is Running,
        model.session.active is Some,
    ensures
        ({
            let (after, step) = model.dealt_with(SessionInput::DecoderFailed);
            &&& goes_on_with(model, after, step, model.player.queue)
            &&& after.history == model.history
            &&& step.reply is None
            &&& !step.cancel
            &&& !model.next(SessionInput::DecoderFailed).1.cancel
        }),
{
    assert(model.player.queue.skip(1) =~= model.player.queue.drop_first());
}

/// When the active track plays to its end, the loop mode decides where it
/// goes: without a loop it is gone, with the queue loop it stands behind every
/// queued track, with the track loop it plays again before them. The history
/// gains it unless it plays again.
pub proof fn law_finished_track_follows_the_loop_mode(model: SessionModel)
    requires
        model.well_formed(),
        model.session.phase is Running,
        model.session.active is Some,
    ensures
        ({
            let track = model.player.now_playing->0;
            let queue = model.player.queue;
            let (after, step) = model.dealt_with(SessionInput::Finished);
            &&& step.reply is None
            &&& !step.cancel
            &&& match model.player.loop_mode {
                LoopMode::Off => goes_on_with(model, after, step, queue) && newly_remembered(
                    model.history,
                    after.history,
                    track,
                ),
                LoopMode::Queue => goes_on_with(model, after, step, queue.push(track))
                    && newly_remembered(model.history, after.history, track)
                    && after.player.all_tracks() == model.player.all_tracks().skip(1).push(track),
                LoopMode::Track => goes_on_with(model, after, step, seq![track] + queue)
                    && after.history == model.history && after.player == model.player,
            }
        }),
{
    let track = model.player.now_playing->0;
    let queue = model.player.queue;
    let after = model.dealt_with(SessionInput::Finished).0;
    assert(model.player.is_current(model.session.active->0.track_id));
    assert(queue.skip(1) =~= queue.drop_first());
    assert(queue.push(track).skip(1) =~= queue.push(track).drop_first());
    assert((seq![track] + queue).drop_first() =~= queue);
    assert((seq![track] + queue).skip(1) =~= queue);
    lemma_remembered(model.history, track);
    assert(seq![queue.push(track)[0]] + queue.push(track).drop_first() =~= queue.push(track));
    match model.player.loop_mode {
        LoopMode::Off => {},
        LoopMode::Queue => {
            assert(after.player.all_tracks() =~= queue.push(track));
        },
        LoopMode::Track => {
            assert(after.player =~= model.player);
        },
    }
}

proof fn lemma_remembered(before: Seq<Track>, track: Track)
    ensures
        newly_remembered(before, crate::history::remembered(before, track), track),
{
    let after = crate::history::remembered(before, track);
    assert(before.push(track).drop_last() =~= before);
    if before.len() == 20 {
        assert(after.drop_last() =~= before.skip(1));
    }
}

/// Skipping aborts the active track and remembers it, whatever the loop mode:
/// the queue goes on with its first track and does not get the skipped one
/// back. With no track active nothing changes and nothing is said to play.
pub proof fn law_skip_drops_the_active_track(model: SessionModel)
    requires
        model.well_formed(),
        model.session.phase is Running,
    ensures
        ({
            let input = SessionInput::Playback(PlaybackAction::Skip);
            let (after, step) = model.dealt_with(input);
            if model.session.active is Some {
                &&& model.next(input).1.cancel
                &&& goes_on_with(model, after, step, model.player.queue)
                &&& newly_remembered(model.history, after.history, model.player.now_playing->0)
                &&& step.reply == Some(PlaybackControlResult::Accepted)
            } else {
                &&& after == model
                &&& step.start is None && step.stop is None && !step.cancel
                &&& step.reply == Some(PlaybackControlResult::NothingPlaying)
            }
        }),
{
    assert(model.player.queue.skip(1) =~= model.player.queue.drop_first());
    lemma_remembered(model.history, model.player.now_playing->0);
}

/// Going back plays the newest track of the history, which leaves it. What
/// played comes next, and then the queue in its order. With nothing in the
/// history nothing changes and nothing is said to play.
pub proof fn law_previous_plays_the_newest_remembered(model: SessionModel)
    requires
        model.well_formed(),
        model.session.phase is Running,
    ensures
        ({
            let input = SessionInput::Playback(PlaybackAction::Previous);
            let (after, step) = model.dealt_with(input);
            if model.history.len() > 0 {
                &&& model.next(input).1.cancel == (model.session.active is Some)
                &&& goes_on_with(
                    model,
                    after,
                    step,
                    seq![model.history.last()] + model.player.all_tracks(),
                )
                &&& after.history == model.history.take(model.history.len() - 1)
                &&& step.reply == Some(PlaybackControlResult::Accepted)
            } else {
                &&& after == model
                &&& step.start is None && step.stop is None && !step.cancel
                &&& step.reply == Some(PlaybackControlResult::NothingPlaying)
            }
        }),
{
    let input = SessionInput::Playback(PlaybackAction::Previous);
    if model.history.len() > 0 {
        let previous = model.history.last();
        let all = model.player.all_tracks();
        let waiting = seq![previous] + all;
        let after = model.dealt_with(input).0;
        assert(model.history.take(model.history.len() - 1) =~= model.history.drop_last());
        assert(waiting.drop_first() =~= all);
        assert(waiting.skip(1) =~= all);
        assert(after.player.queue =~= all);
    }
}

/// Waking starts the first queued track unless one is active already. It is
/// accepted exactly when a track is active afterwards.
pub proof fn law_wake_starts_what_waits(model: SessionModel)
    requires
        model.well_formed(),
        model.session.phase is Running,
    ensures
        ({
            let (after, step) = model.next(SessionInput::Playback(PlaybackAction::Wake));
            &&& after.history == model.history
            &&& !step.cancel
            &&& step.reply == Some(
                if after.session.active is Some {
                    PlaybackControlResult::Accepted
                } else {
                    PlaybackControlResult::NothingPlaying
                },
            )
            &&& if model.session.active is Some || model.player.now_playing is Some {
                after == model && step.start is None && step.stop is None
            } else {
                goes_on_with(model, after, step, model.player.queue)
            }
        }),
{
    assert(model.player.queue.skip(1) =~= model.player.queue.drop_first());
}

/// Asking for the context of a session is accepted and changes nothing.
pub proof fn law_context_is_only_looked_at(model: SessionModel)
    requires
        model.well_formed(),
        model.session.phase is Running,
    ensures
        ({
            let (after, step) = model.next(SessionInput::Playback(PlaybackAction::CheckContext));
            &&& after == model
            &&& step.reply == Some(PlaybackControlResult::Accepted)
            &&& !step.cancel && step.start is None && step.stop is None && !step.reset_pacer
            &&& step.call == TransportCall::Nothing
        }),
{
}

/// Pausing silences the active track where it stands and keeps its decoder.
/// Pausing what is paused, or with nothing active, changes nothing and says so.
pub proof fn law_pause_holds_the_track(model: SessionModel)
    requires
        model.well_formed(),
        model.session.phase is Running,
    ensures
        ({
            let input = SessionInput::Playback(PlaybackAction::Pause);
            let first = model.next(input).1;
            let (after, step) = model.dealt_with(input);
            &&& after.player == model.player
            &&& after.history == model.history
            &&& !first.cancel && first.start is None && first.stop is None
            &&& !step.cancel && step.start is None && step.stop is None
            &&& match model.session.active {
                None => after == model && step.reply == Some(
                    PlaybackControlResult::NothingPlaying,
                ),
                Some(active) => if active.paused {
                    after == model && step.reply == Some(PlaybackControlResult::AlreadyPaused)
                } else {
                    &&& step.reply == Some(PlaybackControlResult::Accepted)
                    &&& active.speaking ==> first.call == TransportCall::EndSpeech
                    &&& after.session == (VoiceSession {
                        active: Some(
                            ActivePlayback { paused: true, speaking: false, ..active },
                        ),
                        ..model.session
                    })
                },
            }
        }),
{
}

/// Resuming lets the paused track go on where it stands, paced anew. Resuming
/// what is not paused, or with nothing active, changes nothing and says so.
pub proof fn law_resume_lets_the_track_go_on(model: SessionModel)
    requires
        model.well_formed(),
        model.session.phase is Running,
    ensures
        ({
            let (after, step) = model.next(SessionInput::Playback(PlaybackAction::Resume));
            &&& after.player == model.player
            &&& after.history == model.history
            &&& !step.cancel && step.start is None && step.stop is None
            &&& step.call == TransportCall::Nothing
            &&& match model.session.active {
                None => after == model && step.reply == Some(
                    PlaybackControlResult::NothingPlaying,
                ) && !step.reset_pacer,
                Some(active) => if active.paused {
                    &&& step.reply == Some(PlaybackControlResult::Accepted)
                    &&& step.reset_pacer
                    &&& after.session == (VoiceSession {
                        active: Some(ActivePlayback { paused: false, ..active }),
                        ..model.session
                    })
                } else {
                    after == model && step.reply == Some(PlaybackControlResult::AlreadyPlaying)
                        && !step.reset_pacer
                },
            }
        }),
{
}

/// Stopping aborts the active track and empties the player, loop mode and
/// all; the history, the volume and the channel stay. It is accepted exactly
/// when the player held a track.
pub proof fn law_stop_is_accepted_if_anything_was_held(model: SessionModel)
    requires
        model.well_formed(),
        model.session.phase is Running,
    ensures
        ({
            let input = SessionInput::Playback(PlaybackAction::Stop);
            let (after, step) = model.dealt_with(input);
            &&& model.next(input).1.cancel == (model.session.active is Some)
            &&& model.next(input).1.call == if model.is_speaking() {
                TransportCall::EndSpeech
            } else {
                TransportCall::Nothing
            }
            &&& step.reply == Some(
                if model.player.all_tracks().len() > 0 {
                    PlaybackControlResult::Accepted
                } else {
                    PlaybackControlResult::NothingPlaying
                },
            )
            &&& step.start is None && step.stop is None
            &&& after.player.now_playing is None
            &&& after.player.queue.len() == 0
            &&& after.player.loop_mode == LoopMode::Off
            &&& after.history == model.history
            &&& after.session == (VoiceSession { active: None, idle_timer: true, ..model.session })
        }),
{
}

/// The session is over for the reason given: nothing is active, the player is
/// empty, and a decoder that ran is aborted. The history stays.
pub open spec fn is_over(
    before: SessionModel,
    after: SessionModel,
    step: SessionStep,
    reason: VoiceWorkerStopReason,
) -> bool {
    &&& after.session.phase is Stopped
    &&& after.session.active is None
    &&& after.session.guild_id == before.session.guild_id
    &&& after.session.channel_id == before.session.channel_id
    &&& after.player.now_playing is None
    &&& after.player.queue.len() == 0
    &&& after.player.loop_mode == LoopMode::Off
    &&& after.history == before.history
    &&& step.stop == Some(reason)
    &&& step.cancel == (before.session.active is Some)
    &&& step.start is None
    &&& step.call == TransportCall::Nothing
    &&& step.join_reply is None
}

/// A failure of the voice transport ends the session with that failure,
/// whether it is reported while the session runs or by the call that the
/// session waits for. A session that was shutting down ends as asked.
pub proof fn law_voice_failure_ends_the_session(model: SessionModel, error: String)
    requires
        model.well_formed(),
    ensures
        match model.session.phase {
            SessionPhase::Running => ({
                let (after, step) = model.next(SessionInput::VoiceFailed(error));
                is_over(model, after, step, VoiceWorkerStopReason::VoiceFailed(error))
            }),
            SessionPhase::BeginningSpeech => ({
                let (after, step) = model.next(SessionInput::SpeechBeginFailed(error));
                is_over(model, after, step, VoiceWorkerStopReason::VoiceFailed(error))
            }),
            SessionPhase::Sending => ({
                let (after, step) = model.next(SessionInput::FrameFailed(error));
                is_over(model, after, step, VoiceWorkerStopReason::VoiceFailed(error))
            }),
            SessionPhase::EndingSpeech(pending) => ({
                let (after, step) = model.next(SessionInput::SpeechEndFailed(error));
                is_over(
                    model,
                    after,
                    step,
                    if pending is Shutdown {
                        VoiceWorkerStopReason::Requested
                    } else {
                        VoiceWorkerStopReason::VoiceFailed(error)
                    },
                )
            }),
            _ => true,
        },
{
}

/// A shutdown empties the player at once and aborts the active track. The
/// session is over as asked, after speech has ended if it spoke, whether or
/// not that succeeds.
pub proof fn law_shutdown_ends_the_session(model: SessionModel, error: String)
    requires
        model.well_formed(),
        model.session.phase is Running,
    ensures
        ({
            let (after, step) = model.next(SessionInput::Shutdown);
            &&& step.cancel == (model.session.active is Some)
            &&& after.player.now_playing is None
            &&& after.player.queue.len() == 0
            &&& after.player.loop_mode == LoopMode::Off
            &&& after.history == model.history
            &&& after.session.active is None
            &&& if model.is_speaking() {
                &&& step.call == TransportCall::EndSpeech
                &&& step.stop is None
                &&& after.next(SessionInput::SpeechEnded).1.stop == Some(
                    VoiceWorkerStopReason::Requested,
                )
                &&& after.next(SessionInput::SpeechEnded).0.session.phase is Stopped
                &&& after.next(SessionInput::SpeechEndFailed(error)).1.stop == Some(
                    VoiceWorkerStopReason::Requested,
                )
            } else {
                &&& step.stop == Some(VoiceWorkerStopReason::Requested)
                &&& after.session.phase is Stopped
            }
        }),
{
}

/// A new session waits to be connected, at full volume, with nothing active.
/// Once connected it is told to have joined its channel and runs with the idle
/// timer; a failure to connect is told and leaves the player alone; an
/// interruption cancels the join and empties the player.
pub proof fn law_connecting_decides_the_join(model: SessionModel, error: String)
    requires
        model.well_formed(),
        model.session.phase is Connecting,
    ensures
        ({
            let (after, step) = model.next(SessionInput::Connected);
            &&& step.join_reply == Some(
                VoiceJoinResult::Joined { channel_id: model.session.channel_id },
            )
            &&& step.stop is None && step.start is None && !step.cancel
            &&& step.timer == TimerChange::Rearm
            &&& after.player == model.player
            &&& after.history == model.history
            &&& after.session == (VoiceSession {
                idle_timer: true,
                phase: SessionPhase::Running,
                ..model.session
            })
        }),
        ({
            let (after, step) = model.next(SessionInput::ConnectFailed(error));
            &&& step.join_reply == Some(VoiceJoinResult::Failed(JoinFailure::SessionFailed(error)))
            &&& step.stop == Some(VoiceWorkerStopReason::ConnectFailed(error))
            &&& step.start is None && !step.cancel
            &&& after.player == model.player
            &&& after.history == model.history
            &&& after.session.phase is Stopped
        }),
        ({
            let (after, step) = model.next(SessionInput::ConnectInterrupted);
            &&& step.join_reply == Some(VoiceJoinResult::Cancelled)
            &&& step.stop == Some(VoiceWorkerStopReason::Requested)
            &&& step.start is None && !step.cancel
            &&& after.player.now_playing is None
            &&& after.player.queue.len() == 0
            &&& after.history == model.history
            &&& after.session.phase is Stopped
        }),
{
}

/// A frame goes out within speech: speech begins before the first frame after
/// a silence, and each frame that was sent moves the position on by the twenty
/// milliseconds that it plays. Neither player nor history is touched.
pub proof fn law_frames_are_sent_within_speech(model: SessionModel)
    requires
        model.well_formed(),
        model.session.phase is Running,
        model.session.active is Some,
    ensures
        ({
            let active = model.session.active->0;
            let (framed, asked) = model.next(SessionInput::Frame);
            let (sending, sent) = if active.speaking {
                (framed, asked)
            } else {
                framed.next(SessionInput::SpeechBegan)
            };
            let (after, step) = sending.next(SessionInput::FrameSent);
            &&& !active.speaking ==> asked.call == TransportCall::BeginSpeech && !(
            framed.session.active->0).speaking
            &&& sent.call == TransportCall::SendFrame
            &&& sending.session.active == Some(ActivePlayback { speaking: true, ..active })
            &&& sending.player == model.player
            &&& after.player == model.player
            &&& after.history == model.history
            &&& step.call == TransportCall::Nothing
            &&& step.stop is None && step.start is None && !step.cancel
            &&& after.session.phase is Running
            &&& after.session.volume == model.session.volume
            &&& after.session.active is Some
            &&& after.session.active->0.track_id == active.track_id
            &&& after.session.active->0.paused == active.paused
            &&& after.session.active->0.speaking
            &&& active.position_millis + 20 <= u64::MAX ==> after.session.active->0.position_millis
                == active.position_millis + 20
            &&& active.position_millis + 20 > u64::MAX ==> after.session.active->0.position_millis
                == u64::MAX
        }),
{
}

/// What a session does not wait for changes nothing: a report of a decoder
/// that is gone, an ordinary voice event, the outcome of a call that was not
/// asked for, and anything that comes in while a call is under way.
pub proof fn law_unawaited_inputs_change_nothing(model: SessionModel, input: SessionInput)
    requires
        model.well_formed(),
        match model.session.phase {
            SessionPhase::Running => match input {
                SessionInput::Frame | SessionInput::Finished | SessionInput::DecoderFailed =>
                    model.session.active is None,
                SessionInput::IdleTimeout => model.session.active is Some,
                SessionInput::Shutdown
                | SessionInput::Playback(_)
                | SessionInput::VoiceFailed(_) => false,
                _ => true,
            },
            SessionPhase::Connecting => input !is Connected && input !is ConnectFailed
                && input !is ConnectInterrupted,
            SessionPhase::EndingSpeech(_) => input !is SpeechEnded && input !is SpeechEndFailed,
            SessionPhase::BeginningSpeech => input !is SpeechBegan && input !is SpeechBeginFailed,
            SessionPhase::Sending => input !is FrameSent && input !is FrameFailed,
            SessionPhase::Stopped => true,
        },
    ensures
        ({
            let (after, step) = model.next(input);
            &&& after == model
            &&& !step.cancel && step.start is None && step.stop is None && !step.reset_pacer
            &&& step.call == TransportCall::Nothing
            &&& step.reply is None && step.join_reply is None
            &&& step.timer != TimerChange::Rearm
        }),
{
}

/// A track that is no longer the current one when it ends, fails or is skipped
/// takes nothing with it: the player and the history stay, and the session
/// goes on with the queue only if nothing plays. Seeking and the volume find
/// nothing of it to decode.
pub proof fn law_track_that_left_is_not_ended_again(model: SessionModel, input: SessionInput)
    requires
        model.session.phase is Running,
        model.session.active is Some,
        !model.player.is_current(model.session.active->0.track_id),
    ensures
        input is Finished || input is DecoderFailed || input == SessionInput::Playback(
            PlaybackAction::Skip,
        ) ==> ({
            let (after, step) = model.dealt_with(input);
            &&& after.history == model.history
            &&& model.player.now_playing is None ==> goes_on_with(
                model,
                after,
                step,
                model.player.queue,
            )
            &&& model.player.now_playing is Some ==> after.player == model.player
                && after.session.active is None && step.start is None && step.stop is None
        }),
        input is Playback && (input->Playback_0 is Seek || input->Playback_0 is Volume) ==> ({
            let (after, step) = model.next(input);
            &&& after.player == model.player
            &&& after.history == model.history
            &&& after.session.active == model.session.active
            &&& step.start is None && !step.cancel && step.stop is None
            &&& step.reply == Some(PlaybackControlResult::NothingPlaying)
        }),
{
    assert(model.player.queue.skip(1) =~= model.player.queue.drop_first());
    match input {
        SessionInput::Finished => {},
        SessionInput::DecoderFailed => {},
        SessionInput::Playback(action) => match action {
            PlaybackAction::Skip => {},
            PlaybackAction::Seek { .. } => {},
            PlaybackAction::Volume { .. } => {},
            _ => {},
        },
        _ => {},
    }
}

/// The input makes a running session let go of its active track, or hold it.
pub open spec fn silences(model: SessionModel, input: SessionInput) -> bool {
    match input {
        SessionInput::Shutdown | SessionInput::Finished | SessionInput::DecoderFailed => true,
        SessionInput::Playback(action) => match action {
            PlaybackAction::Skip | PlaybackAction::Stop => true,
            PlaybackAction::Previous => model.history.len() > 0,
            PlaybackAction::Pause => model.session.active matches Some(active) && !active.paused,
            _ => false,
        },
        _ => false,
    }
}

/// Speech is ended first whenever a session that speaks lets go of its track
/// or holds it, and only then.
pub proof fn law_speech_ends_before_the_track_does(model: SessionModel, input: SessionInput)
    requires
        model.well_formed(),
        model.session.phase is Running,
    ensures
        ({
            let (after, step) = model.next(input);
            let speaking = model.session.active is Some && model.session.active->0.speaking;
            &&& step.call == TransportCall::EndSpeech <==> speaking && silences(model, input)
            &&& step.call == TransportCall::EndSpeech <==> after.session.phase is EndingSpeech
        }),
{
    match input {
        SessionInput::Shutdown => {},
        SessionInput::Finished => {},
        SessionInput::DecoderFailed => {},
        SessionInput::Playback(action) => match action {
            PlaybackAction::Skip => {},
            PlaybackAction::Stop => {},
            PlaybackAction::Previous => {},
            PlaybackAction::Pause => {},
            PlaybackAction::Wake => {},
            _ => {},
        },
        _ => {},
    }
}

/// The idle timer is disarmed while a track is active. It is armed when the
/// last track goes, and left running while none comes.
pub proof fn law_idle_timer_runs_without_a_track(model: SessionModel, input: SessionInput)
    requires
        model.well_formed(),
        model.session.phase is Running,
        input !is IdleTimeout,
        model.next(input).0.session.phase is Running,
    ensures
        ({
            let (after, step) = model.next(input);
            &&& after.session.active is Some ==> step.timer == TimerChange::Disarm
            &&& after.session.active is None ==> step.timer == if model.session.active is None {
                TimerChange::Keep
            } else {
                TimerChange::Rearm
            }
        }),
{
    match input {
        SessionInput::Shutdown => {},
        SessionInput::Finished => {},
        SessionInput::DecoderFailed => {},
        SessionInput::Playback(action) => match action {
            PlaybackAction::Skip => {},
            PlaybackAction::Stop => {},
            PlaybackAction::Previous => {},
            PlaybackAction::Pause => {},
            PlaybackAction::Wake => {},
            _ => {},
        },
        _ => {},
    }
}

/// An idle session that runs into its timer goes on with the queue where
/// something waits, under a timer that starts anew, and ends otherwise.
pub proof fn law_idle_timeout_ends_or_goes_on(model: SessionModel)
    requires
        model.well_formed(),
        model.session.phase is Running,
        model.session.active is None,
    ensures
        ({
            let (after, step) = model.next(SessionInput::IdleTimeout);
            &&& model.player.now_playing is None && model.player.queue.len() == 0 ==> is_over(
                model,
                after,
                step,
                VoiceWorkerStopReason::IdleTimedOut,
            )
            &&& model.player.now_playing is None && model.player.queue.len() > 0 ==> goes_on_with(
                model,
                after,
                step,
                model.player.queue,
            ) && after.history == model.history
            &&& model.player.now_playing is Some ==> after == model && step.timer
                == TimerChange::Rearm && step.stop is None && step.start is None
        }),
{
    assert(model.player.queue.skip(1) =~= model.player.queue.drop_first());
}

/// What a session waits for after it has asked the transport is the outcome of
/// that call, and nothing but its outcome ends the wait.
pub proof fn law_waiting_for_the_transport_is_kept(model: SessionModel, action: PlaybackAction)
    requires
        model.session.phase is EndingSpeech || model.session.phase is BeginningSpeech
            || model.session.phase is Sending || model.session.phase is Connecting,
    ensures
        model.next(SessionInput::Playback(action)).0 == model,
        model.next(SessionInput::Playback(action)).1.reply is None,
        model.next(SessionInput::Frame).0 == model,
        model.next(SessionInput::IdleTimeout).0 == model,
{
}

/// Full volume is the volume at which media is decoded as it is.
pub proof fn law_full_volume_leaves_media_as_it_is()
    ensures
        super::FULL_VOLUME == FfmpegDecodeOptions::plain().volume_percent,
{
}

/// A new session waits to be connected to its channel, at full volume, with
/// nothing active. The decoder is listened to exactly while a track is active
/// and not paused, the idle timer exactly while none is.
pub proof fn law_new_session_waits_to_be_connected(
    guild_id: GuildId,
    channel_id: ChannelId,
    fresh: VoiceSession,
    session: &VoiceSession,
    decoding: bool,
    idle: bool,
)
    requires
        call_ensures(VoiceSession::new, (guild_id, channel_id), fresh),
        call_ensures(VoiceSession::decoder_enabled, (session,), decoding),
        call_ensures(VoiceSession::is_idle, (session,), idle),
    ensures
        fresh.guild_id == guild_id && fresh.channel_id == channel_id,
        fresh.phase is Connecting && fresh.active is None && !fresh.idle_timer,
        fresh.volume == 100,
        idle <==> session.active is None,
        session.active is None ==> !decoding,
        session.active matches Some(active) ==> (decoding <==> !active.paused),
{
}

/// A session that does not speak deals with the end of its track at once: when
/// the decoder fails, the players hold the first queued track as current, the
/// others queued, and the history stays; no other guild is touched.
pub proof fn law_failure_is_dealt_with_at_once(
    session: &mut VoiceSession,
    players: &mut PlayerManager,
    history: &mut HistoryManager,
    other: GuildId,
    step: SessionStep,
)
    requires
        old(session).phase is Running,
        old(session).active is Some,
        !old(session).active->0.speaking,
        old(players).player(old(session).guild_id).is_current(old(session).active->0.track_id),
        other != old(session).guild_id,
        call_ensures(
            VoiceSession::handle,
            (session, SessionInput::DecoderFailed, players, history),
            step,
        ),
    ensures
        ({
            let guild_id = old(session).guild_id;
            let waiting = old(players).player(guild_id).queue;
            let after = final(players).player(guild_id);
            &&& waiting.len() == 0 ==> after.now_playing is None && after.queue.len() == 0
                && step.start is None
            &&& waiting.len() > 0 ==> after.now_playing == Some(waiting[0]) && after.queue
                == waiting.skip(1) && step.start is Some && step.start->0.track == waiting[0]
            &&& final(history).history(guild_id) == old(history).history(guild_id)
            &&& final(players).player(other) == old(players).player(other)
            &&& final(history).history(other) == old(history).history(other)
        }),
{
    let waiting = old(players).player(old(session).guild_id).queue;
    assert(waiting.skip(1) =~= waiting.drop_first());
}

/// A session that does not speak deals with the end of its track at once: when
/// the track plays to its end, the players hold what the loop mode asks for.
pub proof fn law_end_is_dealt_with_at_once(
    session: &mut VoiceSession,
    players: &mut PlayerManager,
    history: &mut HistoryManager,
    step: SessionStep,
)
    requires
        old(session).phase is Running,
        old(session).active is Some,
        !old(session).active->0.speaking,
        old(players).player(old(session).guild_id).is_current(old(session).active->0.track_id),
        call_ensures(
            VoiceSession::handle,
            (session, SessionInput::Finished, players, history),
            step,
        ),
    ensures
        ({
            let guild_id = old(session).guild_id;
            let before = old(players).player(guild_id);
            let after = final(players).player(guild_id);
            let track = before.now_playing->0;
            &&& before.loop_mode == LoopMode::Off ==> after.all_tracks() == before.queue
            &&& before.loop_mode == LoopMode::Queue ==> after.all_tracks() == before.queue.push(
                track,
            )
            &&& before.loop_mode == LoopMode::Track ==> after.now_playing == Some(track)
                && after.queue == before.queue
            &&& after.now_playing is None <==> before.queue.len() == 0 && before.loop_mode
                == LoopMode::Off
            &&& after.loop_mode == before.loop_mode
            &&& before.loop_mode == LoopMode::Track ==> final(history).history(guild_id) == old(
                history,
            ).history(guild_id)
            &&& before.loop_mode != LoopMode::Track ==> newly_remembered(
                old(history).history(guild_id),
                final(history).history(guild_id),
                track,
            )
        }),
{
    let guild_id = old(session).guild_id;
    let before = old(players).player(guild_id);
    let after = final(players).player(guild_id);
    let track = before.now_playing->0;
    lemma_remembered(old(history).history(guild_id), track);
    assert((seq![track] + before.queue).drop_first() =~= before.queue);
    if before.loop_mode == LoopMode::Off {
        assert(after.all_tracks() =~= before.queue);
    }
    if before.loop_mode == LoopMode::Queue {
        assert(after.all_tracks() =~= before.queue.push(track));
    }
}

} // verus!
