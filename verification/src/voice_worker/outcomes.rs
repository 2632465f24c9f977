//! What each input of a voice worker leads to, told by the tracks that it has
//! at hand and queued afterwards.

use vstd::prelude::*;

use super::{
    SkipTrackResult, SpeechCall, TrackEnqueueResult, VoiceWorkerCommand,
    WorkerInput, WorkerModel, WorkerPhase, WorkerReply, WorkerStep,
};
use crate::gateway_control::{JoinFailure, VoiceJoinResult};
use crate::ids::ChannelId;
use crate::media::track::Track;
use crate::voice_session::VoiceWorkerStopReason;

verus! {

impl WorkerModel {
    /// The worker once an input has been dealt with, and its last step: where
    /// speech has to end first, it ends without failure.
    pub open spec fn dealt_with(self, input: WorkerInput, channel_id: ChannelId) -> (
        WorkerModel,
        WorkerStep,
    ) {
        let (after, step) = self.next(input, channel_id);
        if after.phase is EndingSpeech {
            after.next(WorkerInput::SpeechEnded, channel_id)
        } else {
            (after, step)
        }
    }
}

/// The worker runs in silence. Of the tracks in `waiting`, the first is being
/// prepared and the others are queued in their order; with none waiting it has
/// nothing at hand. Either way this is shown to others.
pub open spec fn goes_on_with(after: WorkerModel, step: WorkerStep, waiting: Seq<Track>) -> bool {
    &&& after.phase is Running
    &&& !after.active
    &&& !after.speaking
    &&& step.publish
    &&& step.stop is None
    &&& !step.start_decoder
    &&& if waiting.len() == 0 {
        &&& after.current is None
        &&& after.queue.len() == 0
        &&& !after.preparing
        &&& step.prepare is None
    } else {
        &&& after.current == Some(waiting[0])
        &&& after.queue == waiting.skip(1)
        &&& after.preparing
        &&& step.prepare == Some(waiting[0])
    }
}

/// When the active track plays to its end or its decoder fails, that track
/// alone leaves and the worker goes on with the first queued one. A decoder
/// that has ended is awaited, one that failed is aborted.
pub proof fn law_ended_track_gives_way_to_the_queue(worker: WorkerModel, channel_id: ChannelId)
    requires
        worker.well_formed(),
        worker.phase is Running,
        worker.active,
    ensures
        ({
            let (after, step) = worker.dealt_with(WorkerInput::Finished, channel_id);
            let first = worker.next(WorkerInput::Finished, channel_id).1;
            &&& goes_on_with(after, step, worker.queue)
            &&& first.await_decoder && !first.abort_decoder && first.call == SpeechCall::End
            &&& step.reply is None
        }),
        ({
            let (after, step) = worker.dealt_with(WorkerInput::DecoderFailed, channel_id);
            let first = worker.next(WorkerInput::DecoderFailed, channel_id).1;
            &&& goes_on_with(after, step, worker.queue)
            &&& first.abort_decoder && !first.await_decoder && first.call == SpeechCall::End
            &&& step.reply is None
        }),
{
    assert(worker.queue.skip(1) =~= worker.queue.drop_first());
}

/// A track that cannot be prepared is passed over, and the worker goes on with
/// the first queued one.
pub proof fn law_unplayable_track_is_passed_over(worker: WorkerModel, channel_id: ChannelId)
    requires
        worker.well_formed(),
        worker.phase is Running,
        worker.preparing,
    ensures
        ({
            let (after, step) = worker.next(WorkerInput::PrepareFailed, channel_id);
            &&& goes_on_with(after, step, worker.queue)
            &&& step.reply is None
            &&& step.call == SpeechCall::Nothing
        }),
{
    assert(worker.queue.skip(1) =~= worker.queue.drop_first());
}

/// A skip lets go of the track at hand, aborting its preparation or its
/// decoder, tells its title and goes on with the first queued one. With
/// nothing at hand it changes nothing and says so.
pub proof fn law_skip_lets_go_of_the_track_at_hand(worker: WorkerModel, channel_id: ChannelId)
    requires
        worker.well_formed(),
        worker.phase is Running,
    ensures
        ({
            let input = WorkerInput::Command(VoiceWorkerCommand::Skip);
            let first = worker.next(input, channel_id).1;
            let (after, step) = worker.dealt_with(input, channel_id);
            match worker.current {
                Some(track) => {
                    &&& goes_on_with(after, step, worker.queue)
                    &&& first.abort_prepare == worker.preparing
                    &&& first.abort_decoder == worker.active
                    &&& worker.speaking ==> first.call == SpeechCall::End
                    &&& step.reply == Some(
                        WorkerReply::Skip(SkipTrackResult::Skipped { title: track.metadata.title }),
                    )
                },
                None => {
                    &&& after == worker
                    &&& step.reply == Some(WorkerReply::Skip(SkipTrackResult::NothingPlaying))
                    &&& step.prepare is None && step.stop is None && !step.abort_decoder
                    &&& !step.abort_prepare && !step.publish
                },
            }
        }),
{
    assert(worker.queue.skip(1) =~= worker.queue.drop_first());
}

/// A queued track is told its place: none before it is place zero, and it is
/// prepared at once; otherwise it stands behind every queued track, counted
/// from one, and the track at hand goes on.
pub proof fn law_queued_track_is_told_its_place(
    worker: WorkerModel,
    track: Track,
    channel_id: ChannelId,
)
    requires
        worker.well_formed(),
        worker.phase is Running,
        worker.queue.len() < usize::MAX,
    ensures
        ({
            let (after, step) = worker.next(
                WorkerInput::Command(VoiceWorkerCommand::Enqueue { track }),
                channel_id,
            );
            &&& step.publish && step.stop is None && !step.abort_decoder && !step.abort_prepare
            &&& after.phase is Running
            &&& match worker.current {
                None => {
                    &&& step.reply == Some(
                        WorkerReply::Enqueue(TrackEnqueueResult::Accepted { position: 0 }),
                    )
                    &&& after.current == Some(track)
                    &&& after.queue.len() == 0
                    &&& after.preparing
                    &&& step.prepare == Some(track)
                },
                Some(_) => {
                    &&& step.reply == Some(
                        WorkerReply::Enqueue(
                            TrackEnqueueResult::Accepted {
                                position: (worker.queue.len() + 1) as usize,
                            },
                        ),
                    )
                    &&& after.current == worker.current
                    &&& after.queue == worker.queue + seq![track]
                    &&& after.preparing == worker.preparing
                    &&& after.active == worker.active
                    &&& after.speaking == worker.speaking
                    &&& step.prepare is None
                },
            }
        }),
{
    if worker.current is None {
        assert(worker.queue.push(track).drop_first() =~= Seq::<Track>::empty());
        assert(worker.queue.push(track)[0] == track);
    } else {
        assert(worker.queue.push(track) =~= worker.queue + seq![track]);
    }
}

/// A track that is ready is decoded once speech has begun; from then on it
/// plays, and each of its frames is sent. The queue is not touched.
pub proof fn law_ready_track_plays_within_speech(worker: WorkerModel, channel_id: ChannelId)
    requires
        worker.well_formed(),
        worker.phase is Running,
        worker.preparing,
    ensures
        ({
            let (beginning, asked) = worker.next(WorkerInput::Prepared, channel_id);
            let (playing, began) = beginning.next(WorkerInput::SpeechBegan, channel_id);
            let (sending, framed) = playing.next(WorkerInput::Frame, channel_id);
            let (after, sent) = sending.next(WorkerInput::FrameSent, channel_id);
            &&& asked.call == SpeechCall::Begin && !asked.start_decoder
            &&& began.start_decoder && began.publish && began.stop is None && began.prepare is None
            &&& playing.active && playing.speaking && !playing.preparing
            &&& playing.phase is Running
            &&& playing.current == worker.current
            &&& playing.queue == worker.queue
            &&& framed.call == SpeechCall::Send
            &&& sent.call == SpeechCall::Nothing && sent.stop is None
            &&& after == playing
        }),
{
}

/// What is shown is that a track plays, that one is being loaded, or neither.
pub proof fn law_shown_state_is_the_tracks(worker: WorkerModel)
    requires
        worker.well_formed(),
        worker.phase is Running,
    ensures
        worker.state() is Playing <==> worker.active,
        worker.state() is Loading <==> worker.preparing,
        worker.state() is Idle <==> worker.current is None,
{
}

/// The worker holds nothing any more, and what it had under way is aborted. If
/// it speaks, speech is ended first; then it is over for the reason given, or
/// because that failed.
pub open spec fn comes_to_an_end(
    before: WorkerModel,
    after: WorkerModel,
    step: WorkerStep,
    reason: VoiceWorkerStopReason,
) -> bool {
    &&& after.current is None
    &&& after.queue.len() == 0
    &&& !after.preparing
    &&& !after.active
    &&& step.abort_prepare == before.preparing
    &&& step.abort_decoder == before.active
    &&& step.prepare is None
    &&& if before.speaking {
        &&& after.phase == WorkerPhase::Closing(reason)
        &&& step.call == SpeechCall::End
        &&& step.stop is None
    } else {
        &&& after.phase is Stopped
        &&& step.stop == Some(reason)
        &&& step.call == SpeechCall::Nothing
        &&& step.publish
    }
}

/// A shutdown, the end of the commands and a failure of the voice transport
/// end the worker, whatever it has at hand or queued.
pub proof fn law_shutdown_and_failure_end_the_worker(
    worker: WorkerModel,
    error: String,
    channel_id: ChannelId,
)
    requires
        worker.well_formed(),
    ensures
        worker.phase is Running ==> ({
            let (after, step) = worker.next(
                WorkerInput::Command(VoiceWorkerCommand::Shutdown),
                channel_id,
            );
            comes_to_an_end(worker, after, step, VoiceWorkerStopReason::Requested)
        }),
        worker.phase is Running ==> ({
            let (after, step) = worker.next(WorkerInput::CommandsClosed, channel_id);
            comes_to_an_end(worker, after, step, VoiceWorkerStopReason::Requested)
        }),
        worker.phase is Running ==> ({
            let (after, step) = worker.next(WorkerInput::VoiceFailed(error), channel_id);
            comes_to_an_end(worker, after, step, VoiceWorkerStopReason::VoiceFailed(error))
        }),
        worker.phase is Replaying ==> ({
            let (after, step) = worker.next(
                WorkerInput::Command(VoiceWorkerCommand::Shutdown),
                channel_id,
            );
            comes_to_an_end(worker, after, step, VoiceWorkerStopReason::Requested)
        }),
        worker.phase is BeginningSpeech ==> ({
            let (after, step) = worker.next(WorkerInput::SpeechBeginFailed(error), channel_id);
            comes_to_an_end(worker, after, step, VoiceWorkerStopReason::VoiceFailed(error))
        }),
        worker.phase is Sending ==> ({
            let (after, step) = worker.next(WorkerInput::FrameFailed(error), channel_id);
            comes_to_an_end(worker, after, step, VoiceWorkerStopReason::VoiceFailed(error))
        }),
{
}

/// Speech that cannot be ended ends the worker with that failure, and a skip
/// that waited for it is told of it. A worker that is closing ends for its
/// reason once speech has ended, and else with the failure.
pub proof fn law_failed_silence_ends_the_worker(
    worker: WorkerModel,
    error: String,
    channel_id: ChannelId,
)
    requires
        worker.well_formed(),
    ensures
        worker.phase is EndingSpeech ==> ({
            let (after, step) = worker.next(WorkerInput::SpeechEndFailed(error), channel_id);
            &&& comes_to_an_end(worker, after, step, VoiceWorkerStopReason::VoiceFailed(error))
            &&& worker.phase->EndingSpeech_0 is Skip ==> step.reply == Some(
                WorkerReply::Skip(SkipTrackResult::Failed(error)),
            )
            &&& worker.phase->EndingSpeech_0 is Finish ==> step.reply is None
        }),
        worker.phase is Closing ==> ({
            let (after, step) = worker.next(WorkerInput::SpeechEnded, channel_id);
            &&& after.phase is Stopped && !after.speaking
            &&& step.stop == Some(worker.phase->Closing_0)
            &&& step.publish
        }),
        worker.phase is Closing ==> ({
            let (after, step) = worker.next(WorkerInput::SpeechEndFailed(error), channel_id);
            &&& after.phase is Stopped
            &&& step.stop == Some(VoiceWorkerStopReason::VoiceFailed(error))
        }),
{
}

/// While the worker connects, tracks and skips are kept for later and change
/// nothing; a shutdown cancels the join. Once connected the join is told with
/// its channel, or with the failure.
pub proof fn law_connecting_decides_the_join(
    worker: WorkerModel,
    track: Track,
    error: String,
    channel_id: ChannelId,
)
    requires
        worker.well_formed(),
        worker.phase is Connecting,
    ensures
        ({
            let kept = worker.next(
                WorkerInput::Command(VoiceWorkerCommand::Enqueue { track }),
                channel_id,
            );
            kept.0 == worker && kept.1.postpone && kept.1.reply is None && kept.1.stop is None
        }),
        ({
            let kept = worker.next(WorkerInput::Command(VoiceWorkerCommand::Skip), channel_id);
            kept.0 == worker && kept.1.postpone && kept.1.reply is None && kept.1.stop is None
        }),
        ({
            let (after, step) = worker.next(WorkerInput::Connected, channel_id);
            &&& after.phase is Replaying
            &&& after.queue == worker.queue && after.current is None
            &&& step.join_reply == Some(VoiceJoinResult::Joined { channel_id })
            &&& step.publish && step.stop is None
        }),
        ({
            let (after, step) = worker.next(WorkerInput::ConnectFailed(error), channel_id);
            &&& after.phase is Stopped
            &&& step.join_reply == Some(VoiceJoinResult::Failed(JoinFailure::SessionFailed(error)))
            &&& step.stop == Some(VoiceWorkerStopReason::ConnectFailed(error))
        }),
        ({
            let (after, step) = worker.next(
                WorkerInput::Command(VoiceWorkerCommand::Shutdown),
                channel_id,
            );
            &&& after.phase is Stopped
            &&& step.join_reply == Some(VoiceJoinResult::Cancelled)
            &&& step.stop == Some(VoiceWorkerStopReason::Requested)
        }),
        ({
            let (after, step) = worker.next(WorkerInput::CommandsClosed, channel_id);
            &&& after.phase is Stopped
            &&& step.join_reply == Some(VoiceJoinResult::Cancelled)
            &&& step.stop == Some(VoiceWorkerStopReason::Requested)
        }),
{
}

/// What a worker does not wait for changes nothing and asks for nothing.
pub proof fn law_unawaited_inputs_change_nothing(
    worker: WorkerModel,
    input: WorkerInput,
    channel_id: ChannelId,
)
    requires
        worker.well_formed(),
        match worker.phase {
            WorkerPhase::Connecting => input !is Connected && input !is ConnectFailed && input
                !is Command && input !is CommandsClosed,
            WorkerPhase::Replaying => input !is Command && input !is Replayed,
            WorkerPhase::Running => match input {
                WorkerInput::Command(_)
                | WorkerInput::CommandsClosed
                | WorkerInput::VoiceFailed(_) => false,
                WorkerInput::Prepared | WorkerInput::PrepareFailed => !worker.preparing,
                WorkerInput::Frame | WorkerInput::Finished | WorkerInput::DecoderFailed =>
                    !worker.active,
                _ => true,
            },
            WorkerPhase::BeginningSpeech => input !is SpeechBegan && input !is SpeechBeginFailed,
            WorkerPhase::Sending => input !is FrameSent && input !is FrameFailed,
            WorkerPhase::EndingSpeech(_) => input !is SpeechEnded && input !is SpeechEndFailed,
            WorkerPhase::Closing(_) => input !is SpeechEnded && input !is SpeechEndFailed,
            WorkerPhase::Stopped => true,
        },
    ensures
        ({
            let (after, step) = worker.next(input, channel_id);
            &&& after == worker
            &&& step.join_reply is None && !step.postpone && step.reply is None
            &&& !step.abort_prepare && !step.abort_decoder && !step.await_decoder
            &&& step.prepare is None && !step.start_decoder && !step.publish
            &&& step.call == SpeechCall::Nothing
            &&& step.stop is None
        }),
{
}

} // verus!
