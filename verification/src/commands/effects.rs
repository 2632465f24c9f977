//! What commands change of a server's player, and that nothing else changes.

use vstd::prelude::*;

use super::{play, playback, playlist, queue};
use crate::gateway_control::{Answer, PlaybackControlResult, VoiceJoinResult};
use crate::ids::GuildId;
use crate::player::{LoopMode, PlayerManager};
use crate::text;

verus! {

/// Every other server's player is as it was, and so are the current track and
/// the loop mode of this one.
pub open spec fn only_the_queue_changed(
    before: PlayerManager,
    after: PlayerManager,
    guild_id: GuildId,
) -> bool {
    &&& forall|other: GuildId|
        other != guild_id ==> #[trigger] after.player(other) == before.player(other)
    &&& after.player(guild_id).now_playing == before.player(guild_id).now_playing
    &&& after.player(guild_id).loop_mode == before.player(guild_id).loop_mode
}

/// Removing takes the queued track at the position out, counted from one, and
/// names it. A position that no queued track has changes nothing.
pub proof fn law_remove_takes_the_track_at_the_position(
    players: &mut PlayerManager,
    guild_id: GuildId,
    position: i64,
    reply: String,
)
    requires
        call_ensures(
            queue::remove,
            (guild_id, position, Answer::Given(PlaybackControlResult::Accepted), players),
            reply,
        ),
    ensures
        ({
            let before = old(players).player(guild_id).queue;
            let after = final(players).player(guild_id).queue;
            &&& only_the_queue_changed(*old(players), *final(players), guild_id)
            &&& 1 <= position <= before.len() ==> {
                &&& after == before.take(position - 1) + before.skip(position as int)
                &&& reply@ == "Removed "@ + playback::track_label(before[position - 1])
                    + " from the queue."@
            }
            &&& !(1 <= position <= before.len()) ==> after == before && reply@
                == "There is no queued track at that position."@
        }),
{
    let before = old(players).player(guild_id).queue;
    let after = final(players).player(guild_id).queue;
    if 1 <= position <= before.len() {
        assert(after =~= before.take(position - 1) + before.skip(position as int));
    }
}

/// Moving takes the queued track at one position out and puts it at another,
/// counted from one, and names it. Positions that no queued track has change
/// nothing.
pub proof fn law_move_puts_the_track_at_the_position(
    players: &mut PlayerManager,
    guild_id: GuildId,
    from: i64,
    to: i64,
    reply: String,
)
    requires
        call_ensures(
            queue::move_track,
            (guild_id, from, to, Answer::Given(PlaybackControlResult::Accepted), players),
            reply,
        ),
    ensures
        ({
            let before = old(players).player(guild_id).queue;
            let after = final(players).player(guild_id).queue;
            let others = before.take(from - 1) + before.skip(from as int);
            &&& only_the_queue_changed(*old(players), *final(players), guild_id)
            &&& 1 <= from <= before.len() && 1 <= to <= before.len() ==> {
                &&& after == others.take(to - 1) + seq![before[from - 1]] + others.skip(to - 1)
                &&& reply@ == "Moved "@ + playback::track_label(before[from - 1])
                    + " to position "@ + text::decimal(to as nat) + "."@
            }
            &&& !(1 <= from <= before.len() && 1 <= to <= before.len()) ==> after == before
                && reply@ == "There is no queued track at that position."@
        }),
{
    let before = old(players).player(guild_id).queue;
    let after = final(players).player(guild_id).queue;
    let others = before.take(from - 1) + before.skip(from as int);
    if 1 <= from <= before.len() && 1 <= to <= before.len() {
        assert(others =~= before.remove(from - 1));
        assert(after =~= others.take(to - 1) + seq![before[from - 1]] + others.skip(to - 1));
    }
}

/// Shuffling keeps every queued track and loses none; what plays, plays on.
pub proof fn law_shuffle_keeps_the_tracks(
    players: &mut PlayerManager,
    guild_id: GuildId,
    reply: String,
)
    requires
        call_ensures(
            queue::shuffle,
            (guild_id, Answer::Given(PlaybackControlResult::Accepted), players),
            reply,
        ),
    ensures
        ({
            let before = old(players).player(guild_id).queue;
            let after = final(players).player(guild_id).queue;
            &&& only_the_queue_changed(*old(players), *final(players), guild_id)
            &&& after.to_multiset() == before.to_multiset()
            &&& after.len() == before.len()
            &&& before.len() >= 2 ==> reply@ == "Shuffled "@ + text::decimal(before.len())
                + " queued tracks."@
        }),
{
    old(players).player(guild_id).queue.to_multiset_ensures();
    final(players).player(guild_id).queue.to_multiset_ensures();
}

/// A chosen loop mode is set and told; without a choice, or with one that is
/// no mode, nothing changes, and without one the current mode is told.
pub proof fn law_loop_sets_the_chosen_mode(
    players: &mut PlayerManager,
    guild_id: GuildId,
    choice: Option<String>,
    reply: String,
)
    requires
        call_ensures(
            queue::loop_mode,
            (guild_id, choice, Answer::Given(PlaybackControlResult::Accepted), players),
            reply,
        ),
    ensures
        ({
            let before = old(players).player(guild_id);
            let after = final(players).player(guild_id);
            &&& after.queue == before.queue && after.now_playing == before.now_playing
            &&& forall|other: GuildId|
                other != guild_id ==> #[trigger] final(players).player(other) == old(
                    players,
                ).player(other)
            &&& choice matches Some(name) ==> {
                &&& name@ == "off"@ ==> after.loop_mode == LoopMode::Off
                &&& name@ == "track"@ ==> after.loop_mode == LoopMode::Track
                &&& name@ == "queue"@ ==> after.loop_mode == LoopMode::Queue
                &&& name@ == "off"@ || name@ == "track"@ || name@ == "queue"@ ==> reply@
                    == "Loop mode: **"@ + name@ + "**."@
                &&& name@ != "off"@ && name@ != "track"@ && name@ != "queue"@ ==> after
                    == before && reply@ == "That loop mode is not supported."@
            }
            &&& choice is None ==> after == before && reply@ == queue::loop_answer(
                before.loop_mode,
            )
        }),
{
    queue::law_mode_names_choose_their_modes(LoopMode::Off);
    queue::law_mode_names_choose_their_modes(LoopMode::Track);
    queue::law_mode_names_choose_their_modes(LoopMode::Queue);
}

/// Without the voice worker's consent no command changes anything.
pub proof fn law_refused_changes_change_nothing(
    removing: &mut PlayerManager,
    moving: &mut PlayerManager,
    shuffling: &mut PlayerManager,
    looping: &mut PlayerManager,
    guild_id: GuildId,
    from: i64,
    to: i64,
    choice: Option<String>,
    answer: Answer<PlaybackControlResult>,
    removed: String,
    moved: String,
    shuffled: String,
    looped: String,
)
    requires
        answer != Answer::Given(PlaybackControlResult::Accepted),
        call_ensures(queue::remove, (guild_id, from, answer, removing), removed),
        call_ensures(queue::move_track, (guild_id, from, to, answer, moving), moved),
        call_ensures(queue::shuffle, (guild_id, answer, shuffling), shuffled),
        call_ensures(queue::loop_mode, (guild_id, choice, answer, looping), looped),
    ensures
        *final(removing) == *old(removing),
        *final(moving) == *old(moving),
        *final(shuffling) == *old(shuffling),
        *final(looping) == *old(looping),
        removed@ == moved@ && moved@ == shuffled@ && shuffled@ == looped@,
{
}

/// Once voice is joined the track is queued behind the others, under a fresh
/// identifier, and told its position. Where voice is not joined nothing is
/// queued.
pub proof fn law_played_track_is_queued_once_joined(
    players: &mut PlayerManager,
    join: play::PlayJoin,
    answer: Answer<VoiceJoinResult>,
    result: Result<play::PlayWake, String>,
)
    requires
        call_ensures(play::PlayJoin::joined, (join, answer, players), result),
    ensures
        ({
            let before = old(players).player(join.guild_id);
            let after = final(players).player(join.guild_id);
            &&& answer is Given && answer->Given_0 is Joined ==> result is Ok
            &&& answer is Given && answer->Given_0 == (VoiceJoinResult::AlreadyConnected {
                channel_id: join.channel_id,
            }) ==> result is Ok
            &&& answer !is Given ==> result is Err
            &&& match result {
                Ok(wake) => {
                    &&& only_the_queue_changed(*old(players), *final(players), join.guild_id)
                    &&& after.queue == before.queue + seq![wake.track]
                    &&& wake.position == after.queue.len()
                    &&& wake.guild_id == join.guild_id && wake.channel_id == join.channel_id
                    &&& wake.track.id.0 != 0
                    &&& wake.track.id.0 != old(players).last_track_id()
                    &&& wake.track.metadata == join.resolved.metadata
                    &&& wake.track.requested_by.user_id == join.user_id
                },
                Err(_) => *final(players) == *old(players),
            }
        }),
{
    if result is Ok {
        let before = old(players).player(join.guild_id);
        let after = final(players).player(join.guild_id);
        assert(after.queue =~= before.queue + seq![result->Ok_0.track]);
    }
}

/// Once voice is joined the tracks of a playlist are queued behind the others,
/// in their order, and told how many they are and where the first stands.
pub proof fn law_playlist_is_queued_once_joined(
    players: &mut PlayerManager,
    join: playlist::PlaylistJoin,
    answer: Answer<VoiceJoinResult>,
    result: Result<playlist::PlaylistWake, String>,
    i: int,
)
    requires
        call_ensures(playlist::PlaylistJoin::joined, (join, answer, players), result),
        0 <= i < join.resolved@.len(),
    ensures
        ({
            let before = old(players).player(join.guild_id);
            let after = final(players).player(join.guild_id);
            &&& answer is Given && answer->Given_0 is Joined ==> result is Ok
            &&& answer !is Given ==> result is Err
            &&& match result {
                Ok(wake) => {
                    &&& only_the_queue_changed(*old(players), *final(players), join.guild_id)
                    &&& wake.added == join.resolved@.len()
                    &&& wake.first_position == before.queue.len() + 1
                    &&& after.queue.len() == before.queue.len() + join.resolved@.len()
                    &&& after.queue.take(before.queue.len() as int) == before.queue
                    &&& after.queue[before.queue.len() + i].metadata == join.resolved@[i].metadata
                    &&& after.queue[before.queue.len() + i].locator == join.resolved@[i].locator
                    &&& after.queue[before.queue.len() + i].requested_by.user_id == join.user_id
                },
                Err(_) => *final(players) == *old(players),
            }
        }),
{
    if result is Ok {
        playlist::law_playlist_is_queued_in_order(
            final(players).player(join.guild_id),
            old(players).player(join.guild_id),
            join.resolved@,
            join.user_id,
            join.request@,
            old(players).last_track_id(),
            i,
        );
    }
}

} // verus!
