//! Recently played tracks of every guild.

use std::collections::{HashMap, VecDeque};

use vstd::prelude::*;

use crate::ids::GuildId;
use crate::media::track::Track;

verus! {

/// How many tracks one guild's history keeps.
pub const HISTORY_LIMIT: usize = 20;

/// The history after `track` was played: it joins the end, and the oldest
/// entry leaves once the history is full.
pub open spec fn remembered(history: Seq<Track>, track: Track) -> Seq<Track> {
    if history.len() == HISTORY_LIMIT {
        history.drop_first().push(track)
    } else {
        history.push(track)
    }
}

/// The history without its newest entry.
pub open spec fn forgotten(history: Seq<Track>) -> Seq<Track> {
    if history.len() > 0 {
        history.drop_last()
    } else {
        history
    }
}

/// The newest entry of a history.
pub open spec fn newest(history: Seq<Track>) -> Option<Track> {
    if history.len() > 0 {
        Some(history.last())
    } else {
        None
    }
}

/// Played tracks per guild, oldest first, at most [`HISTORY_LIMIT`] each.
#[derive(Debug)]
pub struct HistoryManager {
    histories: HashMap<u64, VecDeque<Track>>,
}

impl HistoryManager {
    #[verifier::type_invariant]
    spec fn well_formed(self) -> bool {
        forall|guild: u64|
            #![trigger self.histories@[guild]]
            self.histories@.contains_key(guild) ==> self.histories@[guild]@.len() <= HISTORY_LIMIT
    }

    /// The played tracks of one guild, oldest first.
    pub closed spec fn history(&self, guild_id: GuildId) -> Seq<Track> {
        if self.histories@.contains_key(guild_id.0) {
            self.histories@[guild_id.0]@
        } else {
            Seq::empty()
        }
    }

    /// Every guild but `guild_id` is as in `before`.
    pub open spec fn same_elsewhere(&self, before: &HistoryManager, guild_id: GuildId) -> bool {
        forall|other: GuildId| other != guild_id ==> #[trigger] self.history(other)
            == before.history(other)
    }

    pub fn new() -> (manager: Self)
        ensures
            forall|guild: GuildId| manager.history(guild) == Seq::<Track>::empty(),
    {
        HistoryManager { histories: HashMap::new() }
    }

    /// Remembers a played track.
    pub fn push(&mut self, guild_id: GuildId, track: Track)
        ensures
            old(self).history(guild_id).len() <= HISTORY_LIMIT,
            final(self).history(guild_id) == remembered(old(self).history(guild_id), track),
            final(self).same_elsewhere(old(self), guild_id),
    {
        proof {
            use_type_invariant(&*self);
        }
        let mut histories: HashMap<u64, VecDeque<Track>> = HashMap::new();
        std::mem::swap(&mut histories, &mut self.histories);
        let mut history: VecDeque<Track> = match histories.remove(&guild_id.0) {
            Some(history) => history,
            None => VecDeque::new(),
        };
        if history.len() == HISTORY_LIMIT {
            let _ = history.pop_front();
        }
        history.push_back(track);
        histories.insert(guild_id.0, history);
        self.histories = histories;
    }

    /// Takes the newest track out of the history.
    pub fn pop_latest(&mut self, guild_id: GuildId) -> (latest: Option<Track>)
        ensures
            latest == newest(old(self).history(guild_id)),
            final(self).history(guild_id) == forgotten(old(self).history(guild_id)),
            final(self).same_elsewhere(old(self), guild_id),
    {
        proof {
            use_type_invariant(&*self);
        }
        let mut histories: HashMap<u64, VecDeque<Track>> = HashMap::new();
        std::mem::swap(&mut histories, &mut self.histories);
        let mut latest: Option<Track> = None;
        match histories.remove(&guild_id.0) {
            Some(mut history) => {
                latest = history.pop_back();
                if history.len() > 0 {
                    histories.insert(guild_id.0, history);
                }
            },
            None => {},
        }
        self.histories = histories;
        latest
    }

    /// The played tracks of one guild, oldest first, at most
    /// [`HISTORY_LIMIT`] of them.
    pub fn snapshot(&self, guild_id: GuildId) -> (copy: Vec<Track>)
        ensures
            copy@ == self.history(guild_id),
            copy@.len() <= HISTORY_LIMIT,
    {
        proof {
            use_type_invariant(self);
        }
        let mut copy: Vec<Track> = Vec::new();
        if let Some(history) = self.histories.get(&guild_id.0) {
            let mut i: usize = 0;
            while i < history.len()
                invariant
                    i <= history@.len(),
                    copy@ == history@.take(i as int),
                decreases history@.len() - i,
            {
                copy.push(history[i].clone());
                assert(history@.take(i + 1) =~= history@.take(i as int).push(history@[i as int]));
                i += 1;
            }
            assert(history@.take(i as int) =~= history@);
        }
        copy
    }
}

/// The history after a run of played tracks.
pub open spec fn remembered_all(history: Seq<Track>, played: Seq<Track>) -> Seq<Track>
    decreases played.len(),
{
    if played.len() == 0 {
        history
    } else {
        remembered(remembered_all(history, played.drop_last()), played.last())
    }
}

/// The history keeps exactly the newest tracks, as many as it has room for, in
/// the order in which they were played.
pub proof fn law_history_keeps_the_newest(played: Seq<Track>)
    ensures
        played.len() <= HISTORY_LIMIT ==> remembered_all(Seq::empty(), played) == played,
        played.len() > HISTORY_LIMIT ==> remembered_all(Seq::empty(), played) == played.skip(
            played.len() - HISTORY_LIMIT,
        ),
    decreases played.len(),
{
    if played.len() > 0 {
        law_history_keeps_the_newest(played.drop_last());
        let before = remembered_all(Seq::empty(), played.drop_last());
        if played.len() <= HISTORY_LIMIT {
            assert(played.drop_last().push(played.last()) =~= played);
        } else if played.len() == HISTORY_LIMIT + 1 {
            assert(before == played.drop_last());
            assert(before.drop_first().push(played.last()) =~= played.skip(1));
        } else {
            let cut = played.len() - HISTORY_LIMIT;
            assert(before.drop_first().push(played.last()) =~= played.skip(cut));
        }
    } else {
        assert(remembered_all(Seq::empty(), played) =~= played);
    }
}

/// Taking the newest track out undoes remembering it, while there is room.
pub proof fn law_pop_undoes_push(history: Seq<Track>, track: Track)
    requires
        history.len() <= HISTORY_LIMIT,
    ensures
        newest(remembered(history, track)) == Some(track),
        history.len() < HISTORY_LIMIT ==> forgotten(remembered(history, track)) == history,
        history.len() == HISTORY_LIMIT ==> forgotten(remembered(history, track))
            == history.drop_first(),
{
    if history.len() == HISTORY_LIMIT {
        assert(forgotten(remembered(history, track)) =~= history.drop_first());
    } else {
        assert(forgotten(remembered(history, track)) =~= history);
    }
}

/// A played track becomes the newest of at most twenty; only the oldest gives
/// way to it, and only if there is no room. What is taken out is the newest.
pub proof fn law_played_track_becomes_the_newest(history: Seq<Track>, track: Track)
    requires
        history.len() <= 20,
    ensures
        remembered(history, track).len() <= 20,
        remembered(history, track).last() == track,
        history.len() < 20 ==> remembered(history, track) == history + seq![track],
        history.len() == 20 ==> remembered(history, track) == history.skip(1) + seq![track],
        history.len() > 0 ==> newest(history) == Some(history[history.len() - 1]) && forgotten(
            history,
        ) == history.take(history.len() - 1),
        history.len() == 0 ==> newest(history) is None && forgotten(history).len() == 0,
{
    if history.len() < 20 {
        assert(remembered(history, track) =~= history + seq![track]);
    } else {
        assert(remembered(history, track) =~= history.skip(1) + seq![track]);
    }
    if history.len() > 0 {
        assert(forgotten(history) =~= history.take(history.len() - 1));
    }
}

/// Each guild has a history of its own: a track that is remembered or taken
/// out in one leaves every other as it was. What is taken out is what was
/// remembered last.
pub proof fn law_histories_are_kept_apart(
    remembering: &mut HistoryManager,
    forgetting: &mut HistoryManager,
    guild_id: GuildId,
    other: GuildId,
    track: Track,
    done: (),
    latest: Option<Track>,
)
    requires
        other != guild_id,
        call_ensures(HistoryManager::push, (remembering, guild_id, track), done),
        call_ensures(HistoryManager::pop_latest, (forgetting, guild_id), latest),
    ensures
        final(remembering).history(other) == old(remembering).history(other),
        final(remembering).history(guild_id).last() == track,
        final(remembering).history(guild_id).len() <= 20,
        final(forgetting).history(other) == old(forgetting).history(other),
        old(forgetting).history(guild_id).len() > 0 ==> latest == Some(
            old(forgetting).history(guild_id).last(),
        ) && final(forgetting).history(guild_id) == old(forgetting).history(guild_id).drop_last(),
        old(forgetting).history(guild_id).len() == 0 ==> latest is None,
        old(forgetting).history(guild_id).len() == 0 ==> final(forgetting).history(guild_id).len()
            == 0,
{
}

} // verus!
