//! Per-guild queues and playback state.

use std::collections::{HashMap, VecDeque};

use rand::seq::SliceRandom;
use vstd::prelude::*;

use crate::ids::GuildId;
use crate::media::track::{RequestedBy, ResolvedTrack, Track, TrackId, TrackRequest};

verus! {

/// What happens to a track that plays to its end.
#[derive(Debug, Clone, Copy, PartialEq, Eq, Structural)]
pub enum LoopMode {
    /// The track leaves the player.
    Off,
    /// The track plays again.
    Track,
    /// The track goes to the end of the queue.
    Queue,
}

/// One guild's playback state, as the contracts speak of it.
#[verifier::ext_equal]
pub struct PlayerState {
    pub now_playing: Option<Track>,
    pub queue: Seq<Track>,
    pub loop_mode: LoopMode,
}

impl PlayerState {
    /// The state of a guild that has never queued anything.
    pub open spec fn idle() -> PlayerState {
        PlayerState { now_playing: None, queue: Seq::empty(), loop_mode: LoopMode::Off }
    }

    /// `track` joins the end of the queue.
    pub open spec fn enqueued(self, track: Track) -> PlayerState {
        PlayerState { queue: self.queue.push(track), ..self }
    }

    /// The queue entry at `index` is dropped.
    pub open spec fn removed(self, index: int) -> PlayerState {
        PlayerState { queue: self.queue.remove(index), ..self }
    }

    /// The queue entry at `from` is taken out and put back at `to`.
    pub open spec fn moved(self, from: int, to: int) -> PlayerState {
        PlayerState { queue: self.queue.remove(from).insert(to, self.queue[from]), ..self }
    }

    /// Nothing plays and something is queued.
    pub open spec fn can_start(self) -> bool {
        self.now_playing is None && self.queue.len() > 0
    }

    /// The first queue entry becomes the current track, if none plays.
    pub open spec fn started(self) -> PlayerState {
        if self.can_start() {
            PlayerState {
                now_playing: Some(self.queue[0]),
                queue: self.queue.drop_first(),
                ..self
            }
        } else {
            self
        }
    }

    /// `id` is the identifier of the current track.
    pub open spec fn is_current(self, id: TrackId) -> bool {
        self.now_playing matches Some(track) && track.id == id
    }

    /// The current track leaves, if it is the one named.
    pub open spec fn finished(self, id: TrackId) -> PlayerState {
        if self.is_current(id) {
            PlayerState { now_playing: None, ..self }
        } else {
            self
        }
    }

    /// The current track has played to its end, if it is the one named: it
    /// leaves, or goes back into the queue as the loop mode says.
    pub open spec fn completed(self, id: TrackId) -> PlayerState {
        if self.is_current(id) {
            let track = self.now_playing->0;
            PlayerState {
                now_playing: None,
                queue: match self.loop_mode {
                    LoopMode::Off => self.queue,
                    LoopMode::Track => seq![track] + self.queue,
                    LoopMode::Queue => self.queue.push(track),
                },
                ..self
            }
        } else {
            self
        }
    }

    /// Every track that the player holds, the current one first.
    pub open spec fn all_tracks(self) -> Seq<Track> {
        match self.now_playing {
            Some(track) => seq![track] + self.queue,
            None => self.queue,
        }
    }
}

/// The identifier handed out after `last`: the next number that is not zero.
pub open spec fn following_id(last: u64) -> u64 {
    if last == u64::MAX {
        1
    } else {
        (last + 1) as u64
    }
}

/// Read-only copy of one guild's playback state.
#[derive(Debug, Clone, PartialEq, Eq)]
pub struct PlayerSnapshot {
    pub now_playing: Option<Track>,
    pub queue: Vec<Track>,
}

impl Default for PlayerSnapshot {
    fn default() -> (snapshot: Self)
        ensures
            snapshot.now_playing is None,
            snapshot.queue@ == Seq::<Track>::empty(),
    {
        PlayerSnapshot { now_playing: None, queue: Vec::new() }
    }
}

impl PlayerSnapshot {
    /// The copy shows what `state` holds.
    pub open spec fn shows(self, state: PlayerState) -> bool {
        self.now_playing == state.now_playing && self.queue@ == state.queue
    }

    #[must_use]
    pub fn is_idle(&self) -> (idle: bool)
        ensures
            idle == (self.now_playing is None && self.queue@.len() == 0),
    {
        self.now_playing.is_none() && self.queue.len() == 0
    }

    #[must_use]
    pub fn queued_len(&self) -> (len: usize)
        ensures
            len == self.queue@.len(),
    {
        self.queue.len()
    }
}

#[derive(Debug)]
struct GuildPlayer {
    now_playing: Option<Track>,
    queue: VecDeque<Track>,
    loop_mode: LoopMode,
}

impl GuildPlayer {
    spec fn state(self) -> PlayerState {
        PlayerState {
            now_playing: self.now_playing,
            queue: self.queue@,
            loop_mode: self.loop_mode,
        }
    }

    fn new() -> (player: Self)
        ensures
            player.state() == PlayerState::idle(),
    {
        GuildPlayer { now_playing: None, queue: VecDeque::new(), loop_mode: LoopMode::Off }
    }

    fn snapshot(&self) -> (copy: PlayerSnapshot)
        ensures
            copy.shows(self.state()),
    {
        let mut queue: Vec<Track> = Vec::new();
        let mut i: usize = 0;
        while i < self.queue.len()
            invariant
                i <= self.queue@.len(),
                queue@ == self.queue@.take(i as int),
            decreases self.queue@.len() - i,
        {
            queue.push(self.queue[i].clone());
            assert(self.queue@.take(i + 1) =~= self.queue@.take(i as int).push(
                self.queue@[i as int],
            ));
            i += 1;
        }
        assert(self.queue@.take(i as int) =~= self.queue@);
        PlayerSnapshot { now_playing: self.now_playing.clone(), queue }
    }

    fn into_snapshot(self) -> (copy: PlayerSnapshot)
        ensures
            copy.shows(self.state()),
    {
        self.snapshot()
    }
}

/// `SliceRandom::shuffle` of `rand`, over the queue's items as one slice and
/// with the thread's generator: the same tracks come out, in some order. Which
/// order is left to chance. The generator's first use panics on a system that
/// cannot supply entropy.
#[verifier::external_body]
fn shuffle_queue(queue: &mut VecDeque<Track>)
    ensures
        final(queue)@.to_multiset() == old(queue)@.to_multiset(),
{
    queue.make_contiguous().shuffle(&mut rand::rng());
}

/// Owns isolated playback state for every guild.
///
/// The manager deliberately contains no Discord transport or resolver handles.
/// Player workers can mutate this state without coupling queue semantics to the
/// Gateway task, command framework, or media backend.
#[derive(Debug)]
pub struct PlayerManager {
    players: HashMap<u64, GuildPlayer>,
    next_track_id: u64,
}

impl Default for PlayerManager {
    fn default() -> (manager: Self)
        ensures
            forall|guild: GuildId| manager.player(guild) == PlayerState::idle(),
            manager.last_track_id() == 0,
    {
        PlayerManager { players: HashMap::new(), next_track_id: 0 }
    }
}

impl PlayerManager {
    /// The playback state of one guild.
    pub closed spec fn player(&self, guild_id: GuildId) -> PlayerState {
        if self.players@.contains_key(guild_id.0) {
            self.players@[guild_id.0].state()
        } else {
            PlayerState::idle()
        }
    }

    /// The track identifier handed out last, zero before the first.
    pub closed spec fn last_track_id(&self) -> u64 {
        self.next_track_id
    }

    /// Every guild but `guild_id` is as in `before`.
    pub open spec fn same_elsewhere(&self, before: &PlayerManager, guild_id: GuildId) -> bool {
        forall|other: GuildId| other != guild_id ==> #[trigger] self.player(other)
            == before.player(other)
    }

    #[must_use]
    pub fn new() -> (manager: Self)
        ensures
            forall|guild: GuildId| manager.player(guild) == PlayerState::idle(),
            manager.last_track_id() == 0,
    {
        PlayerManager::default()
    }

    #[must_use]
    pub fn snapshot(&self, guild_id: GuildId) -> (copy: PlayerSnapshot)
        ensures
            copy.shows(self.player(guild_id)),
    {
        match self.players.get(&guild_id.0) {
            Some(player) => player.snapshot(),
            None => PlayerSnapshot::default(),
        }
    }

    /// Queues a resolver's result under a fresh identifier, and says at which
    /// one-based position.
    pub fn enqueue_resolved(
        &mut self,
        guild_id: GuildId,
        request: TrackRequest,
        requested_by: RequestedBy,
        resolved: ResolvedTrack,
    ) -> (result: (Track, usize))
        ensures
            result.0 == (Track {
                id: TrackId(following_id(old(self).last_track_id())),
                request,
                source: resolved.source,
                requested_by,
                metadata: resolved.metadata,
                locator: resolved.locator,
            }),
            result.1 == old(self).player(guild_id).queue.len() + 1,
            final(self).player(guild_id) == old(self).player(guild_id).enqueued(result.0),
            final(self).same_elsewhere(old(self), guild_id),
            final(self).last_track_id() == following_id(old(self).last_track_id()),
    {
        let id: TrackId = self.allocate_track_id();
        let track: Track = Track::from_resolved(id, request, requested_by, resolved);
        let position: usize = self.enqueue(guild_id, track.clone());
        (track, position)
    }

    /// Queues a track and says at which one-based position.
    pub fn enqueue(&mut self, guild_id: GuildId, track: Track) -> (position: usize)
        ensures
            position == old(self).player(guild_id).queue.len() + 1,
            final(self).player(guild_id) == old(self).player(guild_id).enqueued(track),
            final(self).same_elsewhere(old(self), guild_id),
            final(self).last_track_id() == old(self).last_track_id(),
    {
        let player: &mut GuildPlayer = self.players.entry(guild_id.0).or_insert(GuildPlayer::new());
        player.queue.push_back(track);
        player.queue.len()
    }

    /// Drops the queue entry at `index`, if there is one.
    pub fn remove_queued(&mut self, guild_id: GuildId, index: usize) -> (removed: Option<Track>)
        ensures
            index < old(self).player(guild_id).queue.len() ==> removed == Some(
                old(self).player(guild_id).queue[index as int],
            ) && final(self).player(guild_id) == old(self).player(guild_id).removed(index as int),
            index >= old(self).player(guild_id).queue.len() ==> removed is None
                && final(self).player(guild_id) == old(self).player(guild_id),
            final(self).same_elsewhere(old(self), guild_id),
            final(self).last_track_id() == old(self).last_track_id(),
    {
        if !self.players.contains_key(&guild_id.0) {
            return None;
        }
        let player: &mut GuildPlayer = self.players.entry(guild_id.0).or_insert(GuildPlayer::new());
        player.queue.remove(index)
    }

    /// Moves the queue entry at `from_index` to `to_index`, if both are queue
    /// positions.
    pub fn move_queued(
        &mut self,
        guild_id: GuildId,
        from_index: usize,
        to_index: usize,
    ) -> (moved: Option<Track>)
        ensures
            from_index < old(self).player(guild_id).queue.len() && to_index < old(self).player(
                guild_id,
            ).queue.len() ==> moved == Some(old(self).player(guild_id).queue[from_index as int])
                && final(self).player(guild_id) == old(self).player(guild_id).moved(
                from_index as int,
                to_index as int,
            ),
            from_index >= old(self).player(guild_id).queue.len() || to_index >= old(self).player(
                guild_id,
            ).queue.len() ==> moved is None && final(self).player(guild_id) == old(self).player(
                guild_id,
            ),
            final(self).same_elsewhere(old(self), guild_id),
            final(self).last_track_id() == old(self).last_track_id(),
    {
        if !self.players.contains_key(&guild_id.0) {
            return None;
        }
        let ghost before = self.player(guild_id).queue;
        let player: &mut GuildPlayer = self.players.entry(guild_id.0).or_insert(GuildPlayer::new());
        if from_index >= player.queue.len() || to_index >= player.queue.len() {
            return None;
        }
        if from_index == to_index {
            assert(before.remove(from_index as int).insert(to_index as int, before[from_index as int])
                =~= before);
            return Some(player.queue[from_index].clone());
        }
        match player.queue.remove(from_index) {
            Some(track) => {
                let moved: Track = track.clone();
                player.queue.insert(to_index, track);
                Some(moved)
            },
            None => None,
        }
    }

    /// Puts the queue into an order left to chance and says how long it is.
    /// A queue of fewer than two tracks is left alone.
    pub fn shuffle_queued(&mut self, guild_id: GuildId) -> (count: usize)
        ensures
            count == old(self).player(guild_id).queue.len(),
            count < 2 ==> final(self).player(guild_id) == old(self).player(guild_id),
            final(self).player(guild_id).queue.to_multiset() == old(self).player(
                guild_id,
            ).queue.to_multiset(),
            final(self).player(guild_id).now_playing == old(self).player(guild_id).now_playing,
            final(self).player(guild_id).loop_mode == old(self).player(guild_id).loop_mode,
            final(self).same_elsewhere(old(self), guild_id),
            final(self).last_track_id() == old(self).last_track_id(),
    {
        if !self.players.contains_key(&guild_id.0) {
            return 0;
        }
        let player: &mut GuildPlayer = self.players.entry(guild_id.0).or_insert(GuildPlayer::new());
        let count: usize = player.queue.len();
        if count < 2 {
            return count;
        }
        shuffle_queue(&mut player.queue);
        count
    }

    /// Makes the first queue entry the current track, if none plays.
    pub fn start_next(&mut self, guild_id: GuildId) -> (track: Option<Track>)
        ensures
            track == (if old(self).player(guild_id).can_start() {
                Some(old(self).player(guild_id).queue[0])
            } else {
                None
            }),
            final(self).player(guild_id) == old(self).player(guild_id).started(),
            final(self).same_elsewhere(old(self), guild_id),
            final(self).last_track_id() == old(self).last_track_id(),
    {
        if !self.players.contains_key(&guild_id.0) {
            return None;
        }
        let player: &mut GuildPlayer = self.players.entry(guild_id.0).or_insert(GuildPlayer::new());
        if player.now_playing.is_some() {
            return None;
        }
        match player.queue.pop_front() {
            Some(track) => {
                player.now_playing = Some(track.clone());
                Some(track)
            },
            None => None,
        }
    }

    /// Takes the current track out, if it is the one named.
    pub fn finish_current(&mut self, guild_id: GuildId, track_id: TrackId) -> (matches: bool)
        ensures
            matches == old(self).player(guild_id).is_current(track_id),
            final(self).player(guild_id) == old(self).player(guild_id).finished(track_id),
            final(self).same_elsewhere(old(self), guild_id),
            final(self).last_track_id() == old(self).last_track_id(),
    {
        if !self.players.contains_key(&guild_id.0) {
            return false;
        }
        let player: &mut GuildPlayer = self.players.entry(guild_id.0).or_insert(GuildPlayer::new());
        let matches: bool = match &player.now_playing {
            Some(track) => track.id == track_id,
            None => false,
        };
        if matches {
            player.now_playing = None;
        }
        matches
    }

    /// Ends the current track, if it is the one named, and puts it back into
    /// the queue as the loop mode says.
    pub fn complete_current(&mut self, guild_id: GuildId, track_id: TrackId) -> (matches: bool)
        ensures
            matches == old(self).player(guild_id).is_current(track_id),
            final(self).player(guild_id) == old(self).player(guild_id).completed(track_id),
            final(self).same_elsewhere(old(self), guild_id),
            final(self).last_track_id() == old(self).last_track_id(),
    {
        if !self.players.contains_key(&guild_id.0) {
            return false;
        }
        let player: &mut GuildPlayer = self.players.entry(guild_id.0).or_insert(GuildPlayer::new());
        let matches: bool = match &player.now_playing {
            Some(track) => track.id == track_id,
            None => false,
        };
        if !matches {
            return false;
        }
        match player.now_playing.take() {
            Some(track) => match player.loop_mode {
                LoopMode::Off => {},
                LoopMode::Track => player.queue.push_front(track),
                LoopMode::Queue => player.queue.push_back(track),
            },
            None => {},
        }
        true
    }

    /// The loop mode of one guild.
    #[must_use]
    pub fn loop_mode(&self, guild_id: GuildId) -> (mode: LoopMode)
        ensures
            mode == self.player(guild_id).loop_mode,
    {
        match self.players.get(&guild_id.0) {
            Some(player) => player.loop_mode,
            None => LoopMode::Off,
        }
    }

    /// Changes the loop mode of one guild.
    pub fn set_loop_mode(&mut self, guild_id: GuildId, mode: LoopMode)
        ensures
            final(self).player(guild_id) == (PlayerState {
                loop_mode: mode,
                ..old(self).player(guild_id)
            }),
            final(self).same_elsewhere(old(self), guild_id),
            final(self).last_track_id() == old(self).last_track_id(),
    {
        let player: &mut GuildPlayer = self.players.entry(guild_id.0).or_insert(GuildPlayer::new());
        player.loop_mode = mode;
    }

    /// Forgets one guild's playback state and returns what it held.
    pub fn clear(&mut self, guild_id: GuildId) -> (removed: PlayerSnapshot)
        ensures
            removed.shows(old(self).player(guild_id)),
            final(self).player(guild_id) == PlayerState::idle(),
            final(self).same_elsewhere(old(self), guild_id),
            final(self).last_track_id() == old(self).last_track_id(),
    {
        match self.players.remove(&guild_id.0) {
            Some(player) => player.into_snapshot(),
            None => PlayerSnapshot::default(),
        }
    }

    fn allocate_track_id(&mut self) -> (id: TrackId)
        ensures
            id == TrackId(following_id(old(self).last_track_id())),
            final(self).last_track_id() == following_id(old(self).last_track_id()),
            forall|guild: GuildId| final(self).player(guild) == old(self).player(guild),
    {
        if self.next_track_id == u64::MAX {
            self.next_track_id = 1;
        } else {
            self.next_track_id = self.next_track_id + 1;
        }
        TrackId::new(self.next_track_id)
    }
}

impl PlayerState {
    /// The player after `n` rounds of starting the next track and taking it
    /// out again.
    pub open spec fn after_rounds(self, n: nat) -> PlayerState
        decreases n,
    {
        if n == 0 {
            self
        } else {
            let playing = self.after_rounds((n - 1) as nat).started();
            match playing.now_playing {
                Some(track) => playing.finished(track.id),
                None => playing,
            }
        }
    }
}

/// The queue is first in, first out: a player with nothing playing starts its
/// queue entries in the order in which they stand, and nothing else.
pub proof fn law_queue_is_fifo(player: PlayerState, n: nat)
    requires
        player.now_playing is None,
        n <= player.queue.len(),
    ensures
        player.after_rounds(n) == (PlayerState { queue: player.queue.skip(n as int), ..player }),
        n < player.queue.len() ==> player.after_rounds(n).started().now_playing == Some(
            player.queue[n as int],
        ),
    decreases n,
{
    if n == 0 {
        assert(player.queue.skip(0) =~= player.queue);
    } else {
        law_queue_is_fifo(player, (n - 1) as nat);
        assert(player.queue.skip(n - 1).drop_first() =~= player.queue.skip(n as int));
    }
}

/// A track that joins the queue of a player with nothing playing is started
/// after exactly the tracks that stood before it.
pub proof fn law_enqueued_track_plays_in_turn(player: PlayerState, track: Track)
    requires
        player.now_playing is None,
    ensures
        player.enqueued(track).after_rounds(player.queue.len()).started().now_playing == Some(
            track,
        ),
{
    law_queue_is_fifo(player.enqueued(track), player.queue.len());
}

/// Starting the next track loses nothing and invents nothing: the player holds
/// the same tracks in the same order.
pub proof fn law_starting_keeps_every_track(player: PlayerState)
    ensures
        player.started().all_tracks() == player.all_tracks(),
        player.started().loop_mode == player.loop_mode,
{
    assert(player.started().all_tracks() =~= player.all_tracks());
}

/// The report that a track ended changes nothing unless that track is the
/// current one.
pub proof fn law_stale_end_changes_nothing(player: PlayerState, id: TrackId)
    requires
        !player.is_current(id),
    ensures
        player.finished(id) == player,
        player.completed(id) == player,
{
}

/// Moving an entry keeps the current track and the membership of the queue,
/// and shifts no two other entries past each other.
pub proof fn law_move_reorders_only(player: PlayerState, from: int, to: int)
    requires
        0 <= from < player.queue.len(),
        0 <= to < player.queue.len(),
    ensures
        player.moved(from, to).now_playing == player.now_playing,
        player.moved(from, to).queue.to_multiset() == player.queue.to_multiset(),
        player.moved(from, to).queue[to] == player.queue[from],
        player.moved(from, to).queue.remove(to) == player.queue.remove(from),
{
    let rest = player.queue.remove(from);
    let moved = player.moved(from, to).queue;
    assert(moved.remove(to) =~= rest);
    player.queue.to_multiset_ensures();
    moved.to_multiset_ensures();
    assert(moved.to_multiset() =~= player.queue.to_multiset()) by {
        let track = player.queue[from];
        assert(player.queue.to_multiset() =~= rest.to_multiset().insert(track));
        assert(moved.to_multiset() =~= rest.to_multiset().insert(track));
    }
}

/// Moving an entry and moving it back restores the player.
pub proof fn law_move_is_undone_by_its_reverse(player: PlayerState, from: int, to: int)
    requires
        0 <= from < player.queue.len(),
        0 <= to < player.queue.len(),
    ensures
        player.moved(from, to).moved(to, from) == player,
{
    assert(player.moved(from, to).queue.remove(to) =~= player.queue.remove(from));
    assert(player.moved(from, to).moved(to, from).queue =~= player.queue);
}

/// With the track loop, a track that plays to its end starts again and the
/// queue stays as it was.
pub proof fn law_track_loop_repeats(player: PlayerState, id: TrackId)
    requires
        player.is_current(id),
        player.loop_mode is Track,
    ensures
        player.completed(id).started() == player,
{
    assert((seq![player.now_playing->0] + player.queue).drop_first() =~= player.queue);
}

/// With the queue loop, a track that plays to its end goes behind every queued
/// track, and the player keeps every track it held.
pub proof fn law_queue_loop_cycles(player: PlayerState, id: TrackId)
    requires
        player.is_current(id),
        player.loop_mode is Queue,
    ensures
        player.completed(id).now_playing is None,
        player.completed(id).queue == player.all_tracks().drop_first().push(
            player.all_tracks()[0],
        ),
        player.completed(id).all_tracks().to_multiset() == player.all_tracks().to_multiset(),
{
    let all = player.all_tracks();
    let track = player.now_playing->0;
    assert(all.drop_first() =~= player.queue);
    assert(all =~= seq![track] + player.queue);
    player.queue.to_multiset_ensures();
    all.to_multiset_ensures();
    assert(all.remove(0) =~= player.queue);
    assert(player.queue.push(track).to_multiset() =~= player.queue.to_multiset().insert(track));
    assert(all.to_multiset() =~= player.queue.to_multiset().insert(track));
}

/// Without a loop, a track that plays to its end is gone and the rest stays.
pub proof fn law_no_loop_drops_the_track(player: PlayerState, id: TrackId)
    requires
        player.is_current(id),
        player.loop_mode is Off,
    ensures
        player.completed(id) == player.finished(id),
        player.completed(id).all_tracks() == player.all_tracks().drop_first(),
{
    assert(player.all_tracks().drop_first() =~= player.queue);
}

/// The identifier handed out `n` allocations after `last`.
pub open spec fn nth_id(last: u64, n: nat) -> u64
    decreases n,
{
    if n == 0 {
        last
    } else {
        following_id(nth_id(last, (n - 1) as nat))
    }
}

proof fn lemma_nth_id(last: u64, n: nat)
    requires
        n <= u64::MAX,
    ensures
        nth_id(last, n) == if last + n <= u64::MAX {
            last + n
        } else {
            last + n - u64::MAX
        },
    decreases n,
{
    if n > 0 {
        lemma_nth_id(last, (n - 1) as nat);
    }
}

/// Identifiers are never zero, and no identifier comes again within as many
/// allocations as there are identifiers.
pub proof fn law_track_ids_are_fresh(last: u64, i: nat, j: nat)
    requires
        0 < i < j <= u64::MAX,
    ensures
        nth_id(last, i) != 0,
        nth_id(last, j) != 0,
        nth_id(last, i) != nth_id(last, j),
{
    lemma_nth_id(last, i);
    lemma_nth_id(last, j);
}

/// A track that joins the queue stands behind every queued track, and nothing
/// else changes.
pub proof fn law_enqueued_track_is_last(player: PlayerState, track: Track)
    ensures
        player.enqueued(track).queue.len() == player.queue.len() + 1,
        player.enqueued(track).queue.last() == track,
        player.enqueued(track).queue.drop_last() == player.queue,
        player.enqueued(track).now_playing == player.now_playing,
        player.enqueued(track).loop_mode == player.loop_mode,
{
    assert(player.enqueued(track).queue.drop_last() =~= player.queue);
}

/// Removing an entry closes the gap: what stood before it stays where it was,
/// what stood behind it moves up by one, and nothing else changes.
pub proof fn law_removed_entry_leaves_no_gap(player: PlayerState, index: int, i: int)
    requires
        0 <= index < player.queue.len(),
        0 <= i < player.queue.len() - 1,
    ensures
        player.removed(index).queue.len() == player.queue.len() - 1,
        i < index ==> player.removed(index).queue[i] == player.queue[i],
        i >= index ==> player.removed(index).queue[i] == player.queue[i + 1],
        player.removed(index).now_playing == player.now_playing,
        player.removed(index).loop_mode == player.loop_mode,
{
}

/// A moved entry stands where it was asked to, and the entries between its old
/// and its new place move by one towards the old one.
pub proof fn law_moved_entry_shifts_those_between(player: PlayerState, from: int, to: int, i: int)
    requires
        0 <= from < player.queue.len(),
        0 <= to < player.queue.len(),
        0 <= i < player.queue.len(),
    ensures
        player.moved(from, to).queue.len() == player.queue.len(),
        player.moved(from, to).queue[i] == if i == to {
            player.queue[from]
        } else if from <= i < to {
            player.queue[i + 1]
        } else if to < i <= from {
            player.queue[i - 1]
        } else {
            player.queue[i]
        },
        player.moved(from, to).loop_mode == player.loop_mode,
{
}

/// The first queued track starts exactly when nothing plays, and leaves the
/// queue then. While a track plays, or nothing is queued, nothing changes.
pub proof fn law_first_queued_track_starts(player: PlayerState)
    ensures
        player.now_playing is None && player.queue.len() > 0 ==> player.started().now_playing
            == Some(player.queue[0]) && player.started().queue == player.queue.skip(1),
        player.now_playing is Some || player.queue.len() == 0 ==> player.started() == player,
        player.can_start() <==> player.now_playing is None && player.queue.len() > 0,
{
    if player.queue.len() > 0 {
        assert(player.queue.skip(1) =~= player.queue.drop_first());
    }
}

/// A track that is taken out leaves the queue and the loop mode as they were,
/// whatever the loop mode. Which track is current goes by the identifier.
pub proof fn law_finished_track_leaves_the_rest(player: PlayerState, id: TrackId)
    ensures
        player.is_current(id) <==> player.now_playing is Some && player.now_playing->0.id == id,
        player.is_current(id) ==> player.finished(id).now_playing is None,
        player.finished(id).queue == player.queue,
        player.finished(id).loop_mode == player.loop_mode,
        player.completed(id).loop_mode == player.loop_mode,
        PlayerState::idle().now_playing is None,
        PlayerState::idle().queue.len() == 0,
        PlayerState::idle().loop_mode == LoopMode::Off,
{
}

/// Each operation on one guild's player leaves every other guild's as it was.
pub proof fn law_other_guilds_are_left_alone(
    before: &PlayerManager,
    after: &PlayerManager,
    guild_id: GuildId,
    other: GuildId,
)
    requires
        after.same_elsewhere(before, guild_id),
        other != guild_id,
    ensures
        after.player(other).now_playing == before.player(other).now_playing,
        after.player(other).queue == before.player(other).queue,
        after.player(other).loop_mode == before.player(other).loop_mode,
{
}

/// A track that is queued is told its position, behind all that wait, and a
/// track that is started is handed out.
pub proof fn law_queued_and_started_tracks_are_handed_out(
    queueing: &mut PlayerManager,
    starting: &mut PlayerManager,
    guild_id: GuildId,
    track: Track,
    position: usize,
    started: Option<Track>,
)
    requires
        call_ensures(PlayerManager::enqueue, (queueing, guild_id, track), position),
        call_ensures(PlayerManager::start_next, (starting, guild_id), started),
    ensures
        ({
            let before = old(queueing).player(guild_id);
            let after = final(queueing).player(guild_id);
            &&& after.queue == before.queue + seq![track]
            &&& position == after.queue.len()
            &&& after.now_playing == before.now_playing
        }),
        ({
            let before = old(starting).player(guild_id);
            let after = final(starting).player(guild_id);
            if before.now_playing is None && before.queue.len() > 0 {
                &&& started == Some(before.queue[0])
                &&& after.now_playing == started
                &&& after.queue == before.queue.skip(1)
            } else {
                started is None && after == before
            }
        }),
{
    let before = old(queueing).player(guild_id);
    assert(final(queueing).player(guild_id).queue =~= before.queue + seq![track]);
    law_first_queued_track_starts(old(starting).player(guild_id));
}

/// The current track is taken out only by its own identifier, which is told;
/// the queue is not touched then. A player that is cleared hands out all that
/// it held.
pub proof fn law_only_the_named_track_is_taken_out(
    finishing: &mut PlayerManager,
    clearing: &mut PlayerManager,
    guild_id: GuildId,
    track_id: TrackId,
    matched: bool,
    removed: PlayerSnapshot,
)
    requires
        call_ensures(PlayerManager::finish_current, (finishing, guild_id, track_id), matched),
        call_ensures(PlayerManager::clear, (clearing, guild_id), removed),
    ensures
        ({
            let before = old(finishing).player(guild_id);
            let after = final(finishing).player(guild_id);
            &&& matched <==> before.now_playing is Some && before.now_playing->0.id == track_id
            &&& after.queue == before.queue
            &&& after.loop_mode == before.loop_mode
            &&& matched ==> after.now_playing is None
            &&& !matched ==> after.now_playing == before.now_playing
        }),
        ({
            let before = old(clearing).player(guild_id);
            let after = final(clearing).player(guild_id);
            &&& removed.now_playing == before.now_playing
            &&& removed.queue@ == before.queue
            &&& after.now_playing is None && after.queue.len() == 0
            &&& after.loop_mode == LoopMode::Off
        }),
{
}

} // verus!
