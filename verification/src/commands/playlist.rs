//! `/playlist`: resolve a bounded playlist, join the invoker's channel, queue
//! the tracks and wake the voice worker.

use vstd::prelude::*;
use vstd::string::*;

use super::{channel_text, require_member};
use crate::commands;
use crate::gateway_control::{
    Answer, GatewayControl, JoinFailure, PlaybackAction, PlaybackControlResult, VoiceJoinResult,
};
use crate::ids::{ChannelId, GuildId, UserId};
use crate::media::resolver::{ResolveError, MAX_PLAYLIST_ITEMS};
use crate::media::track::{RequestedBy, ResolvedTrack, Track, TrackId, TrackRequest};
use crate::media::ytdlp;
use crate::player;
use crate::player::{PlayerManager, PlayerState};
use crate::text;
use crate::text::{push_decimal, trim};

verus! {

/// How many tracks a playlist submission queues where nothing else is said.
pub const DEFAULT_PLAYLIST_ITEMS: i64 = 10;

/// How many tracks are asked for: between one and the most that one
/// submission queues.
pub open spec fn limit_of(limit: Option<i64>) -> Option<usize> {
    let wanted = match limit {
        Some(limit) => limit,
        None => DEFAULT_PLAYLIST_ITEMS,
    };
    if 1 <= wanted <= MAX_PLAYLIST_ITEMS {
        Some(wanted as usize)
    } else {
        None
    }
}

/// How many tracks are asked for.
pub fn playlist_limit(limit: Option<i64>) -> (result: Option<usize>)
    ensures
        result == limit_of(limit),
{
    let limit: i64 = match limit {
        Some(limit) => limit,
        None => DEFAULT_PLAYLIST_ITEMS,
    };
    if 1 <= limit && limit <= MAX_PLAYLIST_ITEMS as i64 {
        Some(limit as usize)
    } else {
        None
    }
}

/// Whether a submission, white space aside, begins like a web address.
pub fn is_http_url(value: &str) -> (result: bool)
    ensures
        result == ytdlp::begins_like_url(text::trimmed(value@)),
{
    ytdlp::is_http_url(trim(value))
}

/// `/playlist` with a submission to resolve.
#[derive(Debug)]
pub struct PlaylistRequest {
    pub guild_id: GuildId,
    pub user_id: UserId,
    pub request: TrackRequest,
    pub limit: usize,
}

/// `/playlist` with a channel to join.
#[derive(Debug)]
pub struct PlaylistJoin {
    pub guild_id: GuildId,
    pub user_id: UserId,
    pub channel_id: ChannelId,
    pub request: TrackRequest,
    pub resolved: Vec<ResolvedTrack>,
}

/// `/playlist` with queued tracks and a voice worker to wake.
#[derive(Debug)]
pub struct PlaylistWake {
    pub guild_id: GuildId,
    pub channel_id: ChannelId,
    pub added: usize,
    pub first_position: usize,
}

/// Why `/playlist` does not begin.
pub open spec fn begin_refusal(
    guild_id: Option<GuildId>,
    user_id: Option<UserId>,
    channel_id: Option<ChannelId>,
    url: Seq<char>,
    limit: Option<i64>,
) -> Option<Seq<char>> {
    match commands::refusal(guild_id, user_id) {
        Some(reply) => Some(reply),
        None => if channel_id is None {
            Some("Join a voice channel first, then run `/playlist`."@)
        } else if !ytdlp::begins_like_url(text::trimmed(url)) {
            Some("`/playlist` requires an HTTP or HTTPS playlist URL."@)
        } else if limit_of(limit) is None {
            Some("Playlist limit must be between 1 and 25 tracks."@)
        } else {
            None
        },
    }
}

/// Begins `/playlist`: the submission is to be resolved.
pub fn playlist(
    guild_id: Option<GuildId>,
    user_id: Option<UserId>,
    channel_id: Option<ChannelId>,
    url: String,
    limit: Option<i64>,
) -> (result: Result<PlaylistRequest, String>)
    ensures
        match result {
            Ok(next) => begin_refusal(guild_id, user_id, channel_id, url@, limit) is None
                && guild_id == Some(next.guild_id) && user_id == Some(next.user_id)
                && next.request@ == url@ && limit_of(limit) == Some(next.limit),
            Err(reply) => begin_refusal(guild_id, user_id, channel_id, url@, limit) == Some(
                reply@,
            ),
        },
{
    let (guild_id, user_id) = match require_member(guild_id, user_id) {
        Ok(member) => member,
        Err(reply) => {
            return Err(reply);
        },
    };
    if channel_id.is_none() {
        return Err("Join a voice channel first, then run `/playlist`.".to_owned());
    }
    if !is_http_url(url.as_str()) {
        return Err("`/playlist` requires an HTTP or HTTPS playlist URL.".to_owned());
    }
    let limit: usize = match playlist_limit(limit) {
        Some(limit) => limit,
        None => {
            return Err("Playlist limit must be between 1 and 25 tracks.".to_owned());
        },
    };
    proof {
        reveal_strlit("https://");
        reveal_strlit("http://");
    }
    Ok(PlaylistRequest { guild_id, user_id, request: TrackRequest::of_text(url), limit })
}

/// Why `/playlist` ends once the submission was resolved.
pub open spec fn resolve_refusal(
    outcome: Result<Vec<ResolvedTrack>, ResolveError>,
    channel_id: Option<ChannelId>,
) -> Option<Seq<char>> {
    match outcome {
        Err(error) => Some("I could not resolve that playlist: "@ + error.message()),
        Ok(resolved) => if resolved@.len() == 0 {
            Some("That playlist did not contain any playable tracks."@)
        } else if channel_id is None {
            Some("You left voice while I was resolving that playlist."@)
        } else {
            None
        },
    }
}

impl PlaylistRequest {
    /// Takes how the resolution went, and in which channel the invoker is now:
    /// that channel is to be joined.
    pub fn resolved(
        self,
        outcome: Result<Vec<ResolvedTrack>, ResolveError>,
        channel_id: Option<ChannelId>,
    ) -> (result: Result<PlaylistJoin, String>)
        ensures
            match result {
                Ok(next) => resolve_refusal(outcome, channel_id) is None && next.guild_id
                    == self.guild_id && next.user_id == self.user_id && Some(next.channel_id)
                    == channel_id && next.request == self.request && Ok::<
                    Vec<ResolvedTrack>,
                    ResolveError,
                >(next.resolved) == outcome,
                Err(reply) => resolve_refusal(outcome, channel_id) == Some(reply@),
            },
    {
        match outcome {
            Err(error) => Err(
                "I could not resolve that playlist: ".to_owned().concat(error.text().as_str()),
            ),
            Ok(resolved) => {
                if resolved.len() == 0 {
                    return Err("That playlist did not contain any playable tracks.".to_owned());
                }
                match channel_id {
                    None => Err("You left voice while I was resolving that playlist.".to_owned()),
                    Some(channel_id) => Ok(
                        PlaylistJoin {
                            guild_id: self.guild_id,
                            user_id: self.user_id,
                            channel_id,
                            request: self.request,
                            resolved,
                        },
                    ),
                }
            },
        }
    }
}

/// Why `/playlist` ends once voice was to be joined.
pub open spec fn join_refusal(result: VoiceJoinResult, wanted: ChannelId) -> Option<Seq<char>> {
    match result {
        VoiceJoinResult::Joined { .. } => None,
        VoiceJoinResult::AlreadyConnected { channel_id } => if channel_id == wanted {
            None
        } else {
            Some(
                commands::about_channel(
                    "I am already connected to <#"@,
                    channel_id,
                    ">. Join that channel to add a playlist."@,
                ),
            )
        },
        VoiceJoinResult::InProgress { channel_id } => Some(
            commands::about_channel(
                "A voice join for <#"@,
                channel_id,
                "> is already in progress. Try again once it connects."@,
            ),
        ),
        VoiceJoinResult::Cancelled => Some("The voice join was cancelled."@),
        VoiceJoinResult::Failed(failure) => Some(failure.message()),
    }
}

fn refuse_join(result: VoiceJoinResult, wanted: ChannelId) -> (reply: Option<String>)
    ensures
        match reply {
            Some(text) => join_refusal(result, wanted) == Some(text@),
            None => join_refusal(result, wanted) is None,
        },
{
    match result {
        VoiceJoinResult::Joined { .. } => None,
        VoiceJoinResult::AlreadyConnected { channel_id } => {
            if channel_id == wanted {
                None
            } else {
                Some(
                    channel_text(
                        "I am already connected to <#",
                        channel_id,
                        ">. Join that channel to add a playlist.",
                    ),
                )
            }
        },
        VoiceJoinResult::InProgress { channel_id } => Some(
            channel_text(
                "A voice join for <#",
                channel_id,
                "> is already in progress. Try again once it connects.",
            ),
        ),
        VoiceJoinResult::Cancelled => Some("The voice join was cancelled.".to_owned()),
        VoiceJoinResult::Failed(failure) => Some(failure.text()),
    }
}

/// The text under which a playlist's track is queued: its public address, or
/// the playlist's where it has none.
pub open spec fn item_text(track: ResolvedTrack, playlist: Seq<char>) -> Seq<char> {
    if text::trimmed(track.metadata.webpage_url@).len() > 0 {
        track.metadata.webpage_url@
    } else {
        playlist
    }
}

/// A queue entry is a resolved track, queued for a user under an identifier.
pub open spec fn is_item(
    entry: Track,
    resolved: ResolvedTrack,
    user_id: UserId,
    playlist: Seq<char>,
    id: u64,
) -> bool {
    &&& entry.id == TrackId(id)
    &&& entry.request@ == item_text(resolved, playlist)
    &&& entry.source == resolved.source
    &&& entry.requested_by.user_id == user_id
    &&& entry.metadata == resolved.metadata
    &&& entry.locator == resolved.locator
}

/// A player after some resolved tracks have joined the end of its queue.
pub open spec fn is_extended(
    after: PlayerState,
    before: PlayerState,
    resolved: Seq<ResolvedTrack>,
    user_id: UserId,
    playlist: Seq<char>,
    last_id: u64,
) -> bool {
    &&& after.now_playing == before.now_playing
    &&& after.loop_mode == before.loop_mode
    &&& after.queue.len() == before.queue.len() + resolved.len()
    &&& forall|i: int| 0 <= i < before.queue.len() ==> #[trigger] after.queue[i] == before.queue[i]
    &&& forall|i: int|
        0 <= i < resolved.len() ==> is_item(
            after.queue[before.queue.len() + i],
            #[trigger] resolved[i],
            user_id,
            playlist,
            player::nth_id(last_id, (i + 1) as nat),
        )
}

impl PlaylistJoin {
    /// The request to join the invoker's channel.
    pub fn control(&self) -> (control: GatewayControl)
        ensures
            control == (GatewayControl::JoinVoice {
                guild_id: self.guild_id,
                channel_id: self.channel_id,
            }),
    {
        GatewayControl::JoinVoice { guild_id: self.guild_id, channel_id: self.channel_id }
    }

    /// Takes how joining voice went: the tracks are queued in order, and the
    /// voice worker is to be woken. A command that ends here has queued
    /// nothing.
    pub fn joined(
        self,
        answer: Answer<VoiceJoinResult>,
        players: &mut PlayerManager,
    ) -> (result: Result<PlaylistWake, String>)
        ensures
            ({
                let refused = join_refusal(answer.joined(JoinFailure::JoinEnded), self.channel_id);
                let before = old(players).player(self.guild_id);
                match result {
                    Ok(next) => {
                        &&& refused is None
                        &&& next.guild_id == self.guild_id
                        &&& next.channel_id == self.channel_id
                        &&& next.added == self.resolved@.len()
                        &&& next.first_position == if self.resolved@.len() > 0 {
                            before.queue.len() + 1
                        } else {
                            1
                        }
                        &&& is_extended(
                            final(players).player(self.guild_id),
                            before,
                            self.resolved@,
                            self.user_id,
                            self.request@,
                            old(players).last_track_id(),
                        )
                        &&& final(players).same_elsewhere(old(players), self.guild_id)
                        &&& final(players).last_track_id() == player::nth_id(
                            old(players).last_track_id(),
                            self.resolved@.len(),
                        )
                    },
                    Err(reply) => refused == Some(reply@) && *final(players) == *old(players),
                }
            }),
    {
        let result: VoiceJoinResult = answer.join_result(JoinFailure::JoinEnded);
        if let Some(reply) = refuse_join(result, self.channel_id) {
            return Err(reply);
        }
        let added: usize = self.resolved.len();
        let mut first_position: usize = 1;
        let mut i: usize = 0;
        let ghost start = old(players).player(self.guild_id);
        while i < self.resolved.len()
            invariant
                i <= self.resolved@.len(),
                start == old(players).player(self.guild_id),
                first_position == if i > 0 {
                    start.queue.len() + 1
                } else {
                    1
                },
                is_extended(
                    players.player(self.guild_id),
                    start,
                    self.resolved@.take(i as int),
                    self.user_id,
                    self.request@,
                    old(players).last_track_id(),
                ),
                players.same_elsewhere(old(players), self.guild_id),
                players.last_track_id() == player::nth_id(old(players).last_track_id(), i as nat),
            decreases self.resolved@.len() - i,
        {
            let ghost before = players.player(self.guild_id);
            let track: ResolvedTrack = self.resolved[i].clone();
            let request: TrackRequest = match TrackRequest::new(
                track.metadata.webpage_url.clone(),
            ) {
                Ok(request) => request,
                Err(_) => self.request.clone(),
            };
            let (_, position) = players.enqueue_resolved(
                self.guild_id,
                request,
                RequestedBy::new(self.user_id),
                track,
            );
            if i == 0 {
                first_position = position;
            }
            proof {
                let done = self.resolved@.take(i + 1);
                let after = players.player(self.guild_id);
                assert forall|k: int| 0 <= k < done.len() implies is_item(
                    after.queue[start.queue.len() + k],
                    #[trigger] done[k],
                    self.user_id,
                    self.request@,
                    player::nth_id(old(players).last_track_id(), (k + 1) as nat),
                ) by {
                    if k < i {
                        assert(self.resolved@.take(i as int)[k] == done[k]);
                        assert(after.queue[start.queue.len() + k] == before.queue[start.queue.len()
                            + k]);
                    } else {
                        assert(after.queue[start.queue.len() + k] == after.queue.last());
                    }
                }
            }
            i += 1;
        }
        assert(self.resolved@.take(i as int) =~= self.resolved@);
        Ok(
            PlaylistWake {
                guild_id: self.guild_id,
                channel_id: self.channel_id,
                added,
                first_position,
            },
        )
    }
}

impl PlaylistWake {
    /// The request to wake the voice worker.
    pub fn control(&self) -> (control: GatewayControl)
        ensures
            control == (GatewayControl::Playback {
                guild_id: self.guild_id,
                channel_id: self.channel_id,
                action: PlaybackAction::Wake,
            }),
    {
        GatewayControl::Playback {
            guild_id: self.guild_id,
            channel_id: self.channel_id,
            action: PlaybackAction::Wake,
        }
    }

    /// How `/playlist` is answered.
    pub open spec fn answer(self, result: PlaybackControlResult) -> Seq<char> {
        match result {
            PlaybackControlResult::Accepted => "Added **"@ + text::decimal(self.added as nat)
                + "** track"@ + (if self.added == 1 {
                ""@
            } else {
                "s"@
            }) + " from the playlist; first queue position was **"@ + text::decimal(
                self.first_position as nat,
            ) + "**."@,
            PlaybackControlResult::NotConnected =>
                "The playlist was queued, but the voice worker disconnected before playback started."@,
            PlaybackControlResult::WrongVoiceChannel { channel_id } => commands::about_channel(
                "The playlist was queued, but I am connected to <#"@,
                channel_id,
                ">."@,
            ),
            PlaybackControlResult::NothingPlaying =>
                "The playlist was queued, but the player did not start it."@,
            PlaybackControlResult::AlreadyPaused | PlaybackControlResult::AlreadyPlaying =>
                "Added **"@ + text::decimal(self.added as nat)
                    + "** playlist tracks to the queue."@,
            PlaybackControlResult::Failed(failure) => failure.message(),
        }
    }

    /// Takes how waking the voice worker went and answers the command.
    pub fn woken(self, answer: Answer<PlaybackControlResult>) -> (reply: String)
        ensures
            reply@ == self.answer(answer.outcome()),
    {
        match answer.playback_result() {
            PlaybackControlResult::Accepted => {
                let mut reply: String = "Added **".to_owned();
                push_decimal(&mut reply, self.added as u64);
                reply.append("** track");
                if self.added == 1 {
                    reply.append("");
                } else {
                    reply.append("s");
                }
                reply.append(" from the playlist; first queue position was **");
                push_decimal(&mut reply, self.first_position as u64);
                reply.append("**.");
                reply
            },
            PlaybackControlResult::NotConnected => {
                "The playlist was queued, but the voice worker disconnected before playback started.".to_owned()
            },
            PlaybackControlResult::WrongVoiceChannel { channel_id } => channel_text(
                "The playlist was queued, but I am connected to <#",
                channel_id,
                ">.",
            ),
            PlaybackControlResult::NothingPlaying => {
                "The playlist was queued, but the player did not start it.".to_owned()
            },
            PlaybackControlResult::AlreadyPaused | PlaybackControlResult::AlreadyPlaying => {
                let mut reply: String = "Added **".to_owned();
                push_decimal(&mut reply, self.added as u64);
                reply.append("** playlist tracks to the queue.");
                reply
            },
            PlaybackControlResult::Failed(failure) => failure.text(),
        }
    }
}

/// The tracks of a playlist join the queue behind what was there, in their
/// order, each asked for by the user: under its own page, or under the
/// playlist's address if it has none. The current track plays on.
pub proof fn law_playlist_is_queued_in_order(
    after: PlayerState,
    before: PlayerState,
    resolved: Seq<ResolvedTrack>,
    user_id: UserId,
    address: Seq<char>,
    last_id: u64,
    i: int,
)
    requires
        is_extended(after, before, resolved, user_id, address, last_id),
        0 <= i < resolved.len(),
    ensures
        after.now_playing == before.now_playing,
        after.loop_mode == before.loop_mode,
        after.queue.len() == before.queue.len() + resolved.len(),
        after.queue.take(before.queue.len() as int) == before.queue,
        after.queue[before.queue.len() + i].metadata == resolved[i].metadata,
        after.queue[before.queue.len() + i].locator == resolved[i].locator,
        after.queue[before.queue.len() + i].source == resolved[i].source,
        after.queue[before.queue.len() + i].requested_by.user_id == user_id,
        text::laws::is_blank(resolved[i].metadata.webpage_url@) ==> after.queue[before.queue.len()
            + i].request@ == address,
        !text::laws::is_blank(resolved[i].metadata.webpage_url@) ==> after.queue[before.queue.len()
            + i].request@ == resolved[i].metadata.webpage_url@,
        i > 0 && resolved.len() <= u64::MAX ==> after.queue[before.queue.len() + i].id
            != after.queue[before.queue.len() + i - 1].id,
{
    assert(after.queue.take(before.queue.len() as int) =~= before.queue);
    let entry = after.queue[before.queue.len() + i];
    assert(is_item(entry, resolved[i], user_id, address, player::nth_id(last_id, (i + 1) as nat)));
    text::laws::law_trimmed_has_no_white_space_around(resolved[i].metadata.webpage_url@);
    if i > 0 {
        let earlier = after.queue[before.queue.len() + (i - 1)];
        assert(is_item(
            earlier,
            resolved[i - 1],
            user_id,
            address,
            player::nth_id(last_id, i as nat),
        ));
        if resolved.len() <= u64::MAX {
            player::law_track_ids_are_fresh(last_id, i as nat, (i + 1) as nat);
        }
    }
}

} // verus!
