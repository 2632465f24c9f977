//! `/play`, `/skip`, `/queue` and `/nowplaying` for voice workers that own
//! their queue.

use std::time::Duration;

use vstd::prelude::*;
use vstd::string::*;

use super::{channel_text, require_guild, require_member};
use crate::clock;
use crate::commands;
use crate::gateway_control::{Answer, JoinFailure, VoiceJoinResult};
use crate::ids::{ChannelId, GuildId, UserId};
use crate::media::resolver::ResolveError;
use crate::media::track::{RequestedBy, ResolvedTrack, Track, TrackId, TrackRequest};
use crate::number;
use crate::number::format_clock;
use crate::text;
use crate::text::{chars_of, push_decimal};
use crate::voice_worker::{
    PlaybackState, PublishedPlayback, SkipTrackResult, TrackEnqueueResult,
};

verus! {

/// How many queued tracks are listed.
pub const QUEUE_PREVIEW_LIMIT: usize = 10;

/// How many bytes the listing may take.
pub const QUEUE_CONTENT_LIMIT: usize = 1_800;

/// `/play` with a submission to resolve.
#[derive(Debug)]
pub struct MusicRequest {
    pub guild_id: GuildId,
    pub user_id: UserId,
    pub channel_id: ChannelId,
    pub request: TrackRequest,
}

/// `/play` with a channel to join.
#[derive(Debug)]
pub struct MusicJoin {
    pub guild_id: GuildId,
    pub channel_id: ChannelId,
    pub track: Track,
}

/// Why `/play` does not begin.
pub open spec fn begin_refusal(
    guild_id: Option<GuildId>,
    user_id: Option<UserId>,
    channel_id: Option<ChannelId>,
    query: Seq<char>,
) -> Option<Seq<char>> {
    match commands::refusal(guild_id, user_id) {
        Some(reply) => Some(reply),
        None => if channel_id is None {
            Some("Join a voice channel first, then run `/play`."@)
        } else if text::trimmed(query).len() == 0 {
            Some("track request cannot be empty"@)
        } else {
            None
        },
    }
}

/// Begins `/play`: the submission is to be resolved.
pub fn play(
    guild_id: Option<GuildId>,
    user_id: Option<UserId>,
    channel_id: Option<ChannelId>,
    query: String,
) -> (result: Result<MusicRequest, String>)
    ensures
        match result {
            Ok(next) => begin_refusal(guild_id, user_id, channel_id, query@) is None && guild_id
                == Some(next.guild_id) && user_id == Some(next.user_id) && channel_id == Some(
                next.channel_id,
            ) && next.request@ == query@,
            Err(reply) => begin_refusal(guild_id, user_id, channel_id, query@) == Some(reply@),
        },
{
    let (guild_id, user_id) = match require_member(guild_id, user_id) {
        Ok(member) => member,
        Err(reply) => {
            return Err(reply);
        },
    };
    let channel_id: ChannelId = match channel_id {
        Some(channel_id) => channel_id,
        None => {
            return Err("Join a voice channel first, then run `/play`.".to_owned());
        },
    };
    match TrackRequest::new(query) {
        Ok(request) => Ok(MusicRequest { guild_id, user_id, channel_id, request }),
        Err(message) => Err(message.to_owned()),
    }
}

impl MusicRequest {
    /// Takes how the resolution went and the identifier of the new track: the
    /// channel is to be joined.
    pub fn resolved(self, outcome: Result<ResolvedTrack, ResolveError>, id: TrackId) -> (result: Result<
        MusicJoin,
        String,
    >)
        ensures
            match outcome {
                Ok(resolved) => result == Ok::<MusicJoin, String>(
                    MusicJoin {
                        guild_id: self.guild_id,
                        channel_id: self.channel_id,
                        track: Track {
                            id,
                            request: self.request,
                            source: resolved.source,
                            requested_by: RequestedBy { user_id: self.user_id },
                            metadata: resolved.metadata,
                            locator: resolved.locator,
                        },
                    },
                ),
                Err(error) => result is Err && result->Err_0@ == "I couldn't resolve that track: "@
                    + error.message(),
            },
    {
        match outcome {
            Err(error) => Err("I couldn't resolve that track: ".to_owned().concat(error.text().as_str())),
            Ok(resolved) => Ok(
                MusicJoin {
                    guild_id: self.guild_id,
                    channel_id: self.channel_id,
                    track: Track::from_resolved(
                        id,
                        self.request,
                        RequestedBy::new(self.user_id),
                        resolved,
                    ),
                },
            ),
        }
    }
}

/// Why a channel other than the one asked for is of no use.
pub open spec fn elsewhere(connected: ChannelId, requested: ChannelId) -> Option<Seq<char>> {
    if connected == requested {
        None
    } else {
        Some(
            commands::about_channel(
                "I'm already active in <#"@,
                connected,
                ">. Join that channel to control playback."@,
            ),
        )
    }
}

/// Accepts the channel that was asked for and no other.
pub fn joined_channel_result(connected: ChannelId, requested: ChannelId) -> (result: Result<
    (),
    String,
>)
    ensures
        match result {
            Ok(_) => elsewhere(connected, requested) is None,
            Err(reply) => elsewhere(connected, requested) == Some(reply@),
        },
{
    if connected == requested {
        Ok(())
    } else {
        Err(
            channel_text(
                "I'm already active in <#",
                connected,
                ">. Join that channel to control playback.",
            ),
        )
    }
}

/// Why `/play` ends once voice was to be joined.
pub open spec fn join_refusal(result: VoiceJoinResult, requested: ChannelId) -> Option<Seq<char>> {
    match result {
        VoiceJoinResult::Joined { channel_id } => elsewhere(channel_id, requested),
        VoiceJoinResult::AlreadyConnected { channel_id } => elsewhere(channel_id, requested),
        VoiceJoinResult::InProgress { channel_id } => Some(
            commands::about_channel(
                "A voice connection to <#"@,
                channel_id,
                "> is already starting. Try `/play` again once it connects."@,
            ),
        ),
        VoiceJoinResult::Cancelled => Some("The voice join was cancelled."@),
        VoiceJoinResult::Failed(failure) => Some(failure.message()),
    }
}

/// Judges how joining voice went.
pub fn ensure_voice(answer: Answer<VoiceJoinResult>, requested: ChannelId) -> (result: Result<
    (),
    String,
>)
    ensures
        match result {
            Ok(_) => join_refusal(answer.joined(JoinFailure::JoinTaskEnded), requested) is None,
            Err(reply) => join_refusal(answer.joined(JoinFailure::JoinTaskEnded), requested)
                == Some(reply@),
        },
{
    match answer.join_result(JoinFailure::JoinTaskEnded) {
        VoiceJoinResult::Joined { channel_id } => joined_channel_result(channel_id, requested),
        VoiceJoinResult::AlreadyConnected { channel_id } => {
            joined_channel_result(channel_id, requested)
        },
        VoiceJoinResult::InProgress { channel_id } => Err(
            channel_text(
                "A voice connection to <#",
                channel_id,
                "> is already starting. Try `/play` again once it connects.",
            ),
        ),
        VoiceJoinResult::Cancelled => Err("The voice join was cancelled.".to_owned()),
        VoiceJoinResult::Failed(failure) => Err(failure.text()),
    }
}

/// How `/play` is answered.
pub open spec fn enqueue_answer(title: Seq<char>, answer: Answer<TrackEnqueueResult>) -> Seq<char> {
    match answer {
        Answer::Given(TrackEnqueueResult::Accepted { position }) => if position == 0 {
            "▶️ Loading **"@ + title + "**."@
        } else {
            "➕ Queued **"@ + title + "** at position **"@ + text::decimal(position as nat)
                + "**."@
        },
        Answer::Given(TrackEnqueueResult::NotConnected) =>
            "The voice session ended before I could queue the track."@,
        Answer::Given(TrackEnqueueResult::Failed(error)) => error@,
        Answer::Unavailable => "The Gateway control loop is unavailable."@,
        Answer::Ended => "The guild player ended before accepting the track."@,
    }
}

/// Answers `/play`.
pub fn enqueued(title: &str, answer: Answer<TrackEnqueueResult>) -> (reply: String)
    ensures
        reply@ == enqueue_answer(title@, answer),
{
    match answer {
        Answer::Given(TrackEnqueueResult::Accepted { position }) => {
            if position == 0 {
                let mut reply: String = "▶️ Loading **".to_owned();
                reply.append(title);
                reply.append("**.");
                reply
            } else {
                let mut reply: String = "➕ Queued **".to_owned();
                reply.append(title);
                reply.append("** at position **");
                push_decimal(&mut reply, position as u64);
                reply.append("**.");
                reply
            }
        },
        Answer::Given(TrackEnqueueResult::NotConnected) => {
            "The voice session ended before I could queue the track.".to_owned()
        },
        Answer::Given(TrackEnqueueResult::Failed(error)) => error,
        Answer::Unavailable => "The Gateway control loop is unavailable.".to_owned(),
        Answer::Ended => "The guild player ended before accepting the track.".to_owned(),
    }
}

/// How `/skip` is answered.
pub open spec fn skip_answer(answer: Answer<SkipTrackResult>) -> Seq<char> {
    match answer {
        Answer::Given(SkipTrackResult::Skipped { title }) => "⏭️ Skipped **"@ + title@ + "**."@,
        Answer::Given(SkipTrackResult::NothingPlaying) => "Nothing is playing right now."@,
        Answer::Given(SkipTrackResult::NotConnected) => "I'm not connected to voice here."@,
        Answer::Given(SkipTrackResult::Failed(error)) => error@,
        Answer::Unavailable => "The Gateway control loop is unavailable."@,
        Answer::Ended => "The guild player ended before returning a skip result."@,
    }
}

/// Answers `/skip`.
pub fn skipped(answer: Answer<SkipTrackResult>) -> (reply: String)
    ensures
        reply@ == skip_answer(answer),
{
    match answer {
        Answer::Given(SkipTrackResult::Skipped { title }) => {
            let mut reply: String = "⏭️ Skipped **".to_owned();
            reply.append(title.as_str());
            reply.append("**.");
            reply
        },
        Answer::Given(SkipTrackResult::NothingPlaying) => {
            "Nothing is playing right now.".to_owned()
        },
        Answer::Given(SkipTrackResult::NotConnected) => {
            "I'm not connected to voice here.".to_owned()
        },
        Answer::Given(SkipTrackResult::Failed(error)) => error,
        Answer::Unavailable => "The Gateway control loop is unavailable.".to_owned(),
        Answer::Ended => "The guild player ended before returning a skip result.".to_owned(),
    }
}

/// The name of a playback state.
pub open spec fn state_name(state: PlaybackState) -> Seq<char> {
    match state {
        PlaybackState::Idle => "idle"@,
        PlaybackState::Loading => "loading"@,
        PlaybackState::Playing => "playing"@,
    }
}

/// The name of a playback state.
pub fn playback_label(state: PlaybackState) -> (label: &'static str)
    ensures
        label@ == state_name(state),
{
    match state {
        PlaybackState::Idle => "idle",
        PlaybackState::Loading => "loading",
        PlaybackState::Playing => "playing",
    }
}

/// Renders a length as `M:SS`, or as `H:MM:SS` from an hour on.
pub fn format_duration(duration: Duration) -> (out: String)
    ensures
        out@ == number::clock_text(clock::whole_seconds(duration)),
{
    format_clock(duration.as_secs())
}

/// How many bytes a character takes in UTF-8.
pub open spec fn char_bytes(c: char) -> nat {
    if (c as u32) < 0x80 {
        1
    } else if (c as u32) < 0x800 {
        2
    } else if (c as u32) < 0x1_0000 {
        3
    } else {
        4
    }
}

/// How many bytes a text takes in UTF-8.
pub open spec fn byte_len(s: Seq<char>) -> nat
    decreases s.len(),
{
    if s.len() == 0 {
        0
    } else {
        byte_len(s.drop_last()) + char_bytes(s.last())
    }
}

proof fn lemma_byte_len_grows(s: Seq<char>, i: int, j: int)
    requires
        0 <= i <= j <= s.len(),
    ensures
        byte_len(s.take(i)) <= byte_len(s.take(j)),
    decreases j,
{
    if i < j {
        lemma_byte_len_grows(s, i, j - 1);
        assert(s.take(j).drop_last() =~= s.take(j - 1));
    }
}

proof fn lemma_byte_len_adds(a: Seq<char>, b: Seq<char>)
    ensures
        byte_len(a + b) == byte_len(a) + byte_len(b),
    decreases b.len(),
{
    if b.len() == 0 {
        assert(a + b =~= a);
    } else {
        lemma_byte_len_adds(a, b.drop_last());
        assert((a + b).drop_last() =~= a + b.drop_last());
    }
}

/// How many bytes a text takes, if they are no more than `limit`.
fn bytes_within(value: &str, limit: usize) -> (bytes: Option<usize>)
    requires
        limit <= QUEUE_CONTENT_LIMIT,
    ensures
        match bytes {
            Some(bytes) => bytes == byte_len(value@) && bytes <= limit,
            None => byte_len(value@) > limit,
        },
{
    let chars: Vec<char> = chars_of(value);
    let mut bytes: usize = 0;
    let mut i: usize = 0;
    assert(chars@.take(0) =~= Seq::empty());
    while i < chars.len()
        invariant
            i <= chars@.len(),
            chars@ == value@,
            bytes == byte_len(chars@.take(i as int)),
            bytes <= limit <= QUEUE_CONTENT_LIMIT,
        decreases chars@.len() - i,
    {
        assert(chars@.take(i + 1).drop_last() =~= chars@.take(i as int));
        let code: u32 = chars[i] as u32;
        let more: usize = if code < 0x80 {
            1
        } else if code < 0x800 {
            2
        } else if code < 0x1_0000 {
            3
        } else {
            4
        };
        bytes += more;
        i += 1;
        if bytes > limit {
            proof {
                lemma_byte_len_grows(chars@, i as int, chars@.len() as int);
                assert(chars@.take(chars@.len() as int) =~= value@);
            }
            return None;
        }
    }
    assert(chars@.take(i as int) =~= value@);
    Some(bytes)
}

/// One line of the listing.
pub open spec fn queue_line(number: nat, title: Seq<char>) -> Seq<char> {
    text::decimal(number) + ". "@ + title + "\n"@
}

/// `output` with the queued tracks from index `from` on, as far as they are
/// listed and fit; a mark stands where one does not fit.
pub open spec fn listing(output: Seq<char>, queue: Seq<Track>, from: nat) -> Seq<char>
    decreases queue.len() - from,
{
    if from >= queue.len() || from >= QUEUE_PREVIEW_LIMIT {
        output
    } else {
        let line = queue_line(from + 1, queue[from as int].metadata.title@);
        if byte_len(output) + byte_len(line) > QUEUE_CONTENT_LIMIT {
            output.push('…')
        } else {
            listing(output + line, queue, from + 1)
        }
    }
}

/// The reply to `/queue`.
pub open spec fn queue_text(state: PlaybackState, current: Option<Track>, queue: Seq<Track>) -> Seq<
    char,
> {
    let head = match current {
        Some(track) => "**Now "@ + state_name(state) + ":** "@ + track.metadata.title@ + "\n"@,
        None => "**Now:** idle\n"@,
    };
    if queue.len() == 0 {
        head + "\nThe queue is empty."@
    } else {
        listing(head + "\n**Up next:**\n"@, queue, 0) + (if queue.len() > QUEUE_PREVIEW_LIMIT {
            "…and "@ + text::decimal((queue.len() - QUEUE_PREVIEW_LIMIT) as nat) + " more."@
        } else {
            Seq::empty()
        })
    }
}

fn push_listing(output: &mut String, queue: &Vec<Track>)
    ensures
        final(output)@ == listing(old(output)@, queue@, 0),
{
    let mut used: usize = match bytes_within(output.as_str(), QUEUE_CONTENT_LIMIT) {
        Some(used) => used,
        None => {
            if queue.len() > 0 {
                output.push('…');
            }
            return ;
        },
    };
    let mut i: usize = 0;
    while i < queue.len() && i < QUEUE_PREVIEW_LIMIT
        invariant
            i <= queue@.len(),
            used == byte_len(output@),
            used <= QUEUE_CONTENT_LIMIT,
            listing(output@, queue@, i as nat) == listing(old(output)@, queue@, 0),
        decreases queue@.len() - i,
    {
        let mut line: String = String::new();
        push_decimal(&mut line, i as u64 + 1);
        line.append(". ");
        line.append(queue[i].metadata.title.as_str());
        line.append("\n");
        assert(line@ =~= queue_line((i + 1) as nat, queue@[i as int].metadata.title@));
        proof {
            lemma_byte_len_adds(output@, line@);
        }
        match bytes_within(line.as_str(), QUEUE_CONTENT_LIMIT - used) {
            Some(more) => {
                output.append(line.as_str());
                used += more;
            },
            None => {
                output.push('…');
                return ;
            },
        }
        i += 1;
    }
}

/// The reply to `/queue`.
pub fn render_queue(shown: &PublishedPlayback) -> (reply: String)
    ensures
        reply@ == queue_text(shown.state, shown.current, shown.queue@),
{
    let mut output: String = String::new();
    match &shown.current {
        Some(track) => {
            output.append("**Now ");
            output.append(playback_label(shown.state));
            output.append(":** ");
            output.append(track.metadata.title.as_str());
            output.append("\n");
            assert(output@ =~= "**Now "@ + state_name(shown.state) + ":** "@
                + track.metadata.title@ + "\n"@);
        },
        None => {
            output.append("**Now:** idle\n");
            assert(output@ =~= "**Now:** idle\n"@);
        },
    }
    if shown.queue.len() == 0 {
        output.append("\nThe queue is empty.");
        return output;
    }
    output.append("\n**Up next:**\n");
    push_listing(&mut output, &shown.queue);
    let ghost listed = output@;
    if shown.queue.len() > QUEUE_PREVIEW_LIMIT {
        output.append("…and ");
        push_decimal(&mut output, (shown.queue.len() - QUEUE_PREVIEW_LIMIT) as u64);
        output.append(" more.");
        assert(output@ =~= listed + ("…and "@ + text::decimal(
            (shown.queue@.len() - QUEUE_PREVIEW_LIMIT) as nat,
        ) + " more."@));
    } else {
        assert(output@ =~= listed + Seq::<char>::empty());
    }
    output
}

/// Answers `/queue`. `shown` is what the guild's worker shows, if it has one.
pub fn queue(guild_id: Option<GuildId>, shown: Option<&PublishedPlayback>) -> (reply: String)
    ensures
        reply@ == match (guild_id, shown) {
            (None, _) => "This command can only be used in a server."@,
            (Some(_), None) => "There is no active player in this server."@,
            (Some(_), Some(shown)) => queue_text(shown.state, shown.current, shown.queue@),
        },
{
    match require_guild(guild_id) {
        Err(reply) => reply,
        Ok(_) => match shown {
            None => "There is no active player in this server.".to_owned(),
            Some(shown) => render_queue(shown),
        },
    }
}

/// The reply to `/nowplaying` for a current track.
pub open spec fn track_text(state: PlaybackState, track: Track) -> Seq<char> {
    "🎵 **"@ + track.metadata.title@ + "**"@ + (match track.metadata.artist {
        Some(artist) => " — "@ + artist@,
        None => Seq::empty(),
    }) + "\nState: **"@ + state_name(state) + "** · Duration: **"@ + (
    match track.metadata.duration {
        Some(span) => number::clock_text(clock::whole_seconds(span)),
        None => "unknown duration"@,
    }) + "** · Requested by <@"@ + text::decimal(track.requested_by.user_id.0 as nat) + ">\n"@
        + track.metadata.webpage_url@
}

fn render_track(state: PlaybackState, track: &Track) -> (reply: String)
    ensures
        reply@ == track_text(state, *track),
{
    let mut reply: String = "🎵 **".to_owned();
    reply.append(track.metadata.title.as_str());
    reply.append("**");
    if let Some(artist) = &track.metadata.artist {
        reply.append(" — ");
        reply.append(artist.as_str());
    }
    reply.append("\nState: **");
    reply.append(playback_label(state));
    reply.append("** · Duration: **");
    match &track.metadata.duration {
        Some(span) => reply.append(format_duration(*span).as_str()),
        None => reply.append("unknown duration"),
    }
    reply.append("** · Requested by <@");
    push_decimal(&mut reply, track.requested_by.user_id.get());
    reply.append(">\n");
    reply.append(track.metadata.webpage_url.as_str());
    assert(reply@ =~= track_text(state, *track));
    reply
}

/// Answers `/nowplaying`. `shown` is what the guild's worker shows, if it has
/// one.
pub fn nowplaying(guild_id: Option<GuildId>, shown: Option<&PublishedPlayback>) -> (reply: String)
    ensures
        reply@ == match guild_id {
            None => "This command can only be used in a server."@,
            Some(_) => match shown {
                Some(shown) => match shown.current {
                    Some(track) => track_text(shown.state, track),
                    None => "Nothing is playing right now."@,
                },
                None => "Nothing is playing right now."@,
            },
        },
{
    match require_guild(guild_id) {
        Err(reply) => reply,
        Ok(_) => match shown {
            None => "Nothing is playing right now.".to_owned(),
            Some(shown) => match &shown.current {
                None => "Nothing is playing right now.".to_owned(),
                Some(track) => render_track(shown.state, track),
            },
        },
    }
}

/// A listing keeps to its limit, but for the mark that stands where a track
/// did not fit.
pub proof fn law_listing_keeps_to_the_limit(output: Seq<char>, queue: Seq<Track>, from: nat)
    requires
        byte_len(output) <= QUEUE_CONTENT_LIMIT,
    ensures
        byte_len(listing(output, queue, from)) <= QUEUE_CONTENT_LIMIT + 3,
    decreases queue.len() - from,
{
    if from < queue.len() && from < QUEUE_PREVIEW_LIMIT {
        let line = queue_line(from + 1, queue[from as int].metadata.title@);
        lemma_byte_len_adds(output, line);
        if byte_len(output) + byte_len(line) > QUEUE_CONTENT_LIMIT {
            assert(output.push('…').drop_last() =~= output);
        } else {
            law_listing_keeps_to_the_limit(output + line, queue, from + 1);
        }
    }
}

/// A text takes as many bytes as its encoding has.
pub proof fn law_bytes_are_those_of_the_encoding(s: Seq<char>)
    ensures
        byte_len(s) == text::byte_len(s),
    decreases s.len(),
{
    if s.len() == 0 {
        assert(text::byte_len(s) == 0);
    } else {
        let c = s.last();
        law_bytes_are_those_of_the_encoding(s.drop_last());
        assert(s =~= s.drop_last() + seq![c]);
        text::lemma_byte_len_concat(s.drop_last(), seq![c]);
        text::lemma_byte_len_char(c);
        let code = c as u32;
        assert(!(0xD800 <= code <= 0xDFFF)) by {
            assert(vstd::utf8::is_scalar(code)) by {
                vstd::utf8::char_is_scalar(c);
            }
        }
        assert(char_bytes(c) == text::char_bytes(c));
    }
}

/// Some titles on a line each, numbered from one.
pub open spec fn numbered(titles: Seq<Seq<char>>) -> Seq<char>
    decreases titles.len(),
{
    if titles.len() == 0 {
        Seq::empty()
    } else {
        numbered(titles.drop_last()) + text::decimal(titles.len()) + seq!['.', ' ']
            + titles.last() + seq!['\n']
    }
}

/// The titles of some tracks.
pub open spec fn titles(tracks: Seq<Track>) -> Seq<Seq<char>> {
    tracks.map_values(|track: Track| track.metadata.title@)
}

proof fn lemma_numbered_grows(queue: Seq<Track>, count: int)
    requires
        0 <= count < queue.len(),
    ensures
        numbered(titles(queue.take(count + 1))) == numbered(titles(queue.take(count))) + queue_line(
            (count + 1) as nat,
            queue[count].metadata.title@,
        ),
{
    reveal_strlit(". ");
    reveal_strlit("\n");
    let more = titles(queue.take(count + 1));
    assert(more.drop_last() =~= titles(queue.take(count)));
    assert(more.last() == queue[count].metadata.title@);
    assert(numbered(more) =~= numbered(titles(queue.take(count))) + queue_line(
        (count + 1) as nat,
        queue[count].metadata.title@,
    ));
}

proof fn lemma_bytes_of_less(s: Seq<char>, more: Seq<char>)
    ensures
        byte_len(s) <= byte_len(s + more),
{
    lemma_byte_len_adds(s, more);
}

proof fn lemma_numbered_bytes(queue: Seq<Track>, from: int, to: int)
    requires
        0 <= from <= to <= queue.len(),
    ensures
        byte_len(numbered(titles(queue.take(from)))) <= byte_len(numbered(titles(queue.take(to)))),
    decreases to,
{
    if from < to {
        lemma_numbered_bytes(queue, from, to - 1);
        lemma_numbered_grows(queue, to - 1);
        lemma_bytes_of_less(
            numbered(titles(queue.take(to - 1))),
            queue_line(to as nat, queue[to - 1].metadata.title@),
        );
    }
}

/// A listing that has come to `done` tracks goes on to `count`, if those fit.
proof fn lemma_listing_of_what_fits(output: Seq<char>, queue: Seq<Track>, done: nat, count: nat)
    requires
        done <= count <= queue.len(),
        count <= 10,
        byte_len(output + numbered(titles(queue.take(count as int)))) <= 1_800,
    ensures
        listing(output + numbered(titles(queue.take(done as int))), queue, done) == listing(
            output + numbered(titles(queue.take(count as int))),
            queue,
            count,
        ),
    decreases count - done,
{
    if done < count {
        let shown = output + numbered(titles(queue.take(done as int)));
        let line = queue_line(done + 1, queue[done as int].metadata.title@);
        lemma_numbered_grows(queue, done as int);
        assert(shown + line =~= output + numbered(titles(queue.take(done as int + 1))));
        lemma_numbered_bytes(queue, done as int + 1, count as int);
        lemma_byte_len_adds(output, numbered(titles(queue.take(done as int + 1))));
        lemma_byte_len_adds(output, numbered(titles(queue.take(count as int))));
        lemma_byte_len_adds(shown, line);
        lemma_listing_of_what_fits(output, queue, done + 1, count);
    }
}

/// What is told before the queue.
pub open spec fn heading(state: PlaybackState, current: Option<Track>) -> Seq<char> {
    match current {
        Some(track) => (match state {
            PlaybackState::Idle => "**Now idle:** "@,
            PlaybackState::Loading => "**Now loading:** "@,
            PlaybackState::Playing => "**Now playing:** "@,
        }) + track.metadata.title@ + seq!['\n'],
        None => "**Now:** idle\n"@,
    }
}

proof fn lemma_heading(state: PlaybackState, current: Option<Track>)
    ensures
        heading(state, current) == match current {
            Some(track) => "**Now "@ + state_name(state) + ":** "@ + track.metadata.title@ + "\n"@,
            None => "**Now:** idle\n"@,
        },
{
    reveal_strlit("**Now ");
    reveal_strlit(":** ");
    reveal_strlit("\n");
    reveal_strlit("idle");
    reveal_strlit("loading");
    reveal_strlit("playing");
    reveal_strlit("**Now idle:** ");
    reveal_strlit("**Now loading:** ");
    reveal_strlit("**Now playing:** ");
    match current {
        Some(track) => {
            assert(heading(state, current) =~= "**Now "@ + state_name(state) + ":** "@
                + track.metadata.title@ + "\n"@);
        },
        None => {},
    }
}

/// The reply begins with the current track and its state, whatever is queued,
/// and tells the queue to be empty exactly when nothing is queued.
pub proof fn law_queue_reply_begins_with_the_state(
    state: PlaybackState,
    current: Option<Track>,
    queue: Seq<Track>,
)
    ensures
        queue.len() == 0 ==> queue_text(state, current, queue) == heading(state, current)
            + "\nThe queue is empty."@,
        queue.len() > 0 ==> (heading(state, current) + "\n**Up next:**\n"@).is_prefix_of(
            queue_text(state, current, queue),
        ),
{
    lemma_heading(state, current);
    if queue.len() > 0 {
        let head = heading(state, current) + "\n**Up next:**\n"@;
        lemma_listing_begins_with_output(head, queue, 0);
        let listed = listing(head, queue, 0);
        let reply = queue_text(state, current, queue);
        assert(reply.subrange(0, head.len() as int) =~= listed.subrange(0, head.len() as int));
    }
}

proof fn lemma_listing_begins_with_output(output: Seq<char>, queue: Seq<Track>, from: nat)
    ensures
        output.is_prefix_of(listing(output, queue, from)),
    decreases queue.len() - from,
{
    let listed = listing(output, queue, from);
    if from < queue.len() && from < QUEUE_PREVIEW_LIMIT {
        let line = queue_line(from + 1, queue[from as int].metadata.title@);
        if byte_len(output) + byte_len(line) > QUEUE_CONTENT_LIMIT {
            assert(listed.subrange(0, output.len() as int) =~= output);
        } else {
            lemma_listing_begins_with_output(output + line, queue, from + 1);
            assert(output + line =~= listed.subrange(0, (output + line).len() as int));
            assert(listed.subrange(0, output.len() as int) =~= (output + line).subrange(
                0,
                output.len() as int,
            ));
            assert((output + line).subrange(0, output.len() as int) =~= output);
        }
    } else {
        assert(listed.subrange(0, output.len() as int) =~= output);
    }
}

/// The first ten queued tracks are listed by their titles, in order and
/// numbered from one, where they fit; how many there are beyond ten is told
/// behind them.
pub proof fn law_queued_titles_are_listed(
    state: PlaybackState,
    current: Option<Track>,
    queue: Seq<Track>,
)
    requires
        queue.len() > 0,
        ({
            let count = if queue.len() < 10 {
                queue.len() as int
            } else {
                10
            };
            byte_len(
                heading(state, current) + "\n**Up next:**\n"@ + numbered(titles(queue.take(count))),
            ) <= 1_800
        }),
    ensures
        queue.len() <= 10 ==> queue_text(state, current, queue) == heading(state, current)
            + "\n**Up next:**\n"@ + numbered(titles(queue)),
        queue.len() > 10 ==> queue_text(state, current, queue) == heading(state, current)
            + "\n**Up next:**\n"@ + numbered(titles(queue.take(10))) + "…and "@ + text::decimal(
            (queue.len() - 10) as nat,
        ) + " more."@,
{
    lemma_heading(state, current);
    let head = heading(state, current) + "\n**Up next:**\n"@;
    let count: nat = if queue.len() < 10 {
        queue.len()
    } else {
        10
    };
    assert(titles(queue.take(0)) =~= Seq::empty());
    assert(head + numbered(titles(queue.take(0))) =~= head);
    lemma_listing_of_what_fits(head, queue, 0, count);
    if queue.len() <= 10 {
        assert(queue.take(count as int) =~= queue);
    }
    assert(queue_text(state, current, queue) =~= head + numbered(titles(queue.take(count as int)))
        + (if queue.len() > 10 {
        "…and "@ + text::decimal((queue.len() - 10) as nat) + " more."@
    } else {
        Seq::empty()
    }));
}

/// Where a track does not fit any more, the tracks before it are listed and a
/// mark stands for the others.
pub proof fn law_listing_is_cut_at_a_line(
    state: PlaybackState,
    current: Option<Track>,
    queue: Seq<Track>,
    count: int,
)
    requires
        0 <= count < queue.len() <= 10,
        byte_len(
            heading(state, current) + "\n**Up next:**\n"@ + numbered(titles(queue.take(count))),
        ) <= 1_800,
        byte_len(
            heading(state, current) + "\n**Up next:**\n"@ + numbered(
                titles(queue.take(count + 1)),
            ),
        ) > 1_800,
    ensures
        queue_text(state, current, queue) == heading(state, current) + "\n**Up next:**\n"@
            + numbered(titles(queue.take(count))) + seq!['…'],
{
    lemma_heading(state, current);
    let head = heading(state, current) + "\n**Up next:**\n"@;
    assert(titles(queue.take(0)) =~= Seq::empty());
    assert(head + numbered(titles(queue.take(0))) =~= head);
    lemma_listing_of_what_fits(head, queue, 0, count as nat);
    let shown = head + numbered(titles(queue.take(count)));
    let line = queue_line((count + 1) as nat, queue[count].metadata.title@);
    lemma_numbered_grows(queue, count);
    assert(shown + line =~= head + numbered(titles(queue.take(count + 1))));
    lemma_byte_len_adds(shown, line);
    assert(queue_text(state, current, queue) =~= shown + seq!['…']);
}

/// The current track is told by its title, its state, its length, the user who
/// asked for it and its page.
pub proof fn law_current_track_is_told_in_full(state: PlaybackState, track: Track)
    ensures
        ({
            let reply = track_text(state, track);
            &&& ("🎵 **"@ + track.metadata.title@ + "**"@).is_prefix_of(reply)
            &&& track.metadata.artist matches Some(artist) ==> ("🎵 **"@ + track.metadata.title@
                + "** — "@ + artist@ + "\nState: **"@).is_prefix_of(reply)
            &&& track.metadata.artist is None ==> ("🎵 **"@ + track.metadata.title@
                + "**\nState: **"@).is_prefix_of(reply)
            &&& text::contains(
                reply,
                "State: **"@ + state_name(state) + "** · Duration: **"@ + (
                match track.metadata.duration {
                    Some(span) => number::clock_text(clock::whole_seconds(span)),
                    None => "unknown duration"@,
                }) + "**"@,
            )
            &&& (" · Requested by <@"@ + text::decimal(track.requested_by.user_id.0 as nat)
                + ">\n"@ + track.metadata.webpage_url@).is_suffix_of(reply)
        }),
        state_name(PlaybackState::Idle) == "idle"@,
        state_name(PlaybackState::Loading) == "loading"@,
        state_name(PlaybackState::Playing) == "playing"@,
{
    reveal_strlit("**");
    reveal_strlit(" — ");
    reveal_strlit("** — ");
    reveal_strlit("\nState: **");
    reveal_strlit("**\nState: **");
    reveal_strlit("State: **");
    reveal_strlit("** · Requested by <@");
    reveal_strlit(" · Requested by <@");
    let reply = track_text(state, track);
    let title = "🎵 **"@ + track.metadata.title@;
    let by: Seq<char> = match track.metadata.artist {
        Some(artist) => " — "@ + artist@,
        None => Seq::empty(),
    };
    let long = match track.metadata.duration {
        Some(span) => number::clock_text(clock::whole_seconds(span)),
        None => "unknown duration"@,
    };
    let user = text::decimal(track.requested_by.user_id.0 as nat);
    let page = track.metadata.webpage_url@;
    let middle = state_name(state) + "** · Duration: **"@ + long;
    let first = title + "**"@;
    assert(reply =~= first + by + "\nState: **"@ + middle + "** · Requested by <@"@ + user
        + ">\n"@ + page);
    assert(reply.subrange(0, first.len() as int) =~= first);
    match track.metadata.artist {
        Some(artist) => {
            let begun = title + "** — "@ + artist@ + "\nState: **"@;
            assert(begun =~= first + by + "\nState: **"@);
            assert(reply.subrange(0, begun.len() as int) =~= begun);
        },
        None => {
            let begun = title + "**\nState: **"@;
            assert(begun =~= first + by + "\nState: **"@);
            assert(reply.subrange(0, begun.len() as int) =~= begun);
        },
    }
    let told = "State: **"@ + state_name(state) + "** · Duration: **"@ + long + "**"@;
    let at = (first.len() + by.len() + 1) as int;
    assert(told =~= "State: **"@ + middle + "**"@);
    assert(reply.subrange(at, at + told.len()) =~= told);
    assert(text::occurs_at(reply, told, at));
    let end = " · Requested by <@"@ + user + ">\n"@ + page;
    assert(reply.subrange(reply.len() - end.len(), reply.len() as int) =~= end);
}

} // verus!
