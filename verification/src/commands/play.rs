//! `/play`: resolve a submission, join the invoker's channel, queue the track
//! and wake the voice worker.

use vstd::prelude::*;
use vstd::string::*;

use super::{channel_text, require_member};
use crate::commands;
use crate::gateway_control::{
    Answer, GatewayControl, JoinFailure, PlaybackAction, PlaybackControlResult, VoiceJoinResult,
};
use crate::ids::{ChannelId, GuildId, UserId};
use crate::media::resolver::ResolveError;
use crate::media::track::{RequestedBy, ResolvedTrack, Track, TrackId, TrackRequest};
use crate::media::ytdlp;
use crate::media::ytdlp::is_http_url;
use crate::player;
use crate::player::PlayerManager;
use crate::text;
use crate::text::{chars_of, push_decimal, trim};

verus! {

/// The most choices that are offered while a query is typed.
pub const AUTOCOMPLETE_LIMIT: usize = 10;

/// How long looking for choices may take, in milliseconds.
pub const AUTOCOMPLETE_TIMEOUT_MILLIS: u64 = 2_200;

/// The longest label of a choice, in characters.
pub const AUTOCOMPLETE_CHOICE_NAME_LIMIT: usize = 100;

/// The longest value of a choice, in characters.
pub const AUTOCOMPLETE_CHOICE_VALUE_LIMIT: usize = 100;

/// The longest title or artist in a reply, in characters.
pub const TRACK_TITLE_LIMIT: usize = 96;

/// The longest error in a reply, in characters.
pub const ERROR_MESSAGE_LIMIT: usize = 240;

/// At most `limit` characters of `s`; a mark takes the place of what is cut.
pub open spec fn truncated(s: Seq<char>, limit: nat) -> Seq<char> {
    if s.len() <= limit {
        s
    } else if limit == 0 {
        Seq::empty()
    } else {
        s.take(limit - 1).push('…')
    }
}

/// Cuts a text to at most `limit` characters.
pub fn truncate_chars(value: &str, limit: usize) -> (out: String)
    ensures
        out@ == truncated(value@, limit as nat),
{
    let chars: Vec<char> = chars_of(value);
    if chars.len() <= limit {
        return value.to_owned();
    }
    if limit == 0 {
        let out: String = String::new();
        assert(out@ =~= Seq::empty());
        return out;
    }
    let mut out: String = text::string_range(&chars, 0, limit - 1);
    assert(out@ =~= value@.take(limit - 1));
    out.push('…');
    out
}

/// The character means something in Discord's markdown.
pub open spec fn is_markup(c: char) -> bool {
    c == '\\' || c == '*' || c == '_' || c == '~' || c == '`' || c == '|' || c == '[' || c == ']'
}

/// `s` with a backslash before every character that means something.
pub open spec fn escaped(s: Seq<char>) -> Seq<char>
    decreases s.len(),
{
    if s.len() == 0 {
        s
    } else if is_markup(s.last()) {
        escaped(s.drop_last()).push('\\').push(s.last())
    } else {
        escaped(s.drop_last()).push(s.last())
    }
}

/// Takes the meaning from markdown characters.
pub fn escape_markdown(value: &str) -> (out: String)
    ensures
        out@ == escaped(value@),
{
    let chars: Vec<char> = chars_of(value);
    let mut out: String = String::new();
    let mut i: usize = 0;
    assert(chars@.take(0) =~= Seq::empty());
    while i < chars.len()
        invariant
            i <= chars@.len(),
            out@ == escaped(chars@.take(i as int)),
        decreases chars@.len() - i,
    {
        assert(chars@.take(i + 1).drop_last() =~= chars@.take(i as int));
        let c: char = chars[i];
        if c == '\\' || c == '*' || c == '_' || c == '~' || c == '`' || c == '|' || c == '[' || c
            == ']' {
            out.push('\\');
        }
        out.push(c);
        i += 1;
    }
    assert(chars@.take(i as int) =~= value@);
    out
}

/// An artist worth naming: one that is not blank.
pub open spec fn named_artist(artist: Option<String>) -> Option<Seq<char>> {
    match artist {
        Some(name) if text::trimmed(name@).len() > 0 => Some(name@),
        _ => None,
    }
}

/// A track in a reply: its title in bold, and its artist if it has one.
pub open spec fn track_label(track: Track) -> Seq<char> {
    let title = "**"@ + escaped(truncated(track.metadata.title@, TRACK_TITLE_LIMIT as nat)) + "**"@;
    match named_artist(track.metadata.artist) {
        Some(artist) => title + " — "@ + escaped(truncated(artist, TRACK_TITLE_LIMIT as nat)),
        None => title,
    }
}

/// A track in a reply.
pub fn format_track(track: &Track) -> (label: String)
    ensures
        label@ == track_label(*track),
{
    let title: String = truncate_chars(track.metadata.title.as_str(), TRACK_TITLE_LIMIT);
    let mut label: String = "**".to_owned();
    label.append(escape_markdown(title.as_str()).as_str());
    label.append("**");
    if let Some(artist) = &track.metadata.artist {
        if !trim(artist.as_str()).is_empty() {
            let artist: String = truncate_chars(artist.as_str(), TRACK_TITLE_LIMIT);
            label.append(" — ");
            label.append(escape_markdown(artist.as_str()).as_str());
        }
    }
    label
}

/// What is looked up while a query is typed: a URL as it is, anything else as
/// a search for as many results as are offered.
pub open spec fn autocomplete_target(input: Seq<char>) -> Seq<char> {
    if ytdlp::begins_like_url(input) {
        input
    } else {
        "ytsearch10:"@ + input
    }
}

/// What is looked up while a query is typed.
pub fn autocomplete_request(input: &str) -> (request: TrackRequest)
    ensures
        request@ == autocomplete_target(input@),
{
    proof {
        reveal_strlit("ytsearch10:");
        reveal_strlit("https://");
        reveal_strlit("http://");
    }
    if is_http_url(input) {
        let target: String = input.to_owned();
        proof {
            let first = if "https://"@.is_prefix_of(input@) {
                "https://"@
            } else {
                "http://"@
            };
            assert(first[0] == 'h');
            assert(input@.subrange(0, first.len() as int)[0] == input@[0]);
            text::lemma_not_blank(target@);
        }
        TrackRequest::of_text(target)
    } else {
        let target: String = "ytsearch10:".to_owned().concat(input);
        proof {
            assert(target@[0] == 'y');
            text::lemma_not_blank(target@);
        }
        TrackRequest::of_text(target)
    }
}

/// What is looked up for the value that is being typed; nothing for a blank
/// one.
pub fn autocomplete_query(typed: Option<&str>) -> (request: Option<TrackRequest>)
    ensures
        match request {
            Some(request) => typed is Some && text::trimmed(typed->0@).len() > 0 && request@
                == autocomplete_target(text::trimmed(typed->0@)),
            None => typed is None || text::trimmed(typed->0@).len() == 0,
        },
{
    match typed {
        None => None,
        Some(typed) => {
            let input: &str = trim(typed);
            if input.is_empty() {
                None
            } else {
                Some(autocomplete_request(input))
            }
        },
    }
}

/// A choice that is offered while a query is typed.
#[derive(Debug, PartialEq, Eq)]
pub struct AutocompleteChoice {
    pub name: String,
    pub value: String,
}

/// The label of the choice for a track.
pub open spec fn choice_name(track: ResolvedTrack) -> Seq<char> {
    let label = match named_artist(track.metadata.artist) {
        Some(artist) => track.metadata.title@ + " — "@ + artist,
        None => track.metadata.title@,
    };
    truncated(label, AUTOCOMPLETE_CHOICE_NAME_LIMIT as nat)
}

/// A choice offers a track under its public address.
pub open spec fn offers(choice: AutocompleteChoice, track: ResolvedTrack) -> bool {
    choice.name@ == choice_name(track) && choice.value@ == track.metadata.webpage_url@
}

/// The track's address is short enough to be the value of a choice.
pub open spec fn is_offered(track: ResolvedTrack) -> bool {
    track.metadata.webpage_url@.len() <= AUTOCOMPLETE_CHOICE_VALUE_LIMIT
}

/// The choice for a track, if its address is short enough.
pub fn autocomplete_choice(track: ResolvedTrack) -> (choice: Option<AutocompleteChoice>)
    ensures
        match choice {
            Some(choice) => is_offered(track) && offers(choice, track),
            None => !is_offered(track),
        },
{
    let url: Vec<char> = chars_of(track.metadata.webpage_url.as_str());
    if url.len() > AUTOCOMPLETE_CHOICE_VALUE_LIMIT {
        return None;
    }
    let mut label: String = track.metadata.title.clone();
    if let Some(artist) = &track.metadata.artist {
        if !trim(artist.as_str()).is_empty() {
            label.append(" — ");
            label.append(artist.as_str());
        }
    }
    Some(
        AutocompleteChoice {
            name: truncate_chars(label.as_str(), AUTOCOMPLETE_CHOICE_NAME_LIMIT),
            value: track.metadata.webpage_url,
        },
    )
}

/// The tracks that are offered, in order, at most [`AUTOCOMPLETE_LIMIT`].
pub open spec fn offered(tracks: Seq<ResolvedTrack>) -> Seq<ResolvedTrack>
    decreases tracks.len(),
{
    if tracks.len() == 0 {
        tracks
    } else {
        let before = offered(tracks.drop_last());
        if before.len() < AUTOCOMPLETE_LIMIT && is_offered(tracks.last()) {
            before.push(tracks.last())
        } else {
            before
        }
    }
}

/// The choices that are offered for some tracks.
pub fn autocomplete_choices(tracks: Vec<ResolvedTrack>) -> (choices: Vec<AutocompleteChoice>)
    ensures
        choices@.len() == offered(tracks@).len(),
        choices@.len() <= AUTOCOMPLETE_LIMIT,
        forall|i: int| 0 <= i < choices@.len() ==> offers(#[trigger] choices@[i], offered(tracks@)[i]),
{
    let mut choices: Vec<AutocompleteChoice> = Vec::new();
    let mut i: usize = 0;
    assert(tracks@.take(0) =~= Seq::empty());
    while i < tracks.len()
        invariant
            i <= tracks@.len(),
            choices@.len() == offered(tracks@.take(i as int)).len(),
            choices@.len() <= AUTOCOMPLETE_LIMIT,
            forall|j: int|
                0 <= j < choices@.len() ==> offers(
                    #[trigger] choices@[j],
                    offered(tracks@.take(i as int))[j],
                ),
        decreases tracks@.len() - i,
    {
        assert(tracks@.take(i + 1).drop_last() =~= tracks@.take(i as int));
        if choices.len() < AUTOCOMPLETE_LIMIT {
            if let Some(choice) = autocomplete_choice(tracks[i].clone()) {
                choices.push(choice);
            }
        }
        i += 1;
    }
    assert(tracks@.take(i as int) =~= tracks@);
    choices
}

/// `/play` with a submission to resolve.
#[derive(Debug)]
pub struct PlayRequest {
    pub guild_id: GuildId,
    pub user_id: UserId,
    pub request: TrackRequest,
}

/// `/play` with a channel to join.
#[derive(Debug)]
pub struct PlayJoin {
    pub guild_id: GuildId,
    pub user_id: UserId,
    pub channel_id: ChannelId,
    pub request: TrackRequest,
    pub resolved: ResolvedTrack,
}

/// `/play` with a queued track and a voice worker to wake.
#[derive(Debug)]
pub struct PlayWake {
    pub guild_id: GuildId,
    pub channel_id: ChannelId,
    pub track: Track,
    pub position: usize,
}

/// Why `/play` does not begin.
pub open spec fn begin_refusal(
    guild_id: Option<GuildId>,
    user_id: Option<UserId>,
    channel_id: Option<ChannelId>,
    query: Seq<char>,
) -> Option<Seq<char>> {
    match commands::refusal(guild_id, user_id) {
        Some(reply) => Some(reply),
        None => if channel_id is None {
            Some("Join a voice channel first, then run `/play`."@)
        } else if text::trimmed(query).len() == 0 {
            Some("track request cannot be empty"@)
        } else {
            None
        },
    }
}

/// Begins `/play`: the submission is to be resolved.
pub fn play(
    guild_id: Option<GuildId>,
    user_id: Option<UserId>,
    channel_id: Option<ChannelId>,
    query: String,
) -> (result: Result<PlayRequest, String>)
    ensures
        match result {
            Ok(next) => begin_refusal(guild_id, user_id, channel_id, query@) is None && guild_id
                == Some(next.guild_id) && user_id == Some(next.user_id) && next.request@ == query@,
            Err(reply) => begin_refusal(guild_id, user_id, channel_id, query@) == Some(reply@),
        },
{
    let (guild_id, user_id) = match require_member(guild_id, user_id) {
        Ok(member) => member,
        Err(reply) => {
            return Err(reply);
        },
    };
    if channel_id.is_none() {
        return Err("Join a voice channel first, then run `/play`.".to_owned());
    }
    match TrackRequest::new(query) {
        Ok(request) => Ok(PlayRequest { guild_id, user_id, request }),
        Err(message) => Err(message.to_owned()),
    }
}

/// Why `/play` ends once the submission was resolved.
pub open spec fn resolve_refusal(
    outcome: Result<ResolvedTrack, ResolveError>,
    channel_id: Option<ChannelId>,
) -> Option<Seq<char>> {
    match outcome {
        Err(error) => Some(
            "I could not resolve that track: "@ + escaped(
                truncated(error.message(), ERROR_MESSAGE_LIMIT as nat),
            ),
        ),
        Ok(_) => if channel_id is None {
            Some("You left voice while I was resolving that track."@)
        } else {
            None
        },
    }
}

/// Why `/play` ends once voice was to be joined.
pub open spec fn join_refusal(result: VoiceJoinResult, wanted: ChannelId) -> Option<Seq<char>> {
    match result {
        VoiceJoinResult::Joined { .. } => None,
        VoiceJoinResult::AlreadyConnected { channel_id } => if channel_id == wanted {
            None
        } else {
            Some(
                commands::about_channel(
                    "I am already connected to <#"@,
                    channel_id,
                    ">. Join that channel to control playback."@,
                ),
            )
        },
        VoiceJoinResult::InProgress { channel_id } => Some(
            commands::about_channel(
                "A voice join for <#"@,
                channel_id,
                "> is already in progress. Try `/play` again once it connects."@,
            ),
        ),
        VoiceJoinResult::Cancelled => Some("The voice join was cancelled."@),
        VoiceJoinResult::Failed(failure) => Some(failure.message()),
    }
}

impl PlayRequest {
    /// Takes how the resolution went, and in which channel the invoker is now:
    /// that channel is to be joined.
    pub fn resolved(
        self,
        outcome: Result<ResolvedTrack, ResolveError>,
        channel_id: Option<ChannelId>,
    ) -> (result: Result<PlayJoin, String>)
        ensures
            match result {
                Ok(next) => resolve_refusal(outcome, channel_id) is None && next.guild_id
                    == self.guild_id && next.user_id == self.user_id && Some(next.channel_id)
                    == channel_id && next.request == self.request && Ok::<ResolvedTrack, ResolveError>(
                    next.resolved,
                ) == outcome,
                Err(reply) => resolve_refusal(outcome, channel_id) == Some(reply@),
            },
    {
        match outcome {
            Err(error) => {
                let error: String = truncate_chars(error.text().as_str(), ERROR_MESSAGE_LIMIT);
                Err(
                    "I could not resolve that track: ".to_owned().concat(
                        escape_markdown(error.as_str()).as_str(),
                    ),
                )
            },
            Ok(resolved) => match channel_id {
                None => Err("You left voice while I was resolving that track.".to_owned()),
                Some(channel_id) => Ok(
                    PlayJoin {
                        guild_id: self.guild_id,
                        user_id: self.user_id,
                        channel_id,
                        request: self.request,
                        resolved,
                    },
                ),
            },
        }
    }
}

/// The reply that ends a command whose channel could not be joined.
pub fn refuse_join(result: VoiceJoinResult, wanted: ChannelId) -> (reply: Option<String>)
    ensures
        match reply {
            Some(text) => join_refusal(result, wanted) == Some(text@),
            None => join_refusal(result, wanted) is None,
        },
{
    match result {
        VoiceJoinResult::Joined { .. } => None,
        VoiceJoinResult::AlreadyConnected { channel_id } => {
            if channel_id == wanted {
                None
            } else {
                Some(
                    channel_text(
                        "I am already connected to <#",
                        channel_id,
                        ">. Join that channel to control playback.",
                    ),
                )
            }
        },
        VoiceJoinResult::InProgress { channel_id } => Some(
            channel_text(
                "A voice join for <#",
                channel_id,
                "> is already in progress. Try `/play` again once it connects.",
            ),
        ),
        VoiceJoinResult::Cancelled => Some("The voice join was cancelled.".to_owned()),
        VoiceJoinResult::Failed(failure) => Some(failure.text()),
    }
}

impl PlayJoin {
    /// The request to join the invoker's channel.
    pub fn control(&self) -> (control: GatewayControl)
        ensures
            control == (GatewayControl::JoinVoice {
                guild_id: self.guild_id,
                channel_id: self.channel_id,
            }),
    {
        GatewayControl::JoinVoice { guild_id: self.guild_id, channel_id: self.channel_id }
    }

    /// The track as it is queued.
    pub open spec fn queued_track(self, last_id: u64) -> Track {
        Track {
            id: TrackId(player::following_id(last_id)),
            request: self.request,
            source: self.resolved.source,
            requested_by: RequestedBy { user_id: self.user_id },
            metadata: self.resolved.metadata,
            locator: self.resolved.locator,
        }
    }

    /// Takes how joining voice went: the track is queued, and the voice worker
    /// is to be woken. A command that ends here has queued nothing.
    pub fn joined(
        self,
        answer: Answer<VoiceJoinResult>,
        players: &mut PlayerManager,
    ) -> (result: Result<PlayWake, String>)
        ensures
            ({
                let refused = join_refusal(answer.joined(JoinFailure::JoinEnded), self.channel_id);
                let before = old(players).player(self.guild_id);
                match result {
                    Ok(next) => {
                        &&& refused is None
                        &&& next.guild_id == self.guild_id
                        &&& next.channel_id == self.channel_id
                        &&& next.track == self.queued_track(old(players).last_track_id())
                        &&& next.position == before.queue.len() + 1
                        &&& final(players).player(self.guild_id) == before.enqueued(next.track)
                        &&& final(players).same_elsewhere(old(players), self.guild_id)
                        &&& final(players).last_track_id() == next.track.id.0
                    },
                    Err(reply) => refused == Some(reply@) && *final(players) == *old(players),
                }
            }),
    {
        let result: VoiceJoinResult = answer.join_result(JoinFailure::JoinEnded);
        if let Some(reply) = refuse_join(result, self.channel_id) {
            return Err(reply);
        }
        let (track, position) = players.enqueue_resolved(
            self.guild_id,
            self.request,
            RequestedBy::new(self.user_id),
            self.resolved,
        );
        Ok(PlayWake { guild_id: self.guild_id, channel_id: self.channel_id, track, position })
    }
}

impl PlayWake {
    /// The request to wake the voice worker.
    pub fn control(&self) -> (control: GatewayControl)
        ensures
            control == (GatewayControl::Playback {
                guild_id: self.guild_id,
                channel_id: self.channel_id,
                action: PlaybackAction::Wake,
            }),
    {
        GatewayControl::Playback {
            guild_id: self.guild_id,
            channel_id: self.channel_id,
            action: PlaybackAction::Wake,
        }
    }

    /// How `/play` is answered. `playing` says that the track is current.
    pub open spec fn answer(self, result: PlaybackControlResult, playing: bool) -> Seq<char> {
        match result {
            PlaybackControlResult::Accepted => if playing {
                "Playing "@ + track_label(self.track)
            } else {
                "Queued "@ + track_label(self.track) + " at position "@ + text::decimal(
                    self.position as nat,
                ) + "."@
            },
            PlaybackControlResult::NotConnected =>
                "The voice worker disconnected before playback could start."@,
            PlaybackControlResult::WrongVoiceChannel { channel_id } => commands::about_channel(
                "I am connected to <#"@,
                channel_id,
                ">. Join that channel to control playback."@,
            ),
            PlaybackControlResult::NothingPlaying =>
                "The track was queued, but the player did not start it."@,
            PlaybackControlResult::AlreadyPaused | PlaybackControlResult::AlreadyPlaying =>
                "Queued "@ + track_label(self.track) + "."@,
            PlaybackControlResult::Failed(failure) => failure.message(),
        }
    }

    /// Takes how waking the voice worker went and answers the command.
    pub fn woken(
        self,
        answer: Answer<PlaybackControlResult>,
        players: &PlayerManager,
    ) -> (reply: String)
        ensures
            reply@ == self.answer(
                answer.outcome(),
                players.player(self.guild_id).is_current(self.track.id),
            ),
    {
        match answer.playback_result() {
            PlaybackControlResult::Accepted => {
                let playing: bool = match players.snapshot(self.guild_id).now_playing {
                    Some(current) => current.id == self.track.id,
                    None => false,
                };
                if playing {
                    "Playing ".to_owned().concat(format_track(&self.track).as_str())
                } else {
                    let mut reply: String = "Queued ".to_owned();
                    reply.append(format_track(&self.track).as_str());
                    reply.append(" at position ");
                    push_decimal(&mut reply, self.position as u64);
                    reply.append(".");
                    reply
                }
            },
            PlaybackControlResult::NotConnected => {
                "The voice worker disconnected before playback could start.".to_owned()
            },
            PlaybackControlResult::WrongVoiceChannel { channel_id } => channel_text(
                "I am connected to <#",
                channel_id,
                ">. Join that channel to control playback.",
            ),
            PlaybackControlResult::NothingPlaying => {
                "The track was queued, but the player did not start it.".to_owned()
            },
            PlaybackControlResult::AlreadyPaused | PlaybackControlResult::AlreadyPlaying => {
                let mut reply: String = "Queued ".to_owned();
                reply.append(format_track(&self.track).as_str());
                reply.append(".");
                reply
            },
            PlaybackControlResult::Failed(failure) => failure.text(),
        }
    }
}

/// A truncated text keeps to the limit, and a text within the limit is kept.
pub proof fn law_truncation_keeps_to_the_limit(s: Seq<char>, limit: nat)
    ensures
        truncated(s, limit).len() <= limit,
        s.len() <= limit ==> truncated(s, limit) == s,
        s.len() > limit && limit > 0 ==> truncated(s, limit).last() == '…',
{
}

/// The text that is shown where markdown takes a backslash as an escape.
pub open spec fn shown(s: Seq<char>) -> Seq<char>
    decreases s.len(),
{
    if s.len() == 0 {
        s
    } else if s[0] == '\\' && s.len() > 1 {
        seq![s[1]] + shown(s.skip(2))
    } else {
        seq![s[0]] + shown(s.drop_first())
    }
}

proof fn lemma_escaped_from_the_front(s: Seq<char>)
    requires
        s.len() > 0,
    ensures
        escaped(s) == (if is_markup(s[0]) {
            seq!['\\', s[0]]
        } else {
            seq![s[0]]
        }) + escaped(s.drop_first()),
    decreases s.len(),
{
    let head = if is_markup(s[0]) {
        seq!['\\', s[0]]
    } else {
        seq![s[0]]
    };
    if s.len() == 1 {
        assert(s.drop_last() =~= Seq::empty());
        assert(s.drop_first() =~= Seq::empty());
        assert(escaped(s) =~= head + escaped(s.drop_first()));
    } else {
        lemma_escaped_from_the_front(s.drop_last());
        assert(s.drop_last().drop_first() =~= s.drop_first().drop_last());
        assert(escaped(s) =~= head + escaped(s.drop_first()));
    }
}

/// Escaping loses nothing: what is shown is the text that was escaped.
pub proof fn law_escaped_text_is_shown_as_it_was(s: Seq<char>)
    ensures
        shown(escaped(s)) == s,
    decreases s.len(),
{
    if s.len() > 0 {
        let rest = escaped(s.drop_first());
        lemma_escaped_from_the_front(s);
        law_escaped_text_is_shown_as_it_was(s.drop_first());
        if is_markup(s[0]) {
            assert(escaped(s) =~= seq!['\\', s[0]] + rest);
            assert(escaped(s).skip(2) =~= rest);
        } else {
            assert(escaped(s) =~= seq![s[0]] + rest);
            assert(escaped(s).drop_first() =~= rest);
        }
        assert(seq![s[0]] + s.drop_first() =~= s);
    }
}

/// A truncated text begins as the text does, up to the mark.
pub proof fn law_truncation_keeps_the_beginning(s: Seq<char>, limit: nat)
    requires
        s.len() > limit > 0,
    ensures
        truncated(s, limit).len() == limit,
        truncated(s, limit).take(limit - 1) == s.take(limit - 1),
{
    assert(truncated(s, limit).take(limit - 1) =~= s.take(limit - 1));
}

/// Escaping puts a backslash before each of the characters that mean something
/// and leaves every other as it is.
pub proof fn law_escaping_is_by_character(s: Seq<char>, c: char)
    ensures
        escaped(s.push(c)) == if seq!['\\', '*', '_', '~', '`', '|', '[', ']'].contains(c) {
            escaped(s) + seq!['\\', c]
        } else {
            escaped(s) + seq![c]
        },
        escaped(Seq::<char>::empty()).len() == 0,
{
    let marks = seq!['\\', '*', '_', '~', '`', '|', '[', ']'];
    assert(marks[0] == '\\' && marks[1] == '*' && marks[2] == '_' && marks[3] == '~' && marks[4]
        == '`' && marks[5] == '|' && marks[6] == '[' && marks[7] == ']');
    if marks.contains(c) {
        let k = marks.index_of(c);
        assert(marks[k] == c);
    }
    assert(s.push(c).drop_last() =~= s);
    if is_markup(c) {
        assert(escaped(s.push(c)) =~= escaped(s) + seq!['\\', c]);
    } else {
        assert(escaped(s.push(c)) =~= escaped(s) + seq![c]);
    }
}

/// A track is told by its title in bold letters, and by its artist unless that
/// is blank.
pub proof fn law_label_tells_title_and_artist(track: Track)
    ensures
        ({
            let title = "**"@ + escaped(truncated(track.metadata.title@, 96)) + "**"@;
            match track.metadata.artist {
                Some(artist) => if text::laws::is_blank(artist@) {
                    track_label(track) == title
                } else {
                    track_label(track) == title + " — "@ + escaped(truncated(artist@, 96))
                },
                None => track_label(track) == title,
            }
        }),
{
    if track.metadata.artist is Some {
        text::laws::law_trimmed_has_no_white_space_around(track.metadata.artist->0@);
    }
}

/// While a query is typed, a web address is looked up as it is, and anything
/// else is searched for, with as many results wanted as are offered.
pub proof fn law_typed_queries_are_searched(input: Seq<char>)
    ensures
        "https://"@.is_prefix_of(input) || "http://"@.is_prefix_of(input) ==> autocomplete_target(
            input,
        ) == input,
        !("https://"@.is_prefix_of(input) || "http://"@.is_prefix_of(input))
            ==> autocomplete_target(input) == "ytsearch10:"@ + input,
{
}

/// A choice is labelled with title and artist, the artist only if it is not
/// blank, within a hundred characters. It is offered under the track's page
/// exactly when that takes no more than a hundred.
pub proof fn law_choices_fit_their_limits(choice: AutocompleteChoice, track: ResolvedTrack)
    requires
        offers(choice, track),
    ensures
        choice.value@ == track.metadata.webpage_url@,
        is_offered(track) <==> choice.value@.len() <= 100,
        choice.name@.len() <= 100,
        ({
            let full = match track.metadata.artist {
                Some(artist) if !text::laws::is_blank(artist@) => track.metadata.title@ + " — "@
                    + artist@,
                _ => track.metadata.title@,
            };
            &&& full.len() <= 100 ==> choice.name@ == full
            &&& full.len() > 100 ==> choice.name@ == full.take(99).push('…')
        }),
{
    if track.metadata.artist is Some {
        text::laws::law_trimmed_has_no_white_space_around(track.metadata.artist->0@);
    }
}

/// Tracks are offered in the order in which they were found, up to ten of
/// them; those whose page is too long are passed over.
pub proof fn law_choices_come_in_order(tracks: Seq<ResolvedTrack>, track: ResolvedTrack)
    ensures
        offered(Seq::<ResolvedTrack>::empty()).len() == 0,
        offered(tracks).len() <= 10,
        offered(tracks).len() < 10 && track.metadata.webpage_url@.len() <= 100 ==> offered(
            tracks.push(track),
        ) == offered(tracks).push(track),
        offered(tracks).len() == 10 || track.metadata.webpage_url@.len() > 100 ==> offered(
            tracks.push(track),
        ) == offered(tracks),
    decreases tracks.len(),
{
    assert(tracks.push(track).drop_last() =~= tracks);
    if tracks.len() > 0 {
        law_choices_come_in_order(tracks.drop_last(), tracks.last());
        assert(tracks.drop_last().push(tracks.last()) =~= tracks);
    }
}

/// A queued track is the resolved one, asked for by the user with the query
/// that they gave, under the identifier after the last.
pub proof fn law_queued_track_is_the_resolved_one(join: PlayJoin, last_id: u64)
    ensures
        ({
            let track = join.queued_track(last_id);
            &&& track.request == join.request
            &&& track.requested_by.user_id == join.user_id
            &&& track.metadata == join.resolved.metadata
            &&& track.locator == join.resolved.locator
            &&& track.source == join.resolved.source
            &&& last_id < u64::MAX ==> track.id.0 == last_id + 1
            &&& last_id == u64::MAX ==> track.id.0 == 1
        }),
{
}

} // verus!
