//! Queue entries and the playable media that they resolve to.

use std::time::Duration;
use vstd::prelude::*;

use crate::ids::UserId;
use crate::text;
use crate::text::{chars_of, find, lowered, trim};

verus! {

/// Stable identifier assigned when a resolved track enters a player.
#[derive(Debug, Clone, Copy, PartialEq, Eq, Hash, PartialOrd, Ord, Structural)]
pub struct TrackId(pub u64);

impl TrackId {
    #[must_use]
    pub fn new(value: u64) -> (id: Self)
        ensures
            id == TrackId(value),
    {
        TrackId(value)
    }

    #[must_use]
    pub fn get(self) -> (value: u64)
        ensures
            value == self.0,
    {
        self.0
    }
}

/// The exact user submission that produced a track resolution request.
///
/// A request is never blank: it holds at least one character that is not
/// white space.
#[derive(Debug, PartialEq, Eq, Hash)]
pub struct TrackRequest {
    input: String,
}

impl View for TrackRequest {
    type V = Seq<char>;

    closed spec fn view(&self) -> Seq<char> {
        self.input@
    }
}

impl TrackRequest {
    #[verifier::type_invariant]
    spec fn well_formed(self) -> bool {
        text::trimmed(self.input@).len() > 0
    }

    /// Accepts every submission that is not blank.
    pub fn new(input: String) -> (result: Result<Self, &'static str>)
        ensures
            match result {
                Ok(request) => text::trimmed(input@).len() > 0 && request@ == input@,
                Err(message) => text::trimmed(input@).len() == 0 && message@
                    == "track request cannot be empty"@,
            },
    {
        if trim(input.as_str()).is_empty() {
            return Err("track request cannot be empty");
        }
        Ok(TrackRequest { input })
    }

    /// A submission that is known not to be blank.
    pub(crate) fn of_text(input: String) -> (request: Self)
        requires
            text::trimmed(input@).len() > 0,
        ensures
            request@ == input@,
    {
        TrackRequest { input }
    }

    /// The submission, which is never blank.
    #[must_use]
    pub fn input(&self) -> (text: &str)
        ensures
            text@ == self@,
            text::trimmed(self@).len() > 0,
    {
        proof {
            use_type_invariant(self);
        }
        self.input.as_str()
    }
}

impl Clone for TrackRequest {
    fn clone(&self) -> (copy: Self)
        ensures
            copy == *self,
    {
        proof {
            use_type_invariant(self);
        }
        TrackRequest { input: self.input.clone() }
    }
}

/// Discord user that requested a queued track.
#[derive(Debug, Clone, Copy, PartialEq, Eq, Hash, Structural)]
pub struct RequestedBy {
    pub user_id: UserId,
}

impl RequestedBy {
    #[must_use]
    pub fn new(user_id: UserId) -> (requester: Self)
        ensures
            requester.user_id == user_id,
    {
        RequestedBy { user_id }
    }
}

/// Origin service reported by the resolver.
#[derive(Debug, PartialEq, Eq, Hash)]
#[non_exhaustive]
pub enum TrackSource {
    YouTube,
    SoundCloud,
    Bandcamp,
    Twitch,
    Vimeo,
    Other(String),
}

/// The extractor name mentions `service`, in whatever case.
pub open spec fn mentions(extractor: Seq<char>, service: Seq<char>) -> bool {
    text::contains(text::lower(extractor), service)
}

fn mentions_service(normalized: &Vec<char>, service: &str) -> (result: bool)
    ensures
        result == text::contains(normalized@, service@),
{
    let wanted: Vec<char> = chars_of(service);
    match find(normalized, &wanted, 0) {
        Some(_) => true,
        None => false,
    }
}

impl TrackSource {
    /// The source that an extractor's name stands for: the first known service
    /// that it mentions, or the name itself.
    pub open spec fn comes_from(self, extractor: Seq<char>) -> bool {
        if mentions(extractor, "youtube"@) {
            self is YouTube
        } else if mentions(extractor, "soundcloud"@) {
            self is SoundCloud
        } else if mentions(extractor, "bandcamp"@) {
            self is Bandcamp
        } else if mentions(extractor, "twitch"@) {
            self is Twitch
        } else if mentions(extractor, "vimeo"@) {
            self is Vimeo
        } else {
            self matches TrackSource::Other(name) && name@ == extractor
        }
    }

    /// Classifies an extractor by the first known service that its name
    /// mentions, and keeps the name of any other extractor as it is.
    #[must_use]
    pub fn from_extractor(extractor: &str) -> (source: Self)
        ensures
            source.comes_from(extractor@),
    {
        let normalized: Vec<char> = lowered(extractor);
        if mentions_service(&normalized, "youtube") {
            TrackSource::YouTube
        } else if mentions_service(&normalized, "soundcloud") {
            TrackSource::SoundCloud
        } else if mentions_service(&normalized, "bandcamp") {
            TrackSource::Bandcamp
        } else if mentions_service(&normalized, "twitch") {
            TrackSource::Twitch
        } else if mentions_service(&normalized, "vimeo") {
            TrackSource::Vimeo
        } else {
            TrackSource::Other(extractor.to_owned())
        }
    }
}

impl Clone for TrackSource {
    fn clone(&self) -> (copy: Self)
        ensures
            copy == *self,
    {
        match self {
            TrackSource::YouTube => TrackSource::YouTube,
            TrackSource::SoundCloud => TrackSource::SoundCloud,
            TrackSource::Bandcamp => TrackSource::Bandcamp,
            TrackSource::Twitch => TrackSource::Twitch,
            TrackSource::Vimeo => TrackSource::Vimeo,
            TrackSource::Other(name) => TrackSource::Other(name.clone()),
        }
    }
}

/// Metadata safe to retain in queue or persistence state.
#[derive(Debug, PartialEq, Eq)]
pub struct TrackMetadata {
    pub title: String,
    pub artist: Option<String>,
    pub duration: Option<Duration>,
    pub artwork_url: Option<String>,
    pub webpage_url: String,
}

impl Clone for TrackMetadata {
    fn clone(&self) -> (copy: Self)
        ensures
            copy == *self,
    {
        TrackMetadata {
            title: self.title.clone(),
            artist: self.artist.clone(),
            duration: self.duration,
            artwork_url: self.artwork_url.clone(),
            webpage_url: self.webpage_url.clone(),
        }
    }
}

/// Resolver output before the player assigns an application-local track ID.
///
/// `locator` is a stable, public source locator such as a webpage URL. It is
/// never a short-lived signed media URL.
#[derive(Debug, PartialEq, Eq)]
pub struct ResolvedTrack {
    pub source: TrackSource,
    pub metadata: TrackMetadata,
    pub locator: String,
}

impl Clone for ResolvedTrack {
    fn clone(&self) -> (copy: Self)
        ensures
            copy == *self,
    {
        ResolvedTrack {
            source: self.source.clone(),
            metadata: self.metadata.clone(),
            locator: self.locator.clone(),
        }
    }
}

/// Durable queue entry.
///
/// Direct playable media URLs deliberately do not live here. They are resolved
/// on demand into [`PlayableMedia`] immediately before decode/playback.
#[derive(Debug, PartialEq, Eq)]
pub struct Track {
    pub id: TrackId,
    pub request: TrackRequest,
    pub source: TrackSource,
    pub requested_by: RequestedBy,
    pub metadata: TrackMetadata,
    pub locator: String,
}

impl Track {
    #[must_use]
    pub fn from_resolved(
        id: TrackId,
        request: TrackRequest,
        requested_by: RequestedBy,
        resolved: ResolvedTrack,
    ) -> (track: Self)
        ensures
            track == (Track {
                id,
                request,
                source: resolved.source,
                requested_by,
                metadata: resolved.metadata,
                locator: resolved.locator,
            }),
    {
        Track {
            id,
            request,
            source: resolved.source,
            requested_by,
            metadata: resolved.metadata,
            locator: resolved.locator,
        }
    }
}

impl Clone for Track {
    fn clone(&self) -> (copy: Self)
        ensures
            copy == *self,
    {
        Track {
            id: self.id,
            request: self.request.clone(),
            source: self.source.clone(),
            requested_by: self.requested_by,
            metadata: self.metadata.clone(),
            locator: self.locator.clone(),
        }
    }
}

/// Ephemeral direct-media information used only by the decoder boundary.
#[derive(Debug, Clone, PartialEq, Eq)]
pub struct PlayableMedia {
    pub url: String,
    pub http_headers: Vec<(String, String)>,
}

impl PlayableMedia {
    /// Media at `url` that needs no request headers.
    #[must_use]
    pub fn new(url: String) -> (media: Self)
        ensures
            media.url == url,
            media.http_headers@ == Seq::<(String, String)>::empty(),
    {
        PlayableMedia { url, http_headers: Vec::new() }
    }

    /// The same media, fetched with exactly these headers.
    #[must_use]
    pub fn with_http_headers(self, headers: Vec<(String, String)>) -> (media: Self)
        ensures
            media.url == self.url,
            media.http_headers@ == headers@,
    {
        PlayableMedia { url: self.url, http_headers: headers }
    }
}

/// A track comes from a known service if its extractor's name mentions that
/// service anywhere, in whatever case; of several, YouTube counts first, then
/// SoundCloud, Bandcamp, Twitch and Vimeo. Any other name is kept.
pub proof fn law_source_is_the_first_service_mentioned(
    source: TrackSource,
    before: Seq<char>,
    service: Seq<char>,
    after: Seq<char>,
)
    requires
        source.comes_from(before + service + after),
    ensures
        ({
            let small = text::lower(service);
            let name = text::lower(before + service + after);
            let youtube = text::contains(name, "youtube"@);
            let soundcloud = text::contains(name, "soundcloud"@);
            let bandcamp = text::contains(name, "bandcamp"@);
            let twitch = text::contains(name, "twitch"@);
            &&& small == "youtube"@ ==> source is YouTube
            &&& small == "soundcloud"@ && !youtube ==> source is SoundCloud
            &&& small == "bandcamp"@ && !youtube && !soundcloud ==> source is Bandcamp
            &&& small == "twitch"@ && !youtube && !soundcloud && !bandcamp ==> source is Twitch
            &&& small == "vimeo"@ && !youtube && !soundcloud && !bandcamp && !twitch ==> source
                is Vimeo
            &&& source is YouTube ==> youtube
            &&& source is SoundCloud ==> soundcloud
            &&& source is Bandcamp ==> bandcamp
            &&& source is Twitch ==> twitch
            &&& source is Vimeo ==> text::contains(name, "vimeo"@)
            &&& source is Other ==> source->Other_0@ == before + service + after
        }),
{
    let whole = before + service + after;
    let name = text::lower(whole);
    let small = text::lower(service);
    assert(name.subrange(before.len() as int, (before.len() + service.len()) as int) =~= small);
    assert(text::occurs_at(name, small, before.len() as int));
    assert(text::contains(name, small));
}

/// A submission is taken as it is unless it is blank.
pub proof fn law_blank_submissions_are_refused(
    input: String,
    result: Result<TrackRequest, &'static str>,
)
    requires
        call_ensures(TrackRequest::new, (input,), result),
    ensures
        result is Err <==> text::laws::is_blank(input@),
        result is Ok ==> result->Ok_0@ == input@,
        result is Err ==> result->Err_0@ == "track request cannot be empty"@,
{
    text::laws::law_trimmed_has_no_white_space_around(input@);
}

} // verus!
