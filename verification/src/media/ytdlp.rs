//! Resolution of URLs and free-text searches with `yt-dlp`.

use std::time::Duration;

use vstd::prelude::*;
use vstd::slice::*;
use vstd::string::*;

use crate::clock;
use crate::media::json;
use crate::media::json::{parse_json, Json, JsonView};
use crate::media::resolver::ResolveError;
use crate::media::track::{
    PlayableMedia, ResolvedTrack, Track, TrackMetadata, TrackRequest, TrackSource,
};
use crate::redaction;
use crate::redaction::{redact_sensitive, size};
use crate::text;
use crate::text::{lossy_text, starts_with, trim};

pub mod laws;

verus! {

/// How long the backend may take, in seconds.
pub const DEFAULT_RESOLVE_SECONDS: u64 = 20;

/// How much of the backend's diagnostics is kept, in bytes.
pub const STDERR_LIMIT: usize = 2_048;

/// `yt-dlp` backed resolver for URLs and free-text search.
///
/// Metadata resolution and playable-media resolution are deliberately separate:
/// the first returns a stable public locator suitable for queue state, while
/// the second refreshes the direct media URL immediately before decoding.
#[derive(Debug, PartialEq, Eq)]
pub struct YtDlpResolver {
    binary: String,
    timeout: Duration,
}

impl Default for YtDlpResolver {
    fn default() -> (resolver: Self)
        ensures
            resolver.program() == "yt-dlp"@,
            clock::duration_nanos(resolver.patience()) == 20_000_000_000,
    {
        YtDlpResolver {
            binary: "yt-dlp".to_owned(),
            timeout: Duration::from_secs(DEFAULT_RESOLVE_SECONDS),
        }
    }
}

impl Clone for YtDlpResolver {
    fn clone(&self) -> (copy: Self)
        ensures
            copy == *self,
    {
        YtDlpResolver { binary: self.binary.clone(), timeout: self.timeout }
    }
}

impl YtDlpResolver {
    /// The program that is run.
    pub closed spec fn program(&self) -> Seq<char> {
        self.binary@
    }

    /// How long the program may take.
    pub closed spec fn patience(&self) -> Duration {
        self.timeout
    }

    #[must_use]
    pub fn new() -> (resolver: Self)
        ensures
            resolver.program() == "yt-dlp"@,
            clock::duration_nanos(resolver.patience()) == 20_000_000_000,
    {
        YtDlpResolver::default()
    }

    #[must_use]
    pub fn with_binary(self, binary: String) -> (resolver: Self)
        ensures
            resolver.program() == binary@,
            resolver.patience() == self.patience(),
    {
        YtDlpResolver { binary, timeout: self.timeout }
    }

    #[must_use]
    pub fn with_timeout(self, timeout: Duration) -> (resolver: Self)
        ensures
            resolver.program() == self.program(),
            resolver.patience() == timeout,
    {
        YtDlpResolver { binary: self.binary, timeout }
    }

    /// The program that is run.
    #[must_use]
    pub fn binary(&self) -> (binary: &str)
        ensures
            binary@ == self.program(),
    {
        self.binary.as_str()
    }

    /// How long the program may take.
    #[must_use]
    pub fn timeout(&self) -> (timeout: Duration)
        ensures
            timeout == self.patience(),
    {
        self.timeout
    }

    /// The program's arguments for a track's metadata.
    #[must_use]
    pub fn metadata_arguments(&self, request: &TrackRequest) -> (arguments: Vec<String>)
        ensures
            text::texts(arguments@) == seq![
                "--dump-single-json"@,
                "--no-warnings"@,
                "--skip-download"@,
                "--no-playlist"@,
                target_of(request@),
            ],
    {
        let arguments: Vec<String> = vec![
            "--dump-single-json".to_owned(),
            "--no-warnings".to_owned(),
            "--skip-download".to_owned(),
            "--no-playlist".to_owned(),
            resolution_target(request.input()),
        ];
        assert(text::texts(arguments@) =~= seq![
            "--dump-single-json"@,
            "--no-warnings"@,
            "--skip-download"@,
            "--no-playlist"@,
            target_of(request@),
        ]);
        arguments
    }

    /// The program's arguments for a track's direct media URL.
    #[must_use]
    pub fn media_arguments(&self, track: &Track) -> (arguments: Vec<String>)
        ensures
            text::texts(arguments@) == seq![
                "--dump-single-json"@,
                "--no-warnings"@,
                "--skip-download"@,
                "--no-playlist"@,
                "--format"@,
                "bestaudio/best"@,
                track.locator@,
            ],
    {
        let arguments: Vec<String> = vec![
            "--dump-single-json".to_owned(),
            "--no-warnings".to_owned(),
            "--skip-download".to_owned(),
            "--no-playlist".to_owned(),
            "--format".to_owned(),
            "bestaudio/best".to_owned(),
            track.locator.clone(),
        ];
        assert(text::texts(arguments@) =~= seq![
            "--dump-single-json"@,
            "--no-warnings"@,
            "--skip-download"@,
            "--no-playlist"@,
            "--format"@,
            "bestaudio/best"@,
            track.locator@,
        ]);
        arguments
    }

    /// The error of a run that took too long.
    #[must_use]
    pub fn timed_out(&self) -> (error: ResolveError)
        ensures
            error matches ResolveError::TimedOut { backend, timeout } && backend@ == self.program()
                && timeout == self.patience(),
    {
        ResolveError::TimedOut { backend: self.binary.clone(), timeout: self.timeout }
    }

    /// The error of a program that could not be run.
    #[must_use]
    pub fn not_started(&self, source: String) -> (error: ResolveError)
        ensures
            error matches ResolveError::Spawn { backend, source: given } && backend@
                == self.program() && given == source,
    {
        ResolveError::Spawn { backend: self.binary.clone(), source }
    }

    /// What a finished run for a track's metadata comes to.
    pub fn metadata(
        &self,
        request: &TrackRequest,
        success: bool,
        stdout: &Vec<u8>,
        stderr: &Vec<u8>,
    ) -> (result: Result<ResolvedTrack, ResolveError>)
        ensures
            !success ==> is_backend_failure(result, self.program(), stderr@),
            success && json::json_text(stdout@) is None ==> is_no_json(result, stdout@),
            success && json::json_text(stdout@) is Some ==> is_resolution(
                result,
                json::json_text(stdout@)->0,
                request@,
            ),
    {
        match validate_output(self.binary.as_str(), success, stdout, stderr) {
            Ok(value) => parse_resolved_track(&value, request),
            Err(error) => Err(error),
        }
    }

    /// What a finished run for a track's direct media URL comes to.
    pub fn media(&self, success: bool, stdout: &Vec<u8>, stderr: &Vec<u8>) -> (result: Result<
        PlayableMedia,
        ResolveError,
    >)
        ensures
            !success ==> is_backend_failure(result, self.program(), stderr@),
            success && json::json_text(stdout@) is None ==> is_no_json(result, stdout@),
            success && json::json_text(stdout@) is Some ==> is_media(
                result,
                json::json_text(stdout@)->0,
            ),
    {
        match validate_output(self.binary.as_str(), success, stdout, stderr) {
            Ok(value) => parse_playable_media(&value),
            Err(error) => Err(error),
        }
    }
}

/// The result of a run that the backend itself reports as failed.
pub open spec fn is_backend_failure<T>(
    result: Result<T, ResolveError>,
    backend: Seq<char>,
    stderr: Seq<u8>,
) -> bool {
    result matches Err(error) && error matches ResolveError::BackendFailed {
        backend: name,
        message,
    } && name@ == backend && message@ == stderr_message(stderr)
}

/// The result of a run whose output is no JSON: it says why.
pub open spec fn is_no_json<T>(result: Result<T, ResolveError>, stdout: Seq<u8>) -> bool {
    result matches Err(error) && error matches ResolveError::InvalidJson(fault)
        && json::json_outcome(stdout) == Err::<JsonView, Seq<char>>(json::json_fault(fault))
}

/// The beginning of the backend's diagnostics, trimmed.
pub open spec fn diagnostics(stderr: Seq<u8>) -> Seq<char> {
    let kept = if stderr.len() > STDERR_LIMIT {
        stderr.take(STDERR_LIMIT as int)
    } else {
        stderr
    };
    text::trimmed(text::utf8_lossy(kept))
}

/// What is kept of the backend's diagnostics: their beginning, redacted, with
/// a mark where something was cut off.
pub open spec fn stderr_message(stderr: Seq<u8>) -> Seq<char> {
    let shown = redaction::redacted(diagnostics(stderr));
    if stderr.len() > STDERR_LIMIT {
        shown + "…"@
    } else if shown.len() == 0 {
        "backend returned a non-zero exit status without stderr"@
    } else {
        shown
    }
}

/// Judges a finished run of the backend by its exit status and reads its
/// output.
pub fn validate_output(
    backend: &str,
    success: bool,
    stdout: &Vec<u8>,
    stderr: &Vec<u8>,
) -> (result: Result<Json, ResolveError>)
    ensures
        !success ==> is_backend_failure(result, backend@, stderr@),
        success ==> match result {
            Ok(value) => json::json_text(stdout@) == Some(value.document()),
            Err(_) => is_no_json(result, stdout@),
        },
{
    if !success {
        return Err(
            ResolveError::BackendFailed {
                backend: backend.to_owned(),
                message: bounded_stderr(stderr),
            },
        );
    }
    match parse_json(stdout.as_slice()) {
        Ok(value) => Ok(value),
        Err(error) => Err(ResolveError::InvalidJson(error)),
    }
}

/// What is kept of the backend's diagnostics.
pub fn bounded_stderr(stderr: &Vec<u8>) -> (message: String)
    ensures
        message@ == stderr_message(stderr@),
        message@.len() > 0,
        text::byte_len(message@) <= 3 * STDERR_LIMIT + 3,
{
    let end: usize = if stderr.len() > STDERR_LIMIT {
        STDERR_LIMIT
    } else {
        stderr.len()
    };
    let kept: &[u8] = slice_subrange(stderr.as_slice(), 0, end);
    assert(stderr@.len() <= STDERR_LIMIT ==> kept@ =~= stderr@);
    assert(stderr@.len() > STDERR_LIMIT ==> kept@ =~= stderr@.take(STDERR_LIMIT as int));
    let text: String = lossy_text(kept);
    let mut message: String = redact_sensitive(trim(text.as_str()));
    if stderr.len() > STDERR_LIMIT {
        message.append("…");
    }
    proof {
        reveal_strlit("…");
        lemma_kept_diagnostics_fit(stderr@);
    }
    if message.as_str().is_empty() {
        return "backend returned a non-zero exit status without stderr".to_owned();
    }
    message
}

/// `input` begins like a web address.
pub open spec fn begins_like_url(input: Seq<char>) -> bool {
    "https://"@.is_prefix_of(input) || "http://"@.is_prefix_of(input)
}

/// What the backend is asked for: a URL as it is, anything else as a search
/// for one result.
pub open spec fn target_of(input: Seq<char>) -> Seq<char> {
    if begins_like_url(text::trimmed(input)) {
        text::trimmed(input)
    } else {
        "ytsearch1:"@ + text::trimmed(input)
    }
}

/// What the backend is asked for.
pub fn resolution_target(input: &str) -> (target: String)
    ensures
        target@ == target_of(input@),
{
    let input: &str = trim(input);
    if is_http_url(input) {
        input.to_owned()
    } else {
        "ytsearch1:".to_owned().concat(input)
    }
}

/// Whether `input` begins like a web address.
pub fn is_http_url(input: &str) -> (result: bool)
    ensures
        result == begins_like_url(input@),
{
    starts_with(input, "https://") || starts_with(input, "http://")
}

/// The first item that is not null.
pub open spec fn first_present(items: Seq<JsonView>) -> Option<JsonView>
    decreases items.len(),
{
    if items.len() == 0 {
        None
    } else if items[0] is Null {
        first_present(items.drop_first())
    } else {
        Some(items[0])
    }
}

/// The entry that a document is about: the document itself, or the first of
/// its entries that is not null.
pub open spec fn primary(value: JsonView) -> Option<JsonView> {
    match value.get("entries"@) {
        None => Some(value),
        Some(JsonView::Array(items)) => first_present(items),
        Some(_) => None,
    }
}

/// The entry that a document is about.
pub fn primary_entry(value: &Json) -> (result: Result<&Json, ResolveError>)
    ensures
        match result {
            Ok(entry) => primary(value.document()) == Some(entry.document()),
            Err(error) => error is NoResults && primary(value.document()) is None,
        },
{
    match value.get("entries") {
        None => Ok(value),
        Some(entries) => match entries {
            Json::Array(items) => {
                let ghost all = entries.document()->Array_0;
                let mut i: usize = 0;
                assert(all.skip(0) =~= all);
                while i < items.len()
                    invariant
                        i <= items@.len() == all.len(),
                        forall|j: int| 0 <= j < all.len() ==> #[trigger] all[j]
                            == items@[j].document(),
                        primary(value.document()) == first_present(all),
                        first_present(all) == first_present(all.skip(i as int)),
                    decreases items@.len() - i,
                {
                    assert(all.skip(i as int)[0] == all[i as int]);
                    assert(all.skip(i as int).drop_first() =~= all.skip(i + 1));
                    match &items[i] {
                        Json::Null => {},
                        entry => {
                            return Ok(entry);
                        },
                    }
                    i += 1;
                }
                Err(ResolveError::NoResults)
            },
            _ => Err(ResolveError::NoResults),
        },
    }
}

/// The public address of an entry: its own, or the one that it was asked for
/// under.
pub open spec fn address_of(entry: JsonView, request: Seq<char>) -> Option<Seq<char>> {
    match entry.get_text("webpage_url"@) {
        Some(url) => Some(url),
        None => match entry.get_text("original_url"@) {
            Some(url) => Some(url),
            None => if begins_like_url(request) {
                Some(text::trimmed(request))
            } else {
                None
            },
        },
    }
}

/// Who made an entry.
pub open spec fn artist_of(entry: JsonView) -> Option<Seq<char>> {
    match entry.get_text("artist"@) {
        Some(name) => Some(name),
        None => match entry.get_text("uploader"@) {
            Some(name) => Some(name),
            None => match entry.get_text("creator"@) {
                Some(name) => Some(name),
                None => entry.get_text("channel"@),
            },
        },
    }
}

/// How long an entry plays.
pub open spec fn duration_of(entry: JsonView) -> Option<Duration> {
    match entry.get("duration"@) {
        Some(JsonView::Number(span)) => span,
        _ => None,
    }
}

/// The last of some thumbnails that has an address.
pub open spec fn last_address(thumbnails: Seq<JsonView>) -> Option<Seq<char>>
    decreases thumbnails.len(),
{
    if thumbnails.len() == 0 {
        None
    } else {
        match thumbnails.last().get_text("url"@) {
            Some(url) => Some(url),
            None => last_address(thumbnails.drop_last()),
        }
    }
}

/// The address of the last thumbnail of an entry that has one.
pub open spec fn thumbnail_of(entry: JsonView) -> Option<Seq<char>> {
    match entry.get("thumbnails"@) {
        Some(JsonView::Array(thumbnails)) => last_address(thumbnails),
        _ => None,
    }
}

/// The picture of an entry.
pub open spec fn artwork_of(entry: JsonView) -> Option<Seq<char>> {
    match entry.get_text("thumbnail"@) {
        Some(url) => Some(url),
        None => thumbnail_of(entry),
    }
}

/// The name of the extractor that found an entry. The short name counts only
/// where there is no key at all.
pub open spec fn extractor_of(entry: JsonView) -> Seq<char> {
    let field = match entry.get("extractor_key"@) {
        Some(field) => Some(field),
        None => entry.get("extractor"@),
    };
    match field {
        Some(JsonView::Text(name)) => name,
        _ => "unknown"@,
    }
}

/// An optional string holds an optional text.
pub open spec fn same_option(string: Option<String>, text: Option<Seq<char>>) -> bool {
    match string {
        Some(string) => text == Some(string@),
        None => text is None,
    }
}

/// What a document resolves to. It needs an entry, the entry a title and an
/// address; the address is what the queue keeps.
pub open spec fn is_resolution(
    result: Result<ResolvedTrack, ResolveError>,
    value: JsonView,
    request: Seq<char>,
) -> bool {
    match primary(value) {
        None => result matches Err(error) && error is NoResults,
        Some(entry) => match entry.get_text("title"@) {
            None => result matches Err(error) && error matches ResolveError::MissingField { field }
                && field@ == "title"@,
            Some(title) => match address_of(entry, request) {
                None => result matches Err(error) && error matches ResolveError::MissingField {
                    field,
                } && field@ == "webpage_url"@,
                Some(address) => {
                    &&& result matches Ok(track)
                    &&& track.metadata.title@ == title
                    &&& same_option(track.metadata.artist, artist_of(entry))
                    &&& track.metadata.duration == duration_of(entry)
                    &&& same_option(track.metadata.artwork_url, artwork_of(entry))
                    &&& track.metadata.webpage_url@ == address
                    &&& track.locator@ == address
                    &&& track.source.comes_from(extractor_of(entry))
                },
            },
        },
    }
}

/// Reads a track's metadata out of the backend's output.
pub fn parse_resolved_track(value: &Json, request: &TrackRequest) -> (result: Result<
    ResolvedTrack,
    ResolveError,
>)
    ensures
        is_resolution(result, value.document(), request@),
{
    let entry: &Json = match primary_entry(value) {
        Ok(entry) => entry,
        Err(error) => {
            return Err(error);
        },
    };
    let title: String = match string_field(entry, "title") {
        Ok(title) => title,
        Err(error) => {
            return Err(error);
        },
    };
    let webpage_url: String = match entry.get_text("webpage_url") {
        Some(url) => url.to_owned(),
        None => match entry.get_text("original_url") {
            Some(url) => url.to_owned(),
            None => {
                if is_http_url(request.input()) {
                    trim(request.input()).to_owned()
                } else {
                    return Err(ResolveError::MissingField { field: "webpage_url" });
                }
            },
        },
    };
    let artist: Option<String> = match entry.get_text("artist") {
        Some(name) => Some(name.to_owned()),
        None => match entry.get_text("uploader") {
            Some(name) => Some(name.to_owned()),
            None => match entry.get_text("creator") {
                Some(name) => Some(name.to_owned()),
                None => match entry.get_text("channel") {
                    Some(name) => Some(name.to_owned()),
                    None => None,
                },
            },
        },
    };
    let duration: Option<Duration> = match entry.get("duration") {
        Some(Json::Number(span)) => *span,
        _ => None,
    };
    let artwork_url: Option<String> = match entry.get_text("thumbnail") {
        Some(url) => Some(url.to_owned()),
        None => last_thumbnail_url(entry),
    };
    let field: Option<&Json> = match entry.get("extractor_key") {
        Some(field) => Some(field),
        None => entry.get("extractor"),
    };
    let extractor: &str = match field {
        Some(Json::Text(name)) => name.as_str(),
        _ => "unknown",
    };
    Ok(
        ResolvedTrack {
            source: TrackSource::from_extractor(extractor),
            metadata: TrackMetadata {
                title,
                artist,
                duration,
                artwork_url,
                webpage_url: webpage_url.clone(),
            },
            locator: webpage_url,
        },
    )
}

/// The entries of an object that are strings.
pub open spec fn text_entries(entries: Seq<(Seq<char>, JsonView)>) -> Seq<(Seq<char>, Seq<char>)>
    decreases entries.len(),
{
    if entries.len() == 0 {
        Seq::empty()
    } else {
        let before = text_entries(entries.drop_last());
        match entries.last().1 {
            JsonView::Text(value) => before.push((entries.last().0, value)),
            _ => before,
        }
    }
}

/// The request headers that an entry asks for.
pub open spec fn headers_of(entry: JsonView) -> Seq<(Seq<char>, Seq<char>)> {
    match entry.get("http_headers"@) {
        Some(JsonView::Object(entries)) => text_entries(entries),
        _ => Seq::empty(),
    }
}

/// The texts of some headers.
pub open spec fn header_texts(headers: Seq<(String, String)>) -> Seq<(Seq<char>, Seq<char>)> {
    headers.map_values(|header: (String, String)| (header.0@, header.1@))
}

/// The playable media that a document describes. It needs an entry with a web
/// address.
pub open spec fn is_media(result: Result<PlayableMedia, ResolveError>, value: JsonView) -> bool {
    match primary(value) {
        None => result matches Err(error) && error is NoResults,
        Some(entry) => match entry.get_text("url"@) {
            Some(url) if begins_like_url(url) => {
                &&& result matches Ok(media)
                &&& media.url@ == url
                &&& header_texts(media.http_headers@) == headers_of(entry)
            },
            _ => result matches Err(error) && error is InvalidMediaUrl,
        },
    }
}

/// Reads a direct media URL out of the backend's output.
pub fn parse_playable_media(value: &Json) -> (result: Result<PlayableMedia, ResolveError>)
    ensures
        is_media(result, value.document()),
{
    let entry: &Json = match primary_entry(value) {
        Ok(entry) => entry,
        Err(error) => {
            return Err(error);
        },
    };
    let url: &str = match entry.get_text("url") {
        Some(url) => url,
        None => {
            return Err(ResolveError::InvalidMediaUrl);
        },
    };
    if !is_http_url(url) {
        return Err(ResolveError::InvalidMediaUrl);
    }
    let mut headers: Vec<(String, String)> = Vec::new();
    assert(header_texts(headers@) =~= Seq::empty());
    if let Some(field) = entry.get("http_headers") {
        if let Json::Object(entries) = field {
            let ghost all = field.document()->Object_0;
            let mut i: usize = 0;
            assert(all.take(0) =~= Seq::empty());
            while i < entries.len()
                invariant
                    i <= entries@.len() == all.len(),
                    forall|j: int|
                        0 <= j < all.len() ==> #[trigger] all[j] == (
                            entries@[j].0@,
                            entries@[j].1.document(),
                        ),
                    header_texts(headers@) == text_entries(all.take(i as int)),
                decreases entries@.len() - i,
            {
                assert(all.take(i + 1).drop_last() =~= all.take(i as int));
                assert(all.take(i + 1).last() == all[i as int]);
                let ghost before = header_texts(headers@);
                match &entries[i].1 {
                    Json::Text(value) => {
                        headers.push((entries[i].0.clone(), value.clone()));
                        assert(header_texts(headers@) =~= before.push(
                            (entries@[i as int].0@, value@),
                        ));
                    },
                    _ => {},
                }
                i += 1;
            }
            assert(all.take(i as int) =~= all);
        }
    }
    Ok(PlayableMedia::new(url.to_owned()).with_http_headers(headers))
}

/// The field `field` of an object, which has to be a string.
pub fn string_field(value: &Json, field: &'static str) -> (result: Result<String, ResolveError>)
    ensures
        match result {
            Ok(text) => value.document().get_text(field@) == Some(text@),
            Err(error) => value.document().get_text(field@) is None && error is MissingField
                && error->MissingField_field@ == field@,
        },
{
    match value.get_text(field) {
        Some(text) => Ok(text.to_owned()),
        None => Err(ResolveError::MissingField { field }),
    }
}

/// The address of the last thumbnail of an entry that has one.
pub fn last_thumbnail_url(value: &Json) -> (result: Option<String>)
    ensures
        same_option(result, thumbnail_of(value.document())),
{
    match value.get("thumbnails") {
        Some(field) => match field {
            Json::Array(thumbnails) => {
                let ghost all = field.document()->Array_0;
                let mut i: usize = thumbnails.len();
                assert(all.take(i as int) =~= all);
                while i > 0
                    invariant
                        i <= thumbnails@.len() == all.len(),
                        forall|j: int| 0 <= j < all.len() ==> #[trigger] all[j]
                            == thumbnails@[j].document(),
                        thumbnail_of(value.document()) == last_address(all.take(i as int)),
                    decreases i,
                {
                    i -= 1;
                    assert(all.take(i + 1).drop_last() =~= all.take(i as int));
                    assert(all.take(i + 1).last() == all[i as int]);
                    if let Some(url) = thumbnails[i].get_text("url") {
                        return Some(url.to_owned());
                    }
                }
                None
            },
            _ => None,
        },
        None => None,
    }
}

/// What is kept of the backend's diagnostics holds no URL.
pub proof fn law_kept_diagnostics_hold_no_url(stderr: Seq<u8>, i: int)
    ensures
        !redaction::url_at(stderr_message(stderr), i),
{
    let shown = redaction::redacted(diagnostics(stderr));
    let message = stderr_message(stderr);
    reveal_strlit("http://");
    reveal_strlit("https://");
    reveal_strlit("…");
    redaction::law_redacted_text_holds_no_url(diagnostics(stderr), i);
    if redaction::url_at(message, i) {
        let p = if text::occurs_at(message, "http://"@, i) {
            "http://"@
        } else {
            "https://"@
        };
        let window = message.subrange(i, i + p.len());
        assert(window == p);
        assert(forall|j: int| 0 <= j < p.len() ==> window[j] == #[trigger] message[i + j]);
        if stderr.len() > STDERR_LIMIT {
            if i + p.len() > shown.len() {
                assert(window.last() == '…');
                assert(p.last() == '/');
            } else {
                assert(shown.subrange(i, i + p.len()) =~= window);
                assert(redaction::url_at(shown, i));
            }
        } else if shown.len() == 0 {
            reveal_strlit("backend returned a non-zero exit status without stderr");
            assert(window[0] == 'h' && window[1] == 't');
            assert(message[i] == 'h' && message[i + 1] == 't');
        }
    }
}

/// What is kept of the backend's diagnostics takes three bytes for each byte
/// that was looked at, and the mark.
proof fn lemma_kept_diagnostics_fit(stderr: Seq<u8>)
    requires
        ({
            let kept = if stderr.len() > STDERR_LIMIT {
                stderr.take(STDERR_LIMIT as int)
            } else {
                stderr
            };
            text::decodes_lossily(kept, text::utf8_lossy(kept))
        }),
    ensures
        stderr_message(stderr).len() > 0,
        text::byte_len(stderr_message(stderr)) <= 3 * STDERR_LIMIT + 3,
{
    let kept = if stderr.len() > STDERR_LIMIT {
        stderr.take(STDERR_LIMIT as int)
    } else {
        stderr
    };
    let decoded = text::utf8_lossy(kept);
    let shown = redaction::redacted(diagnostics(stderr));
    size::lemma_lossy_allowance(kept, decoded);
    size::lemma_trimmed_allowance(decoded);
    size::law_redaction_keeps_to_the_allowance(diagnostics(stderr));
    text::lemma_byte_len_concat(shown, "…"@);
    reveal_strlit("…");
    assert("…"@ =~= seq!['…']);
    text::lemma_byte_len_char('…');
    reveal_strlit("backend returned a non-zero exit status without stderr");
    text::lemma_ascii_byte_len("backend returned a non-zero exit status without stderr"@);
}

/// What is kept of the backend's diagnostics is never empty, and is at most four
/// times as long as the text that their kept beginning encodes, one mark aside.
/// A backend that said nothing is answered for.
pub proof fn law_kept_diagnostics_are_bounded(stderr: Seq<u8>)
    ensures
        stderr_message(stderr).len() > 0,
        stderr.len() > STDERR_LIMIT ==> {
            &&& stderr_message(stderr).len() <= 4 * text::utf8_lossy(
                stderr.take(STDERR_LIMIT as int),
            ).len() + 1
            &&& stderr_message(stderr).last() == '…'
        },
        stderr.len() <= STDERR_LIMIT ==> {
            ||| stderr_message(stderr) == "backend returned a non-zero exit status without stderr"@
            ||| stderr_message(stderr).len() <= 4 * text::utf8_lossy(stderr).len()
        },
        stderr.len() <= STDERR_LIMIT && text::trimmed(text::utf8_lossy(stderr)).len() == 0
            ==> stderr_message(stderr)
            == "backend returned a non-zero exit status without stderr"@,
{
    reveal_strlit("…");
    reveal_strlit("backend returned a non-zero exit status without stderr");
    redaction::law_redaction_is_bounded(diagnostics(stderr));
    let kept = if stderr.len() > STDERR_LIMIT {
        stderr.take(STDERR_LIMIT as int)
    } else {
        stderr
    };
    text::lemma_trimmed_shrinks(text::utf8_lossy(kept));
}

/// Of diagnostics that are cut off, only their kept beginning matters.
pub proof fn law_cut_diagnostics_depend_on_their_beginning(stderr: Seq<u8>, other: Seq<u8>)
    requires
        stderr.len() > STDERR_LIMIT,
        other.len() > STDERR_LIMIT,
        stderr.take(STDERR_LIMIT as int) == other.take(STDERR_LIMIT as int),
    ensures
        stderr_message(stderr) == stderr_message(other),
{
}

} // verus!
