//! What a resolved track and its playable media take from the backend's
//! document.

use vstd::prelude::*;

use super::YtDlpResolver;
use crate::media::json;
use crate::media::json::{Json, JsonView};
use crate::media::resolver::ResolveError;
use crate::media::track::{PlayableMedia, ResolvedTrack, Track, TrackRequest};
use crate::media::ytdlp;
use crate::redaction;
use crate::text;

verus! {

/// The text begins with `http://` or `https://`.
pub open spec fn is_web_address(input: Seq<char>) -> bool {
    ||| input.len() >= 7 && input.take(7) == seq!['h', 't', 't', 'p', ':', '/', '/']
    ||| input.len() >= 8 && input.take(8) == seq!['h', 't', 't', 'p', 's', ':', '/', '/']
}

proof fn lemma_web_address(input: Seq<char>)
    ensures
        ytdlp::begins_like_url(input) == is_web_address(input),
{
    reveal_strlit("http://");
    reveal_strlit("https://");
    let plain = "http://"@;
    let secure = "https://"@;
    assert(plain =~= seq!['h', 't', 't', 'p', ':', '/', '/']);
    assert(secure =~= seq!['h', 't', 't', 'p', 's', ':', '/', '/']);
    if plain.is_prefix_of(input) {
        assert(input.take(7) =~= plain);
    }
    if secure.is_prefix_of(input) {
        assert(input.take(8) =~= secure);
    }
    if input.len() >= 7 && input.take(7) == plain {
        assert(plain =~= input.subrange(0, 7));
    }
    if input.len() >= 8 && input.take(8) == secure {
        assert(secure =~= input.subrange(0, 8));
    }
}

/// A request that is a web address is handed to the backend as it stands,
/// without the white space around it; any other is searched for, with one
/// result wanted. What the backend is asked for tells the request apart.
pub proof fn law_addresses_are_fetched_and_the_rest_searched(input: Seq<char>)
    ensures
        text::trimmed(input).len() >= 8 && text::trimmed(input).take(8) == "https://"@
            ==> ytdlp::target_of(input) == text::trimmed(input),
        text::trimmed(input).len() >= 7 && text::trimmed(input).take(7) == "http://"@
            ==> ytdlp::target_of(input) == text::trimmed(input),
        !(text::trimmed(input).len() >= 8 && text::trimmed(input).take(8) == "https://"@) && !(
        text::trimmed(input).len() >= 7 && text::trimmed(input).take(7) == "http://"@) ==> {
            let target = ytdlp::target_of(input);
            &&& target.take(10) == "ytsearch1:"@
            &&& target.skip(10) == text::trimmed(input)
        },
{
    reveal_strlit("http://");
    reveal_strlit("https://");
    reveal_strlit("ytsearch1:");
    let trimmed = text::trimmed(input);
    lemma_web_address(trimmed);
    assert("http://"@ =~= seq!['h', 't', 't', 'p', ':', '/', '/']);
    assert("https://"@ =~= seq!['h', 't', 't', 'p', 's', ':', '/', '/']);
    let searched = "ytsearch1:"@ + trimmed;
    assert(searched.take(10) =~= "ytsearch1:"@);
    assert(searched.skip(10) =~= trimmed);
}

/// A field of an object is the value of the first entry with its name.
pub proof fn law_fields_are_found_by_name(entries: Seq<(Seq<char>, JsonView)>, key: Seq<char>)
    ensures
        match JsonView::Object(entries).get(key) {
            Some(value) => exists|i: int|
                0 <= i < entries.len() && #[trigger] entries[i] == (key, value) && forall|j: int|
                    0 <= j < i ==> (#[trigger] entries[j]).0 != key,
            None => forall|i: int| 0 <= i < entries.len() ==> (#[trigger] entries[i]).0 != key,
        },
    decreases entries.len(),
{
    if entries.len() > 0 {
        let rest = entries.drop_first();
        law_fields_are_found_by_name(rest, key);
        assert(forall|j: int| 1 <= j < entries.len() ==> #[trigger] entries[j] == rest[j - 1]);
        if entries[0].0 == key {
            assert(entries[0] == (key, entries[0].1));
        } else {
            assert(JsonView::Object(entries).get(key) == JsonView::Object(rest).get(key));
            match JsonView::Object(rest).get(key) {
                Some(value) => {
                    let i = choose|i: int|
                        0 <= i < rest.len() && #[trigger] rest[i] == (key, value) && forall|j: int|
                            0 <= j < i ==> (#[trigger] rest[j]).0 != key;
                    assert(entries[i + 1] == (key, value));
                },
                None => {},
            }
        }
    }
}

proof fn lemma_first_present(items: Seq<JsonView>)
    ensures
        match ytdlp::first_present(items) {
            Some(entry) => exists|i: int|
                0 <= i < items.len() && #[trigger] items[i] == entry && entry !is Null && forall|
                    j: int,
                |
                    0 <= j < i ==> #[trigger] items[j] is Null,
            None => forall|i: int| 0 <= i < items.len() ==> #[trigger] items[i] is Null,
        },
    decreases items.len(),
{
    if items.len() > 0 {
        let rest = items.drop_first();
        lemma_first_present(rest);
        assert(forall|j: int| 1 <= j < items.len() ==> #[trigger] items[j] == rest[j - 1]);
        if items[0] is Null {
            match ytdlp::first_present(rest) {
                Some(entry) => {
                    let i = choose|i: int|
                        0 <= i < rest.len() && #[trigger] rest[i] == entry && entry !is Null
                            && forall|j: int| 0 <= j < i ==> #[trigger] rest[j] is Null;
                    assert(items[i + 1] == entry);
                },
                None => {},
            }
        } else {
            assert(items[0] == items[0]);
        }
    }
}

/// A document without entries is about itself, one with a list of entries
/// about the first that is not null. There is no other document with a result.
pub proof fn law_first_result_is_taken(value: JsonView)
    ensures
        match value.get("entries"@) {
            None => ytdlp::primary(value) == Some(value),
            Some(JsonView::Array(items)) => match ytdlp::primary(value) {
                Some(entry) => exists|i: int|
                    0 <= i < items.len() && #[trigger] items[i] == entry && entry !is Null
                        && forall|j: int| 0 <= j < i ==> #[trigger] items[j] is Null,
                None => forall|i: int| 0 <= i < items.len() ==> #[trigger] items[i] is Null,
            },
            Some(_) => ytdlp::primary(value) is None,
        },
{
    match value.get("entries"@) {
        Some(JsonView::Array(items)) => {
            lemma_first_present(items);
        },
        _ => {},
    }
}

/// The text of the first of some fields that an entry has as a string.
pub open spec fn first_text(entry: JsonView, keys: Seq<Seq<char>>, text: Option<Seq<char>>) -> bool {
    match text {
        Some(found) => exists|i: int|
            0 <= i < keys.len() && entry.get_text(#[trigger] keys[i]) == Some(found) && forall|
                j: int,
            |
                0 <= j < i ==> entry.get_text(#[trigger] keys[j]) is None,
        None => forall|i: int| 0 <= i < keys.len() ==> entry.get_text(#[trigger] keys[i]) is None,
    }
}

/// What an optional string holds.
pub open spec fn held(string: Option<String>) -> Option<Seq<char>> {
    match string {
        Some(string) => Some(string@),
        None => None,
    }
}

/// A track is resolved exactly when the document has a result, the result a
/// title and the track a public address. The errors say what is missing.
pub proof fn law_resolution_needs_title_and_address(
    result: Result<ResolvedTrack, ResolveError>,
    value: JsonView,
    request: Seq<char>,
)
    requires
        ytdlp::is_resolution(result, value, request),
    ensures
        ytdlp::primary(value) is None <==> result is Err && result->Err_0 is NoResults,
        ytdlp::primary(value) is Some ==> ({
            let entry = ytdlp::primary(value)->0;
            let titled = entry.get_text("title"@) is Some;
            let addressed = entry.get_text("webpage_url"@) is Some || entry.get_text(
                "original_url"@,
            ) is Some || is_web_address(request);
            &&& result is Ok <==> titled && addressed
            &&& !titled ==> result->Err_0 is MissingField && result->Err_0->field@ == "title"@
            &&& titled && !addressed ==> result->Err_0 is MissingField && result->Err_0->field@
                == "webpage_url"@
        }),
{
    lemma_web_address(request);
}

/// A resolved track has the entry's title, the first name given of its artist,
/// uploader, creator and channel, its duration if that is a number, and its
/// own page as address and locator, or else the page asked for.
pub proof fn law_resolved_track_takes_the_entrys_fields(
    track: ResolvedTrack,
    value: JsonView,
    request: Seq<char>,
)
    requires
        ytdlp::is_resolution(Ok(track), value, request),
    ensures
        ({
            let entry = ytdlp::primary(value)->0;
            let page = seq!["webpage_url"@, "original_url"@];
            let names = seq!["artist"@, "uploader"@, "creator"@, "channel"@];
            &&& entry.get_text("title"@) == Some(track.metadata.title@)
            &&& first_text(entry, names, held(track.metadata.artist))
            &&& first_text(entry, page, Some(track.locator@)) || (first_text(entry, page, None)
                && is_web_address(request) && track.locator@ == text::trimmed(request))
            &&& track.metadata.webpage_url@ == track.locator@
            &&& entry.get("duration"@) is Some && entry.get("duration"@)->0 is Number
                ==> track.metadata.duration == entry.get("duration"@)->0->Number_0
            &&& !(entry.get("duration"@) is Some && entry.get("duration"@)->0 is Number)
                ==> track.metadata.duration is None
        }),
{
    lemma_web_address(request);
    let entry = ytdlp::primary(value)->0;
    let page = seq!["webpage_url"@, "original_url"@];
    let names = seq!["artist"@, "uploader"@, "creator"@, "channel"@];
    assert(page[0] == "webpage_url"@ && page[1] == "original_url"@);
    assert(names[0] == "artist"@ && names[1] == "uploader"@ && names[2] == "creator"@ && names[3]
        == "channel"@);
    assert(held(track.metadata.artist) == ytdlp::artist_of(entry));
}

proof fn lemma_last_address(thumbnails: Seq<JsonView>)
    ensures
        match ytdlp::last_address(thumbnails) {
            Some(url) => exists|i: int|
                0 <= i < thumbnails.len() && (#[trigger] thumbnails[i]).get_text("url"@) == Some(
                    url,
                ) && forall|j: int|
                    i < j < thumbnails.len() ==> (#[trigger] thumbnails[j]).get_text("url"@) is None,
            None => forall|i: int|
                0 <= i < thumbnails.len() ==> (#[trigger] thumbnails[i]).get_text("url"@) is None,
        },
    decreases thumbnails.len(),
{
    if thumbnails.len() > 0 {
        let rest = thumbnails.drop_last();
        lemma_last_address(rest);
        assert(forall|j: int| 0 <= j < rest.len() ==> #[trigger] thumbnails[j] == rest[j]);
        if thumbnails.last().get_text("url"@) is Some {
            let last = thumbnails[thumbnails.len() - 1];
            assert(last.get_text("url"@) is Some);
        } else if ytdlp::last_address(rest) is Some {
            let url = ytdlp::last_address(rest)->0;
            let i = choose|i: int|
                0 <= i < rest.len() && (#[trigger] rest[i]).get_text("url"@) == Some(url)
                    && forall|j: int|
                    i < j < rest.len() ==> (#[trigger] rest[j]).get_text("url"@) is None;
            assert(thumbnails[i].get_text("url"@) == Some(url));
        }
    }
}

/// A resolved track's artwork is the entry's thumbnail, or else the last of
/// its thumbnails that has an address.
pub proof fn law_artwork_is_the_thumbnail(
    track: ResolvedTrack,
    value: JsonView,
    request: Seq<char>,
)
    requires
        ytdlp::is_resolution(Ok(track), value, request),
    ensures
        ({
            let entry = ytdlp::primary(value)->0;
            let artwork = held(track.metadata.artwork_url);
            &&& entry.get_text("thumbnail"@) is Some ==> artwork == entry.get_text("thumbnail"@)
            &&& entry.get_text("thumbnail"@) is None ==> match entry.get("thumbnails"@) {
                Some(JsonView::Array(all)) => match artwork {
                    Some(url) => exists|i: int|
                        0 <= i < all.len() && (#[trigger] all[i]).get_text("url"@) == Some(url)
                            && forall|j: int|
                            i < j < all.len() ==> (#[trigger] all[j]).get_text("url"@) is None,
                    None => forall|i: int|
                        0 <= i < all.len() ==> (#[trigger] all[i]).get_text("url"@) is None,
                },
                _ => artwork is None,
            }
        }),
{
    let entry = ytdlp::primary(value)->0;
    match entry.get("thumbnails"@) {
        Some(JsonView::Array(all)) => {
            lemma_last_address(all);
        },
        _ => {},
    }
}

/// A resolved track's source goes by the extractor's key, by its name only
/// where there is no key, and by neither if that is no string.
pub proof fn law_source_goes_by_the_extractor(
    track: ResolvedTrack,
    value: JsonView,
    request: Seq<char>,
)
    requires
        ytdlp::is_resolution(Ok(track), value, request),
    ensures
        ({
            let entry = ytdlp::primary(value)->0;
            let key = entry.get("extractor_key"@);
            let name = entry.get("extractor"@);
            &&& key is Some && key->0 is Text ==> track.source.comes_from(key->0->Text_0)
            &&& key is None && name is Some && name->0 is Text ==> track.source.comes_from(
                name->0->Text_0,
            )
            &&& (key is Some && key->0 !is Text) || (key is None && (name is None || name->0 !is Text))
                ==> track.source.comes_from("unknown"@)
        }),
{
}

/// Where each text of some entries comes from: the entries that hold a text,
/// in their order.
proof fn lemma_text_entries(fields: Seq<(Seq<char>, JsonView)>) -> (origin: Seq<int>)
    ensures
        origin.len() == ytdlp::text_entries(fields).len(),
        forall|k: int|
            #![trigger origin[k]]
            0 <= k < origin.len() ==> 0 <= origin[k] < fields.len() && fields[origin[k]] == (
                ytdlp::text_entries(fields)[k].0,
                JsonView::Text(ytdlp::text_entries(fields)[k].1),
            ),
        forall|k: int, l: int|
            #![trigger origin[k], origin[l]]
            0 <= k < l < origin.len() ==> origin[k] < origin[l],
        forall|i: int|
            0 <= i < fields.len() && (#[trigger] fields[i]).1 is Text ==> origin.contains(i),
    decreases fields.len(),
{
    if fields.len() == 0 {
        Seq::empty()
    } else {
        let rest = fields.drop_last();
        let before = lemma_text_entries(rest);
        let last = fields.len() - 1;
        assert(forall|i: int| 0 <= i < last ==> #[trigger] fields[i] == rest[i]);
        if fields.last().1 is Text {
            let origin = before.push(last);
            assert forall|i: int|
                0 <= i < fields.len() && (#[trigger] fields[i]).1 is Text implies origin.contains(
                i,
            ) by {
                if i < last {
                    assert(rest[i].1 is Text);
                    let k = choose|k: int| 0 <= k < before.len() && before[k] == i;
                    assert(origin[k] == i);
                } else {
                    assert(origin[before.len() as int] == i);
                }
            }
            origin
        } else {
            assert forall|i: int|
                0 <= i < fields.len() && (#[trigger] fields[i]).1 is Text implies before.contains(
                i,
            ) by {
                assert(rest[i].1 is Text);
            }
            before
        }
    }
}

/// A name and a value stand together in some headers.
pub open spec fn has_header(
    headers: Seq<(String, String)>,
    name: Seq<char>,
    value: Seq<char>,
) -> bool {
    exists|k: int| 0 <= k < headers.len() && (#[trigger] headers[k]).0@ == name && headers[k].1@
        == value
}

/// Media is fetched with a header for each field of the entry's headers that
/// is a string: under the field's name, with the field's value, once, and in
/// the order of the fields. What is no string is no header.
pub proof fn law_headers_are_the_named_texts(
    media: PlayableMedia,
    value: JsonView,
    fields: Seq<(Seq<char>, JsonView)>,
)
    requires
        ytdlp::is_media(Ok(media), value),
        ytdlp::primary(value)->0.get("http_headers"@) == Some(JsonView::Object(fields)),
        forall|i: int, j: int|
            0 <= i < j < fields.len() ==> (#[trigger] fields[i]).0 != (#[trigger] fields[j]).0,
    ensures
        forall|name: Seq<char>, content: Seq<char>| #[trigger]
            has_header(media.http_headers@, name, content) <==> JsonView::Object(fields).get_text(
                name,
            ) == Some(content),
        forall|k: int, l: int|
            0 <= k < l < media.http_headers@.len() ==> (#[trigger] media.http_headers@[k]).0@ != (
            #[trigger] media.http_headers@[l]).0@,
        forall|k: int, l: int, i: int, j: int|
            #![trigger media.http_headers@[k], media.http_headers@[l], fields[i], fields[j]]
            0 <= k < l < media.http_headers@.len() && 0 <= i < fields.len() && 0 <= j
                < fields.len() && fields[i].0 == media.http_headers@[k].0@ && fields[j].0
                == media.http_headers@[l].0@ ==> i < j,
{
    let headers = media.http_headers@;
    let texts = ytdlp::text_entries(fields);
    let origin = lemma_text_entries(fields);
    assert(ytdlp::header_texts(headers) == texts);
    assert(headers.len() == texts.len());
    assert forall|k: int| 0 <= k < headers.len() implies (#[trigger] headers[k]).0@ == texts[k].0
        && headers[k].1@ == texts[k].1 by {
        assert(ytdlp::header_texts(headers)[k] == texts[k]);
    }
    assert forall|name: Seq<char>, content: Seq<char>| #[trigger]
        has_header(headers, name, content) <==> JsonView::Object(fields).get_text(name) == Some(
            content,
        ) by {
        law_fields_are_found_by_name(fields, name);
        if has_header(headers, name, content) {
            let k = choose|k: int|
                0 <= k < headers.len() && (#[trigger] headers[k]).0@ == name && headers[k].1@
                    == content;
            assert(fields[origin[k]] == (name, JsonView::Text(content)));
            assert(JsonView::Object(fields).get(name) is Some);
            let found = JsonView::Object(fields).get(name)->0;
            let i = choose|i: int|
                0 <= i < fields.len() && #[trigger] fields[i] == (name, found) && forall|j: int|
                    0 <= j < i ==> (#[trigger] fields[j]).0 != name;
            assert(i == origin[k]);
        }
        if JsonView::Object(fields).get_text(name) == Some(content) {
            let found = JsonView::Text(content);
            let i = choose|i: int|
                0 <= i < fields.len() && #[trigger] fields[i] == (name, found) && forall|j: int|
                    0 <= j < i ==> (#[trigger] fields[j]).0 != name;
            assert(fields[i].1 is Text);
            let k = choose|k: int| 0 <= k < origin.len() && origin[k] == i;
            assert(fields[origin[k]] == fields[i]);
            assert(headers[k].0@ == name && headers[k].1@ == content);
        }
    }
    assert forall|k: int, l: int| 0 <= k < l < headers.len() implies (#[trigger] headers[k]).0@ != (
    #[trigger] headers[l]).0@ by {
        assert(origin[k] < origin[l]);
        assert(fields[origin[k]].0 != fields[origin[l]].0);
    }
    assert forall|k: int, l: int, i: int, j: int|
        #![trigger headers[k], headers[l], fields[i], fields[j]]
        0 <= k < l < headers.len() && 0 <= i < fields.len() && 0 <= j < fields.len() && fields[i].0
            == headers[k].0@ && fields[j].0 == headers[l].0@ implies i < j by {
        assert(origin[k] < origin[l]);
        assert(fields[origin[k]].0 == headers[k].0@);
        assert(fields[origin[l]].0 == headers[l].0@);
        if i < origin[k] {
            assert(fields[i].0 != fields[origin[k]].0);
        }
        if i > origin[k] {
            assert(fields[origin[k]].0 != fields[i].0);
        }
        if j < origin[l] {
            assert(fields[j].0 != fields[origin[l]].0);
        }
        if j > origin[l] {
            assert(fields[origin[l]].0 != fields[j].0);
        }
    }
}

/// Media is found exactly when the document has a result whose URL is a web
/// address. It is that URL, and it needs no headers where the entry names none.
pub proof fn law_media_is_the_entrys_url(
    result: Result<PlayableMedia, ResolveError>,
    value: JsonView,
)
    requires
        ytdlp::is_media(result, value),
    ensures
        ytdlp::primary(value) is None <==> result is Err && result->Err_0 is NoResults,
        ytdlp::primary(value) is Some ==> ({
            let entry = ytdlp::primary(value)->0;
            let playable = entry.get_text("url"@) is Some && is_web_address(
                entry.get_text("url"@)->0,
            );
            &&& playable <==> result is Ok
            &&& !playable ==> result->Err_0 is InvalidMediaUrl
            &&& playable ==> result->Ok_0.url@ == entry.get_text("url"@)->0
            &&& playable && !(entry.get("http_headers"@) is Some && entry.get(
                "http_headers"@,
            )->0 is Object) ==> result->Ok_0.http_headers@.len() == 0
        }),
{
    if ytdlp::primary(value) is Some {
        let entry = ytdlp::primary(value)->0;
        if entry.get_text("url"@) is Some {
            lemma_web_address(entry.get_text("url"@)->0);
        }
        if result is Ok {
            assert(ytdlp::header_texts(result->Ok_0.http_headers@).len()
                == result->Ok_0.http_headers@.len());
        }
    }
}

/// A backend that reports failure is an error that names it and keeps what it
/// said, whatever it printed.
pub proof fn law_failed_backend_is_named<T>(
    result: Result<T, ResolveError>,
    backend: Seq<char>,
    stderr: Seq<u8>,
)
    requires
        ytdlp::is_backend_failure(result, backend, stderr),
    ensures
        result is Err,
        result->Err_0 is BackendFailed,
        result->Err_0->BackendFailed_backend@ == backend,
        result->Err_0->BackendFailed_message@.len() > 0,
{
    ytdlp::law_kept_diagnostics_are_bounded(stderr);
}

/// The text holds nothing that is redacted, on one line.
pub open spec fn is_plain_line(said: Seq<char>) -> bool {
    &&& said.len() > 0
    &&& !said.contains('\n')
    &&& forall|i: int| !(#[trigger] redaction::url_at(said, i))
    &&& forall|i: int|
        !(#[trigger] text::occurs_at(text::lower(said), "authorization:"@, i))
    &&& forall|i: int| !(#[trigger] text::occurs_at(text::lower(said), "cookie:"@, i))
}

/// A plain line of diagnostics is told as it is, without the white space
/// around it. Of longer diagnostics the first 2048 bytes are told, with a mark
/// behind them.
pub proof fn law_plain_diagnostics_are_told(stderr: Seq<u8>)
    ensures
        stderr.len() <= 2_048 && is_plain_line(text::trimmed(text::utf8_lossy(stderr)))
            ==> ytdlp::stderr_message(stderr) == text::trimmed(text::utf8_lossy(stderr)),
        stderr.len() > 2_048 && is_plain_line(text::trimmed(text::utf8_lossy(stderr.take(2_048))))
            ==> ytdlp::stderr_message(stderr) == text::trimmed(
            text::utf8_lossy(stderr.take(2_048)),
        ) + seq!['…'],
{
    reveal_strlit("…");
    assert("…"@ =~= seq!['…']);
    let kept = if stderr.len() > 2_048 {
        stderr.take(2_048)
    } else {
        stderr
    };
    let said = text::trimmed(text::utf8_lossy(kept));
    text::laws::law_trimmed_has_no_white_space_around(text::utf8_lossy(kept));
    if is_plain_line(said) {
        assert(text::is_space('\r'));
        redaction::laws::law_other_lines_are_kept(said);
        redaction::laws::law_lines_are_redacted_one_by_one(said, said);
    }
}

/// The backend is asked for one document, without downloading and without the
/// rest of a playlist: about what was submitted, or about the best sound of
/// the track's public page.
pub proof fn law_backend_is_asked_for_one_document(
    resolver: &YtDlpResolver,
    request: &TrackRequest,
    track: &Track,
    metadata: Vec<String>,
    media: Vec<String>,
)
    requires
        call_ensures(YtDlpResolver::metadata_arguments, (resolver, request), metadata),
        call_ensures(YtDlpResolver::media_arguments, (resolver, track), media),
    ensures
        ({
            let asked = text::texts(metadata@);
            &&& asked.contains("--dump-single-json"@)
            &&& asked.contains("--skip-download"@)
            &&& asked.contains("--no-playlist"@)
            &&& asked.last() == ytdlp::target_of(request@)
        }),
        ({
            let asked = text::texts(media@);
            &&& asked.contains("--dump-single-json"@)
            &&& asked.contains("--skip-download"@)
            &&& asked.contains("--no-playlist"@)
            &&& asked[asked.len() - 3] == "--format"@
            &&& asked[asked.len() - 2] == "bestaudio/best"@
            &&& asked.last() == track.locator@
        }),
{
    let asked = text::texts(metadata@);
    assert(asked[0] == "--dump-single-json"@ && asked[2] == "--skip-download"@ && asked[3]
        == "--no-playlist"@);
    let wanted = text::texts(media@);
    assert(wanted[0] == "--dump-single-json"@ && wanted[2] == "--skip-download"@ && wanted[3]
        == "--no-playlist"@);
}

/// A run that the backend reports as failed is an error whatever it printed.
/// One that succeeded is an error too where its output is no JSON, and else is
/// what the document says.
pub proof fn law_runs_are_judged_before_their_output(
    resolver: &YtDlpResolver,
    request: &TrackRequest,
    stdout: &Vec<u8>,
    stderr: &Vec<u8>,
    failed: Result<ResolvedTrack, ResolveError>,
    resolved: Result<ResolvedTrack, ResolveError>,
    unplayable: Result<PlayableMedia, ResolveError>,
    playable: Result<PlayableMedia, ResolveError>,
)
    requires
        call_ensures(YtDlpResolver::metadata, (resolver, request, false, stdout, stderr), failed),
        call_ensures(YtDlpResolver::metadata, (resolver, request, true, stdout, stderr), resolved),
        call_ensures(YtDlpResolver::media, (resolver, false, stdout, stderr), unplayable),
        call_ensures(YtDlpResolver::media, (resolver, true, stdout, stderr), playable),
    ensures
        failed is Err && failed->Err_0 is BackendFailed,
        unplayable is Err && unplayable->Err_0 is BackendFailed,
        json::json_text(stdout@) is None ==> resolved is Err && resolved->Err_0 is InvalidJson
            && playable is Err && playable->Err_0 is InvalidJson,
        resolved is Ok ==> json::json_text(stdout@) is Some,
        playable is Ok ==> json::json_text(stdout@) is Some && is_web_address(
            playable->Ok_0.url@,
        ),
{
    if json::json_text(stdout@) is Some {
        law_media_is_the_entrys_url(playable, json::json_text(stdout@)->0);
    }
}

/// The media that is read from a document is fetched under its URL, with each
/// header under its own name.
pub proof fn law_read_media_has_the_named_headers(
    value: &Json,
    fields: Seq<(Seq<char>, JsonView)>,
    media: PlayableMedia,
    name: Seq<char>,
    content: Seq<char>,
)
    requires
        call_ensures(
            ytdlp::parse_playable_media,
            (value,),
            Ok::<PlayableMedia, ResolveError>(media),
        ),
        ytdlp::primary(value.document())->0.get("http_headers"@) == Some(JsonView::Object(fields)),
        forall|i: int, j: int|
            0 <= i < j < fields.len() ==> (#[trigger] fields[i]).0 != (#[trigger] fields[j]).0,
    ensures
        Some(media.url@) == ytdlp::primary(value.document())->0.get_text("url"@),
        has_header(media.http_headers@, name, content) <==> JsonView::Object(fields).get_text(name)
            == Some(content),
{
    law_headers_are_the_named_texts(media, value.document(), fields);
}

} // verus!
