use std::time::Duration;

use sonoryn::media::decoder::{
    contains_newline, render_http_headers, DecodeError, EncodedOpusFrame, FfmpegDecodeOptions,
    FfmpegOpusDecoder, FrameRead, VoiceOpusFrameDuration,
};
use sonoryn::media::json::{parse_json, Json};
use sonoryn::media::ogg::{OggFault, OggPacketReader, PacketRead, ReadError};
use sonoryn::media::resolver::{playlist_of_one, ResolveError, RetryClass};
use sonoryn::media::track::{
    PlayableMedia, RequestedBy, ResolvedTrack, Track, TrackId, TrackMetadata, TrackRequest,
    TrackSource,
};
use sonoryn::media::ytdlp::{
    bounded_stderr, parse_playable_media, parse_resolved_track, resolution_target, string_field,
    validate_output, YtDlpResolver,
};
use sonoryn::ids::UserId;

fn document(text: &str) -> Json {
    parse_json(text.as_bytes()).expect("document")
}

#[test]
fn creates_durable_track_without_playable_media_state() {
    let request = TrackRequest::new("never gonna give you up".to_owned()).expect("request");
    let resolved = ResolvedTrack {
        source: TrackSource::YouTube,
        metadata: TrackMetadata {
            title: "Example".to_owned(),
            artist: Some("Artist".to_owned()),
            duration: Some(Duration::from_secs(42)),
            artwork_url: Some("https://img.example/cover.jpg".to_owned()),
            webpage_url: "https://example.test/watch/1".to_owned(),
        },
        locator: "https://example.test/watch/1".to_owned(),
    };
    let track = Track::from_resolved(
        TrackId::new(7),
        request,
        RequestedBy::new(UserId::new(9)),
        resolved,
    );

    assert_eq!(track.id.get(), 7);
    assert_eq!(track.request.input(), "never gonna give you up");
    assert_eq!(track.metadata.duration, Some(Duration::from_secs(42)));
    assert_eq!(track.locator, track.metadata.webpage_url);
}

#[test]
fn classifies_common_extractors() {
    assert_eq!(TrackSource::from_extractor("Youtube"), TrackSource::YouTube);
    assert_eq!(
        TrackSource::from_extractor("soundcloud:set"),
        TrackSource::SoundCloud
    );
    assert_eq!(
        TrackSource::from_extractor("custom"),
        TrackSource::Other("custom".to_owned())
    );
}

#[test]
fn classifies_the_other_services() {
    assert_eq!(TrackSource::from_extractor("BandCamp:album"), TrackSource::Bandcamp);
    assert_eq!(TrackSource::from_extractor("twitch:stream"), TrackSource::Twitch);
    assert_eq!(TrackSource::from_extractor("Vimeo"), TrackSource::Vimeo);
    assert_eq!(TrackSource::from_extractor("vimeo on youtube"), TrackSource::YouTube);
}

#[test]
fn blank_requests_are_refused() {
    assert_eq!(
        TrackRequest::new(" \t\u{3000}".to_owned()),
        Err("track request cannot be empty")
    );
    assert_eq!(TrackRequest::new(" a ".to_owned()).expect("request").input(), " a ");
}

#[test]
fn transient_source_failures_are_retryable() {
    let timeout = ResolveError::TimedOut {
        backend: "fixture".to_owned(),
        timeout: Duration::from_secs(1),
    };
    let backend = ResolveError::BackendFailed {
        backend: "fixture".to_owned(),
        message: "temporary upstream failure".to_owned(),
    };

    assert_eq!(timeout.retry_class(), RetryClass::Retryable);
    assert!(backend.is_retryable());
}

#[test]
fn malformed_or_local_failures_are_permanent() {
    let spawn = ResolveError::Spawn {
        backend: "fixture".to_owned(),
        source: "missing binary".to_owned(),
    };

    assert_eq!(spawn.retry_class(), RetryClass::Permanent);
    assert_eq!(ResolveError::NoResults.retry_class(), RetryClass::Permanent);
    assert_eq!(
        ResolveError::InvalidMediaUrl.retry_class(),
        RetryClass::Permanent
    );
}

#[test]
fn free_text_uses_one_result_search() {
    assert_eq!(
        resolution_target("  artist song  "),
        "ytsearch1:artist song"
    );
    assert_eq!(
        resolution_target("https://example.test/watch/1"),
        "https://example.test/watch/1"
    );
}

#[test]
fn parses_search_entry_into_durable_metadata() {
    let request = TrackRequest::new("artist song".to_owned()).expect("request");
    let resolved = parse_resolved_track(
        &document(
            r#"{
                "entries": [{
                    "title": "Song",
                    "uploader": "Artist",
                    "duration": 61.5,
                    "thumbnail": "https://img.example/song.jpg",
                    "webpage_url": "https://www.youtube.com/watch?v=abc",
                    "extractor_key": "Youtube"
                }]
            }"#,
        ),
        &request,
    )
    .expect("resolved track");

    assert_eq!(resolved.source, TrackSource::YouTube);
    assert_eq!(resolved.metadata.title, "Song");
    assert_eq!(resolved.metadata.artist.as_deref(), Some("Artist"));
    assert_eq!(resolved.metadata.duration, Some(Duration::from_millis(61_500)));
    assert_eq!(
        resolved.locator,
        "https://www.youtube.com/watch?v=abc"
    );
}

#[test]
fn playable_media_keeps_signed_url_outside_track_metadata() {
    let media = parse_playable_media(&document(
        r#"{
            "url": "https://cdn.example.test/signed?expires=1",
            "http_headers": {
                "User-Agent": "Sonoryn fixture",
                "Referer": "https://example.test/"
            }
        }"#,
    ))
    .expect("playable media");

    assert_eq!(media.url, "https://cdn.example.test/signed?expires=1");
    assert_eq!(media.http_headers.len(), 2);
}

#[test]
fn the_first_entry_that_is_not_null_counts() {
    let request = TrackRequest::new("https://list.test/1 ".to_owned()).expect("request");
    let resolved = parse_resolved_track(
        &document(
            r#"{"entries": [null, {"title": "Second", "channel": "Channel", "creator": null,
                "duration": -1, "extractor_key": 7, "extractor": "vimeo",
                "thumbnails": [{"url": "a"}, {"url": "b"}, {}]}, {"title": "Third"}]}"#,
        ),
        &request,
    )
    .expect("resolved track");
    assert_eq!(resolved.metadata.title, "Second");
    assert_eq!(resolved.metadata.artist.as_deref(), Some("Channel"));
    assert_eq!(resolved.metadata.duration, None);
    assert_eq!(resolved.metadata.artwork_url.as_deref(), Some("b"));
    assert_eq!(resolved.metadata.webpage_url, "https://list.test/1");
    assert_eq!(resolved.source, TrackSource::Other("unknown".to_owned()));
}

#[test]
fn incomplete_documents_are_refused() {
    let request = TrackRequest::new("song".to_owned()).expect("request");
    let empty = parse_resolved_track(&document(r#"{"entries": [null]}"#), &request);
    assert!(matches!(empty, Err(ResolveError::NoResults)));
    let odd = parse_resolved_track(&document(r#"{"entries": 3}"#), &request);
    assert!(matches!(odd, Err(ResolveError::NoResults)));
    let untitled = parse_resolved_track(&document("{}"), &request);
    assert!(matches!(untitled, Err(ResolveError::MissingField { field: "title" })));
    let homeless = parse_resolved_track(&document(r#"{"title": "x"}"#), &request);
    assert!(matches!(homeless, Err(ResolveError::MissingField { field: "webpage_url" })));
    let media = parse_playable_media(&document(r#"{"url": "ftp://x"}"#));
    assert!(matches!(media, Err(ResolveError::InvalidMediaUrl)));
    assert!(matches!(
        string_field(&document(r#"{"a": 1}"#), "a"),
        Err(ResolveError::MissingField { field: "a" })
    ));
}

#[test]
fn the_backend_is_judged_by_its_exit_status() {
    let output = validate_output("yt-dlp", false, &b"{}".to_vec(), &b" broken \n".to_vec());
    match output {
        Err(ResolveError::BackendFailed { backend, message }) => {
            assert_eq!(backend, "yt-dlp");
            assert_eq!(message, "broken");
        }
        _ => panic!("expected a backend failure"),
    }
    let invalid = validate_output("yt-dlp", true, &b"{".to_vec(), &Vec::new());
    assert!(matches!(invalid, Err(ResolveError::InvalidJson(_))));
    let valid = validate_output("yt-dlp", true, &br#"{"a": ["b"]}"#.to_vec(), &Vec::new());
    match valid.expect("document").get("a") {
        Some(Json::Array(items)) => {
            assert!(matches!(&items[0], Json::Text(text) if text == "b"));
        }
        other => panic!("{other:?}"),
    }
}

#[test]
fn diagnostics_are_bounded_and_redacted() {
    assert_eq!(
        bounded_stderr(&b"  \n".to_vec()),
        "backend returned a non-zero exit status without stderr"
    );
    assert_eq!(
        bounded_stderr(&b"ERROR: https://cdn.test/?sig=secret gone".to_vec()),
        "ERROR: [REDACTED_URL] gone"
    );
    let long = vec![b'x'; 3_000];
    let message = bounded_stderr(&long);
    assert_eq!(message.chars().count(), 2_049);
    assert!(message.ends_with('…'));
    assert_eq!(bounded_stderr(&vec![b'a', 0xff, b'b']), "a\u{fffd}b");
}

#[test]
fn resolver_runs_its_program_with_fixed_arguments() {
    let resolver = YtDlpResolver::new();
    assert_eq!(resolver.binary(), "yt-dlp");
    assert_eq!(resolver.timeout(), Duration::from_secs(20));
    let request = TrackRequest::new(" song ".to_owned()).expect("request");
    assert_eq!(
        resolver.metadata_arguments(&request),
        [
            "--dump-single-json",
            "--no-warnings",
            "--skip-download",
            "--no-playlist",
            "ytsearch1:song"
        ]
    );
    let resolver = resolver
        .with_binary("other".to_owned())
        .with_timeout(Duration::from_secs(3));
    assert_eq!(resolver.clone(), resolver);
    assert_eq!(resolver.binary(), "other");
    match resolver.timed_out() {
        ResolveError::TimedOut { backend, timeout } => {
            assert_eq!((backend.as_str(), timeout), ("other", Duration::from_secs(3)));
        }
        other => panic!("{other:?}"),
    }
    assert!(matches!(
        resolver.not_started("gone".to_owned()),
        ResolveError::Spawn { .. }
    ));
    let resolved = resolver.metadata(
        &request,
        true,
        &br#"{"title": "x", "original_url": "https://x.test"}"#.to_vec(),
        &Vec::new(),
    );
    let resolved = resolved.expect("resolved");
    assert_eq!(resolved.locator, "https://x.test");
    let track = Track::from_resolved(
        TrackId::new(1),
        request,
        RequestedBy::new(UserId::new(2)),
        resolved.clone(),
    );
    assert_eq!(
        resolver.media_arguments(&track),
        [
            "--dump-single-json",
            "--no-warnings",
            "--skip-download",
            "--no-playlist",
            "--format",
            "bestaudio/best",
            "https://x.test"
        ]
    );
    let media = resolver.media(true, &br#"{"url": "http://m.test"}"#.to_vec(), &Vec::new());
    assert_eq!(media.expect("media"), PlayableMedia::new("http://m.test".to_owned()));
    assert!(matches!(
        resolver.media(false, &Vec::new(), &Vec::new()),
        Err(ResolveError::BackendFailed { .. })
    ));
    let playlist = playlist_of_one(Ok(resolved.clone())).expect("playlist");
    assert_eq!(playlist, vec![resolved]);
    assert!(playlist_of_one(Err(ResolveError::NoResults)).is_err());
}

#[test]
fn json_documents_are_read_as_they_are() {
    let json = document(r#"{"b": [true, null, 1.5, {"c": "d"}], "a": 18446744073709551615}"#);
    match json.get("b") {
        Some(Json::Array(items)) => {
            assert!(matches!(items[0], Json::Bool(true)));
            assert!(matches!(items[1], Json::Null));
            assert!(matches!(items[2], Json::Number(Some(span)) if span == Duration::from_millis(1_500)));
            assert_eq!(items[3].get_text("c"), Some("d"));
        }
        other => panic!("{other:?}"),
    }
    assert!(matches!(json.get("a"), Some(Json::Number(None))));
    assert!(json.get("z").is_none());
    assert!(json.get_text("b").is_none());
    assert!(parse_json(b"nope").is_err());
}

fn ogg_page(header_type: u8, lacing: &[u8], payload: &[u8]) -> Vec<u8> {
    assert!(lacing.len() <= u8::MAX as usize);
    assert_eq!(
        lacing.iter().map(|length| usize::from(*length)).sum::<usize>(),
        payload.len()
    );

    let mut header = [0_u8; 27];
    header[..4].copy_from_slice(b"OggS");
    header[4] = 0;
    header[5] = header_type;
    header[26] = lacing.len() as u8;

    let mut page = Vec::with_capacity(header.len() + lacing.len() + payload.len());
    page.extend_from_slice(&header);
    page.extend_from_slice(lacing);
    page.extend_from_slice(payload);
    page
}

fn reader_of(bytes: Vec<u8>) -> OggPacketReader {
    let mut reader = OggPacketReader::new();
    reader.push_bytes(&bytes);
    reader.close();
    reader
}

#[test]
fn reads_multiple_packets_from_one_ogg_page() {
    let payload = [b"OpusHead".as_slice(), b"OpusTags".as_slice(), &[1, 2, 3]].concat();
    let bytes = ogg_page(0x02, &[8, 8, 3], &payload);
    let mut reader = reader_of(bytes);

    assert_eq!(reader.next_packet().expect("packet"), PacketRead::Packet(b"OpusHead".to_vec()));
    assert_eq!(reader.next_packet().expect("packet"), PacketRead::Packet(b"OpusTags".to_vec()));
    assert_eq!(reader.next_packet().expect("packet"), PacketRead::Packet(vec![1, 2, 3]));
    assert_eq!(reader.next_packet().expect("eof"), PacketRead::End);
}

#[test]
fn reconstructs_packet_continued_across_pages() {
    let packet = (0..300).map(|value| (value % 251) as u8).collect::<Vec<_>>();
    let mut bytes = ogg_page(0x02, &[255], &packet[..255]);
    bytes.extend(ogg_page(0x01, &[45], &packet[255..]));
    let mut reader = reader_of(bytes);

    assert_eq!(reader.next_packet().expect("packet"), PacketRead::Packet(packet));
    assert_eq!(reader.next_packet().expect("eof"), PacketRead::End);
}

#[test]
fn asks_for_exactly_the_bytes_that_are_missing() {
    let bytes = ogg_page(0x00, &[2, 1], &[7, 8, 9]);
    let mut reader = OggPacketReader::new();
    let mut at = 0;
    for wanted in [1, 3, 23, 2, 3] {
        assert_eq!(reader.next_packet(), Ok(PacketRead::NeedBytes(wanted)));
        reader.push_bytes(&bytes[at..at + wanted].to_vec());
        at += wanted;
    }
    assert_eq!(at, bytes.len());
    assert_eq!(reader.next_packet(), Ok(PacketRead::Packet(vec![7, 8])));
    assert_eq!(reader.next_packet(), Ok(PacketRead::Packet(vec![9])));
    assert_eq!(reader.next_packet(), Ok(PacketRead::NeedBytes(1)));
}

#[test]
fn faulty_streams_are_refused() {
    assert_eq!(
        reader_of(b"OggXrest".to_vec()).next_packet(),
        Err(ReadError::Invalid(OggFault::NoCapturePattern))
    );
    let mut versioned = ogg_page(0, &[1], &[0]);
    versioned[4] = 3;
    let fault = reader_of(versioned).next_packet();
    assert_eq!(fault, Err(ReadError::Invalid(OggFault::UnsupportedVersion(3))));
    assert_eq!(
        OggFault::UnsupportedVersion(3).text(),
        "unsupported Ogg stream version 3"
    );
    assert_eq!(
        reader_of(b"Og".to_vec()).next_packet(),
        Err(ReadError::Truncated)
    );
    assert_eq!(
        reader_of(ogg_page(0, &[255], &[0; 255])).next_packet(),
        Err(ReadError::Invalid(OggFault::EndedInPacket))
    );
    let mut lost = ogg_page(0, &[255], &[0; 255]);
    lost.extend(ogg_page(0, &[1], &[0]));
    assert_eq!(
        reader_of(lost).next_packet(),
        Err(ReadError::Invalid(OggFault::ContinuationLost))
    );
    let mut reader = OggPacketReader::new();
    assert_eq!(
        reader.process_page(0, &vec![2], &vec![0]),
        Err(OggFault::LacingExceedsPayload)
    );
    assert_eq!(
        reader.process_page(0, &vec![1], &vec![0, 0]),
        Err(OggFault::UnreferencedPayload)
    );
    let mut reader = OggPacketReader::new();
    assert_eq!(reader.process_page(0, &vec![255; 255], &vec![0; 65_025]), Ok(()));
    assert_eq!(
        reader.process_page(1, &vec![255; 255], &vec![0; 65_025]),
        Err(OggFault::PacketTooLong)
    );
    assert_eq!(
        DecodeError::from_read(ReadError::Invalid(OggFault::PacketTooLong)).text(),
        "invalid FFmpeg Ogg/Opus stream: Ogg packet exceeded 65536 bytes"
    );
}

#[test]
fn the_end_of_an_unknown_packet_is_passed_over() {
    let mut bytes = ogg_page(0x01, &[255, 2, 3], &[0; 260]);
    bytes[27 + 3 + 257..].copy_from_slice(&[4, 5, 6]);
    let mut reader = reader_of(bytes);
    assert_eq!(reader.next_packet(), Ok(PacketRead::Packet(vec![4, 5, 6])));
    assert_eq!(reader.next_packet(), Ok(PacketRead::End));
}

#[test]
fn rejects_newlines_from_forwarded_http_headers() {
    let headers = vec![
        ("User-Agent".to_owned(), "Sonoryn".to_owned()),
        ("Unsafe".to_owned(), "value\r\nInjected: yes".to_owned()),
    ];
    assert_eq!(
        render_http_headers(&headers).as_deref(),
        Some("User-Agent: Sonoryn\r\n")
    );
}

#[test]
fn headers_that_all_break_lines_render_nothing() {
    assert!(contains_newline("a\rb"));
    assert!(!contains_newline("ab"));
    assert_eq!(render_http_headers(&vec![("a\n".to_owned(), "b".to_owned())]), None);
    assert_eq!(render_http_headers(&Vec::new()), None);
}

#[test]
fn decoder_runs_ffmpeg_with_fixed_arguments() {
    let decoder = FfmpegOpusDecoder::new();
    assert_eq!(decoder.binary(), "ffmpeg");
    let media = PlayableMedia::new("https://m.test".to_owned())
        .with_http_headers(vec![("A".to_owned(), "b".to_owned())]);
    assert_eq!(
        decoder.arguments(&media),
        [
            "-nostdin", "-hide_banner", "-loglevel", "error", "-headers", "A: b\r\n", "-i",
            "https://m.test", "-vn", "-sn", "-dn", "-map", "0:a:0", "-ac", "2", "-ar", "48000",
            "-c:a", "libopus", "-application", "audio", "-frame_duration", "20", "-f", "ogg",
            "pipe:1"
        ]
    );
    let bare = PlayableMedia::new("https://m.test".to_owned());
    assert_eq!(decoder.with_binary("f".to_owned()).arguments(&bare).len(), 24);
}

#[test]
fn frames_leave_out_the_stream_headers() {
    let payload = [b"OpusHead".as_slice(), b"OpusTags".as_slice(), &[1, 2, 3]].concat();
    let mut stream = FfmpegOpusDecoder::new().open();
    stream.push_bytes(&ogg_page(0x02, &[8, 8, 3, 0], &payload));
    stream.close();
    match stream.next_frame() {
        Ok(FrameRead::Frame(frame)) => {
            assert_eq!(frame.payload(), &[1, 2, 3]);
            assert_eq!(frame.duration(), VoiceOpusFrameDuration::TwentyMs);
            assert_eq!(
                frame,
                EncodedOpusFrame::new(vec![1, 2, 3], VoiceOpusFrameDuration::TwentyMs)
            );
        }
        other => panic!("{other:?}"),
    }
    assert!(matches!(
        stream.next_frame(),
        Err(ReadError::Invalid(OggFault::EmptyPacket))
    ));
    assert!(matches!(stream.next_frame(), Ok(FrameRead::WaitForExit)));
    assert!(stream.is_running());
    assert_eq!(
        stream.exited(false, "exit status: 1".to_owned()).expect_err("failure").text(),
        "FFmpeg exited unsuccessfully with status exit status: 1"
    );
    assert!(matches!(stream.next_frame(), Ok(FrameRead::Finished)));
    assert_eq!(stream.shutdown(Err("ignored".to_owned())), Ok(()));
}

#[test]
fn stopping_a_decoder_finishes_its_stream() {
    let mut stream = FfmpegOpusDecoder::new().open();
    assert_eq!(
        stream.shutdown(Err("stuck".to_owned())),
        Err(DecodeError::Io("stuck".to_owned()))
    );
    assert!(stream.is_running());
    assert_eq!(stream.shutdown(Ok(())), Ok(()));
    assert!(!stream.is_running());
    assert_eq!(
        DecodeError::Spawn { binary: "ffmpeg".to_owned(), source: "gone".to_owned() }.text(),
        "failed to start FFmpeg backend `ffmpeg`: gone"
    );
    assert_eq!(DecodeError::Truncated.text(), "decoder I/O failed: early eof");
}

#[test]
fn decoder_begins_where_and_as_loud_as_it_is_told() {
    let decoder = FfmpegOpusDecoder::new();
    let media = PlayableMedia::new("https://m.test".to_owned());
    let plain = FfmpegDecodeOptions::default();
    assert_eq!(plain, FfmpegDecodeOptions { position_millis: 0, volume_percent: 100 });
    assert_eq!(decoder.arguments_with(&media, plain), decoder.arguments(&media));
    let options = FfmpegDecodeOptions { position_millis: 61_005, volume_percent: 7 };
    assert_eq!(
        decoder.arguments_with(&media, options),
        [
            "-nostdin", "-hide_banner", "-loglevel", "error", "-ss", "61.005", "-i",
            "https://m.test", "-vn", "-sn", "-dn", "-map", "0:a:0", "-filter:a", "volume=0.07",
            "-ac", "2", "-ar", "48000", "-c:a", "libopus", "-application", "audio",
            "-frame_duration", "20", "-f", "ogg", "pipe:1"
        ]
    );
    assert_eq!(
        decoder.not_started("No such file".to_owned()).text(),
        "failed to start FFmpeg backend `ffmpeg`: No such file"
    );
}

#[test]
fn resolver_errors_are_put_into_words() {
    let backend = || "yt-dlp".to_owned();
    let spawn = ResolveError::Spawn { backend: backend(), source: "No such file".to_owned() };
    assert_eq!(spawn.text(), "failed to start resolver backend `yt-dlp`: No such file");
    let late = ResolveError::TimedOut { backend: backend(), timeout: Duration::from_millis(1_500) };
    assert_eq!(late.text(), "resolver backend `yt-dlp` timed out after 1.5s");
    let failed = ResolveError::BackendFailed { backend: backend(), message: "gone".to_owned() };
    assert_eq!(failed.text(), "resolver backend `yt-dlp` exited unsuccessfully: gone");
    assert_eq!(ResolveError::NoResults.text(), "resolver backend returned no matching track");
    assert_eq!(
        ResolveError::MissingField { field: "title" }.text(),
        "resolver output was missing required field `title`"
    );
    assert_eq!(ResolveError::InvalidMediaUrl.text(), "resolver returned an invalid media URL");
    let invalid = ResolveError::InvalidJson(parse_json(b"{").expect_err("fault"));
    assert_eq!(
        invalid.text(),
        "resolver output was invalid JSON: EOF while parsing an object at line 1 column 1"
    );
}

#[test]
fn cut_diagnostics_depend_on_their_beginning_alone() {
    let mut one = vec![b'x'; 2048];
    let mut other = one.clone();
    one.push(b'a');
    other.extend_from_slice(b"bcd");
    assert_eq!(bounded_stderr(&one), bounded_stderr(&other));
    assert!(bounded_stderr(&one).ends_with('\u{2026}'));
    assert!(!bounded_stderr(&vec![b'\n'; 4096]).is_empty());
}

#[test]
fn a_whole_stream_gives_every_frame_however_it_arrives() {
    let long = vec![9u8; 300];
    let mut bytes = ogg_page(0x02, &[8], b"OpusHead");
    bytes.extend(ogg_page(0x00, &[8], b"OpusTags"));
    bytes.extend(ogg_page(0x00, &[2, 255], &[&[1u8, 2][..], &long[..255]].concat()));
    bytes.extend(ogg_page(0x01, &[45, 1], &[&long[255..], &[7u8][..]].concat()));
    for piece in [1, 7, bytes.len()] {
        let mut stream = FfmpegOpusDecoder::new().open();
        let mut pieces = bytes.chunks(piece);
        let mut frames: Vec<Vec<u8>> = Vec::new();
        loop {
            match stream.next_frame().expect("frame") {
                FrameRead::Frame(frame) => frames.push(frame.payload().to_vec()),
                FrameRead::NeedBytes(count) => {
                    assert!(count > 0);
                    match pieces.next() {
                        Some(piece) => stream.push_bytes(&piece.to_vec()),
                        None => stream.close(),
                    }
                }
                FrameRead::WaitForExit => break,
                FrameRead::Finished => panic!("the exit status is not known"),
            }
        }
        assert_eq!(frames, [vec![1, 2], long.clone(), vec![7]]);
        let exit = stream.exited(false, "exit status: 1".to_owned());
        assert!(matches!(exit, Err(DecodeError::ProcessFailed { .. })));
        assert!(matches!(stream.next_frame(), Ok(FrameRead::Finished)));
        assert!(matches!(stream.next_frame(), Ok(FrameRead::Finished)));
    }
}

#[test]
fn kept_diagnostics_are_bounded_in_bytes() {
    let bound = 3 * 2048 + 3;
    assert_eq!(bounded_stderr(&vec![0xff; 5000]).len(), bound);
    for line in ["http:// ", "cookie:\n", "authorization:\r\n", "\u{1f3b5}"] {
        let stderr = line.repeat(2000).into_bytes();
        let message = bounded_stderr(&stderr);
        assert!(!message.is_empty() && message.len() <= bound, "{}", message.len());
    }
}

#[test]
fn output_that_is_no_json_says_why() {
    let request = TrackRequest::new("x".to_owned()).expect("request");
    let resolver = YtDlpResolver::new();
    for (output, fault) in [
        ("", "EOF while parsing a value at line 1 column 0"),
        ("[1,", "EOF while parsing a value at line 1 column 3"),
        ("nil", "expected ident at line 1 column 2"),
    ] {
        let stdout = output.as_bytes().to_vec();
        let error = resolver
            .metadata(&request, true, &stdout, &Vec::new())
            .expect_err("no JSON");
        assert_eq!(error.text(), format!("resolver output was invalid JSON: {fault}"));
        let error = resolver.media(true, &stdout, &Vec::new()).expect_err("no JSON");
        assert_eq!(error.text(), format!("resolver output was invalid JSON: {fault}"));
    }
}
