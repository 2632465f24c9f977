//! What the decoder is told to do.

use vstd::prelude::*;

use crate::media::decoder;
use crate::media::decoder::{
    DecodeError, FfmpegDecodeOptions, FfmpegOpusStream, FrameOutcome, StreamState,
};
use crate::media::ogg;
use crate::media::ogg::{OggFault, ReadError};
use crate::media::track::PlayableMedia;
use crate::text;

verus! {

/// A position is written in seconds with all of its three decimal places.
pub proof fn law_positions_are_written_to_the_millisecond(
    seconds: u64,
    tenths: u64,
    hundredths: u64,
    thousandths: u64,
    volume_percent: u8,
)
    requires
        tenths < 10,
        hundredths < 10,
        thousandths < 10,
        seconds * 1_000 + 999 <= u64::MAX,
    ensures
        ({
            let options = FfmpegDecodeOptions {
                position_millis: (seconds * 1_000 + tenths * 100 + hundredths * 10
                    + thousandths) as u64,
                volume_percent,
            };
            let written = options.position_text();
            let whole = text::decimal(seconds as nat);
            &&& written.len() == whole.len() + 4
            &&& written.take(whole.len() as int) == whole
            &&& written[whole.len() as int] == '.'
            &&& written[whole.len() as int + 1] as u32 == '0' as u32 + tenths
            &&& written[whole.len() as int + 2] as u32 == '0' as u32 + hundredths
            &&& written[whole.len() as int + 3] as u32 == '0' as u32 + thousandths
        }),
{
    let millis = (tenths * 100 + hundredths * 10 + thousandths) as u64;
    lemma_milliseconds(seconds, millis, volume_percent);
    assert(millis / 100 == tenths && millis % 100 == hundredths * 10 + thousandths);
    text::laws::law_numbers_are_written_in_decimal(0, tenths as nat);
    text::laws::law_two_digits_are_tens_and_units(hundredths as nat, thousandths as nat);
    lemma_decimal_places(
        text::decimal(seconds as nat),
        text::decimal(tenths as nat),
        text::two_digits((hundredths * 10 + thousandths) as nat),
    );
}

proof fn lemma_milliseconds(seconds: u64, millis: u64, volume_percent: u8)
    requires
        millis < 1_000,
        seconds * 1_000 + 999 <= u64::MAX,
    ensures
        (FfmpegDecodeOptions {
            position_millis: (seconds * 1_000 + millis) as u64,
            volume_percent,
        }).position_text() == text::decimal(seconds as nat) + seq!['.'] + text::decimal(
            (millis / 100) as nat,
        ) + text::two_digits((millis % 100) as nat),
{
    reveal_strlit(".");
    let position_millis = (seconds * 1_000 + millis) as u64;
    assert(position_millis % 1_000 == millis && position_millis / 1_000 == seconds);
    assert("."@ =~= seq!['.']);
}

proof fn lemma_decimal_places(whole: Seq<char>, head: Seq<char>, tail: Seq<char>)
    requires
        head.len() == 1,
        tail.len() == 2,
    ensures
        ({
            let written = whole + seq!['.'] + head + tail;
            &&& written.len() == whole.len() + 4
            &&& written.take(whole.len() as int) == whole
            &&& written[whole.len() as int] == '.'
            &&& written[whole.len() as int + 1] == head[0]
            &&& written[whole.len() as int + 2] == tail[0]
            &&& written[whole.len() as int + 3] == tail[1]
        }),
{
    let written = whole + seq!['.'] + head + tail;
    assert(written.take(whole.len() as int) =~= whole);
}

/// A volume is written as the factor that the percentage stands for, with two
/// decimal places.
pub proof fn law_volumes_are_written_as_factors(
    hundreds: u8,
    tens: u8,
    units: u8,
    position_millis: u64,
)
    requires
        hundreds <= 2,
        tens < 10,
        units < 10,
        hundreds * 100 + tens * 10 + units <= u8::MAX,
    ensures
        ({
            let options = FfmpegDecodeOptions {
                position_millis,
                volume_percent: (hundreds * 100 + tens * 10 + units) as u8,
            };
            let written = options.volume_text();
            &&& written.len() == 11
            &&& written.take(7) == "volume="@
            &&& written[7] as u32 == '0' as u32 + hundreds
            &&& written[8] == '.'
            &&& written[9] as u32 == '0' as u32 + tens
            &&& written[10] as u32 == '0' as u32 + units
        }),
{
    reveal_strlit(".");
    reveal_strlit("volume=");
    let percent = (hundreds * 100 + tens * 10 + units) as u8;
    let options = FfmpegDecodeOptions { position_millis, volume_percent: percent };
    let written = options.volume_text();
    assert(percent / 100 == hundreds && percent % 100 == tens * 10 + units);
    text::laws::law_numbers_are_written_in_decimal(0, hundreds as nat);
    text::laws::law_two_digits_are_tens_and_units(tens as nat, units as nat);
    let head = text::decimal(hundreds as nat);
    let tail = text::two_digits((tens * 10 + units) as nat);
    assert(written =~= "volume="@ + head + "."@ + tail);
    assert(written.take(7) =~= "volume="@);
    assert(written[7] == head[0]);
    assert(written[9] == tail[0]);
    assert(written[10] == tail[1]);
}

/// The program reads the media's URL, with its headers before it where there
/// are any, from the position on unless that is the beginning, and as loud as
/// asked for unless that is as it is. It writes stereo Opus packets of twenty
/// milliseconds at 48 kHz, as Ogg, to its standard output.
pub proof fn law_command_plays_the_media_as_asked(
    media: PlayableMedia,
    options: FfmpegDecodeOptions,
)
    ensures
        ({
            let command = decoder::decode_command(media, options);
            let block = decoder::header_block(media.http_headers@);
            let headed: int = if block.len() > 0 {
                6
            } else {
                4
            };
            let placed: int = if options.position_millis > 0 {
                headed + 2
            } else {
                headed
            };
            let set: int = if options.volume_percent != 100 {
                placed + 9
            } else {
                placed + 7
            };
            &&& command.len() == set + 13
            &&& command.take(4) == seq!["-nostdin"@, "-hide_banner"@, "-loglevel"@, "error"@]
            &&& block.len() > 0 ==> command[4] == "-headers"@ && command[5] == block
            &&& options.position_millis > 0 ==> command[headed] == "-ss"@ && command[headed + 1]
                == options.position_text()
            &&& command[placed] == "-i"@
            &&& command[placed + 1] == media.url@
            &&& command.subrange(placed + 2, placed + 7) == seq![
                "-vn"@,
                "-sn"@,
                "-dn"@,
                "-map"@,
                "0:a:0"@,
            ]
            &&& options.volume_percent != 100 ==> command[placed + 7] == "-filter:a"@
                && command[placed + 8] == options.volume_text()
            &&& command.skip(set) == seq![
                "-ac"@,
                "2"@,
                "-ar"@,
                "48000"@,
                "-c:a"@,
                "libopus"@,
                "-application"@,
                "audio"@,
                "-frame_duration"@,
                "20"@,
                "-f"@,
                "ogg"@,
                "pipe:1"@,
            ]
        }),
        FfmpegDecodeOptions::plain().position_millis == 0,
        FfmpegDecodeOptions::plain().volume_percent == 100,
{
    let command = decoder::decode_command(media, options);
    let block = decoder::header_block(media.http_headers@);
    let headed: int = if block.len() > 0 {
        6
    } else {
        4
    };
    let placed: int = if options.position_millis > 0 {
        headed + 2
    } else {
        headed
    };
    let set: int = if options.volume_percent != 100 {
        placed + 9
    } else {
        placed + 7
    };
    assert(command.take(4) =~= seq!["-nostdin"@, "-hide_banner"@, "-loglevel"@, "error"@]);
    assert(command.subrange(placed + 2, placed + 7) =~= seq![
        "-vn"@,
        "-sn"@,
        "-dn"@,
        "-map"@,
        "0:a:0"@,
    ]);
    assert(command.skip(set) =~= seq![
        "-ac"@,
        "2"@,
        "-ar"@,
        "48000"@,
        "-c:a"@,
        "libopus"@,
        "-application"@,
        "audio"@,
        "-frame_duration"@,
        "20"@,
        "-f"@,
        "ogg"@,
        "pipe:1"@,
    ]);
}

/// A header is written as its name, a colon and its value on a line of its own,
/// behind the others. One that would break the line is left out.
pub proof fn law_headers_are_written_in_order(
    headers: Seq<(String, String)>,
    header: (String, String),
)
    ensures
        ({
            let breaks = header.0@.contains('\r') || header.0@.contains('\n')
                || header.1@.contains('\r') || header.1@.contains('\n');
            let written = decoder::header_block(headers.push(header));
            &&& !breaks ==> written == decoder::header_block(headers) + header.0@ + seq![':', ' ']
                + header.1@ + seq!['\r', '\n']
            &&& breaks ==> written == decoder::header_block(headers)
        }),
        decoder::header_block(Seq::<(String, String)>::empty()).len() == 0,
{
    reveal_strlit(": ");
    reveal_strlit("\r\n");
    assert(headers.push(header).drop_last() =~= headers);
    assert(": "@ =~= seq![':', ' ']);
    assert("\r\n"@ =~= seq!['\r', '\n']);
    if decoder::is_safe(header) {
        assert(decoder::header_block(headers.push(header)) =~= decoder::header_block(headers)
            + header.0@ + seq![':', ' '] + header.1@ + seq!['\r', '\n']);
    }
}

/// The packets that open an Opus stream are those that begin with `OpusHead`
/// or `OpusTags`.
pub proof fn law_stream_headers_are_named(packet: Seq<u8>)
    ensures
        decoder::is_stream_header(packet) <==> packet.len() >= 8 && packet[0] == 'O' as u8
            && packet[1] == 'p' as u8 && packet[2] == 'u' as u8 && packet[3] == 's' as u8 && (
        packet[4] == 'H' as u8 && packet[5] == 'e' as u8 && packet[6] == 'a' as u8 && packet[7]
            == 'd' as u8 || packet[4] == 'T' as u8 && packet[5] == 'a' as u8 && packet[6]
            == 'g' as u8 && packet[7] == 's' as u8),
{
    decoder::lemma_prefix_of_eight(
        packet,
        seq![0x4fu8, 0x70, 0x75, 0x73, 0x48, 0x65, 0x61, 0x64],
    );
    decoder::lemma_prefix_of_eight(
        packet,
        seq![0x4fu8, 0x70, 0x75, 0x73, 0x54, 0x61, 0x67, 0x73],
    );
    assert('O' as u8 == 0x4f && 'p' as u8 == 0x70 && 'u' as u8 == 0x75 && 's' as u8 == 0x73);
    assert('H' as u8 == 0x48 && 'e' as u8 == 0x65 && 'a' as u8 == 0x61 && 'd' as u8 == 0x64);
    assert('T' as u8 == 0x54 && 'g' as u8 == 0x67);
}

/// A packet with sound is the next frame as it is, one that opens the stream
/// is passed over, and an empty one is refused. The end of the packets asks for
/// the exit status, and a fault is handed on.
pub proof fn law_packets_become_frames(stream: StreamState)
    requires
        !stream.finished,
    ensures
        ({
            let (packets, outcome) = stream.packets.next();
            let after = StreamState { packets, finished: false };
            match outcome {
                ogg::PacketOutcome::Packet(packet) => {
                    &&& decoder::is_stream_header(packet) ==> stream.next() == after.next()
                    &&& packet.len() == 0 ==> stream.next() == (
                        after,
                        FrameOutcome::Failed(ReadError::Invalid(OggFault::EmptyPacket)),
                    )
                    &&& packet.len() > 0 && !decoder::is_stream_header(packet) ==> stream.next()
                        == (after, FrameOutcome::Frame(packet))
                },
                ogg::PacketOutcome::NeedBytes(count) => stream.next() == (
                    after,
                    FrameOutcome::NeedBytes(count),
                ),
                ogg::PacketOutcome::End => stream.next() == (after, FrameOutcome::WaitForExit),
                ogg::PacketOutcome::Failed(error) => stream.next() == (
                    after,
                    FrameOutcome::Failed(error),
                ),
            }
        }),
{
    let (packets, outcome) = stream.packets.next();
    if let ogg::PacketOutcome::Packet(packet) = outcome {
        law_stream_headers_are_named(packet);
        decoder::lemma_packet_is_consumed(stream.packets);
    }
}

/// A decoding error tells what failed and, where it is known, why.
pub proof fn law_decoding_errors_tell_their_cause(
    binary: String,
    cause: String,
    fault: OggFault,
)
    ensures
        (DecodeError::Spawn { binary, source: cause }).message()
            == "failed to start FFmpeg backend `"@ + binary@ + "`: "@ + cause@,
        DecodeError::Io(cause).message() == "decoder I/O failed: "@ + cause@,
        DecodeError::Truncated.message() == "decoder I/O failed: early eof"@,
        DecodeError::InvalidOgg(fault).message() == "invalid FFmpeg Ogg/Opus stream: "@
            + fault.message(),
        (DecodeError::ProcessFailed { status: cause }).message()
            == "FFmpeg exited unsuccessfully with status "@ + cause@,
{
}

/// A decoder that has exited is finished, and failed exactly if it says so. One
/// that is stopped is finished unless stopping failed, which a decoder that was
/// finished before does not mind.
pub proof fn law_exit_status_decides(
    succeeding: &mut FfmpegOpusStream,
    failing: &mut FfmpegOpusStream,
    stopping: &mut FfmpegOpusStream,
    status: String,
    error: String,
    done: Result<(), DecodeError>,
    failed: Result<(), DecodeError>,
    stopped: Result<(), DecodeError>,
)
    requires
        call_ensures(FfmpegOpusStream::exited, (succeeding, true, status), done),
        call_ensures(FfmpegOpusStream::exited, (failing, false, status), failed),
        call_ensures(FfmpegOpusStream::shutdown, (stopping, Err::<(), String>(error)), stopped),
    ensures
        done is Ok && final(succeeding)@.finished,
        failed == Err::<(), DecodeError>(DecodeError::ProcessFailed { status }),
        final(failing)@.finished,
        old(stopping)@.finished ==> stopped is Ok && final(stopping)@.finished,
        !old(stopping)@.finished ==> stopped == Err::<(), DecodeError>(DecodeError::Io(error))
            && !final(stopping)@.finished,
{
}

} // verus!
