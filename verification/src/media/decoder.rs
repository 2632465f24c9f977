//! Turns playable media into Opus frames with FFmpeg.

use vstd::prelude::*;
use vstd::string::*;

use crate::media::ogg;
use crate::media::ogg::{OggFault, OggPacketReader, PacketRead, ReadError, ReaderState};
use crate::media::track::PlayableMedia;
use crate::text;
use crate::text::{contains_char, push_decimal, push_two_digits};

pub mod command;
pub mod laws;

verus! {

/// How long one Opus frame plays.
#[derive(Debug, Clone, Copy, PartialEq, Eq, Structural)]
pub enum VoiceOpusFrameDuration {
    TwentyMs,
}

/// Complete owned Opus packet produced by the decoder.
#[derive(Debug, Clone, PartialEq, Eq)]
pub struct EncodedOpusFrame {
    payload: Vec<u8>,
    duration: VoiceOpusFrameDuration,
}

impl EncodedOpusFrame {
    /// The bytes of the packet.
    pub closed spec fn bytes(self) -> Seq<u8> {
        self.payload@
    }

    /// How long the packet plays.
    pub closed spec fn span(self) -> VoiceOpusFrameDuration {
        self.duration
    }

    #[must_use]
    pub fn new(payload: Vec<u8>, duration: VoiceOpusFrameDuration) -> (frame: Self)
        ensures
            frame.bytes() == payload@,
            frame.span() == duration,
    {
        EncodedOpusFrame { payload, duration }
    }

    #[must_use]
    pub fn payload(&self) -> (payload: &[u8])
        ensures
            payload@ == self.bytes(),
    {
        self.payload.as_slice()
    }

    #[must_use]
    pub fn duration(&self) -> (duration: VoiceOpusFrameDuration)
        ensures
            duration == self.span(),
    {
        self.duration
    }
}

/// Why media could not be decoded.
#[derive(Debug, PartialEq, Eq)]
pub enum DecodeError {
    Spawn { binary: String, source: String },
    MissingStdout,
    Io(String),
    /// The decoder's output ended within an Ogg page.
    Truncated,
    InvalidOgg(OggFault),
    ProcessFailed { status: String },
}

impl DecodeError {
    pub open spec fn message(self) -> Seq<char> {
        match self {
            DecodeError::Spawn { binary, source } => "failed to start FFmpeg backend `"@ + binary@
                + "`: "@ + source@,
            DecodeError::MissingStdout => "FFmpeg child did not expose its Opus output pipe"@,
            DecodeError::Io(error) => "decoder I/O failed: "@ + error@,
            DecodeError::Truncated => "decoder I/O failed: early eof"@,
            DecodeError::InvalidOgg(fault) => "invalid FFmpeg Ogg/Opus stream: "@
                + fault.message(),
            DecodeError::ProcessFailed { status } => "FFmpeg exited unsuccessfully with status "@
                + status@,
        }
    }

    /// The error in words.
    pub fn text(&self) -> (text: String)
        ensures
            text@ == self.message(),
    {
        match self {
            DecodeError::Spawn { binary, source } => {
                let mut text: String = "failed to start FFmpeg backend `".to_owned();
                text.append(binary.as_str());
                text.append("`: ");
                text.append(source.as_str());
                text
            },
            DecodeError::MissingStdout => {
                "FFmpeg child did not expose its Opus output pipe".to_owned()
            },
            DecodeError::Io(error) => "decoder I/O failed: ".to_owned().concat(error.as_str()),
            DecodeError::Truncated => "decoder I/O failed: early eof".to_owned(),
            DecodeError::InvalidOgg(fault) => {
                "invalid FFmpeg Ogg/Opus stream: ".to_owned().concat(fault.text().as_str())
            },
            DecodeError::ProcessFailed { status } => {
                "FFmpeg exited unsuccessfully with status ".to_owned().concat(status.as_str())
            },
        }
    }

    /// The error that a fault of the Ogg stream amounts to.
    pub fn from_read(error: ReadError) -> (result: Self)
        ensures
            result == match error {
                ReadError::Truncated => DecodeError::Truncated,
                ReadError::Invalid(fault) => DecodeError::InvalidOgg(fault),
            },
    {
        match error {
            ReadError::Truncated => DecodeError::Truncated,
            ReadError::Invalid(fault) => DecodeError::InvalidOgg(fault),
        }
    }
}

/// `value` holds a line break.
pub open spec fn breaks_line(value: Seq<char>) -> bool {
    value.contains('\r') || value.contains('\n')
}

/// A header whose name and value each stay on one line.
pub open spec fn is_safe(header: (String, String)) -> bool {
    !breaks_line(header.0@) && !breaks_line(header.1@)
}

/// One header without its line end.
pub open spec fn header_line(header: (String, String)) -> Seq<char> {
    header.0@ + ": "@ + header.1@
}

/// The safe headers, each on a line of its own.
pub open spec fn header_block(headers: Seq<(String, String)>) -> Seq<char>
    decreases headers.len(),
{
    if headers.len() == 0 {
        Seq::empty()
    } else {
        let before = header_block(headers.drop_last());
        if is_safe(headers.last()) {
            before + header_line(headers.last()) + "\r\n"@
        } else {
            before
        }
    }
}

/// Renders headers as FFmpeg takes them. A header that holds a line break is
/// left out; nothing is rendered where no header is left.
pub fn render_http_headers(headers: &Vec<(String, String)>) -> (rendered: Option<String>)
    ensures
        match rendered {
            Some(text) => text@.len() > 0 && text@ == header_block(headers@),
            None => header_block(headers@).len() == 0,
        },
{
    let mut rendered: String = String::new();
    let mut i: usize = 0;
    assert(headers@.take(0) =~= Seq::empty());
    while i < headers.len()
        invariant
            i <= headers@.len(),
            rendered@ == header_block(headers@.take(i as int)),
        decreases headers@.len() - i,
    {
        assert(headers@.take(i + 1).drop_last() =~= headers@.take(i as int));
        let ghost before = rendered@;
        let name: &str = headers[i].0.as_str();
        let value: &str = headers[i].1.as_str();
        if !contains_newline(name) && !contains_newline(value) {
            rendered.append(name);
            rendered.append(": ");
            rendered.append(value);
            rendered.append("\r\n");
            assert(rendered@ =~= before + header_line(headers@[i as int]) + "\r\n"@);
        }
        i += 1;
    }
    assert(headers@.take(i as int) =~= headers@);
    if rendered.as_str().is_empty() {
        None
    } else {
        Some(rendered)
    }
}

/// Whether a text holds a line break.
pub fn contains_newline(value: &str) -> (result: bool)
    ensures
        result == breaks_line(value@),
{
    contains_char(value, '\r') || contains_char(value, '\n')
}

/// Where in the media decoding begins, and how loud it is.
#[derive(Debug, Clone, Copy, PartialEq, Eq, Structural)]
pub struct FfmpegDecodeOptions {
    pub position_millis: u64,
    pub volume_percent: u8,
}

impl FfmpegDecodeOptions {
    /// From the beginning, as loud as the media is.
    pub open spec fn plain() -> FfmpegDecodeOptions {
        FfmpegDecodeOptions { position_millis: 0, volume_percent: 100 }
    }

    /// The position in seconds, with three decimal places.
    pub open spec fn position_text(self) -> Seq<char> {
        let millis = (self.position_millis % 1_000) as nat;
        text::decimal((self.position_millis / 1_000) as nat) + "."@ + text::decimal(millis / 100)
            + text::two_digits(millis % 100)
    }

    /// The filter that sets the volume, as a factor with two decimal places.
    pub open spec fn volume_text(self) -> Seq<char> {
        "volume="@ + text::decimal((self.volume_percent / 100) as nat) + "."@ + text::two_digits(
            (self.volume_percent % 100) as nat,
        )
    }

    fn position(&self) -> (position: String)
        ensures
            position@ == self.position_text(),
    {
        let millis: u64 = self.position_millis % 1_000;
        let mut position: String = String::new();
        push_decimal(&mut position, self.position_millis / 1_000);
        position.append(".");
        push_decimal(&mut position, millis / 100);
        push_two_digits(&mut position, millis % 100);
        assert(position@ =~= self.position_text());
        position
    }

    fn volume(&self) -> (volume: String)
        ensures
            volume@ == self.volume_text(),
    {
        let percent: u64 = self.volume_percent as u64;
        let mut volume: String = "volume=".to_owned();
        push_decimal(&mut volume, percent / 100);
        volume.append(".");
        push_two_digits(&mut volume, percent % 100);
        volume
    }
}

impl Default for FfmpegDecodeOptions {
    fn default() -> (options: Self)
        ensures
            options == FfmpegDecodeOptions::plain(),
    {
        FfmpegDecodeOptions { position_millis: 0, volume_percent: 100 }
    }
}

/// The arguments under which FFmpeg turns media into 48 kHz stereo Opus
/// packets of 20 ms each, in an Ogg stream on its standard output.
pub open spec fn decode_command(media: PlayableMedia, options: FfmpegDecodeOptions) -> Seq<
    Seq<char>,
> {
    let headers = header_block(media.http_headers@);
    seq!["-nostdin"@, "-hide_banner"@, "-loglevel"@, "error"@] + (if headers.len() > 0 {
        seq!["-headers"@, headers]
    } else {
        Seq::empty()
    }) + (if options.position_millis > 0 {
        seq!["-ss"@, options.position_text()]
    } else {
        Seq::empty()
    }) + seq!["-i"@, media.url@, "-vn"@, "-sn"@, "-dn"@, "-map"@, "0:a:0"@] + (if
        options.volume_percent != 100 {
        seq!["-filter:a"@, options.volume_text()]
    } else {
        Seq::empty()
    }) + seq![
        "-ac"@,
        "2"@,
        "-ar"@,
        "48000"@,
        "-c:a"@,
        "libopus"@,
        "-application"@,
        "audio"@,
        "-frame_duration"@,
        "20"@,
        "-f"@,
        "ogg"@,
        "pipe:1"@,
    ]
}

/// FFmpeg-backed transcoder that normalizes arbitrary supported audio inputs to
/// Discord-compatible 48 kHz stereo Opus with fixed 20 ms packets.
#[derive(Debug, PartialEq, Eq)]
pub struct FfmpegOpusDecoder {
    binary: String,
}

impl Default for FfmpegOpusDecoder {
    fn default() -> (decoder: Self)
        ensures
            decoder.program() == "ffmpeg"@,
    {
        FfmpegOpusDecoder { binary: "ffmpeg".to_owned() }
    }
}

impl Clone for FfmpegOpusDecoder {
    fn clone(&self) -> (copy: Self)
        ensures
            copy == *self,
    {
        FfmpegOpusDecoder { binary: self.binary.clone() }
    }
}

impl FfmpegOpusDecoder {
    /// The program that is run.
    pub closed spec fn program(&self) -> Seq<char> {
        self.binary@
    }

    #[must_use]
    pub fn new() -> (decoder: Self)
        ensures
            decoder.program() == "ffmpeg"@,
    {
        FfmpegOpusDecoder::default()
    }

    #[must_use]
    pub fn with_binary(self, binary: String) -> (decoder: Self)
        ensures
            decoder.program() == binary@,
    {
        FfmpegOpusDecoder { binary }
    }

    /// The program that is run.
    #[must_use]
    pub fn binary(&self) -> (binary: &str)
        ensures
            binary@ == self.program(),
    {
        self.binary.as_str()
    }

    /// The program's arguments for some media, decoded as it is.
    #[must_use]
    pub fn arguments(&self, media: &PlayableMedia) -> (arguments: Vec<String>)
        ensures
            text::texts(arguments@) == decode_command(*media, FfmpegDecodeOptions::plain()),
    {
        self.arguments_with(media, FfmpegDecodeOptions::default())
    }

    /// The program's arguments for some media.
    #[must_use]
    pub fn arguments_with(&self, media: &PlayableMedia, options: FfmpegDecodeOptions) -> (arguments:
        Vec<String>)
        ensures
            text::texts(arguments@) == decode_command(*media, options),
    {
        let mut arguments: Vec<String> = vec![
            "-nostdin".to_owned(),
            "-hide_banner".to_owned(),
            "-loglevel".to_owned(),
            "error".to_owned(),
        ];
        if let Some(headers) = render_http_headers(&media.http_headers) {
            arguments.push("-headers".to_owned());
            arguments.push(headers);
        }
        if options.position_millis > 0 {
            arguments.push("-ss".to_owned());
            arguments.push(options.position());
        }
        arguments.push("-i".to_owned());
        arguments.push(media.url.clone());
        arguments.push("-vn".to_owned());
        arguments.push("-sn".to_owned());
        arguments.push("-dn".to_owned());
        arguments.push("-map".to_owned());
        arguments.push("0:a:0".to_owned());
        if options.volume_percent != 100 {
            arguments.push("-filter:a".to_owned());
            arguments.push(options.volume());
        }
        arguments.push("-ac".to_owned());
        arguments.push("2".to_owned());
        arguments.push("-ar".to_owned());
        arguments.push("48000".to_owned());
        arguments.push("-c:a".to_owned());
        arguments.push("libopus".to_owned());
        arguments.push("-application".to_owned());
        arguments.push("audio".to_owned());
        arguments.push("-frame_duration".to_owned());
        arguments.push("20".to_owned());
        arguments.push("-f".to_owned());
        arguments.push("ogg".to_owned());
        arguments.push("pipe:1".to_owned());
        assert(text::texts(arguments@) =~= decode_command(*media, options));
        arguments
    }

    /// The error of a program that could not be started.
    #[must_use]
    pub fn not_started(&self, source: String) -> (error: DecodeError)
        ensures
            error matches DecodeError::Spawn { binary, source: cause } && binary@ == self.program()
                && cause@ == source@,
    {
        DecodeError::Spawn { binary: self.binary.clone(), source }
    }

    /// The stream of frames of a decoder process that was just started.
    #[must_use]
    pub fn open(&self) -> (stream: FfmpegOpusStream)
        ensures
            stream@ == StreamState::fresh(),
    {
        FfmpegOpusStream { packets: OggPacketReader::new(), finished: false }
    }
}

/// The packet opens the stream and holds no sound.
pub open spec fn is_stream_header(packet: Seq<u8>) -> bool {
    ||| seq![0x4fu8, 0x70, 0x75, 0x73, 0x48, 0x65, 0x61, 0x64].is_prefix_of(packet)
    ||| seq![0x4fu8, 0x70, 0x75, 0x73, 0x54, 0x61, 0x67, 0x73].is_prefix_of(packet)
}

/// What asking for a frame comes to, as the contracts speak of it.
pub enum FrameOutcome {
    Frame(Seq<u8>),
    NeedBytes(nat),
    WaitForExit,
    Finished,
    Failed(ReadError),
}

/// A stream of frames, as the contracts speak of it.
#[verifier::ext_equal]
pub struct StreamState {
    pub packets: ReaderState,
    pub finished: bool,
}

/// A packet costs a byte of input or one of the packets held.
pub proof fn lemma_packet_is_consumed(reader: ReaderState)
    requires
        reader.next().1 is Packet,
    ensures
        reader.next().0.input.len() < reader.input.len() || reader.next().0.input.len()
            == reader.input.len() && reader.next().0.packets.pending.len()
            < reader.packets.pending.len(),
    decreases reader.input.len(),
{
    if reader.packets.pending.len() == 0 {
        if let ogg::PageParse::Page { header_type, lacing, payload, len } = ogg::first_page(
            reader.input,
        ) {
            let (packets, fault) = reader.packets.paged(header_type, lacing, payload);
            let after = ReaderState { packets, ..reader.advanced(len as int) };
            if fault is None && len > 0 {
                lemma_packet_is_consumed(after);
            }
        }
    }
}

impl StreamState {
    /// The stream of a process that was just started.
    pub open spec fn fresh() -> StreamState {
        StreamState {
            packets: ReaderState {
                input: Seq::empty(),
                closed: false,
                packets: ogg::Packets { pending: Seq::empty(), partial: Seq::empty() },
            },
            finished: false,
        }
    }

    /// Asks for the next frame: the first packet that does not open the
    /// stream.
    pub open spec fn next(self) -> (StreamState, FrameOutcome)
        decreases self.packets.input.len(), self.packets.packets.pending.len(),
    {
        if self.finished {
            (self, FrameOutcome::Finished)
        } else {
            let (packets, outcome) = self.packets.next();
            let after = StreamState { packets, ..self };
            match outcome {
                ogg::PacketOutcome::Packet(packet) => if is_stream_header(packet) {
                    proof {
                        lemma_packet_is_consumed(self.packets);
                    }
                    after.next()
                } else if packet.len() == 0 {
                    (
                        after,
                        FrameOutcome::Failed(ReadError::Invalid(OggFault::EmptyPacket)),
                    )
                } else {
                    (after, FrameOutcome::Frame(packet))
                },
                ogg::PacketOutcome::NeedBytes(count) => (after, FrameOutcome::NeedBytes(count)),
                ogg::PacketOutcome::End => (after, FrameOutcome::WaitForExit),
                ogg::PacketOutcome::Failed(error) => (after, FrameOutcome::Failed(error)),
            }
        }
    }
}

/// What asking for a frame came to.
#[derive(Debug)]
pub enum FrameRead {
    Frame(EncodedOpusFrame),
    /// At least so many bytes of the decoder's output have to come first.
    NeedBytes(usize),
    /// The output has ended; the decoder's exit status decides.
    WaitForExit,
    /// There are no more frames.
    Finished,
}

/// The outcome that a result stands for.
pub open spec fn outcome_of(result: Result<FrameRead, ReadError>) -> FrameOutcome {
    match result {
        Ok(FrameRead::Frame(frame)) => FrameOutcome::Frame(frame.bytes()),
        Ok(FrameRead::NeedBytes(count)) => FrameOutcome::NeedBytes(count as nat),
        Ok(FrameRead::WaitForExit) => FrameOutcome::WaitForExit,
        Ok(FrameRead::Finished) => FrameOutcome::Finished,
        Err(error) => FrameOutcome::Failed(error),
    }
}

/// The frames of a live FFmpeg process.
#[derive(Debug)]
pub struct FfmpegOpusStream {
    packets: OggPacketReader,
    finished: bool,
}

impl View for FfmpegOpusStream {
    type V = StreamState;

    closed spec fn view(&self) -> StreamState {
        StreamState { packets: self.packets@, finished: self.finished }
    }
}

impl FfmpegOpusStream {
    /// Hands over the next bytes of the decoder's output.
    pub fn push_bytes(&mut self, bytes: &Vec<u8>)
        ensures
            final(self)@ == (StreamState {
                packets: ReaderState {
                    input: old(self)@.packets.input + bytes@,
                    ..old(self)@.packets
                },
                ..old(self)@
            }),
    {
        self.packets.push_bytes(bytes);
    }

    /// Says that the decoder's output has ended.
    pub fn close(&mut self)
        ensures
            final(self)@ == (StreamState {
                packets: ReaderState { closed: true, ..old(self)@.packets },
                ..old(self)@
            }),
    {
        self.packets.close();
    }

    /// Reads the next 20 ms encoded Opus packet.
    pub fn next_frame(&mut self) -> (result: Result<FrameRead, ReadError>)
        ensures
            (final(self)@, outcome_of(result)) == old(self)@.next(),
            result matches Ok(FrameRead::Frame(frame)) ==> frame.span()
                == VoiceOpusFrameDuration::TwentyMs,
    {
        if self.finished {
            return Ok(FrameRead::Finished);
        }
        loop
            invariant
                !self@.finished,
                self@.next() == old(self)@.next(),
            decreases self@.packets.input.len(), self@.packets.packets.pending.len(),
        {
            let ghost before = self@;
            match self.packets.next_packet() {
                Ok(PacketRead::Packet(packet)) => {
                    proof {
                        lemma_packet_is_consumed(before.packets);
                    }
                    if opens_stream(&packet) {
                    } else if packet.len() == 0 {
                        return Err(ReadError::Invalid(OggFault::EmptyPacket));
                    } else {
                        return Ok(
                            FrameRead::Frame(
                                EncodedOpusFrame::new(packet, VoiceOpusFrameDuration::TwentyMs),
                            ),
                        );
                    }
                },
                Ok(PacketRead::NeedBytes(count)) => {
                    return Ok(FrameRead::NeedBytes(count));
                },
                Ok(PacketRead::End) => {
                    return Ok(FrameRead::WaitForExit);
                },
                Err(error) => {
                    return Err(error);
                },
            }
        }
    }

    /// Takes the decoder's exit status.
    pub fn exited(&mut self, success: bool, status: String) -> (result: Result<(), DecodeError>)
        ensures
            final(self)@ == (StreamState { finished: true, ..old(self)@ }),
            result == if success {
                Ok::<(), DecodeError>(())
            } else {
                Err(DecodeError::ProcessFailed { status })
            },
    {
        self.finished = true;
        if success {
            Ok(())
        } else {
            Err(DecodeError::ProcessFailed { status })
        }
    }

    /// Whether the decoder still has to be stopped.
    pub fn is_running(&self) -> (running: bool)
        ensures
            running == !self@.finished,
    {
        !self.finished
    }

    /// Takes how stopping the decoder went. A stream that has finished stays
    /// finished, whatever is said.
    pub fn shutdown(&mut self, stopped: Result<(), String>) -> (result: Result<(), DecodeError>)
        ensures
            final(self)@ == (StreamState {
                finished: old(self)@.finished || stopped is Ok,
                ..old(self)@
            }),
            result == match stopped {
                Err(error) if !old(self)@.finished => Err::<(), DecodeError>(
                    DecodeError::Io(error),
                ),
                _ => Ok::<(), DecodeError>(()),
            },
    {
        if self.finished {
            return Ok(());
        }
        match stopped {
            Ok(_) => {
                self.finished = true;
                Ok(())
            },
            Err(error) => Err(DecodeError::Io(error)),
        }
    }
}

fn opens_stream(packet: &Vec<u8>) -> (result: bool)
    ensures
        result == is_stream_header(packet@),
{
    proof {
        lemma_prefix_of_eight(
            packet@,
            seq![0x4fu8, 0x70, 0x75, 0x73, 0x48, 0x65, 0x61, 0x64],
        );
        lemma_prefix_of_eight(
            packet@,
            seq![0x4fu8, 0x70, 0x75, 0x73, 0x54, 0x61, 0x67, 0x73],
        );
    }
    if packet.len() < 8 || packet[0] != 0x4f || packet[1] != 0x70 || packet[2] != 0x75 || packet[3]
        != 0x73 {
        return false;
    }
    let head: bool = packet[4] == 0x48 && packet[5] == 0x65 && packet[6] == 0x61 && packet[7]
        == 0x64;
    let tags: bool = packet[4] == 0x54 && packet[5] == 0x61 && packet[6] == 0x67 && packet[7]
        == 0x73;
    head || tags
}

proof fn lemma_prefix_of_eight(bytes: Seq<u8>, prefix: Seq<u8>)
    requires
        prefix.len() == 8,
    ensures
        prefix.is_prefix_of(bytes) <==> bytes.len() >= 8 && bytes[0] == prefix[0] && bytes[1]
            == prefix[1] && bytes[2] == prefix[2] && bytes[3] == prefix[3] && bytes[4] == prefix[4]
            && bytes[5] == prefix[5] && bytes[6] == prefix[6] && bytes[7] == prefix[7],
{
    if bytes.len() >= 8 {
        let start = bytes.subrange(0, 8);
        if bytes[0] == prefix[0] && bytes[1] == prefix[1] && bytes[2] == prefix[2] && bytes[3]
            == prefix[3] && bytes[4] == prefix[4] && bytes[5] == prefix[5] && bytes[6]
            == prefix[6] && bytes[7] == prefix[7] {
            assert(start =~= prefix);
        }
        if prefix.is_prefix_of(bytes) {
            assert(start == prefix);
            assert(forall|i: int| 0 <= i < 8 ==> start[i] == #[trigger] bytes[i]);
        }
    }
}

/// The safe headers, each without its line end.
pub open spec fn safe_lines(headers: Seq<(String, String)>) -> Seq<Seq<char>>
    decreases headers.len(),
{
    if headers.len() == 0 {
        Seq::empty()
    } else {
        let before = safe_lines(headers.drop_last());
        if is_safe(headers.last()) {
            before.push(header_line(headers.last()))
        } else {
            before
        }
    }
}

proof fn lemma_first_break(s: Seq<char>, end: int)
    requires
        0 <= end < s.len(),
        s[end] == '\n',
        forall|j: int| 0 <= j < end ==> s[j] != '\n',
    ensures
        text::lines(s) == seq![text::without_return(s.take(end))] + text::lines(s.skip(end + 1)),
{
    assert(s.contains('\n'));
    s.index_of_first_ensures('\n');
    let first = s.index_of_first('\n')->0;
    assert(first == end) by {
        if first < end {
            assert(s[first] != '\n');
        }
    }
}

proof fn lemma_line_is_added(block: Seq<char>, line: Seq<char>)
    requires
        block.len() == 0 || block.last() == '\n',
        !breaks_line(line),
    ensures
        text::lines(block + line + "\r\n"@) == text::lines(block).push(line),
    decreases block.len(),
{
    reveal_strlit("\r\n");
    let whole = block + line + "\r\n"@;
    if block.len() == 0 {
        let end: int = line.len() as int + 1;
        assert forall|j: int| 0 <= j < end implies whole[j] != '\n' by {
            if j < line.len() {
                assert(whole[j] == line[j]);
                assert(line.contains(line[j]));
            }
        }
        lemma_first_break(whole, end);
        assert(whole.take(end) =~= line.push('\r'));
        assert(text::without_return(line.push('\r')) =~= line);
        assert(whole.skip(end + 1) =~= Seq::<char>::empty());
        assert(text::lines(Seq::<char>::empty()) =~= Seq::<Seq<char>>::empty());
        assert(text::lines(whole) =~= seq![line]);
        assert(text::lines(block) =~= Seq::<Seq<char>>::empty());
    } else {
        assert(block[block.len() - 1] == '\n');
        assert(block.contains('\n'));
        block.index_of_first_ensures('\n');
        let end = block.index_of_first('\n')->0;
        lemma_first_break(block, end);
        assert forall|j: int| 0 <= j < end implies whole[j] != '\n' by {
            assert(whole[j] == block[j]);
        }
        lemma_first_break(whole, end);
        assert(whole.take(end) =~= block.take(end));
        let rest = block.skip(end + 1);
        assert(whole.skip(end + 1) =~= rest + line + "\r\n"@);
        if rest.len() > 0 {
            assert(rest.last() == block.last());
        }
        lemma_line_is_added(rest, line);
        assert(text::lines(whole) =~= text::lines(block).push(line));
    }
}

/// No header can smuggle in another one: the rendered block has exactly one
/// line for each safe header, which holds its name and its value.
pub proof fn law_each_header_stays_on_its_line(headers: Seq<(String, String)>)
    ensures
        text::lines(header_block(headers)) == safe_lines(headers),
        header_block(headers).len() == 0 || header_block(headers).last() == '\n',
    decreases headers.len(),
{
    reveal_strlit("\r\n");
    if headers.len() > 0 {
        law_each_header_stays_on_its_line(headers.drop_last());
        if is_safe(headers.last()) {
            let line = header_line(headers.last());
            reveal_strlit(": ");
            assert(!breaks_line(line)) by {
                if breaks_line(line) {
                    let c = if line.contains('\r') {
                        '\r'
                    } else {
                        '\n'
                    };
                    let j = line.index_of(c);
                    let name = headers.last().0@;
                    let value = headers.last().1@;
                    if j < name.len() {
                        assert(name[j] == c);
                    } else if j >= name.len() + 2 {
                        assert(value[j - name.len() - 2] == c);
                    }
                }
            }
            lemma_line_is_added(header_block(headers.drop_last()), line);
        }
    } else {
        assert(text::lines(header_block(headers)) =~= Seq::<Seq<char>>::empty());
    }
}

/// A frame that is handed out holds sound: it is not empty and does not open
/// the stream.
pub proof fn law_frames_hold_sound(stream: StreamState)
    ensures
        stream.next().1 matches FrameOutcome::Frame(packet) ==> packet.len() > 0
            && !is_stream_header(packet),
    decreases stream.packets.input.len(), stream.packets.packets.pending.len(),
{
    if !stream.finished {
        let (packets, outcome) = stream.packets.next();
        if let ogg::PacketOutcome::Packet(packet) = outcome {
            if is_stream_header(packet) {
                lemma_packet_is_consumed(stream.packets);
                law_frames_hold_sound(StreamState { packets, ..stream });
            }
        }
    }
}

} // verus!
