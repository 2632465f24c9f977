//! Reads the packets of an Ogg stream.
//!
//! Reading is pull-based: at most the current page and the packets completed
//! on it are held, so a slow consumer cannot make the reader grow.

use std::collections::VecDeque;

use vstd::prelude::*;
use vstd::string::*;

use crate::text;
use crate::text::push_decimal;

pub mod faults;
pub mod laws;

verus! {

/// The longest packet that is accepted.
pub const MAX_OGG_PACKET_BYTES: usize = 65_536;

/// The most payload that the lacing values of one page can describe.
pub const MAX_OGG_PAGE_BYTES: usize = 65_025;

/// The bytes of a page before its lacing values.
pub const PAGE_HEADER_BYTES: usize = 27;

/// What is wrong with an Ogg stream.
#[derive(Debug, Clone, Copy, PartialEq, Eq, Structural)]
pub enum OggFault {
    NoCapturePattern,
    UnsupportedVersion(u8),
    ContinuationLost,
    LacingExceedsPayload,
    PacketTooLong,
    UnreferencedPayload,
    EndedInPacket,
    EmptyPacket,
}

impl OggFault {
    pub open spec fn message(self) -> Seq<char> {
        match self {
            OggFault::NoCapturePattern => "page did not start with the OggS capture pattern"@,
            OggFault::UnsupportedVersion(version) => "unsupported Ogg stream version "@
                + text::decimal(version as nat),
            OggFault::ContinuationLost => "packet continuation was lost between Ogg pages"@,
            OggFault::LacingExceedsPayload => "Ogg lacing exceeded page payload"@,
            OggFault::PacketTooLong => "Ogg packet exceeded 65536 bytes"@,
            OggFault::UnreferencedPayload => "Ogg page contained unreferenced payload bytes"@,
            OggFault::EndedInPacket => "stream ended in the middle of an Ogg packet"@,
            OggFault::EmptyPacket => "received an empty Opus packet"@,
        }
    }

    /// The fault in words.
    pub fn text(&self) -> (text: String)
        ensures
            text@ == self.message(),
    {
        match *self {
            OggFault::NoCapturePattern => {
                "page did not start with the OggS capture pattern".to_owned()
            },
            OggFault::UnsupportedVersion(version) => {
                let mut text: String = "unsupported Ogg stream version ".to_owned();
                push_decimal(&mut text, version as u64);
                text
            },
            OggFault::ContinuationLost => {
                "packet continuation was lost between Ogg pages".to_owned()
            },
            OggFault::LacingExceedsPayload => "Ogg lacing exceeded page payload".to_owned(),
            OggFault::PacketTooLong => "Ogg packet exceeded 65536 bytes".to_owned(),
            OggFault::UnreferencedPayload => {
                "Ogg page contained unreferenced payload bytes".to_owned()
            },
            OggFault::EndedInPacket => "stream ended in the middle of an Ogg packet".to_owned(),
            OggFault::EmptyPacket => "received an empty Opus packet".to_owned(),
        }
    }
}

/// The packets that a reader holds, as the contracts speak of them: those that
/// are complete, and the beginning of one that is not.
#[verifier::ext_equal]
pub struct Packets {
    pub pending: Seq<Seq<u8>>,
    pub partial: Seq<u8>,
}

impl Packets {
    /// Walks the segments of a page. A segment of fewer than 255 bytes ends a
    /// packet. With `discard`, the end of a packet whose beginning was never
    /// seen is passed over.
    pub open spec fn segmented(
        self,
        lacing: Seq<u8>,
        payload: Seq<u8>,
        discard: bool,
    ) -> (Packets, Option<OggFault>)
        decreases lacing.len(),
    {
        if lacing.len() == 0 {
            if payload.len() == 0 {
                (self, None)
            } else {
                (self, Some(OggFault::UnreferencedPayload))
            }
        } else {
            let length = lacing[0] as int;
            if payload.len() < length {
                (self, Some(OggFault::LacingExceedsPayload))
            } else {
                let rest = payload.skip(length);
                let partial = self.partial + payload.take(length);
                if discard {
                    self.segmented(lacing.drop_first(), rest, length == 255)
                } else if partial.len() > MAX_OGG_PACKET_BYTES {
                    (Packets { partial, ..self }, Some(OggFault::PacketTooLong))
                } else if length < 255 {
                    Packets {
                        pending: self.pending.push(partial),
                        partial: Seq::empty(),
                    }.segmented(lacing.drop_first(), rest, false)
                } else {
                    Packets { partial, ..self }.segmented(lacing.drop_first(), rest, false)
                }
            }
        }
    }

    /// Takes in one page. The lowest bit of the header type says that the page
    /// goes on with a packet begun on an earlier one.
    pub open spec fn paged(self, header_type: u8, lacing: Seq<u8>, payload: Seq<u8>) -> (
        Packets,
        Option<OggFault>,
    ) {
        let continued = header_type % 2 == 1;
        if !continued && self.partial.len() > 0 {
            (self, Some(OggFault::ContinuationLost))
        } else {
            self.segmented(lacing, payload, continued && self.partial.len() == 0)
        }
    }
}

/// The number of payload bytes that lacing values describe.
pub open spec fn payload_len(lacing: Seq<u8>) -> nat
    decreases lacing.len(),
{
    if lacing.len() == 0 {
        0
    } else {
        payload_len(lacing.drop_last()) + lacing.last() as nat
    }
}

/// What stands at the beginning of a stream of bytes.
pub enum PageParse {
    /// The page is not complete; at least so many bytes are missing.
    Short(nat),
    /// A fault that shows in so many bytes.
    Broken(OggFault, nat),
    /// A page of so many bytes.
    Page { header_type: u8, lacing: Seq<u8>, payload: Seq<u8>, len: nat },
}

/// The first page of a stream: the capture pattern, a version, the header
/// type, twenty bytes that do not matter here, the number of lacing values,
/// the lacing values and the payload that they describe.
pub open spec fn first_page(input: Seq<u8>) -> PageParse {
    if input.len() == 0 {
        PageParse::Short(1)
    } else if input.len() < 4 {
        PageParse::Short((4 - input.len()) as nat)
    } else if input.take(4) != seq![0x4fu8, 0x67, 0x67, 0x53] {
        PageParse::Broken(OggFault::NoCapturePattern, 4)
    } else if input.len() < PAGE_HEADER_BYTES {
        PageParse::Short((PAGE_HEADER_BYTES - input.len()) as nat)
    } else if input[4] != 0 {
        PageParse::Broken(OggFault::UnsupportedVersion(input[4]), PAGE_HEADER_BYTES as nat)
    } else {
        let laced = PAGE_HEADER_BYTES + input[26] as int;
        if input.len() < laced {
            PageParse::Short((laced - input.len()) as nat)
        } else {
            let lacing = input.subrange(PAGE_HEADER_BYTES as int, laced);
            let end = laced + payload_len(lacing);
            if input.len() < end {
                PageParse::Short((end - input.len()) as nat)
            } else {
                PageParse::Page {
                    header_type: input[5],
                    lacing,
                    payload: input.subrange(laced, end),
                    len: end as nat,
                }
            }
        }
    }
}

/// Why no packet can be read any more.
#[derive(Debug, Clone, Copy, PartialEq, Eq, Structural)]
pub enum ReadError {
    /// The stream ended within a page.
    Truncated,
    Invalid(OggFault),
}

/// What asking for a packet came to.
#[derive(Debug, PartialEq, Eq)]
pub enum PacketRead {
    Packet(Vec<u8>),
    /// At least so many bytes have to come first.
    NeedBytes(usize),
    /// The stream has ended.
    End,
}

/// What asking for a packet comes to, as the contracts speak of it.
pub enum PacketOutcome {
    Packet(Seq<u8>),
    NeedBytes(nat),
    End,
    Failed(ReadError),
}

/// The outcome that a result stands for.
pub open spec fn outcome_of(result: Result<PacketRead, ReadError>) -> PacketOutcome {
    match result {
        Ok(PacketRead::Packet(packet)) => PacketOutcome::Packet(packet@),
        Ok(PacketRead::NeedBytes(count)) => PacketOutcome::NeedBytes(count as nat),
        Ok(PacketRead::End) => PacketOutcome::End,
        Err(error) => PacketOutcome::Failed(error),
    }
}

/// A reader, as the contracts speak of it: the bytes that it has not yet
/// looked at, whether more may come, and the packets found so far.
#[verifier::ext_equal]
pub struct ReaderState {
    pub input: Seq<u8>,
    pub closed: bool,
    pub packets: Packets,
}

impl ReaderState {
    /// The reader without its first `count` bytes.
    pub open spec fn advanced(self, count: int) -> ReaderState {
        ReaderState { input: self.input.skip(count), ..self }
    }

    /// Asks for the next packet: one that is complete, or the first that the
    /// following pages complete.
    pub open spec fn next(self) -> (ReaderState, PacketOutcome)
        decreases self.input.len(),
    {
        if self.packets.pending.len() > 0 {
            (
                ReaderState {
                    packets: Packets {
                        pending: self.packets.pending.drop_first(),
                        ..self.packets
                    },
                    ..self
                },
                PacketOutcome::Packet(self.packets.pending[0]),
            )
        } else {
            match first_page(self.input) {
                PageParse::Short(count) => if !self.closed {
                    (self, PacketOutcome::NeedBytes(count))
                } else if self.input.len() > 0 {
                    (
                        ReaderState { input: Seq::empty(), ..self },
                        PacketOutcome::Failed(ReadError::Truncated),
                    )
                } else if self.packets.partial.len() > 0 {
                    (
                        self,
                        PacketOutcome::Failed(ReadError::Invalid(OggFault::EndedInPacket)),
                    )
                } else {
                    (self, PacketOutcome::End)
                },
                PageParse::Broken(fault, count) => (
                    self.advanced(count as int),
                    PacketOutcome::Failed(ReadError::Invalid(fault)),
                ),
                PageParse::Page { header_type, lacing, payload, len } => {
                    let (packets, fault) = self.packets.paged(header_type, lacing, payload);
                    let after = ReaderState { packets, ..self.advanced(len as int) };
                    match fault {
                        Some(fault) => (
                            after,
                            PacketOutcome::Failed(ReadError::Invalid(fault)),
                        ),
                        None => if len > 0 {
                            after.next()
                        } else {
                            (after, PacketOutcome::End)
                        },
                    }
                },
            }
        }
    }
}

/// Reads the packets of an Ogg stream.
#[derive(Debug)]
pub struct OggPacketReader {
    input: Vec<u8>,
    closed: bool,
    pending: VecDeque<Vec<u8>>,
    partial: Vec<u8>,
}

impl View for OggPacketReader {
    type V = ReaderState;

    closed spec fn view(&self) -> ReaderState {
        ReaderState {
            input: self.input@,
            closed: self.closed,
            packets: Packets {
                pending: self.pending@.map_values(|packet: Vec<u8>| packet@),
                partial: self.partial@,
            },
        }
    }
}

enum PageRead {
    Done,
    Stopped(Result<PacketRead, ReadError>),
}

impl OggPacketReader {
    /// A reader at the beginning of a stream.
    pub fn new() -> (reader: Self)
        ensures
            reader@ == (ReaderState {
                input: Seq::empty(),
                closed: false,
                packets: Packets { pending: Seq::empty(), partial: Seq::empty() },
            }),
    {
        let reader: OggPacketReader = OggPacketReader {
            input: Vec::new(),
            closed: false,
            pending: VecDeque::new(),
            partial: Vec::new(),
        };
        assert(reader@.packets.pending =~= Seq::empty());
        reader
    }

    /// Hands over the next bytes of the stream.
    pub fn push_bytes(&mut self, bytes: &Vec<u8>)
        ensures
            final(self)@ == (ReaderState { input: old(self)@.input + bytes@, ..old(self)@ }),
    {
        let mut i: usize = 0;
        while i < bytes.len()
            invariant
                i <= bytes@.len(),
                self@ == (ReaderState {
                    input: old(self)@.input + bytes@.take(i as int),
                    ..old(self)@
                }),
            decreases bytes@.len() - i,
        {
            self.input.push(bytes[i]);
            assert(self@.input =~= old(self)@.input + bytes@.take(i + 1));
            i += 1;
        }
        assert(bytes@.take(i as int) =~= bytes@);
    }

    /// Says that no more bytes will come.
    pub fn close(&mut self)
        ensures
            final(self)@ == (ReaderState { closed: true, ..old(self)@ }),
    {
        self.closed = true;
    }

    /// Asks for the next packet.
    pub fn next_packet(&mut self) -> (result: Result<PacketRead, ReadError>)
        ensures
            (final(self)@, outcome_of(result)) == old(self)@.next(),
    {
        loop
            invariant
                self@.next() == old(self)@.next(),
            decreases self@.input.len(),
        {
            let ghost before = self@;
            if let Some(packet) = self.pending.pop_front() {
                assert(self@.packets.pending =~= before.packets.pending.drop_first());
                return Ok(PacketRead::Packet(packet));
            }
            match self.read_page() {
                PageRead::Done => {},
                PageRead::Stopped(result) => {
                    return result;
                },
            }
        }
    }

    /// Takes in the page at the beginning of the unread bytes.
    fn read_page(&mut self) -> (read: PageRead)
        requires
            old(self)@.packets.pending.len() == 0,
        ensures
            match read {
                PageRead::Done => final(self)@.next() == old(self)@.next()
                    && final(self)@.input.len() < old(self)@.input.len(),
                PageRead::Stopped(result) => (final(self)@, outcome_of(result))
                    == old(self)@.next(),
            },
    {
        let available: usize = self.input.len();
        if available == 0 {
            return PageRead::Stopped(self.wait_for(1));
        }
        if available < 4 {
            return PageRead::Stopped(self.wait_for(4 - available));
        }
        if self.input[0] != 0x4f || self.input[1] != 0x67 || self.input[2] != 0x67 || self.input[3]
            != 0x53 {
            proof {
                let capture = self@.input.take(4);
                let pattern = seq![0x4fu8, 0x67, 0x67, 0x53];
                assert(capture[0] == self@.input[0]);
                assert(capture[1] == self@.input[1]);
                assert(capture[2] == self@.input[2]);
                assert(capture[3] == self@.input[3]);
                assert(capture != pattern) by {
                    assert(pattern[0] == 0x4f && pattern[1] == 0x67 && pattern[2] == 0x67
                        && pattern[3] == 0x53);
                }
            }
            self.advance(4);
            return PageRead::Stopped(Err(ReadError::Invalid(OggFault::NoCapturePattern)));
        }
        assert(self@.input.take(4) =~= seq![0x4fu8, 0x67, 0x67, 0x53]);
        if available < PAGE_HEADER_BYTES {
            return PageRead::Stopped(self.wait_for(PAGE_HEADER_BYTES - available));
        }
        let version: u8 = self.input[4];
        if version != 0 {
            self.advance(PAGE_HEADER_BYTES);
            return PageRead::Stopped(
                Err(ReadError::Invalid(OggFault::UnsupportedVersion(version))),
            );
        }
        let header_type: u8 = self.input[5];
        let laced: usize = PAGE_HEADER_BYTES + self.input[26] as usize;
        if available < laced {
            return PageRead::Stopped(self.wait_for(laced - available));
        }
        let lacing: Vec<u8> = copy_range(&self.input, PAGE_HEADER_BYTES, laced);
        let length: usize = described_len(&lacing);
        if available < laced + length {
            return PageRead::Stopped(self.wait_for(laced + length - available));
        }
        let payload: Vec<u8> = copy_range(&self.input, laced, laced + length);
        self.advance(laced + length);
        match self.process_page(header_type, &lacing, &payload) {
            Ok(_) => PageRead::Done,
            Err(fault) => PageRead::Stopped(Err(ReadError::Invalid(fault))),
        }
    }

    /// How a reader answers that holds no complete page.
    fn wait_for(&mut self, count: usize) -> (result: Result<PacketRead, ReadError>)
        requires
            first_page(old(self)@.input) == PageParse::Short(count as nat),
            old(self)@.packets.pending.len() == 0,
        ensures
            (final(self)@, outcome_of(result)) == old(self)@.next(),
    {
        if !self.closed {
            Ok(PacketRead::NeedBytes(count))
        } else if self.input.len() > 0 {
            self.input = Vec::new();
            Err(ReadError::Truncated)
        } else if self.partial.len() > 0 {
            Err(ReadError::Invalid(OggFault::EndedInPacket))
        } else {
            Ok(PacketRead::End)
        }
    }

    fn advance(&mut self, count: usize)
        requires
            count <= old(self)@.input.len(),
        ensures
            final(self)@ == old(self)@.advanced(count as int),
    {
        let rest: Vec<u8> = copy_range(&self.input, count, self.input.len());
        assert(rest@ =~= self.input@.skip(count as int));
        self.input = rest;
    }

    /// Takes in one page.
    pub fn process_page(&mut self, header_type: u8, lacing: &Vec<u8>, payload: &Vec<u8>) -> (result:
        Result<(), OggFault>)
        ensures
            ({
                let (packets, fault) = old(self)@.packets.paged(header_type, lacing@, payload@);
                &&& final(self)@ == (ReaderState { packets, ..old(self)@ })
                &&& result == match fault {
                    Some(fault) => Err(fault),
                    None => Ok(()),
                }
            }),
    {
        let continued: bool = header_type % 2 == 1;
        if !continued && self.partial.len() > 0 {
            return Err(OggFault::ContinuationLost);
        }
        let mut discard: bool = continued && self.partial.len() == 0;
        let mut offset: usize = 0;
        let mut i: usize = 0;
        let ghost target = old(self)@.packets.paged(header_type, lacing@, payload@);
        proof {
            assert(lacing@.skip(0) =~= lacing@);
            assert(payload@.skip(0) =~= payload@);
        }
        while i < lacing.len()
            invariant
                i <= lacing@.len(),
                offset <= payload.len(),
                target == old(self)@.packets.paged(header_type, lacing@, payload@),
                self@ == (ReaderState { packets: self@.packets, ..old(self)@ }),
                self@.packets.segmented(
                    lacing@.skip(i as int),
                    payload@.skip(offset as int),
                    discard,
                ) == target,
            decreases lacing@.len() - i,
        {
            let ghost before = self@.packets;
            let ghost rest = payload@.skip(offset as int);
            let length: usize = lacing[i] as usize;
            assert(lacing@.skip(i as int).drop_first() =~= lacing@.skip(i + 1));
            if payload.len() - offset < length {
                return Err(OggFault::LacingExceedsPayload);
            }
            let end: usize = offset + length;
            assert(rest.skip(length as int) =~= payload@.skip(end as int));
            assert(rest.take(length as int) =~= payload@.subrange(offset as int, end as int));
            if discard {
                if length < 255 {
                    discard = false;
                }
            } else {
                append_range(&mut self.partial, payload, offset, end);
                assert(self@.packets =~= (Packets {
                    partial: before.partial + rest.take(length as int),
                    ..before
                }));
                if self.partial.len() > MAX_OGG_PACKET_BYTES {
                    return Err(OggFault::PacketTooLong);
                }
                if length < 255 {
                    let mut packet: Vec<u8> = Vec::new();
                    std::mem::swap(&mut packet, &mut self.partial);
                    self.pending.push_back(packet);
                    assert(self@.packets.pending =~= before.pending.push(
                        before.partial + rest.take(length as int),
                    ));
                }
            }
            offset = end;
            i += 1;
        }
        if offset != payload.len() {
            return Err(OggFault::UnreferencedPayload);
        }
        Ok(())
    }
}

fn copy_range(bytes: &Vec<u8>, from: usize, to: usize) -> (copy: Vec<u8>)
    requires
        from <= to <= bytes@.len(),
    ensures
        copy@ == bytes@.subrange(from as int, to as int),
{
    let mut copy: Vec<u8> = Vec::new();
    append_range(&mut copy, bytes, from, to);
    copy
}

fn append_range(out: &mut Vec<u8>, bytes: &Vec<u8>, from: usize, to: usize)
    requires
        from <= to <= bytes@.len(),
    ensures
        final(out)@ == old(out)@ + bytes@.subrange(from as int, to as int),
{
    let mut i: usize = from;
    while i < to
        invariant
            from <= i <= to <= bytes@.len(),
            out@ == old(out)@ + bytes@.subrange(from as int, i as int),
        decreases to - i,
    {
        out.push(bytes[i]);
        i += 1;
    }
}

/// The number of payload bytes that lacing values describe.
fn described_len(lacing: &Vec<u8>) -> (length: usize)
    requires
        lacing@.len() <= 255,
    ensures
        length == payload_len(lacing@),
        length <= MAX_OGG_PAGE_BYTES,
{
    let mut length: usize = 0;
    let mut i: usize = 0;
    assert(lacing@.take(0) =~= Seq::empty());
    while i < lacing.len()
        invariant
            i <= lacing@.len() <= 255,
            length == payload_len(lacing@.take(i as int)),
            length <= 255 * i,
        decreases lacing@.len() - i,
    {
        assert(lacing@.take(i + 1).drop_last() =~= lacing@.take(i as int));
        length += lacing[i] as usize;
        i += 1;
    }
    assert(lacing@.take(i as int) =~= lacing@);
    length
}

/// The lacing values of a packet of `len` bytes: as many full segments as fit,
/// then one that is not full.
pub open spec fn lacing_of(len: nat) -> Seq<u8>
    decreases len,
{
    if len < 255 {
        seq![len as u8]
    } else {
        seq![255u8] + lacing_of((len - 255) as nat)
    }
}

/// The lacing values of some packets, one after the other.
pub open spec fn lacing_of_all(packets: Seq<Seq<u8>>) -> Seq<u8>
    decreases packets.len(),
{
    if packets.len() == 0 {
        Seq::empty()
    } else {
        lacing_of(packets[0].len()) + lacing_of_all(packets.drop_first())
    }
}

/// The bytes of some packets, one after the other.
pub open spec fn bytes_of_all(packets: Seq<Seq<u8>>) -> Seq<u8>
    decreases packets.len(),
{
    if packets.len() == 0 {
        Seq::empty()
    } else {
        packets[0] + bytes_of_all(packets.drop_first())
    }
}

/// Some full segments.
pub open spec fn full_segments(count: nat) -> Seq<u8> {
    Seq::new(count, |i: int| 255u8)
}

proof fn lemma_packet_is_taken_in(
    packets: Packets,
    packet: Seq<u8>,
    lacing: Seq<u8>,
    payload: Seq<u8>,
)
    requires
        packets.partial.len() + packet.len() <= MAX_OGG_PACKET_BYTES,
    ensures
        packets.segmented(lacing_of(packet.len()) + lacing, packet + payload, false) == (Packets {
            pending: packets.pending.push(packets.partial + packet),
            partial: Seq::empty(),
        }).segmented(lacing, payload, false),
    decreases packet.len(),
{
    let laced = lacing_of(packet.len()) + lacing;
    let bytes = packet + payload;
    if packet.len() < 255 {
        assert(laced.drop_first() =~= lacing);
        assert(bytes.take(packet.len() as int) =~= packet);
        assert(bytes.skip(packet.len() as int) =~= payload);
    } else {
        let head = packet.take(255);
        let tail = packet.skip(255);
        let begun = Packets { partial: packets.partial + head, ..packets };
        assert(laced.drop_first() =~= lacing_of(tail.len()) + lacing);
        assert(bytes.take(255) =~= head);
        assert(bytes.skip(255) =~= tail + payload);
        lemma_packet_is_taken_in(begun, tail, lacing, payload);
        assert(begun.partial + tail =~= packets.partial + packet);
    }
}

proof fn lemma_packets_are_taken_in(pending: Seq<Seq<u8>>, packets: Seq<Seq<u8>>)
    requires
        forall|i: int|
            0 <= i < packets.len() ==> (#[trigger] packets[i]).len() <= MAX_OGG_PACKET_BYTES,
    ensures
        (Packets { pending, partial: Seq::empty() }).segmented(
            lacing_of_all(packets),
            bytes_of_all(packets),
            false,
        ) == (Packets { pending: pending + packets, partial: Seq::empty() }, None::<OggFault>),
    decreases packets.len(),
{
    let held = Packets { pending, partial: Seq::empty() };
    if packets.len() == 0 {
        assert(pending + packets =~= pending);
    } else {
        let rest = packets.drop_first();
        lemma_packet_is_taken_in(held, packets[0], lacing_of_all(rest), bytes_of_all(rest));
        assert(held.partial + packets[0] =~= packets[0]);
        assert forall|i: int| 0 <= i < rest.len() implies (#[trigger] rest[i]).len()
            <= MAX_OGG_PACKET_BYTES by {
            assert(rest[i] == packets[i + 1]);
        }
        lemma_packets_are_taken_in(pending.push(packets[0]), rest);
        assert(pending.push(packets[0]) + rest =~= pending + packets);
    }
}

proof fn lemma_full_segments_pile_up(packets: Packets, count: nat, payload: Seq<u8>)
    requires
        payload.len() == 255 * count,
        packets.partial.len() + payload.len() <= MAX_OGG_PACKET_BYTES,
    ensures
        packets.segmented(full_segments(count), payload, false) == (
            Packets { partial: packets.partial + payload, ..packets },
            None::<OggFault>,
        ),
    decreases count,
{
    if count == 0 {
        assert(packets.partial + payload =~= packets.partial);
    } else {
        let begun = Packets { partial: packets.partial + payload.take(255), ..packets };
        assert(full_segments(count).drop_first() =~= full_segments((count - 1) as nat));
        lemma_full_segments_pile_up(begun, (count - 1) as nat, payload.skip(255));
        assert(begun.partial + payload.skip(255) =~= packets.partial + payload);
    }
}

/// A page that carries whole packets delivers exactly these, in their order.
pub proof fn law_page_delivers_its_packets(
    pending: Seq<Seq<u8>>,
    header_type: u8,
    packets: Seq<Seq<u8>>,
)
    requires
        header_type % 2 == 0,
        forall|i: int|
            0 <= i < packets.len() ==> (#[trigger] packets[i]).len() <= MAX_OGG_PACKET_BYTES,
    ensures
        (Packets { pending, partial: Seq::empty() }).paged(
            header_type,
            lacing_of_all(packets),
            bytes_of_all(packets),
        ) == (Packets { pending: pending + packets, partial: Seq::empty() }, None::<OggFault>),
{
    lemma_packets_are_taken_in(pending, packets);
}

/// A packet that is cut after some full segments and goes on upon the next
/// page is put together again.
pub proof fn law_cut_packet_is_put_together(
    pending: Seq<Seq<u8>>,
    packet: Seq<u8>,
    count: nat,
    first_type: u8,
    second_type: u8,
)
    requires
        0 < count,
        255 * count <= packet.len() <= MAX_OGG_PACKET_BYTES,
        first_type % 2 == 0,
        second_type % 2 == 1,
    ensures
        ({
            let cut = 255 * count as int;
            let (begun, first_fault) = (Packets { pending, partial: Seq::empty() }).paged(
                first_type,
                full_segments(count),
                packet.take(cut),
            );
            let (whole, second_fault) = begun.paged(
                second_type,
                lacing_of((packet.len() - cut) as nat),
                packet.skip(cut),
            );
            &&& first_fault is None
            &&& begun.pending == pending
            &&& second_fault is None
            &&& whole == (Packets { pending: pending.push(packet), partial: Seq::empty() })
        }),
{
    let cut = 255 * count as int;
    let held = Packets { pending, partial: Seq::empty() };
    lemma_full_segments_pile_up(held, count, packet.take(cut));
    let begun = held.paged(first_type, full_segments(count), packet.take(cut)).0;
    assert(begun.partial =~= packet.take(cut));
    let tail = packet.skip(cut);
    lemma_packet_is_taken_in(begun, tail, Seq::empty(), Seq::empty());
    assert(lacing_of(tail.len()) + Seq::<u8>::empty() =~= lacing_of(tail.len()));
    assert(tail + Seq::<u8>::empty() =~= tail);
    assert(packet.take(cut) + tail =~= packet);
}

/// A packet that is not complete never grows past the limit.
pub proof fn law_partial_packet_is_bounded(
    packets: Packets,
    lacing: Seq<u8>,
    payload: Seq<u8>,
    discard: bool,
)
    requires
        packets.partial.len() <= MAX_OGG_PACKET_BYTES,
    ensures
        packets.segmented(lacing, payload, discard).1 is None ==> packets.segmented(
            lacing,
            payload,
            discard,
        ).0.partial.len() <= MAX_OGG_PACKET_BYTES,
    decreases lacing.len(),
{
    if lacing.len() > 0 && payload.len() >= lacing[0] {
        let length = lacing[0] as int;
        let rest = payload.skip(length);
        let partial = packets.partial + payload.take(length);
        if discard {
            law_partial_packet_is_bounded(packets, lacing.drop_first(), rest, length == 255);
        } else if partial.len() <= MAX_OGG_PACKET_BYTES {
            if length < 255 {
                law_partial_packet_is_bounded(
                    Packets { pending: packets.pending.push(partial), partial: Seq::empty() },
                    lacing.drop_first(),
                    rest,
                    false,
                );
            } else {
                law_partial_packet_is_bounded(
                    Packets { partial, ..packets },
                    lacing.drop_first(),
                    rest,
                    false,
                );
            }
        }
    }
}

/// The bytes of a page: `ignored` stands for the twenty bytes that hold the
/// position, the serial number, the page number and the checksum.
pub open spec fn page_bytes(
    header_type: u8,
    ignored: Seq<u8>,
    lacing: Seq<u8>,
    payload: Seq<u8>,
) -> Seq<u8> {
    seq![0x4fu8, 0x67, 0x67, 0x53, 0, header_type] + ignored + seq![lacing.len() as u8] + lacing
        + payload
}

/// A page that is written is read back as it was, whatever follows it.
pub proof fn law_written_page_is_read_back(
    header_type: u8,
    ignored: Seq<u8>,
    lacing: Seq<u8>,
    payload: Seq<u8>,
    rest: Seq<u8>,
)
    requires
        ignored.len() == 20,
        lacing.len() <= 255,
        payload.len() == payload_len(lacing),
    ensures
        first_page(page_bytes(header_type, ignored, lacing, payload) + rest) == (PageParse::Page {
            header_type,
            lacing,
            payload,
            len: page_bytes(header_type, ignored, lacing, payload).len(),
        }),
{
    let page = page_bytes(header_type, ignored, lacing, payload);
    let input = page + rest;
    let laced: int = 27 + lacing.len() as int;
    assert(input.take(4) =~= seq![0x4fu8, 0x67, 0x67, 0x53]);
    assert(input[26] == lacing.len() as u8);
    assert(input.subrange(27, laced) =~= lacing);
    assert(input.subrange(laced, laced + payload.len()) =~= payload);
}

} // verus!
