//! Which streams are refused, and what is said of them.

use vstd::prelude::*;

use crate::media::ogg;
use crate::media::ogg::{
    OggFault, PacketOutcome, Packets, ReadError, ReaderState,
};
use crate::text;

verus! {

/// A page has to begin with the four letters of the capture pattern, and to
/// have the one version that there is. Anything else is refused as soon as it
/// shows.
pub proof fn law_pages_begin_with_pattern_and_version(reader: ReaderState)
    requires
        reader.packets.pending.len() == 0,
        reader.input.len() >= 4,
    ensures
        ({
            let input = reader.input;
            let captured = input[0] == 'O' as u8 && input[1] == 'g' as u8 && input[2] == 'g' as u8
                && input[3] == 'S' as u8;
            &&& !captured ==> reader.next().1 == PacketOutcome::Failed(
                ReadError::Invalid(OggFault::NoCapturePattern),
            )
            &&& captured && input.len() >= 27 && input[4] != 0 ==> reader.next().1
                == PacketOutcome::Failed(
                ReadError::Invalid(OggFault::UnsupportedVersion(input[4])),
            )
            &&& captured && input.len() < 27 && !reader.closed ==> reader.next() == (
                reader,
                PacketOutcome::NeedBytes((27 - input.len()) as nat),
            )
        }),
{
    let input = reader.input;
    let pattern = seq![0x4fu8, 0x67, 0x67, 0x53];
    assert('O' as u8 == 0x4f && 'g' as u8 == 0x67 && 'S' as u8 == 0x53);
    if input[0] == 0x4f && input[1] == 0x67 && input[2] == 0x67 && input[3] == 0x53 {
        assert(input.take(4) =~= pattern);
    } else {
        assert(input.take(4) != pattern) by {
            assert(input.take(4)[0] == input[0] && input.take(4)[1] == input[1] && input.take(
                4,
            )[2] == input[2] && input.take(4)[3] == input[3]);
            assert(pattern[0] == 0x4f && pattern[1] == 0x67 && pattern[2] == 0x67 && pattern[3]
                == 0x53);
        }
    }
}

proof fn lemma_cut_page(
    header_type: u8,
    ignored: Seq<u8>,
    lacing: Seq<u8>,
    payload: Seq<u8>,
    cut: int,
)
    requires
        ignored.len() == 20,
        lacing.len() <= 255,
        payload.len() == ogg::payload_len(lacing),
        0 < cut < ogg::page_bytes(header_type, ignored, lacing, payload).len(),
    ensures
        ({
            let page = ogg::page_bytes(header_type, ignored, lacing, payload);
            let parse = ogg::first_page(page.take(cut));
            parse is Short && 0 < parse->Short_0 <= page.len() - cut
        }),
{
    let page = ogg::page_bytes(header_type, ignored, lacing, payload);
    let input = page.take(cut);
    let laced: int = 27 + lacing.len() as int;
    if cut >= 4 {
        assert(input.take(4) =~= seq![0x4fu8, 0x67, 0x67, 0x53]);
    }
    if cut >= 27 {
        assert(input[4] == page[4]);
        assert(page[4] == 0);
        assert(input[26] == page[26]);
        assert(page[26] == lacing.len() as u8);
    }
    if cut >= laced {
        assert(input.subrange(27, laced) =~= lacing);
    }
}

/// A page that is cut off anywhere is waited for while more may come, for no
/// more bytes than are missing, and refused as truncated once none will.
pub proof fn law_cut_page_is_waited_for(
    reader: ReaderState,
    header_type: u8,
    ignored: Seq<u8>,
    lacing: Seq<u8>,
    payload: Seq<u8>,
    cut: int,
)
    requires
        ignored.len() == 20,
        lacing.len() <= 255,
        payload.len() == ogg::payload_len(lacing),
        0 < cut < ogg::page_bytes(header_type, ignored, lacing, payload).len(),
        reader.packets.pending.len() == 0,
        reader.input == ogg::page_bytes(header_type, ignored, lacing, payload).take(cut),
    ensures
        ({
            let page = ogg::page_bytes(header_type, ignored, lacing, payload);
            let (after, outcome) = reader.next();
            &&& reader.closed ==> outcome == PacketOutcome::Failed(ReadError::Truncated)
            &&& !reader.closed ==> after == reader && outcome is NeedBytes && 0
                < outcome->NeedBytes_0 <= page.len() - cut
        }),
{
    lemma_cut_page(header_type, ignored, lacing, payload, cut);
}

/// A stream whose bytes have come to an end is over, unless a packet was
/// begun: then it is refused. While more bytes may come, one is waited for.
pub proof fn law_stream_ends_between_packets(reader: ReaderState)
    requires
        reader.packets.pending.len() == 0,
        reader.input.len() == 0,
    ensures
        reader.closed && reader.packets.partial.len() == 0 ==> reader.next().1 is End,
        reader.closed && reader.packets.partial.len() > 0 ==> reader.next().1
            == PacketOutcome::Failed(ReadError::Invalid(OggFault::EndedInPacket)),
        !reader.closed ==> reader.next().1 == PacketOutcome::NeedBytes(1),
{
}

/// Packets come out in the order in which they were completed, before any more
/// bytes are looked at.
pub proof fn law_completed_packets_come_first(reader: ReaderState)
    requires
        reader.packets.pending.len() > 0,
    ensures
        reader.next().1 == PacketOutcome::Packet(reader.packets.pending[0]),
        reader.next().0.packets.pending == reader.packets.pending.skip(1),
        reader.next().0.packets.partial == reader.packets.partial,
        reader.next().0.input == reader.input,
        reader.next().0.closed == reader.closed,
{
    assert(reader.packets.pending.skip(1) =~= reader.packets.pending.drop_first());
}

/// A packet that was begun has to be gone on with upon the next page. The end
/// of one whose beginning was never seen is passed over, segment by segment,
/// up to the first that is not full.
pub proof fn law_continued_packets_need_their_beginning(
    packets: Packets,
    header_type: u8,
    segment: Seq<u8>,
    lacing: Seq<u8>,
    payload: Seq<u8>,
)
    requires
        segment.len() <= 255,
    ensures
        packets.partial.len() > 0 && header_type % 2 == 0 ==> packets.paged(
            header_type,
            lacing,
            payload,
        ) == (packets, Some(OggFault::ContinuationLost)),
        packets.partial.len() == 0 && header_type % 2 == 1 && segment.len() < 255 ==> packets.paged(
            header_type,
            seq![segment.len() as u8] + lacing,
            segment + payload,
        ) == packets.segmented(lacing, payload, false),
        packets.partial.len() == 0 && header_type % 2 == 1 && segment.len() == 255
            ==> packets.paged(header_type, seq![255u8] + lacing, segment + payload)
            == packets.paged(header_type, lacing, payload),
{
    let laced = seq![segment.len() as u8] + lacing;
    assert(laced.drop_first() =~= lacing);
    assert(laced[0] == segment.len() as u8);
    assert((segment + payload).skip(segment.len() as int) =~= payload);
}

/// A segment that is not full ends a packet of all that was gathered; a full
/// one goes on gathering. A packet may come to 65536 bytes and no more. Lacing
/// values and payload have to come out even.
pub proof fn law_segments_are_gathered_into_packets(
    packets: Packets,
    segment: Seq<u8>,
    lacing: Seq<u8>,
    payload: Seq<u8>,
)
    requires
        segment.len() <= 255,
    ensures
        ({
            let gathered = packets.partial + segment;
            let result = packets.segmented(
                seq![segment.len() as u8] + lacing,
                segment + payload,
                false,
            );
            &&& gathered.len() <= 65_536 && segment.len() < 255 ==> result == (Packets {
                pending: packets.pending.push(gathered),
                partial: Seq::empty(),
            }).segmented(lacing, payload, false)
            &&& gathered.len() <= 65_536 && segment.len() == 255 ==> result == (Packets {
                partial: gathered,
                ..packets
            }).segmented(lacing, payload, false)
            &&& gathered.len() > 65_536 ==> result.1 == Some(OggFault::PacketTooLong)
                && result.0.pending == packets.pending
        }),
        payload.len() == 0 ==> packets.segmented(Seq::empty(), payload, false) == (
            packets,
            None::<OggFault>,
        ),
        payload.len() > 0 ==> packets.segmented(Seq::empty(), payload, false).1 == Some(
            OggFault::UnreferencedPayload,
        ),
        payload.len() < segment.len() ==> packets.segmented(
            seq![segment.len() as u8] + lacing,
            payload,
            false,
        ).1 == Some(OggFault::LacingExceedsPayload),
{
    let laced = seq![segment.len() as u8] + lacing;
    let bytes = segment + payload;
    assert(laced.drop_first() =~= lacing);
    assert(laced[0] == segment.len() as u8);
    assert(bytes.take(segment.len() as int) =~= segment);
    assert(bytes.skip(segment.len() as int) =~= payload);
}

/// Lacing values describe as many bytes of payload as they sum up to.
pub proof fn law_payload_is_what_the_lacing_sums_up_to(
    left: Seq<u8>,
    right: Seq<u8>,
    value: u8,
)
    ensures
        ogg::payload_len(left + right) == ogg::payload_len(left) + ogg::payload_len(right),
        ogg::payload_len(seq![value]) == value,
        ogg::payload_len(Seq::<u8>::empty()) == 0,
    decreases right.len(),
{
    assert(seq![value].drop_last() =~= Seq::<u8>::empty());
    assert(ogg::payload_len(seq![value].drop_last()) == 0);
    if right.len() == 0 {
        assert(left + right =~= left);
    } else {
        law_payload_is_what_the_lacing_sums_up_to(left, right.drop_last(), value);
        assert((left + right).drop_last() =~= left + right.drop_last());
        assert((left + right).last() == right.last());
    }
}

/// A page that cannot be taken in ends the reading with its fault.
pub proof fn law_page_faults_are_told(reader: ReaderState)
    requires
        reader.packets.pending.len() == 0,
        ogg::first_page(reader.input) is Page,
    ensures
        ({
            let page = ogg::first_page(reader.input);
            let taken = reader.packets.paged(page->header_type, page->lacing, page->payload);
            taken.1 matches Some(fault) ==> reader.next().1 == PacketOutcome::Failed(
                ReadError::Invalid(fault),
            )
        }),
{
}

/// A version that is not supported is named.
pub proof fn law_unsupported_version_is_named(version: u8)
    ensures
        OggFault::UnsupportedVersion(version).message() == "unsupported Ogg stream version "@
            + text::decimal(version as nat),
{
}

} // verus!
