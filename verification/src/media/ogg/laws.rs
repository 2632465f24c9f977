//! What holds of whole Ogg streams, however their packets lie on pages and
//! however their bytes arrive.

use vstd::prelude::*;

use super::{OggFault, PacketOutcome, PageParse, Packets, ReaderState, MAX_OGG_PACKET_BYTES};
use crate::media::ogg;

verus! {

/// A page. `ignored` stands for the twenty bytes that hold the position, the
/// serial number, the page number and the checksum.
pub struct Page {
    pub header_type: u8,
    pub ignored: Seq<u8>,
    pub lacing: Seq<u8>,
    pub payload: Seq<u8>,
}

impl Page {
    /// The page can be written down.
    pub open spec fn is_valid(self) -> bool {
        &&& self.ignored.len() == 20
        &&& self.lacing.len() <= 255
        &&& self.payload.len() == ogg::payload_len(self.lacing)
    }

    /// The page as it is written down.
    pub open spec fn bytes(self) -> Seq<u8> {
        ogg::page_bytes(self.header_type, self.ignored, self.lacing, self.payload)
    }
}

/// Some pages as they are written down, one after the other.
pub open spec fn stream_bytes(pages: Seq<Page>) -> Seq<u8>
    decreases pages.len(),
{
    if pages.len() == 0 {
        Seq::empty()
    } else {
        pages[0].bytes() + stream_bytes(pages.drop_first())
    }
}

/// The lacing values of some pages, one after the other.
pub open spec fn stream_lacing(pages: Seq<Page>) -> Seq<u8>
    decreases pages.len(),
{
    if pages.len() == 0 {
        Seq::empty()
    } else {
        pages[0].lacing + stream_lacing(pages.drop_first())
    }
}

/// The payload of some pages, one after the other.
pub open spec fn stream_payload(pages: Seq<Page>) -> Seq<u8>
    decreases pages.len(),
{
    if pages.len() == 0 {
        Seq::empty()
    } else {
        pages[0].payload + stream_payload(pages.drop_first())
    }
}

/// A packet is cut off at the end of a page with these lacing values, if
/// `open` says that one was cut off before it.
pub open spec fn leaves_open(open: bool, lacing: Seq<u8>) -> bool {
    if lacing.len() == 0 {
        open
    } else {
        lacing.last() == 255
    }
}

/// Every page says of itself whether it goes on with a packet that was cut off.
pub open spec fn continues_rightly(open: bool, pages: Seq<Page>) -> bool
    decreases pages.len(),
{
    pages.len() > 0 ==> {
        &&& (pages[0].header_type % 2 == 1) == open
        &&& continues_rightly(leaves_open(open, pages[0].lacing), pages.drop_first())
    }
}

/// The pages are a well-formed stream of these packets: their segments, taken
/// together, spell the packets, wherever the pages cut them.
pub open spec fn carries(pages: Seq<Page>, packets: Seq<Seq<u8>>) -> bool {
    &&& forall|i: int| 0 <= i < pages.len() ==> (#[trigger] pages[i]).is_valid()
    &&& continues_rightly(false, pages)
    &&& stream_lacing(pages) == ogg::lacing_of_all(packets)
    &&& stream_payload(pages) == ogg::bytes_of_all(packets)
    &&& forall|i: int|
        0 <= i < packets.len() ==> (#[trigger] packets[i]).len() <= MAX_OGG_PACKET_BYTES
}

/// A reader that holds all that is left of a stream: `pages` are still unread,
/// and `packets` are all that it will give.
pub open spec fn will_give(reader: ReaderState, pages: Seq<Page>, packets: Seq<Seq<u8>>) -> bool {
    &&& reader.closed
    &&& reader.input == stream_bytes(pages)
    &&& forall|i: int| 0 <= i < pages.len() ==> (#[trigger] pages[i]).is_valid()
    &&& continues_rightly(reader.packets.partial.len() > 0, pages)
    &&& reader.packets.segmented(stream_lacing(pages), stream_payload(pages), false) == (
        Packets { pending: packets, partial: Seq::empty() },
        None::<OggFault>,
    )
}

proof fn lemma_payload_len_from_the_front(lacing: Seq<u8>)
    requires
        lacing.len() > 0,
    ensures
        ogg::payload_len(lacing) == lacing[0] + ogg::payload_len(lacing.drop_first()),
    decreases lacing.len(),
{
    if lacing.len() == 1 {
        assert(lacing.drop_last() =~= lacing.drop_first());
    } else {
        lemma_payload_len_from_the_front(lacing.drop_last());
        assert(lacing.drop_last().drop_first() =~= lacing.drop_first().drop_last());
    }
}

/// What a reader holds already has no bearing on what comes after it.
proof fn lemma_pending_is_kept(packets: Packets, lacing: Seq<u8>, payload: Seq<u8>)
    ensures
        ({
            let bare = Packets { pending: Seq::empty(), ..packets };
            let (with, with_fault) = packets.segmented(lacing, payload, false);
            let (without, without_fault) = bare.segmented(lacing, payload, false);
            &&& with.pending == packets.pending + without.pending
            &&& with.partial == without.partial
            &&& with_fault == without_fault
        }),
    decreases lacing.len(),
{
    let bare = Packets { pending: Seq::empty(), ..packets };
    assert(packets.pending + Seq::<Seq<u8>>::empty() =~= packets.pending);
    if lacing.len() > 0 && payload.len() >= lacing[0] {
        let length = lacing[0] as int;
        let rest = payload.skip(length);
        let partial = packets.partial + payload.take(length);
        if partial.len() <= MAX_OGG_PACKET_BYTES {
            if length < 255 {
                let one = Packets { pending: packets.pending.push(partial), partial: Seq::empty() };
                let other = Packets { pending: bare.pending.push(partial), partial: Seq::empty() };
                lemma_pending_is_kept(one, lacing.drop_first(), rest);
                lemma_pending_is_kept(other, lacing.drop_first(), rest);
                let last = (Packets { pending: Seq::empty(), partial: Seq::empty() }).segmented(
                    lacing.drop_first(),
                    rest,
                    false,
                ).0.pending;
                assert(packets.pending.push(partial) + last =~= packets.pending + (
                bare.pending.push(partial) + last));
            } else {
                lemma_pending_is_kept(
                    Packets { partial, ..packets },
                    lacing.drop_first(),
                    rest,
                );
            }
        }
    }
}

/// Segments may be walked page by page.
proof fn lemma_segments_split(
    packets: Packets,
    lacing: Seq<u8>,
    payload: Seq<u8>,
    more_lacing: Seq<u8>,
    more_payload: Seq<u8>,
)
    requires
        payload.len() == ogg::payload_len(lacing),
        packets.segmented(lacing + more_lacing, payload + more_payload, false).1 is None,
    ensures
        packets.segmented(lacing, payload, false).1 is None,
        packets.segmented(lacing, payload, false).0.segmented(more_lacing, more_payload, false)
            == packets.segmented(lacing + more_lacing, payload + more_payload, false),
    decreases lacing.len(),
{
    if lacing.len() == 0 {
        assert(lacing + more_lacing =~= more_lacing);
        assert(payload + more_payload =~= more_payload);
    } else {
        lemma_payload_len_from_the_front(lacing);
        let length = lacing[0] as int;
        let whole = payload + more_payload;
        assert((lacing + more_lacing)[0] == lacing[0]);
        assert((lacing + more_lacing).drop_first() =~= lacing.drop_first() + more_lacing);
        assert(whole.take(length) =~= payload.take(length));
        assert(whole.skip(length) =~= payload.skip(length) + more_payload);
        let partial = packets.partial + payload.take(length);
        let next = if length < 255 {
            Packets { pending: packets.pending.push(partial), partial: Seq::empty() }
        } else {
            Packets { partial, ..packets }
        };
        lemma_segments_split(
            next,
            lacing.drop_first(),
            payload.skip(length),
            more_lacing,
            more_payload,
        );
    }
}

/// A packet is cut off exactly when the last segment is full.
proof fn lemma_open_packet(packets: Packets, lacing: Seq<u8>, payload: Seq<u8>)
    requires
        packets.segmented(lacing, payload, false).1 is None,
    ensures
        (packets.segmented(lacing, payload, false).0.partial.len() > 0) == leaves_open(
            packets.partial.len() > 0,
            lacing,
        ),
    decreases lacing.len(),
{
    if lacing.len() > 0 {
        let length = lacing[0] as int;
        let partial = packets.partial + payload.take(length);
        let next = if length < 255 {
            Packets { pending: packets.pending.push(partial), partial: Seq::empty() }
        } else {
            Packets { partial, ..packets }
        };
        lemma_open_packet(next, lacing.drop_first(), payload.skip(length));
        if lacing.len() > 1 {
            assert(lacing.drop_first().last() == lacing.last());
        }
    }
}

/// A reader of a well-formed stream gives the first packet that is left, and
/// then the others; without any left, the stream has ended.
pub proof fn lemma_next_packet(
    reader: ReaderState,
    pages: Seq<Page>,
    packets: Seq<Seq<u8>>,
) -> (rest: Seq<Page>)
    requires
        will_give(reader, pages, packets),
    ensures
        packets.len() == 0 ==> reader.next().1 is End,
        packets.len() > 0 ==> reader.next().1 == PacketOutcome::Packet(packets[0]) && will_give(
            reader.next().0,
            rest,
            packets.drop_first(),
        ),
    decreases pages.len(),
{
    let held = reader.packets;
    lemma_pending_is_kept(held, stream_lacing(pages), stream_payload(pages));
    if held.pending.len() > 0 {
        let less = Packets { pending: held.pending.drop_first(), ..held };
        lemma_pending_is_kept(less, stream_lacing(pages), stream_payload(pages));
        let (after, fault) = less.segmented(stream_lacing(pages), stream_payload(pages), false);
        assert(packets[0] == held.pending[0]);
        assert(after.pending =~= packets.drop_first());
        pages
    } else if pages.len() == 0 {
        assert(held == (Packets { pending: packets, partial: Seq::empty() }));
        pages
    } else {
        let page = pages[0];
        let others = pages.drop_first();
        assert(page.is_valid());
        ogg::law_written_page_is_read_back(
            page.header_type,
            page.ignored,
            page.lacing,
            page.payload,
            stream_bytes(others),
        );
        lemma_segments_split(
            held,
            page.lacing,
            page.payload,
            stream_lacing(others),
            stream_payload(others),
        );
        lemma_open_packet(held, page.lacing, page.payload);
        let (taken, fault) = held.paged(page.header_type, page.lacing, page.payload);
        let after = ReaderState {
            packets: taken,
            ..reader.advanced(page.bytes().len() as int)
        };
        assert(after.input =~= stream_bytes(others));
        assert forall|i: int| 0 <= i < others.len() implies (#[trigger] others[i]).is_valid() by {
            assert(pages[i + 1].is_valid());
        }
        let rest = lemma_next_packet(after, others, packets);
        assert(reader.next() == after.next());
        rest
    }
}

/// A reader that has been handed a whole well-formed stream will give its
/// packets.
pub proof fn lemma_whole_stream(reader: ReaderState, pages: Seq<Page>, packets: Seq<Seq<u8>>)
    requires
        carries(pages, packets),
        reader == (ReaderState {
            input: stream_bytes(pages),
            closed: true,
            packets: Packets { pending: Seq::empty(), partial: Seq::empty() },
        }),
    ensures
        will_give(reader, pages, packets),
{
    ogg::law_page_delivers_its_packets(Seq::empty(), 0, packets);
    assert(Seq::<Seq<u8>>::empty() + packets =~= packets);
}

/// Asking for packets in a row gives exactly these, and then the end.
pub open spec fn gives(reader: ReaderState, packets: Seq<Seq<u8>>) -> bool
    decreases packets.len(),
{
    if packets.len() == 0 {
        reader.next().1 is End
    } else {
        &&& reader.next().1 == PacketOutcome::Packet(packets[0])
        &&& gives(reader.next().0, packets.drop_first())
    }
}

proof fn lemma_gives(reader: ReaderState, pages: Seq<Page>, packets: Seq<Seq<u8>>)
    requires
        will_give(reader, pages, packets),
    ensures
        gives(reader, packets),
    decreases packets.len(),
{
    let rest = lemma_next_packet(reader, pages, packets);
    if packets.len() > 0 {
        lemma_gives(reader.next().0, rest, packets.drop_first());
    }
}

/// A whole well-formed stream gives every packet once and in order, wherever
/// its pages cut them, and then the end.
pub proof fn law_stream_gives_its_packets(
    reader: ReaderState,
    pages: Seq<Page>,
    packets: Seq<Seq<u8>>,
)
    requires
        carries(pages, packets),
        reader == (ReaderState {
            input: stream_bytes(pages),
            closed: true,
            packets: Packets { pending: Seq::empty(), partial: Seq::empty() },
        }),
    ensures
        gives(reader, packets),
{
    lemma_whole_stream(reader, pages, packets);
    lemma_gives(reader, pages, packets);
}

/// A reader that more bytes have come for.
pub open spec fn extended(reader: ReaderState, more: Seq<u8>, closed: bool) -> ReaderState {
    ReaderState { input: reader.input + more, closed, ..reader }
}

proof fn lemma_longer_input(input: Seq<u8>, more: Seq<u8>)
    ensures
        ogg::first_page(input) !is Short ==> ogg::first_page(input + more) == ogg::first_page(
            input,
        ),
        ogg::first_page(input) matches PageParse::Short(count) ==> count > 0,
        ogg::first_page(input) matches PageParse::Page { len, .. } ==> len <= input.len(),
        ogg::first_page(input) matches PageParse::Broken(_, len) ==> len <= input.len(),
{
    let whole = input + more;
    if input.len() >= 4 {
        assert(whole.take(4) =~= input.take(4));
        if input.len() >= 27 {
            let laced = 27 + input[26] as int;
            if input.len() >= laced {
                let lacing = input.subrange(27, laced);
                assert(whole.subrange(27, laced) =~= lacing);
                let end = laced + ogg::payload_len(lacing);
                if input.len() >= end {
                    assert(whole.subrange(laced, end) =~= input.subrange(laced, end));
                }
            }
        }
    }
}

/// It does not matter in which pieces the bytes of a stream arrive: a packet
/// or a fault that shows comes out the same whatever follows it, and a reader
/// that asked for more bytes goes on as if they had been there before.
pub proof fn law_packets_do_not_depend_on_pieces(reader: ReaderState, more: Seq<u8>, closed: bool)
    requires
        !reader.closed,
    ensures
        ({
            let (after, outcome) = reader.next();
            if outcome is NeedBytes {
                &&& outcome->NeedBytes_0 > 0
                &&& extended(reader, more, closed).next() == extended(after, more, closed).next()
            } else {
                extended(reader, more, closed).next() == (extended(after, more, closed), outcome)
            }
        }),
        !reader.next().0.closed,
    decreases reader.input.len(),
{
    let long = extended(reader, more, closed);
    if reader.packets.pending.len() > 0 {
    } else {
        lemma_longer_input(reader.input, more);
        match ogg::first_page(reader.input) {
            PageParse::Short(_) => {},
            PageParse::Broken(_, len) => {
                assert(long.input.skip(len as int) =~= reader.input.skip(len as int) + more);
            },
            PageParse::Page { header_type, lacing, payload, len } => {
                let (packets, fault) = reader.packets.paged(header_type, lacing, payload);
                let after = ReaderState { packets, ..reader.advanced(len as int) };
                assert(long.input.skip(len as int) =~= reader.input.skip(len as int) + more);
                assert(extended(after, more, closed) =~= (ReaderState {
                    packets,
                    ..long.advanced(len as int)
                }));
                if fault is None && len > 0 {
                    law_packets_do_not_depend_on_pieces(after, more, closed);
                }
            },
        }
    }
}

} // verus!
