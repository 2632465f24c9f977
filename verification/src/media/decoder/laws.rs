//! What holds of a decoder's whole output.

use vstd::prelude::*;

use super::{FrameOutcome, StreamState};
use crate::media::decoder;
use crate::media::ogg;
use crate::media::ogg::laws::{self, Page};
use crate::media::ogg::{Packets, ReaderState};

verus! {

/// The packets that hold sound.
pub open spec fn sounding(packets: Seq<Seq<u8>>) -> Seq<Seq<u8>>
    decreases packets.len(),
{
    if packets.len() == 0 {
        Seq::empty()
    } else if decoder::is_stream_header(packets[0]) {
        sounding(packets.drop_first())
    } else {
        seq![packets[0]] + sounding(packets.drop_first())
    }
}

/// Asking for frames in a row gives exactly these. Then the decoder's exit
/// status is waited for, and once it is known there is nothing more, however
/// often one asks.
pub open spec fn plays(stream: StreamState, frames: Seq<Seq<u8>>) -> bool
    decreases frames.len(),
{
    let (after, outcome) = stream.next();
    if frames.len() == 0 {
        let exited = StreamState { finished: true, ..after };
        &&& outcome is WaitForExit
        &&& exited.next() == (exited, FrameOutcome::Finished)
    } else {
        &&& outcome == FrameOutcome::Frame(frames[0])
        &&& plays(after, frames.drop_first())
    }
}

proof fn lemma_plays(stream: StreamState, pages: Seq<Page>, packets: Seq<Seq<u8>>)
    requires
        !stream.finished,
        laws::will_give(stream.packets, pages, packets),
        forall|i: int| 0 <= i < packets.len() ==> (#[trigger] packets[i]).len() > 0,
    ensures
        plays(stream, sounding(packets)),
    decreases packets.len(),
{
    let rest = laws::lemma_next_packet(stream.packets, pages, packets);
    if packets.len() > 0 {
        let after = StreamState { packets: stream.packets.next().0, ..stream };
        let others = packets.drop_first();
        assert(packets[0].len() > 0);
        assert forall|i: int| 0 <= i < others.len() implies (#[trigger] others[i]).len() > 0 by {
            assert(packets[i + 1].len() > 0);
        }
        decoder::lemma_packet_is_consumed(stream.packets);
        lemma_plays(after, rest, others);
        if decoder::is_stream_header(packets[0]) {
            assert(stream.next() == after.next());
        } else {
            assert(sounding(packets).drop_first() =~= sounding(others));
        }
    }
}

/// A decoder that writes a whole well-formed stream of packets that are not
/// empty gives every packet that holds sound as one frame, once and in order.
/// Then its exit status is asked for, and from then on there is nothing more.
pub proof fn law_stream_gives_every_frame(
    stream: StreamState,
    pages: Seq<Page>,
    packets: Seq<Seq<u8>>,
)
    requires
        laws::carries(pages, packets),
        forall|i: int| 0 <= i < packets.len() ==> (#[trigger] packets[i]).len() > 0,
        stream == (StreamState {
            packets: ReaderState {
                input: laws::stream_bytes(pages),
                closed: true,
                packets: Packets { pending: Seq::empty(), partial: Seq::empty() },
            },
            finished: false,
        }),
    ensures
        plays(stream, sounding(packets)),
{
    laws::lemma_whole_stream(stream.packets, pages, packets);
    lemma_plays(stream, pages, packets);
}

/// A stream that more of the decoder's output has come for.
pub open spec fn extended(stream: StreamState, more: Seq<u8>, closed: bool) -> StreamState {
    StreamState { packets: laws::extended(stream.packets, more, closed), ..stream }
}

/// It does not matter in which pieces the decoder's output arrives: a frame or
/// a fault that shows comes out the same whatever follows it, and a stream that
/// asked for more bytes goes on as if they had been there before.
pub proof fn law_frames_do_not_depend_on_pieces(stream: StreamState, more: Seq<u8>, closed: bool)
    requires
        !stream.finished,
        !stream.packets.closed,
    ensures
        ({
            let (after, outcome) = stream.next();
            if outcome is NeedBytes {
                &&& outcome->NeedBytes_0 > 0
                &&& extended(stream, more, closed).next() == extended(after, more, closed).next()
            } else {
                extended(stream, more, closed).next() == (extended(after, more, closed), outcome)
            }
        }),
    decreases stream.packets.input.len(), stream.packets.packets.pending.len(),
{
    laws::law_packets_do_not_depend_on_pieces(stream.packets, more, closed);
    let (packets, outcome) = stream.packets.next();
    let after = StreamState { packets, ..stream };
    if let ogg::PacketOutcome::Packet(packet) = outcome {
        if decoder::is_stream_header(packet) {
            decoder::lemma_packet_is_consumed(stream.packets);
            law_frames_do_not_depend_on_pieces(after, more, closed);
            assert(stream.next() == after.next());
            assert(extended(stream, more, closed).next() == extended(after, more, closed).next());
        }
    }
}

} // verus!
