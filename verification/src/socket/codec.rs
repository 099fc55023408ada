//! The two codecs: one per end of the link.
//!
//! Both frame their messages alike and differ only in which vocabulary they
//! read and which they write. The bot's end reads `ServerRequest` and writes
//! `BotResponse`; the backend's end does the reverse.

use crate::socket::buffer::{buffer_bytes, buffer_slice};
use crate::socket::frame::{
    after_first_frame, announced, first_payload, frame, frame_ready,
    lemma_frame_prefix_not_ready, lemma_frame_then_rest, put_frame, take_frame, MAX_PAYLOAD,
};
use crate::socket::message::{BotResponse, MessageView, ServerRequest};
use crate::socket::wire::{
    lemma_text_reads_back, message_text, read_variant, text_message, write_variant, Variant,
    Vocabulary,
};
use bytes::BytesMut;
use vstd::prelude::*;

verus! {

/// Why a codec refused.
#[derive(Debug, Clone, Copy, PartialEq, Eq, Structural)]
pub enum CodecError {
    /// A whole frame arrived whose payload is no message of the vocabulary.
    /// The stream cannot be trusted after this: frame boundaries are lost.
    InvalidPayload,
    /// The message's text is longer than the 16-bit header can announce.
    PayloadTooLarge,
}

/// What one decoding step makes of a buffer.
pub enum Step {
    /// No whole frame is buffered yet.
    Incomplete,
    /// The first frame held this message.
    Message(MessageView),
    /// The first frame held no message of the vocabulary.
    Malformed,
}

/// One decoding step on a buffer: what it yields, and what it leaves in the
/// buffer.
pub open spec fn decode_step(voc: Vocabulary, buf: Seq<u8>) -> (Step, Seq<u8>) {
    if !frame_ready(buf) {
        (Step::Incomplete, buf)
    } else {
        (
            match text_message(voc, first_payload(buf)) {
                Some(m) => Step::Message(m),
                None => Step::Malformed,
            },
            after_first_frame(buf),
        )
    }
}

/// Whether a message's text fits into one frame.
pub open spec fn fits(voc: Vocabulary, m: MessageView) -> bool {
    message_text(voc, m).len() <= MAX_PAYLOAD
}

/// The bytes of a message on the wire: header, then text.
pub open spec fn encoded(voc: Vocabulary, m: MessageView) -> Seq<u8>
    recommends
        fits(voc, m),
{
    frame(message_text(voc, m))
}

/// Whether a byte sequence is one frame, and nothing more, that decodes to
/// the message. Every frame that `encode` writes is one.
pub open spec fn is_frame_of(voc: Vocabulary, bytes: Seq<u8>, m: MessageView) -> bool {
    decode_step(voc, bytes) == (Step::Message(m), Seq::<u8>::empty())
}

/// The heartbeat on the wire is the eight bytes `00 06 22 50 69 6e 67 22`, in
/// both directions, and decodes to the heartbeat.
pub proof fn lemma_ping_on_the_wire(voc: Vocabulary)
    ensures
        encoded(voc, MessageView::Ping) == seq![
            0x00u8,
            0x06u8,
            0x22u8,
            0x50u8,
            0x69u8,
            0x6eu8,
            0x67u8,
            0x22u8,
        ],
        fits(voc, MessageView::Ping),
        is_frame_of(voc, encoded(voc, MessageView::Ping), MessageView::Ping),
{
    let text = message_text(voc, MessageView::Ping);
    assert(encoded(voc, MessageView::Ping) =~= seq![
        0x00u8,
        0x06u8,
        0x22u8,
        0x50u8,
        0x69u8,
        0x6eu8,
        0x67u8,
        0x22u8,
    ]);
    lemma_text_reads_back(voc, MessageView::Ping);
    lemma_frame_then_rest(text, Seq::<u8>::empty());
    assert(frame(text) + Seq::<u8>::empty() =~= frame(text));
}

/// Partial frames: while any proper prefix of a message's frame is all that
/// is buffered, a decoding step yields nothing and leaves the buffer as it
/// is; once the rest has arrived, the buffer is the whole frame again.
pub proof fn lemma_partial_frame(voc: Vocabulary, m: MessageView, k: int)
    requires
        fits(voc, m),
        0 <= k < encoded(voc, m).len(),
    ensures
        decode_step(voc, encoded(voc, m).take(k)) == (Step::Incomplete, encoded(voc, m).take(k)),
        encoded(voc, m).take(k) + encoded(voc, m).skip(k) == encoded(voc, m),
{
    lemma_frame_prefix_not_ready(message_text(voc, m), k);
    assert(encoded(voc, m).take(k) + encoded(voc, m).skip(k) =~= encoded(voc, m));
}

/// Frames in a row: a decoding step on a message's frame followed by any
/// other bytes yields what it yields on the frame alone, and leaves exactly
/// the bytes that followed.
pub proof fn lemma_frame_then_more(voc: Vocabulary, m: MessageView, rest: Seq<u8>)
    requires
        fits(voc, m),
    ensures
        decode_step(voc, encoded(voc, m) + rest).0 == decode_step(voc, encoded(voc, m)).0,
        decode_step(voc, encoded(voc, m) + rest).1 == rest,
        decode_step(voc, encoded(voc, m)).1 == Seq::<u8>::empty(),
{
    let text = message_text(voc, m);
    lemma_frame_then_rest(text, rest);
    lemma_frame_then_rest(text, Seq::<u8>::empty());
    assert(frame(text) + Seq::<u8>::empty() =~= frame(text));
}

/// Two frames in a row: where each of two byte sequences is one frame of a
/// message, two decoding steps on the first followed by the second yield the
/// first message, then the second, and leave nothing.
pub proof fn lemma_two_frames(
    voc: Vocabulary,
    first: Seq<u8>,
    m1: MessageView,
    second: Seq<u8>,
    m2: MessageView,
)
    requires
        is_frame_of(voc, first, m1),
        is_frame_of(voc, second, m2),
    ensures
        decode_step(voc, first + second) == (Step::Message(m1), second),
        decode_step(voc, decode_step(voc, first + second).1) == (
            Step::Message(m2),
            Seq::<u8>::empty(),
        ),
{
    let both = first + second;
    assert(frame_ready(first));
    assert(first.skip(2 + announced(first)) =~= Seq::<u8>::empty());
    assert(first.len() == 2 + announced(first));
    assert(both[0] == first[0]);
    assert(both[1] == first[1]);
    assert(first_payload(both) =~= first_payload(first));
    assert(after_first_frame(both) =~= second);
}

/// Reads one message of a vocabulary off the front of the buffer.
///
/// Without a whole frame the result is `Ok(None)` and the buffer is
/// untouched. With one, the frame leaves the buffer, and the result is the
/// message, or `InvalidPayload` where the payload is none.
pub fn decode_variant(voc: Vocabulary, src: &mut BytesMut) -> (r: Result<
    Option<Variant>,
    CodecError,
>)
    ensures
        match decode_step(voc, buffer_bytes(*old(src))).0 {
            Step::Incomplete => r == Ok::<Option<Variant>, CodecError>(None),
            Step::Message(m) => r matches Ok(Some(v)) && v@ == m,
            Step::Malformed => r == Err::<Option<Variant>, CodecError>(CodecError::InvalidPayload),
        },
        buffer_bytes(*final(src)) == decode_step(voc, buffer_bytes(*old(src))).1,
{
    match take_frame(src) {
        None => Ok(None),
        Some(payload) => match read_variant(voc, buffer_slice(&payload)) {
            Some(v) => Ok(Some(v)),
            None => Err(CodecError::InvalidPayload),
        },
    }
}

/// Appends one message of a vocabulary to the buffer as a frame.
///
/// A message whose text fits is appended, header first, and the frame is one
/// that a decoding step reads back as the message, whatever follows it. A
/// message whose text does not fit is refused and the buffer is untouched.
pub fn encode_variant(voc: Vocabulary, v: &Variant, dst: &mut BytesMut) -> (r: Result<
    (),
    CodecError,
>)
    ensures
        fits(voc, v@) ==> r is Ok && buffer_bytes(*final(dst)) == buffer_bytes(*old(dst))
            + encoded(voc, v@) && is_frame_of(voc, encoded(voc, v@), v@),
        !fits(voc, v@) ==> r == Err::<(), CodecError>(CodecError::PayloadTooLarge) && buffer_bytes(
            *final(dst),
        ) == buffer_bytes(*old(dst)),
{
    let text = write_variant(voc, v);
    if text.len() > MAX_PAYLOAD {
        return Err(CodecError::PayloadTooLarge);
    }
    put_frame(dst, text.as_slice());
    proof {
        lemma_frame_then_rest(text@, Seq::<u8>::empty());
        assert(frame(text@) + Seq::<u8>::empty() =~= frame(text@));
    }
    Ok(())
}

/// Codec of the bot's end: reads `ServerRequest`, writes `BotResponse`.
pub struct ClientCodec;

/// Codec of the backend's end: reads `BotResponse`, writes `ServerRequest`.
pub struct ServerCodec;

impl ClientCodec {
    /// Reads one request off the front of the buffer.
    ///
    /// Without a whole frame the result is `Ok(None)` and the buffer is
    /// untouched. With one, the frame leaves the buffer, and the result is
    /// the request, or `InvalidPayload` where the payload is none.
    pub fn decode(&mut self, src: &mut BytesMut) -> (r: Result<Option<ServerRequest>, CodecError>)
        ensures
            match decode_step(Vocabulary::Upstream, buffer_bytes(*old(src))).0 {
                Step::Incomplete => r == Ok::<Option<ServerRequest>, CodecError>(None),
                Step::Message(m) => r matches Ok(Some(msg)) && msg@ == m,
                Step::Malformed => r == Err::<Option<ServerRequest>, CodecError>(
                    CodecError::InvalidPayload,
                ),
            },
            buffer_bytes(*final(src)) == decode_step(
                Vocabulary::Upstream,
                buffer_bytes(*old(src)),
            ).1,
    {
        match decode_variant(Vocabulary::Upstream, src) {
            Ok(None) => Ok(None),
            Ok(Some(Variant::Ping)) => Ok(Some(ServerRequest::Ping)),
            Ok(Some(Variant::Payload(s))) => Ok(Some(ServerRequest::GetUser(s))),
            Err(e) => Err(e),
        }
    }

    /// Appends one response to the buffer as a frame.
    ///
    /// A response whose text fits into a frame is appended, and the backend's
    /// codec reads that frame back as the same response. One whose text does
    /// not fit is refused with `PayloadTooLarge` and the buffer is untouched.
    pub fn encode(&mut self, msg: BotResponse, dst: &mut BytesMut) -> (r: Result<(), CodecError>)
        ensures
            fits(Vocabulary::Downstream, msg@) ==> r is Ok && buffer_bytes(*final(dst))
                == buffer_bytes(*old(dst)) + encoded(Vocabulary::Downstream, msg@) && is_frame_of(
                Vocabulary::Downstream,
                encoded(Vocabulary::Downstream, msg@),
                msg@,
            ),
            !fits(Vocabulary::Downstream, msg@) ==> r == Err::<(), CodecError>(
                CodecError::PayloadTooLarge,
            ) && buffer_bytes(*final(dst)) == buffer_bytes(*old(dst)),
    {
        let v = match msg {
            BotResponse::Ping => Variant::Ping,
            BotResponse::User(s) => Variant::Payload(s),
        };
        encode_variant(Vocabulary::Downstream, &v, dst)
    }
}

impl ServerCodec {
    /// Reads one response off the front of the buffer.
    ///
    /// Without a whole frame the result is `Ok(None)` and the buffer is
    /// untouched. With one, the frame leaves the buffer, and the result is
    /// the response, or `InvalidPayload` where the payload is none.
    pub fn decode(&mut self, src: &mut BytesMut) -> (r: Result<Option<BotResponse>, CodecError>)
        ensures
            match decode_step(Vocabulary::Downstream, buffer_bytes(*old(src))).0 {
                Step::Incomplete => r == Ok::<Option<BotResponse>, CodecError>(None),
                Step::Message(m) => r matches Ok(Some(msg)) && msg@ == m,
                Step::Malformed => r == Err::<Option<BotResponse>, CodecError>(
                    CodecError::InvalidPayload,
                ),
            },
            buffer_bytes(*final(src)) == decode_step(
                Vocabulary::Downstream,
                buffer_bytes(*old(src)),
            ).1,
    {
        match decode_variant(Vocabulary::Downstream, src) {
            Ok(None) => Ok(None),
            Ok(Some(Variant::Ping)) => Ok(Some(BotResponse::Ping)),
            Ok(Some(Variant::Payload(s))) => Ok(Some(BotResponse::User(s))),
            Err(e) => Err(e),
        }
    }

    /// Appends one request to the buffer as a frame.
    ///
    /// A request whose text fits into a frame is appended, and the bot's
    /// codec reads that frame back as the same request. One whose text does
    /// not fit is refused with `PayloadTooLarge` and the buffer is untouched.
    pub fn encode(&mut self, msg: ServerRequest, dst: &mut BytesMut) -> (r: Result<(), CodecError>)
        ensures
            fits(Vocabulary::Upstream, msg@) ==> r is Ok && buffer_bytes(*final(dst))
                == buffer_bytes(*old(dst)) + encoded(Vocabulary::Upstream, msg@) && is_frame_of(
                Vocabulary::Upstream,
                encoded(Vocabulary::Upstream, msg@),
                msg@,
            ),
            !fits(Vocabulary::Upstream, msg@) ==> r == Err::<(), CodecError>(
                CodecError::PayloadTooLarge,
            ) && buffer_bytes(*final(dst)) == buffer_bytes(*old(dst)),
    {
        let v = match msg {
            ServerRequest::Ping => Variant::Ping,
            ServerRequest::GetUser(s) => Variant::Payload(s),
        };
        encode_variant(Vocabulary::Upstream, &v, dst)
    }
}

} // verus!
