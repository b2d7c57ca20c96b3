//! Encoding RPC messages into EventStream frames and decoding frames off the socket's byte
//! stream.

use super::wire::{
    buffer_extend, buffered, complete_frame, decode_frame, encode_frame, frame_decoding,
    frame_encoding, frame_len, held_prelude, incomplete_frame, message_headers, message_payload,
    new_buffer, new_frame_decoder, timestamp_free,
};
use crate::error::Error;
use aws_smithy_eventstream::frame::MessageFrameDecoder;
use aws_smithy_types::event_stream::Message;
use bytes::BytesMut;
use vstd::prelude::*;

verus! {

/// Encodes a message as one EventStream frame, ready to be written to the socket.
pub fn encode_message(message: &Message) -> (r: Result<Vec<u8>, Error>)
    ensures
        match frame_encoding(message_headers(*message), message_payload(*message)) {
            Some(bytes) => r matches Ok(b) && b@ == bytes,
            None => r matches Err(e) && e is Frame,
        },
        r matches Ok(b) ==> is_whole_frame(b@),
        r matches Ok(b) ==> (timestamp_free(message_headers(*message)) ==> frame_decoding(b@)
            == Some((message_headers(*message), message_payload(*message)))),
{
    match encode_frame(message) {
        Ok(bytes) => Ok(bytes),
        Err(text) => Err(Error::frame(text)),
    }
}

/// Reads complete EventStream frames out of the bytes received so far, keeping the decoder
/// state so that partial frames and pipelined bytes are never lost between reads.
pub struct FrameReader {
    decoder: MessageFrameDecoder,
    buf: BytesMut,
}

impl FrameReader {
    /// The bytes received and not yet handed back as a frame, in order.
    pub closed spec fn pending(&self) -> Seq<u8> {
        held_prelude(self.decoder) + buffered(self.buf)
    }

    /// A reader that has seen no bytes yet.
    pub fn new() -> (r: FrameReader)
        ensures
            r.pending() == Seq::<u8>::empty(),
    {
        let r = FrameReader { decoder: new_frame_decoder(), buf: new_buffer(8192) };
        assert(r.pending() =~= Seq::<u8>::empty());
        r
    }

    /// Adds bytes received from the socket after those already pending.
    pub fn push(&mut self, data: &[u8])
        ensures
            final(self).pending() == old(self).pending() + data@,
    {
        buffer_extend(&mut self.buf, data);
        assert(self.pending() =~= old(self).pending() + data@);
    }

    /// The next complete message at the front of the pending bytes, which it consumes;
    /// `Ok(None)`, consuming nothing, while the frame at the front is not whole yet.
    ///
    /// However the bytes were split across pushes, frames come back whole and in order: the
    /// outcome depends only on the pending bytes, and the message is the first of their
    /// [`frames_of`], which then leaves the others (see [`lemma_frames_read_in_order`]). A
    /// malformed frame is a framing error.
    pub fn next_message(&mut self) -> (r: Result<Option<Message>, Error>)
        ensures
            incomplete_frame(old(self).pending()) ==> r matches Ok(None),
            r matches Ok(None) ==> (incomplete_frame(old(self).pending()) && final(self).pending()
                == old(self).pending()),
            r matches Ok(Some(m)) ==> ({
                let s = old(self).pending();
                &&& complete_frame(s)
                &&& frame_decoding(s.take(frame_len(s))) == Some(
                    (message_headers(m), message_payload(m)),
                )
                &&& final(self).pending() == s.skip(frame_len(s))
            }),
            complete_frame(old(self).pending()) && frame_decoding(
                old(self).pending().take(frame_len(old(self).pending())),
            ) is Some ==> r matches Ok(Some(_)),
            r matches Err(e) ==> e is Frame,
            r matches Ok(None) ==> frames_of(old(self).pending()).len() == 0,
            r matches Ok(Some(m)) ==> ({
                let s = old(self).pending();
                &&& frames_of(s).len() > 0
                &&& frame_decoding(frames_of(s)[0]) == Some((message_headers(m), message_payload(m)))
                &&& frames_of(s).drop_first() == frames_of(final(self).pending())
                &&& rest_of(s) == rest_of(final(self).pending())
            }),
    {
        let res = decoded_frame(decode_frame(&mut self.decoder, &mut self.buf));
        proof {
            if res matches Ok(Some(_)) {
                assert(self.pending() =~= buffered(self.buf));
            }
        }
        res
    }
}

/// The concatenation of a list of byte strings, in order.
pub open spec fn concat_all(parts: Seq<Seq<u8>>) -> Seq<u8>
    decreases parts.len(),
{
    if parts.len() == 0 {
        Seq::<u8>::empty()
    } else {
        parts[0] + concat_all(parts.drop_first())
    }
}

/// The bytes of one whole frame: at least a prelude and checksum, and exactly as long as its
/// length field says (what `encode_message` produces).
pub open spec fn is_whole_frame(f: Seq<u8>) -> bool {
    f.len() >= 16 && frame_len(f) == f.len()
}

/// A whole frame at the front of the pending bytes is exactly what the reader takes next,
/// whatever follows it.
pub proof fn lemma_whole_frame_at_front(f: Seq<u8>, rest: Seq<u8>)
    requires
        is_whole_frame(f),
    ensures
        complete_frame(f + rest),
        frame_len(f + rest) == f.len(),
        (f + rest).take(frame_len(f + rest)) == f,
        (f + rest).skip(frame_len(f + rest)) == rest,
{
    let s = f + rest;
    assert(s[0] == f[0] && s[1] == f[1] && s[2] == f[2] && s[3] == f[3]);
    assert(s.take(f.len() as int) =~= f);
    assert(s.skip(f.len() as int) =~= rest);
}

/// A frame that has only partly arrived is never handed back: the reader waits for the rest.
pub proof fn lemma_partial_frame_waits(f: Seq<u8>, k: int)
    requires
        is_whole_frame(f),
        0 <= k < f.len(),
    ensures
        incomplete_frame(f.take(k)),
{
    if k >= 12 {
        let s = f.take(k);
        assert(s[0] == f[0] && s[1] == f[1] && s[2] == f[2] && s[3] == f[3]);
    }
}

/// Frames come back in order: when the pending bytes are whole frames one after another,
/// followed by anything, the reader takes the first of them and leaves the others, in order,
/// followed by the same rest.
pub proof fn lemma_frames_in_order(frames: Seq<Seq<u8>>, rest: Seq<u8>)
    requires
        frames.len() > 0,
        forall|i: int| 0 <= i < frames.len() ==> is_whole_frame(#[trigger] frames[i]),
    ensures
        complete_frame(concat_all(frames) + rest),
        (concat_all(frames) + rest).take(frame_len(concat_all(frames) + rest)) == frames[0],
        (concat_all(frames) + rest).skip(frame_len(concat_all(frames) + rest)) == concat_all(
            frames.drop_first(),
        ) + rest,
{
    let tail = concat_all(frames.drop_first()) + rest;
    assert(concat_all(frames) + rest =~= frames[0] + tail);
    assert(is_whole_frame(frames[0]));
    lemma_whole_frame_at_front(frames[0], tail);
}

/// The frames that stand one after another at the front of these bytes, in order, as a reader
/// takes them: while a whole frame (as long as its length field says) is at the front, it is
/// taken and the reading goes on after it.
pub open spec fn frames_of(s: Seq<u8>) -> Seq<Seq<u8>>
    decreases s.len(),
{
    if complete_frame(s) {
        seq![s.take(frame_len(s))] + frames_of(s.skip(frame_len(s)))
    } else {
        Seq::<Seq<u8>>::empty()
    }
}

/// The bytes left after the frames at the front of `s` are taken: the start of a frame that
/// has not fully arrived, or nothing.
pub open spec fn rest_of(s: Seq<u8>) -> Seq<u8>
    decreases s.len(),
{
    if complete_frame(s) {
        rest_of(s.skip(frame_len(s)))
    } else {
        s
    }
}

/// The frames that a reader holding `pending` hands back when it is given these chunks one
/// push at a time and, after each push, asked for messages until it has no whole frame left.
pub open spec fn frames_read(pending: Seq<u8>, chunks: Seq<Seq<u8>>) -> Seq<Seq<u8>>
    decreases chunks.len(),
{
    if chunks.len() == 0 {
        frames_of(pending)
    } else {
        let s = pending + chunks[0];
        frames_of(s) + frames_read(rest_of(s), chunks.drop_first())
    }
}

/// The bytes such a reader still holds at the end.
pub open spec fn pending_after(pending: Seq<u8>, chunks: Seq<Seq<u8>>) -> Seq<u8>
    decreases chunks.len(),
{
    if chunks.len() == 0 {
        rest_of(pending)
    } else {
        pending_after(rest_of(pending + chunks[0]), chunks.drop_first())
    }
}

/// Taking frames does not look past the end of a frame: the frames of `s + t` are the frames
/// of `s` followed by the frames of what `s` leaves, followed by `t`.
pub proof fn lemma_frames_of_append(s: Seq<u8>, t: Seq<u8>)
    ensures
        frames_of(s + t) == frames_of(s) + frames_of(rest_of(s) + t),
        rest_of(s + t) == rest_of(rest_of(s) + t),
    decreases s.len(),
{
    if complete_frame(s) {
        let n = frame_len(s);
        let st = s + t;
        assert(st[0] == s[0] && st[1] == s[1] && st[2] == s[2] && st[3] == s[3]);
        assert(frame_len(st) == n);
        assert(st.take(n) =~= s.take(n));
        assert(st.skip(n) =~= s.skip(n) + t);
        lemma_frames_of_append(s.skip(n), t);
        assert(frames_of(st) =~= seq![s.take(n)] + frames_of(s.skip(n) + t));
        assert(frames_of(s) =~= seq![s.take(n)] + frames_of(s.skip(n)));
        assert(frames_of(st) =~= frames_of(s) + frames_of(rest_of(s) + t));
    } else {
        assert(frames_of(s) + frames_of(s + t) =~= frames_of(s + t));
    }
}

/// How the bytes were split does not matter: a reader drained after each push hands back the
/// frames of all the bytes pushed, taken as one, and keeps what they leave.
pub proof fn lemma_split_does_not_matter(pending: Seq<u8>, chunks: Seq<Seq<u8>>)
    ensures
        frames_read(pending, chunks) == frames_of(pending + concat_all(chunks)),
        pending_after(pending, chunks) == rest_of(pending + concat_all(chunks)),
    decreases chunks.len(),
{
    if chunks.len() == 0 {
        assert(pending + concat_all(chunks) =~= pending);
    } else {
        let s = pending + chunks[0];
        let tail = concat_all(chunks.drop_first());
        lemma_split_does_not_matter(rest_of(s), chunks.drop_first());
        lemma_frames_of_append(s, tail);
        assert(s + tail =~= pending + concat_all(chunks));
    }
}

/// Whole frames one after another, followed by a frame that has not fully arrived (or
/// nothing), are taken as exactly those frames, in order, and leave that partial frame.
pub proof fn lemma_whole_frames_taken(frames: Seq<Seq<u8>>, partial: Seq<u8>)
    requires
        forall|i: int| 0 <= i < frames.len() ==> is_whole_frame(#[trigger] frames[i]),
        incomplete_frame(partial),
    ensures
        frames_of(concat_all(frames) + partial) == frames,
        rest_of(concat_all(frames) + partial) == partial,
    decreases frames.len(),
{
    if frames.len() == 0 {
        assert(concat_all(frames) + partial =~= partial);
    } else {
        let s = concat_all(frames) + partial;
        lemma_frames_in_order(frames, partial);
        let tail = frames.drop_first();
        assert forall|i: int| 0 <= i < tail.len() implies is_whole_frame(#[trigger] tail[i]) by {
            assert(tail[i] == frames[i + 1]);
        }
        lemma_whole_frames_taken(tail, partial);
        assert(frames_of(s) =~= seq![frames[0]] + tail);
    }
}

/// Frames come back whole and in order, however the bytes were split. When the chunks pushed
/// into a fresh reader, one after another, make up whole frames (as `encode_message` writes
/// them) followed by the start of one more frame or by nothing, a reader asked for messages
/// after each push until it has none takes exactly those frames, in order, each of them once
/// (`next_message` hands each back as the message it decodes to, which for a frame that
/// `encode_message` wrote from a message without timestamp headers is that message), and is
/// left holding that partial frame, so that it answers `Ok(None)` until more bytes arrive.
pub proof fn lemma_frames_read_in_order(frames: Seq<Seq<u8>>, partial: Seq<u8>, chunks: Seq<Seq<u8>>)
    requires
        forall|i: int| 0 <= i < frames.len() ==> is_whole_frame(#[trigger] frames[i]),
        incomplete_frame(partial),
        concat_all(chunks) == concat_all(frames) + partial,
    ensures
        frames_read(Seq::<u8>::empty(), chunks) == frames,
        pending_after(Seq::<u8>::empty(), chunks) == partial,
        incomplete_frame(pending_after(Seq::<u8>::empty(), chunks)),
{
    lemma_split_does_not_matter(Seq::<u8>::empty(), chunks);
    assert(Seq::<u8>::empty() + concat_all(chunks) =~= concat_all(frames) + partial);
    lemma_whole_frames_taken(frames, partial);
}

/// What reading a frame gives for what the frame decoder reported: the decoded message (or
/// `None` when more bytes are needed) as it is, and the decoder's error text as a framing
/// error.
pub fn decoded_frame(r: Result<Option<Message>, String>) -> (res: Result<Option<Message>, Error>)
    ensures
        r matches Ok(m) ==> res == Ok::<Option<Message>, Error>(m),
        r matches Err(text) ==> (res matches Err(Error::Frame(s)) && s@ == text@),
{
    match r {
        Ok(m) => Ok(m),
        Err(text) => Err(Error::frame(text)),
    }
}

} // verus!
