//! Frame accumulator for the zero-delimited byte stream.
//!
//! The accumulator consumes one byte at a time. A non-zero byte is
//! buffered; a zero byte closes the frame in progress and hands it
//! out with the delimiter stripped. Empty frames are discarded
//! silently, and a frame that outgrows the buffer is dropped.
//!
//! The spec-level [`acc_step`] and [`acc_feed`] functions model the
//! accumulator exactly; the lemmas at the bottom prove the framing
//! laws: a concatenation of valid frames is split back into exactly
//! those frames, zero runs are absorbed, and an oversized frame is
//! dropped without touching what follows.

use vstd::prelude::*;

use crate::config::{FRAME_DELIMITER, MAX_FRAME_SIZE};

verus! {

/// One step of the accumulator: the state after the byte, and the
/// frame the byte completes, if any.
pub open spec fn acc_step(state: Seq<u8>, byte: u8) -> (Seq<u8>, Option<Seq<u8>>) {
    if byte == 0 {
        if state.len() == 0 {
            (state, None)
        } else {
            (Seq::empty(), Some(state))
        }
    } else if state.len() < MAX_FRAME_SIZE {
        (state.push(byte), None)
    } else {
        (Seq::empty(), None)
    }
}

/// Feeding a whole byte stream: the final state and every frame
/// handed out, in order.
pub open spec fn acc_feed(state: Seq<u8>, stream: Seq<u8>) -> (Seq<u8>, Seq<Seq<u8>>)
    decreases stream.len(),
{
    if stream.len() == 0 {
        (state, Seq::empty())
    } else {
        let (mid, out) = acc_step(state, stream[0]);
        let (end, frames) = acc_feed(mid, stream.skip(1));
        match out {
            Some(f) => (end, seq![f] + frames),
            None => (end, frames),
        }
    }
}

/// A byte sequence that can sit in the accumulator: bounded and free
/// of delimiter bytes.
pub open spec fn frame_wf(frame: Seq<u8>) -> bool {
    frame.len() <= MAX_FRAME_SIZE && forall|i: int| 0 <= i < frame.len() ==> frame[i] != 0
}

/// Accumulates incoming bytes and extracts complete frames.
pub struct FrameAccumulator {
    buffer: Vec<u8>,
}

impl View for FrameAccumulator {
    type V = Seq<u8>;

    closed spec fn view(&self) -> Seq<u8> {
        self.buffer@
    }
}

impl FrameAccumulator {
    /// The buffer never outgrows its bound and never holds a delimiter.
    pub open spec fn wf(&self) -> bool {
        frame_wf(self@)
    }

    /// Create a new, empty frame accumulator.
    pub fn new() -> (r: FrameAccumulator)
        ensures
            r@ == Seq::<u8>::empty(),
            r.wf(),
    {
        FrameAccumulator { buffer: Vec::new() }
    }

    /// Push a byte into the accumulator.
    ///
    /// Returns the completed frame when the byte is the delimiter and
    /// a frame was in progress; otherwise returns nothing, clearing
    /// the buffer when the byte would overflow it.
    pub fn push(&mut self, byte: u8) -> (r: Option<Vec<u8>>)
        requires
            old(self).wf(),
        ensures
            final(self).wf(),
            final(self)@ == acc_step(old(self)@, byte).0,
            match r {
                Some(frame) => acc_step(old(self)@, byte).1 == Some(frame@),
                None => acc_step(old(self)@, byte).1 is None,
            },
    {
        if byte == FRAME_DELIMITER {
            if self.buffer.len() == 0 {
                return None;
            }
            let mut frame: Vec<u8> = Vec::new();
            core::mem::swap(&mut frame, &mut self.buffer);
            return Some(frame);
        }
        if self.buffer.len() < MAX_FRAME_SIZE {
            self.buffer.push(byte);
            return None;
        }
        // overflow: drop the frame in flight
        self.buffer.clear();
        None
    }

    /// Reset the accumulator, discarding any partial frame.
    pub fn reset(&mut self)
        ensures
            final(self)@ == Seq::<u8>::empty(),
            final(self).wf(),
    {
        self.buffer.clear();
    }

    /// Returns true when no partial frame is in progress.
    pub fn is_empty(&self) -> (r: bool)
        ensures
            r == (self@.len() == 0),
    {
        self.buffer.len() == 0
    }

    /// Returns the number of bytes buffered so far.
    pub fn len(&self) -> (r: usize)
        ensures
            r == self@.len(),
    {
        self.buffer.len()
    }
}

impl Default for FrameAccumulator {
    fn default() -> (r: FrameAccumulator)
        ensures
            r@ == Seq::<u8>::empty(),
            r.wf(),
    {
        FrameAccumulator::new()
    }
}

/// Feeding a concatenation feeds the two parts one after the other.
pub proof fn lemma_acc_feed_concat(state: Seq<u8>, a: Seq<u8>, b: Seq<u8>)
    ensures
        acc_feed(state, a + b).0 == acc_feed(acc_feed(state, a).0, b).0,
        acc_feed(state, a + b).1 == acc_feed(state, a).1 + acc_feed(acc_feed(state, a).0, b).1,
    decreases a.len(),
{
    if a.len() == 0 {
        assert(a + b =~= b);
        assert(acc_feed(state, a).1 + acc_feed(acc_feed(state, a).0, b).1 =~= acc_feed(
            state,
            b,
        ).1);
    } else {
        assert((a + b)[0] == a[0]);
        let (mid, out) = acc_step(state, a[0]);
        lemma_acc_feed_concat(mid, a.skip(1), b);
        assert((a + b).skip(1) =~= a.skip(1) + b);
        match out {
            Some(f) => {
                assert(acc_feed(state, a + b).1 =~= seq![f] + acc_feed(mid, a.skip(1) + b).1);
                assert(seq![f] + (acc_feed(mid, a.skip(1)).1 + acc_feed(
                    acc_feed(mid, a.skip(1)).0,
                    b,
                ).1) =~= (seq![f] + acc_feed(mid, a.skip(1)).1) + acc_feed(
                    acc_feed(mid, a.skip(1)).0,
                    b,
                ).1);
            },
            None => {
            },
        }
    }
}

/// Feeding non-delimiter bytes that fit just buffers them: no frame
/// comes out.
pub proof fn lemma_acc_feed_data(state: Seq<u8>, data: Seq<u8>)
    requires
        state.len() + data.len() <= MAX_FRAME_SIZE,
        forall|i: int| 0 <= i < data.len() ==> data[i] != 0,
    ensures
        acc_feed(state, data).0 == state + data,
        acc_feed(state, data).1 == Seq::<Seq<u8>>::empty(),
    decreases data.len(),
{
    if data.len() == 0 {
        assert(state + data =~= state);
    } else {
        let (mid, out) = acc_step(state, data[0]);
        assert(mid == state.push(data[0]));
        assert forall|i: int| 0 <= i < data.skip(1).len() implies data.skip(1)[i] != 0 by {
            assert(data.skip(1)[i] == data[i + 1]);
        }
        lemma_acc_feed_data(mid, data.skip(1));
        assert(state.push(data[0]) + data.skip(1) =~= state + data);
    }
}

/// Feeding one valid frame and its delimiter from an empty
/// accumulator hands exactly that frame back and leaves the
/// accumulator empty.
pub proof fn lemma_acc_feed_one_frame(frame: Seq<u8>)
    requires
        frame_wf(frame),
        frame.len() >= 1,
    ensures
        acc_feed(Seq::empty(), frame + seq![0u8]).0 == Seq::<u8>::empty(),
        acc_feed(Seq::empty(), frame + seq![0u8]).1 == seq![frame],
{
    lemma_acc_feed_data(Seq::empty(), frame);
    lemma_acc_feed_concat(Seq::empty(), frame, seq![0u8]);
    assert(Seq::empty() + frame =~= frame);
    let stream = seq![0u8];
    assert(stream[0] == 0);
    assert(stream.skip(1) =~= Seq::<u8>::empty());
    assert(acc_step(frame, 0) == (Seq::<u8>::empty(), Some(frame)));
    assert(acc_feed(Seq::<u8>::empty(), stream.skip(1)) == (
        Seq::<u8>::empty(),
        Seq::<Seq<u8>>::empty(),
    ));
    assert(acc_feed(frame, stream).0 =~= Seq::<u8>::empty());
    assert(acc_feed(frame, stream).1 =~= seq![frame]);
    assert(acc_feed(Seq::empty(), frame + seq![0u8]).1 =~= seq![frame]);
}

/// The byte stream that carries the given frames: each one followed
/// by the zero delimiter.
pub open spec fn frames_stream(frames: Seq<Seq<u8>>) -> Seq<u8>
    decreases frames.len(),
{
    if frames.len() == 0 {
        Seq::empty()
    } else {
        frames[0] + seq![0u8] + frames_stream(frames.skip(1))
    }
}

/// Splitting is the inverse of framing: feeding a concatenation of
/// valid delimited frames to an empty accumulator yields exactly
/// those frames, in order, and leaves the accumulator empty.
pub proof fn lemma_acc_feed_frames(frames: Seq<Seq<u8>>)
    requires
        forall|k: int| 0 <= k < frames.len() ==> frame_wf(#[trigger] frames[k]) && frames[
            k
        ].len() >= 1,
    ensures
        acc_feed(Seq::empty(), frames_stream(frames)).0 == Seq::<u8>::empty(),
        acc_feed(Seq::empty(), frames_stream(frames)).1 == frames,
    decreases frames.len(),
{
    if frames.len() == 0 {
        assert(acc_feed(Seq::empty(), frames_stream(frames)).1 =~= frames);
    } else {
        let first = frames[0];
        let rest = frames.skip(1);
        assert(frame_wf(first) && first.len() >= 1);
        assert forall|k: int| 0 <= k < rest.len() implies frame_wf(#[trigger] rest[k]) && rest[
            k
        ].len() >= 1 by {
            assert(rest[k] == frames[k + 1]);
        }
        lemma_acc_feed_frames(rest);
        lemma_acc_feed_one_frame(first);
        lemma_acc_feed_concat(Seq::empty(), first + seq![0u8], frames_stream(rest));
        assert(frames_stream(frames) =~= (first + seq![0u8]) + frames_stream(rest));
        assert(acc_feed(Seq::empty(), frames_stream(frames)).1 =~= seq![first] + rest);
        assert(seq![first] + rest =~= frames);
    }
}

/// Runs of delimiter bytes are absorbed with no effect.
pub proof fn lemma_acc_feed_zeros(zeros: Seq<u8>)
    requires
        forall|i: int| 0 <= i < zeros.len() ==> zeros[i] == 0,
    ensures
        acc_feed(Seq::empty(), zeros).0 == Seq::<u8>::empty(),
        acc_feed(Seq::empty(), zeros).1 == Seq::<Seq<u8>>::empty(),
    decreases zeros.len(),
{
    if zeros.len() > 0 {
        assert forall|i: int| 0 <= i < zeros.skip(1).len() implies zeros.skip(1)[i] == 0 by {
            assert(zeros.skip(1)[i] == zeros[i + 1]);
        }
        lemma_acc_feed_zeros(zeros.skip(1));
    }
}

/// Zero runs in front of any stream leave its framing unchanged.
pub proof fn lemma_acc_feed_zeros_then(zeros: Seq<u8>, rest: Seq<u8>)
    requires
        forall|i: int| 0 <= i < zeros.len() ==> zeros[i] == 0,
    ensures
        acc_feed(Seq::empty(), zeros + rest) == acc_feed(Seq::<u8>::empty(), rest),
{
    lemma_acc_feed_zeros(zeros);
    lemma_acc_feed_concat(Seq::empty(), zeros, rest);
    assert(acc_feed(Seq::empty(), zeros + rest).1 =~= acc_feed(Seq::<u8>::empty(), rest).1);
}

/// Every frame the accumulator hands out is non-empty and bounded,
/// provided the starting state is.
pub proof fn lemma_acc_feed_frames_bounded(state: Seq<u8>, stream: Seq<u8>)
    requires
        state.len() <= MAX_FRAME_SIZE,
    ensures
        acc_feed(state, stream).0.len() <= MAX_FRAME_SIZE,
        forall|k: int| 0 <= k < acc_feed(state, stream).1.len() ==> 1 <= (#[trigger] acc_feed(
            state,
            stream,
        ).1[k]).len() <= MAX_FRAME_SIZE,
    decreases stream.len(),
{
    if stream.len() > 0 {
        let (mid, out) = acc_step(state, stream[0]);
        lemma_acc_feed_frames_bounded(mid, stream.skip(1));
        match out {
            Some(f) => {
                let all = seq![f] + acc_feed(mid, stream.skip(1)).1;
                assert forall|k: int| 0 <= k < all.len() implies 1 <= (#[trigger] all[k]).len()
                    <= MAX_FRAME_SIZE by {
                    if k > 0 {
                        assert(all[k] == acc_feed(mid, stream.skip(1)).1[k - 1]);
                    }
                }
            },
            None => {
            },
        }
    }
}

/// A frame larger than the accumulator capacity is dropped: it never
/// comes out whole, the accumulator is empty again after its
/// delimiter, and what follows is framed exactly as from a fresh
/// accumulator.
pub proof fn lemma_acc_oversized_frame_dropped(oversized: Seq<u8>, rest: Seq<u8>)
    requires
        oversized.len() > MAX_FRAME_SIZE,
        forall|i: int| 0 <= i < oversized.len() ==> oversized[i] != 0,
    ensures
        ({
            let (end, fs) = acc_feed(Seq::empty(), oversized + seq![0u8] + rest);
            let (end_fresh, fs_fresh) = acc_feed(Seq::<u8>::empty(), rest);
            let garbage = acc_feed(Seq::<u8>::empty(), oversized + seq![0u8]).1;
            end == end_fresh && fs == garbage + fs_fresh && forall|k: int|
                0 <= k < garbage.len() ==> garbage[k] != oversized
        }),
{
    let prefix = oversized + seq![0u8];
    lemma_acc_feed_frames_bounded(Seq::empty(), prefix);
    let mid = acc_feed(Seq::<u8>::empty(), prefix).0;
    let garbage = acc_feed(Seq::<u8>::empty(), prefix).1;
    // the delimiter at the end leaves the accumulator empty
    lemma_acc_feed_concat(Seq::empty(), oversized, seq![0u8]);
    let s1 = acc_feed(Seq::<u8>::empty(), oversized).0;
    let stream = seq![0u8];
    assert(stream[0] == 0);
    assert(stream.skip(1) =~= Seq::<u8>::empty());
    if s1.len() == 0 {
        assert(acc_feed(s1, stream.skip(1)) == (s1, Seq::<Seq<u8>>::empty()));
        assert(acc_feed(s1, stream).0 =~= Seq::<u8>::empty());
    } else {
        assert(acc_step(s1, 0) == (Seq::<u8>::empty(), Some(s1)));
        assert(acc_feed(Seq::<u8>::empty(), stream.skip(1)) == (
            Seq::<u8>::empty(),
            Seq::<Seq<u8>>::empty(),
        ));
        assert(acc_feed(s1, stream).0 =~= Seq::<u8>::empty());
    }
    assert(mid =~= Seq::<u8>::empty());
    lemma_acc_feed_concat(Seq::empty(), prefix, rest);
    assert(oversized + seq![0u8] + rest =~= prefix + rest);
    assert forall|k: int| 0 <= k < garbage.len() implies garbage[k] != oversized by {
        assert(garbage[k].len() <= MAX_FRAME_SIZE);
    }
}

} // verus!
