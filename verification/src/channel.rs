//! Bounded FIFO queue carrying PCM frames from the audio producer to the
//! orchestrator.
//!
//! The producer never blocks: a send against a full queue drops the frame
//! and reports the drop.  The consumer drains frames strictly in the order
//! they were accepted.

use vstd::prelude::*;

verus! {

/// A bounded single-producer/single-consumer queue of PCM frames.
///
/// The view of a channel is the sequence of frames currently buffered,
/// oldest first.
pub struct FrameChannel {
    frames: Vec<Vec<i16>>,
    capacity: usize,
}

impl View for FrameChannel {
    type V = Seq<Seq<i16>>;

    closed spec fn view(&self) -> Seq<Seq<i16>> {
        self.frames.deep_view()
    }
}

/// What a non-blocking send does to the buffered frames: appends the frame
/// when there is room, drops it otherwise.
pub open spec fn send_model(buffered: Seq<Seq<i16>>, capacity: nat, frame: Seq<i16>) -> Seq<
    Seq<i16>,
> {
    if buffered.len() < capacity {
        buffered.push(frame)
    } else {
        buffered
    }
}

/// The buffered frames after sending each frame of `frames` in order.
pub open spec fn send_all(buffered: Seq<Seq<i16>>, capacity: nat, frames: Seq<Seq<i16>>) -> Seq<
    Seq<i16>,
>
    decreases frames.len(),
{
    if frames.len() == 0 {
        buffered
    } else {
        send_all(send_model(buffered, capacity, frames[0]), capacity, frames.drop_first())
    }
}

/// Frame ordering: as long as the queue does not overflow, the frames a
/// producer pushes are buffered exactly in push order, so the consumer
/// receives them in push order.
pub proof fn lemma_frames_delivered_in_order(
    buffered: Seq<Seq<i16>>,
    capacity: nat,
    frames: Seq<Seq<i16>>,
)
    requires
        buffered.len() + frames.len() <= capacity,
    ensures
        send_all(buffered, capacity, frames) == buffered + frames,
    decreases frames.len(),
{
    if frames.len() == 0 {
        assert(send_all(buffered, capacity, frames) =~= buffered + frames);
    } else {
        lemma_frames_delivered_in_order(buffered.push(frames[0]), capacity, frames.drop_first());
        assert(buffered.push(frames[0]) + frames.drop_first() =~= buffered + frames);
    }
}

/// Backpressure: a send against a full queue leaves the buffered frames
/// untouched.
pub proof fn lemma_full_queue_drops_frame(buffered: Seq<Seq<i16>>, capacity: nat, frame: Seq<i16>)
    requires
        buffered.len() >= capacity,
    ensures
        send_model(buffered, capacity, frame) == buffered,
{
}

impl FrameChannel {
    /// How many frames the channel accepts before it starts dropping.
    pub closed spec fn spec_capacity(&self) -> nat {
        self.capacity as nat
    }

    /// Every channel holds at most `capacity` frames.
    pub open spec fn inv(&self) -> bool {
        self@.len() <= self.spec_capacity()
    }

    pub fn new(capacity: usize) -> (c: FrameChannel)
        ensures
            c@ =~= Seq::<Seq<i16>>::empty(),
            c.spec_capacity() == capacity,
            c.inv(),
    {
        FrameChannel { frames: Vec::new(), capacity }
    }

    pub fn len(&self) -> (n: usize)
        ensures
            n == self@.len(),
    {
        self.frames.len()
    }

    pub fn capacity(&self) -> (n: usize)
        ensures
            n == self.spec_capacity(),
    {
        self.capacity
    }

    pub fn is_empty(&self) -> (b: bool)
        ensures
            b == (self@.len() == 0),
    {
        self.frames.len() == 0
    }

    /// Non-blocking send.  Returns whether the frame was accepted; a frame
    /// offered to a full channel is dropped, never queued out of order and
    /// never blocking the caller.
    pub fn try_send(&mut self, frame: Vec<i16>) -> (accepted: bool)
        requires
            old(self).inv(),
        ensures
            final(self).inv(),
            final(self).spec_capacity() == old(self).spec_capacity(),
            final(self)@ =~= send_model(old(self)@, old(self).spec_capacity(), frame@),
            accepted == (old(self)@.len() < old(self).spec_capacity()),
    {
        if self.frames.len() < self.capacity {
            self.frames.push(frame);
            proof {
                assert(frame.deep_view() =~= frame@);
                assert(self.frames.deep_view() =~= old(self).frames.deep_view().push(frame@));
            }
            true
        } else {
            false
        }
    }

    /// Receives the oldest buffered frame, if any.
    pub fn try_recv(&mut self) -> (r: Option<Vec<i16>>)
        requires
            old(self).inv(),
        ensures
            final(self).inv(),
            final(self).spec_capacity() == old(self).spec_capacity(),
            match r {
                Some(frame) => old(self)@.len() > 0 && frame@ == old(self)@[0] && final(self)@
                    =~= old(self)@.drop_first(),
                None => old(self)@.len() == 0 && final(self)@ =~= old(self)@,
            },
    {
        if self.frames.len() == 0 {
            None
        } else {
            let frame = self.frames.remove(0);
            assert(self.frames.deep_view() =~= old(self).frames.deep_view().drop_first());
            Some(frame)
        }
    }
}

} // verus!
