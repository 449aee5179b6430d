use vstd::prelude::*;

use rustc_serialize::Decodable;

use crate::codec::{decode_prefix, DecodeError};
use crate::limit::SizeLimit;

verus! {

/// What an inbound stream's reader does after one decoding attempt.
#[derive(Debug)]
pub enum ReadStep<T> {
    /// A value was decoded; it is to be delivered to the consumer.
    Item(T),
    /// The buffered bytes end inside a value; more input is needed.
    NeedMore,
    /// The peer closed the connection at a value boundary: a graceful end.
    Finished,
    /// Decoding failed; this is the stream's one terminal error.
    Failed(DecodeError),
    /// The reader had already stopped; nothing was decoded.
    Stopped,
}

/// The decoding side of an inbound stream: the bytes received so far and not
/// yet decoded, the read limit, and whether the reader still runs.
///
/// Bytes are handed over in the order in which the connection delivered
/// them, in pieces of any size; values are decoded from the front.
pub struct InboundDecoder {
    buffer: Vec<u8>,
    read_limit: SizeLimit,
    running: bool,
    received: Ghost<Seq<u8>>,
    consumed: Ghost<Seq<u8>>,
}

impl InboundDecoder {
    /// The bytes received and not yet decoded.
    pub closed spec fn buffered(&self) -> Seq<u8> {
        self.buffer@
    }

    /// Every byte handed to the decoder while it ran, in order.
    pub closed spec fn received(&self) -> Seq<u8> {
        self.received@
    }

    /// The bytes that decoded values were read from, in order.
    pub closed spec fn consumed(&self) -> Seq<u8> {
        self.consumed@
    }

    pub closed spec fn limit(&self) -> SizeLimit {
        self.read_limit
    }

    pub closed spec fn running(&self) -> bool {
        self.running
    }

    /// What was received is what was decoded followed by what is buffered.
    pub closed spec fn wf(&self) -> bool {
        self.received@ == self.consumed@ + self.buffer@
    }

    /// A running decoder with nothing received.
    pub fn new(read_limit: SizeLimit) -> (r: InboundDecoder)
        ensures
            r.wf(),
            r.running(),
            r.limit() == read_limit,
            r.buffered() == Seq::<u8>::empty(),
            r.received() == Seq::<u8>::empty(),
            r.consumed() == Seq::<u8>::empty(),
    {
        InboundDecoder {
            buffer: Vec::new(),
            read_limit,
            running: true,
            received: Ghost(Seq::empty()),
            consumed: Ghost(Seq::empty()),
        }
    }

    pub fn is_running(&self) -> (r: bool)
        ensures
            r == self.running(),
    {
        self.running
    }

    pub fn read_limit(&self) -> (r: SizeLimit)
        ensures
            r == self.limit(),
    {
        self.read_limit
    }

    /// Hands over the next bytes that the connection delivered. A stopped
    /// decoder takes no more bytes.
    pub fn feed(&mut self, chunk: &[u8])
        requires
            old(self).wf(),
        ensures
            final(self).wf(),
            final(self).running() == old(self).running(),
            final(self).limit() == old(self).limit(),
            final(self).consumed() == old(self).consumed(),
            old(self).running() ==> final(self).buffered() == old(self).buffered() + chunk@,
            old(self).running() ==> final(self).received() == old(self).received() + chunk@,
            !old(self).running() ==> final(self).buffered() == old(self).buffered(),
            !old(self).running() ==> final(self).received() == old(self).received(),
    {
        if !self.running {
            return;
        }
        let ghost start = self.buffer@;
        let mut i: usize = 0;
        while i < chunk.len()
            invariant
                i <= chunk@.len(),
                self.buffer@ == start + chunk@.subrange(0, i as int),
                self.running == old(self).running,
                self.read_limit == old(self).read_limit,
                self.received == old(self).received,
                self.consumed == old(self).consumed,
                old(self).wf(),
                start == old(self).buffer@,
            decreases chunk@.len() - i,
        {
            self.buffer.push(chunk[i]);
            i = i + 1;
            assert(self.buffer@ == start + chunk@.subrange(0, i as int));
        }
        assert(chunk@.subrange(0, chunk@.len() as int) == chunk@);
        self.received = Ghost(self.received@ + chunk@);
        assert(self.received@ =~= self.consumed@ + self.buffer@);
    }

    /// The consumer went away: the reader stops and takes no more bytes.
    pub fn stop(&mut self)
        ensures
            !final(self).running(),
            final(self).buffered() == old(self).buffered(),
            final(self).received() == old(self).received(),
            final(self).consumed() == old(self).consumed(),
            final(self).limit() == old(self).limit(),
            old(self).wf() ==> final(self).wf(),
    {
        self.running = false;
    }

    /// Decides on a failed read of the connection: an interrupted read is
    /// tried again; any other failure stops the reader and is its terminal
    /// error. A stopped reader has nothing to report.
    pub fn read_failed(&mut self, interrupted: bool) -> (r: Option<DecodeError>)
        requires
            old(self).wf(),
        ensures
            final(self).wf(),
            final(self).buffered() == old(self).buffered(),
            final(self).received() == old(self).received(),
            final(self).consumed() == old(self).consumed(),
            final(self).limit() == old(self).limit(),
            old(self).running() && !interrupted ==> r == Some(DecodeError::Io) && !final(self).running(),
            !(old(self).running() && !interrupted) ==> r is None && final(self).running() == old(self).running(),
    {
        if self.running && !interrupted {
            self.running = false;
            Some(DecodeError::Io)
        } else {
            None
        }
    }

    /// Drops the first `used` buffered bytes, which a decoded value was read from.
    fn discard_front(&mut self, used: usize)
        requires
            old(self).wf(),
            used <= old(self).buffered().len(),
        ensures
            final(self).wf(),
            final(self).running() == old(self).running(),
            final(self).limit() == old(self).limit(),
            final(self).received() == old(self).received(),
            final(self).buffered() == old(self).buffered().subrange(used as int, old(self).buffered().len() as int),
            final(self).consumed() == old(self).consumed() + old(self).buffered().subrange(0, used as int),
    {
        let ghost old_buf = self.buffer@;
        let mut rest: Vec<u8> = Vec::new();
        let mut i: usize = used;
        while i < self.buffer.len()
            invariant
                self.buffer@ == old_buf,
                self.running == old(self).running,
                self.read_limit == old(self).read_limit,
                self.received == old(self).received,
                self.consumed == old(self).consumed,
                old(self).wf(),
                old_buf == old(self).buffer@,
                used <= i <= old_buf.len(),
                rest@ == old_buf.subrange(used as int, i as int),
            decreases old_buf.len() - i,
        {
            rest.push(self.buffer[i]);
            i = i + 1;
            assert(rest@ == old_buf.subrange(used as int, i as int));
        }
        self.buffer = rest;
        self.consumed = Ghost(self.consumed@ + old_buf.subrange(0, used as int));
        assert(old_buf == old_buf.subrange(0, used as int) + old_buf.subrange(used as int, old_buf.len() as int));
        assert(self.received@ =~= self.consumed@ + self.buffer@);
    }

    /// Takes the outcome of one decoding attempt on the buffered bytes (a
    /// value and the count of bytes left unread, or an error) and decides the
    /// reader's step. `at_end` says whether the peer has closed its side. A
    /// value read from more bytes than the read limit admits is refused.
    pub fn advance<T>(&mut self, outcome: Result<(T, usize), DecodeError>, at_end: bool) -> (r: ReadStep<T>)
        requires
            old(self).wf(),
            outcome matches Ok((_, rest)) ==> rest <= old(self).buffered().len(),
        ensures
            final(self).wf(),
            final(self).limit() == old(self).limit(),
            final(self).received() == old(self).received(),
            !old(self).running() ==> r is Stopped && final(self).buffered() == old(self).buffered()
                && final(self).consumed() == old(self).consumed() && !final(self).running(),
            old(self).running() && old(self).buffered().len() == 0 && at_end ==> r is Finished
                && !final(self).running() && final(self).buffered() == old(self).buffered()
                && final(self).consumed() == old(self).consumed(),
            old(self).running() && !(old(self).buffered().len() == 0 && at_end) ==> match outcome {
                Ok((v, rest)) => {
                    let used = old(self).buffered().len() - rest;
                    if old(self).limit().admits_spec(used as nat) {
                        &&& r == ReadStep::Item(v)
                        &&& final(self).running()
                        &&& final(self).buffered() == old(self).buffered().subrange(used, old(self).buffered().len() as int)
                        &&& final(self).consumed() == old(self).consumed() + old(self).buffered().subrange(0, used)
                    } else {
                        &&& r == ReadStep::<T>::Failed(DecodeError::SizeLimit)
                        &&& !final(self).running()
                        &&& final(self).buffered() == old(self).buffered()
                        &&& final(self).consumed() == old(self).consumed()
                    }
                },
                Err(e) => {
                    &&& final(self).buffered() == old(self).buffered()
                    &&& final(self).consumed() == old(self).consumed()
                    &&& if e == DecodeError::EndOfStream && !at_end {
                        r is NeedMore && final(self).running()
                    } else {
                        r == ReadStep::<T>::Failed(e) && !final(self).running()
                    }
                },
            },
    {
        if !self.running {
            return ReadStep::Stopped;
        }
        if self.buffer.len() == 0 && at_end {
            self.running = false;
            return ReadStep::Finished;
        }
        match outcome {
            Ok((v, rest)) => {
                let used = self.buffer.len() - rest;
                if !self.read_limit.admits(used as u64) {
                    self.running = false;
                    return ReadStep::Failed(DecodeError::SizeLimit);
                }
                self.discard_front(used);
                ReadStep::Item(v)
            },
            Err(e) => {
                if e == DecodeError::EndOfStream && !at_end {
                    ReadStep::NeedMore
                } else {
                    self.running = false;
                    ReadStep::Failed(e)
                }
            },
        }
    }

    /// Tries to decode the next value from the front of the buffered bytes
    /// and decides the reader's step (see `advance`). A decoded value was
    /// read from at most as many bytes as the read limit admits.
    pub fn next<T: Decodable>(&mut self, at_end: bool) -> (r: ReadStep<T>)
        requires
            old(self).wf(),
        ensures
            final(self).wf(),
            final(self).limit() == old(self).limit(),
            final(self).received() == old(self).received(),
            !old(self).running() ==> r is Stopped && final(self).buffered() == old(self).buffered()
                && !final(self).running(),
            old(self).running() && old(self).buffered().len() == 0 && at_end ==> r is Finished
                && !final(self).running(),
            r is Item ==> old(self).running() && final(self).running() && exists|used: int|
                0 <= used <= old(self).buffered().len() && old(self).limit().admits_spec(used as nat)
                && final(self).buffered() == old(self).buffered().subrange(used, old(self).buffered().len() as int)
                && final(self).consumed() == old(self).consumed() + old(self).buffered().subrange(0, used),
            r is NeedMore ==> !at_end && final(self).running() && final(self).buffered() == old(self).buffered(),
            r is Failed ==> !final(self).running() && final(self).buffered() == old(self).buffered(),
            r matches ReadStep::Failed(e) ==> (e == DecodeError::EndOfStream ==> at_end),
            !(r is Item) ==> final(self).consumed() == old(self).consumed(),
    {
        let outcome = decode_prefix::<T>(self.buffer.as_slice(), self.read_limit);
        let ghost g = outcome;
        let r = self.advance(outcome, at_end);
        proof {
            if let Ok((_, rest)) = g {
                let used = old(self).buffered().len() - rest;
                if r is Item {
                    assert(0 <= used <= old(self).buffered().len());
                }
            }
        }
        r
    }
}

/// Bytes leave the decoder in the order in which they came, with none lost
/// or repeated: what was decoded is always a prefix of what was received,
/// and the rest of it is exactly what stays buffered.
pub proof fn lemma_decoded_in_arrival_order(d: &InboundDecoder)
    requires
        d.wf(),
    ensures
        d.consumed().is_prefix_of(d.received()),
        d.received().subrange(d.consumed().len() as int, d.received().len() as int) == d.buffered(),
{
    assert(d.received() == d.consumed() + d.buffered());
    assert(d.received().subrange(0, d.consumed().len() as int) == d.consumed());
    assert(d.received().subrange(d.consumed().len() as int, d.received().len() as int) == d.buffered());
}

/// Frames are taken one after another: when the buffer holds `f1 + f2 +
/// tail` and a value is decoded from exactly `f1`, the next decoding starts at
/// the first byte of `f2`; when that one is decoded from exactly `f2`, `tail`
/// is what stays buffered, and `f1` then `f2` were consumed, in that order.
/// The steps are those that `advance` states for a decoded value.
pub proof fn lemma_frames_taken_in_turn(
    d0: InboundDecoder,
    d1: InboundDecoder,
    d2: InboundDecoder,
    f1: Seq<u8>,
    f2: Seq<u8>,
    tail: Seq<u8>,
)
    requires
        d0.buffered() == f1 + f2 + tail,
        d1.buffered() == d0.buffered().subrange(f1.len() as int, d0.buffered().len() as int),
        d1.consumed() == d0.consumed() + d0.buffered().subrange(0, f1.len() as int),
        d2.buffered() == d1.buffered().subrange(f2.len() as int, d1.buffered().len() as int),
        d2.consumed() == d1.consumed() + d1.buffered().subrange(0, f2.len() as int),
    ensures
        d1.buffered() == f2 + tail,
        d2.buffered() == tail,
        d2.consumed() == d0.consumed() + f1 + f2,
{
    assert(d1.buffered() =~= f2 + tail);
    assert(d2.buffered() =~= tail);
    assert(d0.buffered().subrange(0, f1.len() as int) =~= f1);
    assert(d1.buffered().subrange(0, f2.len() as int) =~= f2);
}

/// How the connection cuts its bytes into pieces does not matter: feeding
/// `c1` then `c2` to a running decoder leaves it with the same buffered and
/// received bytes as feeding `c1 + c2` at once, so the values decoded next are
/// the same. The steps are those that `feed` states.
pub proof fn lemma_chunking_is_invisible(
    d0: InboundDecoder,
    d1: InboundDecoder,
    d2: InboundDecoder,
    whole: InboundDecoder,
    c1: Seq<u8>,
    c2: Seq<u8>,
)
    requires
        d0.running(),
        d1.running() == d0.running(),
        d1.buffered() == d0.buffered() + c1,
        d1.received() == d0.received() + c1,
        d2.buffered() == d1.buffered() + c2,
        d2.received() == d1.received() + c2,
        whole.buffered() == d0.buffered() + (c1 + c2),
        whole.received() == d0.received() + (c1 + c2),
    ensures
        d2.buffered() == whole.buffered(),
        d2.received() == whole.received(),
{
    assert(d2.buffered() =~= whole.buffered());
    assert(d2.received() =~= whole.received());
}

} // verus!
